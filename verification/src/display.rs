//! Display helpers for the dashboard cells: shortening executable paths to a
//! column width and formatting failure durations.

use vstd::prelude::*;
use crate::strutil::{
    char_seq, chars_eq, chars_string, eq_at, push_all, spec_split, spec_u64_chars, split_chars,
    subvec, u64_chars,
};

verus! {

/// `suffix` is a final segment of `s`.
pub open spec fn spec_ends_with(s: Seq<char>, suffix: Seq<char>) -> bool {
    s.len() >= suffix.len() && s.subrange(s.len() - suffix.len(), s.len() as int) == suffix
}

fn ends_with_chars(s: &Vec<char>, suffix: &Vec<char>) -> (r: bool)
    ensures
        r == spec_ends_with(s@, suffix@),
{
    if suffix.len() > s.len() {
        return false;
    }
    eq_at(s, suffix, s.len() - suffix.len())
}

/// How the path prefix before the filename is packed into the available
/// width: leading components are kept greedily; the first component that no
/// longer fits ends the prefix with an ellipsis, shortened itself if nothing
/// fitted at all.
pub open spec fn spec_shorten_prefix(
    parts: Seq<Seq<char>>,
    i: int,
    used: int,
    available: int,
    acc: Seq<char>,
) -> Seq<char>
    decreases parts.len() - i when i >= 0
{
    if i < 0 || i >= parts.len() - 1 {
        acc
    } else {
        let part = parts[i];
        if i == 0 && part.len() == 0 {
            spec_shorten_prefix(parts, i + 1, used, available, acc)
        } else {
            let part_len: int = if i == 0 {
                part.len() as int + 1
            } else {
                part.len() as int
            };
            if used + part_len <= available {
                let acc1 = if i == 0 {
                    acc.push('/')
                } else {
                    acc
                };
                let acc2 = acc1 + part;
                let acc3 = if i < parts.len() - 2 {
                    acc2.push('/')
                } else {
                    acc2
                };
                spec_shorten_prefix(parts, i + 1, used + part_len + 1, available, acc3)
            } else if used == 0 && part.len() > 0 {
                let shortened = if part.len() > 4 {
                    part.subrange(0, 3)
                } else {
                    part
                };
                acc + seq!['/'] + shortened + "..."@
            } else {
                acc + "..."@
            }
        }
    }
}

/// A path shortened to at most roughly `max_len` characters: short paths and
/// the placeholder pass through; the filename is always kept (itself
/// truncated from the left when alone too wide); what room remains shows the
/// leading path components, ended with an ellipsis where they were cut.
pub open spec fn spec_shorten_path(path: Seq<char>, max_len: int) -> Seq<char> {
    if path == "N/A"@ || path.len() <= max_len {
        path
    } else {
        let parts = spec_split(path, '/');
        let filename = parts.last();
        if filename.len() >= max_len - 3 {
            "..."@ + filename.subrange(filename.len() - (max_len - 3), filename.len() as int)
        } else {
            let available = max_len - filename.len() - 4;
            let raw = spec_shorten_prefix(parts, 0, 0, available, Seq::empty());
            let base = if raw.len() == 0 {
                "..."@
            } else if !spec_ends_with(raw, "..."@) && raw.last() != '/' {
                raw.push('/')
            } else {
                raw
            };
            base + filename
        }
    }
}

fn shorten_prefix_rec(
    parts: &Vec<Vec<char>>,
    i: usize,
    used: usize,
    available: usize,
    acc: Vec<char>,
) -> (r: Vec<char>)
    requires
        parts@.len() >= 1,
        available < usize::MAX,
        used <= available + 1,
    ensures
        r@ == spec_shorten_prefix(parts.deep_view(), i as int, used as int, available as int, acc@),
    decreases parts@.len() - i,
{
    proof {
        assert(parts.deep_view().len() == parts@.len());
    }
    if i >= parts.len() - 1 {
        return acc;
    }
    let part = &parts[i];
    proof {
        assert(parts.deep_view()[i as int] =~= part@);
    }
    if i == 0 && part.len() == 0 {
        return shorten_prefix_rec(parts, i + 1, used, available, acc);
    }
    let fits: bool = if i == 0 {
        used <= available && available - used >= 1 && part.len() <= available - used - 1
    } else {
        used <= available && part.len() <= available - used
    };
    proof {
        let part_len: int = if i == 0 {
            part@.len() as int + 1
        } else {
            part@.len() as int
        };
        assert(fits == (used + part_len <= available));
    }
    if fits {
        let mut acc1 = acc;
        if i == 0 {
            acc1.push('/');
        }
        push_all(&mut acc1, part);
        if i + 1 < parts.len() - 1 {
            acc1.push('/');
        }
        proof {
            assert((i as int) < parts.deep_view().len() - 2 <==> i + 1 < parts@.len() - 1);
        }
        let used_new: usize = if i == 0 {
            used + part.len() + 2
        } else {
            used + part.len() + 1
        };
        shorten_prefix_rec(parts, i + 1, used_new, available, acc1)
    } else if used == 0 && part.len() > 0 {
        let mut out = acc;
        out.push('/');
        if part.len() > 4 {
            let short = subvec(part, 0, 3);
            push_all(&mut out, &short);
        } else {
            push_all(&mut out, part);
        }
        let dots = char_seq("...");
        push_all(&mut out, &dots);
        proof {
            assert(out@ =~= spec_shorten_prefix(
                parts.deep_view(),
                i as int,
                used as int,
                available as int,
                acc@,
            ));
        }
        out
    } else {
        let mut out = acc;
        let dots = char_seq("...");
        push_all(&mut out, &dots);
        out
    }
}

/// Shorten a path for a table cell of width `max_len`.
pub fn shorten_path(path: &str, max_len: usize) -> (r: String)
    requires
        3 <= max_len,
    ensures
        r@ == spec_shorten_path(path@, max_len as int),
{
    let v = char_seq(path);
    let na = char_seq("N/A");
    if chars_eq(&v, &na) || v.len() <= max_len {
        return path.to_owned();
    }
    let parts = split_chars(&v, '/');
    proof {
        crate::strutil::lemma_split_nonempty(v@, '/');
        assert(parts.deep_view().len() == parts@.len());
    }
    let filename = &parts[parts.len() - 1];
    proof {
        assert(parts.deep_view().last() =~= filename@);
    }
    let keep: usize = max_len - 3;
    if filename.len() >= keep {
        let start: usize = filename.len() - keep;
        let mut out = char_seq("...");
        let tail = subvec(filename, start, filename.len());
        push_all(&mut out, &tail);
        return chars_string(&out);
    }
    let available: usize = max_len - filename.len() - 4;
    let empty_acc: Vec<char> = Vec::new();
    let raw = shorten_prefix_rec(&parts, 0, 0, available, empty_acc);
    let dots = char_seq("...");
    let mut base = if raw.len() == 0 {
        char_seq("...")
    } else if !ends_with_chars(&raw, &dots) && raw[raw.len() - 1] != '/' {
        let mut b = raw;
        b.push('/');
        b
    } else {
        raw
    };
    push_all(&mut base, filename);
    chars_string(&base)
}

/// A failure duration for the health cell: whole seconds below a minute,
/// whole minutes below an hour, else whole hours.
pub open spec fn spec_format_duration(secs: int) -> Seq<char> {
    if secs < 60 {
        spec_u64_chars(secs) + "s"@
    } else if secs < 3600 {
        spec_u64_chars(secs / 60) + "m"@
    } else {
        spec_u64_chars(secs / 3600) + "h"@
    }
}

pub fn format_duration(secs: u64) -> (r: String)
    ensures
        r@ == spec_format_duration(secs as int),
{
    let mut out: Vec<char>;
    if secs < 60 {
        out = u64_chars(secs);
        let unit = char_seq("s");
        push_all(&mut out, &unit);
    } else if secs < 3600 {
        out = u64_chars(secs / 60);
        let unit = char_seq("m");
        push_all(&mut out, &unit);
    } else {
        out = u64_chars(secs / 3600);
        let unit = char_seq("h");
        push_all(&mut out, &unit);
    }
    chars_string(&out)
}

} // verus!
