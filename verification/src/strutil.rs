//! Verified character-sequence utilities used by the output parsers.
//!
//! All parsing in this library works over `Vec<char>`, whose view is the
//! `Seq<char>` that the specifications speak about.  The two boundary
//! functions `char_seq` and `chars_string` convert between `&str`/`String`
//! and `Vec<char>`.

use vstd::prelude::*;

verus! {

/// ASCII whitespace, as trimmed from probe output lines.
pub open spec fn is_space(c: char) -> bool {
    c == ' ' || c == '\t' || c == '\n' || c == '\r'
}

pub open spec fn is_digit(c: char) -> bool {
    '0' <= c && c <= '9'
}

pub open spec fn digit_val(c: char) -> int {
    c as int - '0' as int
}

/// `needle` occurs in `hay` starting at index `i`.
pub open spec fn occurs_at(hay: Seq<char>, needle: Seq<char>, i: int) -> bool {
    0 <= i && i + needle.len() <= hay.len() && hay.subrange(i, i + needle.len()) == needle
}

/// Index of the first occurrence of `needle` at or after `from`.
pub open spec fn spec_find_from(hay: Seq<char>, needle: Seq<char>, from: int) -> Option<int>
    decreases hay.len() - from when from >= 0
{
    if from < 0 || from + needle.len() > hay.len() {
        None
    } else if needle.len() == 0 || hay.subrange(from, from + needle.len()) == needle {
        Some(from)
    } else {
        spec_find_from(hay, needle, from + 1)
    }
}

/// Index of the first occurrence of `needle` in `hay`.
pub open spec fn spec_find(hay: Seq<char>, needle: Seq<char>) -> Option<int> {
    spec_find_from(hay, needle, 0)
}

/// Whether `needle` occurs anywhere in `hay`.
pub open spec fn contains_seq(hay: Seq<char>, needle: Seq<char>) -> bool {
    spec_find(hay, needle) is Some
}

/// What `spec_find_from` returns is the first occurrence at or after `from`,
/// and a `None` answer means there is none.
pub proof fn lemma_find_from_props(hay: Seq<char>, needle: Seq<char>, from: int)
    requires
        from >= 0,
    ensures
        match spec_find_from(hay, needle, from) {
            Some(i) => occurs_at(hay, needle, i) && from <= i
                && forall|j: int| from <= j < i ==> !occurs_at(hay, needle, j),
            None => forall|j: int| from <= j ==> !occurs_at(hay, needle, j),
        },
    decreases hay.len() - from,
{
    if from + needle.len() > hay.len() {
        assert forall|j: int| from <= j implies !occurs_at(hay, needle, j) by {
            if occurs_at(hay, needle, j) {
                assert(j + needle.len() <= hay.len());
            }
        }
    } else if needle.len() == 0 || hay.subrange(from, from + needle.len()) == needle {
        assert(hay.subrange(from, from + needle.len()) =~= needle);
    } else {
        lemma_find_from_props(hay, needle, from + 1);
        assert(!occurs_at(hay, needle, from));
    }
}

/// `contains_seq` agrees with the existence of an occurrence.
pub proof fn lemma_contains_iff_exists(hay: Seq<char>, needle: Seq<char>)
    ensures
        contains_seq(hay, needle) <==> exists|i: int| occurs_at(hay, needle, i),
{
    lemma_find_from_props(hay, needle, 0);
    if contains_seq(hay, needle) {
        let i = spec_find(hay, needle)->Some_0;
        assert(occurs_at(hay, needle, i));
    }
}

/// Copy of `v[start..end]`.
pub fn subvec(v: &Vec<char>, start: usize, end: usize) -> (r: Vec<char>)
    requires
        start <= end <= v@.len(),
    ensures
        r@ == v@.subrange(start as int, end as int),
{
    let mut r: Vec<char> = Vec::new();
    let mut i: usize = start;
    while i < end
        invariant
            start <= i <= end <= v@.len(),
            r@ == v@.subrange(start as int, i as int),
        decreases end - i,
    {
        r.push(v[i]);
        i = i + 1;
        proof {
            assert(r@ =~= v@.subrange(start as int, i as int));
        }
    }
    r
}

/// Whether `needle` occurs in `hay` at exactly index `i`.
pub fn eq_at(hay: &Vec<char>, needle: &Vec<char>, i: usize) -> (r: bool)
    requires
        i + needle@.len() <= hay@.len(),
    ensures
        r == (hay@.subrange(i as int, i + needle@.len()) == needle@),
{
    let hay_len: usize = hay.len();
    proof {
        assert(hay@.len() == hay_len as int);
    }
    let mut j: usize = 0;
    while j < needle.len()
        invariant
            0 <= j <= needle@.len(),
            i + needle@.len() <= hay@.len(),
            hay@.len() <= usize::MAX,
            forall|k: int| 0 <= k < j ==> hay@[i + k] == needle@[k],
        decreases needle@.len() - j,
    {
        if hay[i + j] != needle[j] {
            proof {
                assert(hay@.subrange(i as int, i + needle@.len())[j as int] != needle@[j as int]);
            }
            return false;
        }
        j = j + 1;
    }
    proof {
        assert(hay@.subrange(i as int, i + needle@.len()) =~= needle@);
    }
    true
}

/// First occurrence of `needle` in `hay` at or after `from`.
pub fn find_from(hay: &Vec<char>, needle: &Vec<char>, from: usize) -> (r: Option<usize>)
    requires
        from <= hay@.len(),
    ensures
        match r {
            Some(i) => spec_find_from(hay@, needle@, from as int) == Some(i as int) && i + needle@.len()
                <= hay@.len() && from <= i,
            None => spec_find_from(hay@, needle@, from as int) is None,
        },
{
    let mut i: usize = from;
    if needle.len() > hay.len() || from > hay.len() - needle.len() {
        return None;
    }
    let limit: usize = hay.len() - needle.len();
    while i <= limit
        invariant
            from <= i,
            i <= limit + 1,
            limit == hay@.len() - needle@.len(),
            needle@.len() <= hay@.len(),
            hay@.len() <= usize::MAX,
            spec_find_from(hay@, needle@, from as int) == spec_find_from(hay@, needle@, i as int),
        decreases limit + 1 - i,
    {
        if eq_at(hay, needle, i) {
            return Some(i);
        }
        proof {
            if needle@.len() == 0 {
                assert(hay@.subrange(i as int, i as int) =~= needle@);
            }
            assert(spec_find_from(hay@, needle@, i as int) == spec_find_from(
                hay@,
                needle@,
                i as int + 1,
            ));
        }
        i = i + 1;
    }
    proof {
        assert(spec_find_from(hay@, needle@, i as int) is None);
    }
    None
}

/// First occurrence of `needle` anywhere in `hay`.
pub fn find_sub(hay: &Vec<char>, needle: &Vec<char>) -> (r: Option<usize>)
    ensures
        match r {
            Some(i) => spec_find(hay@, needle@) == Some(i as int) && i + needle@.len() <= hay@.len(),
            None => spec_find(hay@, needle@) is None,
        },
{
    find_from(hay, needle, 0)
}

/// Whether `needle` occurs anywhere in `hay`.
pub fn contains_sub(hay: &Vec<char>, needle: &Vec<char>) -> (r: bool)
    ensures
        r == contains_seq(hay@, needle@),
{
    match find_sub(hay, needle) {
        Some(_) => true,
        None => false,
    }
}

/// `prefix` is an initial segment of `s`.
pub open spec fn starts_with_seq(s: Seq<char>, prefix: Seq<char>) -> bool {
    prefix.len() <= s.len() && s.subrange(0, prefix.len() as int) == prefix
}

pub fn starts_with_chars(s: &Vec<char>, prefix: &Vec<char>) -> (r: bool)
    ensures
        r == starts_with_seq(s@, prefix@),
{
    if prefix.len() > s.len() {
        return false;
    }
    eq_at(s, prefix, 0)
}

/// Whole-sequence equality of two character vectors.
pub fn chars_eq(a: &Vec<char>, b: &Vec<char>) -> (r: bool)
    ensures
        r == (a@ == b@),
{
    if a.len() != b.len() {
        return false;
    }
    let r = eq_at(a, b, 0);
    proof {
        assert(a@.subrange(0, b@.len() as int) =~= a@);
    }
    r
}

/// Index of the last occurrence of `c` strictly before `end`.
pub open spec fn spec_rfind_char(s: Seq<char>, c: char, end: int) -> Option<int>
    decreases end,
{
    if end <= 0 || end > s.len() {
        None
    } else if s[end - 1] == c {
        Some(end - 1)
    } else {
        spec_rfind_char(s, c, end - 1)
    }
}

pub fn rfind_char_before(v: &Vec<char>, c: char, end: usize) -> (r: Option<usize>)
    requires
        end <= v@.len(),
    ensures
        match r {
            Some(i) => spec_rfind_char(v@, c, end as int) == Some(i as int) && i < end,
            None => spec_rfind_char(v@, c, end as int) is None,
        },
{
    let mut k: usize = end;
    while k > 0
        invariant
            k <= end <= v@.len(),
            spec_rfind_char(v@, c, end as int) == spec_rfind_char(v@, c, k as int),
        decreases k,
    {
        if v[k - 1] == c {
            return Some(k - 1);
        }
        k = k - 1;
    }
    None
}

/// `s` with leading whitespace removed.
pub open spec fn spec_trim_start(s: Seq<char>) -> Seq<char>
    decreases s.len(),
{
    if s.len() > 0 && is_space(s[0]) {
        spec_trim_start(s.drop_first())
    } else {
        s
    }
}

/// `s` with trailing whitespace removed.
pub open spec fn spec_trim_end(s: Seq<char>) -> Seq<char>
    decreases s.len(),
{
    if s.len() > 0 && is_space(s[s.len() - 1]) {
        spec_trim_end(s.drop_last())
    } else {
        s
    }
}

/// `s` with both leading and trailing whitespace removed.
pub open spec fn spec_trim(s: Seq<char>) -> Seq<char> {
    spec_trim_end(spec_trim_start(s))
}

pub proof fn lemma_trim_start_indexed(s: Seq<char>, k: int)
    requires
        0 <= k <= s.len(),
        forall|j: int| 0 <= j < k ==> is_space(s[j]),
        k < s.len() ==> !is_space(s[k]),
    ensures
        spec_trim_start(s) == s.subrange(k, s.len() as int),
    decreases k,
{
    if k == 0 {
        assert(s.subrange(0, s.len() as int) =~= s);
    } else {
        let t = s.drop_first();
        assert(is_space(s[0]));
        lemma_trim_start_indexed(t, k - 1);
        assert(t.subrange(k - 1, t.len() as int) =~= s.subrange(k, s.len() as int));
    }
}

proof fn lemma_trim_end_indexed(s: Seq<char>, e: int)
    requires
        0 <= e <= s.len(),
        forall|j: int| e <= j < s.len() ==> is_space(s[j]),
        e > 0 ==> !is_space(s[e - 1]),
    ensures
        spec_trim_end(s) == s.subrange(0, e),
    decreases s.len(),
{
    if e == s.len() {
        assert(s.subrange(0, s.len() as int) =~= s);
    } else {
        let t = s.drop_last();
        assert(is_space(s[s.len() - 1]));
        lemma_trim_end_indexed(t, e);
        assert(t.subrange(0, e) =~= s.subrange(0, e));
    }
}

pub fn is_space_char(c: char) -> (r: bool)
    ensures
        r == is_space(c),
{
    c == ' ' || c == '\t' || c == '\n' || c == '\r'
}

pub fn trim_chars(v: &Vec<char>) -> (r: Vec<char>)
    ensures
        r@ == spec_trim(v@),
{
    let n: usize = v.len();
    let mut start: usize = 0;
    while start < n && is_space_char(v[start])
        invariant
            start <= n == v@.len(),
            forall|j: int| 0 <= j < start ==> is_space(v@[j]),
        decreases n - start,
    {
        start = start + 1;
    }
    let mut end: usize = n;
    while end > start && is_space_char(v[end - 1])
        invariant
            start <= end <= n == v@.len(),
            forall|j: int| end <= j < n ==> is_space(v@[j]),
        decreases end,
    {
        end = end - 1;
    }
    proof {
        lemma_trim_start_indexed(v@, start as int);
        let t = v@.subrange(start as int, v@.len() as int);
        if end == start {
            lemma_trim_end_indexed(t, 0);
        } else {
            lemma_trim_end_indexed(t, end - start);
        }
        assert(t.subrange(0, end - start) =~= v@.subrange(start as int, end as int));
    }
    subvec(v, start, end)
}

/// The numeric value of a sequence of decimal digits.
pub open spec fn seq_to_nat(s: Seq<char>) -> nat
    decreases s.len(),
{
    if s.len() == 0 {
        0
    } else {
        seq_to_nat(s.drop_last()) * 10 + (if 0 <= digit_val(s[s.len() - 1]) {
            digit_val(s[s.len() - 1]) as nat
        } else {
            0
        })
    }
}

/// The value denoted by a non-empty, all-digit sequence, if it fits in `u64`.
pub open spec fn spec_parse_u64(s: Seq<char>) -> Option<u64> {
    if s.len() > 0 && (forall|i: int| 0 <= i < s.len() ==> is_digit(s[i])) && seq_to_nat(s)
        <= u64::MAX {
        Some(seq_to_nat(s) as u64)
    } else {
        None
    }
}

fn to_u64_rec(v: &Vec<char>, len: usize) -> (r: Option<u64>)
    requires
        len <= v@.len(),
        forall|i: int| 0 <= i < len ==> is_digit(v@[i]),
    ensures
        r is Some <==> seq_to_nat(v@.subrange(0, len as int)) <= u64::MAX,
        r is Some ==> r->Some_0 == seq_to_nat(v@.subrange(0, len as int)),
    decreases len,
{
    if len == 0 {
        proof {
            assert(v@.subrange(0, 0) =~= Seq::<char>::empty());
        }
        Some(0)
    } else {
        let prev = to_u64_rec(v, len - 1);
        proof {
            assert(v@.subrange(0, len as int).drop_last() =~= v@.subrange(0, len as int - 1));
            assert(v@.subrange(0, len as int).last() == v@[len - 1]);
        }
        let ghost whole = seq_to_nat(v@.subrange(0, len as int));
        let ghost prefix = seq_to_nat(v@.subrange(0, len as int - 1));
        let c = v[len - 1];
        let d: u64 = (c as u32 - '0' as u32) as u64;
        proof {
            assert(is_digit(v@[len - 1]));
            assert(d == digit_val(v@[len - 1]));
            assert(whole == prefix * 10 + d);
        }
        match prev {
            None => {
                proof {
                    assert(whole > u64::MAX) by {
                        assert(prefix > u64::MAX);
                        assert(prefix * 10 >= prefix) by (nonlinear_arith)
                            requires prefix >= 0;
                    }
                }
                None
            },
            Some(acc) => {
                let q: u64 = (u64::MAX - d) / 10;
                proof {
                    assert(10 * (((u64::MAX - d) as u64) / 10) + ((u64::MAX - d) as u64) % 10
                        == u64::MAX - d);
                    assert(((u64::MAX - d) as u64) % 10 < 10);
                }
                if acc > q {
                    proof {
                        assert(whole > u64::MAX);
                    }
                    None
                } else {
                    proof {
                        assert(acc * 10 + d <= u64::MAX);
                    }
                    Some(acc * 10 + d)
                }
            },
        }
    }
}

/// Parse a non-empty, all-digit character vector as a `u64`.
pub fn parse_u64_chars(v: &Vec<char>) -> (r: Option<u64>)
    ensures
        r == spec_parse_u64(v@),
{
    if v.len() == 0 {
        return None;
    }
    let mut i: usize = 0;
    while i < v.len()
        invariant
            i <= v@.len(),
            forall|j: int| 0 <= j < i ==> is_digit(v@[j]),
        decreases v@.len() - i,
    {
        let c = v[i];
        if !('0' <= c && c <= '9') {
            return None;
        }
        i = i + 1;
    }
    let r = to_u64_rec(v, v.len());
    proof {
        assert(v@.subrange(0, v@.len() as int) =~= v@);
    }
    r
}

/// The decimal digit character for a value below ten.
pub open spec fn digit_char(d: int) -> char {
    if d == 0 { '0' }
    else if d == 1 { '1' }
    else if d == 2 { '2' }
    else if d == 3 { '3' }
    else if d == 4 { '4' }
    else if d == 5 { '5' }
    else if d == 6 { '6' }
    else if d == 7 { '7' }
    else if d == 8 { '8' }
    else { '9' }
}

/// The decimal representation of `n`.
pub open spec fn spec_u64_chars(n: int) -> Seq<char>
    decreases n,
{
    if n < 10 {
        seq![digit_char(n)]
    } else {
        spec_u64_chars(n / 10).push(digit_char(n % 10))
    }
}

fn digit_char_exec(d: u64) -> (r: char)
    requires
        d < 10,
    ensures
        r == digit_char(d as int),
{
    if d == 0 { '0' }
    else if d == 1 { '1' }
    else if d == 2 { '2' }
    else if d == 3 { '3' }
    else if d == 4 { '4' }
    else if d == 5 { '5' }
    else if d == 6 { '6' }
    else if d == 7 { '7' }
    else if d == 8 { '8' }
    else { '9' }
}

fn u64_chars_rec(n: u64, out: &mut Vec<char>)
    ensures
        final(out)@ == old(out)@ + spec_u64_chars(n as int),
    decreases n,
{
    if n < 10 {
        out.push(digit_char_exec(n));
        proof {
            assert(out@ =~= old(out)@ + spec_u64_chars(n as int));
        }
    } else {
        u64_chars_rec(n / 10, out);
        out.push(digit_char_exec(n % 10));
        proof {
            assert(out@ =~= old(out)@ + spec_u64_chars(n as int));
        }
    }
}

/// The decimal digits of `n`.
pub fn u64_chars(n: u64) -> (r: Vec<char>)
    ensures
        r@ == spec_u64_chars(n as int),
{
    let mut out: Vec<char> = Vec::new();
    u64_chars_rec(n, &mut out);
    proof {
        assert(out@ =~= spec_u64_chars(n as int));
    }
    out
}

/// Relies on std's `String::push`: appends exactly the given character.
#[verifier::external_body]
fn push_char(s: &mut String, c: char)
    ensures
        final(s)@ == old(s)@.push(c),
{
    s.push(c);
}

/// Build a `String` holding exactly the given characters.
pub fn chars_string(v: &Vec<char>) -> (r: String)
    ensures
        r@ == v@,
{
    let mut s = String::new();
    let mut i: usize = 0;
    while i < v.len()
        invariant
            i <= v@.len(),
            s@ == v@.subrange(0, i as int),
        decreases v@.len() - i,
    {
        push_char(&mut s, v[i]);
        i = i + 1;
        proof {
            assert(s@ =~= v@.subrange(0, i as int));
        }
    }
    proof {
        assert(s@ =~= v@);
    }
    s
}

/// The characters of a string slice.
pub fn char_seq(s: &str) -> (r: Vec<char>)
    ensures
        r@ == s@,
{
    let n: usize = s.unicode_len();
    let mut r: Vec<char> = Vec::new();
    let mut i: usize = 0;
    while i < n
        invariant
            i <= n == s@.len(),
            r@ == s@.subrange(0, i as int),
        decreases n - i,
    {
        r.push(s.get_char(i));
        i = i + 1;
        proof {
            assert(r@ =~= s@.subrange(0, i as int));
        }
    }
    proof {
        assert(r@ =~= s@);
    }
    r
}

/// Append all characters of `src` to `out`.
pub fn push_all(out: &mut Vec<char>, src: &Vec<char>)
    ensures
        final(out)@ == old(out)@ + src@,
{
    let mut i: usize = 0;
    while i < src.len()
        invariant
            i <= src@.len(),
            out@ == old(out)@ + src@.subrange(0, i as int),
        decreases src@.len() - i,
    {
        out.push(src[i]);
        i = i + 1;
        proof {
            assert(out@ =~= old(out)@ + src@.subrange(0, i as int));
        }
    }
    proof {
        assert(old(out)@ + src@.subrange(0, src@.len() as int) =~= old(out)@ + src@);
    }
}

/// `s` with every occurrence of `pat` replaced by `rep`, scanning left to
/// right over non-overlapping matches.
pub open spec fn spec_replace(s: Seq<char>, pat: Seq<char>, rep: Seq<char>) -> Seq<char>
    decreases s.len(),
    via spec_replace_decreases
{
    if pat.len() == 0 {
        s
    } else {
        match spec_find(s, pat) {
            None => s,
            Some(i) => s.subrange(0, i) + rep + spec_replace(
                s.subrange(i + pat.len(), s.len() as int),
                pat,
                rep,
            ),
        }
    }
}

#[via_fn]
proof fn spec_replace_decreases(s: Seq<char>, pat: Seq<char>, rep: Seq<char>) {
    if pat.len() > 0 {
        lemma_find_from_props(s, pat, 0);
    }
}

pub fn replace_chars(v: &Vec<char>, pat: &Vec<char>, rep: &Vec<char>) -> (r: Vec<char>)
    requires
        pat@.len() > 0,
    ensures
        r@ == spec_replace(v@, pat@, rep@),
    decreases v@.len(),
{
    let n: usize = v.len();
    match find_sub(v, pat) {
        None => subvec(v, 0, n),
        Some(i) => {
            proof {
                assert(v@.subrange(0, v@.len() as int) =~= v@);
            }
            let mut out = subvec(v, 0, i);
            push_all(&mut out, rep);
            let suffix = subvec(v, i + pat.len(), n);
            let tail = replace_chars(&suffix, pat, rep);
            push_all(&mut out, &tail);
            out
        },
    }
}

/// The first line of `s`: everything before the first newline, with a
/// trailing carriage return removed.
pub open spec fn spec_first_line(s: Seq<char>) -> Seq<char> {
    let raw = match spec_find(s, seq!['\n']) {
        Some(i) => s.subrange(0, i),
        None => s,
    };
    if raw.len() > 0 && raw[raw.len() - 1] == '\r' {
        raw.drop_last()
    } else {
        raw
    }
}

pub fn first_line(v: &Vec<char>) -> (r: Vec<char>)
    ensures
        r@ == spec_first_line(v@),
{
    let nl: Vec<char> = vec!['\n'];
    proof {
        reveal_strlit("\n");
    }
    let end: usize = match find_sub(v, &nl) {
        Some(i) => i,
        None => v.len(),
    };
    proof {
        assert(nl@ =~= seq!['\n']);
        if v@.len() == end {
            assert(v@.subrange(0, v@.len() as int) =~= v@);
        }
    }
    let end2: usize = if end > 0 && v[end - 1] == '\r' {
        end - 1
    } else {
        end
    };
    proof {
        let raw = v@.subrange(0, end as int);
        if end > 0 && v@[end as int - 1] == '\r' {
            assert(raw.drop_last() =~= v@.subrange(0, end as int - 1));
        }
    }
    subvec(v, 0, end2)
}

/// The first line of `s` that contains `p1` or `p2`, scanning top to bottom.
pub open spec fn spec_first_line_containing(s: Seq<char>, p1: Seq<char>, p2: Seq<char>) -> Option<
    Seq<char>,
>
    decreases s.len(),
    via spec_first_line_containing_decreases
{
    let line = match spec_find(s, seq!['\n']) {
        Some(i) => s.subrange(0, i),
        None => s,
    };
    if contains_seq(line, p1) || contains_seq(line, p2) {
        Some(line)
    } else {
        match spec_find(s, seq!['\n']) {
            Some(i) => spec_first_line_containing(s.subrange(i + 1, s.len() as int), p1, p2),
            None => None,
        }
    }
}

#[via_fn]
proof fn spec_first_line_containing_decreases(s: Seq<char>, p1: Seq<char>, p2: Seq<char>) {
    lemma_find_from_props(s, seq!['\n'], 0);
}

pub fn first_line_containing(v: &Vec<char>, p1: &Vec<char>, p2: &Vec<char>) -> (r: Option<
    Vec<char>,
>)
    ensures
        match r {
            Some(line) => spec_first_line_containing(v@, p1@, p2@) == Some(line@),
            None => spec_first_line_containing(v@, p1@, p2@) is None,
        },
    decreases v@.len(),
{
    let nl: Vec<char> = vec!['\n'];
    proof {
        assert(nl@ =~= seq!['\n']);
    }
    let n: usize = v.len();
    match find_sub(v, &nl) {
        Some(i) => {
            let line = subvec(v, 0, i);
            if contains_sub(&line, p1) || contains_sub(&line, p2) {
                Some(line)
            } else {
                let rest = subvec(v, i + 1, n);
                first_line_containing(&rest, p1, p2)
            }
        },
        None => {
            proof {
                assert(v@.subrange(0, v@.len() as int) =~= v@);
            }
            let line = subvec(v, 0, v.len());
            if contains_sub(&line, p1) || contains_sub(&line, p2) {
                Some(line)
            } else {
                None
            }
        },
    }
}

/// The longest prefix of `s` made of non-whitespace characters.
pub open spec fn spec_take_non_ws(s: Seq<char>) -> Seq<char>
    decreases s.len(),
{
    if s.len() > 0 && !is_space(s[0]) {
        seq![s[0]] + spec_take_non_ws(s.drop_first())
    } else {
        Seq::empty()
    }
}

/// `s` without its longest non-whitespace prefix.
pub open spec fn spec_drop_non_ws(s: Seq<char>) -> Seq<char>
    decreases s.len(),
{
    if s.len() > 0 && !is_space(s[0]) {
        spec_drop_non_ws(s.drop_first())
    } else {
        s
    }
}

/// The first whitespace-separated token of `s`; empty if there is none.
pub open spec fn spec_first_token(s: Seq<char>) -> Seq<char> {
    spec_take_non_ws(spec_trim_start(s))
}

/// What remains of `s` after its first token.
pub open spec fn spec_after_first_token(s: Seq<char>) -> Seq<char> {
    spec_drop_non_ws(spec_trim_start(s))
}

/// The second whitespace-separated token of `s`; empty if there is none.
pub open spec fn spec_second_token(s: Seq<char>) -> Seq<char> {
    spec_first_token(spec_after_first_token(s))
}

proof fn lemma_take_non_ws_indexed(t: Seq<char>, k: int)
    requires
        0 <= k <= t.len(),
        forall|j: int| 0 <= j < k ==> !is_space(t[j]),
        k < t.len() ==> is_space(t[k]),
    ensures
        spec_take_non_ws(t) == t.subrange(0, k),
        spec_drop_non_ws(t) == t.subrange(k, t.len() as int),
    decreases k,
{
    if k == 0 {
        assert(t.subrange(0, 0) =~= Seq::<char>::empty());
        assert(t.subrange(0, t.len() as int) =~= t);
    } else {
        let u = t.drop_first();
        lemma_take_non_ws_indexed(u, k - 1);
        assert(seq![t[0]] + u.subrange(0, k - 1) =~= t.subrange(0, k));
        assert(u.subrange(k - 1, u.len() as int) =~= t.subrange(k, t.len() as int));
    }
}

/// The first token of `v` together with what follows it.
pub fn first_token_and_rest(v: &Vec<char>) -> (r: (Vec<char>, Vec<char>))
    ensures
        r.0@ == spec_first_token(v@),
        r.1@ == spec_after_first_token(v@),
{
    let n: usize = v.len();
    let mut a: usize = 0;
    while a < n && is_space_char(v[a])
        invariant
            a <= n == v@.len(),
            forall|j: int| 0 <= j < a ==> is_space(v@[j]),
        decreases n - a,
    {
        a = a + 1;
    }
    let mut b: usize = a;
    while b < n && !is_space_char(v[b])
        invariant
            a <= b <= n == v@.len(),
            forall|j: int| a <= j < b ==> !is_space(v@[j]),
        decreases n - b,
    {
        b = b + 1;
    }
    proof {
        lemma_trim_start_indexed(v@, a as int);
        let t = v@.subrange(a as int, v@.len() as int);
        lemma_take_non_ws_indexed(t, b - a);
        assert(t.subrange(0, b - a) =~= v@.subrange(a as int, b as int));
        assert(t.subrange(b - a, t.len() as int) =~= v@.subrange(b as int, v@.len() as int));
    }
    (subvec(v, a, b), subvec(v, b, n))
}

/// The pieces of `s` separated by `c`; a separator at either end yields an
/// empty piece there, and `s` without any separator is one piece.
pub open spec fn spec_split(s: Seq<char>, c: char) -> Seq<Seq<char>>
    decreases s.len(),
    via spec_split_decreases
{
    match spec_find(s, seq![c]) {
        None => seq![s],
        Some(i) => seq![s.subrange(0, i)] + spec_split(s.subrange(i + 1, s.len() as int), c),
    }
}

#[via_fn]
proof fn spec_split_decreases(s: Seq<char>, c: char) {
    lemma_find_from_props(s, seq![c], 0);
}

/// A split has at least one piece.
pub proof fn lemma_split_nonempty(s: Seq<char>, c: char)
    ensures
        spec_split(s, c).len() >= 1,
{
}


fn split_rec(v: &Vec<char>, c: char, out: &mut Vec<Vec<char>>)
    ensures
        final(out).deep_view() == old(out).deep_view() + spec_split(v@, c),
    decreases v@.len(),
{
    let sep: Vec<char> = vec![c];
    proof {
        assert(sep@ =~= seq![c]);
    }
    let n: usize = v.len();
    match find_sub(v, &sep) {
        None => {
            proof {
                assert(v@.subrange(0, v@.len() as int) =~= v@);
            }
            let piece = subvec(v, 0, n);
            let ghost pre = out.deep_view();
            out.push(piece);
            proof {
                assert(out.deep_view() =~~= pre + spec_split(v@, c));
            }
        },
        Some(i) => {
            let piece = subvec(v, 0, i);
            let rest = subvec(v, i + 1, n);
            let ghost pre = out.deep_view();
            out.push(piece);
            proof {
                assert(out.deep_view() =~~= pre.push(v@.subrange(0, i as int)));
            }
            split_rec(&rest, c, out);
            proof {
                assert(out.deep_view() =~~= pre + spec_split(v@, c));
            }
        },
    }
}

/// Split `v` at every occurrence of `c`.
pub fn split_chars(v: &Vec<char>, c: char) -> (r: Vec<Vec<char>>)
    ensures
        r.deep_view() == spec_split(v@, c),
{
    let mut out: Vec<Vec<char>> = Vec::new();
    split_rec(v, c, &mut out);
    proof {
        assert(out.deep_view() =~~= spec_split(v@, c));
    }
    out
}

/// The longest prefix of `s` made of decimal digits.
pub open spec fn spec_take_digits(s: Seq<char>) -> Seq<char>
    decreases s.len(),
{
    if s.len() > 0 && is_digit(s[0]) {
        seq![s[0]] + spec_take_digits(s.drop_first())
    } else {
        Seq::empty()
    }
}

proof fn lemma_take_digits_indexed(t: Seq<char>, k: int)
    requires
        0 <= k <= t.len(),
        forall|j: int| 0 <= j < k ==> is_digit(t[j]),
        k < t.len() ==> !is_digit(t[k]),
    ensures
        spec_take_digits(t) == t.subrange(0, k),
    decreases k,
{
    if k == 0 {
        assert(t.subrange(0, 0) =~= Seq::<char>::empty());
    } else {
        let u = t.drop_first();
        lemma_take_digits_indexed(u, k - 1);
        assert(seq![t[0]] + u.subrange(0, k - 1) =~= t.subrange(0, k));
    }
}

/// The digit prefix of `v`.
pub fn take_digits(v: &Vec<char>) -> (r: Vec<char>)
    ensures
        r@ == spec_take_digits(v@),
{
    let n: usize = v.len();
    let mut k: usize = 0;
    while k < n && '0' <= v[k] && v[k] <= '9'
        invariant
            k <= n == v@.len(),
            forall|j: int| 0 <= j < k ==> is_digit(v@[j]),
        decreases n - k,
    {
        k = k + 1;
    }
    proof {
        lemma_take_digits_indexed(v@, k as int);
    }
    subvec(v, 0, k)
}

/// Trimming from the front never lengthens a sequence, and splitting off the
/// first token accounts for every character of the trimmed remainder.
pub proof fn lemma_token_lengths(s: Seq<char>)
    ensures
        spec_trim_start(s).len() <= s.len(),
        spec_first_token(s).len() + spec_after_first_token(s).len() == spec_trim_start(s).len(),
    decreases s.len(),
{
    if s.len() > 0 && is_space(s[0]) {
        lemma_token_lengths(s.drop_first());
    } else {
        lemma_take_drop_non_ws_len(spec_trim_start(s));
    }
}

proof fn lemma_take_drop_non_ws_len(t: Seq<char>)
    ensures
        spec_take_non_ws(t).len() + spec_drop_non_ws(t).len() == t.len(),
    decreases t.len(),
{
    if t.len() > 0 && !is_space(t[0]) {
        lemma_take_drop_non_ws_len(t.drop_first());
    }
}

} // verus!
