//! Parsing of the sync-status stream emitted by a node.
//!
//! An Agave or Jito node reports how far behind the cluster tip it is; a
//! Firedancer node reports whether it is running.  The parser maps one output
//! line to a small closed set of display statuses: `Caught up`,
//! `N slots behind`, `CLI not found`, `Command error`, `RPC Error`,
//! `Connection Error`, `Error`, `Waiting...`, `Not running`, or the raw line
//! truncated to at most 40 characters.

use vstd::prelude::*;
use crate::strutil::{
    char_seq, chars_string, contains_seq, contains_sub, find_sub, parse_u64_chars, push_all,
    replace_chars, rfind_char_before, spec_find, spec_parse_u64, spec_replace, spec_rfind_char,
    spec_trim, spec_u64_chars, subvec, trim_chars, u64_chars,
};
use crate::types::ValidatorType;

verus! {

/// The fallback for a line the parser cannot classify: the trimmed line,
/// cut to its first 37 characters plus an ellipsis when longer than 40.
pub open spec fn spec_truncated_raw(output: Seq<char>) -> Seq<char> {
    let t = spec_trim(output);
    if t.len() > 40 {
        t.subrange(0, 37) + "..."@
    } else {
        t
    }
}

/// The status text that one line of catchup output denotes.
pub open spec fn spec_parse_catchup(output: Seq<char>, is_firedancer: bool) -> Seq<char> {
    if is_firedancer {
        if contains_seq(output, "running"@) {
            "Caught up"@
        } else {
            "Not running"@
        }
    } else {
        if contains_seq(output, "0 slot(s)"@) || contains_seq(output, "has caught up"@) {
            "Caught up"@
        } else if spec_find(output, " slot(s) behind"@) is Some {
            let pos = spec_find(output, " slot(s) behind"@)->Some_0;
            let start = match spec_rfind_char(output, ' ', pos) {
                Some(i) => i + 1,
                None => 0,
            };
            match spec_parse_u64(output.subrange(start, pos)) {
                Some(n) => spec_u64_chars(n as int) + " slots behind"@,
                None => spec_truncated_raw(output),
            }
        } else if contains_seq(output, "bash:"@) && contains_seq(output, "line"@) {
            if contains_seq(output, "command not found"@) || contains_seq(output, "No such file"@) {
                "CLI not found"@
            } else {
                "Command error"@
            }
        } else if contains_seq(output, "Error"@) || contains_seq(output, "error"@) {
            if contains_seq(output, "RPC"@) {
                "RPC Error"@
            } else if contains_seq(output, "connection"@) {
                "Connection Error"@
            } else {
                "Error"@
            }
        } else if spec_trim(output).len() == 0 {
            "Waiting..."@
        } else {
            spec_truncated_raw(output)
        }
    }
}

/// Parse one line of catchup (or Firedancer status) output into its display
/// status.
pub fn parse_catchup_output(output: &str, is_firedancer: bool) -> (r: String)
    ensures
        r@ == spec_parse_catchup(output@, is_firedancer),
{
    let v = char_seq(output);
    if is_firedancer {
        let running = char_seq("running");
        if contains_sub(&v, &running) {
            String::from_str("Caught up")
        } else {
            String::from_str("Not running")
        }
    } else {
        let zero_slots = char_seq("0 slot(s)");
        let caught_up = char_seq("has caught up");
        let behind = char_seq(" slot(s) behind");
        if contains_sub(&v, &zero_slots) || contains_sub(&v, &caught_up) {
            return String::from_str("Caught up");
        }
        match find_sub(&v, &behind) {
            Some(pos) => {
                let start: usize = match rfind_char_before(&v, ' ', pos) {
                    Some(i) => i + 1,
                    None => 0,
                };
                let digits = subvec(&v, start, pos);
                match parse_u64_chars(&digits) {
                    Some(n) => {
                        let mut out = u64_chars(n);
                        let suffix = char_seq(" slots behind");
                        push_all(&mut out, &suffix);
                        chars_string(&out)
                    },
                    None => truncated_raw(&v),
                }
            },
            None => {
                let bash = char_seq("bash:");
                let line_word = char_seq("line");
                if contains_sub(&v, &bash) && contains_sub(&v, &line_word) {
                    let not_found = char_seq("command not found");
                    let no_such = char_seq("No such file");
                    if contains_sub(&v, &not_found) || contains_sub(&v, &no_such) {
                        return String::from_str("CLI not found");
                    }
                    return String::from_str("Command error");
                }
                let error_upper = char_seq("Error");
                let error_lower = char_seq("error");
                if contains_sub(&v, &error_upper) || contains_sub(&v, &error_lower) {
                    let rpc = char_seq("RPC");
                    let conn = char_seq("connection");
                    if contains_sub(&v, &rpc) {
                        return String::from_str("RPC Error");
                    }
                    if contains_sub(&v, &conn) {
                        return String::from_str("Connection Error");
                    }
                    return String::from_str("Error");
                }
                let t = trim_chars(&v);
                if t.len() == 0 {
                    return String::from_str("Waiting...");
                }
                truncated_raw(&v)
            },
        }
    }
}

/// The trimmed line, cut to 37 characters plus an ellipsis when longer than
/// 40.
fn truncated_raw(v: &Vec<char>) -> (r: String)
    ensures
        r@ == spec_truncated_raw(v@),
{
    let t = trim_chars(v);
    if t.len() > 40 {
        let mut out = subvec(&t, 0, 37);
        let dots = char_seq("...");
        push_all(&mut out, &dots);
        chars_string(&out)
    } else {
        chars_string(&t)
    }
}

/// The streaming command a node's catchup monitor runs: `fdctl status` for a
/// Firedancer node, `solana catchup` (with the CLI path configured or derived
/// from the `agave-validator` path) for the rest; nothing when no suitable
/// executable is configured, so the task re-evaluates later.
pub open spec fn spec_catchup_command(
    vt: ValidatorType,
    fdctl: Option<Seq<char>>,
    cli: Option<Seq<char>>,
    agave: Option<Seq<char>>,
) -> Option<Seq<char>> {
    if vt is Firedancer {
        match fdctl {
            Some(f) => Some("bash -c '"@ + f + " status'"@),
            None => None,
        }
    } else {
        let solana_cli = match cli {
            Some(c) => Some(c),
            None => match agave {
                Some(a) => Some(spec_replace(a, "agave-validator"@, "solana"@)),
                None => None,
            },
        };
        match solana_cli {
            Some(c) => Some("bash -c '"@ + c + " catchup --our-localhost 2>&1'"@),
            None => None,
        }
    }
}

/// Build the catchup streaming command for a node.
pub fn catchup_command(
    vt: ValidatorType,
    fdctl: &Option<String>,
    cli: &Option<String>,
    agave: &Option<String>,
) -> (r: Option<String>)
    ensures
        ({
            let spec_r = spec_catchup_command(
                vt,
                match fdctl {
                    Some(f) => Some(f@),
                    None => None,
                },
                match cli {
                    Some(c) => Some(c@),
                    None => None,
                },
                match agave {
                    Some(a) => Some(a@),
                    None => None,
                },
            );
            match r {
                Some(cmd) => spec_r == Some(cmd@),
                None => spec_r is None,
            }
        }),
{
    if vt == ValidatorType::Firedancer {
        match fdctl {
            Some(f) => {
                let mut out = char_seq("bash -c '");
                let fv = char_seq(f.as_str());
                push_all(&mut out, &fv);
                let tail = char_seq(" status'");
                push_all(&mut out, &tail);
                Some(chars_string(&out))
            },
            None => None,
        }
    } else {
        let solana_cli: Option<Vec<char>> = match cli {
            Some(c) => Some(char_seq(c.as_str())),
            None => match agave {
                Some(a) => {
                    let av = char_seq(a.as_str());
                    let pat = char_seq("agave-validator");
                    proof {
                        reveal_strlit("agave-validator");
                    }
                    let rep = char_seq("solana");
                    Some(replace_chars(&av, &pat, &rep))
                },
                None => None,
            },
        };
        match solana_cli {
            Some(c) => {
                let mut out = char_seq("bash -c '");
                push_all(&mut out, &c);
                let tail = char_seq(" catchup --our-localhost 2>&1'");
                push_all(&mut out, &tail);
                Some(chars_string(&out))
            },
            None => None,
        }
    }
}

} // verus!
