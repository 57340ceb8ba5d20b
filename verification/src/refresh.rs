//! The field refresher's pure logic: deriving a CLI path, locating the local
//! RPC port, reading the node identity out of a `getIdentity` response,
//! deriving the node role from it, and parsing sync-status and version
//! output.  The SSH and HTTP calls that produce these strings run outside the
//! library and hand their output in.

use vstd::prelude::*;
use crate::strutil::{
    char_seq, chars_eq, chars_string, contains_seq, contains_sub, find_sub, first_line,
    first_line_containing, first_token_and_rest, parse_u64_chars, push_all, replace_chars,
    rfind_char_before, spec_find, spec_first_line, spec_first_line_containing, spec_first_token,
    spec_after_first_token, spec_parse_u64, spec_replace, spec_rfind_char, spec_second_token,
    spec_take_digits, spec_trim, spec_trim_start, starts_with_chars, starts_with_seq, subvec,
    take_digits, trim_chars, lemma_token_lengths,
};
use crate::types::{NodeStatus, ValidatorType};

verus! {

/// The identity string carried by a JSON-RPC `getIdentity` response, as
/// serde_json reads it: the `result.identity` member, when the response is
/// valid JSON and that member is a string.
pub uninterp spec fn identity_of_response(s: Seq<char>) -> Option<Seq<char>>;

/// Relies on `serde_json::from_str::<Value>`, `Value::get` and
/// `Value::as_str`: together they read the `result.identity` string member
/// of a JSON document, a value that depends on the document text alone.
#[verifier::external_body]
fn parse_identity_json(s: &str) -> (r: Option<String>)
    ensures
        match r {
            Some(id) => identity_of_response(s@) == Some(id@),
            None => identity_of_response(s@) is None,
        },
{
    match serde_json::from_str::<serde_json::Value>(s) {
        Ok(v) => match v.get("result").and_then(|res| res.get("identity")).and_then(
            |id| id.as_str(),
        ) {
            Some(id) => Some(id.to_string()),
            None => None,
        },
        Err(_) => None,
    }
}

/// A node's role, derived from its reported identity: active exactly when it
/// matches the validator's identity pubkey, standby when it is known and
/// differs, unknown when no identity could be read.
pub open spec fn spec_classify_role(identity: Option<Seq<char>>, expected: Seq<char>) -> NodeStatus {
    match identity {
        Some(id) => if id == expected {
            NodeStatus::Active
        } else {
            NodeStatus::Standby
        },
        None => NodeStatus::Unknown,
    }
}

/// Derive the role of a node from its reported identity.
pub fn classify_role(identity: &Option<String>, expected: &str) -> (r: NodeStatus)
    ensures
        identity matches Some(id) ==> r == spec_classify_role(Some(id@), expected@),
        identity is None ==> r == NodeStatus::Unknown,
        r is Active <==> (identity matches Some(id) && id@ == expected@),
{
    match identity {
        Some(id) => {
            let idv = char_seq(id.as_str());
            let exv = char_seq(expected);
            if chars_eq(&idv, &exv) {
                NodeStatus::Active
            } else {
                NodeStatus::Standby
            }
        },
        None => NodeStatus::Unknown,
    }
}

/// Read the node identity out of a `getIdentity` response and derive the
/// node's role from it.
pub fn identity_and_role(response: &str, expected: &str) -> (r: (Option<String>, NodeStatus))
    ensures
        match r.0 {
            Some(id) => identity_of_response(response@) == Some(id@),
            None => identity_of_response(response@) is None,
        },
        r.1 is Active <==> (r.0 matches Some(id) && id@ == expected@),
        r.1 is Standby <==> (r.0 matches Some(id) && id@ != expected@),
        r.1 is Unknown <==> r.0 is None,
{
    let identity = parse_identity_json(response);
    let role = classify_role(&identity, expected);
    (identity, role)
}

/// Where the `solana` CLI is expected, derived from the configured
/// executables: the configured path itself; for Firedancer, `solana` beside
/// `fdctl`; for Agave and Jito, the `agave-validator` path with that name
/// replaced.  `None` means nothing is configured and the host must be probed.
pub open spec fn spec_derive_solana_cli(
    cli: Option<Seq<char>>,
    vt: ValidatorType,
    fdctl: Option<Seq<char>>,
    agave: Option<Seq<char>>,
) -> Option<Seq<char>> {
    match cli {
        Some(c) => Some(c),
        None => if vt is Firedancer {
            Some(
                match fdctl {
                    Some(f) => match spec_rfind_char(f, '/', f.len() as int) {
                        Some(i) => f.subrange(0, i + 1) + "solana"@,
                        None => "solana"@,
                    },
                    None => "solana"@,
                },
            )
        } else {
            match agave {
                Some(a) => Some(spec_replace(a, "agave-validator"@, "solana"@)),
                None => None,
            }
        },
    }
}

pub fn derive_solana_cli(
    cli: &Option<String>,
    vt: ValidatorType,
    fdctl: &Option<String>,
    agave: &Option<String>,
) -> (r: Option<String>)
    ensures
        match r {
            Some(p) => spec_derive_solana_cli(
                match cli {
                    Some(c) => Some(c@),
                    None => None,
                },
                vt,
                match fdctl {
                    Some(f) => Some(f@),
                    None => None,
                },
                match agave {
                    Some(a) => Some(a@),
                    None => None,
                },
            ) == Some(p@),
            None => spec_derive_solana_cli(
                match cli {
                    Some(c) => Some(c@),
                    None => None,
                },
                vt,
                match fdctl {
                    Some(f) => Some(f@),
                    None => None,
                },
                match agave {
                    Some(a) => Some(a@),
                    None => None,
                },
            ) is None,
        },
{
    match cli {
        Some(c) => Some(c.clone()),
        None => {
            if vt == ValidatorType::Firedancer {
                match fdctl {
                    Some(f) => {
                        let fv = char_seq(f.as_str());
                        match rfind_char_before(&fv, '/', fv.len()) {
                            Some(i) => {
                                let mut out = subvec(&fv, 0, i + 1);
                                let solana = char_seq("solana");
                                push_all(&mut out, &solana);
                                Some(chars_string(&out))
                            },
                            None => Some(String::from_str("solana")),
                        }
                    },
                    None => Some(String::from_str("solana")),
                }
            } else {
                match agave {
                    Some(a) => {
                        let av = char_seq(a.as_str());
                        let pat = char_seq("agave-validator");
                        proof {
                            reveal_strlit("agave-validator");
                        }
                        let rep = char_seq("solana");
                        let out = replace_chars(&av, &pat, &rep);
                        Some(chars_string(&out))
                    },
                    None => None,
                }
            }
        },
    }
}

/// The local RPC port named by an Agave or Jito validator command line: the
/// first whitespace token after `--rpc-port` on the first line, when it
/// parses as a port; 8899 otherwise.
pub open spec fn spec_parse_rpc_port_agave(out: Seq<char>) -> u16 {
    let line = spec_first_line(out);
    match spec_find(line, "--rpc-port"@) {
        None => 8899u16,
        Some(p) => {
            let tok = spec_first_token(line.subrange(p + 10, line.len() as int));
            match spec_parse_u64(tok) {
                Some(v) => if v <= u16::MAX {
                    v as u16
                } else {
                    8899u16
                },
                None => 8899u16,
            }
        },
    }
}

pub fn parse_rpc_port_agave(out: &str) -> (r: u16)
    ensures
        r == spec_parse_rpc_port_agave(out@),
{
    let v = char_seq(out);
    let line = first_line(&v);
    let flag = char_seq("--rpc-port");
    proof {
        reveal_strlit("--rpc-port");
    }
    let line_len: usize = line.len();
    match find_sub(&line, &flag) {
        None => 8899,
        Some(p) => {
            let rest = subvec(&line, p + 10, line_len);
            let (tok, _) = first_token_and_rest(&rest);
            match parse_u64_chars(&tok) {
                Some(val) => if val <= 65535 {
                    val as u16
                } else {
                    8899
                },
                None => 8899,
            }
        },
    }
}

/// The configuration file path on a running `fdctl` command line: the token
/// after the first `--config` token on the first line.
pub open spec fn spec_config_arg(s: Seq<char>) -> Option<Seq<char>>
    decreases s.len(),
    via spec_config_arg_decreases
{
    let tok = spec_first_token(s);
    let rest = spec_after_first_token(s);
    if tok.len() == 0 {
        None
    } else if tok == "--config"@ {
        let nxt = spec_first_token(rest);
        if nxt.len() == 0 {
            None
        } else {
            Some(nxt)
        }
    } else {
        spec_config_arg(rest)
    }
}

#[via_fn]
proof fn spec_config_arg_decreases(s: Seq<char>) {
    lemma_token_lengths(s);
}

/// Find the `--config <path>` argument on the first line of `ps` output.
pub fn config_arg_of_ps(out: &str) -> (r: Option<String>)
    ensures
        match r {
            Some(p) => spec_config_arg(spec_first_line(out@)) == Some(p@),
            None => spec_config_arg(spec_first_line(out@)) is None,
        },
{
    let v = char_seq(out);
    let line = first_line(&v);
    config_arg_rec(&line)
}

fn config_arg_rec(v: &Vec<char>) -> (r: Option<String>)
    ensures
        match r {
            Some(p) => spec_config_arg(v@) == Some(p@),
            None => spec_config_arg(v@) is None,
        },
    decreases v@.len(),
{
    let (tok, rest) = first_token_and_rest(v);
    proof {
        lemma_token_lengths(v@);
    }
    if tok.len() == 0 {
        None
    } else {
        let flag = char_seq("--config");
        if chars_eq(&tok, &flag) {
            let (nxt, _) = first_token_and_rest(&rest);
            if nxt.len() == 0 {
                None
            } else {
                Some(chars_string(&nxt))
            }
        } else {
            config_arg_rec(&rest)
        }
    }
}

/// A trimmed string parsed as a TCP port.
pub open spec fn spec_parse_port(out: Seq<char>) -> Option<u16> {
    match spec_parse_u64(spec_trim(out)) {
        Some(v) => if v <= u16::MAX {
            Some(v as u16)
        } else {
            None
        },
        None => None,
    }
}

pub fn parse_port(out: &str) -> (r: Option<u16>)
    ensures
        r == spec_parse_port(out@),
{
    let v = char_seq(out);
    let t = trim_chars(&v);
    match parse_u64_chars(&t) {
        Some(val) => if val <= 65535 {
            Some(val as u16)
        } else {
            None
        },
        None => None,
    }
}

/// The sync status told by catchup output: on the first line reporting the
/// node caught up, `Caught up (slot: N)` when a `us:<slot>` fragment is
/// present, else `Caught up`; `None` when no line reports it caught up.
pub open spec fn spec_parse_sync_status(out: Seq<char>) -> Option<Seq<char>> {
    match spec_first_line_containing(out, " has caught up"@, "0 slot(s) behind"@) {
        None => None,
        Some(line) => match spec_find(line, "us:"@) {
            None => Some("Caught up"@),
            Some(i) => {
                let digits = spec_take_digits(
                    spec_trim_start(line.subrange(i + 3, line.len() as int)),
                );
                if digits.len() == 0 {
                    Some("Caught up"@)
                } else {
                    Some("Caught up (slot: "@ + digits + ")"@)
                }
            },
        },
    }
}

pub fn parse_sync_status(out: &str) -> (r: Option<String>)
    ensures
        match r {
            Some(st) => spec_parse_sync_status(out@) == Some(st@),
            None => spec_parse_sync_status(out@) is None,
        },
{
    let v = char_seq(out);
    let caught = char_seq(" has caught up");
    let zero = char_seq("0 slot(s) behind");
    match first_line_containing(&v, &caught, &zero) {
        None => None,
        Some(line) => {
            let us = char_seq("us:");
            proof {
                reveal_strlit("us:");
            }
            let line_len: usize = line.len();
            match find_sub(&line, &us) {
                None => Some(String::from_str("Caught up")),
                Some(i) => {
                    let rest = subvec(&line, i + 3, line_len);
                    let trimmed = trim_chars_start_only(&rest);
                    let digits = take_digits(&trimmed);
                    if digits.len() == 0 {
                        Some(String::from_str("Caught up"))
                    } else {
                        let mut out_chars = char_seq("Caught up (slot: ");
                        push_all(&mut out_chars, &digits);
                        let close = char_seq(")");
                        push_all(&mut out_chars, &close);
                        Some(chars_string(&out_chars))
                    }
                },
            }
        },
    }
}

/// `v` with leading whitespace removed.
fn trim_chars_start_only(v: &Vec<char>) -> (r: Vec<char>)
    ensures
        r@ == spec_trim_start(v@),
{
    let n: usize = v.len();
    let mut start: usize = 0;
    while start < n && crate::strutil::is_space_char(v[start])
        invariant
            start <= n == v@.len(),
            forall|j: int| 0 <= j < start ==> crate::strutil::is_space(v@[j]),
        decreases n - start,
    {
        start = start + 1;
    }
    proof {
        crate::strutil::lemma_trim_start_indexed(v@, start as int);
    }
    subvec(v, start, n)
}

/// The version string told by `fdctl version`: the first whitespace token of
/// the first line, prefixed with the client name.
pub open spec fn spec_parse_firedancer_version(out: Seq<char>) -> Seq<char> {
    if out.len() == 0 {
        "Firedancer Unknown"@
    } else {
        let tok = spec_first_token(spec_first_line(out));
        if tok.len() == 0 {
            "Firedancer Unknown"@
        } else {
            "Firedancer "@ + tok
        }
    }
}

pub fn parse_firedancer_version(out: &str) -> (r: String)
    ensures
        r@ == spec_parse_firedancer_version(out@),
{
    let v = char_seq(out);
    if v.len() == 0 {
        return String::from_str("Firedancer Unknown");
    }
    let line = first_line(&v);
    let (tok, _) = first_token_and_rest(&line);
    if tok.len() == 0 {
        return String::from_str("Firedancer Unknown");
    }
    let mut out_chars = char_seq("Firedancer ");
    push_all(&mut out_chars, &tok);
    chars_string(&out_chars)
}

/// The version string told by `agave-validator --version`: the second token
/// of the first line for the usual banners, else the whole trimmed line.
pub open spec fn spec_parse_agave_version(out: Seq<char>) -> Option<Seq<char>> {
    if out.len() == 0 {
        None
    } else {
        let line = spec_first_line(out);
        if starts_with_seq(line, "agave-validator "@) || starts_with_seq(line, "solana-cli "@) {
            let t2 = spec_second_token(line);
            if t2.len() == 0 {
                None
            } else {
                Some(t2)
            }
        } else {
            Some(spec_trim(line))
        }
    }
}

/// The client kind a version string reveals: Jito advertises itself inside
/// the version banner; anything else of this family is Agave.
pub open spec fn spec_client_of_version(version: Option<Seq<char>>) -> ValidatorType {
    match version {
        Some(ver) => if contains_seq(ver, "jito"@) {
            ValidatorType::Jito
        } else {
            ValidatorType::Agave
        },
        None => ValidatorType::Agave,
    }
}

/// Parse `agave-validator --version` output into the detected client kind
/// and its version string.
pub fn parse_agave_version(out: &str) -> (r: (ValidatorType, Option<String>))
    ensures
        match r.1 {
            Some(ver) => spec_parse_agave_version(out@) == Some(ver@) && r.0
                == spec_client_of_version(Some(ver@)),
            None => spec_parse_agave_version(out@) is None && r.0 == ValidatorType::Agave,
        },
{
    let v = char_seq(out);
    if v.len() == 0 {
        return (ValidatorType::Agave, None);
    }
    let line = first_line(&v);
    let agave_banner = char_seq("agave-validator ");
    let solana_banner = char_seq("solana-cli ");
    let version: Option<Vec<char>> = if starts_with_chars(&line, &agave_banner)
        || starts_with_chars(&line, &solana_banner) {
        let (_, rest) = first_token_and_rest(&line);
        let (t2, _) = first_token_and_rest(&rest);
        proof {
            assert(spec_second_token(line@) == spec_first_token(spec_after_first_token(line@)));
        }
        if t2.len() == 0 {
            None
        } else {
            Some(t2)
        }
    } else {
        Some(trim_chars(&line))
    };
    match version {
        Some(ver) => {
            let jito = char_seq("jito");
            let vt = if contains_sub(&ver, &jito) {
                ValidatorType::Jito
            } else {
                ValidatorType::Agave
            };
            (vt, Some(chars_string(&ver)))
        },
        None => (ValidatorType::Agave, None),
    }
}

} // verus!
