use valmon::catchup::{catchup_command, parse_catchup_output};
use valmon::display::{format_duration, shorten_path};
use valmon::refresh::{
    config_arg_of_ps, derive_solana_cli, identity_and_role, parse_agave_version,
    parse_firedancer_version, parse_port, parse_rpc_port_agave, parse_sync_status,
};
use valmon::types::{NodeStatus, ValidatorType};

#[test]
fn empty_line_is_waiting() {
    assert_eq!(parse_catchup_output("", false), "Waiting...");
    assert_eq!(parse_catchup_output("   \t ", false), "Waiting...");
}

#[test]
fn caught_up_variants_are_detected() {
    assert_eq!(
        parse_catchup_output("Node abc has caught up (us: 1234, them: 1234)", false),
        "Caught up"
    );
    assert_eq!(parse_catchup_output("abc 0 slot(s) behind", false), "Caught up");
}

#[test]
fn slots_behind_is_extracted() {
    assert_eq!(parse_catchup_output("Node abc is 7 slot(s) behind", false), "7 slots behind");
    assert_eq!(parse_catchup_output("253 slot(s) behind", false), "253 slots behind");
    // A count ending in zero looks like the "0 slot(s)" caught-up marker.
    assert_eq!(parse_catchup_output("250 slot(s) behind", false), "Caught up");
}

#[test]
fn unparsable_slot_count_falls_back_to_truncated_raw_line() {
    // A short unclassifiable line passes through trimmed.
    let line = "  xyz slot(s) behind ";
    assert_eq!(parse_catchup_output(line, false), "xyz slot(s) behind");
    // An overflowing count is unparsable too.
    let huge = "99999999999999999999999 slot(s) behind";
    assert_eq!(parse_catchup_output(huge, false), huge);
    // Anything longer than 40 characters is cut to 37 plus an ellipsis.
    let long = "999999999999999999999999999999999999999999 slot(s) behind";
    let expected = format!("{}...", &long[..37]);
    assert_eq!(expected.len(), 40);
    assert_eq!(parse_catchup_output(long, false), expected);
}

#[test]
fn bash_errors_are_classified() {
    assert_eq!(
        parse_catchup_output("bash: line 1: solana: command not found", false),
        "CLI not found"
    );
    assert_eq!(
        parse_catchup_output("bash: line 1: /x/solana: No such file or directory", false),
        "CLI not found"
    );
    assert_eq!(parse_catchup_output("bash: line 1: something exploded", false), "Command error");
}

#[test]
fn error_keywords_are_classified() {
    assert_eq!(parse_catchup_output("RPC Error: request timed out", false), "RPC Error");
    assert_eq!(parse_catchup_output("error: connection refused", false), "Connection Error");
    assert_eq!(parse_catchup_output("Error: something else", false), "Error");
}

#[test]
fn long_unknown_lines_are_truncated() {
    let line = "abcdefghijklmnopqrstuvwxyz0123456789ABCDEFGHIJ";
    assert_eq!(line.len(), 46);
    let expected = format!("{}...", &line[..37]);
    assert_eq!(parse_catchup_output(line, false), expected);
    let short = "just some text";
    assert_eq!(parse_catchup_output(short, false), short);
}

#[test]
fn firedancer_status_is_running_or_not() {
    assert_eq!(parse_catchup_output("solana-labs is running", true), "Caught up");
    assert_eq!(parse_catchup_output("stopped", true), "Not running");
}

#[test]
fn sync_status_extracts_slot_fragment() {
    assert_eq!(
        parse_sync_status("Node abc has caught up (us: 1234, them: 1234)"),
        Some(String::from("Caught up (slot: 1234)"))
    );
    assert_eq!(
        parse_sync_status("something\nabc 0 slot(s) behind\nmore"),
        Some(String::from("Caught up"))
    );
    assert_eq!(parse_sync_status("still 12 slot(s) behind"), None);
}

#[test]
fn sync_status_without_fragment_is_plain_caught_up() {
    assert_eq!(
        parse_sync_status("validator has caught up"),
        Some(String::from("Caught up"))
    );
}

#[test]
fn identity_and_role_classifies_by_identity_match() {
    let response = "{\"jsonrpc\":\"2.0\",\"result\":{\"identity\":\"AbCdEf\"},\"id\":1}";
    let (id, role) = identity_and_role(response, "AbCdEf");
    assert_eq!(id, Some(String::from("AbCdEf")));
    assert_eq!(role, NodeStatus::Active);
    let (id2, role2) = identity_and_role(response, "Other");
    assert_eq!(id2, Some(String::from("AbCdEf")));
    assert_eq!(role2, NodeStatus::Standby);
    let (id3, role3) = identity_and_role("not json at all", "AbCdEf");
    assert_eq!(id3, None);
    assert_eq!(role3, NodeStatus::Unknown);
    let (id4, role4) = identity_and_role("{\"result\":{}}", "AbCdEf");
    assert_eq!(id4, None);
    assert_eq!(role4, NodeStatus::Unknown);
}

#[test]
fn solana_cli_is_derived_from_executables() {
    assert_eq!(
        derive_solana_cli(
            &Some(String::from("/usr/local/bin/solana")),
            ValidatorType::Agave,
            &None,
            &None
        ),
        Some(String::from("/usr/local/bin/solana"))
    );
    assert_eq!(
        derive_solana_cli(
            &None,
            ValidatorType::Firedancer,
            &Some(String::from("/opt/fd/bin/fdctl")),
            &None
        ),
        Some(String::from("/opt/fd/bin/solana"))
    );
    assert_eq!(
        derive_solana_cli(&None, ValidatorType::Firedancer, &None, &None),
        Some(String::from("solana"))
    );
    assert_eq!(
        derive_solana_cli(
            &None,
            ValidatorType::Agave,
            &None,
            &Some(String::from("/home/sol/bin/agave-validator"))
        ),
        Some(String::from("/home/sol/bin/solana"))
    );
    assert_eq!(derive_solana_cli(&None, ValidatorType::Agave, &None, &None), None);
}

#[test]
fn rpc_port_is_read_from_command_line() {
    assert_eq!(
        parse_rpc_port_agave("sol 12 agave-validator --identity x --rpc-port 8000 --foo"),
        8000
    );
    assert_eq!(parse_rpc_port_agave("agave-validator without the flag"), 8899);
    assert_eq!(parse_rpc_port_agave("agave-validator --rpc-port notaport"), 8899);
    assert_eq!(parse_rpc_port_agave(""), 8899);
}

#[test]
fn config_path_is_read_from_ps_output() {
    assert_eq!(
        config_arg_of_ps("root 1 fdctl --config /etc/fd.toml run"),
        Some(String::from("/etc/fd.toml"))
    );
    assert_eq!(config_arg_of_ps("root 1 fdctl run"), None);
    assert_eq!(config_arg_of_ps("fdctl --config"), None);
}

#[test]
fn port_output_is_trimmed_and_parsed() {
    assert_eq!(parse_port(" 8899\n"), Some(8899));
    assert_eq!(parse_port("not a port"), None);
    assert_eq!(parse_port("99999"), None);
}

#[test]
fn firedancer_version_takes_first_token() {
    assert_eq!(
        parse_firedancer_version("0.505.20216 (abc123)\nmore"),
        "Firedancer 0.505.20216"
    );
    assert_eq!(parse_firedancer_version(""), "Firedancer Unknown");
    assert_eq!(parse_firedancer_version("\nsecond line"), "Firedancer Unknown");
}

#[test]
fn agave_version_banner_is_parsed() {
    let (vt, ver) = parse_agave_version("agave-validator 2.0.14 (src:devbuild)");
    assert_eq!(vt, ValidatorType::Agave);
    assert_eq!(ver, Some(String::from("2.0.14")));
    let (vt2, ver2) = parse_agave_version("agave-validator 2.0.14-jito (src:x)");
    assert_eq!(vt2, ValidatorType::Jito);
    assert_eq!(ver2, Some(String::from("2.0.14-jito")));
    let (vt3, ver3) = parse_agave_version("some custom build banner");
    assert_eq!(vt3, ValidatorType::Agave);
    assert_eq!(ver3, Some(String::from("some custom build banner")));
    let (vt4, ver4) = parse_agave_version("");
    assert_eq!(vt4, ValidatorType::Agave);
    assert_eq!(ver4, None);
}

#[test]
fn catchup_command_follows_validator_type() {
    assert_eq!(
        catchup_command(
            ValidatorType::Firedancer,
            &Some(String::from("/opt/fd/fdctl")),
            &None,
            &None
        ),
        Some(String::from("bash -c '/opt/fd/fdctl status'"))
    );
    assert_eq!(catchup_command(ValidatorType::Firedancer, &None, &None, &None), None);
    assert_eq!(
        catchup_command(
            ValidatorType::Agave,
            &None,
            &Some(String::from("/usr/bin/solana")),
            &None
        ),
        Some(String::from("bash -c '/usr/bin/solana catchup --our-localhost 2>&1'"))
    );
    assert_eq!(
        catchup_command(
            ValidatorType::Jito,
            &None,
            &None,
            &Some(String::from("/usr/bin/agave-validator"))
        ),
        Some(String::from("bash -c '/usr/bin/solana catchup --our-localhost 2>&1'"))
    );
    assert_eq!(catchup_command(ValidatorType::Agave, &None, &None, &None), None);
}

#[test]
fn short_paths_and_placeholder_pass_through() {
    assert_eq!(shorten_path("N/A", 10), "N/A");
    assert_eq!(shorten_path("/usr/bin/solana", 30), "/usr/bin/solana");
}

#[test]
fn long_paths_keep_the_filename() {
    assert_eq!(shorten_path("/aaa/bbb/ccc/filename.txt", 20), "aaa/...filename.txt");
    assert_eq!(shorten_path("/verylongcomponent/f.txt", 12), "/ver...f.txt");
}

#[test]
fn overlong_filenames_are_truncated_from_the_left() {
    assert_eq!(
        shorten_path("/x/abcdefghijklmnopqrstuvwxyz", 10),
        "...tuvwxyz"
    );
}

#[test]
fn durations_format_by_magnitude() {
    assert_eq!(format_duration(0), "0s");
    assert_eq!(format_duration(59), "59s");
    assert_eq!(format_duration(60), "1m");
    assert_eq!(format_duration(3599), "59m");
    assert_eq!(format_duration(7200), "2h");
}
