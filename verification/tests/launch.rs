//! Command lines.
use ronsole::launch::{
    join_path, normal_cli_token, parse_startup_args_with_current_dir,
    parse_terminal_launch_args_with_current_dir, pgo_automation_requested, NormalCliToken,
    StartupMode, TerminalLaunchSpec,
};

fn args(values: &[&str]) -> Vec<Vec<u8>> {
    values.iter().map(|value| value.as_bytes().to_vec()).collect()
}

fn parse(values: &[&str]) -> Result<TerminalLaunchSpec, String> {
    parse_terminal_launch_args_with_current_dir(&args(values), || Ok(b"/launcher/cwd".to_vec()))
}

fn parse_startup(values: &[&str]) -> Result<StartupMode, String> {
    parse_startup_args_with_current_dir(&args(values), || Ok(b"/launcher/cwd".to_vec()))
}

#[test]
fn default_launch_spec_preserves_default_terminal_session() {
    assert_eq!(
        TerminalLaunchSpec::default(),
        TerminalLaunchSpec { working_directory: None, command: Vec::new(), hold: false }
    );
    let parsed = parse_terminal_launch_args_with_current_dir(&args(&["ronsole"]), || {
        panic!("default launch must not inspect process cwd")
    })
    .unwrap();
    assert_eq!(parsed, TerminalLaunchSpec::default());
}

#[test]
fn workdir_options_preserve_absolute_paths_and_alias() {
    let explicit = parse_terminal_launch_args_with_current_dir(
        &args(&["ronsole", "--workdir", "/tmp"]),
        || panic!("absolute workdir must not inspect process cwd"),
    )
    .unwrap();
    assert_eq!(explicit.working_directory.as_deref(), Some(&b"/tmp"[..]));

    let alias = parse(&["ronsole", "--working-directory", "/var/tmp"]).unwrap();
    assert_eq!(alias.working_directory.as_deref(), Some(&b"/var/tmp"[..]));
}

#[test]
fn relative_workdir_uses_injected_launcher_cwd_without_canonicalizing() {
    let parsed = parse(&["ronsole", "--workdir", "target/../session"]).unwrap();
    assert_eq!(
        parsed.working_directory.as_deref(),
        Some(&b"/launcher/cwd/target/../session"[..])
    );
}

#[test]
fn hold_and_noclose_are_idempotent_aliases() {
    assert!(parse(&["ronsole", "--hold"]).unwrap().hold);
    assert!(parse(&["ronsole", "--noclose"]).unwrap().hold);
    assert!(parse(&["ronsole", "--hold", "--noclose", "--hold"]).unwrap().hold);
}

#[test]
fn execute_option_takes_all_remaining_raw_arguments() {
    let parsed = parse(&["ronsole", "-e", "htop", "-d", "10"]).unwrap();
    assert_eq!(parsed.command, args(&["htop", "-d", "10"]));

    let child_option = parse(&["ronsole", "-e", "foo", "--workdir", "/x"]).unwrap();
    assert_eq!(child_option.command, args(&["foo", "--workdir", "/x"]));
    assert_eq!(child_option.working_directory, None);
}

#[test]
fn startup_mode_does_not_reinterpret_execute_remainder_as_pgo() {
    let parsed = parse_startup(&["ronsole", "-e", "foo", "--pgo-train"]).unwrap();
    assert_eq!(
        parsed,
        StartupMode::Normal(TerminalLaunchSpec {
            working_directory: None,
            command: args(&["foo", "--pgo-train"]),
            hold: false,
        })
    );

    let pgo_option =
        parse_startup(&["ronsole", "-e", "foo", "--pgo-workspace", "/tmp/x"]).unwrap();
    assert_eq!(
        pgo_option,
        StartupMode::Normal(TerminalLaunchSpec {
            working_directory: None,
            command: args(&["foo", "--pgo-workspace", "/tmp/x"]),
            hold: false,
        })
    );
}

#[test]
fn startup_mode_preserves_normal_options_before_execute_boundary() {
    let held = parse_startup(&["ronsole", "--hold", "-e", "foo", "--pgo-train"]).unwrap();
    assert_eq!(
        held,
        StartupMode::Normal(TerminalLaunchSpec {
            working_directory: None,
            command: args(&["foo", "--pgo-train"]),
            hold: true,
        })
    );

    let workdir =
        parse_startup(&["ronsole", "--workdir", "/tmp", "-e", "foo", "--pgo-train"]).unwrap();
    assert_eq!(
        workdir,
        StartupMode::Normal(TerminalLaunchSpec {
            working_directory: Some(b"/tmp".to_vec()),
            command: args(&["foo", "--pgo-train"]),
            hold: false,
        })
    );
}

#[test]
fn startup_mode_skips_normal_option_values_when_detecting_pgo() {
    let parsed = parse_startup(&["ronsole", "--workdir", "--pgo-train"]).unwrap();
    assert_eq!(
        parsed,
        StartupMode::Normal(TerminalLaunchSpec {
            working_directory: Some(b"/launcher/cwd/--pgo-train".to_vec()),
            command: Vec::new(),
            hold: false,
        })
    );
}

#[test]
fn startup_mode_detects_frozen_pgo_invocation_before_normal_parsing() {
    let parsed = parse_startup(&[
        "ronsole",
        "--pgo-train",
        "--pgo-workspace",
        "/tmp/workspace",
        "--pgo-report",
        "/tmp/report.json",
        "--pgo-timeout-seconds",
        "120",
    ])
    .unwrap();
    assert_eq!(parsed, StartupMode::PgoAutomation);
}

#[test]
fn parser_preserves_non_utf8_workdir_and_command_bytes() {
    let raw_workdir = vec![b'd', b'i', b'r', 0xff];
    let raw_command = vec![b'f', b'o', b'o', 0xfe];
    let raw_arg = vec![b'a', b'r', b'g', 0xfd];
    let argv = vec![
        b"ronsole".to_vec(),
        b"--workdir".to_vec(),
        raw_workdir.clone(),
        b"-e".to_vec(),
        raw_command.clone(),
        raw_arg.clone(),
    ];
    let parsed =
        parse_terminal_launch_args_with_current_dir(&argv, || Ok(b"/launcher".to_vec())).unwrap();
    assert_eq!(
        parsed.working_directory,
        Some([&b"/launcher/"[..], &raw_workdir[..]].concat())
    );
    assert_eq!(parsed.command, vec![raw_command, raw_arg]);
}

#[test]
fn parser_rejects_missing_values_duplicates_and_unknown_arguments() {
    for invalid in [
        args(&["ronsole", "-e"]),
        args(&["ronsole", "--workdir"]),
        args(&["ronsole", "--working-directory"]),
        args(&["ronsole", "--workdir", "/tmp", "--working-directory", "/var/tmp"]),
        args(&["ronsole", "--unknown"]),
        args(&["ronsole", "unexpected"]),
    ] {
        assert!(parse_terminal_launch_args_with_current_dir(&invalid, || {
            Ok(b"/launcher".to_vec())
        })
        .is_err());
    }
}

#[test]
fn unknown_current_directory_is_an_error_only_where_it_is_needed() {
    let relative = args(&["ronsole", "--workdir", "here"]);
    assert!(parse_terminal_launch_args_with_current_dir(&relative, || Err("gone".to_owned()))
        .is_err());
    let absolute = args(&["ronsole", "--workdir", "/here"]);
    assert!(parse_terminal_launch_args_with_current_dir(&absolute, || Err("gone".to_owned()))
        .is_ok());
}

#[test]
fn unknown_argument_is_quoted_as_text() {
    let argv = vec![b"ronsole".to_vec(), b"--caf\xc3\xa9".to_vec()];
    let error = parse_terminal_launch_args_with_current_dir(&argv, || Ok(Vec::new())).unwrap_err();
    assert!(error.contains("--caf\u{e9}"), "{error}");
    let argv = vec![b"ronsole".to_vec(), b"bad\xff".to_vec()];
    let error = parse_terminal_launch_args_with_current_dir(&argv, || Ok(Vec::new())).unwrap_err();
    assert!(error.contains("bad\u{fffd}"), "{error}");
}

#[test]
fn tokens_take_their_values_with_them() {
    let argv = args(&["ronsole", "--workdir", "/x", "--hold", "-e", "a", "b"]);
    match normal_cli_token(&argv, 1) {
        (NormalCliToken::WorkingDirectory { value: Some(value), .. }, 3) => {
            assert_eq!(value, &b"/x".to_vec())
        },
        _ => panic!("expected a working directory"),
    }
    assert!(matches!(normal_cli_token(&argv, 3), (NormalCliToken::Hold, 4)));
    match normal_cli_token(&argv, 4) {
        (NormalCliToken::Execute(rest), 7) => assert_eq!(rest.len(), 2),
        _ => panic!("expected a command"),
    }
    assert!(!pgo_automation_requested(&argv));
    assert!(pgo_automation_requested(&args(&["ronsole", "--hold", "--pgo-train"])));
}

#[test]
fn paths_are_joined_with_one_separator() {
    assert_eq!(join_path(b"/a", b"b"), b"/a/b".to_vec());
    assert_eq!(join_path(b"/a/", b"b"), b"/a/b".to_vec());
    assert_eq!(join_path(b"", b"b"), b"b".to_vec());
}
