//! Raising the window on KDE.
use ronsole::platform::kde_activation::{
    activation_script, find_executable_in_path, find_qdbus_with, is_kde_session_with,
    parse_script_id, plugin_name, private_runtime_dir, script_file_name, ActivationStep,
    CommandOutput, CommandSpec, KdeActivationRequest, KdeActivationState, SendOutcome,
    COMMAND_TIMEOUT_MS, KWIN_SCRIPTING_PATH, KWIN_SERVICE, qdbus_run_script,
};

fn output(success: bool, stdout: &str) -> Option<CommandOutput> {
    Some(CommandOutput { success, stdout: stdout.as_bytes().to_vec() })
}

/// Runs the commands against replies, and gives back the commands and whether the window came up.
fn activate(pid: u32, replies: Vec<Option<CommandOutput>>) -> (Vec<CommandSpec>, bool) {
    let path = [b"/run/", script_file_name(pid, 0).as_bytes()].concat();
    let name = plugin_name(pid, 0);
    let mut calls = Vec::new();
    let mut step = ActivationStep::Load;
    let mut replies = replies.into_iter();
    while let Some(command) = step.command(b"/usr/bin/qdbus6", &path, &name) {
        calls.push(command);
        step = step.next(&replies.next().unwrap());
    }
    match step {
        ActivationStep::Done { activated } => (calls, activated),
        _ => panic!("no command and not done"),
    }
}

#[test]
fn kde_session_detection_accepts_plasma_markers_only() {
    assert!(is_kde_session_with(None, Some(b"KDE".to_vec())));
    assert!(is_kde_session_with(None, Some(b"GNOME:KDE".to_vec())));
    assert!(is_kde_session_with(Some(b"true".to_vec()), None));
    assert!(!is_kde_session_with(None, Some(b"GNOME".to_vec())));
}

#[test]
fn activation_script_targets_primary_pid_and_restores_focus_stack_and_desktop() {
    let script = activation_script(4242);
    assert!(script.contains("const targetPid = 4242;"));
    assert!(script.contains("candidate.pid === targetPid"));
    assert!(script.contains("target.minimized = false;"));
    assert!(script.contains("target.desktops.length > 0"));
    assert!(script.contains("workspace.setCurrentDesktopForScreen(targetDesktop, target.output);"));
    assert!(script.contains("workspace.currentDesktop = targetDesktop;"));
    assert!(script.contains("target.demandsAttention = false;"));
    assert!(script.contains("workspace.activeWindow = target;"));
    assert!(script.contains("workspace.raiseWindow(target);"));
    assert!(!script.contains("caption"));
    assert!(!script.contains("title"));
}

#[test]
fn qdbus_plan_loads_runs_and_unloads_one_private_script() {
    let (calls, activated) =
        activate(31337, vec![output(true, "17\n"), output(true, ""), output(true, "")]);
    assert!(activated);
    assert_eq!(calls.len(), 3);
    assert_eq!(calls[0].program, b"/usr/bin/qdbus6");
    assert_eq!(calls[0].args[0], KWIN_SERVICE.as_bytes());
    assert_eq!(calls[0].args[1], KWIN_SCRIPTING_PATH.as_bytes());
    assert_eq!(calls[0].args[2], b"loadScript");
    assert!(String::from_utf8_lossy(&calls[0].args[3]).contains("ronsole-kwin-activate-31337-"));
    assert!(String::from_utf8_lossy(&calls[0].args[4]).starts_with("ronsole-activate-31337-"));
    assert_eq!(
        calls[1].args,
        [KWIN_SERVICE.as_bytes().to_vec(), b"/Scripting/Script17".to_vec(), b"run".to_vec()]
    );
    assert!(calls.iter().all(|call| call.timeout_ms == COMMAND_TIMEOUT_MS));
    assert_eq!(calls[2].args[2], b"unloadScript");
    assert_eq!(calls[2].args[3], calls[0].args[4]);
}

#[test]
fn failed_or_malformed_kwin_calls_fall_back_without_leaking_script() {
    for first_reply in [output(false, ""), output(true, "not-an-id\n")] {
        let (_, activated) = activate(7, vec![first_reply, output(true, "")]);
        assert!(!activated);
    }
}

#[test]
fn run_failure_still_unloads_and_cleans_up_script() {
    let (calls, activated) =
        activate(8, vec![output(true, "3\n"), output(false, ""), output(true, "")]);
    assert!(!activated);
    assert_eq!(calls.len(), 3);
    assert_eq!(calls[2].args[2], b"unloadScript");
}

#[test]
fn runner_timeout_is_bounded_unloads_loaded_script_and_cleans_up() {
    let (calls, activated) = activate(9, vec![output(true, "9\n"), None, output(true, "")]);
    assert!(!activated);
    assert_eq!(calls.len(), 3);
    assert_eq!(calls[1].timeout_ms, COMMAND_TIMEOUT_MS);
    assert_eq!(calls[2].args[2], b"unloadScript");
}

#[test]
fn qdbus_candidates_put_qt6_first() {
    assert_eq!(
        find_qdbus_with(Some(b"/a:/b".to_vec())),
        [
            b"/a/qdbus6".to_vec(),
            b"/b/qdbus6".to_vec(),
            b"/a/qdbus".to_vec(),
            b"/b/qdbus".to_vec()
        ]
    );
    assert_eq!(find_qdbus_with(None), Vec::<Vec<u8>>::new());
    assert_eq!(
        find_executable_in_path("x", b"/a:/b/"),
        [b"/a/x".to_vec(), b"/b/x".to_vec()]
    );
}

#[test]
fn private_runtime_dir_is_owned_and_closed_to_others() {
    assert!(private_runtime_dir(true, 1000, 1000, 0o40700));
    assert!(!private_runtime_dir(false, 1000, 1000, 0o40700));
    assert!(!private_runtime_dir(true, 0, 1000, 0o40700));
    assert!(!private_runtime_dir(true, 1000, 1000, 0o40750));
}

#[test]
fn script_id_parser_rejects_negative_and_non_numeric_replies() {
    assert_eq!(parse_script_id(b"0\n"), Some(0));
    assert_eq!(parse_script_id(b"42"), Some(42));
    assert_eq!(parse_script_id(b"-1\n"), None);
    assert_eq!(parse_script_id(b"i 4\n"), None);
    assert_eq!(parse_script_id(b""), None);
}

#[test]
fn rapid_requests_run_once() {
    let mut state = KdeActivationState::new(true);
    assert_eq!(state.begin_request(), None);
    assert_eq!(state.finish_request(SendOutcome::Sent), KdeActivationRequest::Enqueued);
    for _ in 0..16 {
        assert_eq!(state.begin_request(), Some(KdeActivationRequest::Coalesced));
    }
    assert!(!state.job_done(true));
    assert_eq!(state.begin_request(), None);
    assert_eq!(state.finish_request(SendOutcome::Disconnected), KdeActivationRequest::Unavailable);
    state.shutdown();
    assert!(!state.has_sender);
    assert_eq!(state.begin_request(), Some(KdeActivationRequest::Unavailable));
}

#[test]
fn failure_is_reported_once() {
    let mut state = KdeActivationState::new(true);
    assert!(state.job_done(false));
    assert!(!state.job_done(false));
    assert!(!state.report_once());
}

#[test]
fn script_object_is_named_after_its_number() {
    let command = qdbus_run_script(b"/usr/bin/qdbus6", 17);
    assert_eq!(command.args[1], b"/Scripting/Script17");
    assert_eq!(command.args[2], b"run");
    let command = qdbus_run_script(b"/usr/bin/qdbus6", i32::MIN);
    assert_eq!(command.args[1], b"/Scripting/Script-2147483648");
}
