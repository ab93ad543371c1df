//! Processes of a terminal.
use ronsole::platform::process::{
    cleanup_deadline_passed, command_line_args, executable_candidates, is_executable_file,
    linux_process_children, linux_process_group, linux_process_stat,
    linux_session_process_groups, process_snapshot, select_effective_foreground_process,
    signal_process_group, signal_process_groups, AttachError, CleanupStep,
    ForegroundProcessCandidate, ForegroundSearch, LinuxProcessStat, ProcessTree, ESRCH, SIGKILL,
    SIGTERM,
};

fn candidate(process_id: u32, depth: usize) -> ForegroundProcessCandidate {
    ForegroundProcessCandidate { process_id, depth }
}

fn stat(process_group: i32, session_id: i32, state: u8) -> LinuxProcessStat {
    LinuxProcessStat { process_group, session_id, state }
}

#[test]
fn foreground_group_leader_is_effective_without_children() {
    assert_eq!(select_effective_foreground_process(&[candidate(100, 0)]), Some(100));
}

#[test]
fn foreground_wrapper_prefers_deepest_child_in_same_group() {
    assert_eq!(
        select_effective_foreground_process(&[
            candidate(100, 0),
            candidate(101, 1),
            candidate(102, 2),
        ]),
        Some(102)
    );
}

#[test]
fn foreground_search_walks_the_group_only() {
    assert_eq!(select_effective_foreground_process(&[]), None);
    let mut search = ForegroundSearch::start(100);
    assert_eq!(search.next(), Some(100));
    search.visit(&[(101, Some(100)), (102, Some(102)), (103, None)]);
    assert_eq!(search.next(), Some(101));
    search.visit(&[(104, Some(100))]);
    assert_eq!(search.next(), Some(104));
    search.visit(&[]);
    assert_eq!(search.next(), None);
    assert_eq!(search.shown()[0], 104);
}

#[test]
fn stat_line_is_read_behind_the_name() {
    let line = b"42 (a) b) S 1 42 40 0 -1 4194304 0 0";
    assert_eq!(linux_process_stat(line), Some(stat(42, 40, b'S')));
    assert_eq!(linux_process_stat(b"42 (sh) S 1"), None);
    assert_eq!(linux_process_stat(b"nothing"), None);
    assert_eq!(linux_process_group(Some(stat(42, 40, b'S'))), Some(42));
    assert_eq!(linux_process_group(Some(stat(-1, 40, b'S'))), None);
    assert_eq!(linux_process_group(None), None);
    assert_eq!(linux_process_children(b"12 13 x 14\n"), vec![12, 13, 14]);
}

#[test]
fn command_lines_are_split_at_zero_bytes() {
    assert_eq!(
        command_line_args(b"sh\0-c\0ls\0"),
        [b"sh".to_vec(), b"-c".to_vec(), b"ls".to_vec()]
    );
    let snapshot =
        process_snapshot(7, Some(b"/bin/sh".to_vec()), None, Some(b"sh\0".to_vec())).unwrap();
    assert_eq!(snapshot.process_id, 7);
    assert_eq!(snapshot.executable.as_deref(), Some(&b"/bin/sh"[..]));
    assert_eq!(snapshot.args, [b"sh".to_vec()]);
    assert!(process_snapshot(7, None, None, None).is_none());
}

#[test]
fn tree_is_attached_to_session_leaders() {
    let tree = match ProcessTree::attach_process_id(40, Some(stat(40, 40, b'S'))) {
        Ok(tree) => tree,
        Err(_) => panic!("expected a tree"),
    };
    assert_eq!(tree.session_id, 40);
    assert!(tree.active);
    assert!(matches!(
        ProcessTree::attach_process_id(u32::MAX, Some(stat(40, 40, b'S'))),
        Err(AttachError::ProcessIdTooLarge)
    ));
    assert!(matches!(ProcessTree::attach_process_id(40, None), Err(AttachError::Disappeared)));
    assert!(matches!(
        ProcessTree::attach_process_id(41, Some(stat(40, 40, b'S'))),
        Err(AttachError::NotSessionLeader)
    ));
    for error in
        [AttachError::ProcessIdTooLarge, AttachError::Disappeared, AttachError::NotSessionLeader]
    {
        assert!(!error.message().is_empty());
    }
}

#[test]
fn every_group_of_the_session_gets_the_signal_once() {
    let processes =
        [stat(40, 40, b'S'), stat(41, 40, b'R'), stat(41, 40, b'S'), stat(50, 50, b'S')];
    let mut groups = linux_session_process_groups(40, &processes);
    groups.sort();
    assert_eq!(groups, vec![40, 41]);

    let mut tree = match ProcessTree::attach_process_id(40, Some(stat(40, 40, b'S'))) {
        Ok(tree) => tree,
        Err(_) => panic!("expected a tree"),
    };
    let gentle = tree.terminate_gracefully(&processes).unwrap();
    assert_eq!(gentle.signal, SIGTERM);
    let hard = tree.terminate_forcefully(&processes).unwrap();
    assert_eq!(hard.signal, SIGKILL);
    assert_eq!(hard.groups.len(), 2);

    match tree.finish_after_owner_exit(Some(&processes[..])) {
        CleanupStep::Kill(plan) => assert_eq!(plan.signal, SIGKILL),
        CleanupStep::Stop => panic!("expected a signal"),
    }
    assert!(tree.active);
    assert!(matches!(tree.finish_after_owner_exit(Some(&processes[3..])), CleanupStep::Stop));
    assert!(!tree.active);
    assert!(tree.terminate_forcefully(&processes).is_none());
}

#[test]
fn vanished_groups_are_no_failure() {
    assert_eq!(signal_process_group(0, 0), None);
    assert_eq!(signal_process_group(-1, ESRCH), None);
    assert_eq!(signal_process_group(-1, 1), Some(1));
    assert_eq!(signal_process_groups(&[None, Some(1), Some(2)]), Some(1));
    assert_eq!(signal_process_groups(&[None]), None);
    assert!(cleanup_deadline_passed(500, 500));
    assert!(!cleanup_deadline_passed(499, 500));
}

#[test]
fn programs_are_looked_for_where_the_path_says() {
    assert_eq!(
        executable_candidates(b"sh", Some(&b"/bin:/usr/bin"[..])),
        [b"/bin/sh".to_vec(), b"/usr/bin/sh".to_vec()]
    );
    assert_eq!(executable_candidates(b"/bin/sh", None), [b"/bin/sh".to_vec()]);
    assert_eq!(executable_candidates(b"./sh", Some(&b"/bin"[..])), [b"./sh".to_vec()]);
    assert!(executable_candidates(b"sh", None).is_empty());
    assert!(is_executable_file(true, 0o755));
    assert!(!is_executable_file(true, 0o644));
    assert!(!is_executable_file(false, 0o755));
}
