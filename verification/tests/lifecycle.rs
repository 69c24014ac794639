use eis::error::EngineError;
use eis::lifecycle::{
    contains_text, ignore_patch, is_daemon_running, liveness, plan_init, plan_watch, read_pid_record, status,
    PidRecord, Status, WatchPlan, IGNORE_FILE, PID_FILE, PROJECT_MARKER, STATE_DIR,
};

#[test]
fn the_hidden_state_has_its_fixed_names() {
    assert_eq!(STATE_DIR, ".eis");
    assert_eq!(PID_FILE, "daemon.pid");
    assert_eq!(PROJECT_MARKER, ".git");
    assert_eq!(IGNORE_FILE, ".gitignore");
}

#[test]
fn no_pid_file_means_no_daemon() {
    assert_eq!(read_pid_record(None), PidRecord::Missing);
    assert_eq!(is_daemon_running(None), Ok(false));
}

#[test]
fn a_pid_file_that_names_no_process_is_a_failure() {
    assert_eq!(read_pid_record(Some("not a number")), PidRecord::Malformed);
    assert_eq!(
        is_daemon_running(Some("not a number")),
        Err(EngineError::ProcessLifecycleFailure)
    );
    assert_eq!(is_daemon_running(Some("")), Err(EngineError::ProcessLifecycleFailure));
    assert_eq!(is_daemon_running(Some("12 34")), Err(EngineError::ProcessLifecycleFailure));
}

#[test]
fn white_space_around_the_pid_is_dropped() {
    // the first process of the machine is always there
    assert_eq!(read_pid_record(Some(" 1\n")), PidRecord::Recorded { live: true });
    assert_eq!(is_daemon_running(Some("\t1 \r\n")), Ok(true));
    assert_eq!(is_daemon_running(Some("1")), Ok(true));
}

#[test]
fn a_recorded_process_that_is_gone_is_not_running() {
    // above every identifier that the machine hands out
    assert_eq!(is_daemon_running(Some("2147483647")), Ok(false));
}

#[test]
fn liveness_goes_by_the_record() {
    assert_eq!(liveness(PidRecord::Missing), Ok(false));
    assert_eq!(liveness(PidRecord::Malformed), Err(EngineError::ProcessLifecycleFailure));
    assert_eq!(liveness(PidRecord::Recorded { live: true }), Ok(true));
    assert_eq!(liveness(PidRecord::Recorded { live: false }), Ok(false));
}

#[test]
fn watch_needs_the_hidden_state() {
    assert_eq!(plan_watch(false, false), Err(EngineError::NotInitialized));
    assert_eq!(plan_watch(false, true), Err(EngineError::NotInitialized));
    assert_eq!(plan_watch(true, true), Ok(WatchPlan::AlreadyRunning));
    assert_eq!(plan_watch(true, false), Ok(WatchPlan::Spawn));
}

#[test]
fn init_needs_a_project_root() {
    assert_eq!(plan_init(true), Ok(()));
    assert_eq!(plan_init(false), Err(EngineError::NotAProjectRoot));
}

#[test]
fn status_reports_state_and_daemon() {
    assert_eq!(status(false, false), Status::NotInitialized);
    assert_eq!(status(false, true), Status::NotInitialized);
    assert_eq!(status(true, true), Status::Running);
    assert_eq!(status(true, false), Status::NotRunning);
}

#[test]
fn a_missing_ignore_file_gets_the_entry_alone() {
    assert_eq!(ignore_patch(None), Some(".eis".to_string()));
}

#[test]
fn an_ignore_file_without_the_entry_gets_it_on_a_new_line() {
    assert_eq!(ignore_patch(Some("target")), Some("target\n.eis".to_string()));
    assert_eq!(ignore_patch(Some("target\n")), Some("target\n\n.eis".to_string()));
    assert_eq!(ignore_patch(Some("")), Some("\n.eis".to_string()));
    assert_eq!(ignore_patch(Some(".ei\ns")), Some(".ei\ns\n.eis".to_string()));
}

#[test]
fn an_ignore_file_with_the_entry_is_left_alone() {
    assert_eq!(ignore_patch(Some(".eis")), None);
    assert_eq!(ignore_patch(Some("target\n.eis\nnode_modules\n")), None);
    assert_eq!(ignore_patch(Some("build/.eis/cache")), None);
}

#[test]
fn errors_have_their_messages() {
    assert_eq!(EngineError::NotInitialized.message(), "eis is not initialized");
    assert_eq!(
        EngineError::NotAProjectRoot.message(),
        "eis should be instantiated at the root of your git repository"
    );
    assert_eq!(
        EngineError::ProcessLifecycleFailure.message(),
        "the eis daemon could not be started or found"
    );
    assert_eq!(
        EngineError::RefResolutionFailure.message(),
        "the checked-out commit or the eis head could not be resolved"
    );
    assert_eq!(
        EngineError::ObjectStoreFailure.message(),
        "the snapshot could not be staged or written"
    );
}

#[test]
fn a_text_contains_what_stands_somewhere_in_it() {
    assert!(contains_text("build/.eis/cache", ".eis"));
    assert!(contains_text(".eis", ".eis"));
    assert!(contains_text("x.eis", ".eis"));
    assert!(contains_text(".eisx", ".eis"));
    assert!(contains_text("..eis", ".eis"));
    assert!(contains_text("anything", ""));
    assert!(contains_text("", ""));
    assert!(contains_text("caf\u{e9} .eis", ".eis"));
    assert!(contains_text("a\u{1f600}b", "\u{1f600}b"));
}

#[test]
fn a_text_does_not_contain_what_stands_nowhere_in_it() {
    assert!(!contains_text("", ".eis"));
    assert!(!contains_text(".ei", ".eis"));
    assert!(!contains_text(".ei.s", ".eis"));
    assert!(!contains_text(".EIS", ".eis"));
    assert!(!contains_text("eis", ".eis"));
    assert!(!contains_text("a\u{e9}b", "ab"));
}

#[test]
fn a_text_that_names_no_process_is_malformed_whatever_the_machine_runs() {
    for text in ["", " ", "pid", "12a", "1.5", "0x10", "99999999999999999999999"] {
        assert_eq!(read_pid_record(Some(text)), PidRecord::Malformed);
        assert_eq!(is_daemon_running(Some(text)), Err(EngineError::ProcessLifecycleFailure));
    }
    for text in ["1", " 1", "1\n", "2147483647"] {
        assert!(matches!(read_pid_record(Some(text)), PidRecord::Recorded { .. }));
        assert!(is_daemon_running(Some(text)).is_ok());
    }
}
