use keiko::supervisor::CommandManager;
use keiko::OrchestratorError;

#[test]
fn start_then_stop_releases_the_handle() {
    let mut m = CommandManager::new("katana", Some(String::from("--dev --silent")));
    assert!(m.handler.is_none());
    let r = m.start_command(Some(7));
    assert!(r.is_ok());
    assert_eq!(m.handler, Some(7));
    let released = m.stop_command();
    assert_eq!(released, Some(7));
    assert!(m.handler.is_none());
}

#[test]
fn stop_without_a_live_handle_is_a_no_op() {
    let mut m = CommandManager::new("torii", None);
    assert_eq!(m.stop_command(), None);
    assert_eq!(m.stop_command(), None);
    assert!(m.handler.is_none());
}

#[test]
fn spawn_failure_is_reported_and_leaves_nothing_running() {
    let mut m = CommandManager::new("missing-binary", None);
    let r = m.start_command(None);
    assert_eq!(r, Err(OrchestratorError::SpawnFailed));
    assert!(m.handler.is_none());
}

#[test]
fn replace_releases_the_old_handle_before_the_new_start() {
    let mut m = CommandManager::new("katana", Some(String::from("--dev")));
    m.start_command(Some(1)).unwrap();
    let released = m.reset_command(String::from("katana"), Some(String::from("--dev --no-mining")));
    assert_eq!(released, Some(1));
    assert!(m.handler.is_none());
    m.start_command(Some(2)).unwrap();
    assert_eq!(m.handler, Some(2));
    assert_eq!(m.args, Some(String::from("--dev --no-mining")));
}

#[test]
fn at_most_one_handle_over_a_whole_lifecycle() {
    // Drive one supervisor through its whole lifecycle and check after
    // every operation that it owns at most one handle.
    let mut m = CommandManager::new("katana", None);
    assert!(m.handler.iter().count() <= 1);
    m.start_command(Some(10)).unwrap();
    assert!(m.handler.iter().count() <= 1);
    let old = m.reset_command(String::from("katana"), Some(String::from("--silent")));
    assert_eq!(old, Some(10));
    assert!(m.handler.iter().count() <= 1);
    m.start_command(Some(11)).unwrap();
    assert!(m.handler.iter().count() <= 1);
    assert_eq!(m.stop_command(), Some(11));
    assert!(m.handler.is_none());
}
