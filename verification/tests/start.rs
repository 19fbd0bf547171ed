use tower::start_cmd::StartCmd;

#[test]
fn default_processes_backlog_then_mines() {
    let cmd = StartCmd::default();
    assert!(cmd.should_process_backlog());
    assert!(cmd.should_mine());
    assert!(!cmd.delay_backlog);
}

#[test]
fn skip_backlog_skips_only_the_backlog() {
    let cmd = StartCmd { backlog_only: false, skip_backlog: true, delay_backlog: false };
    assert!(!cmd.should_process_backlog());
    assert!(cmd.should_mine());
}

#[test]
fn backlog_only_skips_mining() {
    let cmd = StartCmd { backlog_only: true, skip_backlog: false, delay_backlog: true };
    assert!(cmd.should_process_backlog());
    assert!(!cmd.should_mine());
}
