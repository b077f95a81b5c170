use mcp_bridge::manager::{stop_reply, ServerManager};

#[test]
fn start_records_handle_and_reports_started() {
    let mut m: ServerManager<u32> = ServerManager::new();
    assert!(m.begin_start().is_none());
    let r = m.finish_start(Ok(41));
    assert_eq!(r, Ok(String::from("Server started")));
}

#[test]
fn second_start_already_running_and_spawns_nothing() {
    let mut m: ServerManager<u32> = ServerManager::new();
    assert!(m.begin_start().is_none());
    m.finish_start(Ok(41)).unwrap();
    // The second start is answered at once: no spawn is requested.
    let second = m.begin_start();
    assert_eq!(second, Some(Ok(String::from("Server already running"))));
    // The first handle is still the tracked one.
    assert_eq!(m.begin_stop(), Some(41));
}

#[test]
fn start_failure_reports_spawn_error_and_tracks_nothing() {
    let mut m: ServerManager<u32> = ServerManager::new();
    let r = m.finish_start(Err(String::from("No such file or directory (os error 2)")));
    assert_eq!(
        r,
        Err(String::from(
            "Failed to start server: No such file or directory (os error 2)"
        ))
    );
    // Nothing is tracked, so a later start is asked to spawn again.
    assert!(m.begin_start().is_none());
}

#[test]
fn stop_surrenders_handle_and_reports_stopped() {
    let mut m: ServerManager<u32> = ServerManager::new();
    m.finish_start(Ok(7)).unwrap();
    let taken = m.begin_stop();
    assert_eq!(taken, Some(7));
    assert_eq!(
        stop_reply(Some(Ok(()))),
        Ok(String::from("Server stopped"))
    );
}

#[test]
fn stop_after_stop_reports_not_running() {
    let mut m: ServerManager<u32> = ServerManager::new();
    m.finish_start(Ok(7)).unwrap();
    m.begin_stop();
    // The first stop cleared the tracked state.
    let taken = m.begin_stop();
    assert!(taken.is_none());
    assert_eq!(stop_reply(None), Ok(String::from("Server not running")));
}

#[test]
fn stop_with_no_process_reports_not_running() {
    let mut m: ServerManager<u32> = ServerManager::new();
    assert!(m.begin_stop().is_none());
    assert_eq!(stop_reply(None), Ok(String::from("Server not running")));
}

#[test]
fn stop_failure_reports_termination_error() {
    assert_eq!(
        stop_reply(Some(Err(String::from("Operation not permitted (os error 1)")))),
        Err(String::from(
            "Failed to stop server: Operation not permitted (os error 1)"
        ))
    );
}
