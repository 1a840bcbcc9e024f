use hello_server::shutdown::{ServerEvent, ServerPhase, ServerState, SignalWatcher};

#[test]
fn lifecycle_drains_before_exit() {
    let mut s = ServerState::new();
    assert_eq!(s.phase, ServerPhase::Starting);

    assert!(!s.step(ServerEvent::BindOk));
    assert_eq!(s.phase, ServerPhase::Serving);

    assert!(s.step(ServerEvent::Accept));
    assert!(s.step(ServerEvent::Accept));
    assert_eq!(s.in_flight, 2);

    assert!(!s.step(ServerEvent::Signal));
    assert_eq!(s.phase, ServerPhase::Draining);

    // No connection is accepted once the signal has been observed.
    assert!(!s.step(ServerEvent::Accept));
    assert_eq!(s.in_flight, 2);
    assert_eq!(s.phase, ServerPhase::Draining);

    // The two accepted requests still complete before the server stops.
    assert!(!s.step(ServerEvent::RequestDone));
    assert_eq!(s.phase, ServerPhase::Draining);
    assert_eq!(s.in_flight, 1);

    assert!(!s.step(ServerEvent::RequestDone));
    assert_eq!(s.phase, ServerPhase::Stopped);
    assert_eq!(s.in_flight, 0);
}

#[test]
fn idle_server_stops_at_once() {
    let mut s = ServerState::new();
    s.step(ServerEvent::BindOk);
    assert!(!s.step(ServerEvent::Signal));
    assert_eq!(s.phase, ServerPhase::Stopped);
    assert_eq!(s.in_flight, 0);
}

#[test]
fn signal_before_bind_stops_the_server() {
    let mut s = ServerState::new();
    assert!(!s.step(ServerEvent::Signal));
    assert_eq!(s.phase, ServerPhase::Stopped);
    // A late bind does not revive acceptance.
    assert!(!s.step(ServerEvent::BindOk));
    assert!(!s.step(ServerEvent::Accept));
    assert_eq!(s.phase, ServerPhase::Stopped);
}

#[test]
fn stopped_server_ignores_every_event() {
    let mut s = ServerState::new();
    s.step(ServerEvent::BindOk);
    s.step(ServerEvent::Signal);
    for e in [
        ServerEvent::BindOk,
        ServerEvent::Accept,
        ServerEvent::RequestDone,
        ServerEvent::Signal,
    ] {
        assert!(!s.step(e));
        assert_eq!(s.phase, ServerPhase::Stopped);
        assert_eq!(s.in_flight, 0);
    }
}

#[test]
fn watcher_resolves_once() {
    let mut w = SignalWatcher::new();
    assert!(!w.observe(false, false));
    assert!(!w.resolved);
    assert!(w.observe(true, false));
    assert!(w.resolved);
    // Later deliveries of either signal have no further effect.
    assert!(!w.observe(true, false));
    assert!(!w.observe(false, true));
    assert!(w.resolved);
}

#[test]
fn watcher_race_is_symmetric() {
    let mut interrupted = SignalWatcher::new();
    let mut terminated = SignalWatcher::new();
    assert_eq!(interrupted.observe(true, false), terminated.observe(false, true));
    assert_eq!(interrupted, terminated);
}
