use rate_follower::dispatcher::{dispatch, route, Direction, Dispatch, LastStart, Msg};

#[test]
fn stop_drains_and_cancels_wait() {
    assert_eq!(dispatch(0, true), Dispatch { drain: true, cancel: true, msg: Msg::StopExec });
    assert_eq!(dispatch(0, false), Dispatch { drain: true, cancel: false, msg: Msg::StopExec });
}

#[test]
fn start_is_sent_alone() {
    assert_eq!(dispatch(48000, true), Dispatch { drain: false, cancel: false, msg: Msg::StartExec(48000) });
    assert_eq!(dispatch(44100, false), Dispatch { drain: false, cancel: false, msg: Msg::StartExec(44100) });
}

#[test]
fn route_by_numid() {
    assert_eq!(route(Some(3), Some(4), 3), Some(Direction::Capture));
    assert_eq!(route(Some(3), Some(4), 4), Some(Direction::Playback));
    assert_eq!(route(Some(3), Some(4), 5), None);
    assert_eq!(route(None, Some(4), 4), Some(Direction::Playback));
    assert_eq!(route(None, None, 0), None);
    assert_eq!(route(Some(7), Some(7), 7), Some(Direction::Capture));
}

#[test]
fn timing_of_stop_after_start() {
    let mut l = LastStart::new();
    assert_eq!(l.record(0, 5), None);
    assert_eq!(l.record(48000, 100), None);
    assert_eq!(l.at, Some(100));
    assert_eq!(l.record(0, 350), Some(250));
    assert_eq!(l.at, Some(100));
    assert_eq!(l.record(0, 50), Some(0));
}
