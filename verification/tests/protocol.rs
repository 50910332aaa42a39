use player_gateway::command::{command_response, dispatch, Command};
use player_gateway::session::{Frame, Session, SessionAction, SessionEvent};
use player_gateway::status::{StatusCell, StatusReader};
use player_gateway::Driver;

#[test]
fn dispatch_maps_each_command_path() {
    assert_eq!(dispatch("POST", "/api/play"), Some(Command::Play));
    assert_eq!(dispatch("POST", "/api/prev"), Some(Command::Prev));
    assert_eq!(dispatch("POST", "/api/next"), Some(Command::Next));
    assert_eq!(dispatch("POST", "/api/stop"), Some(Command::Stop));
    assert_eq!(dispatch("POST", "/api/allsongs"), Some(Command::ListAllSongs));
    assert_eq!(dispatch("POST", "/api/playlist"), Some(Command::ListPlaylist));
}

#[test]
fn dispatch_rejects_other_requests() {
    assert_eq!(dispatch("GET", "/api/play"), None);
    assert_eq!(dispatch("POST", "/api/state"), None);
    assert_eq!(dispatch("POST", "/api/"), None);
    assert_eq!(dispatch("POST", ""), None);
    assert_eq!(dispatch("POST", "/api/playall"), None);
}

#[test]
fn command_response_codes() {
    assert_eq!(command_response(None, false), 404);
    assert_eq!(command_response(Some(Command::Play), true), 200);
    assert_eq!(command_response(Some(Command::Stop), false), 503);
}

#[test]
fn state_read_returns_latest_value() {
    let mut cell = StatusCell::new(String::from("{\"track\":0}"));
    assert_eq!(cell.read_current(), "{\"track\":0}");
    cell.write(String::from("{\"track\":1}"));
    cell.write(String::from("{\"track\":2}"));
    cell.write(String::from("{\"track\":3}"));
    assert_eq!(cell.read_current(), "{\"track\":3}");
}

#[test]
fn reader_coalesces_intermediate_values() {
    let mut cell = StatusCell::new(String::from("a"));
    let mut reader = StatusReader::subscribe(&cell);
    assert_eq!(reader.poll(&cell), None);
    cell.write(String::from("b"));
    cell.write(String::from("c"));
    cell.write(String::from("d"));
    // One poll after three unobserved writes: only the final value, once.
    assert_eq!(reader.poll(&cell), Some(String::from("d")));
    assert_eq!(reader.poll(&cell), None);
}

#[test]
fn session_pushes_latest_status_once_per_change() {
    let mut cell = StatusCell::new(String::from("s0"));
    let mut session = Session::new(&cell);
    // Subscribed at the present value: nothing to push yet.
    match session.step(&cell, SessionEvent::StatusChanged) {
        SessionAction::Ignore => {}
        _ => panic!("expected no action before the first change"),
    }
    cell.write(String::from("s1"));
    cell.write(String::from("s2"));
    match session.step(&cell, SessionEvent::StatusChanged) {
        SessionAction::PushStatus(v) => assert_eq!(v, "s2"),
        _ => panic!("expected a status push"),
    }
    match session.step(&cell, SessionEvent::StatusChanged) {
        SessionAction::Ignore => {}
        _ => panic!("expected coalescing: no second push"),
    }
}

#[test]
fn ping_elicits_pong_with_same_payload() {
    let cell = StatusCell::new(String::from("s"));
    let mut session = Session::new(&cell);
    let payload = vec![1u8, 2, 3, 4];
    match session.step(&cell, SessionEvent::Inbound(Frame::Ping(payload.clone()))) {
        SessionAction::SendPong(p) => assert_eq!(p, payload),
        _ => panic!("expected a pong"),
    }
    assert!(session.is_open());
}

#[test]
fn pong_text_and_binary_frames_are_ignored() {
    let cell = StatusCell::new(String::from("s"));
    let mut session = Session::new(&cell);
    for event in [
        SessionEvent::Inbound(Frame::Pong(vec![9u8])),
        SessionEvent::Inbound(Frame::Binary(vec![0u8, 1])),
        SessionEvent::Inbound(Frame::Text(String::from("hello"))),
    ] {
        match session.step(&cell, event) {
            SessionAction::Ignore => {}
            _ => panic!("expected the frame to be ignored"),
        }
    }
    assert!(session.is_open());
}

#[test]
fn close_shuts_down_exactly_once() {
    let mut cell = StatusCell::new(String::from("s"));
    let mut session = Session::new(&cell);
    match session.step(&cell, SessionEvent::Inbound(Frame::Close)) {
        SessionAction::Shutdown => {}
        _ => panic!("expected a shutdown"),
    }
    assert!(!session.is_open());
    // After the close, nothing provokes a second shutdown.
    cell.write(String::from("s1"));
    for event in [
        SessionEvent::StatusChanged,
        SessionEvent::Inbound(Frame::Close),
        SessionEvent::Inbound(Frame::Ping(vec![1u8])),
        SessionEvent::StreamEnded,
    ] {
        match session.step(&cell, event) {
            SessionAction::Ignore => {}
            _ => panic!("expected a closed session to react to nothing"),
        }
    }
}

#[test]
fn closing_one_session_leaves_others_open() {
    let mut cell = StatusCell::new(String::from("s"));
    let mut left = Session::new(&cell);
    let mut right = Session::new(&cell);
    match left.step(&cell, SessionEvent::Inbound(Frame::Close)) {
        SessionAction::Shutdown => {}
        _ => panic!("expected a shutdown"),
    }
    assert!(!left.is_open());
    assert!(right.is_open());
    cell.write(String::from("s1"));
    match right.step(&cell, SessionEvent::StatusChanged) {
        SessionAction::PushStatus(v) => assert_eq!(v, "s1"),
        _ => panic!("expected the other session to keep receiving pushes"),
    }
}

#[test]
fn stream_end_shuts_down() {
    let cell = StatusCell::new(String::from("s"));
    let mut session = Session::new(&cell);
    match session.step(&cell, SessionEvent::StreamEnded) {
        SessionAction::Shutdown => {}
        _ => panic!("expected a shutdown"),
    }
    assert!(!session.is_open());
}

#[test]
fn driver_constructs() {
    let _driver: Driver = Driver::new();
}
