use place_canvas::applier::commit;
use place_canvas::canvas::Canvas;
use place_canvas::hub::Hub;
use place_canvas::point::{Color, Point};
use place_canvas::session::{
    Frame, Session, SessionAction, SessionEvent, SessionState, KEEPALIVE_SECONDS,
};

#[test]
fn a_session_starts_active() {
    let session = Session::open(7);
    assert_eq!(session.state(), SessionState::Active);
    assert_eq!(session.subscription(), 7);
}

#[test]
fn the_keepalive_interval_is_thirty_seconds() {
    assert_eq!(KEEPALIVE_SECONDS, 30);
}

#[test]
fn a_binary_frame_of_eleven_bytes_is_submitted() {
    let mut session = Session::open(0);
    let frame = Frame::Binary(vec![0, 0, 0, 1, 0, 0, 0, 2, 10, 20, 30]);
    let action = session.handle(SessionEvent::Received(frame));
    assert_eq!(action, SessionAction::Submit(Point::new(1, 2, 10, 20, 30)));
    assert_eq!(session.state(), SessionState::Active);
}

#[test]
fn a_short_binary_frame_ends_the_session() {
    let mut session = Session::open(0);
    let frame = Frame::Binary(vec![0, 0, 0, 1, 0, 0, 0, 2, 10, 20]);
    assert_eq!(session.handle(SessionEvent::Received(frame)), SessionAction::Cancel);
    assert_eq!(session.state(), SessionState::Closing);
}

#[test]
fn an_empty_binary_frame_ends_the_session() {
    let mut session = Session::open(0);
    let action = session.handle(SessionEvent::Received(Frame::Binary(Vec::new())));
    assert_eq!(action, SessionAction::Cancel);
    assert_eq!(session.state(), SessionState::Closing);
}

#[test]
fn a_long_binary_frame_ends_the_session() {
    let mut session = Session::open(0);
    let frame = Frame::Binary(vec![0, 0, 0, 1, 0, 0, 0, 2, 10, 20, 30, 40]);
    assert_eq!(session.handle(SessionEvent::Received(frame)), SessionAction::Cancel);
    assert_eq!(session.state(), SessionState::Closing);
}

#[test]
fn a_ping_is_answered_with_its_payload() {
    let mut session = Session::open(0);
    let action = session.handle(SessionEvent::Received(Frame::Ping(vec![1, 2, 3])));
    assert_eq!(action, SessionAction::Enqueue(Frame::Pong(vec![1, 2, 3])));
    assert_eq!(session.state(), SessionState::Active);
}

#[test]
fn a_pong_is_taken_in_silence() {
    let mut session = Session::open(0);
    let action = session.handle(SessionEvent::Received(Frame::Pong(vec![1])));
    assert_eq!(action, SessionAction::Nothing);
    assert_eq!(session.state(), SessionState::Active);
}

#[test]
fn a_close_frame_ends_the_session() {
    let mut session = Session::open(0);
    assert_eq!(session.handle(SessionEvent::Received(Frame::Close)), SessionAction::Cancel);
    assert_eq!(session.state(), SessionState::Closing);
}

#[test]
fn a_text_frame_ends_the_session() {
    let mut session = Session::open(0);
    assert_eq!(session.handle(SessionEvent::Received(Frame::Text)), SessionAction::Cancel);
    assert_eq!(session.state(), SessionState::Closing);
}

#[test]
fn a_lost_transport_ends_the_session() {
    let mut session = Session::open(0);
    assert_eq!(session.handle(SessionEvent::Disconnected), SessionAction::Cancel);
    assert_eq!(session.state(), SessionState::Closing);
}

#[test]
fn a_published_write_is_enqueued_in_wire_form() {
    let mut session = Session::open(0);
    let action = session.handle(SessionEvent::Published(Point::new(1, 1, 255, 0, 0)));
    assert_eq!(
        action,
        SessionAction::Enqueue(Frame::Binary(vec![0, 0, 0, 1, 0, 0, 0, 1, 255, 0, 0]))
    );
    assert_eq!(session.state(), SessionState::Active);
}

#[test]
fn the_keepalive_enqueues_an_empty_ping() {
    let mut session = Session::open(0);
    let action = session.handle(SessionEvent::KeepaliveDue);
    assert_eq!(action, SessionAction::Enqueue(Frame::Ping(Vec::new())));
    assert_eq!(session.state(), SessionState::Active);
}

#[test]
fn a_refused_keepalive_ends_the_session() {
    let mut session = Session::open(0);
    assert_eq!(session.handle(SessionEvent::KeepaliveRefused), SessionAction::Cancel);
    assert_eq!(session.state(), SessionState::Closing);
}

#[test]
fn a_closing_session_does_no_more_work() {
    let events = [
        SessionEvent::Received(Frame::Binary(vec![0, 0, 0, 1, 0, 0, 0, 2, 10, 20, 30])),
        SessionEvent::Received(Frame::Ping(vec![1])),
        SessionEvent::Received(Frame::Close),
        SessionEvent::Disconnected,
        SessionEvent::Published(Point::new(0, 0, 0, 0, 0)),
        SessionEvent::KeepaliveDue,
        SessionEvent::KeepaliveRefused,
    ];
    let mut session = Session::open(3);
    assert_eq!(session.handle(SessionEvent::Received(Frame::Close)), SessionAction::Cancel);
    for event in events {
        assert_eq!(session.handle(event), SessionAction::Nothing);
        assert_eq!(session.state(), SessionState::Closing);
    }
}

#[test]
fn stopping_the_duties_closes_the_session_and_releases_once() {
    let mut session = Session::open(3);
    assert_eq!(session.handle(SessionEvent::Disconnected), SessionAction::Cancel);
    assert_eq!(session.handle(SessionEvent::Stopped), SessionAction::Release(3));
    assert_eq!(session.state(), SessionState::Closed);
    assert_eq!(session.handle(SessionEvent::Stopped), SessionAction::Nothing);
    assert_eq!(session.handle(SessionEvent::KeepaliveDue), SessionAction::Nothing);
    assert_eq!(
        session.handle(SessionEvent::Received(Frame::Ping(vec![1]))),
        SessionAction::Nothing
    );
    assert_eq!(session.state(), SessionState::Closed);
    assert_eq!(session.subscription(), 3);
}

#[test]
fn duties_stopped_from_outside_close_an_active_session() {
    let mut session = Session::open(5);
    assert_eq!(session.handle(SessionEvent::Stopped), SessionAction::Release(5));
    assert_eq!(session.state(), SessionState::Closed);
}

#[test]
fn a_write_reaches_the_other_session_as_its_eleven_bytes() {
    let mut canvas = Canvas::new(4, 4).unwrap();
    let mut hub = Hub::new();
    let mut writer = Session::open(hub.subscribe().unwrap());
    let mut watcher = Session::open(hub.subscribe().unwrap());

    let sent = Point::new(1, 1, 255, 0, 0).to_byte();
    let write = match writer.handle(SessionEvent::Received(Frame::Binary(sent.clone()))) {
        SessionAction::Submit(write) => write,
        other => panic!("expected a submitted write, got {:?}", other),
    };
    let recipients = commit(&mut canvas, &hub, &write);
    assert!(recipients.contains(&watcher.subscription()));
    assert_eq!(canvas.get(1, 1), Some(Color { r: 255, g: 0, b: 0 }));

    let relayed = watcher.handle(SessionEvent::Published(write));
    assert_eq!(relayed, SessionAction::Enqueue(Frame::Binary(sent.clone())));
    assert_eq!(sent, vec![0, 0, 0, 1, 0, 0, 0, 1, 255, 0, 0]);
}

#[test]
fn a_write_off_the_canvas_reaches_nobody() {
    let mut canvas = Canvas::new(4, 4).unwrap();
    let mut hub = Hub::new();
    let mut writer = Session::open(hub.subscribe().unwrap());
    let _watcher = Session::open(hub.subscribe().unwrap());
    let before = canvas.snapshot();

    let sent = Point::new(10, 0, 1, 2, 3).to_byte();
    let write = match writer.handle(SessionEvent::Received(Frame::Binary(sent))) {
        SessionAction::Submit(write) => write,
        other => panic!("expected a submitted write, got {:?}", other),
    };
    assert!(commit(&mut canvas, &hub, &write).is_empty());
    for x in 0..4 {
        for y in 0..4 {
            assert_eq!(canvas.get(x, y), before.get(x, y));
        }
    }
    assert_eq!(writer.state(), SessionState::Active);
}
