use watchexec_sse::session::{
    event_frame, reply, route_head, Handshake, Probe, Session, SessionState, StreamStep,
};

const PREAMBLE: &str = "HTTP/1.1 200 OK\r\nAccess-Control-Allow-Origin: *\r\nCache-Control: no-cache\r\nConnection: keep-alive\r\nContent-Type: text/event-stream\r\n\r\n";

fn handshake(request: &[u8]) -> (Session, Handshake) {
    let mut s = Session::new(String::from("update"));
    let h = s.on_read(request);
    (s, h)
}

#[test]
fn get_events_starts_streaming() {
    let (s, h) = handshake(b"GET /events HTTP/1.1\r\nHost: x\r\n\r\n");
    assert_eq!(h, Handshake::Stream);
    assert_eq!(s.state(), SessionState::Streaming);
    assert_eq!(reply(h), PREAMBLE);
}

#[test]
fn post_is_method_not_allowed() {
    let (s, h) = handshake(b"POST /events HTTP/1.1\r\nHost: x\r\n\r\n");
    assert_eq!(h, Handshake::MethodNotAllowed);
    assert_eq!(s.state(), SessionState::Closed);
    assert_eq!(reply(h), "HTTP/1.1 405 Method Not Allowed\r\n\r\n");
}

#[test]
fn other_path_is_not_found() {
    let (s, h) = handshake(b"GET /other HTTP/1.1\r\nHost: x\r\n\r\n");
    assert_eq!(h, Handshake::NotFound);
    assert_eq!(s.state(), SessionState::Closed);
    assert_eq!(reply(h), "HTTP/1.1 404 Not Found\r\n\r\n");
}

#[test]
fn request_line_split_over_reads() {
    let mut s = Session::new(String::from("update"));
    assert_eq!(s.on_read(b"GET /ev"), Handshake::NeedMore);
    assert_eq!(s.state(), SessionState::ReadingHandshake);
    assert_eq!(s.on_read(b"ents HTTP/1.1\r\n"), Handshake::Stream);
    assert_eq!(s.state(), SessionState::Streaming);
}

#[test]
fn routed_before_headers_complete() {
    let (s, h) = handshake(b"GET /events HTTP/1.1\r\nHost: x\r\n");
    assert_eq!(h, Handshake::Stream);
    assert_eq!(s.state(), SessionState::Streaming);
}

#[test]
fn zero_byte_read_closes_without_reply() {
    let (s, h) = handshake(b"");
    assert_eq!(h, Handshake::Close);
    assert_eq!(s.state(), SessionState::Closed);
    assert_eq!(reply(h), "");
}

#[test]
fn garbage_request_closes() {
    let (s, h) = handshake(b"\x01\x02 nonsense\r\n\r\n");
    assert_eq!(h, Handshake::Close);
    assert_eq!(s.state(), SessionState::Closed);
}

#[test]
fn read_error_closes() {
    let mut s = Session::new(String::from("update"));
    s.on_read_failed();
    assert_eq!(s.state(), SessionState::Closed);
}

#[test]
fn route_of_parsed_heads() {
    let get = Some((Some(String::from("GET")), Some(String::from("/events"))));
    assert_eq!(route_head(&get), Handshake::Stream);
    let head = Some((Some(String::from("HEAD")), Some(String::from("/other"))));
    assert_eq!(route_head(&head), Handshake::MethodNotAllowed);
    let partial = Some((Some(String::from("GET")), None));
    assert_eq!(route_head(&partial), Handshake::NeedMore);
    assert_eq!(route_head(&None), Handshake::Close);
}

#[test]
fn frame_format() {
    assert_eq!(event_frame(&String::from("reload")), "event: reload\r\ndata\r\n\r\n");
    assert_eq!(event_frame(&String::new()), "event: \r\ndata\r\n\r\n");
}

#[test]
fn three_updates_three_identical_frames() {
    let (mut s, h) = handshake(b"GET /events HTTP/1.1\r\nHost: x\r\n\r\n");
    assert_eq!(h, Handshake::Stream);
    let mut written = String::new();
    for _ in 0..3 {
        assert_eq!(s.on_notify(Probe::WouldBlock), StreamStep::SendFrame);
        written.push_str(&s.frame());
    }
    assert_eq!(written, "event: update\r\ndata\r\n\r\n".repeat(3));
    assert_eq!(s.state(), SessionState::Streaming);
}

#[test]
fn probe_outcomes() {
    let mut s = handshake(b"GET /events HTTP/1.1\r\n\r\n").0;
    assert_eq!(s.on_notify(Probe::Data), StreamStep::SendFrame);
    assert_eq!(s.state(), SessionState::Streaming);
    assert_eq!(s.on_notify(Probe::Failed), StreamStep::Close);
    assert_eq!(s.state(), SessionState::Closed);
    let mut t = handshake(b"GET /events HTTP/1.1\r\n\r\n").0;
    assert_eq!(t.on_notify(Probe::PeerClosed), StreamStep::Close);
    assert_eq!(t.state(), SessionState::Closed);
}

#[test]
fn preamble_write_failure_closes() {
    let mut s = handshake(b"GET /events HTTP/1.1\r\n\r\n").0;
    s.on_write_failed();
    assert_eq!(s.state(), SessionState::Closed);
    assert_eq!(s.event_name(), "update");
}
