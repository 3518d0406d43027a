//! One subscriber connection: read the request head, answer it, then relay
//! one event frame per notification until the peer goes away.
use vstd::prelude::*;

verus! {

/// What the request head parser found in the bytes read so far: `None` when
/// the bytes are not a valid request, otherwise the method and path once
/// each of them is complete.
pub type RequestHead = Option<(Option<String>, Option<String>)>;

/// The request head parser's result, on the bytes it was given.
pub uninterp spec fn parsed_head(buf: Seq<u8>) -> Option<(Option<Seq<char>>, Option<Seq<char>>)>;

pub open spec fn head_view(h: RequestHead) -> Option<(Option<Seq<char>>, Option<Seq<char>>)> {
    match h {
        None => None,
        Some((m, p)) => Some((opt_view(m), opt_view(p))),
    }
}

pub open spec fn opt_view(s: Option<String>) -> Option<Seq<char>> {
    match s {
        None => None,
        Some(s) => Some(s@),
    }
}

/// Relies on `httparse::Request::parse` with sixteen header slots, which
/// fills in the method and the path as soon as each is complete, even when the
/// rest of the head has not arrived, and fails on bytes that cannot start a
/// request.
#[verifier::external_body]
fn parse_request_head(buf: &[u8]) -> (r: RequestHead)
    ensures
        head_view(r) == parsed_head(buf@),
{
    let mut headers = [httparse::EMPTY_HEADER; 16];
    let mut req = httparse::Request::new(&mut headers);
    match req.parse(buf) {
        Ok(_) => Some((req.method.map(String::from), req.path.map(String::from))),
        Err(_) => None,
    }
}

/// Where a session stands.
#[derive(Clone, Copy, Debug, PartialEq, Eq, Structural)]
pub enum SessionState {
    ReadingHandshake,
    Streaming,
    Closed,
}

/// What to do after a read during the handshake.
#[derive(Clone, Copy, Debug, PartialEq, Eq, Structural)]
pub enum Handshake {
    /// The method or the path is not complete yet: read again.
    NeedMore,
    /// Close without writing anything.
    Close,
    /// Write the "405 Method Not Allowed" reply, then close.
    MethodNotAllowed,
    /// Write the "404 Not Found" reply, then close.
    NotFound,
    /// Write the streaming preamble and go on relaying events.
    Stream,
}

/// What a non-blocking read on a streaming connection gave.
#[derive(Clone, Copy, Debug, PartialEq, Eq, Structural)]
pub enum Probe {
    /// Zero bytes: the peer closed the connection.
    PeerClosed,
    /// Some bytes were read.
    Data,
    /// Nothing to read yet.
    WouldBlock,
    /// Any other read error.
    Failed,
}

/// What to do on a notification while streaming.
#[derive(Clone, Copy, Debug, PartialEq, Eq, Structural)]
pub enum StreamStep {
    /// The connection is gone: end the session without writing.
    Close,
    /// Write one event frame.
    SendFrame,
}

/// The path that serves the event stream.
pub open spec fn event_path() -> Seq<char> {
    "/events"@
}

/// How a request head is answered.
pub open spec fn route(head: Option<(Option<Seq<char>>, Option<Seq<char>>)>) -> Handshake {
    match head {
        None => Handshake::Close,
        Some((Some(m), Some(p))) => if m != "GET"@ {
            Handshake::MethodNotAllowed
        } else if p != event_path() {
            Handshake::NotFound
        } else {
            Handshake::Stream
        },
        Some(_) => Handshake::NeedMore,
    }
}

/// The state that a handshake outcome leads to.
pub open spec fn state_after(h: Handshake) -> SessionState {
    match h {
        Handshake::NeedMore => SessionState::ReadingHandshake,
        Handshake::Stream => SessionState::Streaming,
        _ => SessionState::Closed,
    }
}

/// What is written for a handshake outcome.
pub open spec fn reply_text(h: Handshake) -> Seq<char> {
    match h {
        Handshake::MethodNotAllowed => "HTTP/1.1 405 Method Not Allowed\r\n\r\n"@,
        Handshake::NotFound => "HTTP/1.1 404 Not Found\r\n\r\n"@,
        Handshake::Stream => "HTTP/1.1 200 OK\r\nAccess-Control-Allow-Origin: *\r\nCache-Control: no-cache\r\nConnection: keep-alive\r\nContent-Type: text/event-stream\r\n\r\n"@,
        _ => Seq::empty(),
    }
}

/// One event frame for the given event name.
pub open spec fn frame_text(name: Seq<char>) -> Seq<char> {
    "event: "@ + name + "\r\ndata\r\n\r\n"@
}

/// Decides how a request head is answered.
pub fn route_head(head: &RequestHead) -> (r: Handshake)
    ensures
        r == route(head_view(*head)),
{
    match head {
        None => Handshake::Close,
        Some((Some(m), Some(p))) => {
            if *m != String::from_str("GET") {
                Handshake::MethodNotAllowed
            } else if *p != String::from_str("/events") {
                Handshake::NotFound
            } else {
                Handshake::Stream
            }
        },
        Some(_) => Handshake::NeedMore,
    }
}

/// The bytes written for a handshake outcome, as text: empty where nothing is
/// written.
pub fn reply(h: Handshake) -> (r: String)
    ensures
        r@ == reply_text(h),
{
    match h {
        Handshake::MethodNotAllowed => String::from_str("HTTP/1.1 405 Method Not Allowed\r\n\r\n"),
        Handshake::NotFound => String::from_str("HTTP/1.1 404 Not Found\r\n\r\n"),
        Handshake::Stream => String::from_str(
            "HTTP/1.1 200 OK\r\nAccess-Control-Allow-Origin: *\r\nCache-Control: no-cache\r\nConnection: keep-alive\r\nContent-Type: text/event-stream\r\n\r\n",
        ),
        _ => String::new(),
    }
}

/// One event frame: an `event:` line with the name, an empty `data` line and
/// a blank line.
pub fn event_frame(name: &String) -> (r: String)
    ensures
        r@ == frame_text(name@),
{
    let s = String::from_str("event: ");
    let s = s.concat(name.as_str());
    s.concat("\r\ndata\r\n\r\n")
}

/// The state of one subscriber connection.
pub struct Session {
    state: SessionState,
    event_name: String,
    buffer: Vec<u8>,
}

impl Session {
    pub closed spec fn spec_state(&self) -> SessionState {
        self.state
    }

    pub closed spec fn spec_event_name(&self) -> Seq<char> {
        self.event_name@
    }

    /// The request bytes read so far.
    pub closed spec fn spec_buffer(&self) -> Seq<u8> {
        self.buffer@
    }

    /// A session that has read nothing yet.
    pub fn new(event_name: String) -> (s: Session)
        ensures
            s.spec_state() == SessionState::ReadingHandshake,
            s.spec_event_name() == event_name@,
            s.spec_buffer() == Seq::<u8>::empty(),
    {
        Session { state: SessionState::ReadingHandshake, event_name, buffer: Vec::new() }
    }

    pub fn state(&self) -> (r: SessionState)
        ensures
            r == self.spec_state(),
    {
        self.state
    }

    pub fn event_name(&self) -> (r: &String)
        ensures
            r@ == self.spec_event_name(),
    {
        &self.event_name
    }

    /// Takes the parser's result on the bytes read so far and moves on.
    pub fn on_head(&mut self, head: &RequestHead) -> (r: Handshake)
        requires
            old(self).spec_state() == SessionState::ReadingHandshake,
        ensures
            r == route(head_view(*head)),
            final(self).spec_state() == state_after(r),
            final(self).spec_event_name() == old(self).spec_event_name(),
            final(self).spec_buffer() == old(self).spec_buffer(),
    {
        let r = route_head(head);
        self.state = match r {
            Handshake::NeedMore => SessionState::ReadingHandshake,
            Handshake::Stream => SessionState::Streaming,
            _ => SessionState::Closed,
        };
        r
    }

    /// Takes the bytes of one read during the handshake. Zero bytes mean
    /// that the peer closed the connection.
    pub fn on_read(&mut self, data: &[u8]) -> (r: Handshake)
        requires
            old(self).spec_state() == SessionState::ReadingHandshake,
        ensures
            data@.len() == 0 ==> r == Handshake::Close && final(self).spec_buffer()
                == old(self).spec_buffer(),
            data@.len() > 0 ==> final(self).spec_buffer() == old(self).spec_buffer() + data@ && r
                == route(parsed_head(final(self).spec_buffer())),
            final(self).spec_state() == state_after(r),
            final(self).spec_event_name() == old(self).spec_event_name(),
    {
        if data.len() == 0 {
            self.state = SessionState::Closed;
            return Handshake::Close;
        }
        let ghost before = self.buffer@;
        let mut i: usize = 0;
        while i < data.len()
            invariant
                0 <= i <= data@.len(),
                self.buffer@ == before + data@.subrange(0, i as int),
                self.state == SessionState::ReadingHandshake,
                self.event_name@ == old(self).event_name@,
            decreases data@.len() - i,
        {
            self.buffer.push(data[i]);
            i = i + 1;
            proof {
                assert(data@.subrange(0, i as int) == data@.subrange(0, i - 1) + seq![data@[i - 1]]);
            }
        }
        proof {
            assert(data@.subrange(0, data@.len() as int) == data@);
        }
        let head = parse_request_head(self.buffer.as_slice());
        self.on_head(&head)
    }

    /// A read during the handshake failed.
    pub fn on_read_failed(&mut self)
        ensures
            final(self).spec_state() == SessionState::Closed,
            final(self).spec_event_name() == old(self).spec_event_name(),
    {
        self.state = SessionState::Closed;
    }

    /// Writing the preamble failed: the session ends.
    pub fn on_write_failed(&mut self)
        ensures
            final(self).spec_state() == SessionState::Closed,
            final(self).spec_event_name() == old(self).spec_event_name(),
    {
        self.state = SessionState::Closed;
    }

    /// Takes the outcome of the probe read made on each notification.
    pub fn on_notify(&mut self, probe: Probe) -> (r: StreamStep)
        requires
            old(self).spec_state() == SessionState::Streaming,
        ensures
            r == (if probe == Probe::PeerClosed || probe == Probe::Failed {
                StreamStep::Close
            } else {
                StreamStep::SendFrame
            }),
            final(self).spec_state() == (if r == StreamStep::Close {
                SessionState::Closed
            } else {
                SessionState::Streaming
            }),
            final(self).spec_event_name() == old(self).spec_event_name(),
    {
        match probe {
            Probe::PeerClosed | Probe::Failed => {
                self.state = SessionState::Closed;
                StreamStep::Close
            },
            Probe::Data | Probe::WouldBlock => StreamStep::SendFrame,
        }
    }

    /// The frame written on each notification.
    pub fn frame(&self) -> (r: String)
        ensures
            r@ == frame_text(self.spec_event_name()),
    {
        event_frame(&self.event_name)
    }
}

} // verus!
