//! The reference leaf future: an HTTP GET that is driven by readiness.
//!
//! The future is kept here as a state machine without a socket. Whoever owns
//! the socket tells the machine what happened and does what the machine
//! answers.

use crate::epoll::EPOLLIN;
use crate::future::PollState;
use crate::runtime::executor::Waker;
use crate::runtime::reactor::Reactor;
use vstd::prelude::*;
use vstd::string::StringExecFns;

verus! {

/// The text that [`get_req`] returns for `path`.
pub open spec fn request_text(path: Seq<char>) -> Seq<char> {
    "GET "@ + path + " HTTP/1.1\r\nHost: localhost\r\nConnection: close\r\n\r\n"@
}

/// The request that is written for `path`: a request line, the two header
/// lines, and the empty line that ends the head.
pub fn get_req(path: &str) -> (request: String)
    ensures
        request@ == request_text(path@),
{
    let mut request = String::from_str("GET ");
    request.append(path);
    request.append(" HTTP/1.1\r\nHost: localhost\r\nConnection: close\r\n\r\n");
    request
}

/// What the lossy decoding of std makes of `bytes`: the text that they
/// encode, with U+FFFD in place of whatever is not UTF-8.
pub uninterp spec fn utf8_lossy(bytes: Seq<u8>) -> Seq<char>;

/// Calls `String::from_utf8_lossy` of std and takes the result as an owned
/// string. Trusted: the text is the one named [`utf8_lossy`], and bytes that
/// are valid UTF-8 decode to exactly the text they encode.
#[verifier::external_body]
fn decode_lossy(bytes: &Vec<u8>) -> (text: String)
    ensures
        text@ == utf8_lossy(bytes@),
        vstd::utf8::valid_utf8(bytes@) ==> text@ == vstd::utf8::decode_utf8(bytes@),
{
    String::from_utf8_lossy(bytes).into_owned()
}

/// Where an HTTP GET stands.
#[derive(Clone, Copy, Debug, PartialEq, Eq, Structural)]
pub enum Phase {
    /// Not polled yet: no connection is open.
    Unstarted,
    /// The request is written and the socket is watched for readability.
    AwaitingReadable,
    /// The response has been handed out. The future must not be polled again.
    Resolved,
}

/// What the owner of the socket reports to the machine.
#[derive(Debug)]
pub enum IoEvent {
    /// The executor polls the future.
    Polled,
    /// A read returned these bytes. None at all means that the peer has
    /// closed the connection.
    Read(Vec<u8>),
    /// A read would have blocked.
    WouldBlock,
    /// A read failed in any other way.
    Failed,
}

/// What the owner of the socket is to do next.
#[derive(Debug)]
pub enum Action {
    /// Open a non-blocking connection, write `request`, have the socket
    /// watched for `interest` under `token`, and return `NotReady`.
    Open { request: String, token: usize, interest: i32 },
    /// Read from the socket and report the outcome.
    Read,
    /// Return `NotReady`: the waker is installed again.
    Suspend,
    /// Remove the watch of the socket and return `Ready` with this text.
    Complete(String),
    /// Give up: the read failed, or the future was polled out of turn.
    Abort,
}

impl Action {
    /// What `poll` returns to the executor on this action, if it returns.
    pub fn poll_state(self) -> (state: Option<PollState<String>>)
        ensures
            state == match self {
                Action::Open { .. } => Some(PollState::<String>::NotReady),
                Action::Suspend => Some(PollState::<String>::NotReady),
                Action::Complete(text) => Some(PollState::Ready(text)),
                Action::Read => None,
                Action::Abort => None,
            },
    {
        match self {
            Action::Open { .. } => Some(PollState::NotReady),
            Action::Suspend => Some(PollState::NotReady),
            Action::Complete(text) => Some(PollState::Ready(text)),
            Action::Read => None,
            Action::Abort => None,
        }
    }
}

/// The mathematical state of an HTTP GET.
pub struct HttpGetState {
    pub phase: Phase,
    /// The bytes of the response that have arrived.
    pub buffer: Seq<u8>,
    pub path: Seq<char>,
    /// The registration id of the operation at the reactor.
    pub id: usize,
}

/// An HTTP GET for one path, resumed across polls by what it keeps here.
pub struct HttpGetFuture {
    phase: Phase,
    buffer: Vec<u8>,
    path: String,
    id: usize,
}

impl View for HttpGetFuture {
    type V = HttpGetState;

    closed spec fn view(&self) -> HttpGetState {
        HttpGetState { phase: self.phase, buffer: self.buffer@, path: self.path@, id: self.id }
    }
}

impl HttpGetFuture {
    /// A GET for `path` that has not started. It takes its registration id
    /// from `reactor`.
    pub fn new(path: &str, reactor: &mut Reactor) -> (future: Self)
        requires
            old(reactor)@.next_id < usize::MAX,
        ensures
            future@ == (HttpGetState {
                phase: Phase::Unstarted,
                buffer: Seq::empty(),
                path: path@,
                id: old(reactor)@.next_id,
            }),
            final(reactor)@ == old(reactor)@.advanced(),
    {
        let id = reactor.next_id();
        HttpGetFuture {
            phase: Phase::Unstarted,
            buffer: Vec::new(),
            path: String::from_str(path),
            id,
        }
    }

    /// The registration id of this operation.
    pub fn id(&self) -> (id: usize)
        ensures
            id == self@.id,
    {
        self.id
    }

    /// Where the operation stands.
    pub fn phase(&self) -> (phase: Phase)
        ensures
            phase == self@.phase,
    {
        self.phase
    }

    /// Starts the operation: returns the request that is to be written to a
    /// fresh connection, and counts the socket as open from now on.
    pub fn write_request(&mut self) -> (request: String)
        ensures
            request@ == request_text(old(self)@.path),
            final(self)@ == (HttpGetState { phase: Phase::AwaitingReadable, ..old(self)@ }),
    {
        self.phase = Phase::AwaitingReadable;
        get_req(self.path.as_str())
    }

    /// One transition of the operation.
    ///
    /// The first poll starts it: the request goes out, the socket is to be
    /// watched for readability under the operation's id, the waker is
    /// installed, and the poll ends with `NotReady`. A later poll reads for
    /// as long as bytes arrive and appends them. A read of no bytes means
    /// that the peer has closed: the operation is deregistered and resolves
    /// to the text of what has arrived. A read that would block installs the
    /// waker again and ends the poll with `NotReady`. Any other failure of a
    /// read is fatal, and so is an event that is out of turn: a report of a
    /// read before the first poll, or anything at all after the operation
    /// has resolved.
    pub fn poll(&mut self, event: IoEvent, waker: &Waker, reactor: &mut Reactor) -> (action: Action)
        ensures
            match (old(self)@.phase, event) {
                (Phase::Unstarted, IoEvent::Polled) => {
                    &&& action matches Action::Open { request, token, interest }
                    &&& request@ == request_text(old(self)@.path)
                    &&& token == old(self)@.id
                    &&& interest == EPOLLIN
                    &&& final(self)@ == (HttpGetState {
                        phase: Phase::AwaitingReadable,
                        ..old(self)@
                    })
                    &&& final(reactor)@ == old(reactor)@.with_waker(old(self)@.id, *waker)
                },
                (Phase::AwaitingReadable, IoEvent::Polled) => {
                    &&& action is Read
                    &&& final(self)@ == old(self)@
                    &&& final(reactor)@ == old(reactor)@
                },
                (Phase::AwaitingReadable, IoEvent::Read(bytes)) => if bytes@.len() > 0 {
                    &&& action is Read
                    &&& final(self)@ == (HttpGetState {
                        buffer: old(self)@.buffer + bytes@,
                        ..old(self)@
                    })
                    &&& final(reactor)@ == old(reactor)@
                } else {
                    &&& action matches Action::Complete(text)
                    &&& text@ == utf8_lossy(old(self)@.buffer)
                    &&& vstd::utf8::valid_utf8(old(self)@.buffer) ==> text@
                        == vstd::utf8::decode_utf8(old(self)@.buffer)
                    &&& final(self)@ == (HttpGetState { phase: Phase::Resolved, ..old(self)@ })
                    &&& final(reactor)@ == old(reactor)@.without(old(self)@.id)
                },
                (Phase::AwaitingReadable, IoEvent::WouldBlock) => {
                    &&& action is Suspend
                    &&& final(self)@ == old(self)@
                    &&& final(reactor)@ == old(reactor)@.with_waker(old(self)@.id, *waker)
                },
                _ => {
                    &&& action is Abort
                    &&& final(self)@ == old(self)@
                    &&& final(reactor)@ == old(reactor)@
                },
            },
    {
        match self.phase {
            Phase::Unstarted => match event {
                IoEvent::Polled => {
                    let request = self.write_request();
                    reactor.set_waker(waker, self.id);
                    Action::Open { request, token: self.id, interest: EPOLLIN }
                },
                _ => Action::Abort,
            },
            Phase::AwaitingReadable => match event {
                IoEvent::Polled => Action::Read,
                IoEvent::Read(bytes) => {
                    if bytes.len() > 0 {
                        let mut bytes = bytes;
                        self.buffer.append(&mut bytes);
                        Action::Read
                    } else {
                        let text = decode_lossy(&self.buffer);
                        reactor.deregister(self.id);
                        self.phase = Phase::Resolved;
                        Action::Complete(text)
                    }
                },
                IoEvent::WouldBlock => {
                    reactor.set_waker(waker, self.id);
                    Action::Suspend
                },
                IoEvent::Failed => Action::Abort,
            },
            Phase::Resolved => Action::Abort,
        }
    }
}

/// The entry to the HTTP client.
pub struct Http;

impl Http {
    /// A future that gets `path` from the server and resolves to the text of
    /// the response.
    pub fn get(path: &str, reactor: &mut Reactor) -> (future: HttpGetFuture)
        requires
            old(reactor)@.next_id < usize::MAX,
        ensures
            future@ == (HttpGetState {
                phase: Phase::Unstarted,
                buffer: Seq::empty(),
                path: path@,
                id: old(reactor)@.next_id,
            }),
            final(reactor)@ == old(reactor)@.advanced(),
    {
        HttpGetFuture::new(path, reactor)
    }
}

} // verus!
