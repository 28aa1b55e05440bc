use vstd::prelude::*;
use vstd::string::StringSliceAdditionalSpecFns;
use crate::http::{
    classify, has_prefix, lemma_root_prefix_routes_root, page_of, read_window, response,
    response_of, route_of, status_line, status_line_of, Route, NOT_FOUND_PAGE,
    NOT_FOUND_STATUS_LINE, OK_STATUS_LINE, READ_LIMIT, ROOT_REQUEST_LINE, SUCCESS_PAGE,
};

verus! {

/// Where the server stands in the life of one connection. Connections are
/// served one at a time: a new one is accepted only in `Listening`.
#[derive(Clone, Copy, Debug, PartialEq, Eq, Structural)]
pub enum Phase {
    /// No connection is open; the next one may be accepted.
    Listening,
    /// A connection is open and its request is being read.
    Reading,
    /// The request was classified; the page of this route is being loaded.
    Loading(Route),
    /// The response is being written and flushed.
    Writing,
}

/// Why a connection was closed without its response.
#[derive(Clone, Copy, Debug, PartialEq, Eq, Structural)]
pub enum ConnectionError {
    /// The read failed, or the client sent nothing before closing.
    ReadError,
    /// The page could not be loaded (missing, unreadable, or too large to send).
    FileReadError,
    /// Writing or flushing the response failed.
    WriteError,
}

/// What happened outside since the last step.
#[derive(Debug)]
pub enum Event {
    /// A client connected.
    Accepted,
    /// One read of at most `READ_LIMIT` bytes returned these bytes.
    Received(Vec<u8>),
    /// The read failed.
    ReadFailed,
    /// The requested page was loaded whole.
    Loaded(Vec<u8>),
    /// The requested page could not be loaded.
    LoadFailed,
    /// The response was written and flushed.
    Sent,
    /// Writing or flushing the response failed.
    SendFailed,
}

/// What the server does next.
#[derive(Debug)]
pub enum Action {
    /// Read once from the connection, at most this many bytes.
    Read(usize),
    /// Load the page of this route.
    Load(Route),
    /// Write these bytes to the connection and flush it.
    Send(Vec<u8>),
    /// Close the connection after a response was sent, then accept the next.
    Close,
    /// Close the connection without a (complete) response, then accept the
    /// next. A failure is fatal to its connection only: the server goes on
    /// serving the connections that follow.
    Abandon(ConnectionError),
}

/// The events that can follow each phase.
pub open spec fn expects_spec(phase: Phase, event: Event) -> bool {
    match phase {
        Phase::Listening => event is Accepted,
        Phase::Reading => event is Received || event is ReadFailed,
        Phase::Loading(_) => event is Loaded || event is LoadFailed,
        Phase::Writing => event is Sent || event is SendFailed,
    }
}

/// A page small enough that its response fits in memory.
pub open spec fn fits(route: Route, body: Seq<u8>) -> bool {
    status_line_of(route).len() + body.len() <= usize::MAX
}

/// The phase after `event` in `phase`.
pub open spec fn next_phase(phase: Phase, event: Event) -> Phase {
    match event {
        Event::Accepted => Phase::Reading,
        Event::Received(data) => if data@.len() == 0 {
            Phase::Listening
        } else {
            Phase::Loading(route_of(data@))
        },
        Event::Loaded(body) => match phase {
            Phase::Loading(route) => if fits(route, body@) {
                Phase::Writing
            } else {
                Phase::Listening
            },
            _ => Phase::Listening,
        },
        _ => Phase::Listening,
    }
}

/// The action that answers `event` in `phase`.
pub open spec fn is_next_action(phase: Phase, event: Event, action: Action) -> bool {
    match event {
        Event::Accepted => action == Action::Read(READ_LIMIT),
        Event::Received(data) => if data@.len() == 0 {
            action == Action::Abandon(ConnectionError::ReadError)
        } else {
            action == Action::Load(route_of(data@))
        },
        Event::ReadFailed => action == Action::Abandon(ConnectionError::ReadError),
        Event::Loaded(body) => match phase {
            Phase::Loading(route) => if fits(route, body@) {
                action matches Action::Send(bytes) && bytes@ == response_of(route, body@)
            } else {
                action == Action::Abandon(ConnectionError::FileReadError)
            },
            _ => false,
        },
        Event::LoadFailed => action == Action::Abandon(ConnectionError::FileReadError),
        Event::Sent => action == Action::Close,
        Event::SendFailed => action == Action::Abandon(ConnectionError::WriteError),
    }
}

/// The decisions of a server that handles one connection at a time.
pub struct Server {
    pub phase: Phase,
}

impl Server {
    /// A server with no open connection.
    pub fn new() -> (r: Server)
        ensures
            r.phase == Phase::Listening,
    {
        Server { phase: Phase::Listening }
    }

    /// No connection is open, so the next one may be accepted.
    pub fn awaits_connection(&self) -> (r: bool)
        ensures
            r == (self.phase == Phase::Listening),
    {
        self.phase == Phase::Listening
    }

    /// Tells whether `event` can follow the current phase.
    pub fn expects(&self, event: &Event) -> (r: bool)
        ensures
            r == expects_spec(self.phase, *event),
    {
        match self.phase {
            Phase::Listening => matches!(event, Event::Accepted),
            Phase::Reading => matches!(event, Event::Received(_) | Event::ReadFailed),
            Phase::Loading(_) => matches!(event, Event::Loaded(_) | Event::LoadFailed),
            Phase::Writing => matches!(event, Event::Sent | Event::SendFailed),
        }
    }

    /// Takes in what happened and decides what to do next.
    pub fn step(&mut self, event: Event) -> (action: Action)
        requires
            expects_spec(old(self).phase, event),
        ensures
            final(self).phase == next_phase(old(self).phase, event),
            is_next_action(old(self).phase, event, action),
    {
        match event {
            Event::Accepted => {
                self.phase = Phase::Reading;
                Action::Read(READ_LIMIT)
            },
            Event::Received(data) => {
                if data.len() == 0 {
                    self.phase = Phase::Listening;
                    Action::Abandon(ConnectionError::ReadError)
                } else {
                    let route = classify(data.as_slice());
                    self.phase = Phase::Loading(route);
                    Action::Load(route)
                }
            },
            Event::ReadFailed => {
                self.phase = Phase::Listening;
                Action::Abandon(ConnectionError::ReadError)
            },
            Event::Loaded(body) => {
                let route = match self.phase {
                    Phase::Loading(route) => route,
                    _ => Route::NotFound,
                };
                if body.len() <= usize::MAX - status_line(route).as_bytes().len() {
                    self.phase = Phase::Writing;
                    Action::Send(response(route, body.as_slice()))
                } else {
                    self.phase = Phase::Listening;
                    Action::Abandon(ConnectionError::FileReadError)
                }
            },
            Event::LoadFailed => {
                self.phase = Phase::Listening;
                Action::Abandon(ConnectionError::FileReadError)
            },
            Event::Sent => {
                self.phase = Phase::Listening;
                Action::Close
            },
            Event::SendFailed => {
                self.phase = Phase::Listening;
                Action::Abandon(ConnectionError::WriteError)
            },
        }
    }
}

/// A request that begins with the root request line is answered from the
/// success page: the server loads that page, and once it is loaded sends the
/// 200 status line followed by the page's bytes, unchanged.
pub proof fn law_root_request_gets_success_page(request: Vec<u8>, body: Vec<u8>)
    requires
        has_prefix(request@, ROOT_REQUEST_LINE.spec_bytes()),
        fits(Route::Root, body@),
    ensures
        next_phase(Phase::Reading, Event::Received(request)) == Phase::Loading(Route::Root),
        is_next_action(Phase::Reading, Event::Received(request), Action::Load(Route::Root)),
        page_of(Route::Root) == SUCCESS_PAGE@,
        next_phase(Phase::Loading(Route::Root), Event::Loaded(body)) == Phase::Writing,
        forall|a: Action|
            is_next_action(Phase::Loading(Route::Root), Event::Loaded(body), a) <==> (
            a matches Action::Send(bytes) && bytes@ == OK_STATUS_LINE.spec_bytes() + body@),
{
    lemma_root_prefix_routes_root(request@);
    crate::http::lemma_root_line_fits();
}

/// A request whose bytes that are read do not begin with the root request line
/// is answered from the not-found page, with the 404 status line followed by
/// the page's bytes. (A request with no bytes at all gets no response: see
/// `law_each_connection_ends_before_next`.)
pub proof fn law_other_request_gets_not_found_page(request: Vec<u8>, body: Vec<u8>)
    requires
        request@.len() > 0,
        !has_prefix(read_window(request@), ROOT_REQUEST_LINE.spec_bytes()),
        fits(Route::NotFound, body@),
    ensures
        next_phase(Phase::Reading, Event::Received(request)) == Phase::Loading(Route::NotFound),
        is_next_action(Phase::Reading, Event::Received(request), Action::Load(Route::NotFound)),
        page_of(Route::NotFound) == NOT_FOUND_PAGE@,
        next_phase(Phase::Loading(Route::NotFound), Event::Loaded(body)) == Phase::Writing,
        forall|a: Action|
            is_next_action(Phase::Loading(Route::NotFound), Event::Loaded(body), a) <==> (
            a matches Action::Send(bytes) && bytes@ == NOT_FOUND_STATUS_LINE.spec_bytes()
                + body@),
{
}

/// Connections are served one at a time: a connection is accepted only when
/// no other is open, every action that ends a connection leaves the server
/// ready for the next one, and every step that leaves it ready ends the
/// connection that was open.
pub proof fn law_each_connection_ends_before_next(phase: Phase, event: Event, action: Action)
    requires
        expects_spec(phase, event),
        is_next_action(phase, event, action),
    ensures
        event is Accepted <==> phase == Phase::Listening,
        phase == Phase::Listening ==> next_phase(phase, event) == Phase::Reading,
        (action is Close || action is Abandon) <==> next_phase(phase, event) == Phase::Listening,
{
}

} // verus!
