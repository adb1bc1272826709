use crate::error::Error;
use crate::query::{RequestView, ResolveRequest, ResolverQuery};
use crate::udp::{DgramSocket, Udp, UdpEndpoint};
use vstd::prelude::*;

verus! {

/// What came of trying one candidate.
#[derive(Clone, Copy, Debug, PartialEq, Eq, Structural)]
pub enum Attempt {
    /// No socket could be opened; the code says why.
    SocketFailed(i32),
    /// The socket was opened and the connect failed; the code says why.
    ConnectFailed(i32),
    /// The socket was opened and is connected.
    Connected(DgramSocket),
}

/// What the caller reports to an establishment.
#[derive(Clone, Debug, PartialEq, Eq)]
pub enum Event {
    /// Resolution gave these candidates, in this order.
    Resolved(Vec<UdpEndpoint>),
    /// Resolution failed; the code says why.
    ResolveFailed(i32),
    /// The candidate in flight was tried.
    Attempted(Attempt),
}

/// An event with the candidates as a sequence.
pub enum EventView {
    Resolved(Seq<UdpEndpoint>),
    ResolveFailed(i32),
    Attempted(Attempt),
}

impl View for Event {
    type V = EventView;

    open spec fn view(&self) -> EventView {
        match self {
            Event::Resolved(v) => EventView::Resolved(v@),
            Event::ResolveFailed(c) => EventView::ResolveFailed(*c),
            Event::Attempted(a) => EventView::Attempted(*a),
        }
    }
}

/// What the caller has to do next.
#[derive(Clone, Copy, Debug, PartialEq, Eq)]
pub enum Action {
    /// Open a socket for the protocol and connect it to the endpoint, then
    /// report an [`Event::Attempted`].
    Attempt(Udp, UdpEndpoint),
    /// The establishment is over: hand this outcome to whoever asked for it,
    /// from where the caller stands.
    Deliver(Result<(DgramSocket, UdpEndpoint), Error>),
    /// The establishment is over: schedule the continuation with this error,
    /// to run later in its serialized context.
    Post(Error),
    /// The event was not awaited; nothing changed.
    Ignore,
}

/// Where an establishment stands.
#[derive(Clone, Copy, Debug, PartialEq, Eq, Structural)]
pub enum Phase {
    /// Waiting for the candidates.
    Resolving,
    /// One candidate is in flight.
    Attempting,
    /// Over: a connected socket was handed out.
    Succeeded,
    /// Over: an error was handed out.
    Failed,
}

/// The state of an establishment as a mathematical value.
pub struct Machine {
    /// Whether the outcome goes to a continuation and not to a waiting caller.
    pub deferred: bool,
    pub phase: Phase,
    /// The candidates in the order in which resolution gave them.
    pub candidates: Seq<UdpEndpoint>,
    /// While attempting, the index of the candidate in flight.
    pub next: nat,
    /// The error to return to a waiting caller when no candidate is left.
    pub error: Error,
}

impl Machine {
    /// The establishment has handed out its outcome.
    pub open spec fn is_over(self) -> bool {
        self.phase == Phase::Succeeded || self.phase == Phase::Failed
    }

    /// The candidate in flight, if there is one.
    pub open spec fn in_flight(self) -> Option<UdpEndpoint> {
        if self.phase == Phase::Attempting && self.next < self.candidates.len() {
            Some(self.candidates[self.next as int])
        } else {
            None
        }
    }

    /// The state in which an establishment starts.
    pub open spec fn start(deferred: bool) -> Machine {
        Machine {
            deferred,
            phase: Phase::Resolving,
            candidates: Seq::empty(),
            next: 0,
            error: Error::HostNotFound,
        }
    }

    /// Every candidate has a protocol, and while one is in flight it is one
    /// of the candidates.
    pub open spec fn wf(self) -> bool {
        &&& self.next <= self.candidates.len()
        &&& self.phase == Phase::Attempting ==> self.next < self.candidates.len()
        &&& forall|i: int| 0 <= i < self.candidates.len() ==> (#[trigger] self.candidates[i]).is_ip()
    }

    /// Ends the establishment with `error`: a waiting caller gets it
    /// directly, a continuation gets it posted.
    pub open spec fn fail(self, error: Error) -> (Machine, Action) {
        (
            Machine { phase: Phase::Failed, ..self },
            if self.deferred {
                Action::Post(error)
            } else {
                Action::Deliver(Err(error))
            },
        )
    }

    /// Tries the candidate at `next`, or ends the establishment if none is
    /// left: a waiting caller then gets the error of the last failed
    /// connect, a continuation always "host not found".
    pub open spec fn attempt(self) -> (Machine, Action) {
        if self.next < self.candidates.len() {
            let ep = self.candidates[self.next as int];
            (Machine { phase: Phase::Attempting, ..self }, Action::Attempt(ep.spec_protocol(), ep))
        } else if self.deferred {
            self.fail(Error::HostNotFound)
        } else {
            self.fail(self.error)
        }
    }

    /// The state after `event`, and what the caller has to do then.
    ///
    /// A failed resolution and a socket that could not be opened end the
    /// establishment. A failed connect moves on to the next candidate. A
    /// connected socket ends it with that socket and the candidate's
    /// endpoint. An event that the phase does not await changes nothing.
    pub open spec fn advance(self, event: EventView) -> (Machine, Action) {
        match (self.phase, event) {
            (Phase::Resolving, EventView::Resolved(candidates)) => (Machine {
                candidates,
                next: 0,
                ..self
            }).attempt(),
            (Phase::Resolving, EventView::ResolveFailed(code)) => self.fail(
                Error::Resolution(code),
            ),
            (Phase::Attempting, EventView::Attempted(Attempt::SocketFailed(code))) => self.fail(
                Error::Construction(code),
            ),
            (Phase::Attempting, EventView::Attempted(Attempt::ConnectFailed(code))) => (Machine {
                next: self.next + 1,
                error: Error::Connect(code),
                ..self
            }).attempt(),
            (Phase::Attempting, EventView::Attempted(Attempt::Connected(socket))) => (
                Machine { phase: Phase::Succeeded, ..self },
                Action::Deliver(Ok((socket, self.candidates[self.next as int]))),
            ),
            _ => (self, Action::Ignore),
        }
    }
}

/// One establishment: a query on its way to a connected socket.
#[derive(Clone, Debug)]
pub struct Resolver {
    deferred: bool,
    phase: Phase,
    candidates: Vec<UdpEndpoint>,
    next: usize,
    error: Error,
}

/// The UDP resolver type.
pub type UdpResolver = Resolver;

impl View for Resolver {
    type V = Machine;

    closed spec fn view(&self) -> Machine {
        Machine {
            deferred: self.deferred,
            phase: self.phase,
            candidates: self.candidates@,
            next: self.next as nat,
            error: self.error,
        }
    }
}

impl Resolver {
    /// The state is one that an establishment can be in.
    pub open spec fn wf(&self) -> bool {
        self@.wf()
    }

    fn start(deferred: bool) -> (r: Resolver)
        ensures
            r@ == Machine::start(deferred),
            r.wf(),
    {
        Resolver {
            deferred,
            phase: Phase::Resolving,
            candidates: Vec::new(),
            next: 0,
            error: Error::HostNotFound,
        }
    }

    /// Starts an establishment for a caller that waits for the outcome.
    /// The caller resolves the request and reports what came of it.
    pub fn connect(query: ResolverQuery) -> (r: (Resolver, ResolveRequest))
        ensures
            r.0@ == Machine::start(false),
            r.0.wf(),
            r.1@ == query.request(),
    {
        (Resolver::start(false), query.iter())
    }

    /// Starts an establishment whose outcome goes to a continuation. The
    /// call hands out a request and never an outcome: the continuation does
    /// not run from within it.
    pub fn async_connect(query: ResolverQuery) -> (r: (Resolver, ResolveRequest))
        ensures
            r.0@ == Machine::start(true),
            r.0.wf(),
            r.1@ == query.request(),
    {
        (Resolver::start(true), query.iter())
    }

    /// Where the establishment stands.
    pub fn phase(&self) -> (p: Phase)
        ensures
            p == self@.phase,
    {
        self.phase
    }

    /// The candidate that is being tried, if one is.
    pub fn in_flight(&self) -> (ep: Option<UdpEndpoint>)
        requires
            self.wf(),
        ensures
            ep == self@.in_flight(),
    {
        match self.phase {
            Phase::Attempting => Some(self.candidates[self.next]),
            _ => None,
        }
    }

    /// Whether the outcome goes to a continuation.
    pub fn is_deferred(&self) -> (b: bool)
        ensures
            b == self@.deferred,
    {
        self.deferred
    }

    fn fail(&mut self, error: Error) -> (action: Action)
        ensures
            (final(self)@, action) == old(self)@.fail(error),
    {
        self.phase = Phase::Failed;
        if self.deferred {
            Action::Post(error)
        } else {
            Action::Deliver(Err(error))
        }
    }

    fn attempt(&mut self) -> (action: Action)
        requires
            old(self).next <= old(self).candidates.len(),
            forall|i: int|
                0 <= i < old(self).candidates@.len() ==> (#[trigger] old(self).candidates@[i]).is_ip(),
        ensures
            (final(self)@, action) == old(self)@.attempt(),
            final(self).wf(),
    {
        if self.next < self.candidates.len() {
            let ep = self.candidates[self.next];
            self.phase = Phase::Attempting;
            Action::Attempt(ep.protocol(), ep)
        } else if self.deferred {
            self.fail(Error::HostNotFound)
        } else {
            let error = self.error;
            self.fail(error)
        }
    }

    /// Takes what the caller reports and says what to do next.
    ///
    /// Resolution must not hand out a candidate whose family is neither
    /// IPv4 nor IPv6.
    pub fn step(&mut self, event: Event) -> (action: Action)
        requires
            old(self).wf(),
            event@ matches EventView::Resolved(candidates) ==> forall|i: int|
                0 <= i < candidates.len() ==> (#[trigger] candidates[i]).is_ip(),
        ensures
            (final(self)@, action) == old(self)@.advance(event@),
            final(self).wf(),
            old(self)@.deferred && action is Deliver ==> event@ matches EventView::Attempted(
                Attempt::Connected(_),
            ),
    {
        match self.phase {
            Phase::Resolving => match event {
                Event::Resolved(candidates) => {
                    self.candidates = candidates;
                    self.next = 0;
                    self.attempt()
                },
                Event::ResolveFailed(code) => self.fail(Error::Resolution(code)),
                Event::Attempted(_) => Action::Ignore,
            },
            Phase::Attempting => match event {
                Event::Attempted(Attempt::SocketFailed(code)) => self.fail(
                    Error::Construction(code),
                ),
                Event::Attempted(Attempt::ConnectFailed(code)) => {
                    let len: usize = self.candidates.len();
                    assert(self.next < len);
                    self.next = self.next + 1;
                    self.error = Error::Connect(code);
                    self.attempt()
                },
                Event::Attempted(Attempt::Connected(socket)) => {
                    let ep = self.candidates[self.next];
                    self.phase = Phase::Succeeded;
                    Action::Deliver(Ok((socket, ep)))
                },
                _ => Action::Ignore,
            },
            Phase::Succeeded | Phase::Failed => Action::Ignore,
        }
    }
}

} // verus!
