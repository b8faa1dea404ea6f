//! The decisions of one relayed client connection. The connection is driven
//! from outside: each method takes what the last action produced and returns
//! the next action, so every network operation stays with the caller.
use vstd::prelude::*;
use crate::address::{Address, AddressView, DecodeError, SockAddr, SockAddrView, copy_bytes};
use crate::lookup::{
    LookupError, LookupState, LookupThen, fail_spec, next_spec, outcome_spec, start_state,
    succeed_spec,
};

verus! {

/// Where a connection stands. It only moves forward through these.
#[derive(Clone, Copy, Debug, PartialEq, Eq, Structural)]
pub enum Phase {
    /// Reading the target address from the decrypted stream.
    ReadingAddress,
    /// The address could not be read: the raw socket is read and discarded
    /// until the client closes it.
    Draining,
    /// Asking the outbound filter whether the target is blocked.
    CheckingAcl,
    /// Resolving the target's host name.
    Resolving,
    /// Connecting to the current candidate address.
    Connecting,
    /// Copying bytes both ways until one direction ends.
    Relaying,
    Closed,
}

/// Why the target address could not be read from the client: either
/// failure often means a wrong key or method.
#[derive(Debug)]
pub enum AddressReadError<E> {
    /// The bytes read do not form an address frame.
    Decode(DecodeError),
    /// The client stream failed under the read, as when the cipher layer
    /// rejects what the client sent.
    Stream(E),
}

/// Why a connection ended with an error.
#[derive(Debug)]
pub enum ConnError<E> {
    /// The address frame could not be read.
    Address(AddressReadError<E>),
    /// The target's host name could not be resolved.
    Resolve(E),
    /// The target's host name resolved to no address.
    NoAddress,
    /// No candidate address could be connected to.
    Connect(LookupError<E>),
}

/// What the caller does next.
#[derive(Debug)]
pub enum Action<E> {
    /// Keep the raw socket open, reading and discarding until the client
    /// closes it, then report `client_closed`.
    Drain,
    /// Ask the outbound filter about the target, then report
    /// `outbound_checked`.
    CheckOutbound(Address),
    /// Resolve the host name and port, then report `resolved`.
    Resolve(Vec<u8>, u16),
    /// Connect to the address, then report `connected`.
    Connect(SockAddr),
    /// Copy bytes both ways; when either direction ends, cancel the other
    /// and report `relay_ended`.
    Relay,
    /// Release the connection; this is its result.
    Close(Result<(), ConnError<E>>),
}

pub ghost enum ActionView<E> {
    Drain,
    CheckOutbound(AddressView),
    Resolve(Seq<u8>, u16),
    Connect(SockAddrView),
    Relay,
    Close(Result<(), ConnError<E>>),
}

impl<E> View for Action<E> {
    type V = ActionView<E>;

    open spec fn view(&self) -> ActionView<E> {
        match self {
            Action::Drain => ActionView::Drain,
            Action::CheckOutbound(a) => ActionView::CheckOutbound(a@),
            Action::Resolve(n, p) => ActionView::Resolve(n@, *p),
            Action::Connect(s) => ActionView::Connect(s@),
            Action::Relay => ActionView::Relay,
            Action::Close(r) => ActionView::Close(*r),
        }
    }
}

/// One connection's state, as the contracts see it.
pub ghost struct ConnView<E> {
    pub phase: Phase,
    pub target: Option<AddressView>,
    pub read_error: Option<AddressReadError<E>>,
    pub lookup: Option<LookupState<E>>,
}

/// The state of a fresh connection.
pub open spec fn fresh_spec<E>() -> ConnView<E> {
    ConnView { phase: Phase::ReadingAddress, target: None, read_error: None, lookup: None }
}

/// A connection that has ended: no event moves it any more.
pub open spec fn closed_spec<E>(s: ConnView<E>) -> ConnView<E> {
    ConnView { phase: Phase::Closed, ..s }
}

/// The step taken when the address frame was read, or failed to be read:
/// every failure is drained.
pub open spec fn address_read_spec<E>(s: ConnView<E>, r: Result<AddressView, AddressReadError<E>>) -> (
    ConnView<E>,
    ActionView<E>,
) {
    match r {
        Ok(a) => (
            ConnView { phase: Phase::CheckingAcl, target: Some(a), ..s },
            ActionView::CheckOutbound(a),
        ),
        Err(e) => (
            ConnView { phase: Phase::Draining, read_error: Some(e), ..s },
            ActionView::Drain,
        ),
    }
}

/// The step taken when the client closed a drained connection.
pub open spec fn client_closed_spec<E>(s: ConnView<E>) -> (ConnView<E>, ActionView<E>) {
    (
        ConnView { phase: Phase::Closed, read_error: None, ..s },
        ActionView::Close(Err(ConnError::Address(s.read_error.unwrap()))),
    )
}

/// The step taken from a lookup state: try its next address, or close with
/// its error.
pub open spec fn try_next_spec<E>(s: ConnView<E>, l: LookupState<E>) -> (ConnView<E>, ActionView<E>) {
    match next_spec(l) {
        Some(a) => (
            ConnView { phase: Phase::Connecting, lookup: Some(l), ..s },
            ActionView::Connect(a),
        ),
        None => (
            ConnView { phase: Phase::Closed, lookup: None, ..s },
            ActionView::Close(Err(ConnError::Connect(outcome_spec(l)))),
        ),
    }
}

/// The step taken on the outbound filter's verdict.
pub open spec fn outbound_checked_spec<E>(s: ConnView<E>, blocked: bool) -> (
    ConnView<E>,
    ActionView<E>,
) {
    if blocked {
        (closed_spec(s), ActionView::Close(Ok(())))
    } else {
        match s.target.unwrap() {
            AddressView::Socket(sa) => try_next_spec(s, start_state(seq![sa])),
            AddressView::Domain(n, p) => (
                ConnView { phase: Phase::Resolving, ..s },
                ActionView::Resolve(n, p),
            ),
        }
    }
}

/// The step taken when resolution ended.
pub open spec fn resolved_spec<E>(s: ConnView<E>, r: Result<Seq<SockAddrView>, E>) -> (
    ConnView<E>,
    ActionView<E>,
) {
    match r {
        Err(e) => (closed_spec(s), ActionView::Close(Err(ConnError::Resolve(e)))),
        Ok(addrs) => if addrs.len() == 0 {
            (closed_spec(s), ActionView::Close(Err(ConnError::NoAddress)))
        } else {
            try_next_spec(s, start_state(addrs))
        },
    }
}

/// The step taken when a connect attempt ended.
pub open spec fn connected_spec<E>(s: ConnView<E>, r: Result<(), E>) -> (ConnView<E>, ActionView<E>) {
    match r {
        Ok(()) => (
            ConnView { phase: Phase::Relaying, lookup: Some(succeed_spec(s.lookup.unwrap())), ..s },
            ActionView::Relay,
        ),
        Err(e) => try_next_spec(s, fail_spec(s.lookup.unwrap(), e)),
    }
}

/// The step taken when either relay direction ended.
pub open spec fn relay_ended_spec<E>(s: ConnView<E>) -> (ConnView<E>, ActionView<E>) {
    (closed_spec(s), ActionView::Close(Ok(())))
}

/// One client connection.
pub struct Connection<E> {
    phase: Phase,
    target: Option<Address>,
    read_error: Option<AddressReadError<E>>,
    lookup: Option<LookupThen<E>>,
}

impl<E> Connection<E> {
    pub closed spec fn view(&self) -> ConnView<E> {
        ConnView {
            phase: self.phase,
            target: match self.target {
                Some(a) => Some(a@),
                None => None,
            },
            read_error: self.read_error,
            lookup: match self.lookup {
                Some(l) => Some(l.state()),
                None => None,
            },
        }
    }

    /// What each phase needs: the read error while draining, the target
    /// once read, and a lookup run while connecting or relaying.
    pub closed spec fn wf(&self) -> bool {
        &&& self.phase == Phase::Draining ==> self.read_error is Some
        &&& (self.phase == Phase::CheckingAcl || self.phase == Phase::Resolving) ==> self.target is Some
        &&& (self.phase == Phase::Connecting || self.phase == Phase::Relaying) ==> {
            &&& self.lookup matches Some(l)
            &&& l.wf()
            &&& self.phase == Phase::Connecting ==> next_spec(l.state()) is Some
        }
    }

    /// A connection whose socket was accepted: the first action is to read
    /// the target address.
    pub fn new() -> (r: Self)
        ensures
            r.wf(),
            r.view() == fresh_spec::<E>(),
    {
        Connection { phase: Phase::ReadingAddress, target: None, read_error: None, lookup: None }
    }

    pub fn phase(&self) -> (r: Phase)
        ensures
            r == self.view().phase,
    {
        self.phase
    }

    /// Takes the result of reading the address frame. A frame that cannot
    /// be read, for whatever reason, does not close the connection: it is
    /// drained first.
    pub fn address_read(&mut self, r: Result<Address, AddressReadError<E>>) -> (act: Action<E>)
        requires
            old(self).wf(),
            old(self).view().phase == Phase::ReadingAddress,
        ensures
            final(self).wf(),
            (final(self).view(), act@) == address_read_spec(
                old(self).view(),
                match r {
                    Ok(a) => Ok(a@),
                    Err(e) => Err(e),
                },
            ),
    {
        match r {
            Ok(a) => {
                let act = Action::CheckOutbound(a.clone_address());
                self.target = Some(a);
                self.phase = Phase::CheckingAcl;
                act
            },
            Err(e) => {
                self.read_error = Some(e);
                self.phase = Phase::Draining;
                Action::Drain
            },
        }
    }

    /// Takes the client's close of a drained connection, which then ends
    /// with the read error.
    pub fn client_closed(&mut self) -> (act: Action<E>)
        requires
            old(self).wf(),
            old(self).view().phase == Phase::Draining,
        ensures
            final(self).wf(),
            (final(self).view(), act@) == client_closed_spec(old(self).view()),
    {
        self.phase = Phase::Closed;
        Action::Close(Err(ConnError::Address(self.read_error.take().unwrap())))
    }

    fn try_next(&mut self, l: LookupThen<E>) -> (act: Action<E>)
        requires
            l.wf(),
            !l.state().succeeded,
            old(self).phase != Phase::Draining || old(self).read_error is Some,
        ensures
            final(self).wf(),
            (final(self).view(), act@) == try_next_spec(old(self).view(), l.state()),
    {
        match l.next_target() {
            Some(a) => {
                self.phase = Phase::Connecting;
                self.lookup = Some(l);
                Action::Connect(a)
            },
            None => {
                self.phase = Phase::Closed;
                self.lookup = None;
                Action::Close(Err(ConnError::Connect(l.into_error())))
            },
        }
    }

    /// Takes the outbound filter's verdict on the target. A blocked target
    /// ends the connection quietly, with success; otherwise an IP target is
    /// connected to and a host name is resolved first.
    pub fn outbound_checked(&mut self, blocked: bool) -> (act: Action<E>)
        requires
            old(self).wf(),
            old(self).view().phase == Phase::CheckingAcl,
        ensures
            final(self).wf(),
            (final(self).view(), act@) == outbound_checked_spec(old(self).view(), blocked),
    {
        if blocked {
            self.phase = Phase::Closed;
            return Action::Close(Ok(()));
        }
        match &self.target {
            Some(Address::SocketAddress(sa)) => {
                let l = LookupThen::new(vec![sa.clone_addr()]);
                proof {
                    assert(l.state().addrs =~= seq![sa@]);
                }
                self.try_next(l)
            },
            Some(Address::DomainNameAddress(n, p)) => {
                let act = Action::Resolve(copy_bytes(n), *p);
                self.phase = Phase::Resolving;
                act
            },
            None => {
                self.phase = Phase::Closed;
                Action::Close(Ok(()))
            },
        }
    }

    /// Takes the result of resolving the target's name: the addresses are
    /// tried in the resolver's order, and an empty result is a resolution
    /// error.
    pub fn resolved(&mut self, r: Result<Vec<SockAddr>, E>) -> (act: Action<E>)
        requires
            old(self).wf(),
            old(self).view().phase == Phase::Resolving,
        ensures
            final(self).wf(),
            (final(self).view(), act@) == resolved_spec(
                old(self).view(),
                match r {
                    Ok(v) => Ok(v@.map_values(|a: SockAddr| a@)),
                    Err(e) => Err(e),
                },
            ),
    {
        match r {
            Err(e) => {
                self.phase = Phase::Closed;
                Action::Close(Err(ConnError::Resolve(e)))
            },
            Ok(addrs) => if addrs.len() == 0 {
                self.phase = Phase::Closed;
                Action::Close(Err(ConnError::NoAddress))
            } else {
                self.try_next(LookupThen::new(addrs))
            },
        }
    }

    /// Takes the result of connecting to the current candidate: on failure
    /// the next candidate is tried, and after the last one the connection
    /// ends with its error.
    pub fn connected(&mut self, r: Result<(), E>) -> (act: Action<E>)
        requires
            old(self).wf(),
            old(self).view().phase == Phase::Connecting,
        ensures
            final(self).wf(),
            (final(self).view(), act@) == connected_spec(old(self).view(), r),
    {
        let mut l = self.lookup.take().unwrap();
        match r {
            Ok(()) => {
                let _ = l.record_success();
                self.lookup = Some(l);
                self.phase = Phase::Relaying;
                Action::Relay
            },
            Err(e) => {
                l.record_failure(e);
                self.try_next(l)
            },
        }
    }

    /// Takes the end of either relay direction; the connection then ends
    /// with success, whatever ended the direction.
    pub fn relay_ended(&mut self) -> (act: Action<E>)
        requires
            old(self).wf(),
            old(self).view().phase == Phase::Relaying,
        ensures
            final(self).wf(),
            (final(self).view(), act@) == relay_ended_spec(old(self).view()),
    {
        self.phase = Phase::Closed;
        Action::Close(Ok(()))
    }
}

/// How loudly the end of a relay direction is logged: a timeout is routine.
#[derive(Clone, Copy, Debug, PartialEq, Eq, Structural)]
pub enum LogLevel {
    Trace,
    Debug,
}

/// The level at which the end of a relay direction is logged: trace for a
/// clean end or a timeout, debug for any other error.
pub fn relay_end_log_level(failed: bool, timed_out: bool) -> (r: LogLevel)
    ensures
        r == (if failed && !timed_out { LogLevel::Debug } else { LogLevel::Trace }),
{
    if failed && !timed_out {
        LogLevel::Debug
    } else {
        LogLevel::Trace
    }
}

/// A connection whose address frame cannot be read, whether the bytes are
/// no frame or the stream failed under the read, is not closed: its raw
/// socket is drained, and only the client's own close ends it, with the
/// decode error as its result.
pub proof fn lemma_bad_address_is_drained<E>(s: ConnView<E>, e: AddressReadError<E>)
    requires
        s.phase == Phase::ReadingAddress,
    ensures
        address_read_spec(s, Err(e)).1 == ActionView::<E>::Drain,
        address_read_spec(s, Err(e)).0.phase == Phase::Draining,
        client_closed_spec(address_read_spec(s, Err(e)).0).1 == ActionView::<E>::Close(
            Err(ConnError::Address(e)),
        ),
        client_closed_spec(address_read_spec(s, Err(e)).0).0.phase == Phase::Closed,
{
}

/// A target that the outbound filter blocks is never connected to: the
/// connection closes at once, with success, and a closed connection takes no
/// further step.
pub proof fn lemma_blocked_target_not_connected<E>(s: ConnView<E>)
    requires
        s.phase == Phase::CheckingAcl,
    ensures
        outbound_checked_spec(s, true).1 == ActionView::<E>::Close(Ok(())),
        outbound_checked_spec(s, true).0.phase == Phase::Closed,
{
}

} // verus!
