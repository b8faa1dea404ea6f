//! Resolve-then-try: after a name is resolved, an operation is attempted on
//! each address in the resolver's order until one succeeds; when all fail,
//! the last error is the one reported.
use vstd::prelude::*;
use crate::address::{SockAddr, SockAddrView};

verus! {

/// Why a lookup-then-try run ended without success.
#[derive(Debug)]
pub enum LookupError<E> {
    /// The resolver returned no address.
    NoAddress,
    /// Every address was tried; this is the error of the last attempt.
    LastAttempt(E),
}

/// The progress of one run over the resolved addresses.
pub struct LookupThen<E> {
    addrs: Vec<SockAddr>,
    tried: usize,
    last_error: Option<E>,
    succeeded: bool,
}

pub ghost struct LookupState<E> {
    pub addrs: Seq<SockAddrView>,
    /// How many attempts have failed so far.
    pub tried: nat,
    pub last_error: Option<E>,
    pub succeeded: bool,
}

/// The state before any attempt.
pub open spec fn start_state<E>(addrs: Seq<SockAddrView>) -> LookupState<E> {
    LookupState { addrs, tried: 0, last_error: None, succeeded: false }
}

/// The address to try next, if any: none once an attempt succeeded or all
/// failed.
pub open spec fn next_spec<E>(s: LookupState<E>) -> Option<SockAddrView> {
    if !s.succeeded && s.tried < s.addrs.len() {
        Some(s.addrs[s.tried as int])
    } else {
        None
    }
}

/// The state after the current attempt failed with `e`.
pub open spec fn fail_spec<E>(s: LookupState<E>, e: E) -> LookupState<E> {
    LookupState { tried: s.tried + 1, last_error: Some(e), ..s }
}

/// The state after the current attempt succeeded.
pub open spec fn succeed_spec<E>(s: LookupState<E>) -> LookupState<E> {
    LookupState { succeeded: true, ..s }
}

/// The state after the attempts fail with `errs`, in order.
pub open spec fn fail_all_spec<E>(s: LookupState<E>, errs: Seq<E>) -> LookupState<E>
    decreases errs.len(),
{
    if errs.len() == 0 {
        s
    } else {
        fail_all_spec(fail_spec(s, errs[0]), errs.drop_first())
    }
}

/// The error a run reports when no attempt succeeded.
pub open spec fn outcome_spec<E>(s: LookupState<E>) -> LookupError<E> {
    match s.last_error {
        None => LookupError::NoAddress,
        Some(e) => LookupError::LastAttempt(e),
    }
}

impl<E> LookupThen<E> {
    pub closed spec fn state(&self) -> LookupState<E> {
        LookupState {
            addrs: self.addrs@.map_values(|a: SockAddr| a@),
            tried: self.tried as nat,
            last_error: self.last_error,
            succeeded: self.succeeded,
        }
    }

    pub closed spec fn wf(&self) -> bool {
        &&& self.tried <= self.addrs.len()
        &&& (self.tried == 0) == (self.last_error is None)
    }

    /// Starts a run over `addrs`, in the given order.
    pub fn new(addrs: Vec<SockAddr>) -> (r: Self)
        ensures
            r.wf(),
            r.state() == start_state::<E>(addrs@.map_values(|a: SockAddr| a@)),
    {
        LookupThen { addrs, tried: 0, last_error: None, succeeded: false }
    }

    /// The address to attempt next, or `None` when the run is over.
    pub fn next_target(&self) -> (r: Option<SockAddr>)
        requires
            self.wf(),
        ensures
            r matches Some(a) ==> next_spec(self.state()) == Some(a@),
            r is None ==> next_spec(self.state()) is None,
    {
        if !self.succeeded && self.tried < self.addrs.len() {
            Some(self.addrs[self.tried].clone_addr())
        } else {
            None
        }
    }

    /// Records that the attempt on the current address failed with `e`.
    pub fn record_failure(&mut self, e: E)
        requires
            old(self).wf(),
            next_spec(old(self).state()) is Some,
        ensures
            final(self).wf(),
            final(self).state() == fail_spec(old(self).state(), e),
    {
        self.tried = self.tried + 1;
        self.last_error = Some(e);
    }

    /// Records that the attempt on the current address succeeded, and returns
    /// that address.
    pub fn record_success(&mut self) -> (r: SockAddr)
        requires
            old(self).wf(),
            next_spec(old(self).state()) is Some,
        ensures
            final(self).wf(),
            final(self).state() == succeed_spec(old(self).state()),
            next_spec(old(self).state()) == Some(r@),
    {
        self.succeeded = true;
        self.addrs[self.tried].clone_addr()
    }

    /// The error of a run in which every address failed.
    pub fn into_error(self) -> (r: LookupError<E>)
        requires
            self.wf(),
            !self.state().succeeded,
            next_spec(self.state()) is None,
        ensures
            r == outcome_spec(self.state()),
            (r is NoAddress) == (self.state().addrs.len() == 0),
    {
        match self.last_error {
            None => LookupError::NoAddress,
            Some(e) => LookupError::LastAttempt(e),
        }
    }
}

proof fn lemma_fail_all_steps<E>(s: LookupState<E>, errs: Seq<E>)
    requires
        !s.succeeded,
        s.tried + errs.len() <= s.addrs.len(),
    ensures
        fail_all_spec(s, errs).addrs == s.addrs,
        fail_all_spec(s, errs).succeeded == s.succeeded,
        fail_all_spec(s, errs).tried == s.tried + errs.len(),
        errs.len() > 0 ==> fail_all_spec(s, errs).last_error == Some(errs.last()),
        errs.len() == 0 ==> fail_all_spec(s, errs) == s,
    decreases errs.len(),
{
    if errs.len() > 0 {
        let t = fail_spec(s, errs[0]);
        lemma_fail_all_steps(t, errs.drop_first());
        if errs.len() > 1 {
            assert(errs.drop_first().last() == errs.last());
        }
    }
}

/// When every resolved address fails, each failure reported in turn, the run
/// ends with no address left to try and reports the error of the last one;
/// with no address at all it reports that nothing was resolved.
pub proof fn lemma_last_error_wins<E>(addrs: Seq<SockAddrView>, errs: Seq<E>)
    requires
        errs.len() == addrs.len(),
    ensures
        next_spec(fail_all_spec(start_state::<E>(addrs), errs)) is None,
        addrs.len() > 0 ==> outcome_spec(fail_all_spec(start_state::<E>(addrs), errs))
            == LookupError::LastAttempt(errs.last()),
        addrs.len() == 0 ==> outcome_spec(fail_all_spec(start_state::<E>(addrs), errs))
            == LookupError::<E>::NoAddress,
{
    lemma_fail_all_steps(start_state::<E>(addrs), errs);
}

/// After the attempts on the first `errs.len()` addresses failed, the next
/// address in the resolver's order is the one attempted; once that attempt
/// succeeds, no later address is attempted.
pub proof fn lemma_success_stops<E>(addrs: Seq<SockAddrView>, errs: Seq<E>)
    requires
        errs.len() < addrs.len(),
    ensures
        next_spec(fail_all_spec(start_state::<E>(addrs), errs)) == Some(addrs[errs.len() as int]),
        next_spec(succeed_spec(fail_all_spec(start_state::<E>(addrs), errs))) is None,
{
    lemma_fail_all_steps(start_state::<E>(addrs), errs);
}

} // verus!
