//! The decisions of a listener's accept loop.
use vstd::prelude::*;

verus! {

/// How long the loop sleeps after a failed accept, in milliseconds.
pub const ACCEPT_RETRY_DELAY_MS: u64 = 1000;

/// What one accept call produced.
#[derive(Clone, Copy, Debug, PartialEq, Eq, Structural)]
pub enum AcceptEvent {
    /// A client was accepted; `blocked` is the inbound filter's verdict on
    /// its address.
    Accepted { blocked: bool },
    /// The accept call failed.
    Failed,
}

/// What the loop does with it before accepting again.
#[derive(Clone, Copy, Debug, PartialEq, Eq, Structural)]
pub enum AcceptAction {
    /// Hand the client to a task of its own, which is not awaited.
    Dispatch,
    /// Close the client's socket at once, before any handshake.
    Drop,
    /// Sleep this many milliseconds, then accept again.
    Sleep(u64),
}

/// What the loop does with `ev`.
pub open spec fn accept_action_spec(ev: AcceptEvent) -> AcceptAction {
    match ev {
        AcceptEvent::Accepted { blocked } => if blocked {
            AcceptAction::Drop
        } else {
            AcceptAction::Dispatch
        },
        AcceptEvent::Failed => AcceptAction::Sleep(ACCEPT_RETRY_DELAY_MS),
    }
}

/// Decides what to do with the result of one accept call. The loop goes on
/// in every case: a failure only delays the next accept.
pub fn on_accept(ev: AcceptEvent) -> (r: AcceptAction)
    ensures
        r == accept_action_spec(ev),
{
    match ev {
        AcceptEvent::Accepted { blocked } => if blocked {
            AcceptAction::Drop
        } else {
            AcceptAction::Dispatch
        },
        AcceptEvent::Failed => AcceptAction::Sleep(ACCEPT_RETRY_DELAY_MS),
    }
}

/// The actions the loop takes on a run of events, in order.
pub open spec fn accept_run_spec(evs: Seq<AcceptEvent>) -> Seq<AcceptAction> {
    evs.map_values(|e: AcceptEvent| accept_action_spec(e))
}

/// How many one-second sleeps a run of actions holds.
pub open spec fn sleeps(acts: Seq<AcceptAction>) -> nat
    decreases acts.len(),
{
    if acts.len() == 0 {
        0
    } else {
        sleeps(acts.drop_last()) + if acts.last() == AcceptAction::Sleep(ACCEPT_RETRY_DELAY_MS) {
            1nat
        } else {
            0nat
        }
    }
}

proof fn lemma_sleeps_of_failures(n: nat)
    ensures
        sleeps(accept_run_spec(Seq::new(n, |i: int| AcceptEvent::Failed))) == n,
    decreases n,
{
    let evs = Seq::new(n, |i: int| AcceptEvent::Failed);
    if n > 0 {
        lemma_sleeps_of_failures((n - 1) as nat);
        assert(accept_run_spec(evs).drop_last() =~= accept_run_spec(
            Seq::new((n - 1) as nat, |i: int| AcceptEvent::Failed),
        ));
    }
}

/// Any number of failed accepts in a row gives one one-second sleep each,
/// and an accept that succeeds after them is served as usual: the client is
/// dispatched unless the inbound filter blocks it.
pub proof fn lemma_accept_failures_are_survived(n: nat, blocked: bool)
    ensures
        sleeps(accept_run_spec(Seq::new(n, |i: int| AcceptEvent::Failed))) == n,
        ({
            let evs = Seq::new(n, |i: int| AcceptEvent::Failed).push(
                AcceptEvent::Accepted { blocked },
            );
            &&& accept_run_spec(evs).len() == n + 1
            &&& accept_run_spec(evs)[n as int] == (if blocked {
                AcceptAction::Drop
            } else {
                AcceptAction::Dispatch
            })
        }),
{
    lemma_sleeps_of_failures(n);
}

} // verus!
