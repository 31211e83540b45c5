//! Event multiplexer dispatch: plans what one wake of the polling loop must
//! do — one watchdog signal first, then one bounded read per ready endpoint
//! — and decides which lines a completed read emits. The surrounding program
//! performs the waits, reads and signals and feeds their outcomes back here.

use vstd::prelude::*;
use crate::errors::DispatchError;
use crate::registry::Endpoint;
use crate::registry::EndpointVariant;
use crate::registry::Registry;
use crate::roles::LogicalRole;
use crate::roles::spec_role_of_token;

verus! {

/// Upper bound on one blocked wait of the dispatch loop, in seconds: the
/// loop wakes at least this often so the supervisor sees a heartbeat.
pub const WAKE_TIMEOUT_SECS: u64 = 30;

/// One step the surrounding program must perform for a wake.
#[derive(Clone, Copy, Debug, PartialEq, Eq, Structural)]
pub enum Action {
    /// Signal liveness to the supervisor; failure is logged, never fatal.
    Watchdog,
    /// Accept one pending connection on a listener endpoint, then perform
    /// one bounded read from the accepted connection.
    AcceptThenRead { handle: i32, role: LogicalRole },
    /// Perform one bounded read directly from the endpoint.
    Read { handle: i32, role: LogicalRole },
}

/// The read step an endpoint's shape demands on a readiness event.
pub open spec fn spec_read_action(endpoint: Endpoint, role: LogicalRole) -> Action {
    match endpoint.variant {
        EndpointVariant::Listener => Action::AcceptThenRead { handle: endpoint.handle, role },
        EndpointVariant::Datagram => Action::Read { handle: endpoint.handle, role },
        EndpointVariant::File => Action::Read { handle: endpoint.handle, role },
    }
}

/// The read step a readiness token calls for, or `None` when the token
/// matches no registered role — a broken multiplexer invariant.
pub open spec fn spec_token_action(reg: Registry, token: nat) -> Option<Action> {
    match spec_role_of_token(token) {
        None => None,
        Some(role) => match reg.entry(role) {
            None => None,
            Some(endpoint) => Some(spec_read_action(endpoint, role)),
        },
    }
}

/// How many of the planned steps signal the watchdog.
pub open spec fn count_watchdogs(actions: Seq<Action>) -> nat
    decreases actions.len(),
{
    if actions.len() == 0 {
        0
    } else {
        (if actions[0] is Watchdog {
            1nat
        } else {
            0nat
        }) + count_watchdogs(actions.drop_first())
    }
}

proof fn lemma_count_watchdogs_none(actions: Seq<Action>)
    requires
        forall|i: int| 0 <= i < actions.len() ==> !(actions[i] is Watchdog),
    ensures
        count_watchdogs(actions) == 0,
    decreases actions.len(),
{
    if actions.len() > 0 {
        lemma_count_watchdogs_none(actions.drop_first());
    }
}

proof fn lemma_count_watchdogs_first_only(actions: Seq<Action>)
    requires
        actions.len() >= 1,
        actions[0] is Watchdog,
        forall|i: int| 1 <= i < actions.len() ==> !(actions[i] is Watchdog),
    ensures
        count_watchdogs(actions) == 1,
{
    assert(forall|i: int|
        0 <= i < actions.drop_first().len() ==> !(actions.drop_first()[i] is Watchdog));
    lemma_count_watchdogs_none(actions.drop_first());
}

/// Plans one wake of the dispatch loop, whether the wait returned for ready
/// endpoints or on its bounded timeout: first exactly one watchdog signal,
/// then one read step per ready token, in the multiplexer's own order. A
/// token matching no registered role aborts the wake: the multiplexer's
/// contract is broken and the process may no longer trust its own state.
pub fn plan_wake(reg: &Registry, ready: &Vec<usize>) -> (r: Result<Vec<Action>, DispatchError>)
    ensures
        r is Ok <==> (forall|i: int|
            0 <= i < ready@.len() ==> spec_token_action(*reg, ready@[i] as nat) is Some),
        r matches Ok(actions) ==> {
            &&& actions@.len() == ready@.len() + 1
            &&& actions@[0] == Action::Watchdog
            &&& forall|i: int|
                0 <= i < ready@.len() ==> Some(actions@[i + 1]) == spec_token_action(
                    *reg,
                    ready@[i] as nat,
                )
            &&& count_watchdogs(actions@) == 1
        },
        r is Err ==> r == Err::<Vec<Action>, DispatchError>(DispatchError::UnknownToken),
{
    let mut actions: Vec<Action> = Vec::new();
    actions.push(Action::Watchdog);
    let mut i: usize = 0;
    while i < ready.len()
        invariant
            0 <= i <= ready@.len(),
            actions@.len() == i + 1,
            actions@[0] == Action::Watchdog,
            forall|j: int|
                0 <= j < i ==> Some(actions@[j + 1]) == spec_token_action(*reg, ready@[j] as nat),
            forall|j: int| 1 <= j < actions@.len() ==> !(actions@[j] is Watchdog),
        decreases ready@.len() - i,
    {
        let token = ready[i];
        let action = match LogicalRole::of_token(token) {
            None => None,
            Some(role) => match reg.get(role) {
                None => None,
                Some(endpoint) => match endpoint.variant {
                    EndpointVariant::Listener => Some(
                        Action::AcceptThenRead { handle: endpoint.handle, role },
                    ),
                    EndpointVariant::Datagram => Some(
                        Action::Read { handle: endpoint.handle, role },
                    ),
                    EndpointVariant::File => Some(Action::Read { handle: endpoint.handle, role }),
                },
            },
        };
        match action {
            None => {
                assert(spec_token_action(*reg, ready@[i as int] as nat) is None);
                return Err(DispatchError::UnknownToken);
            },
            Some(a) => {
                actions.push(a);
            },
        }
        i = i + 1;
    }
    proof {
        lemma_count_watchdogs_first_only(actions@);
    }
    Ok(actions)
}

} // verus!
