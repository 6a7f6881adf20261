//! Connection supervisor policy: what each pass of the endless retry loop
//! reports and does, and how long it backs off after a disconnect or a failed
//! connect attempt. The waiting itself, and the controller and network-stack
//! calls, happen at the loop that consumes these decisions.

use vstd::prelude::*;
use crate::led::LedState;

verus! {

/// The supervisor's view of the wireless controller's state.
#[derive(Clone, Copy, PartialEq, Eq, Structural, Debug)]
pub enum StaState {
    NotStarted,
    Starting,
    Connected,
    Disconnected,
}

/// How long the supervisor waits after a disconnect, and after a failed
/// connect attempt, before trying again, in ms.
pub const RECONNECT_BACKOFF_MILLIS: u64 = 5000;

/// The status the supervisor reports at the top of a pass: presence while
/// connected, link establishment otherwise.
pub open spec fn spec_supervisor_status(sta: StaState) -> LedState {
    if sta == StaState::Connected {
        LedState::PresenceBlink
    } else {
        LedState::PatientBlink
    }
}

/// The status the supervisor reports (executable form of
/// `spec_supervisor_status`).
pub fn supervisor_status(sta: StaState) -> (s: LedState)
    ensures
        s == spec_supervisor_status(sta),
{
    match sta {
        StaState::Connected => LedState::PresenceBlink,
        _ => LedState::PatientBlink,
    }
}

/// One pass of the supervisor loop. Every pass ends in a connect attempt;
/// there is no pass that stops the loop.
#[derive(Clone, Copy, PartialEq, Eq, Structural, Debug)]
pub struct SupervisorPass {
    /// The status to report before anything else.
    pub report: LedState,
    /// Whether to first wait for a disconnect event and then cool down for
    /// `RECONNECT_BACKOFF_MILLIS` (the link is currently up).
    pub await_disconnect: bool,
    /// Whether to apply the client configuration and start the controller
    /// before connecting (it is not started).
    pub configure_and_start: bool,
}

/// What one supervisor pass does, from what it observes.
pub open spec fn spec_plan_pass(sta: StaState, started: bool) -> SupervisorPass {
    SupervisorPass {
        report: spec_supervisor_status(sta),
        await_disconnect: sta == StaState::Connected,
        configure_and_start: !started,
    }
}

/// Plan one pass of the supervisor loop from the controller's state and
/// whether it is started (executable form of `spec_plan_pass`).
pub fn plan_pass(sta: StaState, started: bool) -> (p: SupervisorPass)
    ensures
        p == spec_plan_pass(sta, started),
        p.report == spec_supervisor_status(sta),
        p.await_disconnect == (sta == StaState::Connected),
        p.configure_and_start == !started,
{
    SupervisorPass {
        report: supervisor_status(sta),
        await_disconnect: match sta {
            StaState::Connected => true,
            _ => false,
        },
        configure_and_start: !started,
    }
}

/// The wait after one connect attempt: a failed attempt backs off for the
/// full interval before the next pass; a successful one proceeds at once.
pub fn backoff_after_connect(connected: bool) -> (d: Option<u64>)
    ensures
        connected ==> d is None,
        !connected ==> d == Some(RECONNECT_BACKOFF_MILLIS),
{
    if connected {
        None
    } else {
        Some(RECONNECT_BACKOFF_MILLIS)
    }
}

/// The cooldown after a disconnect event, before re-attempting, so a flapping
/// access point is not chased in a tight loop.
pub fn disconnect_cooldown() -> (d: u64)
    ensures
        d == RECONNECT_BACKOFF_MILLIS,
{
    RECONNECT_BACKOFF_MILLIS
}

/// The status the network-configuration reporter sets: presence once IP
/// configuration is up, link establishment while it is not.
pub fn network_state_status(config_up: bool) -> (s: LedState)
    ensures
        config_up ==> s == LedState::PresenceBlink,
        !config_up ==> s == LedState::PatientBlink,
{
    if config_up {
        LedState::PresenceBlink
    } else {
        LedState::PatientBlink
    }
}

/// The waiting a run of connect attempts causes, oldest attempt first
/// (true = the attempt connected).
pub open spec fn total_backoff(outcomes: Seq<bool>) -> nat
    decreases outcomes.len(),
{
    if outcomes.len() == 0 {
        0
    } else {
        (if outcomes[0] {
            0nat
        } else {
            RECONNECT_BACKOFF_MILLIS as nat
        }) + total_backoff(outcomes.drop_first())
    }
}

/// Law: a controller that always fails to connect is retried endlessly and
/// never faster than the backoff allows — a run of n failed attempts comes
/// with n full backoff waits, and planning the next pass is defined for every
/// observation, so no failure ends the loop.
pub proof fn lemma_endless_retry_backoff(outcomes: Seq<bool>)
    requires
        forall|i: int| 0 <= i < outcomes.len() ==> !(#[trigger] outcomes[i]),
    ensures
        total_backoff(outcomes) == outcomes.len() * (RECONNECT_BACKOFF_MILLIS as nat),
    decreases outcomes.len(),
{
    if outcomes.len() == 0 {
    } else {
        lemma_endless_retry_backoff(outcomes.drop_first());
        assert(outcomes.len() * (RECONNECT_BACKOFF_MILLIS as nat) == (RECONNECT_BACKOFF_MILLIS
            as nat) + (outcomes.len() - 1) * (RECONNECT_BACKOFF_MILLIS as nat)) by (nonlinear_arith);
    }
}

} // verus!
