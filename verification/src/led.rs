//! Status indicator: a closed set of device statuses, each rendered as a
//! two-phase blink pattern, with persistent statuses remembered so that a
//! held outcome can revert to them.

use vstd::prelude::*;

verus! {

/// The visible device status. Persistent statuses reflect an ongoing
/// condition; `Success` and `Failure` are one-shot outcomes that hold for a
/// fixed duration and then revert to the last persistent status.
#[derive(Clone, Copy, PartialEq, Eq, Structural, Debug)]
pub enum LedState {
    /// Up and running: system healthy, no activity.
    PresenceBlink,
    /// In progress: link establishment.
    PatientBlink,
    /// In progress: an operation is in flight.
    RapidBlink,
    /// Outcome: the operation succeeded.
    Success,
    /// Outcome: the operation failed.
    Failure,
    /// Error state: keeps blinking until explicitly replaced.
    ViolentBlink,
}

/// How long a holding outcome (`Success`/`Failure`) stays on screen, in ms.
pub const HOLD_MILLIS: u64 = 3000;

/// Whether a status is persistent: displayed until explicitly superseded,
/// and remembered as the state to revert to after a held outcome.
pub open spec fn persistent(s: LedState) -> bool {
    s == LedState::PresenceBlink || s == LedState::PatientBlink
}

/// Whether a status holds for a fixed duration and then reverts.
pub open spec fn holding(s: LedState) -> bool {
    s == LedState::Success || s == LedState::Failure
}

/// A two-phase blink pattern: stay on for `on_ms`, then off for `off_ms`.
#[derive(Clone, Copy, PartialEq, Eq, Structural, Debug)]
pub struct BlinkPattern {
    pub on_ms: u64,
    pub off_ms: u64,
}

/// The blink pattern each status is rendered with.
pub open spec fn pattern_of(s: LedState) -> BlinkPattern {
    match s {
        LedState::PresenceBlink => BlinkPattern { on_ms: 30, off_ms: 3000 },
        LedState::PatientBlink => BlinkPattern { on_ms: 500, off_ms: 1000 },
        LedState::RapidBlink => BlinkPattern { on_ms: 100, off_ms: 100 },
        LedState::Success => BlinkPattern { on_ms: 3000, off_ms: 0 },
        LedState::Failure => BlinkPattern { on_ms: 30, off_ms: 70 },
        LedState::ViolentBlink => BlinkPattern { on_ms: 30, off_ms: 70 },
    }
}

/// Whether a status is persistent (executable form of `persistent`).
pub fn is_persistent(s: LedState) -> (r: bool)
    ensures
        r == persistent(s),
{
    match s {
        LedState::PresenceBlink => true,
        LedState::PatientBlink => true,
        _ => false,
    }
}

/// Whether a status is a holding outcome (executable form of `holding`).
pub fn is_holding(s: LedState) -> (r: bool)
    ensures
        r == holding(s),
{
    match s {
        LedState::Success => true,
        LedState::Failure => true,
        _ => false,
    }
}

/// The blink pattern of a status (executable form of `pattern_of`).
pub fn blink_pattern(s: LedState) -> (p: BlinkPattern)
    ensures
        p == pattern_of(s),
{
    match s {
        LedState::PresenceBlink => BlinkPattern { on_ms: 30, off_ms: 3000 },
        LedState::PatientBlink => BlinkPattern { on_ms: 500, off_ms: 1000 },
        LedState::RapidBlink => BlinkPattern { on_ms: 100, off_ms: 100 },
        LedState::Success => BlinkPattern { on_ms: 3000, off_ms: 0 },
        LedState::Failure => BlinkPattern { on_ms: 30, off_ms: 70 },
        LedState::ViolentBlink => BlinkPattern { on_ms: 30, off_ms: 70 },
    }
}

/// The level a pattern phase drives an active-low output pin to: the
/// indicator is on when the pin is driven low.
pub fn active_low_level(on: bool) -> (low: bool)
    ensures
        low == on,
{
    on
}

/// The last-write-wins notification signal that drives the indicator: a
/// single slot, written by any task without blocking, where a new write
/// replaces an unconsumed one rather than queueing behind it.
pub struct StatusSignal {
    slot: Option<LedState>,
}

impl StatusSignal {
    /// The status written most recently and not yet consumed, if any.
    pub closed spec fn pending(self) -> Option<LedState> {
        self.slot
    }

    /// What one write leaves in the slot, whatever was there before.
    pub closed spec fn spec_set(self, state: LedState) -> StatusSignal {
        StatusSignal { slot: Some(state) }
    }

    /// A signal with nothing pending.
    pub fn new() -> (s: StatusSignal)
        ensures
            s.pending() is None,
    {
        StatusSignal { slot: None }
    }

    /// Write a status: non-blocking, last write wins.
    pub fn set(&mut self, state: LedState)
        ensures
            *final(self) == old(self).spec_set(state),
            final(self).pending() == Some(state),
    {
        self.slot = Some(state);
    }

    /// Consume the pending status, if any, leaving the slot empty.
    pub fn try_take(&mut self) -> (r: Option<LedState>)
        ensures
            r == old(self).pending(),
            final(self).pending() is None,
    {
        let r = self.slot;
        self.slot = None;
        r
    }
}

/// Change the indicator's behavior from anywhere: overwrite the signal's
/// pending value without blocking.
pub fn set_led_state(signal: &mut StatusSignal, state: LedState)
    ensures
        *final(signal) == old(signal).spec_set(state),
        final(signal).pending() == Some(state),
{
    signal.set(state);
}

/// The signal after a sequence of writes, oldest first.
pub closed spec fn apply_writes(sig: StatusSignal, writes: Seq<LedState>) -> StatusSignal
    decreases writes.len(),
{
    if writes.len() == 0 {
        sig
    } else {
        apply_writes(sig.spec_set(writes[0]), writes.drop_first())
    }
}

/// Law: the signal holds no backlog — after any non-empty sequence of writes,
/// only the most recent one is observable.
pub proof fn lemma_signal_last_write_wins(sig: StatusSignal, writes: Seq<LedState>)
    requires
        writes.len() > 0,
    ensures
        apply_writes(sig, writes).pending() == Some(writes.last()),
    decreases writes.len(),
{
    if writes.len() == 1 {
        assert(apply_writes(sig, writes) == apply_writes(
            sig.spec_set(writes[0]),
            writes.drop_first(),
        ));
    } else {
        lemma_signal_last_write_wins(sig.spec_set(writes[0]), writes.drop_first());
        assert(writes.drop_first().last() == writes.last());
    }
}

/// One render-loop decision: either blink one pattern cycle, racing each
/// phase against the signal so a new status preempts it immediately, or hold
/// the pattern for `hold_ms` without consulting the signal.
#[derive(Clone, Copy, PartialEq, Eq, Structural, Debug)]
pub enum RenderCommand {
    Preemptible { pattern: BlinkPattern },
    Hold { pattern: BlinkPattern, hold_ms: u64 },
}

/// The command a status is rendered by: holding outcomes are uninterruptible
/// for `HOLD_MILLIS`; every other status is preemptible mid-blink.
pub open spec fn render_command_of(s: LedState) -> RenderCommand {
    if holding(s) {
        RenderCommand::Hold { pattern: pattern_of(s), hold_ms: HOLD_MILLIS }
    } else {
        RenderCommand::Preemptible { pattern: pattern_of(s) }
    }
}

/// The indicator state machine: the status being rendered, plus the most
/// recently set persistent status, which a held outcome reverts to.
pub struct Indicator {
    /// The status the render loop is showing.
    pub current: LedState,
    /// The persistent status to revert to after a held outcome. Updated only
    /// when a persistent status is rendered.
    pub last_persistent: LedState,
}

impl Indicator {
    /// The revert target is always itself a persistent status.
    pub open spec fn wf(self) -> bool {
        persistent(self.last_persistent)
    }

    /// Recording the rendered status: a persistent status becomes the revert
    /// target; anything else leaves it alone.
    pub open spec fn spec_note_persistent(self) -> Indicator {
        if persistent(self.current) {
            Indicator { current: self.current, last_persistent: self.current }
        } else {
            self
        }
    }

    /// Adopting a newly signalled status, superseding whatever was showing.
    pub open spec fn spec_adopt(self, s: LedState) -> Indicator {
        Indicator { current: s, last_persistent: self.last_persistent }
    }

    /// The end of a hold: unconditionally revert to the last persistent
    /// status.
    pub open spec fn spec_finish_hold(self) -> Indicator {
        Indicator { current: self.last_persistent, last_persistent: self.last_persistent }
    }

    /// A fresh indicator: link establishment is the first thing the device
    /// shows.
    pub fn new() -> (ind: Indicator)
        ensures
            ind.current == LedState::PatientBlink,
            ind.last_persistent == LedState::PatientBlink,
            ind.wf(),
    {
        Indicator { current: LedState::PatientBlink, last_persistent: LedState::PatientBlink }
    }

    /// Start one render iteration: record the rendered status if it is
    /// persistent, and say how to render it — a hold for `HOLD_MILLIS` for a
    /// holding outcome, a preemptible blink cycle for everything else.
    pub fn begin_render(&mut self) -> (cmd: RenderCommand)
        ensures
            *final(self) == old(self).spec_note_persistent(),
            cmd == render_command_of(old(self).current),
    {
        let cur = self.current;
        if is_persistent(cur) {
            self.last_persistent = cur;
        }
        let pattern = blink_pattern(cur);
        if is_holding(cur) {
            RenderCommand::Hold { pattern, hold_ms: HOLD_MILLIS }
        } else {
            RenderCommand::Preemptible { pattern }
        }
    }

    /// Adopt a newly signalled status, abandoning the rest of the current
    /// blink cycle.
    pub fn adopt(&mut self, s: LedState)
        ensures
            *final(self) == old(self).spec_adopt(s),
    {
        self.current = s;
    }

    /// End a hold: revert to the last persistent status.
    pub fn finish_hold(&mut self)
        ensures
            *final(self) == old(self).spec_finish_hold(),
    {
        self.current = self.last_persistent;
    }
}

/// Law: every transition of the indicator keeps the revert target a
/// persistent status.
pub proof fn lemma_indicator_transitions_preserve_wf(ind: Indicator, s: LedState)
    requires
        ind.wf(),
    ensures
        ind.spec_note_persistent().wf(),
        ind.spec_adopt(s).wf(),
        ind.spec_finish_hold().wf(),
{
}

/// Law: with no holding status involved, the indicator always renders the
/// most recently set status — after any non-empty sequence of non-holding
/// writes to the signal, adopting what the signal holds renders exactly the
/// last write's pattern, preemptibly.
pub proof fn lemma_latest_status_wins(sig: StatusSignal, writes: Seq<LedState>, ind: Indicator)
    requires
        writes.len() > 0,
        forall|i: int| 0 <= i < writes.len() ==> !holding(#[trigger] writes[i]),
    ensures
        apply_writes(sig, writes).pending() == Some(writes.last()),
        ({
            let next = ind.spec_adopt(writes.last()).spec_note_persistent();
            render_command_of(next.current) == RenderCommand::Preemptible {
                pattern: pattern_of(writes.last()),
            }
        }),
{
    lemma_signal_last_write_wins(sig, writes);
    assert(!holding(writes[writes.len() - 1]));
}

/// Law: a holding outcome is shown for exactly `HOLD_MILLIS` and then the
/// indicator reverts to the persistent status recorded before the hold began;
/// adopting the outcome never disturbs that revert target.
pub proof fn lemma_hold_then_revert(ind: Indicator, outcome: LedState)
    requires
        holding(outcome),
    ensures
        ({
            let at_hold = ind.spec_adopt(outcome).spec_note_persistent();
            &&& at_hold.last_persistent == ind.last_persistent
            &&& render_command_of(at_hold.current) == RenderCommand::Hold {
                pattern: pattern_of(outcome),
                hold_ms: HOLD_MILLIS,
            }
            &&& at_hold.spec_finish_hold().current == ind.last_persistent
        }),
{
}

} // verus!
