//! Debounced input source: turns a noisy digital input into a clean,
//! coalesced click-event stream. A falling edge is confirmed by re-sampling
//! after a settle interval; a confirmed press emits exactly one click and
//! nothing more until the input is released; clicks are delivered through a
//! capacity-one mailbox where an unconsumed click suppresses new ones.

use vstd::prelude::*;
use embassy_sync::blocking_mutex::raw::NoopRawMutex;
use embassy_sync::channel::Channel;

verus! {

/// How long the input must stay asserted after a falling edge to count as a
/// real press rather than a bounce, in ms.
pub const DEBOUNCE_SETTLE_MILLIS: u64 = 20;

/// Where the debouncer stands within one press-release cycle.
#[derive(Clone, Copy, PartialEq, Eq, Structural, Debug)]
pub enum DebouncePhase {
    /// Waiting for a falling edge; the input is at its released level.
    Armed,
    /// A falling edge was seen; waiting out the settle interval.
    Settling,
    /// A real press was recognized; waiting for the input to return to its
    /// released level before re-arming, so one press cannot emit twice.
    AwaitRelease,
}

/// What the hardware hands the debouncer at its suspension points.
#[derive(Clone, Copy, PartialEq, Eq, Structural, Debug)]
pub enum ButtonEvent {
    /// The raw input fell: a press, or a bounce.
    FallingEdge,
    /// The settle interval elapsed; `pressed` is the re-sampled level
    /// (true = still asserted).
    SettleElapsed { pressed: bool },
    /// The raw input returned to its released level.
    RoseHigh,
}

/// One debouncer transition: the next phase and whether a click is emitted.
pub open spec fn spec_step(phase: DebouncePhase, ev: ButtonEvent) -> (DebouncePhase, bool) {
    match (phase, ev) {
        (DebouncePhase::Armed, ButtonEvent::FallingEdge) => (DebouncePhase::Settling, false),
        (DebouncePhase::Settling, ButtonEvent::SettleElapsed { pressed }) => if pressed {
            (DebouncePhase::AwaitRelease, true)
        } else {
            (DebouncePhase::Armed, false)
        },
        (DebouncePhase::AwaitRelease, ButtonEvent::RoseHigh) => (DebouncePhase::Armed, false),
        _ => (phase, false),
    }
}

/// The debouncer state machine.
pub struct Debouncer {
    pub phase: DebouncePhase,
}

impl Debouncer {
    /// A fresh debouncer, armed for the next press.
    pub fn new() -> (d: Debouncer)
        ensures
            d.phase == DebouncePhase::Armed,
    {
        Debouncer { phase: DebouncePhase::Armed }
    }

    /// Advance by one hardware event; true means one click is emitted.
    pub fn step(&mut self, ev: ButtonEvent) -> (emit: bool)
        ensures
            (final(self).phase, emit) == spec_step(old(self).phase, ev),
    {
        match (self.phase, ev) {
            (DebouncePhase::Armed, ButtonEvent::FallingEdge) => {
                self.phase = DebouncePhase::Settling;
                false
            },
            (DebouncePhase::Settling, ButtonEvent::SettleElapsed { pressed }) => {
                if pressed {
                    self.phase = DebouncePhase::AwaitRelease;
                    true
                } else {
                    self.phase = DebouncePhase::Armed;
                    false
                }
            },
            (DebouncePhase::AwaitRelease, ButtonEvent::RoseHigh) => {
                self.phase = DebouncePhase::Armed;
                false
            },
            _ => false,
        }
    }
}

/// The phase after a sequence of events, oldest first.
pub open spec fn run_phase(phase: DebouncePhase, events: Seq<ButtonEvent>) -> DebouncePhase
    decreases events.len(),
{
    if events.len() == 0 {
        phase
    } else {
        run_phase(spec_step(phase, events[0]).0, events.drop_first())
    }
}

/// How many clicks a sequence of events emits, oldest first.
pub open spec fn emitted(phase: DebouncePhase, events: Seq<ButtonEvent>) -> nat
    decreases events.len(),
{
    if events.len() == 0 {
        0
    } else {
        (if spec_step(phase, events[0]).1 {
            1nat
        } else {
            0nat
        }) + emitted(spec_step(phase, events[0]).0, events.drop_first())
    }
}

/// A genuine press-release cycle: a falling edge, a settle re-sample that
/// still finds the input asserted, and the release.
pub open spec fn genuine_cycle() -> Seq<ButtonEvent> {
    seq![
        ButtonEvent::FallingEdge,
        ButtonEvent::SettleElapsed { pressed: true },
        ButtonEvent::RoseHigh,
    ]
}

/// A sub-threshold bounce: a falling edge whose settle re-sample finds the
/// input released again.
pub open spec fn bounce() -> Seq<ButtonEvent> {
    seq![ButtonEvent::FallingEdge, ButtonEvent::SettleElapsed { pressed: false }]
}

/// Law: running events in two batches is running them in one.
pub proof fn lemma_run_append(phase: DebouncePhase, a: Seq<ButtonEvent>, b: Seq<ButtonEvent>)
    ensures
        run_phase(phase, a + b) == run_phase(run_phase(phase, a), b),
        emitted(phase, a + b) == emitted(phase, a) + emitted(run_phase(phase, a), b),
    decreases a.len(),
{
    if a.len() == 0 {
        assert(a + b =~= b);
    } else {
        lemma_run_append(spec_step(phase, a[0]).0, a.drop_first(), b);
        assert((a + b).drop_first() =~= a.drop_first() + b);
    }
}

/// Law: from the armed phase, one genuine press-release cycle emits exactly
/// one click and re-arms; one sub-threshold bounce emits none and re-arms.
pub proof fn lemma_cycle_and_bounce()
    ensures
        run_phase(DebouncePhase::Armed, genuine_cycle()) == DebouncePhase::Armed,
        emitted(DebouncePhase::Armed, genuine_cycle()) == 1,
        run_phase(DebouncePhase::Armed, bounce()) == DebouncePhase::Armed,
        emitted(DebouncePhase::Armed, bounce()) == 0,
{
    reveal_with_fuel(run_phase, 4);
    reveal_with_fuel(emitted, 4);
    let c = genuine_cycle();
    assert(c.drop_first() =~= seq![
        ButtonEvent::SettleElapsed { pressed: true },
        ButtonEvent::RoseHigh,
    ]);
    assert(c.drop_first().drop_first() =~= seq![ButtonEvent::RoseHigh]);
    assert(c.drop_first().drop_first().drop_first() =~= Seq::<ButtonEvent>::empty());
    let b = bounce();
    assert(b.drop_first() =~= seq![ButtonEvent::SettleElapsed { pressed: false }]);
    assert(b.drop_first().drop_first() =~= Seq::<ButtonEvent>::empty());
}

/// How many of the parts are genuine cycles.
pub open spec fn genuine_count(parts: Seq<Seq<ButtonEvent>>) -> nat
    decreases parts.len(),
{
    if parts.len() == 0 {
        0
    } else {
        (if parts[0] == genuine_cycle() {
            1nat
        } else {
            0nat
        }) + genuine_count(parts.drop_first())
    }
}

/// Law: for any sequence of raw input activity made of genuine press-release
/// cycles and sub-threshold bounces, exactly one click is emitted per genuine
/// cycle and none for a bounce.
pub proof fn lemma_one_click_per_genuine_press(parts: Seq<Seq<ButtonEvent>>)
    requires
        forall|i: int| 0 <= i < parts.len() ==> (#[trigger] parts[i] == genuine_cycle() || parts[i]
            == bounce()),
    ensures
        run_phase(DebouncePhase::Armed, parts.flatten()) == DebouncePhase::Armed,
        emitted(DebouncePhase::Armed, parts.flatten()) == genuine_count(parts),
    decreases parts.len(),
{
    if parts.len() == 0 {
        assert(parts.flatten() =~= Seq::<ButtonEvent>::empty());
    } else {
        assert(parts.flatten() == parts[0] + parts.drop_first().flatten());
        lemma_cycle_and_bounce();
        lemma_run_append(DebouncePhase::Armed, parts[0], parts.drop_first().flatten());
        lemma_one_click_per_genuine_press(parts.drop_first());
    }
}

/// The click mailbox: capacity one, non-blocking. An unconsumed click
/// suppresses new ones rather than queueing them, so the consumer sees at
/// most one pending event however fast the presses come. Backed by an
/// embassy-sync channel, opaque here: `pending_clicks` names what it holds.
#[verifier::external_body]
pub struct ClickChannel {
    ch: Channel<NoopRawMutex, (), 1>,
}

/// What the click mailbox's backing channel holds.
pub uninterp spec fn pending_clicks(c: ClickChannel) -> Seq<()>;

impl ClickChannel {
    /// An empty click mailbox.
    ///
    /// Relies on embassy_sync::channel::Channel::new: a fresh channel holds
    /// nothing.
    #[verifier::external_body]
    pub fn new() -> (c: ClickChannel)
        ensures
            pending_clicks(c) == Seq::<()>::empty(),
    {
        ClickChannel { ch: Channel::new() }
    }

    /// Offer one click without blocking: accepted when nothing is pending,
    /// dropped when the previous click has not been drained yet.
    ///
    /// Relies on embassy_sync::channel::Channel::try_send: pushes when the
    /// queue is below its capacity of one, and returns `TrySendError::Full`,
    /// leaving the queue unchanged, when it is not.
    #[verifier::external_body]
    pub fn offer(&mut self) -> (accepted: bool)
        ensures
            pending_clicks(*old(self)).len() == 0 ==> (accepted && pending_clicks(*final(self))
                == pending_clicks(*old(self)).push(())),
            pending_clicks(*old(self)).len() >= 1 ==> (!accepted && pending_clicks(*final(self))
                == pending_clicks(*old(self))),
    {
        self.ch.try_send(()).is_ok()
    }

    /// Drain the pending click, if any, without blocking.
    ///
    /// Relies on embassy_sync::channel::Channel::try_receive: pops the front
    /// of the queue, or returns `TryReceiveError::Empty` when it holds
    /// nothing.
    #[verifier::external_body]
    pub fn try_take(&mut self) -> (had: bool)
        ensures
            pending_clicks(*old(self)).len() == 0 ==> (!had && pending_clicks(*final(self))
                == pending_clicks(*old(self))),
            pending_clicks(*old(self)).len() >= 1 ==> (had && pending_clicks(*final(self))
                == pending_clicks(*old(self)).drop_first()),
    {
        self.ch.try_receive().is_ok()
    }
}

/// One pass of the input task: advance the debouncer by the event the
/// hardware delivered, and publish a click when a real press completes. A
/// click that finds the previous one still pending is dropped, not queued.
pub fn process_button_event(d: &mut Debouncer, clicks: &mut ClickChannel, ev: ButtonEvent) -> (emit:
    bool)
    ensures
        (final(d).phase, emit) == spec_step(old(d).phase, ev),
        !emit ==> pending_clicks(*final(clicks)) == pending_clicks(*old(clicks)),
        emit && pending_clicks(*old(clicks)).len() == 0 ==> pending_clicks(*final(clicks))
            == pending_clicks(*old(clicks)).push(()),
        emit && pending_clicks(*old(clicks)).len() >= 1 ==> pending_clicks(*final(clicks))
            == pending_clicks(*old(clicks)),
{
    let emit = d.step(ev);
    if emit {
        let _ = clicks.offer();
    }
    emit
}

/// The click mailbox contents after a number of emitted clicks with no
/// consumer draining any.
pub open spec fn apply_presses(contents: Seq<()>, presses: nat) -> Seq<()>
    decreases presses,
{
    if presses == 0 {
        contents
    } else {
        apply_presses(
            if contents.len() == 0 {
                contents.push(())
            } else {
                contents
            },
            (presses - 1) as nat,
        )
    }
}

/// Law: clicks coalesce — however many presses arrive with no consumption
/// between them, at most one click is pending.
pub proof fn lemma_clicks_coalesce(contents: Seq<()>, presses: nat)
    requires
        contents.len() <= 1,
    ensures
        apply_presses(contents, presses).len() <= 1,
    decreases presses,
{
    if presses > 0 {
        if contents.len() == 0 {
            lemma_clicks_coalesce(contents.push(()), (presses - 1) as nat);
        } else {
            lemma_clicks_coalesce(contents, (presses - 1) as nat);
        }
    }
}

} // verus!
