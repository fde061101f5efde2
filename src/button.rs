//! Classification of button presses into short and long presses.
//!
//! After a press (falling edge) the runtime races the release (rising edge)
//! against a fixed timeout: a release first is a short press, the timeout
//! first a long press. Each press cycle yields exactly one event.

use vstd::prelude::*;

verus! {

/// How long a press must be held to count as long, in milliseconds.
pub const LONG_PRESS_MS: u64 = 1000;

/// The events a press cycle produces.
#[derive(Clone, Copy, Debug, PartialEq, Eq, Structural)]
pub enum ButtonEvent {
    ButtonShort,
    ButtonLong,
}

/// What the classifier is waiting for.
#[derive(Clone, Copy, Debug, PartialEq, Eq, Structural)]
pub enum ClassifierState {
    /// Waiting for a press.
    Idle,
    /// Pressed: racing the release against the timeout.
    Pressed,
    /// The receiver of the events is gone; the task has ended.
    Stopped,
}

/// What the runtime observed.
#[derive(Clone, Copy, Debug, PartialEq, Eq, Structural)]
pub enum ButtonInput {
    /// Falling edge: the button went down.
    Pressed,
    /// Rising edge: the button came up.
    Released,
    /// The long-press timeout elapsed before a release.
    TimedOut,
    /// Delivering the last event failed.
    SendFailed,
}

/// The classifier's transition: the next state and the event to deliver.
pub open spec fn spec_classify(s: ClassifierState, i: ButtonInput) -> (ClassifierState, Option<ButtonEvent>) {
    match (s, i) {
        (ClassifierState::Stopped, _) => (ClassifierState::Stopped, None),
        (_, ButtonInput::SendFailed) => (ClassifierState::Stopped, None),
        (ClassifierState::Idle, ButtonInput::Pressed) => (ClassifierState::Pressed, None),
        (ClassifierState::Pressed, ButtonInput::Released) =>
            (ClassifierState::Idle, Some(ButtonEvent::ButtonShort)),
        (ClassifierState::Pressed, ButtonInput::TimedOut) =>
            (ClassifierState::Idle, Some(ButtonEvent::ButtonLong)),
        _ => (s, None),
    }
}

/// The events delivered along a run of inputs from state `s`.
pub open spec fn spec_events(s: ClassifierState, inputs: Seq<ButtonInput>) -> Seq<ButtonEvent>
    decreases inputs.len(),
{
    if inputs.len() == 0 {
        Seq::empty()
    } else {
        let (next, out) = spec_classify(s, inputs[0]);
        let rest = spec_events(next, inputs.drop_first());
        match out {
            Some(ev) => seq![ev] + rest,
            None => rest,
        }
    }
}

/// The event for a press held `held_ms` milliseconds: short below the
/// timeout, long from it on.
pub open spec fn spec_press_kind(held_ms: u64) -> ButtonEvent {
    if held_ms < LONG_PRESS_MS {
        ButtonEvent::ButtonShort
    } else {
        ButtonEvent::ButtonLong
    }
}

/// The input the race reports for a press held `held_ms` milliseconds.
pub open spec fn spec_race_input(held_ms: u64) -> ButtonInput {
    if held_ms < LONG_PRESS_MS {
        ButtonInput::Released
    } else {
        ButtonInput::TimedOut
    }
}

/// The edge classifier's state machine.
pub struct Classifier {
    pub state: ClassifierState,
}

impl Classifier {
    /// A classifier waiting for the first press.
    pub fn new() -> (r: Classifier)
        ensures
            r.state == ClassifierState::Idle,
    {
        Classifier { state: ClassifierState::Idle }
    }

    /// Takes one observation and returns the event to deliver, if any.
    pub fn feed(&mut self, input: ButtonInput) -> (r: Option<ButtonEvent>)
        ensures
            (final(self).state, r) == spec_classify(old(self).state, input),
    {
        let (next, out) = match (self.state, input) {
            (ClassifierState::Stopped, _) => (ClassifierState::Stopped, None),
            (_, ButtonInput::SendFailed) => (ClassifierState::Stopped, None),
            (ClassifierState::Idle, ButtonInput::Pressed) => (ClassifierState::Pressed, None),
            (ClassifierState::Pressed, ButtonInput::Released) => {
                (ClassifierState::Idle, Some(ButtonEvent::ButtonShort))
            },
            (ClassifierState::Pressed, ButtonInput::TimedOut) => {
                (ClassifierState::Idle, Some(ButtonEvent::ButtonLong))
            },
            _ => (self.state, None),
        };
        self.state = next;
        out
    }

    /// True while the classifier still runs.
    pub fn is_running(&self) -> (r: bool)
        ensures
            r == (self.state != ClassifierState::Stopped),
    {
        self.state != ClassifierState::Stopped
    }
}

/// The outcome of the release/timeout race for a press held `held_ms`
/// milliseconds.
pub fn race_input(held_ms: u64) -> (r: ButtonInput)
    ensures
        r == spec_race_input(held_ms),
{
    if held_ms < LONG_PRESS_MS {
        ButtonInput::Released
    } else {
        ButtonInput::TimedOut
    }
}

/// A press cycle from idle (press, then the race's outcome) yields exactly
/// one event, short for a hold under the timeout and long from it on, and
/// leaves the classifier idle again.
pub proof fn lemma_one_event_per_press(held_ms: u64)
    ensures
        ({
            let (pressed, first) = spec_classify(ClassifierState::Idle, ButtonInput::Pressed);
            let (after, second) = spec_classify(pressed, spec_race_input(held_ms));
            &&& first is None
            &&& second == Some(spec_press_kind(held_ms))
            &&& after == ClassifierState::Idle
        }),
        spec_events(ClassifierState::Idle, seq![ButtonInput::Pressed, spec_race_input(held_ms)])
            == seq![spec_press_kind(held_ms)],
{
    let inputs = seq![ButtonInput::Pressed, spec_race_input(held_ms)];
    assert(inputs.drop_first().drop_first() =~= Seq::<ButtonInput>::empty());
    assert(inputs.drop_first()[0] == spec_race_input(held_ms));
    assert(spec_events(ClassifierState::Idle, inputs.drop_first().drop_first()) =~= Seq::<
        ButtonEvent,
    >::empty());
    assert(spec_events(ClassifierState::Pressed, inputs.drop_first()) =~= seq![
        spec_press_kind(held_ms),
    ] + Seq::<ButtonEvent>::empty());
    assert(seq![spec_press_kind(held_ms)] + Seq::<ButtonEvent>::empty() =~= seq![
        spec_press_kind(held_ms),
    ]);
}

/// Any run of press cycles from idle yields one event per cycle, in order.
pub proof fn lemma_press_cycles(holds: Seq<u64>, inputs: Seq<ButtonInput>)
    requires
        inputs.len() == 2 * holds.len(),
        forall|k: int|
            0 <= k < holds.len() ==> inputs[2 * k] == ButtonInput::Pressed && inputs[2 * k + 1]
                == spec_race_input(#[trigger] holds[k]),
    ensures
        spec_events(ClassifierState::Idle, inputs) == holds.map_values(|h: u64| spec_press_kind(h)),
    decreases holds.len(),
{
    if holds.len() == 0 {
        assert(holds.map_values(|h: u64| spec_press_kind(h)) =~= Seq::<ButtonEvent>::empty());
    } else {
        let rest_h = holds.drop_first();
        let rest_i = inputs.drop_first().drop_first();
        assert forall|k: int| 0 <= k < rest_h.len() implies rest_i[2 * k] == ButtonInput::Pressed
            && rest_i[2 * k + 1] == spec_race_input(#[trigger] rest_h[k]) by {
            assert(rest_h[k] == holds[k + 1]);
            assert(rest_i[2 * k] == inputs[2 * (k + 1)]);
            assert(rest_i[2 * k + 1] == inputs[2 * (k + 1) + 1]);
        }
        lemma_press_cycles(rest_h, rest_i);
        assert(inputs[0] == ButtonInput::Pressed);
        assert(inputs[1] == spec_race_input(holds[0]));
        assert(inputs.drop_first()[0] == inputs[1]);
        assert(inputs.drop_first().drop_first() == rest_i);
        assert(spec_events(ClassifierState::Pressed, inputs.drop_first()) == seq![
            spec_press_kind(holds[0]),
        ] + spec_events(ClassifierState::Idle, rest_i));
        assert(spec_events(ClassifierState::Idle, inputs) == spec_events(
            ClassifierState::Pressed,
            inputs.drop_first(),
        ));
        assert(holds.map_values(|h: u64| spec_press_kind(h)) =~= seq![spec_press_kind(holds[0])]
            + rest_h.map_values(|h: u64| spec_press_kind(h)));
    }
}

} // verus!
