//! The input edge tracker: raw press and release events become, for every
//! logical button, the flags *active*, *just activated* and *just
//! released*, and the four directional keys become an analog direction.

use vstd::prelude::*;

verus! {

/// Whether a device event reports a key going down or coming up.
#[derive(Clone, Copy, Debug, PartialEq, Eq, Structural)]
pub enum ButtonState {
    Pressed,
    Released,
}

/// One event of the keyboard's event queue.
#[derive(Clone, Copy, Debug, PartialEq, Eq, Structural)]
pub struct KeyEvent {
    /// Code of the key, as the device numbers it.
    pub key: u32,
    pub state: ButtonState,
}

/// A logical button bound to the key with this code.
#[derive(Clone, Copy, Debug, PartialEq, Eq, Structural)]
pub struct KeyboardAction(pub u32);

/// A logical button bound to the mouse button with this code.
#[derive(Clone, Copy, Debug, PartialEq, Eq, Structural)]
pub struct MouseAction(pub u32);

/// The four keys of the analog direction: up, down, right, left.
#[derive(Clone, Copy, Debug, PartialEq, Eq, Structural)]
pub struct KeyboardAnalog(pub u32, pub u32, pub u32, pub u32);

/// An analog direction: horizontal part, then vertical part, each of
/// them -1, 0 or 1.
#[derive(Clone, Copy, Debug, PartialEq, Eq, Structural)]
pub struct Analog(pub i8, pub i8);

/// The edge flags of one logical button for the current tick.
#[derive(Clone, Copy, Debug, PartialEq, Eq, Structural)]
pub struct EdgeState {
    /// The button is held.
    pub active: bool,
    /// The button went from not held to held during this tick.
    pub just_activated: bool,
    /// The button went from held to not held during this tick.
    pub just_released: bool,
}

impl EdgeState {
    /// The flags after the button goes down: a rising edge only if it was
    /// not held.
    pub open spec fn pressed(self) -> EdgeState {
        if self.active {
            self
        } else {
            EdgeState { active: true, just_activated: true, ..self }
        }
    }

    /// The flags after the button comes up: a falling edge only if it was
    /// held.
    pub open spec fn let_go(self) -> EdgeState {
        if self.active {
            EdgeState { active: false, just_released: true, ..self }
        } else {
            self
        }
    }

    /// The flags after a polled device reports the button as held or not.
    pub open spec fn sampled(self, held: bool) -> EdgeState {
        if held {
            self.pressed()
        } else {
            self.let_go()
        }
    }

    /// The flags carried over a tick boundary: both edges are gone, the
    /// held state stays.
    pub open spec fn cleared(self) -> EdgeState {
        EdgeState { active: self.active, just_activated: false, just_released: false }
    }

    /// The flags after one keyboard event, for a button bound to `key`.
    pub open spec fn after_event(self, key: u32, event: KeyEvent) -> EdgeState {
        if event.key != key {
            self
        } else {
            match event.state {
                ButtonState::Pressed => self.pressed(),
                ButtonState::Released => self.let_go(),
            }
        }
    }

    /// A button that is not held and shows no edge.
    pub open spec fn spec_new() -> EdgeState {
        EdgeState { active: false, just_activated: false, just_released: false }
    }

    /// A button that is not held and shows no edge.
    #[verifier::when_used_as_spec(spec_new)]
    pub fn new() -> (state: EdgeState)
        ensures
            state == Self::spec_new(),
    {
        EdgeState { active: false, just_activated: false, just_released: false }
    }

    /// The button goes down.
    pub fn press(self) -> (state: EdgeState)
        ensures
            state == self.pressed(),
    {
        if self.active {
            self
        } else {
            EdgeState { active: true, just_activated: true, just_released: self.just_released }
        }
    }

    /// The button comes up.
    pub fn release(self) -> (state: EdgeState)
        ensures
            state == self.let_go(),
    {
        if self.active {
            EdgeState { active: false, just_activated: self.just_activated, just_released: true }
        } else {
            self
        }
    }

    /// A polled device reports the button as held or not.
    pub fn sample(self, held: bool) -> (state: EdgeState)
        ensures
            state == self.sampled(held),
    {
        if held {
            self.press()
        } else {
            self.release()
        }
    }

    /// Carries the flags over a tick boundary.
    pub fn clear(self) -> (state: EdgeState)
        ensures
            state == self.cleared(),
    {
        EdgeState { active: self.active, just_activated: false, just_released: false }
    }

    /// Applies one keyboard event to a button bound to `key`.
    pub fn apply(self, key: u32, event: KeyEvent) -> (state: EdgeState)
        ensures
            state == self.after_event(key, event),
    {
        if event.key != key {
            self
        } else {
            match event.state {
                ButtonState::Pressed => self.press(),
                ButtonState::Released => self.release(),
            }
        }
    }
}

/// The flags of a button bound to `key` after the events of one tick,
/// applied in the order in which they arrived.
pub open spec fn spec_keyboard_action(state: EdgeState, key: u32, events: Seq<KeyEvent>) -> EdgeState
    decreases events.len(),
{
    if events.len() == 0 {
        state
    } else {
        spec_keyboard_action(state, key, events.drop_last()).after_event(key, events.last())
    }
}

/// Applies the keyboard events of one tick, in arrival order, to the
/// button that `binding` ties to a key. Events of other keys leave it as
/// it is.
pub fn keyboard_action(state: &mut EdgeState, binding: KeyboardAction, events: &Vec<KeyEvent>)
    ensures
        *final(state) == spec_keyboard_action(*old(state), binding.0, events@),
{
    let mut i: usize = 0;
    while i < events.len()
        invariant
            i <= events.len(),
            *state == spec_keyboard_action(*old(state), binding.0, events@.subrange(0, i as int)),
        decreases events.len() - i,
    {
        assert(events@.subrange(0, i + 1).drop_last() == events@.subrange(0, i as int));
        *state = state.apply(binding.0, events[i]);
        i = i + 1;
    }
    assert(events@.subrange(0, i as int) == events@);
}

/// Whether the polled device reports the button with this code as held.
pub fn is_held(held: &Vec<u32>, button: u32) -> (found: bool)
    ensures
        found == held@.contains(button),
{
    let mut i: usize = 0;
    while i < held.len()
        invariant
            i <= held.len(),
            forall|j: int| 0 <= j < i ==> held@[j] != button,
        decreases held.len() - i,
    {
        if held[i] == button {
            return true;
        }
        i = i + 1;
    }
    false
}

/// Samples the polled device for the button that `binding` ties to a
/// mouse button: `held` lists the buttons that are down now.
pub fn mouse_action(state: &mut EdgeState, binding: MouseAction, held: &Vec<u32>)
    ensures
        *final(state) == old(state).sampled(held@.contains(binding.0)),
{
    let down = is_held(held, binding.0);
    *state = state.sample(down);
}

/// One axis of the analog direction, driven by two opposed keys.
#[derive(Clone, Copy, Debug, PartialEq, Eq, Structural)]
pub struct Axis {
    /// Flags of the key that pushes the axis to 1.
    pub positive: EdgeState,
    /// Flags of the key that pushes the axis to -1.
    pub negative: EdgeState,
    /// The axis now: -1, 0 or 1.
    pub value: i8,
}

impl Axis {
    /// The axis points only to a pole whose key is held, and rests at 0
    /// exactly when neither key is held.
    pub open spec fn wf(self) -> bool {
        &&& self.value == 1 || self.value == 0 || self.value == -1
        &&& self.value == 1 ==> self.positive.active
        &&& self.value == -1 ==> self.negative.active
        &&& self.value == 0 ==> !self.positive.active && !self.negative.active
    }

    /// The axis after one keyboard event. A key going down takes the axis
    /// to its pole at once. A key coming up matters only if the axis
    /// points to its pole: the axis then falls back to the opposite pole
    /// if that key is held, and to 0 if not.
    pub open spec fn after_event(self, positive_key: u32, negative_key: u32, event: KeyEvent) -> Axis {
        if event.key == positive_key {
            match event.state {
                ButtonState::Pressed => Axis {
                    positive: self.positive.pressed(),
                    value: 1,
                    ..self
                },
                ButtonState::Released => Axis {
                    positive: self.positive.let_go(),
                    value: if self.value != 1 {
                        self.value
                    } else if self.negative.active {
                        -1i8
                    } else {
                        0
                    },
                    ..self
                },
            }
        } else if event.key == negative_key {
            match event.state {
                ButtonState::Pressed => Axis {
                    negative: self.negative.pressed(),
                    value: -1i8,
                    ..self
                },
                ButtonState::Released => Axis {
                    negative: self.negative.let_go(),
                    value: if self.value != -1 {
                        self.value
                    } else if self.positive.active {
                        1
                    } else {
                        0
                    },
                    ..self
                },
            }
        } else {
            self
        }
    }

    /// The axis carried over a tick boundary.
    pub open spec fn cleared(self) -> Axis {
        Axis { positive: self.positive.cleared(), negative: self.negative.cleared(), ..self }
    }

    /// An axis at rest.
    pub open spec fn spec_new() -> Axis {
        Axis { positive: EdgeState::new(), negative: EdgeState::new(), value: 0 }
    }

    /// An axis at rest.
    #[verifier::when_used_as_spec(spec_new)]
    pub fn new() -> (axis: Axis)
        ensures
            axis == Self::spec_new(),
            axis.wf(),
    {
        Axis { positive: EdgeState::new(), negative: EdgeState::new(), value: 0 }
    }

    /// Applies one keyboard event to the axis of the two keys.
    pub fn apply(self, positive_key: u32, negative_key: u32, event: KeyEvent) -> (axis: Axis)
        ensures
            axis == self.after_event(positive_key, negative_key, event),
            self.wf() ==> axis.wf(),
    {
        if event.key == positive_key {
            match event.state {
                ButtonState::Pressed => Axis {
                    positive: self.positive.press(),
                    negative: self.negative,
                    value: 1,
                },
                ButtonState::Released => Axis {
                    positive: self.positive.release(),
                    negative: self.negative,
                    value: if self.value != 1 {
                        self.value
                    } else if self.negative.active {
                        -1
                    } else {
                        0
                    },
                },
            }
        } else if event.key == negative_key {
            match event.state {
                ButtonState::Pressed => Axis {
                    positive: self.positive,
                    negative: self.negative.press(),
                    value: -1,
                },
                ButtonState::Released => Axis {
                    positive: self.positive,
                    negative: self.negative.release(),
                    value: if self.value != -1 {
                        self.value
                    } else if self.positive.active {
                        1
                    } else {
                        0
                    },
                },
            }
        } else {
            self
        }
    }

    /// Carries the axis over a tick boundary.
    pub fn clear(self) -> (axis: Axis)
        ensures
            axis == self.cleared(),
            self.wf() ==> axis.wf(),
    {
        Axis { positive: self.positive.clear(), negative: self.negative.clear(), value: self.value }
    }
}

/// The directional input of one controller: right against left, and up
/// against down.
#[derive(Clone, Copy, Debug, PartialEq, Eq, Structural)]
pub struct Stick {
    /// Right is positive, left is negative.
    pub x: Axis,
    /// Up is positive, down is negative.
    pub y: Axis,
}

impl Stick {
    /// Both axes are well-formed.
    pub open spec fn wf(self) -> bool {
        self.x.wf() && self.y.wf()
    }

    /// The analog direction.
    pub open spec fn spec_analog(self) -> Analog {
        Analog(self.x.value, self.y.value)
    }

    /// Whether any of the four directional keys is held.
    pub open spec fn spec_active(self) -> bool {
        self.x.positive.active || self.x.negative.active || self.y.positive.active
            || self.y.negative.active
    }

    /// The stick after one keyboard event; each axis looks at the event
    /// on its own.
    pub open spec fn after_event(self, keys: KeyboardAnalog, event: KeyEvent) -> Stick {
        Stick {
            x: self.x.after_event(keys.2, keys.3, event),
            y: self.y.after_event(keys.0, keys.1, event),
        }
    }

    /// The stick carried over a tick boundary.
    pub open spec fn cleared(self) -> Stick {
        Stick { x: self.x.cleared(), y: self.y.cleared() }
    }

    /// A stick at rest.
    pub open spec fn spec_new() -> Stick {
        Stick { x: Axis::new(), y: Axis::new() }
    }

    /// A stick at rest.
    #[verifier::when_used_as_spec(spec_new)]
    pub fn new() -> (stick: Stick)
        ensures
            stick == Self::spec_new(),
            stick.wf(),
    {
        Stick { x: Axis::new(), y: Axis::new() }
    }

    /// The analog direction.
    pub fn analog(&self) -> (analog: Analog)
        ensures
            analog == self.spec_analog(),
    {
        Analog(self.x.value, self.y.value)
    }

    /// Whether any of the four directional keys is held.
    pub fn active(&self) -> (held: bool)
        ensures
            held == self.spec_active(),
    {
        self.x.positive.active || self.x.negative.active || self.y.positive.active
            || self.y.negative.active
    }

    /// The analog direction is (0, 0) exactly when no directional key is
    /// held; with both keys of an axis held it is never 0 there.
    pub proof fn law_analog_rests_iff_released(self)
        requires
            self.wf(),
        ensures
            self.spec_analog() == Analog(0, 0) <==> !self.spec_active(),
            self.x.positive.active || self.x.negative.active ==> self.x.value != 0,
            self.y.positive.active || self.y.negative.active ==> self.y.value != 0,
    {
    }
}

/// The stick after the keyboard events of one tick, applied in the order
/// in which they arrived.
pub open spec fn spec_keyboard_analog(stick: Stick, keys: KeyboardAnalog, events: Seq<KeyEvent>) -> Stick
    decreases events.len(),
{
    if events.len() == 0 {
        stick
    } else {
        spec_keyboard_analog(stick, keys, events.drop_last()).after_event(keys, events.last())
    }
}

/// Whatever events arrive, every axis of the stick keeps pointing only
/// to a pole whose key is held, and rests exactly when neither is.
pub proof fn law_stick_stays_well_formed(stick: Stick, keys: KeyboardAnalog, events: Seq<KeyEvent>)
    requires
        stick.wf(),
    ensures
        spec_keyboard_analog(stick, keys, events).wf(),
    decreases events.len(),
{
    if events.len() > 0 {
        law_stick_stays_well_formed(stick, keys, events.drop_last());
    }
}

/// Applies the keyboard events of one tick, in arrival order, to the
/// directional input whose four keys `binding` names. The key pressed
/// last wins its axis; letting it go hands the axis to the opposite key
/// if that one is held, and brings it to rest if not.
pub fn keyboard_analog(stick: &mut Stick, binding: &KeyboardAnalog, events: &Vec<KeyEvent>)
    ensures
        *final(stick) == spec_keyboard_analog(*old(stick), *binding, events@),
        old(stick).wf() ==> final(stick).wf(),
{
    let mut i: usize = 0;
    while i < events.len()
        invariant
            i <= events.len(),
            *stick == spec_keyboard_analog(*old(stick), *binding, events@.subrange(0, i as int)),
            old(stick).wf() ==> stick.wf(),
        decreases events.len() - i,
    {
        assert(events@.subrange(0, i + 1).drop_last() == events@.subrange(0, i as int));
        let event = events[i];
        let x = stick.x.apply(binding.2, binding.3, event);
        let y = stick.y.apply(binding.0, binding.1, event);
        *stick = Stick { x, y };
        i = i + 1;
    }
    assert(events@.subrange(0, i as int) == events@);
}

/// The device signal that a logical button is bound to.
#[derive(Clone, Copy, Debug, PartialEq, Eq, Structural)]
pub enum Signal {
    /// A key, read from the event queue.
    Keyboard(KeyboardAction),
    /// A mouse button, polled once per tick.
    Mouse(MouseAction),
}

/// The bindings of one controller. They do not change once made.
#[derive(Clone, Copy, Debug, PartialEq, Eq, Structural)]
pub struct InputBinding {
    pub movement: KeyboardAnalog,
    pub run: Signal,
    pub attack: Signal,
    pub guard: Signal,
    pub dash: Signal,
}

/// Everything the controller of one character knows about its input in
/// the current tick.
#[derive(Clone, Copy, Debug, PartialEq, Eq, Structural)]
pub struct InputSnapshot {
    pub movement: Stick,
    pub run: EdgeState,
    pub attack: EdgeState,
    pub guard: EdgeState,
    pub dash: EdgeState,
}

/// The flags of a logical button after the input of one tick: the queued
/// events for a key, the polled state for a mouse button.
pub open spec fn spec_button(
    state: EdgeState,
    signal: Signal,
    events: Seq<KeyEvent>,
    held: Seq<u32>,
) -> EdgeState {
    match signal {
        Signal::Keyboard(binding) => spec_keyboard_action(state, binding.0, events),
        Signal::Mouse(binding) => state.sampled(held.contains(binding.0)),
    }
}

/// Brings one logical button up to date with the input of one tick.
pub fn button(state: &mut EdgeState, signal: Signal, events: &Vec<KeyEvent>, held: &Vec<u32>)
    ensures
        *final(state) == spec_button(*old(state), signal, events@, held@),
{
    match signal {
        Signal::Keyboard(binding) => keyboard_action(state, binding, events),
        Signal::Mouse(binding) => mouse_action(state, binding, held),
    }
}

impl InputSnapshot {
    /// The stick is well-formed.
    pub open spec fn wf(self) -> bool {
        self.movement.wf()
    }

    /// The snapshot carried over a tick boundary: every edge is gone,
    /// what is held stays held, and the analog direction stays.
    pub open spec fn cleared(self) -> InputSnapshot {
        InputSnapshot {
            movement: self.movement.cleared(),
            run: self.run.cleared(),
            attack: self.attack.cleared(),
            guard: self.guard.cleared(),
            dash: self.dash.cleared(),
        }
    }

    /// The snapshot after the input of one tick.
    pub open spec fn gathered(
        self,
        binding: InputBinding,
        events: Seq<KeyEvent>,
        held: Seq<u32>,
    ) -> InputSnapshot {
        InputSnapshot {
            movement: spec_keyboard_analog(self.movement, binding.movement, events),
            run: spec_button(self.run, binding.run, events, held),
            attack: spec_button(self.attack, binding.attack, events, held),
            guard: spec_button(self.guard, binding.guard, events, held),
            dash: spec_button(self.dash, binding.dash, events, held),
        }
    }

    /// Nothing held, no edges, the stick at rest.
    pub open spec fn spec_new() -> InputSnapshot {
        InputSnapshot {
            movement: Stick::new(),
            run: EdgeState::new(),
            attack: EdgeState::new(),
            guard: EdgeState::new(),
            dash: EdgeState::new(),
        }
    }

    /// Nothing held, no edges, the stick at rest.
    #[verifier::when_used_as_spec(spec_new)]
    pub fn new() -> (input: InputSnapshot)
        ensures
            input == Self::spec_new(),
            input.wf(),
    {
        InputSnapshot {
            movement: Stick::new(),
            run: EdgeState::new(),
            attack: EdgeState::new(),
            guard: EdgeState::new(),
            dash: EdgeState::new(),
        }
    }

    /// Brings the snapshot up to date with the input of one tick: the
    /// keyboard events in arrival order, and the mouse buttons that are
    /// down now. Each logical button is tracked on its own, also where
    /// two of them are bound to the same key.
    pub fn gather(&mut self, binding: &InputBinding, events: &Vec<KeyEvent>, held: &Vec<u32>)
        ensures
            *final(self) == old(self).gathered(*binding, events@, held@),
            old(self).wf() ==> final(self).wf(),
    {
        keyboard_analog(&mut self.movement, &binding.movement, events);
        button(&mut self.run, binding.run, events, held);
        button(&mut self.attack, binding.attack, events, held);
        button(&mut self.guard, binding.guard, events, held);
        button(&mut self.dash, binding.dash, events, held);
    }
}

/// Ends the tick for the input: removes every *just activated* and *just
/// released* flag. It has to run after everything that reads the edges of
/// the tick.
pub fn clear(input: &mut InputSnapshot)
    ensures
        *final(input) == old(input).cleared(),
        old(input).wf() ==> final(input).wf(),
{
    input.movement = Stick { x: input.movement.x.clear(), y: input.movement.y.clear() };
    input.run = input.run.clear();
    input.attack = input.attack.clear();
    input.guard = input.guard.clear();
    input.dash = input.dash.clear();
}

/// The event of `key` going down.
pub open spec fn press_of(key: u32) -> KeyEvent {
    KeyEvent { key, state: ButtonState::Pressed }
}

/// The event of `key` coming up.
pub open spec fn release_of(key: u32) -> KeyEvent {
    KeyEvent { key, state: ButtonState::Released }
}

/// The flags of a button bound to `key` as the last of a run of ticks
/// sees them: each tick starts from the cleared flags of the tick before
/// it and applies its own events.
pub open spec fn spec_ticks(state: EdgeState, key: u32, ticks: Seq<Seq<KeyEvent>>) -> EdgeState
    decreases ticks.len(),
{
    if ticks.len() == 0 {
        state
    } else {
        spec_keyboard_action(
            spec_ticks(state, key, ticks.drop_last()).cleared(),
            key,
            ticks.last(),
        )
    }
}

/// What a tick without a release of `key` does to a button bound to it:
/// nothing if the button is held already or the key does not go down, and
/// a rising edge otherwise.
pub proof fn lemma_tick_without_release(state: EdgeState, key: u32, events: Seq<KeyEvent>)
    requires
        !events.contains(release_of(key)),
    ensures
        state.active || !events.contains(press_of(key)) ==> spec_keyboard_action(
            state,
            key,
            events,
        ) == state,
        !state.active && events.contains(press_of(key)) ==> spec_keyboard_action(
            state,
            key,
            events,
        ) == state.pressed(),
    decreases events.len(),
{
    if events.len() > 0 {
        let front = events.drop_last();
        let last = events.last();
        assert forall|event: KeyEvent| front.contains(event) implies events.contains(event) by {
            let i = choose|i: int| 0 <= i < front.len() && front[i] == event;
            assert(events[i] == event);
        }
        assert(events[events.len() - 1] == last);
        lemma_tick_without_release(state, key, front);
        if events.contains(press_of(key)) && last != press_of(key) {
            let i = choose|i: int| 0 <= i < events.len() && events[i] == press_of(key);
            assert(front[i] == press_of(key));
        }
    }
}

/// A key that goes down in the first of a run of ticks and is held
/// through all of them shows its button as active in every tick, and as
/// just activated in the first tick only.
pub proof fn law_edge_decay(state: EdgeState, key: u32, ticks: Seq<Seq<KeyEvent>>, n: int)
    requires
        !state.active,
        1 <= n <= ticks.len(),
        ticks[0].contains(press_of(key)),
        forall|i: int| 0 <= i < ticks.len() ==> !(#[trigger] ticks[i]).contains(release_of(key)),
    ensures
        spec_ticks(state, key, ticks.subrange(0, n)).active,
        spec_ticks(state, key, ticks.subrange(0, n)).just_activated <==> n == 1,
    decreases n,
{
    let seen = ticks.subrange(0, n);
    assert(seen.drop_last() == ticks.subrange(0, n - 1));
    assert(seen.last() == ticks[n - 1]);
    let before = spec_ticks(state, key, ticks.subrange(0, n - 1));
    if n == 1 {
        assert(before == state);
    } else {
        law_edge_decay(state, key, ticks, n - 1);
    }
    lemma_tick_without_release(before.cleared(), key, ticks[n - 1]);
}

/// A key that goes down during a tick shows its button as just activated
/// at the end of the tick, whatever else happens to the key in the tick:
/// no press is lost, not even one that is let go at once.
pub proof fn law_press_is_heard(state: EdgeState, key: u32, events: Seq<KeyEvent>)
    requires
        !state.active,
        events.contains(press_of(key)),
    ensures
        spec_keyboard_action(state, key, events).just_activated,
    decreases events.len(),
{
    let front = events.drop_last();
    let last = events.last();
    if front.contains(press_of(key)) {
        law_press_is_heard(state, key, front);
    } else {
        let i = choose|i: int| 0 <= i < events.len() && events[i] == press_of(key);
        if i < events.len() - 1 {
            assert(front[i] == press_of(key));
        }
        lemma_tick_without_press(state, key, front);
    }
}

/// A button that is not held stays as it is while its key does not go
/// down.
pub proof fn lemma_tick_without_press(state: EdgeState, key: u32, events: Seq<KeyEvent>)
    requires
        !state.active,
        !events.contains(press_of(key)),
    ensures
        spec_keyboard_action(state, key, events) == state,
    decreases events.len(),
{
    if events.len() > 0 {
        let front = events.drop_last();
        assert forall|event: KeyEvent| front.contains(event) implies events.contains(event) by {
            let i = choose|i: int| 0 <= i < front.len() && front[i] == event;
            assert(events[i] == event);
        }
        assert(events[events.len() - 1] == events.last());
        lemma_tick_without_press(state, key, front);
    }
}

/// A polled button that is held from one tick to the next is active in
/// both, and just activated only in the first of them.
pub proof fn law_polled_edge_decay(state: EdgeState)
    requires
        !state.active,
    ensures
        state.cleared().sampled(true).active,
        state.cleared().sampled(true).just_activated,
        state.cleared().sampled(true).cleared().sampled(true).active,
        !state.cleared().sampled(true).cleared().sampled(true).just_activated,
{
}

} // verus!
