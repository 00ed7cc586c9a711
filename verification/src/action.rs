//! The action state machine: which action a character is in, and which
//! one follows on input and on the end of an animation.
//!
//! Guard is a committed action like an attack or a dash: it plays its
//! animation once and ends with it, however long the button is held.

use crate::input::InputSnapshot;
use crate::player::{set_movement, spec_set_movement, Movement};
use crate::sprite_sheet::PlaybackMode;
use vstd::prelude::*;

verus! {

/// The highest step of an attack combo.
pub const MAX_COMBO: u8 = 3;

/// The side a character looks to.
#[derive(Clone, Copy, Debug, PartialEq, Eq, Structural)]
pub enum Facing {
    Left,
    Right,
}

impl Facing {
    /// 1 for right, -1 for left.
    pub open spec fn spec_sign(self) -> i8 {
        match self {
            Facing::Right => 1i8,
            Facing::Left => -1i8,
        }
    }

    /// 1 for right, -1 for left.
    #[verifier::when_used_as_spec(spec_sign)]
    pub fn sign(self) -> (sign: i8)
        ensures
            sign == self.spec_sign(),
    {
        match self {
            Facing::Right => 1,
            Facing::Left => -1,
        }
    }
}

/// What a character is doing. It is always doing exactly one of these.
#[derive(Clone, Copy, Debug, PartialEq, Eq, Structural)]
pub enum Action {
    Idle,
    /// Walking, or running while the run button is held.
    Locomotion { running: bool },
    /// Swinging; `combo` counts the swings of the combo, from 1.
    Attack { combo: u8 },
    Guard,
    Dash,
    /// Dead for good: no action follows it.
    Dead,
}

impl Action {
    /// The combo counter of an attack is 1, 2 or 3.
    pub open spec fn wf(self) -> bool {
        self matches Action::Attack { combo } ==> 1 <= combo <= MAX_COMBO
    }

    /// Whether the action runs to its end before input is heard again:
    /// it ignores the action buttons and keeps the facing locked.
    pub open spec fn spec_committed(self) -> bool {
        self is Attack || self is Guard || self is Dash || self is Dead
    }

    /// How the clip of the action is played: the committed actions play
    /// once, the others loop.
    pub open spec fn spec_playback(self) -> PlaybackMode {
        if self.spec_committed() {
            PlaybackMode::Once
        } else {
            PlaybackMode::Loop
        }
    }

    /// The action that stands for a way of moving.
    pub open spec fn spec_from_movement(movement: Movement) -> Action {
        match movement {
            Movement::Idle => Action::Idle,
            Movement::Walk => Action::Locomotion { running: false },
            Movement::Run => Action::Locomotion { running: true },
        }
    }

    /// The action decided at the start of a tick.
    ///
    /// Death comes first and is final. An attack takes a further attack
    /// press, while the combo window is open and the combo is not at its
    /// last step, as the next step of the combo; guard and dash hear no
    /// input at all. Out of idle and locomotion the attack button wins
    /// over the guard button and that over the dash button; with none of
    /// them pressed the directional input decides between idle, walking
    /// and running.
    pub open spec fn spec_next(self, alive: bool, input: InputSnapshot, window_open: bool) -> Action {
        match self {
            Action::Dead => Action::Dead,
            _ if !alive => Action::Dead,
            Action::Attack { combo } => if input.attack.just_activated && window_open && combo
                < MAX_COMBO {
                Action::Attack { combo: (combo + 1) as u8 }
            } else {
                self
            },
            Action::Guard | Action::Dash => self,
            Action::Idle | Action::Locomotion { .. } => if input.attack.just_activated {
                Action::Attack { combo: 1 }
            } else if input.guard.just_activated {
                Action::Guard
            } else if input.dash.just_activated {
                Action::Dash
            } else {
                Self::spec_from_movement(spec_set_movement(input))
            },
        }
    }

    /// The action after its animation has signalled its end: attack,
    /// guard and dash give way to idle. For any other action the signal is
    /// stale and changes nothing.
    pub open spec fn spec_finished(self) -> Action {
        match self {
            Action::Attack { .. } | Action::Guard | Action::Dash => Action::Idle,
            _ => self,
        }
    }

    /// Checks that the action is well-formed.
    pub fn valid(self) -> (valid: bool)
        ensures
            valid == self.wf(),
    {
        match self {
            Action::Attack { combo } => 1 <= combo && combo <= MAX_COMBO,
            _ => true,
        }
    }

    /// Whether the action runs to its end before input is heard again.
    #[verifier::when_used_as_spec(spec_committed)]
    pub fn committed(self) -> (committed: bool)
        ensures
            committed == self.spec_committed(),
    {
        match self {
            Action::Attack { .. } | Action::Guard | Action::Dash | Action::Dead => true,
            Action::Idle | Action::Locomotion { .. } => false,
        }
    }

    /// How the clip of the action is played.
    #[verifier::when_used_as_spec(spec_playback)]
    pub fn playback(self) -> (mode: PlaybackMode)
        ensures
            mode == self.spec_playback(),
    {
        if self.committed() {
            PlaybackMode::Once
        } else {
            PlaybackMode::Loop
        }
    }

    /// The action that stands for a way of moving.
    #[verifier::when_used_as_spec(spec_from_movement)]
    pub fn from_movement(movement: Movement) -> (action: Action)
        ensures
            action == Self::spec_from_movement(movement),
    {
        match movement {
            Movement::Idle => Action::Idle,
            Movement::Walk => Action::Locomotion { running: false },
            Movement::Run => Action::Locomotion { running: true },
        }
    }

    /// Decides the action at the start of a tick from the `alive` flag,
    /// the edges of the tick and whether the combo window is open.
    pub fn next(self, alive: bool, input: &InputSnapshot, window_open: bool) -> (action: Action)
        ensures
            action == self.spec_next(alive, *input, window_open),
            self.wf() ==> action.wf(),
    {
        match self {
            Action::Dead => Action::Dead,
            _ if !alive => Action::Dead,
            Action::Attack { combo } => if input.attack.just_activated && window_open && combo
                < MAX_COMBO {
                Action::Attack { combo: combo + 1 }
            } else {
                self
            },
            Action::Guard | Action::Dash => self,
            Action::Idle | Action::Locomotion { .. } => if input.attack.just_activated {
                Action::Attack { combo: 1 }
            } else if input.guard.just_activated {
                Action::Guard
            } else if input.dash.just_activated {
                Action::Dash
            } else {
                Action::from_movement(set_movement(input))
            },
        }
    }

    /// Takes the end signal of the character's animation.
    #[verifier::when_used_as_spec(spec_finished)]
    pub fn finished(self) -> (action: Action)
        ensures
            action == self.spec_finished(),
            action.wf(),
    {
        match self {
            Action::Attack { .. } | Action::Guard | Action::Dash => Action::Idle,
            _ => self,
        }
    }

    /// How many of the six actions a value is: the count of the kinds
    /// that it belongs to.
    pub open spec fn kinds(self) -> nat {
        let idle: nat = if self is Idle { 1 } else { 0 };
        let locomotion: nat = if self is Locomotion { 1 } else { 0 };
        let attack: nat = if self is Attack { 1 } else { 0 };
        let guard: nat = if self is Guard { 1 } else { 0 };
        let dash: nat = if self is Dash { 1 } else { 0 };
        let dead: nat = if self is Dead { 1 } else { 0 };
        idle + locomotion + attack + guard + dash + dead
    }

    /// A character is in exactly one action at a time; in particular it
    /// never attacks and dashes at once.
    pub proof fn law_single_active_action(self)
        ensures
            self.kinds() == 1,
            !(self is Attack && self is Dash),
    {
    }

    /// The combo counter stays within 1 to 3 whatever happens: every
    /// transition keeps it there, a swing only ever moves on to the next
    /// step, and at the last step a further press changes nothing.
    pub proof fn law_combo_bound(self, alive: bool, input: InputSnapshot, window_open: bool)
        requires
            self.wf(),
        ensures
            self.spec_next(alive, input, window_open).wf(),
            self.spec_finished().wf(),
            self matches Action::Attack { combo } ==> alive ==> (self.spec_next(
                alive,
                input,
                window_open,
            ) matches Action::Attack { combo: after } && combo <= after <= combo + 1),
            self == (Action::Attack { combo: MAX_COMBO }) && alive ==> self.spec_next(
                alive,
                input,
                window_open,
            ) == self,
    {
    }

    /// A combo always starts at its first step: out of idle and
    /// locomotion no attack but the first can follow, whatever the combo
    /// was before.
    pub proof fn law_attack_starts_at_one(self, alive: bool, input: InputSnapshot, window_open: bool)
        requires
            self is Idle || self is Locomotion,
        ensures
            self.spec_next(alive, input, window_open) is Attack ==> self.spec_next(
                alive,
                input,
                window_open,
            ) == (Action::Attack { combo: 1 }),
    {
    }

    /// A committed action is deaf to the action buttons: while the
    /// character lives, guard and dash stay what they are and an attack
    /// stays an attack; death stays death in any case.
    pub proof fn law_committed_ignores_triggers(
        self,
        alive: bool,
        input: InputSnapshot,
        window_open: bool,
    )
        requires
            self.spec_committed(),
        ensures
            self is Dead ==> self.spec_next(alive, input, window_open) is Dead,
            self is Dead ==> self.spec_finished() is Dead,
            alive && self is Guard ==> self.spec_next(alive, input, window_open) is Guard,
            alive && self is Dash ==> self.spec_next(alive, input, window_open) is Dash,
            alive && self is Attack ==> self.spec_next(alive, input, window_open) is Attack,
            self.spec_next(alive, input, window_open).spec_committed(),
    {
    }
}

} // verus!
