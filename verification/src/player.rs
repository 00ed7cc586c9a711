//! The character: how its action moves it through the arena, which way
//! it faces, and the tick that puts the parts together.

use crate::action::{Action, Facing};
use crate::clips::{AnimationClip, AnimationTable, CharacterKind, ClipKey};
use crate::input::{clear, Analog, InputBinding, InputSnapshot, KeyEvent};
use crate::sprite_sheet::{animate, Animation, AnimationEnded};
use vstd::prelude::*;

verus! {

/// The way of moving that the directional input asks for.
#[derive(Clone, Copy, Debug, PartialEq, Eq, Structural)]
pub enum Movement {
    Idle,
    Walk,
    Run,
}

/// Idle with no directional key held; otherwise running if the run
/// button is held, and walking if not.
pub open spec fn spec_set_movement(input: InputSnapshot) -> Movement {
    if !input.movement.spec_active() {
        Movement::Idle
    } else if input.run.active {
        Movement::Run
    } else {
        Movement::Walk
    }
}

/// Reads the way of moving off the input of the tick.
pub fn set_movement(input: &InputSnapshot) -> (movement: Movement)
    ensures
        movement == spec_set_movement(*input),
{
    if !input.movement.active() {
        Movement::Idle
    } else if input.run.active {
        Movement::Run
    } else {
        Movement::Walk
    }
}

/// A place in the arena, in thousandths of a world unit.
#[derive(Clone, Copy, Debug, PartialEq, Eq, Structural)]
pub struct Position {
    pub x: i64,
    pub y: i64,
}

/// The rectangle that characters are kept in, borders included.
#[derive(Clone, Copy, Debug, PartialEq, Eq, Structural)]
pub struct LevelLimit {
    pub min_x: i64,
    pub max_x: i64,
    pub min_y: i64,
    pub max_y: i64,
}

/// The speeds of a character, in world units per second. `attack` is the
/// forward drift of a swing, which a character without drift has at 0.
#[derive(Clone, Copy, Debug, PartialEq, Eq, Structural)]
pub struct MoveSpeed {
    pub walk: u32,
    pub run: u32,
    pub dash: u32,
    pub attack: u32,
}

/// The speed that an action moves at, in world units per second.
#[derive(Clone, Copy, Debug, PartialEq, Eq, Structural)]
pub struct Speed(pub u32);

/// The direction of travel: horizontal part, then vertical part, each of
/// them -1, 0 or 1.
#[derive(Clone, Copy, Debug, PartialEq, Eq, Structural)]
pub struct Direction(pub i8, pub i8);

/// `value` brought into `low..=high`.
pub open spec fn clamp(value: int, low: int, high: int) -> int {
    if value > high {
        high
    } else if value < low {
        low
    } else {
        value
    }
}

/// -1, 0 or 1 with the sign of `part`.
pub open spec fn signum(part: i8) -> int {
    if part > 0 {
        1
    } else if part < 0 {
        -1
    } else {
        0
    }
}

impl LevelLimit {
    /// No border lies beyond the opposite one.
    pub open spec fn wf(self) -> bool {
        self.min_x <= self.max_x && self.min_y <= self.max_y
    }

    /// Whether the place lies in the rectangle.
    pub open spec fn contains(self, position: Position) -> bool {
        &&& self.min_x <= position.x <= self.max_x
        &&& self.min_y <= position.y <= self.max_y
    }

    /// The place in the rectangle that is nearest to the place `(x, y)`.
    pub open spec fn clamped(self, x: int, y: int) -> Position {
        Position {
            x: clamp(x, self.min_x as int, self.max_x as int) as i64,
            y: clamp(y, self.min_y as int, self.max_y as int) as i64,
        }
    }

    /// The arena of the sample level.
    pub open spec fn spec_sample() -> LevelLimit {
        LevelLimit { min_x: -200_000i64, max_x: 200_000, min_y: -40_000i64, max_y: 35_000 }
    }

    /// The arena of the sample level: 200 units to either side, 40 down
    /// and 35 up.
    #[verifier::when_used_as_spec(spec_sample)]
    pub fn sample() -> (limit: LevelLimit)
        ensures
            limit == Self::spec_sample(),
            limit.wf(),
    {
        LevelLimit { min_x: -200_000, max_x: 200_000, min_y: -40_000, max_y: 35_000 }
    }
}

/// The speed of an action: walking or running speed for locomotion, the
/// dash speed for a dash, the drift for an attack, and none otherwise.
pub open spec fn spec_speed(action: Action, speeds: MoveSpeed) -> Speed {
    match action {
        Action::Locomotion { running } => Speed(
            if running {
                speeds.run
            } else {
                speeds.walk
            },
        ),
        Action::Dash => Speed(speeds.dash),
        Action::Attack { .. } => Speed(speeds.attack),
        _ => Speed(0),
    }
}

/// Picks the speed of an action out of the speeds of a character.
pub fn speed(action: Action, speeds: &MoveSpeed) -> (speed: Speed)
    ensures
        speed == spec_speed(action, *speeds),
{
    match action {
        Action::Locomotion { running } => Speed(
            if running {
                speeds.run
            } else {
                speeds.walk
            },
        ),
        Action::Dash => Speed(speeds.dash),
        Action::Attack { .. } => Speed(speeds.attack),
        _ => Speed(0),
    }
}

/// The facing after the input of a tick, for a character whose action
/// of the tick is `action`.
///
/// A committed action locks the facing. Otherwise the horizontal key
/// that the analog direction points to decides; and where the axis
/// rests, a horizontal key that went down and up again within the tick
/// still turns the character, unless both did.
pub open spec fn spec_set_facing(facing: Facing, action: Action, input: InputSnapshot) -> Facing {
    if action.spec_committed() {
        facing
    } else if input.movement.x.value > 0 {
        Facing::Right
    } else if input.movement.x.value < 0 {
        Facing::Left
    } else if input.movement.x.positive.just_activated
        && !input.movement.x.negative.just_activated {
        Facing::Right
    } else if input.movement.x.negative.just_activated
        && !input.movement.x.positive.just_activated {
        Facing::Left
    } else {
        facing
    }
}

/// Turns the character as the input of the tick asks, if its action
/// lets it turn.
pub fn set_facing(facing: Facing, action: Action, input: &InputSnapshot) -> (turned: Facing)
    ensures
        turned == spec_set_facing(facing, action, *input),
        action.spec_committed() ==> turned == facing,
{
    if action.committed() {
        facing
    } else if input.movement.x.value > 0 {
        Facing::Right
    } else if input.movement.x.value < 0 {
        Facing::Left
    } else if input.movement.x.positive.just_activated
        && !input.movement.x.negative.just_activated {
        Facing::Right
    } else if input.movement.x.negative.just_activated
        && !input.movement.x.positive.just_activated {
        Facing::Left
    } else {
        facing
    }
}

/// The direction of travel of an action. Locomotion goes the way the
/// character faces while a horizontal key is held, and up or down as the
/// analog direction says; a dash and the drift of an attack go the way
/// the character faces; nothing else moves.
pub open spec fn spec_set_direction(action: Action, facing: Facing, analog: Analog) -> Direction {
    match action {
        Action::Locomotion { .. } => Direction(
            if analog.0 != 0 {
                facing.spec_sign()
            } else {
                0i8
            },
            analog.1,
        ),
        Action::Dash | Action::Attack { .. } => Direction(facing.spec_sign(), 0),
        _ => Direction(0, 0),
    }
}

/// Sets the direction of travel for the tick.
pub fn set_direction(action: Action, facing: Facing, analog: Analog) -> (direction: Direction)
    ensures
        direction == spec_set_direction(action, facing, analog),
{
    match action {
        Action::Locomotion { .. } => Direction(
            if analog.0 != 0 {
                facing.sign()
            } else {
                0
            },
            analog.1,
        ),
        Action::Dash | Action::Attack { .. } => Direction(facing.sign(), 0),
        _ => Direction(0, 0),
    }
}

/// A walking or running character goes to the side of the horizontal key
/// that the analog direction points to, which is then the side it faces,
/// and stays where it is horizontally while that axis rests.
pub proof fn law_locomotion_follows_the_stick(facing: Facing, action: Action, input: InputSnapshot)
    requires
        action is Locomotion,
    ensures
        spec_set_direction(
            action,
            spec_set_facing(facing, action, input),
            input.movement.spec_analog(),
        ) == Direction(signum(input.movement.x.value) as i8, input.movement.y.value),
{
}

/// Where a character gets to from `position` in `delta` milliseconds,
/// horizontally, with no border in the way: speed times time, in the
/// direction of travel.
pub open spec fn moved_x(position: Position, speed: Speed, direction: Direction, delta: u64) -> int {
    position.x + signum(direction.0) * (speed.0 * delta)
}

/// Where a character gets to vertically: at three fifths of the speed,
/// rounded towards where it came from.
pub open spec fn moved_y(position: Position, speed: Speed, direction: Direction, delta: u64) -> int {
    position.y + signum(direction.1) * ((speed.0 * delta * 3) / 5)
}

/// `value` brought into the range of `i64`.
pub open spec fn saturated(value: int) -> int {
    clamp(value, i64::MIN as int, i64::MAX as int)
}

fn saturate(value: i128) -> (near: i64)
    ensures
        near == saturated(value as int),
{
    if value > i64::MAX as i128 {
        i64::MAX
    } else if value < i64::MIN as i128 {
        i64::MIN
    } else {
        value as i64
    }
}

fn shift(from: i64, part: i8, by: u128) -> (to: i64)
    requires
        by <= 0xffff_ffff_ffff_ffff_ffff_ffff_ffff,
    ensures
        to == saturated(from + signum(part) * by),
{
    let by = by as i128;
    if part > 0 {
        saturate(from as i128 + by)
    } else if part < 0 {
        saturate(from as i128 - by)
    } else {
        from
    }
}

/// Moves a character for `delta` milliseconds at the given speed in the
/// given direction. A place beyond the range of `i64` is taken as the
/// nearest place within it.
pub fn movement(position: &mut Position, speed: Speed, direction: Direction, delta: u64)
    ensures
        final(position).x == saturated(moved_x(*old(position), speed, direction, delta)),
        final(position).y == saturated(moved_y(*old(position), speed, direction, delta)),
{
    assert(speed.0 * delta <= 0xffff_ffff * 0xffff_ffff_ffff_ffff) by (nonlinear_arith)
        requires
            0 <= speed.0 <= 0xffff_ffff,
            0 <= delta <= 0xffff_ffff_ffff_ffff,
    ;
    let along: u128 = speed.0 as u128 * delta as u128;
    let across: u128 = along * 3 / 5;
    position.x = shift(position.x, direction.0, along);
    position.y = shift(position.y, direction.1, across);
}

/// Brings a character back into the arena: a place beyond a border
/// becomes the nearest place on it.
pub fn limit(position: &mut Position, limit: &LevelLimit)
    ensures
        *final(position) == limit.clamped(old(position).x as int, old(position).y as int),
        limit.wf() ==> limit.contains(*final(position)),
{
    if position.y > limit.max_y {
        position.y = limit.max_y;
    } else if position.y < limit.min_y {
        position.y = limit.min_y;
    }
    if position.x > limit.max_x {
        position.x = limit.max_x;
    } else if position.x < limit.min_x {
        position.x = limit.min_x;
    }
}

/// Whether the sprite has to be mirrored, told only when the facing has
/// changed: `Some(true)` for a turn to the left, `Some(false)` for a turn
/// to the right, `None` for no turn.
pub open spec fn spec_flip_x(before: Facing, after: Facing) -> Option<bool> {
    if before == after {
        None
    } else {
        Some(after == Facing::Left)
    }
}

/// Tells the renderer how to mirror the sprite, if the facing changed.
pub fn flip_x(before: Facing, after: Facing) -> (flip: Option<bool>)
    ensures
        flip == spec_flip_x(before, after),
{
    match (before, after) {
        (Facing::Left, Facing::Right) => Some(false),
        (Facing::Right, Facing::Left) => Some(true),
        _ => None,
    }
}

/// The clip of an action and its playback state at the start.
pub open spec fn spec_movement_animation(table: AnimationTable, action: Action) -> (
    AnimationClip,
    Animation,
) {
    let clip = table.spec_clip(ClipKey::spec_of(action));
    (clip, clip.spec_animation(action.spec_playback()))
}

/// Picks the clip of an action from the table of the character's kind
/// and starts it: looping for idle and locomotion, once for the others.
pub fn movement_animation(table: &AnimationTable, action: Action) -> (started: (
    AnimationClip,
    Animation,
))
    requires
        table.wf(),
    ensures
        started == spec_movement_animation(*table, action),
        started.0.wf(),
        started.1.wf(),
{
    let clip = table.clip(ClipKey::of(action));
    (clip, clip.animation(action.playback()))
}

/// One simulated actor.
#[derive(Clone, Copy, Debug, PartialEq, Eq, Structural)]
pub struct Character {
    /// Identity of the character; its signals carry it.
    pub id: u32,
    pub kind: CharacterKind,
    /// Cleared from outside when the character dies.
    pub alive: bool,
    pub facing: Facing,
    pub position: Position,
    pub action: Action,
    /// The clip of the action.
    pub clip: AnimationClip,
    /// Playback state of the clip.
    pub animation: Animation,
    pub speeds: MoveSpeed,
    /// Length of the combo window: an attack press continues the combo
    /// while the swing has less than this many milliseconds left.
    pub combo_window: u64,
}

/// What a tick tells the collaborators of the controller.
#[derive(Clone, Copy, Debug, PartialEq, Eq)]
pub struct Tick {
    /// The end of the character's play-once clip, if it came in this tick.
    pub ended: Option<AnimationEnded>,
    /// The new mirroring of the sprite, if the character turned.
    pub flip_x: Option<bool>,
}

impl Character {
    /// The action and the playback state are well-formed, and the clip
    /// is played the way the action asks for.
    pub open spec fn wf(self) -> bool {
        &&& self.action.wf()
        &&& self.animation.wf()
        &&& self.animation.mode == self.action.spec_playback()
    }

    /// Checks that the character is well-formed.
    pub fn valid(&self) -> (valid: bool)
        ensures
            valid == self.wf(),
    {
        self.action.valid() && self.animation.valid() && self.animation.mode
            == self.action.playback()
    }

    /// The action that the character is in.
    pub fn current_action(&self) -> (action: Action)
        ensures
            action == self.action,
    {
        self.action
    }

    /// The side that the character looks to.
    pub fn facing(&self) -> (facing: Facing)
        ensures
            facing == self.facing,
    {
        self.facing
    }

    /// The place of the character.
    pub fn position(&self) -> (position: Position)
        ensures
            position == self.position,
    {
        self.position
    }

    /// What to draw for the character: the sprite sheet of its clip and
    /// the frame on it.
    pub fn animation_frame(&self) -> (shown: (u32, usize))
        ensures
            shown == (self.clip.image, self.animation.frame),
    {
        (self.clip.image, self.animation.frame)
    }

    /// Whether an attack press would continue the combo now.
    pub open spec fn window_open(self) -> bool {
        self.animation.spec_remaining() < self.combo_window
    }

    /// The action decided at the start of a tick.
    pub open spec fn decided(self, input: InputSnapshot) -> Action {
        self.action.spec_next(self.alive, input, self.window_open())
    }

    /// The clip and playback state that the decided action starts the
    /// tick with: a new action starts its own clip, an unchanged action
    /// goes on with the one it has.
    pub open spec fn started(self, input: InputSnapshot, table: AnimationTable) -> (
        AnimationClip,
        Animation,
    ) {
        if self.decided(input) != self.action {
            spec_movement_animation(table, self.decided(input))
        } else {
            (self.clip, self.animation)
        }
    }

    /// Whether the clip runs to its end in the tick.
    pub open spec fn ends(self, input: InputSnapshot, table: AnimationTable, delta: u64) -> bool {
        self.started(input, table).1.ends(delta as nat)
    }

    /// The action at the end of the tick: the decided one, or what
    /// follows it where its clip ran to its end.
    pub open spec fn settled(self, input: InputSnapshot, table: AnimationTable, delta: u64) -> Action {
        if self.ends(input, table, delta) {
            self.decided(input).spec_finished()
        } else {
            self.decided(input)
        }
    }

    /// The character after a tick of `delta` milliseconds.
    ///
    /// The action is decided from the edges of the tick; the facing
    /// follows; the clip of the decided action plays on for the tick, and
    /// if it runs to its end the action that follows starts its clip; the
    /// character moves as the decided action says and is then brought
    /// back into the arena.
    pub open spec fn ticked(
        self,
        input: InputSnapshot,
        table: AnimationTable,
        arena: LevelLimit,
        delta: u64,
    ) -> Character {
        let decided = self.decided(input);
        let settled = self.settled(input, table, delta);
        let facing = spec_set_facing(self.facing, decided, input);
        let started = self.started(input, table);
        let shown = if settled != decided {
            spec_movement_animation(table, settled)
        } else {
            (started.0, started.1.advanced(delta as nat))
        };
        let direction = spec_set_direction(decided, facing, input.movement.spec_analog());
        let pace = spec_speed(decided, self.speeds);
        Character {
            facing,
            position: arena.clamped(
                moved_x(self.position, pace, direction, delta),
                moved_y(self.position, pace, direction, delta),
            ),
            action: settled,
            clip: shown.0,
            animation: shown.1,
            ..self
        }
    }

    /// What the tick tells the collaborators.
    pub open spec fn told(self, input: InputSnapshot, table: AnimationTable, delta: u64) -> Tick {
        Tick {
            ended: if self.ends(input, table, delta) {
                Some(AnimationEnded(self.id))
            } else {
                None
            },
            flip_x: spec_flip_x(
                self.facing,
                spec_set_facing(self.facing, self.decided(input), input),
            ),
        }
    }
}

/// Runs one tick of a character: decides its action from the edges of
/// the tick, turns it, plays its clip on, moves it and keeps it in the
/// arena. Every part of the character belongs to the same action when
/// the call returns.
pub fn tick(
    character: &mut Character,
    input: &InputSnapshot,
    table: &AnimationTable,
    arena: &LevelLimit,
    delta: u64,
) -> (told: Tick)
    requires
        old(character).wf(),
        table.wf(),
    ensures
        *final(character) == old(character).ticked(*input, *table, *arena, delta),
        told == old(character).told(*input, *table, delta),
        final(character).wf(),
        arena.wf() ==> arena.contains(final(character).position),
        old(character).action.spec_committed() ==> final(character).facing == old(
            character,
        ).facing,
{
    let window_open = character.animation.remaining() < character.combo_window;
    let decided = character.action.next(character.alive, input, window_open);
    let facing = set_facing(character.facing, decided, input);
    if decided != character.action {
        let started = movement_animation(table, decided);
        character.clip = started.0;
        character.animation = started.1;
    }
    let ended = animate(&mut character.animation, character.id, delta);
    let settled = match ended {
        Some(_) => decided.finished(),
        None => decided,
    };
    if settled != decided {
        let started = movement_animation(table, settled);
        character.clip = started.0;
        character.animation = started.1;
    }
    let direction = set_direction(decided, facing, input.movement.analog());
    let pace = speed(decided, &character.speeds);
    movement(&mut character.position, pace, direction, delta);
    limit(&mut character.position, arena);
    let flip = flip_x(character.facing, facing);
    character.facing = facing;
    character.action = settled;
    Tick { ended, flip_x: flip }
}

/// The samurai as it enters the level: alive and idle at the left
/// border, facing right, with the idle clip of `table` looping.
pub open spec fn spec_init_samurai(id: u32, table: AnimationTable) -> Character {
    let started = spec_movement_animation(table, Action::Idle);
    Character {
        id,
        kind: CharacterKind::Samurai,
        alive: true,
        facing: Facing::Right,
        position: Position { x: -200_000i64, y: 0 },
        action: Action::Idle,
        clip: started.0,
        animation: started.1,
        speeds: MoveSpeed { walk: 80, run: 200, dash: 400, attack: 0 },
        combo_window: 200,
    }
}

/// Makes the samurai with the identity `id`.
pub fn init_samurai(id: u32, table: &AnimationTable) -> (samurai: Character)
    requires
        table.wf(),
    ensures
        samurai == spec_init_samurai(id, *table),
        samurai.wf(),
{
    let started = movement_animation(table, Action::Idle);
    Character {
        id,
        kind: CharacterKind::Samurai,
        alive: true,
        facing: Facing::Right,
        position: Position { x: -200_000, y: 0 },
        action: Action::Idle,
        clip: started.0,
        animation: started.1,
        speeds: MoveSpeed { walk: 80, run: 200, dash: 400, attack: 0 },
        combo_window: 200,
    }
}

/// A character together with the controller that steers it.
#[derive(Clone, Copy, Debug, PartialEq, Eq, Structural)]
pub struct Player {
    pub character: Character,
    pub binding: InputBinding,
    pub input: InputSnapshot,
}

/// Runs one whole tick of a player, in the one order that loses no
/// input: first the input of the tick is gathered, then the character
/// ticks on the edges so found, and only then are the edges removed for
/// the next tick.
pub fn update(
    player: &mut Player,
    events: &Vec<KeyEvent>,
    held: &Vec<u32>,
    table: &AnimationTable,
    arena: &LevelLimit,
    delta: u64,
) -> (told: Tick)
    requires
        old(player).character.wf(),
        table.wf(),
    ensures
        final(player).binding == old(player).binding,
        final(player).input == old(player).input.gathered(
            old(player).binding,
            events@,
            held@,
        ).cleared(),
        final(player).character == old(player).character.ticked(
            old(player).input.gathered(old(player).binding, events@, held@),
            *table,
            *arena,
            delta,
        ),
        told == old(player).character.told(
            old(player).input.gathered(old(player).binding, events@, held@),
            *table,
            delta,
        ),
        final(player).character.wf(),
        old(player).input.wf() ==> final(player).input.wf(),
{
    player.input.gather(&player.binding, events, held);
    let told = tick(&mut player.character, &player.input, table, arena, delta);
    clear(&mut player.input);
    told
}

impl Character {
    /// While a character attacks, dashes or guards, and when it is dead,
    /// no directional key changes its facing.
    pub proof fn law_facing_lock(
        self,
        input: InputSnapshot,
        table: AnimationTable,
        arena: LevelLimit,
        delta: u64,
    )
        requires
            self.action is Attack || self.action is Dash || self.action is Guard
                || self.action is Dead,
        ensures
            self.ticked(input, table, arena, delta).facing == self.facing,
            self.told(input, table, delta).flip_x is None,
    {
        self.action.law_committed_ignores_triggers(self.alive, input, self.window_open());
    }

    /// After every tick the character stands inside the arena, whatever
    /// its speed, its direction and the length of the tick; in the sample
    /// arena that is within 200 units to either side, 40 down and 35 up.
    pub proof fn law_boundary_clamp(
        self,
        input: InputSnapshot,
        table: AnimationTable,
        arena: LevelLimit,
        delta: u64,
    )
        requires
            arena.wf(),
        ensures
            arena.contains(self.ticked(input, table, arena, delta).position),
            arena == LevelLimit::spec_sample() ==> {
                let position = self.ticked(input, table, arena, delta).position;
                &&& -200_000 <= position.x <= 200_000
                &&& -40_000 <= position.y <= 35_000
            },
    {
    }

    /// A tick keeps a character well-formed: its combo counter stays
    /// within 1 to 3 and its frame within its clip.
    pub proof fn law_tick_well_formed(
        self,
        input: InputSnapshot,
        table: AnimationTable,
        arena: LevelLimit,
        delta: u64,
    )
        requires
            self.wf(),
            table.wf(),
        ensures
            self.ticked(input, table, arena, delta).wf(),
    {
        let decided = self.decided(input);
        let settled = self.settled(input, table, delta);
        self.action.law_combo_bound(self.alive, input, self.window_open());
        table.spec_clip(ClipKey::spec_of(decided)).lemma_animation_wf(decided.spec_playback());
        table.spec_clip(ClipKey::spec_of(settled)).lemma_animation_wf(settled.spec_playback());
        self.started(input, table).1.lemma_advanced_wf(delta as nat);
    }

    /// A swing, a guard or a dash whose clip runs to its end in a tick
    /// leaves the character idle with the idle clip at its start, and the
    /// tick tells the end of the clip; death stays death.
    pub proof fn law_committed_action_ends(
        self,
        input: InputSnapshot,
        table: AnimationTable,
        arena: LevelLimit,
        delta: u64,
    )
        requires
            self.wf(),
            self.ends(input, table, delta),
        ensures
            self.told(input, table, delta).ended == Some(AnimationEnded(self.id)),
            self.decided(input) is Dead ==> self.ticked(input, table, arena, delta).action
                is Dead,
            !(self.decided(input) is Dead) ==> {
                let after = self.ticked(input, table, arena, delta);
                &&& after.action == Action::Idle
                &&& (after.clip, after.animation) == spec_movement_animation(table, Action::Idle)
            },
    {
    }
}

/// What one tick of a session brings from outside: whether the character
/// still lives, the input of the tick, and its length in milliseconds.
pub struct TickInput {
    pub alive: bool,
    pub input: InputSnapshot,
    pub delta: u64,
}

impl Character {
    /// The character after a run of ticks, the first frame first.
    pub open spec fn after(
        self,
        frames: Seq<TickInput>,
        table: AnimationTable,
        arena: LevelLimit,
    ) -> Character
        decreases frames.len(),
    {
        if frames.len() == 0 {
            self
        } else {
            let before = self.after(frames.drop_last(), table, arena);
            let frame = frames.last();
            (Character { alive: frame.alive, ..before }).ticked(
                frame.input,
                table,
                arena,
                frame.delta,
            )
        }
    }

    /// After every tick of every run, whatever the input and however long
    /// the ticks, the character is in one well-formed action with a combo
    /// counter of at most 3, shows a frame of its clip, and stands inside
    /// the arena.
    pub proof fn law_session_invariants(
        self,
        frames: Seq<TickInput>,
        table: AnimationTable,
        arena: LevelLimit,
    )
        requires
            self.wf(),
            table.wf(),
            arena.wf(),
        ensures
            self.after(frames, table, arena).wf(),
            self.after(frames, table, arena).action.kinds() == 1,
            self.after(frames, table, arena).action matches Action::Attack { combo } ==> 1
                <= combo <= 3,
            frames.len() > 0 ==> arena.contains(self.after(frames, table, arena).position),
        decreases frames.len(),
    {
        if frames.len() > 0 {
            self.law_session_invariants(frames.drop_last(), table, arena);
            let before = self.after(frames.drop_last(), table, arena);
            let frame = frames.last();
            (Character { alive: frame.alive, ..before }).law_tick_well_formed(
                frame.input,
                table,
                arena,
                frame.delta,
            );
        }
    }

    /// Once a character is dead it stays dead through every run of
    /// ticks, even if it is marked alive again.
    pub proof fn law_dead_is_terminal(
        self,
        frames: Seq<TickInput>,
        table: AnimationTable,
        arena: LevelLimit,
    )
        requires
            self.action is Dead,
        ensures
            self.after(frames, table, arena).action is Dead,
            self.after(frames, table, arena).facing == self.facing,
        decreases frames.len(),
    {
        if frames.len() > 0 {
            self.law_dead_is_terminal(frames.drop_last(), table, arena);
        }
    }
}

} // verus!
