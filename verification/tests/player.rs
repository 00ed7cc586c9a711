use action_controller::action::{Action, Facing};
use action_controller::clips::{AnimationClip, AnimationTable, CharacterKind, ClipEntry, ClipKey};
use action_controller::input::{
    Analog, ButtonState, EdgeState, InputBinding, InputSnapshot, KeyEvent, KeyboardAction,
    KeyboardAnalog, MouseAction, Signal,
};
use action_controller::player::{
    flip_x, init_samurai, limit, movement, movement_animation, set_direction, set_facing,
    set_movement, speed, tick, update, Character, Direction, LevelLimit, MoveSpeed, Movement,
    Player, Position, Speed, Tick,
};
use action_controller::sprite_sheet::{AnimationEnded, PlaybackMode};

const W: u32 = 17;
const S: u32 = 31;
const D: u32 = 32;
const A: u32 = 30;
const SHIFT: u32 = 42;
const SPACE: u32 = 57;
const LEFT_BUTTON: u32 = 0;
const RIGHT_BUTTON: u32 = 1;

const HELD: EdgeState = EdgeState { active: true, just_activated: false, just_released: false };
const PRESSED: EdgeState = EdgeState { active: true, just_activated: true, just_released: false };
const TAPPED: EdgeState = EdgeState { active: false, just_activated: true, just_released: true };
const WALK: Action = Action::Locomotion { running: false };
const RUN: Action = Action::Locomotion { running: true };
const QUIET: Tick = Tick { ended: None, flip_x: None };

fn down(key: u32) -> KeyEvent {
    KeyEvent { key, state: ButtonState::Pressed }
}

fn up(key: u32) -> KeyEvent {
    KeyEvent { key, state: ButtonState::Released }
}

fn clip(image: u32, frames: usize, duration: u64) -> AnimationClip {
    AnimationClip { image, frames, duration }
}

fn table() -> AnimationTable {
    let clips = [
        (ClipKey::Idle, clip(0, 4, 1000)),
        (ClipKey::Walk, clip(1, 8, 1000)),
        (ClipKey::Run, clip(2, 8, 600)),
        (ClipKey::Attack1, clip(3, 4, 400)),
        (ClipKey::Attack2, clip(4, 4, 400)),
        (ClipKey::Attack3, clip(5, 5, 500)),
        (ClipKey::Guard, clip(6, 2, 300)),
        (ClipKey::Dash, clip(7, 3, 300)),
        (ClipKey::Dead, clip(8, 6, 1200)),
    ];
    let mut entries = Vec::new();
    for (key, clip) in clips {
        entries.push(ClipEntry { kind: CharacterKind::Samurai, key, clip });
    }
    AnimationTable::build(&entries, CharacterKind::Samurai).unwrap()
}

fn binding() -> InputBinding {
    InputBinding {
        movement: KeyboardAnalog(W, S, D, A),
        run: Signal::Keyboard(KeyboardAction(SHIFT)),
        attack: Signal::Mouse(MouseAction(LEFT_BUTTON)),
        guard: Signal::Mouse(MouseAction(RIGHT_BUTTON)),
        dash: Signal::Keyboard(KeyboardAction(SPACE)),
    }
}

fn samurai() -> Character {
    init_samurai(1, &table())
}

fn player() -> Player {
    Player { character: samurai(), binding: binding(), input: InputSnapshot::new() }
}

fn centred() -> Player {
    let mut player = player();
    player.character.position = Position { x: 0, y: 0 };
    player
}

fn step(player: &mut Player, events: Vec<KeyEvent>, held: Vec<u32>, delta: u64) -> Tick {
    update(player, &events, &held, &table(), &LevelLimit::sample(), delta)
}

fn holding(x: i8, y: i8) -> InputSnapshot {
    let mut input = InputSnapshot::new();
    input.movement.x.value = x;
    input.movement.y.value = y;
    if x > 0 {
        input.movement.x.positive = HELD;
    }
    if x < 0 {
        input.movement.x.negative = HELD;
    }
    if y > 0 {
        input.movement.y.positive = HELD;
    }
    if y < 0 {
        input.movement.y.negative = HELD;
    }
    input
}

#[test]
fn samurai_enters_idle_at_the_left_border() {
    let samurai = init_samurai(5, &table());
    assert_eq!(samurai.id, 5);
    assert_eq!(samurai.kind, CharacterKind::Samurai);
    assert!(samurai.alive);
    assert_eq!(samurai.facing, Facing::Right);
    assert_eq!(samurai.position, Position { x: -200_000, y: 0 });
    assert_eq!(samurai.action, Action::Idle);
    assert_eq!(samurai.clip, clip(0, 4, 1000));
    assert_eq!(samurai.animation, clip(0, 4, 1000).animation(PlaybackMode::Loop));
    assert_eq!(samurai.speeds, MoveSpeed { walk: 80, run: 200, dash: 400, attack: 0 });
    assert_eq!(samurai.combo_window, 200);
}

#[test]
fn sample_arena_has_the_sample_borders() {
    assert_eq!(
        LevelLimit::sample(),
        LevelLimit { min_x: -200_000, max_x: 200_000, min_y: -40_000, max_y: 35_000 }
    );
}

#[test]
fn set_movement_reads_the_stick_and_the_run_button() {
    let mut input = InputSnapshot::new();
    assert_eq!(set_movement(&input), Movement::Idle);
    input.run = HELD;
    assert_eq!(set_movement(&input), Movement::Idle);
    input = holding(0, -1);
    assert_eq!(set_movement(&input), Movement::Walk);
    input.run = HELD;
    assert_eq!(set_movement(&input), Movement::Run);
    input.run = TAPPED;
    assert_eq!(set_movement(&input), Movement::Walk);
}

#[test]
fn speed_follows_the_action() {
    let speeds = MoveSpeed { walk: 80, run: 200, dash: 400, attack: 30 };
    assert_eq!(speed(Action::Idle, &speeds), Speed(0));
    assert_eq!(speed(WALK, &speeds), Speed(80));
    assert_eq!(speed(RUN, &speeds), Speed(200));
    assert_eq!(speed(Action::Dash, &speeds), Speed(400));
    assert_eq!(speed(Action::Attack { combo: 2 }, &speeds), Speed(30));
    assert_eq!(speed(Action::Guard, &speeds), Speed(0));
    assert_eq!(speed(Action::Dead, &speeds), Speed(0));
}

#[test]
fn set_facing_follows_the_held_horizontal_key() {
    assert_eq!(set_facing(Facing::Right, Action::Idle, &holding(-1, 0)), Facing::Left);
    assert_eq!(set_facing(Facing::Left, WALK, &holding(1, 1)), Facing::Right);
    assert_eq!(set_facing(Facing::Left, WALK, &holding(0, 1)), Facing::Left);
    assert_eq!(set_facing(Facing::Right, Action::Idle, &InputSnapshot::new()), Facing::Right);
}

#[test]
fn set_facing_hears_a_tap() {
    let mut input = InputSnapshot::new();
    input.movement.x.negative = TAPPED;
    assert_eq!(set_facing(Facing::Right, Action::Idle, &input), Facing::Left);
    input.movement.x.positive = TAPPED;
    assert_eq!(set_facing(Facing::Right, Action::Idle, &input), Facing::Right);
    assert_eq!(set_facing(Facing::Left, Action::Idle, &input), Facing::Left);
    input.movement.x.negative = EdgeState::new();
    assert_eq!(set_facing(Facing::Left, Action::Idle, &input), Facing::Right);
}

#[test]
fn set_facing_is_locked_by_committed_actions() {
    let mut input = holding(-1, 0);
    input.movement.x.negative = PRESSED;
    for action in [Action::Attack { combo: 1 }, Action::Dash, Action::Guard, Action::Dead] {
        assert_eq!(set_facing(Facing::Right, action, &input), Facing::Right);
    }
    assert_eq!(set_facing(Facing::Right, WALK, &input), Facing::Left);
}

#[test]
fn set_direction_follows_the_action() {
    assert_eq!(set_direction(WALK, Facing::Left, Analog(-1, 1)), Direction(-1, 1));
    assert_eq!(set_direction(RUN, Facing::Right, Analog(1, -1)), Direction(1, -1));
    assert_eq!(set_direction(WALK, Facing::Right, Analog(0, -1)), Direction(0, -1));
    assert_eq!(set_direction(Action::Dash, Facing::Left, Analog(1, 1)), Direction(-1, 0));
    assert_eq!(set_direction(Action::Attack { combo: 1 }, Facing::Right, Analog(-1, 1)), Direction(1, 0));
    assert_eq!(set_direction(Action::Idle, Facing::Right, Analog(1, 1)), Direction(0, 0));
    assert_eq!(set_direction(Action::Guard, Facing::Right, Analog(1, 1)), Direction(0, 0));
    assert_eq!(set_direction(Action::Dead, Facing::Left, Analog(1, 1)), Direction(0, 0));
}

#[test]
fn movement_is_speed_times_time() {
    let mut position = Position { x: 1_000, y: -500 };
    movement(&mut position, Speed(80), Direction(1, 0), 16);
    assert_eq!(position, Position { x: 2_280, y: -500 });
    movement(&mut position, Speed(200), Direction(-1, 0), 10);
    assert_eq!(position, Position { x: 280, y: -500 });
    movement(&mut position, Speed(200), Direction(0, 0), 1_000);
    assert_eq!(position, Position { x: 280, y: -500 });
    movement(&mut position, Speed(0), Direction(1, 1), 1_000);
    assert_eq!(position, Position { x: 280, y: -500 });
    movement(&mut position, Speed(80), Direction(1, 1), 0);
    assert_eq!(position, Position { x: 280, y: -500 });
}

#[test]
fn vertical_movement_is_three_fifths_as_fast() {
    let mut position = Position { x: 0, y: 0 };
    movement(&mut position, Speed(80), Direction(0, 1), 10);
    assert_eq!(position, Position { x: 0, y: 480 });
    movement(&mut position, Speed(80), Direction(1, -1), 16);
    assert_eq!(position, Position { x: 1_280, y: 480 - 768 });
}

#[test]
fn vertical_movement_rounds_towards_the_start() {
    let mut position = Position { x: 0, y: 0 };
    movement(&mut position, Speed(1), Direction(0, 1), 1);
    assert_eq!(position.y, 0);
    movement(&mut position, Speed(1), Direction(0, -1), 1);
    assert_eq!(position.y, 0);
    movement(&mut position, Speed(1), Direction(0, 1), 3);
    assert_eq!(position.y, 1);
    movement(&mut position, Speed(3), Direction(0, -1), 1);
    assert_eq!(position.y, 0);
    movement(&mut position, Speed(1), Direction(0, -1), 2);
    assert_eq!(position.y, -1);
}

#[test]
fn movement_stops_at_the_ends_of_the_number_range() {
    let mut position = Position { x: i64::MAX - 5, y: i64::MIN + 5 };
    movement(&mut position, Speed(10), Direction(1, -1), 10);
    assert_eq!(position, Position { x: i64::MAX, y: i64::MIN });
    movement(&mut position, Speed(u32::MAX), Direction(-1, 1), u64::MAX);
    assert_eq!(position, Position { x: i64::MIN, y: i64::MAX });
}

#[test]
fn limit_brings_a_place_back_to_the_nearest_border() {
    let arena = LevelLimit::sample();
    let mut position = Position { x: 200_001, y: 35_001 };
    limit(&mut position, &arena);
    assert_eq!(position, Position { x: 200_000, y: 35_000 });
    position = Position { x: -200_001, y: -40_001 };
    limit(&mut position, &arena);
    assert_eq!(position, Position { x: -200_000, y: -40_000 });
    position = Position { x: i64::MAX, y: i64::MIN };
    limit(&mut position, &arena);
    assert_eq!(position, Position { x: 200_000, y: -40_000 });
}

#[test]
fn limit_leaves_a_place_inside_alone() {
    let arena = LevelLimit::sample();
    for place in [
        Position { x: 0, y: 0 },
        Position { x: 200_000, y: 35_000 },
        Position { x: -200_000, y: -40_000 },
        Position { x: 13, y: -39_999 },
    ] {
        let mut position = place;
        limit(&mut position, &arena);
        assert_eq!(position, place);
    }
}

#[test]
fn flip_is_told_only_on_a_turn() {
    assert_eq!(flip_x(Facing::Right, Facing::Left), Some(true));
    assert_eq!(flip_x(Facing::Left, Facing::Right), Some(false));
    assert_eq!(flip_x(Facing::Left, Facing::Left), None);
    assert_eq!(flip_x(Facing::Right, Facing::Right), None);
}

#[test]
fn movement_animation_picks_clip_and_mode() {
    let table = table();
    assert_eq!(
        movement_animation(&table, Action::Idle),
        (clip(0, 4, 1000), clip(0, 4, 1000).animation(PlaybackMode::Loop))
    );
    assert_eq!(
        movement_animation(&table, WALK),
        (clip(1, 8, 1000), clip(1, 8, 1000).animation(PlaybackMode::Loop))
    );
    assert_eq!(
        movement_animation(&table, RUN),
        (clip(2, 8, 600), clip(2, 8, 600).animation(PlaybackMode::Loop))
    );
    assert_eq!(
        movement_animation(&table, Action::Attack { combo: 3 }),
        (clip(5, 5, 500), clip(5, 5, 500).animation(PlaybackMode::Once))
    );
    assert_eq!(
        movement_animation(&table, Action::Dead),
        (clip(8, 6, 1200), clip(8, 6, 1200).animation(PlaybackMode::Once))
    );
}

#[test]
fn pressing_right_from_idle_walks_right() {
    let mut player = player();
    let told = step(&mut player, vec![down(D)], vec![], 16);
    assert_eq!(told, QUIET);
    assert_eq!(player.character.action, WALK);
    assert_eq!(player.character.facing, Facing::Right);
    assert_eq!(player.character.position, Position { x: -200_000 + 80 * 16, y: 0 });
    assert_eq!(player.character.clip, clip(1, 8, 1000));
    assert_eq!(player.character.animation.frame, 0);
    assert_eq!(player.character.animation.timer.elapsed, 16);
    let told = step(&mut player, vec![], vec![], 16);
    assert_eq!(told, QUIET);
    assert_eq!(player.character.position, Position { x: -200_000 + 2 * 80 * 16, y: 0 });
}

#[test]
fn pressing_left_turns_and_walks_left() {
    let mut player = centred();
    let told = step(&mut player, vec![down(A)], vec![], 16);
    assert_eq!(told, Tick { ended: None, flip_x: Some(true) });
    assert_eq!(player.character.facing, Facing::Left);
    assert_eq!(player.character.position, Position { x: -1_280, y: 0 });
    let told = step(&mut player, vec![], vec![], 16);
    assert_eq!(told, QUIET);
    let told = step(&mut player, vec![up(A), down(D)], vec![], 16);
    assert_eq!(told, Tick { ended: None, flip_x: Some(false) });
    assert_eq!(player.character.position, Position { x: -1_280, y: 0 });
}

#[test]
fn running_is_faster_than_walking() {
    let mut player = centred();
    step(&mut player, vec![down(SHIFT), down(D)], vec![], 10);
    assert_eq!(player.character.action, RUN);
    assert_eq!(player.character.clip, clip(2, 8, 600));
    assert_eq!(player.character.position, Position { x: 2_000, y: 0 });
    step(&mut player, vec![up(SHIFT)], vec![], 10);
    assert_eq!(player.character.action, WALK);
    assert_eq!(player.character.clip, clip(1, 8, 1000));
    assert_eq!(player.character.position, Position { x: 2_800, y: 0 });
}

#[test]
fn walking_up_moves_only_vertically() {
    let mut player = centred();
    step(&mut player, vec![down(W)], vec![], 10);
    assert_eq!(player.character.action, WALK);
    assert_eq!(player.character.position, Position { x: 0, y: 480 });
    step(&mut player, vec![up(W), down(S), down(D)], vec![], 10);
    assert_eq!(player.character.position, Position { x: 800, y: 0 });
}

#[test]
fn releasing_all_keys_returns_to_idle() {
    let mut player = centred();
    step(&mut player, vec![down(D)], vec![], 16);
    let told = step(&mut player, vec![up(D)], vec![], 16);
    assert_eq!(told, QUIET);
    assert_eq!(player.character.action, Action::Idle);
    assert_eq!(player.character.clip, clip(0, 4, 1000));
    assert_eq!(player.character.position, Position { x: 1_280, y: 0 });
}

#[test]
fn attack_from_locomotion_stops_the_character() {
    let mut player = centred();
    step(&mut player, vec![down(D)], vec![], 16);
    let told = step(&mut player, vec![], vec![LEFT_BUTTON], 16);
    assert_eq!(told, QUIET);
    assert_eq!(player.character.action, Action::Attack { combo: 1 });
    assert_eq!(player.character.clip, clip(3, 4, 400));
    assert_eq!(player.character.animation.mode, PlaybackMode::Once);
    assert_eq!(player.character.animation.timer.elapsed, 16);
    assert_eq!(player.character.position, Position { x: 1_280, y: 0 });
    step(&mut player, vec![], vec![LEFT_BUTTON], 16);
    assert_eq!(player.character.action, Action::Attack { combo: 1 });
    assert_eq!(player.character.position, Position { x: 1_280, y: 0 });
}

#[test]
fn attack_ends_with_its_animation() {
    let mut player = centred();
    step(&mut player, vec![], vec![LEFT_BUTTON], 16);
    assert_eq!(player.character.action, Action::Attack { combo: 1 });
    let told = step(&mut player, vec![], vec![], 383);
    assert_eq!(told, QUIET);
    assert_eq!(player.character.action, Action::Attack { combo: 1 });
    let told = step(&mut player, vec![], vec![], 1);
    assert_eq!(told, Tick { ended: Some(AnimationEnded(1)), flip_x: None });
    assert_eq!(player.character.action, Action::Idle);
    assert_eq!(player.character.clip, clip(0, 4, 1000));
    assert_eq!(player.character.animation, clip(0, 4, 1000).animation(PlaybackMode::Loop));
    let told = step(&mut player, vec![], vec![], 1_000);
    assert_eq!(told, QUIET);
    assert_eq!(player.character.action, Action::Idle);
}

#[test]
fn dash_during_an_attack_is_ignored() {
    let mut player = centred();
    step(&mut player, vec![], vec![LEFT_BUTTON], 16);
    let told = step(&mut player, vec![down(SPACE)], vec![], 16);
    assert_eq!(told, QUIET);
    assert_eq!(player.character.action, Action::Attack { combo: 1 });
    assert_eq!(player.character.clip, clip(3, 4, 400));
    assert_eq!(player.character.position, Position { x: 0, y: 0 });
}

#[test]
fn attack_press_near_the_end_of_a_swing_continues_the_combo() {
    let mut player = centred();
    step(&mut player, vec![], vec![LEFT_BUTTON], 16);
    step(&mut player, vec![], vec![], 185);
    assert_eq!(player.character.animation.remaining(), 199);
    step(&mut player, vec![], vec![LEFT_BUTTON], 16);
    assert_eq!(player.character.action, Action::Attack { combo: 2 });
    assert_eq!(player.character.clip, clip(4, 4, 400));
    assert_eq!(player.character.animation.timer.elapsed, 16);
    assert_eq!(player.character.animation.frame, 0);
    step(&mut player, vec![], vec![], 300);
    step(&mut player, vec![], vec![LEFT_BUTTON], 16);
    assert_eq!(player.character.action, Action::Attack { combo: 3 });
    assert_eq!(player.character.clip, clip(5, 5, 500));
    step(&mut player, vec![], vec![], 400);
    let told = step(&mut player, vec![], vec![LEFT_BUTTON], 16);
    assert_eq!(told, QUIET);
    assert_eq!(player.character.action, Action::Attack { combo: 3 });
    assert_eq!(player.character.animation.remaining(), 500 - 16 - 400 - 16);
}

#[test]
fn attack_press_early_in_a_swing_is_ignored() {
    let mut player = centred();
    step(&mut player, vec![], vec![LEFT_BUTTON], 16);
    step(&mut player, vec![], vec![], 184);
    assert_eq!(player.character.animation.remaining(), 200);
    step(&mut player, vec![], vec![LEFT_BUTTON], 16);
    assert_eq!(player.character.action, Action::Attack { combo: 1 });
    assert_eq!(player.character.animation.remaining(), 184);
}

#[test]
fn guard_plays_once_and_ends() {
    let mut player = centred();
    step(&mut player, vec![down(D)], vec![RIGHT_BUTTON], 100);
    assert_eq!(player.character.action, Action::Guard);
    assert_eq!(player.character.clip, clip(6, 2, 300));
    assert_eq!(player.character.position, Position { x: 0, y: 0 });
    let told = step(&mut player, vec![], vec![RIGHT_BUTTON], 200);
    assert_eq!(told, Tick { ended: Some(AnimationEnded(1)), flip_x: None });
    assert_eq!(player.character.action, Action::Idle);
    step(&mut player, vec![], vec![RIGHT_BUTTON], 16);
    assert_eq!(player.character.action, WALK);
}

#[test]
fn dash_moves_the_way_the_character_faces() {
    let mut player = centred();
    step(&mut player, vec![down(A)], vec![], 0);
    step(&mut player, vec![up(A), down(SPACE)], vec![], 16);
    assert_eq!(player.character.action, Action::Dash);
    assert_eq!(player.character.facing, Facing::Left);
    assert_eq!(player.character.position, Position { x: -6_400, y: 0 });
    step(&mut player, vec![down(D), down(W)], vec![], 16);
    assert_eq!(player.character.facing, Facing::Left);
    assert_eq!(player.character.position, Position { x: -12_800, y: 0 });
    let told = step(&mut player, vec![], vec![], 268);
    assert_eq!(told, Tick { ended: Some(AnimationEnded(1)), flip_x: None });
    assert_eq!(player.character.action, Action::Idle);
    assert_eq!(player.character.position, Position { x: -12_800 - 400 * 268, y: 0 });
}

#[test]
fn tap_within_one_tick_is_not_lost() {
    let mut player = centred();
    step(&mut player, vec![down(SPACE), up(SPACE)], vec![], 16);
    assert_eq!(player.character.action, Action::Dash);
    assert_eq!(player.input.dash, EdgeState::new());
}

#[test]
fn edges_are_cleared_after_the_tick_has_read_them() {
    let mut player = centred();
    step(&mut player, vec![down(D), down(SHIFT)], vec![LEFT_BUTTON], 16);
    assert_eq!(player.character.action, Action::Attack { combo: 1 });
    assert_eq!(player.input.attack, HELD);
    assert_eq!(player.input.run, HELD);
    assert_eq!(player.input.movement.x.positive, HELD);
    assert_eq!(player.input.movement.analog(), Analog(1, 0));
    assert_eq!(player.binding, binding());
}

#[test]
fn facing_is_locked_during_an_attack() {
    let mut player = centred();
    step(&mut player, vec![], vec![LEFT_BUTTON], 16);
    let told = step(&mut player, vec![down(A)], vec![], 16);
    assert_eq!(told, QUIET);
    assert_eq!(player.character.facing, Facing::Right);
    let told = step(&mut player, vec![], vec![], 368);
    assert_eq!(told, Tick { ended: Some(AnimationEnded(1)), flip_x: None });
    assert_eq!(player.character.facing, Facing::Right);
    let told = step(&mut player, vec![], vec![], 16);
    assert_eq!(told, Tick { ended: None, flip_x: Some(true) });
    assert_eq!(player.character.facing, Facing::Left);
    assert_eq!(player.character.action, WALK);
}

#[test]
fn facing_is_locked_during_dash_and_guard() {
    for (events, held) in [(vec![down(SPACE)], vec![]), (vec![], vec![RIGHT_BUTTON])] {
        let mut player = centred();
        step(&mut player, events, held, 16);
        assert!(player.character.action.committed());
        let told = step(&mut player, vec![down(A)], vec![], 16);
        assert_eq!(told.flip_x, None);
        assert_eq!(player.character.facing, Facing::Right);
    }
}

#[test]
fn attack_drift_moves_a_swinging_character_forward() {
    let mut player = centred();
    player.character.speeds.attack = 50;
    step(&mut player, vec![], vec![LEFT_BUTTON], 16);
    assert_eq!(player.character.position, Position { x: 800, y: 0 });
}

#[test]
fn position_stays_in_the_arena_at_any_speed() {
    let arena = LevelLimit::sample();
    let table = table();
    let cases = [
        (holding(1, 1), Position { x: 200_000, y: 35_000 }),
        (holding(-1, -1), Position { x: -200_000, y: -40_000 }),
        (holding(1, -1), Position { x: 200_000, y: -40_000 }),
        (holding(-1, 0), Position { x: -200_000, y: 0 }),
    ];
    for (input, corner) in cases {
        let mut character = samurai();
        character.position = Position { x: 0, y: 0 };
        character.speeds.walk = u32::MAX;
        tick(&mut character, &input, &table, &arena, u64::MAX);
        assert_eq!(character.position, corner);
    }
}

#[test]
fn position_is_clamped_on_every_tick() {
    let mut player = player();
    for _ in 0..400 {
        step(&mut player, vec![down(D), down(W), down(SHIFT)], vec![], 16);
        let position = player.character.position;
        assert!(-200_000 <= position.x && position.x <= 200_000);
        assert!(-40_000 <= position.y && position.y <= 35_000);
    }
    assert_eq!(player.character.position, Position { x: 200_000, y: 35_000 });
}

#[test]
fn character_outside_the_arena_is_brought_back() {
    let mut character = samurai();
    character.position = Position { x: 900_000, y: -900_000 };
    tick(&mut character, &InputSnapshot::new(), &table(), &LevelLimit::sample(), 16);
    assert_eq!(character.position, Position { x: 200_000, y: -40_000 });
}

#[test]
fn death_is_final() {
    let mut player = centred();
    step(&mut player, vec![down(D)], vec![], 16);
    player.character.alive = false;
    let told = step(&mut player, vec![], vec![], 16);
    assert_eq!(told, QUIET);
    assert_eq!(player.character.action, Action::Dead);
    assert_eq!(player.character.clip, clip(8, 6, 1200));
    assert_eq!(player.character.position, Position { x: 1_280, y: 0 });
    let told = step(&mut player, vec![down(A), down(SPACE)], vec![LEFT_BUTTON], 1_184);
    assert_eq!(told, Tick { ended: Some(AnimationEnded(1)), flip_x: None });
    assert_eq!(player.character.action, Action::Dead);
    assert_eq!(player.character.animation.frame, 5);
    player.character.alive = true;
    for _ in 0..10 {
        let told = step(&mut player, vec![down(SPACE)], vec![], 500);
        assert_eq!(told, QUIET);
        assert_eq!(player.character.action, Action::Dead);
        assert_eq!(player.character.animation.frame, 5);
        assert_eq!(player.character.facing, Facing::Right);
        assert_eq!(player.character.position, Position { x: 1_280, y: 0 });
    }
}

#[test]
fn dying_in_mid_swing_replaces_the_swing() {
    let mut player = centred();
    step(&mut player, vec![], vec![LEFT_BUTTON], 16);
    player.character.alive = false;
    let told = step(&mut player, vec![], vec![], 399);
    assert_eq!(told, QUIET);
    assert_eq!(player.character.action, Action::Dead);
    assert_eq!(player.character.clip, clip(8, 6, 1200));
    assert_eq!(player.character.animation.frame, 1);
    assert_eq!(player.character.animation.timer.elapsed, 199);
}

#[test]
fn idle_animation_loops_while_nothing_happens() {
    let mut player = centred();
    let mut frames = Vec::new();
    for _ in 0..8 {
        let told = step(&mut player, vec![], vec![], 250);
        assert_eq!(told, QUIET);
        frames.push(player.character.animation.frame);
    }
    assert_eq!(frames, vec![1, 2, 3, 0, 1, 2, 3, 0]);
}

#[test]
fn tick_runs_on_a_given_snapshot() {
    let mut character = samurai();
    let mut input = holding(1, 0);
    input.movement.x.positive = PRESSED;
    input.run = HELD;
    let told = tick(&mut character, &input, &table(), &LevelLimit::sample(), 20);
    assert_eq!(told, QUIET);
    assert_eq!(character.action, RUN);
    assert_eq!(character.position, Position { x: -196_000, y: 0 });
}

#[test]
fn character_is_valid_while_clip_and_action_agree() {
    let mut player = centred();
    assert!(player.character.valid());
    step(&mut player, vec![down(D)], vec![LEFT_BUTTON], 16);
    assert!(player.character.valid());
    let mut odd = samurai();
    odd.action = Action::Dash;
    assert!(!odd.valid());
    odd = samurai();
    odd.action = Action::Attack { combo: 0 };
    assert!(!odd.valid());
    odd = samurai();
    odd.animation.frame = 4;
    assert!(!odd.valid());
}
