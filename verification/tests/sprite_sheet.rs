use action_controller::sprite_sheet::{
    animate, Animation, AnimationEnded, AnimationIndex, AnimationTimer, PlaybackMode,
};

#[test]
fn timer_starts_empty() {
    let timer = AnimationTimer::new(250);
    assert_eq!(timer, AnimationTimer { period: 250, elapsed: 0 });
}

#[test]
fn timer_accumulates_below_its_period() {
    let mut timer = AnimationTimer::new(250);
    assert_eq!(timer.tick(100), 0);
    assert_eq!(timer.elapsed, 100);
    assert_eq!(timer.tick(149), 0);
    assert_eq!(timer.elapsed, 249);
}

#[test]
fn timer_finishes_on_reaching_its_period() {
    let mut timer = AnimationTimer::new(250);
    timer.tick(249);
    assert_eq!(timer.tick(1), 1);
    assert_eq!(timer.elapsed, 0);
}

#[test]
fn timer_counts_every_period_of_a_long_tick() {
    let mut timer = AnimationTimer::new(250);
    timer.tick(200);
    assert_eq!(timer.tick(1000), 4);
    assert_eq!(timer.elapsed, 200);
    assert_eq!(timer.tick(60), 1);
    assert_eq!(timer.elapsed, 10);
}

#[test]
fn timer_takes_the_longest_tick() {
    let mut timer = AnimationTimer::new(u64::MAX);
    timer.tick(u64::MAX - 1);
    assert_eq!(timer.tick(u64::MAX), 1);
    assert_eq!(timer.elapsed, u64::MAX - 1);
    let mut fast = AnimationTimer::new(1);
    assert_eq!(fast.tick(u64::MAX), u64::MAX);
    assert_eq!(fast.elapsed, 0);
}

#[test]
fn index_keeps_its_ends() {
    assert_eq!(AnimationIndex::new(2, 9), AnimationIndex { start: 2, end: 9 });
}

#[test]
fn animation_divides_its_duration_by_the_frame_count() {
    let animation = Animation::new(1000, 0, 3);
    assert_eq!(animation.timer, AnimationTimer { period: 250, elapsed: 0 });
    assert_eq!(animation.index, AnimationIndex { start: 0, end: 3 });
    assert_eq!(animation.frame, 0);
    assert_eq!(animation.mode, PlaybackMode::Loop);
    assert!(!animation.ended);
    assert_eq!(Animation::new(600, 0, 7).timer.period, 75);
    assert_eq!(Animation::new(1000, 4, 6).timer.period, 333);
    assert_eq!(Animation::new(5, 3, 3).timer.period, 5);
}

#[test]
fn no_repeat_changes_the_mode_only() {
    let animation = Animation::new(1000, 0, 3).no_repeat();
    assert_eq!(animation.mode, PlaybackMode::Once);
    assert_eq!(animation.timer.period, 250);
    assert_eq!(animation.frame, 0);
    assert!(!animation.ended);
}

#[test]
fn loop_advances_one_frame_per_period() {
    let mut animation = Animation::new(1000, 0, 3);
    assert_eq!(animate(&mut animation, 1, 249), None);
    assert_eq!(animation.frame, 0);
    assert_eq!(animate(&mut animation, 1, 1), None);
    assert_eq!(animation.frame, 1);
    assert_eq!(animate(&mut animation, 1, 250), None);
    assert_eq!(animation.frame, 2);
}

#[test]
fn loop_wraps_to_the_first_frame() {
    let mut animation = Animation::new(1000, 2, 5);
    assert_eq!(animate(&mut animation, 1, 750), None);
    assert_eq!(animation.frame, 5);
    assert_eq!(animate(&mut animation, 1, 250), None);
    assert_eq!(animation.frame, 2);
    assert!(!animation.ended);
}

#[test]
fn loop_catches_up_after_a_stall() {
    let mut animation = Animation::new(1000, 0, 3);
    assert_eq!(animate(&mut animation, 1, 2600), None);
    assert_eq!(animation.frame, 2);
    assert_eq!(animation.timer.elapsed, 100);
    assert_eq!(animate(&mut animation, 1, u64::MAX), None);
    assert!(animation.frame <= 3);
}

#[test]
fn loop_frame_is_non_decreasing_between_wraps_and_stays_in_the_clip() {
    let mut animation = Animation::new(800, 3, 10);
    let mut last = animation.frame;
    let mut wraps = 0;
    for _ in 0..200 {
        assert_eq!(animate(&mut animation, 1, 16), None);
        assert!(3 <= animation.frame && animation.frame <= 10);
        if animation.frame < last {
            assert_eq!(animation.frame, 3);
            assert_eq!(last, 10);
            wraps += 1;
        }
        last = animation.frame;
    }
    assert_eq!(wraps, 4);
    assert_eq!(animation.frame, 3);
}

#[test]
fn loop_sampled_in_ticks_equals_one_long_tick() {
    let mut sampled = Animation::new(1000, 0, 3);
    for delta in [16, 700, 3, 250, 1031] {
        animate(&mut sampled, 1, delta);
    }
    let mut whole = Animation::new(1000, 0, 3);
    animate(&mut whole, 1, 2000);
    assert_eq!(sampled, whole);
    assert_eq!(whole.frame, 0);
}

#[test]
fn once_signals_on_the_tick_that_plays_it_out() {
    let mut animation = Animation::new(400, 0, 3).no_repeat();
    assert_eq!(animate(&mut animation, 7, 399), None);
    assert_eq!(animation.frame, 3);
    assert!(!animation.ended);
    assert_eq!(animate(&mut animation, 7, 1), Some(AnimationEnded(7)));
    assert_eq!(animation.frame, 3);
    assert!(animation.ended);
}

#[test]
fn once_never_signals_twice() {
    let mut animation = Animation::new(400, 0, 3).no_repeat();
    let mut signals = 0;
    for _ in 0..100 {
        if animate(&mut animation, 7, 16).is_some() {
            signals += 1;
        }
        assert!(animation.frame <= 3);
    }
    assert_eq!(signals, 1);
    assert_eq!(animation.frame, 3);
    let rested = animation;
    assert_eq!(animate(&mut animation, 7, 10_000), None);
    assert_eq!(animation, rested);
}

#[test]
fn once_signals_not_before_its_length_has_passed() {
    let mut animation = Animation::new(400, 0, 3).no_repeat();
    let mut passed = 0;
    loop {
        let signal = animate(&mut animation, 7, 16);
        passed += 16;
        if signal.is_some() {
            break;
        }
        assert!(passed < 400);
    }
    assert_eq!(passed, 400);
}

#[test]
fn once_signals_after_a_stall() {
    let mut animation = Animation::new(400, 0, 3).no_repeat();
    assert_eq!(animate(&mut animation, 9, 5000), Some(AnimationEnded(9)));
    assert_eq!(animation.frame, 3);
    assert_eq!(animation.timer.elapsed, 0);
}

#[test]
fn once_with_one_frame_ends_after_its_duration() {
    let mut animation = Animation::new(100, 5, 5).no_repeat();
    assert_eq!(animate(&mut animation, 1, 99), None);
    assert_eq!(animate(&mut animation, 1, 1), Some(AnimationEnded(1)));
}

#[test]
fn remaining_counts_down_to_the_end_of_the_clip() {
    let mut animation = Animation::new(400, 0, 3).no_repeat();
    assert_eq!(animation.remaining(), 400);
    animate(&mut animation, 1, 130);
    assert_eq!(animation.remaining(), 270);
    animate(&mut animation, 1, 269);
    assert_eq!(animation.remaining(), 1);
    animate(&mut animation, 1, 1);
    assert_eq!(animation.remaining(), 0);
}

#[test]
fn remaining_of_a_loop_is_the_time_to_the_wrap() {
    let mut animation = Animation::new(1000, 0, 3);
    animate(&mut animation, 1, 1100);
    assert_eq!(animation.remaining(), 900);
}

#[test]
fn timer_is_valid_with_a_period_that_is_not_filled() {
    assert!(AnimationTimer { period: 1, elapsed: 0 }.valid());
    assert!(AnimationTimer { period: 250, elapsed: 249 }.valid());
    assert!(!AnimationTimer { period: 250, elapsed: 250 }.valid());
    assert!(!AnimationTimer { period: 0, elapsed: 0 }.valid());
}

#[test]
fn animation_is_valid_while_its_frame_is_in_the_clip() {
    let fresh = Animation::new(1000, 2, 5);
    assert!(fresh.valid());
    assert!(fresh.no_repeat().valid());
    assert!(Animation { frame: 5, ..fresh }.valid());
    assert!(!Animation { frame: 6, ..fresh }.valid());
    assert!(!Animation { frame: 1, ..fresh }.valid());
    assert!(!Animation { index: AnimationIndex::new(5, 2), ..fresh }.valid());
    assert!(!Animation { timer: AnimationTimer { period: 250, elapsed: 250 }, ..fresh }.valid());
}

#[test]
fn animation_is_valid_only_with_a_length_that_fits() {
    let long = Animation {
        timer: AnimationTimer { period: u64::MAX, elapsed: 0 },
        index: AnimationIndex::new(0, 0),
        frame: 0,
        mode: PlaybackMode::Loop,
        ended: false,
    };
    assert!(long.valid());
    assert!(!Animation { index: AnimationIndex::new(0, 1), ..long }.valid());
}

#[test]
fn only_a_rested_play_once_clip_may_have_ended() {
    let fresh = Animation::new(1000, 2, 5);
    assert!(!Animation { ended: true, frame: 5, ..fresh }.valid());
    assert!(!Animation { ended: true, ..fresh.no_repeat() }.valid());
    assert!(Animation { ended: true, frame: 5, ..fresh.no_repeat() }.valid());
}
