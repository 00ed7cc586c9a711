//! The animation player: a frame index advanced by a repeating timer.

use vstd::prelude::*;
use vstd::arithmetic::div_mod::{
    lemma_add_mod_noop, lemma_add_mod_noop_right, lemma_basic_div, lemma_div_pos_is_pos,
    lemma_fundamental_div_mod, lemma_fundamental_div_mod_converse, lemma_mod_bound,
    lemma_mod_twice, lemma_small_mod,
};
use vstd::arithmetic::mul::{lemma_mul_is_commutative, lemma_mul_is_distributive_add_other_way};

verus! {

/// A repeating timer that counts how often its period has elapsed.
#[derive(Clone, Copy, Debug, PartialEq, Eq, Structural)]
pub struct AnimationTimer {
    /// Length of one period, in milliseconds.
    pub period: u64,
    /// Time accumulated since the last completed period, in milliseconds.
    pub elapsed: u64,
}

impl AnimationTimer {
    /// A timer has a positive period and has not yet filled it.
    pub open spec fn wf(self) -> bool {
        0 < self.period && self.elapsed < self.period
    }

    /// Checks that the timer is well-formed.
    pub fn valid(&self) -> (valid: bool)
        ensures
            valid == self.wf(),
    {
        0 < self.period && self.elapsed < self.period
    }

    /// A timer of period `ms` with nothing accumulated.
    pub fn new(ms: u64) -> (timer: AnimationTimer)
        requires
            ms > 0,
        ensures
            timer.period == ms,
            timer.elapsed == 0,
            timer.wf(),
    {
        AnimationTimer { period: ms, elapsed: 0 }
    }

    /// Accumulates `delta` milliseconds and returns how many periods were
    /// completed by it; what is left over stays accumulated.
    pub fn tick(&mut self, delta: u64) -> (times: u64)
        requires
            old(self).wf(),
        ensures
            final(self).period == old(self).period,
            final(self).elapsed == (old(self).elapsed + delta) % (old(self).period as int),
            times == (old(self).elapsed + delta) / (old(self).period as int),
            final(self).wf(),
    {
        let whole: u64 = delta / self.period;
        let part: u64 = delta % self.period;
        let room: u64 = self.period - self.elapsed;
        proof {
            lemma_fundamental_div_mod(delta as int, self.period as int);
            lemma_mul_is_commutative(self.period as int, whole as int);
        }
        if part >= room {
            assert(whole < u64::MAX) by (nonlinear_arith)
                requires
                    delta == whole * self.period + part,
                    self.period >= 2,
            ;
            proof {
                lemma_mul_is_distributive_add_other_way(self.period as int, whole as int, 1);
                lemma_fundamental_div_mod_converse(
                    self.elapsed + delta,
                    self.period as int,
                    whole + 1,
                    part - room,
                );
            }
            self.elapsed = part - room;
            whole + 1
        } else {
            proof {
                lemma_fundamental_div_mod_converse(
                    self.elapsed + delta,
                    self.period as int,
                    whole as int,
                    self.elapsed + part,
                );
            }
            self.elapsed = self.elapsed + part;
            whole
        }
    }
}

/// The first and last frame of a clip on its sprite sheet.
#[derive(Clone, Copy, Debug, PartialEq, Eq, Structural)]
pub struct AnimationIndex {
    pub start: usize,
    pub end: usize,
}

impl AnimationIndex {
    /// The range holds at least one frame.
    pub open spec fn wf(self) -> bool {
        self.start <= self.end
    }

    /// Number of frames in the range.
    pub open spec fn frames(self) -> int {
        self.end - self.start + 1
    }

    /// The frames `start..=end`.
    pub fn new(start: usize, end: usize) -> (index: AnimationIndex)
        ensures
            index.start == start,
            index.end == end,
    {
        AnimationIndex { start, end }
    }
}

/// What a clip does when it runs past its last frame.
#[derive(Clone, Copy, Debug, PartialEq, Eq, Structural)]
pub enum PlaybackMode {
    /// Wrap around to the first frame.
    Loop,
    /// Stay on the last frame and signal the end once.
    Once,
}

/// Signal that the play-once clip of the character with this identity
/// has run to its end.
#[derive(Clone, Copy, Debug, PartialEq, Eq, Structural)]
pub struct AnimationEnded(pub u32);

/// Playback state of one clip.
#[derive(Clone, Copy, Debug, PartialEq, Eq, Structural)]
pub struct Animation {
    pub timer: AnimationTimer,
    pub index: AnimationIndex,
    /// The frame shown now.
    pub frame: usize,
    pub mode: PlaybackMode,
    /// Whether a play-once clip has already signalled its end.
    pub ended: bool,
}

impl Animation {
    /// The shown frame lies in the clip, the whole clip lasts no longer
    /// than a `u64` of milliseconds, and only a play-once clip resting on
    /// its last frame has ended.
    pub open spec fn wf(self) -> bool {
        &&& self.timer.wf()
        &&& self.index.wf()
        &&& self.index.start <= self.frame <= self.index.end
        &&& self.index.frames() * self.timer.period <= u64::MAX
        &&& self.ended ==> self.mode == PlaybackMode::Once && self.frame == self.index.end
    }

    /// Whole frame periods completed when `delta` more milliseconds pass.
    pub open spec fn steps(self, delta: nat) -> int {
        (self.timer.elapsed + delta) / (self.timer.period as int)
    }

    /// Time played since the clip stood at the start of its first frame.
    pub open spec fn played(self) -> int {
        (self.frame - self.index.start) * self.timer.period + self.timer.elapsed
    }

    /// Length of the whole clip.
    pub open spec fn length(self) -> int {
        self.index.frames() * self.timer.period
    }

    /// Time left until the clip runs past its last frame; none once it
    /// has ended.
    pub open spec fn spec_remaining(self) -> int {
        if self.ended {
            0
        } else {
            self.length() - self.played()
        }
    }

    /// Whether `delta` more milliseconds carry a play-once clip past its
    /// last frame for the first time.
    pub open spec fn ends(self, delta: nat) -> bool {
        &&& self.mode == PlaybackMode::Once
        &&& !self.ended
        &&& self.steps(delta) > self.index.end - self.frame
    }

    /// The playback state after `delta` more milliseconds.
    pub open spec fn advanced(self, delta: nat) -> Animation {
        let timer = AnimationTimer {
            period: self.timer.period,
            elapsed: ((self.timer.elapsed + delta) % (self.timer.period as int)) as u64,
        };
        match self.mode {
            PlaybackMode::Loop => Animation {
                timer,
                frame: (self.index.start + (self.frame - self.index.start + self.steps(delta))
                    % self.index.frames()) as usize,
                ..self
            },
            PlaybackMode::Once => if self.ended {
                self
            } else if self.ends(delta) {
                Animation {
                    timer: AnimationTimer { period: self.timer.period, elapsed: 0 },
                    frame: self.index.end,
                    ended: true,
                    ..self
                }
            } else {
                Animation { timer, frame: (self.frame + self.steps(delta)) as usize, ..self }
            },
        }
    }

    /// Checks that the playback state is well-formed.
    pub fn valid(&self) -> (valid: bool)
        ensures
            valid == self.wf(),
    {
        if !self.timer.valid() || self.index.start > self.index.end {
            return false;
        }
        let frames: u128 = (self.index.end - self.index.start) as u128 + 1;
        assert(frames * self.timer.period <= 0x1_0000_0000_0000_0000 * 0xffff_ffff_ffff_ffff)
            by (nonlinear_arith)
            requires
                0 <= frames <= 0x1_0000_0000_0000_0000,
                0 <= self.timer.period <= 0xffff_ffff_ffff_ffff,
        ;
        let rests = match self.mode {
            PlaybackMode::Once => self.frame == self.index.end,
            PlaybackMode::Loop => false,
        };
        self.index.start <= self.frame && self.frame <= self.index.end && frames
            * self.timer.period as u128 <= u64::MAX as u128 && (!self.ended || rests)
    }

    /// A looping clip over the frames `start..=end` that takes `duration`
    /// milliseconds in all, standing at its first frame.
    pub fn new(duration: u64, start: usize, end: usize) -> (animation: Animation)
        requires
            start <= end,
            end - start < duration,
        ensures
            animation.timer.period == duration as int / (end - start + 1),
            animation.timer.elapsed == 0,
            animation.index.start == start,
            animation.index.end == end,
            animation.frame == start,
            animation.mode == PlaybackMode::Loop,
            !animation.ended,
            animation.wf(),
    {
        let frames: u64 = (end - start) as u64 + 1;
        let period: u64 = duration / frames;
        proof {
            lemma_fundamental_div_mod(duration as int, frames as int);
            assert(period >= 1) by (nonlinear_arith)
                requires
                    duration == frames * period + duration % frames,
                    0 <= duration % frames < frames,
                    frames <= duration,
                    period >= 0,
            ;
        }
        Animation {
            timer: AnimationTimer::new(period),
            index: AnimationIndex::new(start, end),
            frame: start,
            mode: PlaybackMode::Loop,
            ended: false,
        }
    }

    /// The same clip, played once: it stops on its last frame and signals.
    pub fn no_repeat(self) -> (animation: Animation)
        ensures
            animation == (Animation { mode: PlaybackMode::Once, ended: false, ..self }),
            self.wf() ==> animation.wf(),
    {
        Animation { mode: PlaybackMode::Once, ended: false, ..self }
    }

    /// Time left until the clip runs past its last frame.
    pub fn remaining(&self) -> (left: u64)
        requires
            self.wf(),
        ensures
            left == self.spec_remaining(),
    {
        if self.ended {
            0
        } else {
            let frames_left: u64 = (self.index.end - self.frame) as u64;
            assert(frames_left * self.timer.period + self.timer.period
                == self.length() - (self.frame - self.index.start) * self.timer.period)
                by (nonlinear_arith)
                requires
                    frames_left == self.index.end - self.frame,
                    self.length() == (self.index.end - self.index.start + 1) * self.timer.period,
            ;
            assert(0 <= (self.frame - self.index.start) * self.timer.period) by (nonlinear_arith)
                requires
                    self.frame >= self.index.start,
            ;
            frames_left * self.timer.period + (self.timer.period - self.timer.elapsed)
        }
    }
}

/// Advances the clip of the character `entity` by `delta` milliseconds.
///
/// Every whole frame period that has passed moves the shown frame on by
/// one, however many there were. A looping clip wraps around to its first
/// frame. A play-once clip stops on its last frame, and the call that
/// carries it past that frame, and no later one, returns the signal.
pub fn animate(animation: &mut Animation, entity: u32, delta: u64) -> (signal: Option<
    AnimationEnded,
>)
    requires
        old(animation).wf(),
    ensures
        *final(animation) == old(animation).advanced(delta as nat),
        signal == if old(animation).ends(delta as nat) {
            Some(AnimationEnded(entity))
        } else {
            None
        },
        final(animation).wf(),
{
    let start: usize = animation.index.start;
    let end: usize = animation.index.end;
    let frame: usize = animation.frame;
    match animation.mode {
        PlaybackMode::Loop => {
            let steps: u64 = animation.timer.tick(delta);
            assert(animation.index.frames() <= u64::MAX) by (nonlinear_arith)
                requires
                    animation.index.frames() * animation.timer.period <= u64::MAX,
                    animation.timer.period >= 1,
            ;
            let frames: u64 = (end - start) as u64 + 1;
            let offset: u64 = (frame - start) as u64;
            let part: u64 = steps % frames;
            let room: u64 = frames - offset;
            let wrapped: u64 = if part >= room {
                part - room
            } else {
                offset + part
            };
            proof {
                lemma_add_mod_noop_right(offset as int, steps as int, frames as int);
                if part >= room {
                    lemma_fundamental_div_mod_converse(
                        offset + part,
                        frames as int,
                        1,
                        wrapped as int,
                    );
                } else {
                    lemma_small_mod((offset + part) as nat, frames as nat);
                }
            }
            animation.frame = start + wrapped as usize;
            None
        },
        PlaybackMode::Once => {
            if animation.ended {
                None
            } else {
                let steps: u64 = animation.timer.tick(delta);
                let left: u64 = (end - frame) as u64;
                if steps > left {
                    animation.timer.elapsed = 0;
                    animation.frame = end;
                    animation.ended = true;
                    Some(AnimationEnded(entity))
                } else {
                    animation.frame = frame + steps as usize;
                    None
                }
            }
        },
    }
}

/// Sum of the time steps of a run of ticks.
pub open spec fn total(deltas: Seq<u64>) -> nat
    decreases deltas.len(),
{
    if deltas.len() == 0 {
        0
    } else {
        deltas[0] as nat + total(deltas.drop_first())
    }
}

impl Animation {
    /// The playback state after a run of ticks, one per time step.
    pub open spec fn run(self, deltas: Seq<u64>) -> Animation
        decreases deltas.len(),
    {
        if deltas.len() == 0 {
            self
        } else {
            self.advanced(deltas[0] as nat).run(deltas.drop_first())
        }
    }

    /// How many of a run of ticks return the end signal.
    pub open spec fn signals(self, deltas: Seq<u64>) -> nat
        decreases deltas.len(),
    {
        if deltas.len() == 0 {
            0
        } else {
            let first: nat = if self.ends(deltas[0] as nat) {
                1
            } else {
                0
            };
            first + self.advanced(deltas[0] as nat).signals(deltas.drop_first())
        }
    }

    /// A looping clip moves on by exactly the time that passes, counted
    /// around the length of the clip: its frame never leaves the clip, and
    /// it goes forward one frame per period until it wraps to the first.
    pub proof fn law_loop_advances_cyclically(self, delta: nat)
        requires
            self.wf(),
            self.mode == PlaybackMode::Loop,
        ensures
            self.advanced(delta).wf(),
            self.advanced(delta).mode == PlaybackMode::Loop,
            self.index.start <= self.advanced(delta).frame <= self.index.end,
            self.advanced(delta).played() == (self.played() + delta) % self.length(),
            self.frame + self.steps(delta) <= self.index.end ==> self.advanced(delta).frame
                == self.frame + self.steps(delta),
    {
        let period = self.timer.period as int;
        let frames = self.index.frames();
        let offset = self.frame - self.index.start;
        let time = self.timer.elapsed + delta;
        let steps = self.steps(delta);
        let rest = time % period;
        let laps = (offset + steps) / frames;
        let wrapped = (offset + steps) % frames;
        lemma_fundamental_div_mod(time, period);
        lemma_mod_bound(time, period);
        lemma_div_pos_is_pos(time, period);
        lemma_fundamental_div_mod(offset + steps, frames);
        lemma_mod_bound(offset + steps, frames);
        if offset + steps < frames {
            lemma_small_mod((offset + steps) as nat, frames as nat);
        }
        assert(self.played() + delta == laps * (frames * period) + (wrapped * period + rest))
            by (nonlinear_arith)
            requires
                self.played() == offset * period + self.timer.elapsed,
                self.timer.elapsed + delta == period * steps + rest,
                offset + steps == frames * laps + wrapped,
        ;
        assert(0 <= wrapped * period + rest < frames * period) by (nonlinear_arith)
            requires
                0 <= wrapped < frames,
                0 <= rest < period,
        ;
        lemma_fundamental_div_mod_converse(
            self.played() + delta,
            frames * period,
            laps,
            wrapped * period + rest,
        );
    }

    /// A play-once clip that has not ended signals its end on the tick
    /// that brings the time played up to the length of the clip, and on no
    /// tick before it; until then it moves on by exactly the time that
    /// passes.
    pub proof fn law_once_ends_when_played_out(self, delta: nat)
        requires
            self.wf(),
            self.mode == PlaybackMode::Once,
            !self.ended,
        ensures
            self.advanced(delta).wf(),
            self.advanced(delta).mode == PlaybackMode::Once,
            self.ends(delta) <==> self.played() + delta >= self.length(),
            self.advanced(delta).ended == self.ends(delta),
            !self.ends(delta) ==> self.advanced(delta).played() == self.played() + delta,
    {
        let period = self.timer.period as int;
        let frames = self.index.frames();
        let offset = self.frame - self.index.start;
        let time = self.timer.elapsed + delta;
        let steps = self.steps(delta);
        let rest = time % period;
        lemma_fundamental_div_mod(time, period);
        lemma_mod_bound(time, period);
        lemma_div_pos_is_pos(time, period);
        assert(self.played() + delta == (offset + steps) * period + rest) by (nonlinear_arith)
            requires
                self.played() == offset * period + self.timer.elapsed,
                self.timer.elapsed + delta == period * steps + rest,
        ;
        assert(offset + steps >= frames <==> (offset + steps) * period + rest >= frames * period)
            by (nonlinear_arith)
            requires
                0 <= rest < period,
        ;
    }

    /// Over any run of ticks a play-once clip signals its end exactly once
    /// if the time played reaches the length of the clip, which for a clip
    /// of `F` frames started afresh is `F` frame periods, and never
    /// otherwise: not before that time, and not a second time after it.
    pub proof fn law_once_signals_exactly_once(self, deltas: Seq<u64>)
        requires
            self.wf(),
            self.mode == PlaybackMode::Once,
        ensures
            self.run(deltas).wf(),
            self.signals(deltas) == if !self.ended && self.played() + total(deltas)
                >= self.length() {
                1nat
            } else {
                0nat
            },
        decreases deltas.len(),
    {
        self.lemma_played_within_length();
        if deltas.len() > 0 {
            let delta = deltas[0] as nat;
            let next = self.advanced(delta);
            if !self.ended {
                self.law_once_ends_when_played_out(delta);
            }
            next.law_once_signals_exactly_once(deltas.drop_first());
            assert(next.length() == self.length());
            assert(total(deltas) == delta + total(deltas.drop_first()));
            assert(self.run(deltas) == next.run(deltas.drop_first()));
        }
    }

    /// Sampling a looping clip tick by tick shows the same frame as one
    /// long tick over the same time would.
    pub proof fn law_loop_run_is_one_advance(self, deltas: Seq<u64>)
        requires
            self.wf(),
            self.mode == PlaybackMode::Loop,
        ensures
            self.run(deltas) == self.advanced(total(deltas)),
        decreases deltas.len(),
    {
        if deltas.len() == 0 {
            self.lemma_advance_by_nothing();
        } else {
            let first = deltas[0] as nat;
            let rest = total(deltas.drop_first());
            self.law_loop_advances_cyclically(first);
            self.advanced(first).law_loop_run_is_one_advance(deltas.drop_first());
            self.lemma_loop_advances_add(first, rest);
        }
    }

    /// Playing on keeps the playback state well-formed.
    pub proof fn lemma_advanced_wf(self, delta: nat)
        requires
            self.wf(),
        ensures
            self.advanced(delta).wf(),
    {
        match self.mode {
            PlaybackMode::Loop => self.law_loop_advances_cyclically(delta),
            PlaybackMode::Once => if !self.ended {
                self.law_once_ends_when_played_out(delta);
            },
        }
    }

    /// The time played is always less than the length of the clip.
    pub proof fn lemma_played_within_length(self)
        requires
            self.wf(),
        ensures
            0 <= self.played() < self.length(),
    {
        let period = self.timer.period as int;
        let frames = self.index.frames();
        let offset = self.frame - self.index.start;
        assert(0 <= offset * period && offset * period + period <= frames * period)
            by (nonlinear_arith)
            requires
                0 <= offset < frames,
                period > 0,
        ;
    }

    proof fn lemma_advance_by_nothing(self)
        requires
            self.wf(),
            self.mode == PlaybackMode::Loop,
        ensures
            self.advanced(0) == self,
    {
        let period = self.timer.period as int;
        let frames = self.index.frames();
        lemma_small_mod(self.timer.elapsed as nat, period as nat);
        lemma_basic_div(self.timer.elapsed as int, period);
        lemma_small_mod((self.frame - self.index.start) as nat, frames as nat);
    }

    proof fn lemma_loop_advances_add(self, first: nat, second: nat)
        requires
            self.wf(),
            self.mode == PlaybackMode::Loop,
        ensures
            self.advanced(first).advanced(second) == self.advanced(first + second),
    {
        let period = self.timer.period as int;
        let frames = self.index.frames();
        let offset = self.frame - self.index.start;
        let time = self.timer.elapsed + first;
        let steps = time / period;
        let rest = time % period;
        let later = (rest + second) / period;
        lemma_fundamental_div_mod(time, period);
        lemma_mod_bound(time, period);
        lemma_div_pos_is_pos(time, period);
        lemma_div_pos_is_pos(rest + second, period);
        lemma_fundamental_div_mod(rest + second, period);
        lemma_mod_bound(rest + second, period);
        assert(time + second == (steps + later) * period + (rest + second) % period)
            by (nonlinear_arith)
            requires
                time == period * steps + rest,
                rest + second == period * later + (rest + second) % period,
        ;
        lemma_fundamental_div_mod_converse(
            time + second,
            period,
            steps + later,
            (rest + second) % period,
        );
        lemma_mod_bound(offset + steps, frames);
        lemma_mod_twice(offset + steps, frames);
        lemma_add_mod_noop(offset + steps, later, frames);
        lemma_add_mod_noop((offset + steps) % frames, later, frames);
    }
}

} // verus!
