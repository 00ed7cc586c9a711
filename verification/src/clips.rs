//! The clip tables: which animation clip belongs to which action of which
//! kind of character.
//!
//! The tables are filled once, before play starts, from a list of
//! entries. A clip that is missing or cannot be played is found then, so
//! that looking a clip up during play cannot fail.

use crate::action::Action;
use crate::sprite_sheet::{Animation, AnimationIndex, AnimationTimer, PlaybackMode};
use vstd::arithmetic::div_mod::{lemma_fundamental_div_mod, lemma_mod_bound};
use vstd::prelude::*;

verus! {

/// Number of clips that every kind of character needs.
pub const CLIPS: usize = 9;

/// The kinds of character.
#[derive(Clone, Copy, Debug, PartialEq, Eq, Structural)]
pub enum CharacterKind {
    Samurai,
    Knight,
}

/// The clips of a character, one per action and step of the combo.
#[derive(Clone, Copy, Debug, PartialEq, Eq, Structural)]
pub enum ClipKey {
    Idle,
    Walk,
    Run,
    Attack1,
    Attack2,
    Attack3,
    Guard,
    Dash,
    Dead,
}

impl ClipKey {
    /// Place of the clip in a table.
    pub open spec fn spec_index(self) -> int {
        match self {
            ClipKey::Idle => 0,
            ClipKey::Walk => 1,
            ClipKey::Run => 2,
            ClipKey::Attack1 => 3,
            ClipKey::Attack2 => 4,
            ClipKey::Attack3 => 5,
            ClipKey::Guard => 6,
            ClipKey::Dash => 7,
            ClipKey::Dead => 8,
        }
    }

    /// The clip at a place of a table.
    pub open spec fn spec_at(index: int) -> ClipKey {
        if index <= 0 {
            ClipKey::Idle
        } else if index == 1 {
            ClipKey::Walk
        } else if index == 2 {
            ClipKey::Run
        } else if index == 3 {
            ClipKey::Attack1
        } else if index == 4 {
            ClipKey::Attack2
        } else if index == 5 {
            ClipKey::Attack3
        } else if index == 6 {
            ClipKey::Guard
        } else if index == 7 {
            ClipKey::Dash
        } else {
            ClipKey::Dead
        }
    }

    /// The clip of an action: idle, walk or run, the attack of the combo
    /// step, guard, dash or death.
    pub open spec fn spec_of(action: Action) -> ClipKey {
        match action {
            Action::Idle => ClipKey::Idle,
            Action::Locomotion { running } => if running {
                ClipKey::Run
            } else {
                ClipKey::Walk
            },
            Action::Attack { combo } => if combo <= 1 {
                ClipKey::Attack1
            } else if combo == 2 {
                ClipKey::Attack2
            } else {
                ClipKey::Attack3
            },
            Action::Guard => ClipKey::Guard,
            Action::Dash => ClipKey::Dash,
            Action::Dead => ClipKey::Dead,
        }
    }

    /// Place of the clip in a table.
    pub fn index(self) -> (index: usize)
        ensures
            index == self.spec_index(),
            index < CLIPS,
            Self::spec_at(index as int) == self,
    {
        match self {
            ClipKey::Idle => 0,
            ClipKey::Walk => 1,
            ClipKey::Run => 2,
            ClipKey::Attack1 => 3,
            ClipKey::Attack2 => 4,
            ClipKey::Attack3 => 5,
            ClipKey::Guard => 6,
            ClipKey::Dash => 7,
            ClipKey::Dead => 8,
        }
    }

    /// The clip at a place of a table; the last one for any place beyond.
    pub fn at(index: usize) -> (key: ClipKey)
        ensures
            key == Self::spec_at(index as int),
            index < CLIPS ==> key.spec_index() == index,
    {
        if index == 0 {
            ClipKey::Idle
        } else if index == 1 {
            ClipKey::Walk
        } else if index == 2 {
            ClipKey::Run
        } else if index == 3 {
            ClipKey::Attack1
        } else if index == 4 {
            ClipKey::Attack2
        } else if index == 5 {
            ClipKey::Attack3
        } else if index == 6 {
            ClipKey::Guard
        } else if index == 7 {
            ClipKey::Dash
        } else {
            ClipKey::Dead
        }
    }

    /// The clip of an action.
    pub fn of(action: Action) -> (key: ClipKey)
        ensures
            key == Self::spec_of(action),
    {
        match action {
            Action::Idle => ClipKey::Idle,
            Action::Locomotion { running } => if running {
                ClipKey::Run
            } else {
                ClipKey::Walk
            },
            Action::Attack { combo } => if combo <= 1 {
                ClipKey::Attack1
            } else if combo == 2 {
                ClipKey::Attack2
            } else {
                ClipKey::Attack3
            },
            Action::Guard => ClipKey::Guard,
            Action::Dash => ClipKey::Dash,
            Action::Dead => ClipKey::Dead,
        }
    }
}

/// An animation clip: a strip of frames on a sprite sheet and the time
/// that playing all of them takes.
#[derive(Clone, Copy, Debug, PartialEq, Eq, Structural)]
pub struct AnimationClip {
    /// Which sprite sheet the frames are on.
    pub image: u32,
    /// Number of frames.
    pub frames: usize,
    /// Time for the whole clip, in milliseconds.
    pub duration: u64,
}

impl AnimationClip {
    /// A clip has at least one frame, and each frame is shown for at
    /// least one millisecond.
    pub open spec fn wf(self) -> bool {
        1 <= self.frames <= self.duration
    }

    /// Time for which each frame is shown.
    pub open spec fn frame_time(self) -> int {
        self.duration as int / self.frames as int
    }

    /// The clip at its start, to be played in the given mode.
    pub open spec fn spec_animation(self, mode: PlaybackMode) -> Animation {
        Animation {
            timer: AnimationTimer { period: self.frame_time() as u64, elapsed: 0 },
            index: AnimationIndex { start: 0, end: (self.frames - 1) as usize },
            frame: 0,
            mode,
            ended: false,
        }
    }

    /// A playable clip starts well-formed.
    pub proof fn lemma_animation_wf(self, mode: PlaybackMode)
        requires
            self.wf(),
        ensures
            self.spec_animation(mode).wf(),
    {
        let frames = self.frames as int;
        let period = self.frame_time();
        lemma_fundamental_div_mod(self.duration as int, frames);
        lemma_mod_bound(self.duration as int, frames);
        assert(1 <= period && frames * period <= self.duration) by (nonlinear_arith)
            requires
                self.duration == frames * period + self.duration as int % frames,
                0 <= self.duration as int % frames < frames,
                1 <= frames <= self.duration,
        ;
    }

    /// Checks that the clip can be played.
    pub fn valid(&self) -> (valid: bool)
        ensures
            valid == self.wf(),
    {
        1 <= self.frames && self.frames as u64 <= self.duration
    }

    /// Starts the clip in the given mode.
    pub fn animation(&self, mode: PlaybackMode) -> (animation: Animation)
        requires
            self.wf(),
        ensures
            animation == self.spec_animation(mode),
            animation.wf(),
    {
        let animation = Animation::new(self.duration, 0, self.frames - 1);
        match mode {
            PlaybackMode::Loop => animation,
            PlaybackMode::Once => animation.no_repeat(),
        }
    }
}

/// One line of the configuration: the clip of one action of one kind of
/// character.
#[derive(Clone, Copy, Debug, PartialEq, Eq, Structural)]
pub struct ClipEntry {
    pub kind: CharacterKind,
    pub key: ClipKey,
    pub clip: AnimationClip,
}

/// What can be wrong with the configured clips.
#[derive(Clone, Copy, Debug, PartialEq, Eq, Structural)]
pub enum ConfigError {
    /// No entry gives this clip.
    MissingClip(CharacterKind, ClipKey),
    /// The entry for this clip has no frames, or more frames than
    /// milliseconds.
    InvalidClip(CharacterKind, ClipKey),
}

/// The clip of the first entry for the given kind and key.
pub open spec fn spec_find(entries: Seq<ClipEntry>, kind: CharacterKind, key: ClipKey) -> Option<
    AnimationClip,
>
    decreases entries.len(),
{
    if entries.len() == 0 {
        None
    } else if entries[0].kind == kind && entries[0].key == key {
        Some(entries[0].clip)
    } else {
        spec_find(entries.drop_first(), kind, key)
    }
}

/// The configured clip for the given kind and key, or what is wrong with
/// it. Of several entries for the same clip the first counts.
pub open spec fn spec_lookup(entries: Seq<ClipEntry>, kind: CharacterKind, key: ClipKey) -> Result<
    AnimationClip,
    ConfigError,
> {
    match spec_find(entries, kind, key) {
        None => Err(ConfigError::MissingClip(kind, key)),
        Some(clip) => if clip.wf() {
            Ok(clip)
        } else {
            Err(ConfigError::InvalidClip(kind, key))
        },
    }
}

/// The first `count` clips of the table of a kind, in table order, or
/// the error of the first of them that is missing or invalid.
pub open spec fn spec_collect(entries: Seq<ClipEntry>, kind: CharacterKind, count: nat) -> Result<
    Seq<AnimationClip>,
    ConfigError,
>
    decreases count,
{
    if count == 0 {
        Ok(Seq::empty())
    } else {
        match spec_collect(entries, kind, (count - 1) as nat) {
            Err(error) => Err(error),
            Ok(clips) => match spec_lookup(entries, kind, ClipKey::spec_at(count - 1)) {
                Err(error) => Err(error),
                Ok(clip) => Ok(clips.push(clip)),
            },
        }
    }
}

/// Looks up the configured clip for the given kind and key.
pub fn lookup(entries: &Vec<ClipEntry>, kind: CharacterKind, key: ClipKey) -> (found: Result<
    AnimationClip,
    ConfigError,
>)
    ensures
        found == spec_lookup(entries@, kind, key),
{
    let mut i: usize = 0;
    assert(entries@.subrange(0, entries.len() as int) == entries@);
    while i < entries.len()
        invariant
            i <= entries.len(),
            spec_find(entries@, kind, key) == spec_find(
                entries@.subrange(i as int, entries.len() as int),
                kind,
                key,
            ),
        decreases entries.len() - i,
    {
        let entry = entries[i];
        let rest = Ghost(entries@.subrange(i as int, entries.len() as int));
        assert(rest@[0] == entry);
        assert(rest@.drop_first() == entries@.subrange(i + 1, entries.len() as int));
        if entry.kind == kind && entry.key == key {
            return if entry.clip.valid() {
                Ok(entry.clip)
            } else {
                Err(ConfigError::InvalidClip(kind, key))
            };
        }
        i = i + 1;
    }
    Err(ConfigError::MissingClip(kind, key))
}

/// The clips of one kind of character.
#[derive(Debug)]
pub struct AnimationTable {
    pub kind: CharacterKind,
    /// One clip per key, at the place of the key.
    pub clips: Vec<AnimationClip>,
}

impl AnimationTable {
    /// The table holds a playable clip for every key.
    pub open spec fn wf(self) -> bool {
        &&& self.clips@.len() == CLIPS
        &&& forall|i: int| 0 <= i < CLIPS ==> (#[trigger] self.clips@[i]).wf()
    }

    /// The clip for a key.
    pub open spec fn spec_clip(self, key: ClipKey) -> AnimationClip {
        self.clips@[key.spec_index()]
    }

    /// Checks that the table is well-formed.
    pub fn valid(&self) -> (valid: bool)
        ensures
            valid == self.wf(),
    {
        if self.clips.len() != CLIPS {
            return false;
        }
        let mut i: usize = 0;
        while i < CLIPS
            invariant
                i <= CLIPS,
                self.clips@.len() == CLIPS,
                forall|j: int| 0 <= j < i ==> (#[trigger] self.clips@[j]).wf(),
            decreases CLIPS - i,
        {
            if !self.clips[i].valid() {
                return false;
            }
            i = i + 1;
        }
        true
    }

    /// Builds the table of one kind of character from the configured
    /// entries. It fails with the first clip, in table order, that is
    /// missing or invalid.
    pub fn build(entries: &Vec<ClipEntry>, kind: CharacterKind) -> (built: Result<
        AnimationTable,
        ConfigError,
    >)
        ensures
            match built {
                Ok(table) => table.kind == kind && spec_collect(entries@, kind, CLIPS as nat)
                    == Ok::<Seq<AnimationClip>, ConfigError>(table.clips@) && table.wf(),
                Err(error) => spec_collect(entries@, kind, CLIPS as nat) == Err::<
                    Seq<AnimationClip>,
                    ConfigError,
                >(error),
            },
    {
        let mut clips: Vec<AnimationClip> = Vec::new();
        let mut i: usize = 0;
        while i < CLIPS
            invariant
                i <= CLIPS,
                clips@.len() == i,
                spec_collect(entries@, kind, i as nat) == Ok::<Seq<AnimationClip>, ConfigError>(
                    clips@,
                ),
                forall|j: int| 0 <= j < i ==> (#[trigger] clips@[j]).wf(),
            decreases CLIPS - i,
        {
            match lookup(entries, kind, ClipKey::at(i)) {
                Err(error) => {
                    proof {
                        lemma_collect_stays_failed(entries@, kind, (i + 1) as nat, CLIPS as nat);
                    }
                    return Err(error);
                },
                Ok(clip) => {
                    clips.push(clip);
                },
            }
            i = i + 1;
        }
        Ok(AnimationTable { kind, clips })
    }

    /// The clip for a key.
    pub fn clip(&self, key: ClipKey) -> (clip: AnimationClip)
        requires
            self.wf(),
        ensures
            clip == self.spec_clip(key),
            clip.wf(),
    {
        self.clips[key.index()]
    }
}

/// Once a clip has failed, collecting further clips reports the same
/// failure.
pub proof fn lemma_collect_stays_failed(
    entries: Seq<ClipEntry>,
    kind: CharacterKind,
    failed: nat,
    count: nat,
)
    requires
        failed <= count,
        spec_collect(entries, kind, failed) is Err,
    ensures
        spec_collect(entries, kind, count) == spec_collect(entries, kind, failed),
    decreases count,
{
    if failed < count {
        lemma_collect_stays_failed(entries, kind, failed, (count - 1) as nat);
    }
}

/// A table can be built exactly when every one of its clips is
/// configured and valid, and it then holds the configured clip of every
/// key.
pub proof fn law_table_complete(entries: Seq<ClipEntry>, kind: CharacterKind, count: nat)
    requires
        count <= CLIPS,
    ensures
        spec_collect(entries, kind, count) is Ok <==> forall|i: int|
            0 <= i < count ==> (#[trigger] spec_lookup(entries, kind, ClipKey::spec_at(i))) is Ok,
        spec_collect(entries, kind, count) matches Ok(clips) ==> clips.len() == count && forall|
            i: int,
        |
            0 <= i < count ==> Ok::<AnimationClip, ConfigError>(#[trigger] clips[i]) == spec_lookup(
                entries,
                kind,
                ClipKey::spec_at(i),
            ),
    decreases count,
{
    if count > 0 {
        law_table_complete(entries, kind, (count - 1) as nat);
    }
}

} // verus!
