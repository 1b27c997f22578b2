//! Sprite-sheet animation: named clips of consecutive sheet frames, which
//! clip plays, and how a clip steps from frame to frame.
use vstd::prelude::*;
use crate::table::Table;
use crate::text::{owned, str_eq};

verus! {

/// A run of consecutive sprite-sheet frames.
#[derive(Clone, Copy, PartialEq, Eq, Structural, Debug)]
pub struct AnimationClip {
    pub start_index: usize,
    pub end_index: usize,
    /// Time each frame shows, in thousandths of a second.
    pub frame_duration: u32,
}

/// The animation state of a sprite. The frame timer itself runs in the
/// engine; `timer_duration` and `timer_repeating` say how it is set.
pub struct SpriteSheetAnimation {
    pub animations: Table<String, AnimationClip>,
    pub current_animation: String,
    /// Duration of the frame timer, in thousandths of a second.
    pub timer_duration: u32,
    /// Whether the frame timer restarts when it runs out.
    pub timer_repeating: bool,
    pub current_frame: usize,
    pub is_looping: bool,
    pub is_playing: bool,
}

impl SpriteSheetAnimation {
    /// No clips yet; `idle` is current, looping and playing from frame 0,
    /// with a repeating timer of `frame_duration`.
    pub fn new(frame_duration: u32) -> (a: Self)
        ensures
            a.animations.as_map() == Map::<Seq<char>, AnimationClip>::empty(),
            a.current_animation@ == "idle"@,
            a.timer_duration == frame_duration,
            a.timer_repeating,
            a.current_frame == 0,
            a.is_looping,
            a.is_playing,
    {
        SpriteSheetAnimation {
            animations: Table::new(),
            current_animation: owned("idle"),
            timer_duration: frame_duration,
            timer_repeating: true,
            current_frame: 0,
            is_looping: true,
            is_playing: true,
        }
    }

    /// Stores `clip` under `name`, replacing a clip of that name.
    pub fn add_animation(&mut self, name: String, clip: AnimationClip)
        ensures
            final(self).animations.as_map() == old(self).animations.as_map().insert(name@, clip),
            final(self).current_animation@ == old(self).current_animation@,
            final(self).timer_duration == old(self).timer_duration,
            final(self).timer_repeating == old(self).timer_repeating,
            final(self).current_frame == old(self).current_frame,
            final(self).is_looping == old(self).is_looping,
            final(self).is_playing == old(self).is_playing,
    {
        self.animations.insert(name, clip);
    }

    /// Starts the clip `animation_name` from its first frame, looping or
    /// not, with the timer set to the clip's frame duration (repeating when
    /// looping). An unknown name changes nothing.
    pub fn play(&mut self, animation_name: &str, looping: bool)
        ensures
            final(self).animations.as_map() == old(self).animations.as_map(),
            old(self).animations.as_map().contains_key(animation_name@) ==> {
                let clip = old(self).animations.as_map()[animation_name@];
                &&& final(self).current_animation@ == animation_name@
                &&& final(self).is_looping == looping
                &&& final(self).is_playing
                &&& final(self).current_frame == clip.start_index
                &&& final(self).timer_duration == clip.frame_duration
                &&& final(self).timer_repeating == looping
            },
            !old(self).animations.as_map().contains_key(animation_name@) ==> {
                &&& final(self).current_animation@ == old(self).current_animation@
                &&& final(self).is_looping == old(self).is_looping
                &&& final(self).is_playing == old(self).is_playing
                &&& final(self).current_frame == old(self).current_frame
                &&& final(self).timer_duration == old(self).timer_duration
                &&& final(self).timer_repeating == old(self).timer_repeating
            },
    {
        let key = owned(animation_name);
        match self.animations.get(&key) {
            Some(clip) => {
                let clip = *clip;
                self.current_animation = key;
                self.is_looping = looping;
                self.is_playing = true;
                self.current_frame = clip.start_index;
                self.timer_duration = clip.frame_duration;
                self.timer_repeating = looping;
            },
            None => {},
        }
    }

    /// Stops playing; everything else stays.
    pub fn stop(&mut self)
        ensures
            !final(self).is_playing,
            final(self).animations.as_map() == old(self).animations.as_map(),
            final(self).current_animation@ == old(self).current_animation@,
            final(self).timer_duration == old(self).timer_duration,
            final(self).timer_repeating == old(self).timer_repeating,
            final(self).current_frame == old(self).current_frame,
            final(self).is_looping == old(self).is_looping,
    {
        self.is_playing = false;
    }
}

/// The frame after `frame` in `clip`: past the clip's end a looping clip
/// starts over and a one-shot clip holds its last frame and stops.
/// Returns the frame and whether the animation still plays.
pub open spec fn spec_next_frame(clip: AnimationClip, frame: int, looping: bool) -> (int, bool) {
    if frame + 1 > clip.end_index {
        if looping { (clip.start_index as int, true) } else { (clip.end_index as int, false) }
    } else {
        (frame + 1, true)
    }
}

/// One tick of a sprite's animation. When it plays, its frame timer has
/// just run out and its current clip exists, it moves to the clip's next
/// frame (see [`spec_next_frame`]) and returns it as the sheet index to
/// show; otherwise nothing changes and nothing is shown anew.
pub fn animate_sprites(animation: &mut SpriteSheetAnimation, timer_just_finished: bool) -> (shown: Option<usize>)
    requires
        old(animation).is_playing && timer_just_finished ==> old(animation).current_frame < usize::MAX,
    ensures
        final(animation).animations.as_map() == old(animation).animations.as_map(),
        final(animation).current_animation@ == old(animation).current_animation@,
        final(animation).timer_duration == old(animation).timer_duration,
        final(animation).timer_repeating == old(animation).timer_repeating,
        final(animation).is_looping == old(animation).is_looping,
        ({
            let steps = old(animation).is_playing && timer_just_finished
                && old(animation).animations.as_map().contains_key(old(animation).current_animation@);
            if steps {
                let clip = old(animation).animations.as_map()[old(animation).current_animation@];
                let next = spec_next_frame(clip, old(animation).current_frame as int, old(animation).is_looping);
                &&& final(animation).current_frame == next.0
                &&& final(animation).is_playing == next.1
                &&& shown == Some(final(animation).current_frame)
            } else {
                &&& final(animation).current_frame == old(animation).current_frame
                &&& final(animation).is_playing == old(animation).is_playing
                &&& shown is None
            }
        }),
{
    if !animation.is_playing || !timer_just_finished {
        return None;
    }
    let clip = match animation.animations.get(&animation.current_animation) {
        Some(c) => *c,
        None => {
            return None;
        },
    };
    animation.current_frame = animation.current_frame + 1;
    if animation.current_frame > clip.end_index {
        if animation.is_looping {
            animation.current_frame = clip.start_index;
        } else {
            animation.current_frame = clip.end_index;
            animation.is_playing = false;
        }
    }
    Some(animation.current_frame)
}

/// A clip never leaves its frames: stepping from a frame of the clip gives
/// a frame of the clip, and a one-shot clip that stops rests on its last frame.
pub proof fn lemma_frames_stay_in_clip(clip: AnimationClip, frame: int, looping: bool)
    requires
        clip.start_index <= frame <= clip.end_index,
    ensures
        clip.start_index <= spec_next_frame(clip, frame, looping).0 <= clip.end_index,
        !spec_next_frame(clip, frame, looping).1 ==> !looping && spec_next_frame(clip, frame, looping).0 == clip.end_index,
{
}

/// The clip to switch to as movement starts or stops: `walk` while
/// moving, `idle` at rest, nothing when that clip is already current.
pub open spec fn spec_movement_clip(moving: bool, current: Seq<char>) -> Option<Seq<char>> {
    let want = if moving { "walk"@ } else { "idle"@ };
    if current == want { None } else { Some(want) }
}

/// The clip to switch to as movement starts or stops.
pub fn movement_clip(moving: bool, current: &str) -> (clip: Option<String>)
    ensures
        match clip {
            Some(c) => spec_movement_clip(moving, current@) == Some(c@),
            None => spec_movement_clip(moving, current@) is None,
        },
{
    let want = if moving { "walk" } else { "idle" };
    if str_eq(current, want) { None } else { Some(owned(want)) }
}

} // verus!
