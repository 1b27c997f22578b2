//! Frame stepping of animated tiles.
use vstd::prelude::*;
use super::level_loader::AnimatedTile;

verus! {

/// One tick of a tile's animation. When its frame timer has just run out,
/// the tile moves on to its next frame, wrapping round after the last, and
/// the tileset index of that frame is returned to be shown; otherwise
/// nothing changes.
pub fn animate_tiles(tile: &mut AnimatedTile, timer_just_finished: bool) -> (shown: Option<usize>)
    requires
        timer_just_finished ==> old(tile).frames@.len() > 0,
        timer_just_finished ==> old(tile).current_frame < usize::MAX,
    ensures
        final(tile).frames@ == old(tile).frames@,
        final(tile).frame_time == old(tile).frame_time,
        timer_just_finished ==> final(tile).current_frame == (old(tile).current_frame + 1) % (old(tile).frames@.len() as int),
        timer_just_finished ==> shown == Some(final(tile).frames@[final(tile).current_frame as int]),
        !timer_just_finished ==> final(tile).current_frame == old(tile).current_frame && shown is None,
{
    if timer_just_finished {
        tile.current_frame = (tile.current_frame + 1) % tile.frames.len();
        Some(tile.frames[tile.current_frame])
    } else {
        None
    }
}

/// The frame a tile shows after `steps` frame changes from frame `start`
/// of `n` frames.
pub open spec fn spec_frame_after(start: nat, steps: nat, n: nat) -> nat
    decreases steps,
{
    if steps == 0 {
        start
    } else {
        (spec_frame_after(start, (steps - 1) as nat, n) + 1) % n
    }
}

/// After `steps` frame changes from a frame in range, the tile shows frame
/// `(start + steps) mod n`.
pub proof fn lemma_frame_after(start: nat, steps: nat, n: nat)
    requires
        n > 0,
        start < n,
    ensures
        spec_frame_after(start, steps, n) == (start + steps) % n,
    decreases steps,
{
    if steps > 0 {
        lemma_frame_after(start, (steps - 1) as nat, n);
        vstd::arithmetic::div_mod::lemma_add_mod_noop((start + steps - 1) as int, 1, n as int);
        if n > 1 {
            vstd::arithmetic::div_mod::lemma_small_mod(1, n);
        } else {
            vstd::arithmetic::div_mod::lemma_mod_self_0(1);
            vstd::arithmetic::div_mod::lemma_mod_bound((spec_frame_after(start, (steps - 1) as nat, n) + 1) as int, 1);
            vstd::arithmetic::div_mod::lemma_mod_bound((start + steps) as int, 1);
        }
        vstd::arithmetic::div_mod::lemma_mod_twice((start + steps - 1) as int, n as int);
    } else {
        vstd::arithmetic::div_mod::lemma_small_mod(start, n);
    }
}

/// An animation comes back to the frame it started on after as many frame
/// changes as it has frames, and every frame in between is in range.
pub proof fn lemma_animation_cycles(start: nat, n: nat)
    requires
        n > 0,
        start < n,
    ensures
        spec_frame_after(start, n, n) == start,
        forall|k: nat| #[trigger] spec_frame_after(start, k, n) < n,
{
    lemma_frame_after(start, n, n);
    vstd::arithmetic::div_mod::lemma_mod_add_multiples_vanish(start as int, n as int);
    vstd::arithmetic::div_mod::lemma_small_mod(start, n);
    assert forall|k: nat| #[trigger] spec_frame_after(start, k, n) < n by {
        lemma_frame_after(start, k, n);
        vstd::arithmetic::div_mod::lemma_mod_bound((start + k) as int, n as int);
    }
}

} // verus!
