use vstd::prelude::*;

verus! {

/// The frame shown after `index` in a sprite animation of `frames` frames:
/// the next one, or the first once the last has been shown.
pub open spec fn frame_after(index: nat, frames: nat) -> nat {
    if index + 1 == frames {
        0
    } else {
        index + 1
    }
}

/// The frame shown `n` timer periods after `index`.
pub open spec fn frame_after_n(index: nat, frames: nat, n: nat) -> nat
    decreases n,
{
    if n == 0 {
        index
    } else {
        frame_after(frame_after_n(index, frames, (n - 1) as nat), frames)
    }
}

/// Advances a sprite's frame when its animation timer has just finished.
pub fn next_frame(index: usize, frames: usize) -> (next: usize)
    requires
        index < usize::MAX,
    ensures
        next == frame_after(index as nat, frames as nat),
{
    let next = index + 1;
    if next == frames {
        0
    } else {
        next
    }
}

/// A frame of the animation is followed by a frame of the animation: the next
/// one, counted round the cycle.
pub proof fn lemma_frame_after_in_cycle(index: nat, frames: nat)
    requires
        index < frames,
    ensures
        frame_after(index, frames) < frames,
        frame_after(index, frames) == (index + 1) % frames,
{
    if index + 1 == frames {
        vstd::arithmetic::div_mod::lemma_mod_self_0(frames as int);
    } else {
        vstd::arithmetic::div_mod::lemma_small_mod(index + 1, frames);
    }
}

/// Only the last frame of the animation is followed by the first one; any
/// other frame is followed by the frame numbered one higher (also past the
/// end of the animation).
pub proof fn lemma_frame_after_steps_by_one(index: nat, frames: nat)
    ensures
        index + 1 == frames ==> frame_after(index, frames) == 0,
        index + 1 != frames ==> frame_after(index, frames) == index + 1,
        frame_after(index, frames) == 0 ==> index + 1 == frames,
{
}

/// After `n` periods an animation has moved `n` frames round its cycle; after
/// as many periods as it has frames it shows the frame it started from.
pub proof fn lemma_animation_cycles(index: nat, frames: nat, n: nat)
    requires
        index < frames,
    ensures
        frame_after_n(index, frames, n) == (index + n) % frames,
        frame_after_n(index, frames, frames) == index,
    decreases n,
{
    lemma_frame_after_n(index, frames, n);
    lemma_frame_after_n(index, frames, frames);
    vstd::arithmetic::div_mod::lemma_mod_add_multiples_vanish(index as int, frames as int);
    vstd::arithmetic::div_mod::lemma_small_mod(index, frames);
}

proof fn lemma_frame_after_n(index: nat, frames: nat, n: nat)
    requires
        index < frames,
    ensures
        frame_after_n(index, frames, n) == (index + n) % frames,
    decreases n,
{
    if n == 0 {
        vstd::arithmetic::div_mod::lemma_small_mod(index, frames);
    } else {
        lemma_frame_after_n(index, frames, (n - 1) as nat);
        let prev = frame_after_n(index, frames, (n - 1) as nat);
        vstd::arithmetic::div_mod::lemma_mod_bound((index + n - 1) as int, frames as int);
        lemma_frame_after_in_cycle(prev, frames);
        vstd::arithmetic::div_mod::lemma_add_mod_noop_right(1, (index + n - 1) as int, frames as int);
        assert(1 + (index + n - 1) == index + n);
    }
}

} // verus!
