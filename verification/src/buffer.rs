//! The size of a buffer of interleaved frames.

use vstd::prelude::*;
use vstd::arithmetic::div_mod::{lemma_div_pos_is_pos, lemma_mod_bound, lemma_multiply_divide_lt};

verus! {

/// Whether a buffer of `len` samples has room for `frames` frames of
/// `channels` samples each.
pub open spec fn holds_frames_spec(len: int, frames: int, channels: int) -> bool {
    frames * channels <= len
}

/// Tells whether a buffer of `len` samples has room for `frames` frames of
/// `channels` samples each.
pub fn holds_frames(len: usize, frames: usize, channels: u32) -> (fits: bool)
    ensures
        fits == holds_frames_spec(len as int, frames as int, channels as int),
{
    match frames.checked_mul(channels as usize) {
        Some(samples) => samples <= len,
        None => false,
    }
}

/// The sample at position `index` of a buffer of `frames` frames belongs to
/// one of those frames and to one of its channels.
pub proof fn lemma_sample_position(index: int, frames: int, channels: int)
    requires
        0 < channels,
        0 <= index < frames * channels,
    ensures
        0 <= index / channels < frames,
        0 <= index % channels < channels,
{
    lemma_div_pos_is_pos(index, channels);
    lemma_mod_bound(index, channels);
    assert(index < channels * frames) by (nonlinear_arith)
        requires
            index < frames * channels,
    ;
    lemma_multiply_divide_lt(index, channels, frames);
}

/// The sample of a channel of one of the first `frames` frames lies within
/// the first `frames * channels` samples.
pub proof fn lemma_sample_within_frames(frame: int, channel: int, frames: int, channels: int)
    requires
        0 <= frame < frames,
        0 <= channel < channels,
    ensures
        0 <= frame * channels + channel < frames * channels,
{
    assert(0 <= frame * channels && (frame + 1) * channels <= frames * channels && (frame + 1)
        * channels == frame * channels + channels) by (nonlinear_arith)
        requires
            0 <= frame < frames,
            0 < channels,
    ;
}

} // verus!
