//! Widening interleaved frames by silent channels.

use vstd::prelude::*;
use vstd::arithmetic::div_mod::lemma_fundamental_div_mod_converse;
use crate::buffer::{lemma_sample_position, lemma_sample_within_frames};

verus! {

/// The sample at position `index` of a buffer of frames widened from
/// `in_channels` to `out_channels` channels: a frame keeps its samples in
/// their places, and each place it gains holds `silence`.
pub open spec fn upmixed_sample<T>(
    input: Seq<T>,
    in_channels: int,
    out_channels: int,
    silence: T,
    index: int,
) -> T {
    let frame = index / out_channels;
    let channel = index % out_channels;
    if channel < in_channels {
        input[frame * in_channels + channel]
    } else {
        silence
    }
}

/// What a widened buffer of `frames` frames holds rests on the first
/// `frames * in_channels` samples of the input and on nothing after them.
pub proof fn lemma_upmix_reads_frames_only<T>(
    first: Seq<T>,
    second: Seq<T>,
    frames: int,
    in_channels: int,
    out_channels: int,
    silence: T,
    index: int,
)
    requires
        1 <= in_channels <= out_channels,
        0 <= index < frames * out_channels,
        forall|i: int| 0 <= i < frames * in_channels ==> first[i] == second[i],
    ensures
        upmixed_sample(first, in_channels, out_channels, silence, index) == upmixed_sample(
            second,
            in_channels,
            out_channels,
            silence,
            index,
        ),
{
    lemma_sample_position(index, frames, out_channels);
    let channel = index % out_channels;
    if channel < in_channels {
        lemma_sample_within_frames(index / out_channels, channel, frames, in_channels);
    }
}

/// Widens `frames` interleaved frames of `in_channels` samples from `input`
/// into frames of `out_channels` samples in `output`.
///
/// Each frame's samples go to the first places of its output frame, in order,
/// and the places after them are filled with `silence`. Channels are not
/// moved about to suit a layout. Exactly the first `frames * out_channels`
/// samples of `output` are written, all that follow stay as they were, and no
/// sample of `input` past the first `frames * in_channels` is read. With no
/// frames nothing is done.
pub fn upmix<T: Copy>(
    input: &[T],
    frames: usize,
    output: &mut [T],
    in_channels: u32,
    out_channels: u32,
    silence: T,
)
    requires
        1 <= in_channels <= out_channels,
        frames * in_channels <= input@.len(),
        frames * out_channels <= old(output)@.len(),
    ensures
        final(output)@.len() == old(output)@.len(),
        forall|k: int|
            0 <= k < frames * out_channels ==> #[trigger] final(output)@[k] == upmixed_sample(
                input@,
                in_channels as int,
                out_channels as int,
                silence,
                k,
            ),
        forall|k: int|
            frames * out_channels <= k < old(output)@.len() ==> #[trigger] final(output)@[k] == old(
                output,
            )@[k],
{
    let narrow: usize = in_channels as usize;
    let wide: usize = out_channels as usize;
    let in_len: usize = input.len();
    let out_len: usize = output.len();
    let mut frame: usize = 0;
    let mut read: usize = 0;
    let mut written: usize = 0;
    while frame < frames
        invariant
            narrow == in_channels,
            wide == out_channels,
            1 <= narrow <= wide,
            in_len == input@.len(),
            out_len == old(output)@.len(),
            frames * narrow <= in_len,
            frames * wide <= out_len,
            frame <= frames,
            read == frame * narrow,
            written == frame * wide,
            output@.len() == old(output)@.len(),
            forall|k: int|
                0 <= k < written ==> #[trigger] output@[k] == upmixed_sample(
                    input@,
                    narrow as int,
                    wide as int,
                    silence,
                    k,
                ),
            forall|k: int| written <= k < output@.len() ==> #[trigger] output@[k] == old(output)@[k],
        decreases frames - frame,
    {
        proof {
            assert((frame + 1) * narrow <= frames * narrow) by (nonlinear_arith)
                requires
                    frame < frames,
            ;
            assert((frame + 1) * wide <= frames * wide) by (nonlinear_arith)
                requires
                    frame < frames,
            ;
            assert((frame + 1) * narrow == frame * narrow + narrow) by (nonlinear_arith);
            assert((frame + 1) * wide == frame * wide + wide) by (nonlinear_arith);
        }
        let mut channel: usize = 0;
        while channel < wide
            invariant
                1 <= narrow <= wide,
                channel <= wide,
                frame < frames,
                read == frame * narrow,
                written == frame * wide,
                in_len == input@.len(),
                out_len == old(output)@.len(),
                read + narrow <= in_len,
                written + wide <= out_len,
                output@.len() == old(output)@.len(),
                forall|k: int|
                    0 <= k < written + channel ==> #[trigger] output@[k] == upmixed_sample(
                        input@,
                        narrow as int,
                        wide as int,
                        silence,
                        k,
                    ),
                forall|k: int|
                    written + channel <= k < output@.len() ==> #[trigger] output@[k] == old(
                        output,
                    )@[k],
            decreases wide - channel,
        {
            let sample = if channel < narrow {
                input[read + channel]
            } else {
                silence
            };
            proof {
                lemma_fundamental_div_mod_converse(
                    written + channel,
                    wide as int,
                    frame as int,
                    channel as int,
                );
            }
            output[written + channel] = sample;
            channel += 1;
        }
        read += narrow;
        written += wide;
        frame += 1;
    }
}

} // verus!
