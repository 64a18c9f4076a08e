//! Narrowing interleaved frames by mixing their channels.

use vstd::prelude::*;
use vstd::arithmetic::div_mod::lemma_fundamental_div_mod_converse;
use crate::buffer::{lemma_sample_position, lemma_sample_within_frames};
use crate::layout::ChannelLayout;
use crate::weights::{mix_weight, row_denominator, row_whole, weight_over, Weight};

verus! {

/// One step of a mix: a sample of no weight leaves the mix as it is, and any
/// other is taken in by `accumulate`.
pub open spec fn mixed_step<T, F: Fn(T, T, Weight) -> T>(
    accumulate: F,
    before: T,
    sample: T,
    weight: Weight,
    after: T,
) -> bool {
    if weight.num == 0 {
        after == before
    } else {
        call_ensures(accumulate, (before, sample, weight), after)
    }
}

/// Whether `chain` is the run of partial mixes by which target channel
/// `target` of frame `frame` comes about: it starts from `silence`, and each
/// of its members follows from the one before by one step, which takes the
/// frame's next channel with that channel's weight.
pub open spec fn is_mix_chain<T, F: Fn(T, T, Weight) -> T>(
    accumulate: F,
    input: Seq<T>,
    in_layout: ChannelLayout,
    out_layout: ChannelLayout,
    in_channels: int,
    out_channels: int,
    silence: T,
    frame: int,
    target: int,
    chain: Seq<T>,
) -> bool {
    &&& chain.len() == in_channels + 1
    &&& chain[0] == silence
    &&& forall|source: int|
        0 <= source < in_channels ==> mixed_step(
            accumulate,
            #[trigger] chain[source],
            input[frame * in_channels + source],
            mix_weight(in_layout, out_layout, in_channels, out_channels, target, source),
            chain[source + 1],
        )
}

/// Whether `result` is the sample at position `index` of a buffer of frames
/// mixed down from `in_channels` to `out_channels` channels: what a run of
/// partial mixes ends in that takes in all the channels of the sample's frame
/// for the sample's channel.
pub open spec fn downmixed_sample<T, F: Fn(T, T, Weight) -> T>(
    accumulate: F,
    input: Seq<T>,
    in_layout: ChannelLayout,
    out_layout: ChannelLayout,
    in_channels: int,
    out_channels: int,
    silence: T,
    index: int,
    result: T,
) -> bool {
    exists|chain: Seq<T>|
        {
            &&& #[trigger] is_mix_chain(
                accumulate,
                input,
                in_layout,
                out_layout,
                in_channels,
                out_channels,
                silence,
                index / out_channels,
                index % out_channels,
                chain,
            )
            &&& chain[in_channels] == result
        }
}

/// What a mixed-down buffer of `frames` frames holds rests on the first
/// `frames * in_channels` samples of the input and on nothing after them.
pub proof fn lemma_downmix_reads_frames_only<T, F: Fn(T, T, Weight) -> T>(
    accumulate: F,
    first: Seq<T>,
    second: Seq<T>,
    frames: int,
    in_layout: ChannelLayout,
    out_layout: ChannelLayout,
    in_channels: int,
    out_channels: int,
    silence: T,
    index: int,
    result: T,
)
    requires
        1 <= out_channels <= in_channels,
        0 <= index < frames * out_channels,
        forall|i: int| 0 <= i < frames * in_channels ==> first[i] == second[i],
    ensures
        downmixed_sample(
            accumulate,
            first,
            in_layout,
            out_layout,
            in_channels,
            out_channels,
            silence,
            index,
            result,
        ) == downmixed_sample(
            accumulate,
            second,
            in_layout,
            out_layout,
            in_channels,
            out_channels,
            silence,
            index,
            result,
        ),
{
    lemma_sample_position(index, frames, out_channels);
    let frame = index / out_channels;
    let target = index % out_channels;
    assert forall|chain: Seq<T>|
        is_mix_chain(
            accumulate,
            first,
            in_layout,
            out_layout,
            in_channels,
            out_channels,
            silence,
            frame,
            target,
            chain,
        ) == is_mix_chain(
            accumulate,
            second,
            in_layout,
            out_layout,
            in_channels,
            out_channels,
            silence,
            frame,
            target,
            chain,
        ) by {
        assert forall|source: int| 0 <= source < in_channels implies first[frame * in_channels
            + source] == #[trigger] second[frame * in_channels + source] by {
            lemma_sample_within_frames(frame, source, frames, in_channels);
        }
    }
}

/// Mixes `frames` interleaved frames of `in_channels` samples from `input`
/// down to frames of `out_channels` samples in `output`.
///
/// Each output sample starts as `silence` and takes in the samples of its
/// frame in channel order: `accumulate` is handed the mix so far, the sample
/// and the sample's weight, and returns the mix with that share of the sample
/// added. A channel of no weight is passed over. The weights are those of
/// the fold-down gains where the two layouts have them and equal weights
/// otherwise. Exactly the first `frames * out_channels` samples of `output`
/// are written, all that follow stay as they were, and no sample of `input`
/// past the first `frames * in_channels` is read. With no frames nothing is
/// done.
pub fn downmix<T: Copy, F: Fn(T, T, Weight) -> T>(
    input: &[T],
    frames: usize,
    output: &mut [T],
    in_channels: u32,
    out_channels: u32,
    in_layout: ChannelLayout,
    out_layout: ChannelLayout,
    silence: T,
    accumulate: F,
)
    requires
        1 <= out_channels <= in_channels,
        frames * in_channels <= input@.len(),
        frames * out_channels <= old(output)@.len(),
        forall|mix: T, sample: T, weight: Weight|
            weight.is_fraction() && weight.num > 0 ==> call_requires(
                accumulate,
                (mix, sample, weight),
            ),
    ensures
        final(output)@.len() == old(output)@.len(),
        forall|k: int|
            0 <= k < frames * out_channels ==> downmixed_sample(
                accumulate,
                input@,
                in_layout,
                out_layout,
                in_channels as int,
                out_channels as int,
                silence,
                k,
                #[trigger] final(output)@[k],
            ),
        forall|k: int|
            frames * out_channels <= k < old(output)@.len() ==> #[trigger] final(output)@[k] == old(
                output,
            )@[k],
{
    let wide: usize = in_channels as usize;
    let narrow: usize = out_channels as usize;
    let in_len: usize = input.len();
    let out_len: usize = output.len();
    let mut frame: usize = 0;
    let mut read: usize = 0;
    let mut written: usize = 0;
    while frame < frames
        invariant
            wide == in_channels,
            narrow == out_channels,
            1 <= narrow <= wide,
            in_len == input@.len(),
            out_len == old(output)@.len(),
            frames * wide <= in_len,
            frames * narrow <= out_len,
            frame <= frames,
            read == frame * wide,
            written == frame * narrow,
            output@.len() == old(output)@.len(),
            forall|mix: T, sample: T, weight: Weight|
                weight.is_fraction() && weight.num > 0 ==> call_requires(
                    accumulate,
                    (mix, sample, weight),
                ),
            forall|k: int|
                0 <= k < written ==> downmixed_sample(
                    accumulate,
                    input@,
                    in_layout,
                    out_layout,
                    wide as int,
                    narrow as int,
                    silence,
                    k,
                    #[trigger] output@[k],
                ),
            forall|k: int| written <= k < output@.len() ==> #[trigger] output@[k] == old(output)@[k],
        decreases frames - frame,
    {
        proof {
            assert((frame + 1) * wide <= frames * wide) by (nonlinear_arith)
                requires
                    frame < frames,
            ;
            assert((frame + 1) * narrow <= frames * narrow) by (nonlinear_arith)
                requires
                    frame < frames,
            ;
            assert((frame + 1) * wide == frame * wide + wide) by (nonlinear_arith);
            assert((frame + 1) * narrow == frame * narrow + narrow) by (nonlinear_arith);
        }
        let mut target: u32 = 0;
        while target < out_channels
            invariant
                wide == in_channels,
                narrow == out_channels,
                1 <= narrow <= wide,
                target <= out_channels,
                frame < frames,
                read == frame * wide,
                written == frame * narrow,
                in_len == input@.len(),
                out_len == old(output)@.len(),
                read + wide <= in_len,
                written + narrow <= out_len,
                output@.len() == old(output)@.len(),
                forall|mix: T, sample: T, weight: Weight|
                    weight.is_fraction() && weight.num > 0 ==> call_requires(
                        accumulate,
                        (mix, sample, weight),
                    ),
                forall|k: int|
                    0 <= k < written + target ==> downmixed_sample(
                        accumulate,
                        input@,
                        in_layout,
                        out_layout,
                        wide as int,
                        narrow as int,
                        silence,
                        k,
                        #[trigger] output@[k],
                    ),
                forall|k: int|
                    written + target <= k < output@.len() ==> #[trigger] output@[k] == old(
                        output,
                    )@[k],
            decreases out_channels - target,
        {
            let den = row_denominator(in_layout, out_layout, in_channels, out_channels, target);
            let mut mix = silence;
            let ghost mut chain: Seq<T> = seq![silence];
            let mut source: u32 = 0;
            while source < in_channels
                invariant
                    wide == in_channels,
                    narrow == out_channels,
                    1 <= narrow <= wide,
                    target < out_channels,
                    source <= in_channels,
                    read == frame * wide,
                    in_len == input@.len(),
                    read + wide <= in_len,
                    den == row_whole(
                        in_layout,
                        out_layout,
                        in_channels as int,
                        out_channels as int,
                        target as int,
                    ),
                    forall|mix: T, sample: T, weight: Weight|
                        weight.is_fraction() && weight.num > 0 ==> call_requires(
                            accumulate,
                            (mix, sample, weight),
                        ),
                    chain.len() == source + 1,
                    chain[0] == silence,
                    chain[source as int] == mix,
                    forall|s: int|
                        0 <= s < source ==> mixed_step(
                            accumulate,
                            #[trigger] chain[s],
                            input@[frame * wide + s],
                            mix_weight(
                                in_layout,
                                out_layout,
                                wide as int,
                                narrow as int,
                                target as int,
                                s,
                            ),
                            chain[s + 1],
                        ),
                decreases in_channels - source,
            {
                let weight = weight_over(
                    in_layout,
                    out_layout,
                    in_channels,
                    out_channels,
                    target,
                    source,
                    den,
                );
                if weight.num != 0 {
                    mix = accumulate(mix, input[read + source as usize], weight);
                }
                proof {
                    chain = chain.push(mix);
                }
                source += 1;
            }
            proof {
                lemma_fundamental_div_mod_converse(
                    written + target,
                    narrow as int,
                    frame as int,
                    target as int,
                );
                assert(is_mix_chain(
                    accumulate,
                    input@,
                    in_layout,
                    out_layout,
                    wide as int,
                    narrow as int,
                    silence,
                    frame as int,
                    target as int,
                    chain,
                ));
            }
            output[written + target as usize] = mix;
            target += 1;
        }
        read += wide;
        written += narrow;
        frame += 1;
    }
}

} // verus!
