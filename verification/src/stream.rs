//! Deciding whether a stream must be mixed down or up for its consumer.

use vstd::prelude::*;
use crate::layout::ChannelLayout;

verus! {

/// What the mixer has to know of a stream: how many channels a frame holds,
/// and the layout they are in.
#[derive(Clone, Copy, Debug, PartialEq, Eq, Structural)]
pub struct StreamParams {
    pub channels: u32,
    pub layout: ChannelLayout,
}

/// Whether the frames of `stream` must lose channels to suit `mixer`: exactly
/// when `mixer` holds fewer channels than `stream`.
pub open spec fn needs_downmix(stream: StreamParams, mixer: StreamParams) -> bool {
    mixer.channels < stream.channels
}

/// Whether the frames of `stream` must gain channels to suit `mixer`: exactly
/// when `mixer` holds more channels than `stream`. The added channels are
/// silent, which suits a stream of every layout, so the layouts have no say.
pub open spec fn needs_upmix(stream: StreamParams, mixer: StreamParams) -> bool {
    mixer.channels > stream.channels
}

/// Tells whether the frames of `stream` must be mixed down for `mixer`.
pub fn should_downmix(stream: &StreamParams, mixer: &StreamParams) -> (needed: bool)
    ensures
        needed == needs_downmix(*stream, *mixer),
        needed == (mixer.channels < stream.channels),
{
    mixer.channels < stream.channels
}

/// Tells whether the frames of `stream` must be mixed up for `mixer`.
pub fn should_upmix(stream: &StreamParams, mixer: &StreamParams) -> (needed: bool)
    ensures
        needed == needs_upmix(*stream, *mixer),
        needed == (mixer.channels > stream.channels),
{
    mixer.channels > stream.channels
}

/// No pair of streams needs both a downmix and an upmix. Streams of as many
/// channels need neither, and streams that differ in their channel count need
/// one of the two.
pub proof fn lemma_mix_decisions(stream: StreamParams, mixer: StreamParams)
    ensures
        !(needs_downmix(stream, mixer) && needs_upmix(stream, mixer)),
        stream.channels == mixer.channels ==> !needs_downmix(stream, mixer) && !needs_upmix(
            stream,
            mixer,
        ),
        stream.channels != mixer.channels ==> needs_downmix(stream, mixer) || needs_upmix(
            stream,
            mixer,
        ),
{
}

} // verus!
