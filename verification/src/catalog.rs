//! The catalog: the channel sequence that each layout stands for.

use vstd::prelude::*;
use crate::channel::Channel;
use crate::layout::ChannelLayout;

verus! {

pub const CHANNEL_LAYOUT_UNDEFINED: [Channel; 1] = [Channel::Invalid];

pub const CHANNEL_LAYOUT_DUAL_MONO: [Channel; 2] = [Channel::Left, Channel::Right];

pub const CHANNEL_LAYOUT_DUAL_MONO_LFE: [Channel; 3] = [
    Channel::Left,
    Channel::Right,
    Channel::LowFrequency,
];

pub const CHANNEL_LAYOUT_MONO: [Channel; 1] = [Channel::Mono];

pub const CHANNEL_LAYOUT_MONO_LFE: [Channel; 2] = [Channel::Mono, Channel::LowFrequency];

pub const CHANNEL_LAYOUT_STEREO: [Channel; 2] = [Channel::Left, Channel::Right];

pub const CHANNEL_LAYOUT_STEREO_LFE: [Channel; 3] = [
    Channel::Left,
    Channel::Right,
    Channel::LowFrequency,
];

pub const CHANNEL_LAYOUT_3F: [Channel; 3] = [Channel::Left, Channel::Right, Channel::Center];

pub const CHANNEL_LAYOUT_3FLFE: [Channel; 4] = [
    Channel::Left,
    Channel::Right,
    Channel::Center,
    Channel::LowFrequency,
];

pub const CHANNEL_LAYOUT_2F1: [Channel; 3] = [Channel::Left, Channel::Right, Channel::RearCenter];

pub const CHANNEL_LAYOUT_2F1LFE: [Channel; 4] = [
    Channel::Left,
    Channel::Right,
    Channel::LowFrequency,
    Channel::RearCenter,
];

pub const CHANNEL_LAYOUT_3F1: [Channel; 4] = [
    Channel::Left,
    Channel::Right,
    Channel::Center,
    Channel::RearCenter,
];

pub const CHANNEL_LAYOUT_3F1LFE: [Channel; 5] = [
    Channel::Left,
    Channel::Right,
    Channel::Center,
    Channel::LowFrequency,
    Channel::RearCenter,
];

pub const CHANNEL_LAYOUT_2F2: [Channel; 4] = [
    Channel::Left,
    Channel::Right,
    Channel::LeftSurround,
    Channel::RightSurround,
];

pub const CHANNEL_LAYOUT_2F2LFE: [Channel; 5] = [
    Channel::Left,
    Channel::Right,
    Channel::LowFrequency,
    Channel::LeftSurround,
    Channel::RightSurround,
];

pub const CHANNEL_LAYOUT_3F2: [Channel; 5] = [
    Channel::Left,
    Channel::Right,
    Channel::Center,
    Channel::LeftSurround,
    Channel::RightSurround,
];

pub const CHANNEL_LAYOUT_3F2LFE: [Channel; 6] = [
    Channel::Left,
    Channel::Right,
    Channel::Center,
    Channel::LowFrequency,
    Channel::LeftSurround,
    Channel::RightSurround,
];

pub const CHANNEL_LAYOUT_3F3RLFE: [Channel; 7] = [
    Channel::Left,
    Channel::Right,
    Channel::Center,
    Channel::LowFrequency,
    Channel::RearCenter,
    Channel::LeftSurround,
    Channel::RightSurround,
];

pub const CHANNEL_LAYOUT_3F4LFE: [Channel; 8] = [
    Channel::Left,
    Channel::Right,
    Channel::Center,
    Channel::LowFrequency,
    Channel::RearLeftSurround,
    Channel::RearRightSurround,
    Channel::LeftSurround,
    Channel::RightSurround,
];

/// The channels of a layout, in the order in which a frame holds their
/// samples. For `Undefined` this is the one-element sequence of `Invalid`,
/// which marks the absence of a layout and describes no frame.
pub open spec fn order_of(layout: ChannelLayout) -> Seq<Channel> {
    match layout {
        ChannelLayout::Undefined => CHANNEL_LAYOUT_UNDEFINED@,
        ChannelLayout::DualMono => CHANNEL_LAYOUT_DUAL_MONO@,
        ChannelLayout::DualMonoLfe => CHANNEL_LAYOUT_DUAL_MONO_LFE@,
        ChannelLayout::Mono => CHANNEL_LAYOUT_MONO@,
        ChannelLayout::MonoLfe => CHANNEL_LAYOUT_MONO_LFE@,
        ChannelLayout::Stereo => CHANNEL_LAYOUT_STEREO@,
        ChannelLayout::StereoLfe => CHANNEL_LAYOUT_STEREO_LFE@,
        ChannelLayout::Layout3F => CHANNEL_LAYOUT_3F@,
        ChannelLayout::Layout3FLfe => CHANNEL_LAYOUT_3FLFE@,
        ChannelLayout::Layout2F1 => CHANNEL_LAYOUT_2F1@,
        ChannelLayout::Layout2F1Lfe => CHANNEL_LAYOUT_2F1LFE@,
        ChannelLayout::Layout3F1 => CHANNEL_LAYOUT_3F1@,
        ChannelLayout::Layout3F1Lfe => CHANNEL_LAYOUT_3F1LFE@,
        ChannelLayout::Layout2F2 => CHANNEL_LAYOUT_2F2@,
        ChannelLayout::Layout2F2Lfe => CHANNEL_LAYOUT_2F2LFE@,
        ChannelLayout::Layout3F2 => CHANNEL_LAYOUT_3F2@,
        ChannelLayout::Layout3F2Lfe => CHANNEL_LAYOUT_3F2LFE@,
        ChannelLayout::Layout3F3RLfe => CHANNEL_LAYOUT_3F3RLFE@,
        ChannelLayout::Layout3F4Lfe => CHANNEL_LAYOUT_3F4LFE@,
    }
}

/// Returns the channels of `layout` in frame order.
pub fn channel_index_to_order(layout: ChannelLayout) -> (order: &'static [Channel])
    ensures
        order@ == order_of(layout),
{
    match layout {
        ChannelLayout::DualMono => &CHANNEL_LAYOUT_DUAL_MONO,
        ChannelLayout::DualMonoLfe => &CHANNEL_LAYOUT_DUAL_MONO_LFE,
        ChannelLayout::Mono => &CHANNEL_LAYOUT_MONO,
        ChannelLayout::MonoLfe => &CHANNEL_LAYOUT_MONO_LFE,
        ChannelLayout::Stereo => &CHANNEL_LAYOUT_STEREO,
        ChannelLayout::StereoLfe => &CHANNEL_LAYOUT_STEREO_LFE,
        ChannelLayout::Layout3F => &CHANNEL_LAYOUT_3F,
        ChannelLayout::Layout3FLfe => &CHANNEL_LAYOUT_3FLFE,
        ChannelLayout::Layout2F1 => &CHANNEL_LAYOUT_2F1,
        ChannelLayout::Layout2F1Lfe => &CHANNEL_LAYOUT_2F1LFE,
        ChannelLayout::Layout3F1 => &CHANNEL_LAYOUT_3F1,
        ChannelLayout::Layout3F1Lfe => &CHANNEL_LAYOUT_3F1LFE,
        ChannelLayout::Layout2F2 => &CHANNEL_LAYOUT_2F2,
        ChannelLayout::Layout2F2Lfe => &CHANNEL_LAYOUT_2F2LFE,
        ChannelLayout::Layout3F2 => &CHANNEL_LAYOUT_3F2,
        ChannelLayout::Layout3F2Lfe => &CHANNEL_LAYOUT_3F2LFE,
        ChannelLayout::Layout3F3RLfe => &CHANNEL_LAYOUT_3F3RLFE,
        ChannelLayout::Layout3F4Lfe => &CHANNEL_LAYOUT_3F4LFE,
        _ => &CHANNEL_LAYOUT_UNDEFINED,
    }
}

/// Every named layout stands for as many channels as it is documented to
/// hold, each of them a real channel and none of them twice.
pub proof fn lemma_catalog_entry(layout: ChannelLayout)
    requires
        layout.is_named(),
    ensures
        order_of(layout).len() == layout.channels_spec(),
        order_of(layout).no_duplicates(),
        forall|i: int| 0 <= i < order_of(layout).len() ==> (#[trigger] order_of(layout)[i]).is_real(),
{
}

/// No layout holds more than eight channels, and `Undefined` stands for
/// `Invalid` alone.
pub proof fn lemma_catalog_bounds(layout: ChannelLayout)
    ensures
        1 <= order_of(layout).len() <= 8,
        order_of(ChannelLayout::Undefined) == seq![Channel::Invalid],
{
}

} // verus!
