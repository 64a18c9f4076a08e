//! The named channel layouts.

use vstd::prelude::*;

verus! {

/// The name of a standard channel layout, or `Undefined` for none of them.
///
/// The variants are declared in the order in which a channel map is held
/// against the catalog: where two layouts share a channel sequence, the one
/// declared first is the one that a map resolves to.
#[derive(Clone, Copy, Debug, PartialEq, Eq, PartialOrd, Ord, Hash, Structural)]
pub enum ChannelLayout {
    Undefined,
    DualMono,
    DualMonoLfe,
    Mono,
    MonoLfe,
    Stereo,
    StereoLfe,
    Layout3F,
    Layout3FLfe,
    Layout2F1,
    Layout2F1Lfe,
    Layout3F1,
    Layout3F1Lfe,
    Layout2F2,
    Layout2F2Lfe,
    Layout3F2,
    Layout3F2Lfe,
    Layout3F3RLfe,
    Layout3F4Lfe,
}

/// How many layouts there are, `Undefined` included.
pub const LAYOUT_COUNT: usize = 19;

impl ChannelLayout {
    /// The position of this layout in the declared order, from 0 for
    /// `Undefined`.
    pub open spec fn index_spec(self) -> int {
        match self {
            ChannelLayout::Undefined => 0,
            ChannelLayout::DualMono => 1,
            ChannelLayout::DualMonoLfe => 2,
            ChannelLayout::Mono => 3,
            ChannelLayout::MonoLfe => 4,
            ChannelLayout::Stereo => 5,
            ChannelLayout::StereoLfe => 6,
            ChannelLayout::Layout3F => 7,
            ChannelLayout::Layout3FLfe => 8,
            ChannelLayout::Layout2F1 => 9,
            ChannelLayout::Layout2F1Lfe => 10,
            ChannelLayout::Layout3F1 => 11,
            ChannelLayout::Layout3F1Lfe => 12,
            ChannelLayout::Layout2F2 => 13,
            ChannelLayout::Layout2F2Lfe => 14,
            ChannelLayout::Layout3F2 => 15,
            ChannelLayout::Layout3F2Lfe => 16,
            ChannelLayout::Layout3F3RLfe => 17,
            ChannelLayout::Layout3F4Lfe => 18,
        }
    }

    /// The layout at a position of the declared order; `Undefined` past its
    /// end.
    pub open spec fn at(index: int) -> ChannelLayout {
        if index == 1 {
            ChannelLayout::DualMono
        } else if index == 2 {
            ChannelLayout::DualMonoLfe
        } else if index == 3 {
            ChannelLayout::Mono
        } else if index == 4 {
            ChannelLayout::MonoLfe
        } else if index == 5 {
            ChannelLayout::Stereo
        } else if index == 6 {
            ChannelLayout::StereoLfe
        } else if index == 7 {
            ChannelLayout::Layout3F
        } else if index == 8 {
            ChannelLayout::Layout3FLfe
        } else if index == 9 {
            ChannelLayout::Layout2F1
        } else if index == 10 {
            ChannelLayout::Layout2F1Lfe
        } else if index == 11 {
            ChannelLayout::Layout3F1
        } else if index == 12 {
            ChannelLayout::Layout3F1Lfe
        } else if index == 13 {
            ChannelLayout::Layout2F2
        } else if index == 14 {
            ChannelLayout::Layout2F2Lfe
        } else if index == 15 {
            ChannelLayout::Layout3F2
        } else if index == 16 {
            ChannelLayout::Layout3F2Lfe
        } else if index == 17 {
            ChannelLayout::Layout3F3RLfe
        } else if index == 18 {
            ChannelLayout::Layout3F4Lfe
        } else {
            ChannelLayout::Undefined
        }
    }

    /// How many channels a frame of this layout holds; none for `Undefined`.
    pub open spec fn channels_spec(self) -> nat {
        match self {
            ChannelLayout::Undefined => 0,
            ChannelLayout::DualMono => 2,
            ChannelLayout::DualMonoLfe => 3,
            ChannelLayout::Mono => 1,
            ChannelLayout::MonoLfe => 2,
            ChannelLayout::Stereo => 2,
            ChannelLayout::StereoLfe => 3,
            ChannelLayout::Layout3F => 3,
            ChannelLayout::Layout3FLfe => 4,
            ChannelLayout::Layout2F1 => 3,
            ChannelLayout::Layout2F1Lfe => 4,
            ChannelLayout::Layout3F1 => 4,
            ChannelLayout::Layout3F1Lfe => 5,
            ChannelLayout::Layout2F2 => 4,
            ChannelLayout::Layout2F2Lfe => 5,
            ChannelLayout::Layout3F2 => 5,
            ChannelLayout::Layout3F2Lfe => 6,
            ChannelLayout::Layout3F3RLfe => 7,
            ChannelLayout::Layout3F4Lfe => 8,
        }
    }

    /// Whether this is one of the eighteen named layouts.
    pub open spec fn is_named(self) -> bool {
        self != ChannelLayout::Undefined
    }

    /// Returns the position of this layout in the declared order.
    pub fn index(self) -> (index: usize)
        ensures
            index == self.index_spec(),
            index < LAYOUT_COUNT,
    {
        match self {
            ChannelLayout::Undefined => 0,
            ChannelLayout::DualMono => 1,
            ChannelLayout::DualMonoLfe => 2,
            ChannelLayout::Mono => 3,
            ChannelLayout::MonoLfe => 4,
            ChannelLayout::Stereo => 5,
            ChannelLayout::StereoLfe => 6,
            ChannelLayout::Layout3F => 7,
            ChannelLayout::Layout3FLfe => 8,
            ChannelLayout::Layout2F1 => 9,
            ChannelLayout::Layout2F1Lfe => 10,
            ChannelLayout::Layout3F1 => 11,
            ChannelLayout::Layout3F1Lfe => 12,
            ChannelLayout::Layout2F2 => 13,
            ChannelLayout::Layout2F2Lfe => 14,
            ChannelLayout::Layout3F2 => 15,
            ChannelLayout::Layout3F2Lfe => 16,
            ChannelLayout::Layout3F3RLfe => 17,
            ChannelLayout::Layout3F4Lfe => 18,
        }
    }

    /// Returns the layout at a position of the declared order, `Undefined`
    /// where the position is past its end.
    pub fn from_index(index: usize) -> (layout: ChannelLayout)
        ensures
            layout == ChannelLayout::at(index as int),
    {
        match index {
            1 => ChannelLayout::DualMono,
            2 => ChannelLayout::DualMonoLfe,
            3 => ChannelLayout::Mono,
            4 => ChannelLayout::MonoLfe,
            5 => ChannelLayout::Stereo,
            6 => ChannelLayout::StereoLfe,
            7 => ChannelLayout::Layout3F,
            8 => ChannelLayout::Layout3FLfe,
            9 => ChannelLayout::Layout2F1,
            10 => ChannelLayout::Layout2F1Lfe,
            11 => ChannelLayout::Layout3F1,
            12 => ChannelLayout::Layout3F1Lfe,
            13 => ChannelLayout::Layout2F2,
            14 => ChannelLayout::Layout2F2Lfe,
            15 => ChannelLayout::Layout3F2,
            16 => ChannelLayout::Layout3F2Lfe,
            17 => ChannelLayout::Layout3F3RLfe,
            18 => ChannelLayout::Layout3F4Lfe,
            _ => ChannelLayout::Undefined,
        }
    }

    /// Returns how many channels a frame of this layout holds.
    pub fn channels(self) -> (count: u32)
        ensures
            count == self.channels_spec(),
    {
        match self {
            ChannelLayout::Undefined => 0,
            ChannelLayout::DualMono => 2,
            ChannelLayout::DualMonoLfe => 3,
            ChannelLayout::Mono => 1,
            ChannelLayout::MonoLfe => 2,
            ChannelLayout::Stereo => 2,
            ChannelLayout::StereoLfe => 3,
            ChannelLayout::Layout3F => 3,
            ChannelLayout::Layout3FLfe => 4,
            ChannelLayout::Layout2F1 => 3,
            ChannelLayout::Layout2F1Lfe => 4,
            ChannelLayout::Layout3F1 => 4,
            ChannelLayout::Layout3F1Lfe => 5,
            ChannelLayout::Layout2F2 => 4,
            ChannelLayout::Layout2F2Lfe => 5,
            ChannelLayout::Layout3F2 => 5,
            ChannelLayout::Layout3F2Lfe => 6,
            ChannelLayout::Layout3F3RLfe => 7,
            ChannelLayout::Layout3F4Lfe => 8,
        }
    }

    /// A layout is found again at its own position, which lies below
    /// `LAYOUT_COUNT`; only `Undefined` stands at position 0.
    pub proof fn lemma_index_round_trip(self)
        ensures
            ChannelLayout::at(self.index_spec()) == self,
            0 <= self.index_spec() < LAYOUT_COUNT,
            self.is_named() <==> 0 < self.index_spec(),
    {
    }

    /// A position below `LAYOUT_COUNT` is the position of the layout found
    /// there.
    pub proof fn lemma_at_index(index: int)
        requires
            0 <= index < LAYOUT_COUNT,
        ensures
            ChannelLayout::at(index).index_spec() == index,
    {
    }
}

} // verus!
