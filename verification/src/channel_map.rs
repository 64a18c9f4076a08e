//! The record by which a stream says which channels it carries.

use vstd::prelude::*;
use crate::channel::Channel;

verus! {

/// How many slots a channel map has.
pub const CHANNEL_MAX: usize = 10;

/// The channel composition of a stream: a count, and the channels in the
/// order in which a frame holds their samples.
///
/// Slots from `channels` on carry no meaning.
#[derive(Clone, Copy, Debug)]
pub struct ChannelMap {
    pub channels: u32,
    pub map: [Channel; 10],
}

impl ChannelMap {
    /// The channel in a slot. A position past the last slot reads as
    /// `Invalid`.
    pub open spec fn slot_spec(&self, index: int) -> Channel {
        if 0 <= index < CHANNEL_MAX {
            self.map[index]
        } else {
            Channel::Invalid
        }
    }

    /// The channels that the map describes: as many as its count says, read
    /// from its slots in order.
    pub open spec fn order(&self) -> Seq<Channel> {
        Seq::new(self.channels as nat, |i: int| self.slot_spec(i))
    }

    /// Returns the channel in slot `index`.
    pub fn slot(&self, index: usize) -> (channel: Channel)
        ensures
            channel == self.slot_spec(index as int),
    {
        if index < CHANNEL_MAX {
            self.map[index]
        } else {
            Channel::Invalid
        }
    }

    /// Builds the map of a channel sequence. Fails exactly when the sequence
    /// is longer than the map has slots; the slots left over hold `Invalid`.
    pub fn from_order(order: &[Channel]) -> (result: Option<ChannelMap>)
        ensures
            result.is_some() <==> order@.len() <= CHANNEL_MAX,
            result.is_some() ==> {
                let built = result.unwrap();
                &&& built.channels == order@.len()
                &&& built.order() == order@
                &&& forall|i: int|
                    order@.len() <= i < CHANNEL_MAX ==> #[trigger] built.map[i] == Channel::Invalid
            },
    {
        if order.len() > CHANNEL_MAX {
            return None;
        }
        let mut built = ChannelMap { channels: order.len() as u32, map: [Channel::Invalid; 10] };
        let mut i: usize = 0;
        while i < order.len()
            invariant
                order@.len() <= CHANNEL_MAX,
                i <= order@.len(),
                built.channels == order@.len(),
                forall|k: int| i <= k < CHANNEL_MAX ==> #[trigger] built.map[k] == Channel::Invalid,
                forall|k: int| 0 <= k < i ==> #[trigger] built.map[k] == order@[k],
            decreases order@.len() - i,
        {
            built.map[i] = order[i];
            i += 1;
        }
        proof {
            assert(built.order() =~= order@);
        }
        Some(built)
    }

    /// Tells whether the map describes exactly the channels of `order`: as
    /// many, the same, in the same order.
    pub fn matches(&self, order: &[Channel]) -> (same: bool)
        ensures
            same == (self.order() == order@),
    {
        if self.channels as usize != order.len() {
            return false;
        }
        let mut i: usize = 0;
        while i < order.len()
            invariant
                self.channels == order@.len(),
                i <= order@.len(),
                forall|k: int| 0 <= k < i ==> self.slot_spec(k) == #[trigger] order@[k],
            decreases order@.len() - i,
        {
            if self.slot(i) != order[i] {
                proof {
                    assert(self.order()[i as int] == self.slot_spec(i as int));
                }
                return false;
            }
            i += 1;
        }
        proof {
            assert(self.order() =~= order@);
        }
        true
    }
}

impl Default for ChannelMap {
    /// The map of no channels. Every slot holds `Mono`, the channel of code
    /// zero.
    fn default() -> (map: ChannelMap)
        ensures
            map.channels == 0,
            forall|i: int| 0 <= i < CHANNEL_MAX ==> #[trigger] map.map[i] == Channel::Mono,
            map.order() == Seq::<Channel>::empty(),
    {
        let map = ChannelMap { channels: 0, map: [Channel::Mono; 10] };
        proof {
            assert(map.order() =~= Seq::<Channel>::empty());
        }
        map
    }
}

} // verus!
