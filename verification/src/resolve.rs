//! Naming the layout that a channel map describes.

use vstd::prelude::*;
use crate::catalog::{channel_index_to_order, order_of};
use crate::channel::Channel;
use crate::channel_map::ChannelMap;
use crate::layout::{ChannelLayout, LAYOUT_COUNT};

verus! {

/// The first named layout at or after position `from` of the declared order
/// that stands for exactly `order`; `Undefined` if there is none.
pub open spec fn first_match(order: Seq<Channel>, from: int) -> ChannelLayout
    decreases LAYOUT_COUNT - from,
{
    if from < 1 || from >= LAYOUT_COUNT {
        ChannelLayout::Undefined
    } else if order_of(ChannelLayout::at(from)) == order {
        ChannelLayout::at(from)
    } else {
        first_match(order, from + 1)
    }
}

/// The layout that a channel sequence resolves to: the first named layout of
/// the declared order that stands for the same channels in the same order,
/// `Undefined` if no named layout does.
pub open spec fn resolve(order: Seq<Channel>) -> ChannelLayout {
    first_match(order, 1)
}

/// The layout that wins where several stand for one channel sequence: of
/// `DualMono` and `Stereo` it is `DualMono`, of `DualMonoLfe` and `StereoLfe`
/// it is `DualMonoLfe`. Every other layout shares its sequence with none.
pub open spec fn winner(layout: ChannelLayout) -> ChannelLayout {
    match layout {
        ChannelLayout::Stereo => ChannelLayout::DualMono,
        ChannelLayout::StereoLfe => ChannelLayout::DualMonoLfe,
        _ => layout,
    }
}

/// Returns the layout that `map` describes.
///
/// The channels that the map describes are held against the catalog entry of
/// each named layout in declared order, and the first entry that is the same
/// sequence names the result. The same channels in another order are no
/// match. A map that matches no entry is `Undefined`.
pub fn channel_map_to_layout(map: &ChannelMap) -> (layout: ChannelLayout)
    ensures
        layout == resolve(map.order()),
        layout.is_named() ==> order_of(layout) == map.order(),
        !layout.is_named() ==> forall|other: ChannelLayout|
            other.is_named() ==> #[trigger] order_of(other) != map.order(),
{
    proof {
        lemma_resolve_first(map.order());
    }
    let mut position: usize = 1;
    while position < LAYOUT_COUNT
        invariant
            1 <= position <= LAYOUT_COUNT,
            resolve(map.order()) == first_match(map.order(), position as int),
        decreases LAYOUT_COUNT - position,
    {
        let candidate = ChannelLayout::from_index(position);
        if map.matches(channel_index_to_order(candidate)) {
            return candidate;
        }
        position += 1;
    }
    ChannelLayout::Undefined
}

/// From any position on, the first match stands for the sequence and no named
/// layout between the position and it does; where there is none, no named
/// layout from the position on stands for the sequence.
pub proof fn lemma_first_match(order: Seq<Channel>, from: int)
    requires
        1 <= from,
    ensures
        first_match(order, from).is_named() ==> {
            &&& order_of(first_match(order, from)) == order
            &&& from <= first_match(order, from).index_spec()
        },
        forall|other: ChannelLayout|
            from <= other.index_spec() && (first_match(order, from).is_named()
                ==> other.index_spec() < first_match(order, from).index_spec())
                ==> #[trigger] order_of(other) != order,
    decreases LAYOUT_COUNT - from,
{
    if from < LAYOUT_COUNT {
        ChannelLayout::lemma_at_index(from);
        if order_of(ChannelLayout::at(from)) != order {
            lemma_first_match(order, from + 1);
            assert forall|other: ChannelLayout|
                from <= other.index_spec() && (first_match(order, from).is_named()
                    ==> other.index_spec() < first_match(order, from).index_spec())
                implies #[trigger] order_of(other) != order by {
                other.lemma_index_round_trip();
            }
        }
    } else {
        assert forall|other: ChannelLayout| from <= other.index_spec() implies #[trigger] order_of(
            other,
        ) != order by {
            other.lemma_index_round_trip();
        }
    }
}

/// What a sequence resolves to is the first of the named layouts that stand
/// for it: it stands for the sequence, and no named layout declared before it
/// does. A sequence resolves to `Undefined` exactly when no named layout
/// stands for it.
pub proof fn lemma_resolve_first(order: Seq<Channel>)
    ensures
        resolve(order).is_named() ==> order_of(resolve(order)) == order,
        forall|other: ChannelLayout|
            other.is_named() && other.index_spec() < resolve(order).index_spec()
                ==> #[trigger] order_of(other) != order,
        !resolve(order).is_named() <==> forall|other: ChannelLayout|
            other.is_named() ==> #[trigger] order_of(other) != order,
{
    lemma_first_match(order, 1);
    assert forall|other: ChannelLayout|
        other.is_named() && other.index_spec() < resolve(order).index_spec()
        implies #[trigger] order_of(other) != order by {
        other.lemma_index_round_trip();
    }
    if !resolve(order).is_named() {
        assert forall|other: ChannelLayout| other.is_named() implies #[trigger] order_of(other)
            != order by {
            other.lemma_index_round_trip();
        }
    }
}

/// A channel sequence that no named layout stands for resolves to
/// `Undefined`.
pub proof fn lemma_absent_resolves_to_undefined(order: Seq<Channel>)
    requires
        forall|layout: ChannelLayout| layout.is_named() ==> #[trigger] order_of(layout) != order,
    ensures
        resolve(order) == ChannelLayout::Undefined,
{
    lemma_resolve_first(order);
}

/// Two layouts stand for the same channel sequence only if the same layout
/// wins for both.
pub proof fn lemma_shared_order(first: ChannelLayout, second: ChannelLayout)
    requires
        order_of(first) == order_of(second),
    ensures
        winner(first) == winner(second),
{
    let a = order_of(first);
    let b = order_of(second);
    assert(a.len() == b.len());
    if a.len() >= 4 {
        assert(a[2] == b[2] && a[3] == b[3]);
    } else if a.len() >= 3 {
        assert(a[2] == b[2]);
    } else {
        assert(a[0] == b[0]);
    }
}

/// The catalog entry of a named layout resolves to that layout, or, where
/// the layout shares its entry with one declared before it, to that one.
/// Whatever it resolves to stands for the same sequence.
pub proof fn lemma_round_trip(layout: ChannelLayout)
    requires
        layout.is_named(),
    ensures
        resolve(order_of(layout)) == winner(layout),
        order_of(resolve(order_of(layout))) == order_of(layout),
{
    let order = order_of(layout);
    lemma_resolve_first(order);
    let found = resolve(order);
    assert(found.is_named());
    lemma_shared_order(found, layout);
    assert(winner(found) == found) by {
        if winner(found) != found {
            assert(winner(found).is_named() && winner(found).index_spec() < found.index_spec());
            assert(order_of(winner(found)) == order);
        }
    }
}

} // verus!
