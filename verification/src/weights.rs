//! The weights with which the channels of a frame are mixed down.
//!
//! Between a named layout and mono or stereo the weights follow the downward
//! mixing equations of ITU-R BS.775: a channel that the target lacks is
//! folded into the front channels at reduced gain, and the low-frequency
//! channel is left out. A row whose gains add up to more than unity is scaled
//! down by that sum, so that a mix never exceeds the loudest input. Every
//! other pair of layouts is mixed with equal weights.

use vstd::prelude::*;
use vstd::arithmetic::div_mod::{
    lemma_fundamental_div_mod, lemma_fundamental_div_mod_converse, lemma_mod_bound,
};
use crate::catalog::{channel_index_to_order, lemma_catalog_entry, order_of};
use crate::channel::Channel;
use crate::layout::ChannelLayout;

verus! {

/// The gain of a channel that is passed on as it is, in ten-thousandths.
pub const GAIN_UNITY: u32 = 10000;

/// A gain of -3 dB, the square root of one half, in ten-thousandths.
pub const GAIN_MINUS_3DB: u32 = 7071;

/// A gain of -6 dB, one half, in ten-thousandths.
pub const GAIN_MINUS_6DB: u32 = 5000;

/// The share `num / den` of a sample that goes into a mix.
#[derive(Clone, Copy, Debug, PartialEq, Eq, Structural)]
pub struct Weight {
    pub num: u32,
    pub den: u32,
}

impl Weight {
    /// A weight is a fraction between nothing and the whole.
    pub open spec fn is_fraction(self) -> bool {
        0 < self.den && self.num <= self.den
    }
}

/// The gain, in ten-thousandths, with which `source` is heard in `target`
/// when a frame is folded down to mono or stereo.
///
/// Into `Left` go the left front at unity and the center, the mono channel
/// and the surrounds of the left side and the rear center at -3 dB; `Right`
/// mirrors it. Into `Mono` go the mono and center channels at unity, the
/// front pair and the rear center at -3 dB, and the four surrounds at -6 dB.
/// The low-frequency channel goes nowhere, and no other target takes
/// anything.
pub open spec fn fold_gain_spec(target: Channel, source: Channel) -> nat {
    match (target, source) {
        (Channel::Left, Channel::Left) => GAIN_UNITY as nat,
        (Channel::Left, Channel::Mono) => GAIN_MINUS_3DB as nat,
        (Channel::Left, Channel::Center) => GAIN_MINUS_3DB as nat,
        (Channel::Left, Channel::LeftSurround) => GAIN_MINUS_3DB as nat,
        (Channel::Left, Channel::RearLeftSurround) => GAIN_MINUS_3DB as nat,
        (Channel::Left, Channel::RearCenter) => GAIN_MINUS_3DB as nat,
        (Channel::Right, Channel::Right) => GAIN_UNITY as nat,
        (Channel::Right, Channel::Mono) => GAIN_MINUS_3DB as nat,
        (Channel::Right, Channel::Center) => GAIN_MINUS_3DB as nat,
        (Channel::Right, Channel::RightSurround) => GAIN_MINUS_3DB as nat,
        (Channel::Right, Channel::RearRightSurround) => GAIN_MINUS_3DB as nat,
        (Channel::Right, Channel::RearCenter) => GAIN_MINUS_3DB as nat,
        (Channel::Mono, Channel::Mono) => GAIN_UNITY as nat,
        (Channel::Mono, Channel::Center) => GAIN_UNITY as nat,
        (Channel::Mono, Channel::Left) => GAIN_MINUS_3DB as nat,
        (Channel::Mono, Channel::Right) => GAIN_MINUS_3DB as nat,
        (Channel::Mono, Channel::RearCenter) => GAIN_MINUS_3DB as nat,
        (Channel::Mono, Channel::LeftSurround) => GAIN_MINUS_6DB as nat,
        (Channel::Mono, Channel::RightSurround) => GAIN_MINUS_6DB as nat,
        (Channel::Mono, Channel::RearLeftSurround) => GAIN_MINUS_6DB as nat,
        (Channel::Mono, Channel::RearRightSurround) => GAIN_MINUS_6DB as nat,
        _ => 0,
    }
}

/// The gains with which the first `upto` channels of `sources` are heard in
/// `target`, added up.
pub open spec fn row_gain(target: Channel, sources: Seq<Channel>, upto: nat) -> nat
    decreases upto,
{
    if upto == 0 {
        0
    } else {
        row_gain(target, sources, (upto - 1) as nat) + fold_gain_spec(target, sources[upto - 1])
    }
}

/// Whether the fold-down gains apply to a pair of streams: the source is in a
/// named layout and holds as many channels as that layout, and the target is
/// mono or stereo and holds as many channels as that.
pub open spec fn has_standard_matrix_spec(
    in_layout: ChannelLayout,
    out_layout: ChannelLayout,
    in_channels: int,
    out_channels: int,
) -> bool {
    &&& in_layout.is_named()
    &&& in_channels == in_layout.channels_spec()
    &&& (out_layout == ChannelLayout::Mono || out_layout == ChannelLayout::Stereo)
    &&& out_channels == out_layout.channels_spec()
}

/// The weight of source channel `source` in target channel `target` under
/// the fold-down gains: its gain, over the gains of the row added up, or over
/// unity where they add up to less.
pub open spec fn standard_weight(
    in_layout: ChannelLayout,
    out_layout: ChannelLayout,
    target: int,
    source: int,
) -> Weight {
    let sources = order_of(in_layout);
    let role = order_of(out_layout)[target];
    let gain = fold_gain_spec(role, sources[source]);
    let total = row_gain(role, sources, sources.len());
    Weight {
        num: gain as u32,
        den: if total < GAIN_UNITY {
            GAIN_UNITY
        } else {
            total as u32
        },
    }
}

/// How many of `in_channels` source channels are mixed into target channel
/// `target` with equal weights: those at `target`, `target + out_channels`,
/// `target + 2 * out_channels` and so on.
pub open spec fn shares(in_channels: int, out_channels: int, target: int) -> int {
    (in_channels - 1 - target) / out_channels + 1
}

/// The weight of source channel `source` in target channel `target` when
/// channels are mixed with equal weights: each source channel goes to the
/// target channel at its position counted round the target's channels, and
/// each target channel is the mean of what goes to it.
pub open spec fn fallback_weight(
    in_channels: int,
    out_channels: int,
    target: int,
    source: int,
) -> Weight {
    if source % out_channels == target {
        Weight { num: 1, den: shares(in_channels, out_channels, target) as u32 }
    } else {
        Weight { num: 0, den: 1 }
    }
}

/// The weight of source channel `source` in target channel `target` when a
/// frame of `in_channels` channels is mixed down to `out_channels`: that of
/// the fold-down gains where they apply, the equal weight otherwise.
pub open spec fn mix_weight(
    in_layout: ChannelLayout,
    out_layout: ChannelLayout,
    in_channels: int,
    out_channels: int,
    target: int,
    source: int,
) -> Weight {
    if has_standard_matrix_spec(in_layout, out_layout, in_channels, out_channels) {
        standard_weight(in_layout, out_layout, target, source)
    } else {
        fallback_weight(in_channels, out_channels, target, source)
    }
}

/// The number that the weights of target channel `target` are fractions of.
pub open spec fn row_whole(
    in_layout: ChannelLayout,
    out_layout: ChannelLayout,
    in_channels: int,
    out_channels: int,
    target: int,
) -> int {
    if has_standard_matrix_spec(in_layout, out_layout, in_channels, out_channels) {
        standard_weight(in_layout, out_layout, target, 0).den as int
    } else {
        shares(in_channels, out_channels, target)
    }
}

/// Returns the gain, in ten-thousandths, with which `source` is heard in
/// `target` when a frame is folded down to mono or stereo.
pub fn fold_gain(target: Channel, source: Channel) -> (gain: u32)
    ensures
        gain == fold_gain_spec(target, source),
        gain <= GAIN_UNITY,
{
    match target {
        Channel::Left => match source {
            Channel::Left => GAIN_UNITY,
            Channel::Mono
            | Channel::Center
            | Channel::LeftSurround
            | Channel::RearLeftSurround
            | Channel::RearCenter => GAIN_MINUS_3DB,
            _ => 0,
        },
        Channel::Right => match source {
            Channel::Right => GAIN_UNITY,
            Channel::Mono
            | Channel::Center
            | Channel::RightSurround
            | Channel::RearRightSurround
            | Channel::RearCenter => GAIN_MINUS_3DB,
            _ => 0,
        },
        Channel::Mono => match source {
            Channel::Mono | Channel::Center => GAIN_UNITY,
            Channel::Left | Channel::Right | Channel::RearCenter => GAIN_MINUS_3DB,
            Channel::LeftSurround
            | Channel::RightSurround
            | Channel::RearLeftSurround
            | Channel::RearRightSurround => GAIN_MINUS_6DB,
            _ => 0,
        },
        _ => 0,
    }
}

/// Tells whether the fold-down gains apply to a pair of streams.
pub fn has_standard_matrix(
    in_layout: ChannelLayout,
    out_layout: ChannelLayout,
    in_channels: u32,
    out_channels: u32,
) -> (applies: bool)
    ensures
        applies == has_standard_matrix_spec(
            in_layout,
            out_layout,
            in_channels as int,
            out_channels as int,
        ),
{
    let to_front = match out_layout {
        ChannelLayout::Mono | ChannelLayout::Stereo => true,
        _ => false,
    };
    let named = match in_layout {
        ChannelLayout::Undefined => false,
        _ => true,
    };
    named && to_front && in_channels == in_layout.channels() && out_channels
        == out_layout.channels()
}

/// The gains of a row never add up to more than unity for each channel.
pub proof fn lemma_row_gain_bound(target: Channel, sources: Seq<Channel>, upto: nat)
    ensures
        row_gain(target, sources, upto) <= upto * GAIN_UNITY,
    decreases upto,
{
    if upto > 0 {
        lemma_row_gain_bound(target, sources, (upto - 1) as nat);
    }
}

/// A gain is never more than the gains of its row added up.
pub proof fn lemma_gain_within_row(target: Channel, sources: Seq<Channel>, upto: nat, source: int)
    requires
        0 <= source < upto,
    ensures
        fold_gain_spec(target, sources[source]) <= row_gain(target, sources, upto),
    decreases upto,
{
    if source < upto - 1 {
        lemma_gain_within_row(target, sources, (upto - 1) as nat, source);
    }
}

/// Returns the number that the weights of target channel `target` are
/// fractions of.
pub fn row_denominator(
    in_layout: ChannelLayout,
    out_layout: ChannelLayout,
    in_channels: u32,
    out_channels: u32,
    target: u32,
) -> (den: u32)
    requires
        1 <= out_channels <= in_channels,
        target < out_channels,
    ensures
        0 < den,
        den == row_whole(
            in_layout,
            out_layout,
            in_channels as int,
            out_channels as int,
            target as int,
        ),
{
    if has_standard_matrix(in_layout, out_layout, in_channels, out_channels) {
        proof {
            lemma_catalog_entry(in_layout);
            lemma_catalog_entry(out_layout);
        }
        let sources = channel_index_to_order(in_layout);
        let role = channel_index_to_order(out_layout)[target as usize];
        let mut total: u32 = 0;
        let mut seen: usize = 0;
        while seen < sources.len()
            invariant
                sources@ == order_of(in_layout),
                sources@.len() <= 8,
                seen <= sources@.len(),
                total == row_gain(role, sources@, seen as nat),
                total <= seen * GAIN_UNITY,
            decreases sources@.len() - seen,
        {
            total = total + fold_gain(role, sources[seen]);
            seen += 1;
        }
        if total < GAIN_UNITY {
            GAIN_UNITY
        } else {
            total
        }
    } else {
        proof {
            lemma_shares_bound(in_channels as int, out_channels as int, target as int);
        }
        (in_channels - 1 - target) / out_channels + 1
    }
}

/// Each target channel has at least one source channel mixed into it with
/// equal weight, and no more than there are source channels.
pub proof fn lemma_shares_bound(in_channels: int, out_channels: int, target: int)
    requires
        1 <= out_channels <= in_channels,
        0 <= target < out_channels,
    ensures
        1 <= shares(in_channels, out_channels, target) <= in_channels,
{
    let rest = in_channels - 1 - target;
    assert(0 <= rest / out_channels <= rest) by (nonlinear_arith)
        requires
            0 <= rest,
            1 <= out_channels,
    ;
}

/// Returns the weight of source channel `source` in target channel `target`
/// when a frame of `in_channels` channels in `in_layout` is mixed down to
/// `out_channels` channels in `out_layout`.
pub fn downmix_weight(
    in_layout: ChannelLayout,
    out_layout: ChannelLayout,
    in_channels: u32,
    out_channels: u32,
    target: u32,
    source: u32,
) -> (weight: Weight)
    requires
        1 <= out_channels <= in_channels,
        target < out_channels,
        source < in_channels,
    ensures
        weight == mix_weight(
            in_layout,
            out_layout,
            in_channels as int,
            out_channels as int,
            target as int,
            source as int,
        ),
        weight.is_fraction(),
{
    let den = row_denominator(in_layout, out_layout, in_channels, out_channels, target);
    weight_over(in_layout, out_layout, in_channels, out_channels, target, source, den)
}

/// Returns the weight of `source` in `target`, given the number that the
/// weights of `target` are fractions of.
pub(crate) fn weight_over(
    in_layout: ChannelLayout,
    out_layout: ChannelLayout,
    in_channels: u32,
    out_channels: u32,
    target: u32,
    source: u32,
    den: u32,
) -> (weight: Weight)
    requires
        1 <= out_channels <= in_channels,
        target < out_channels,
        source < in_channels,
        den == row_whole(
            in_layout,
            out_layout,
            in_channels as int,
            out_channels as int,
            target as int,
        ),
    ensures
        weight == mix_weight(
            in_layout,
            out_layout,
            in_channels as int,
            out_channels as int,
            target as int,
            source as int,
        ),
        weight.is_fraction(),
{
    if has_standard_matrix(in_layout, out_layout, in_channels, out_channels) {
        proof {
            lemma_catalog_entry(in_layout);
            lemma_catalog_entry(out_layout);
            let sources = order_of(in_layout);
            let role = order_of(out_layout)[target as int];
            lemma_gain_within_row(role, sources, sources.len(), source as int);
            lemma_row_gain_bound(role, sources, sources.len());
        }
        let sources = channel_index_to_order(in_layout);
        let role = channel_index_to_order(out_layout)[target as usize];
        Weight { num: fold_gain(role, sources[source as usize]), den }
    } else {
        proof {
            lemma_shares_bound(in_channels as int, out_channels as int, target as int);
        }
        if source % out_channels == target {
            Weight { num: 1, den }
        } else {
            Weight { num: 0, den: 1 }
        }
    }
}

/// What the first `upto` weights of target channel `target` add up to,
/// counted in parts of the number that the row's weights are fractions of.
pub open spec fn row_parts(
    in_layout: ChannelLayout,
    out_layout: ChannelLayout,
    in_channels: int,
    out_channels: int,
    target: int,
    upto: nat,
) -> nat
    decreases upto,
{
    if upto == 0 {
        0
    } else {
        row_parts(in_layout, out_layout, in_channels, out_channels, target, (upto - 1) as nat)
            + mix_weight(
            in_layout,
            out_layout,
            in_channels,
            out_channels,
            target,
            upto - 1,
        ).num as nat
    }
}

/// Every weight is a fraction between nothing and the whole, and every weight
/// of a row that is more than nothing is a fraction of the same number.
pub proof fn lemma_weight_is_fraction(
    in_layout: ChannelLayout,
    out_layout: ChannelLayout,
    in_channels: int,
    out_channels: int,
    target: int,
    source: int,
)
    requires
        1 <= out_channels <= in_channels <= u32::MAX,
        0 <= target < out_channels,
        0 <= source < in_channels,
    ensures
        mix_weight(in_layout, out_layout, in_channels, out_channels, target, source).is_fraction(),
        mix_weight(in_layout, out_layout, in_channels, out_channels, target, source).num > 0
            ==> mix_weight(in_layout, out_layout, in_channels, out_channels, target, source).den
            == row_whole(in_layout, out_layout, in_channels, out_channels, target),
{
    if has_standard_matrix_spec(in_layout, out_layout, in_channels, out_channels) {
        lemma_catalog_entry(in_layout);
        lemma_catalog_entry(out_layout);
        let sources = order_of(in_layout);
        let role = order_of(out_layout)[target];
        lemma_gain_within_row(role, sources, sources.len(), source);
        lemma_row_gain_bound(role, sources, sources.len());
    } else {
        lemma_shares_bound(in_channels, out_channels, target);
    }
}

/// With equal weights every source channel is heard in exactly one target
/// channel, the one at its position counted round the target's channels: no
/// channel is lost.
pub proof fn lemma_equal_weights_keep_every_channel(
    in_channels: int,
    out_channels: int,
    target: int,
    source: int,
)
    requires
        1 <= out_channels <= in_channels,
        0 <= target < out_channels,
        0 <= source < in_channels,
    ensures
        0 <= source % out_channels < out_channels,
        fallback_weight(in_channels, out_channels, target, source).num > 0 <==> target == source
            % out_channels,
{
    lemma_mod_bound(source, out_channels);
}

/// How many of the first `upto` source channels are mixed into target
/// channel `target` with equal weights.
pub open spec fn shares_upto(out_channels: int, target: int, upto: int) -> int {
    if upto <= target {
        0
    } else {
        (upto - 1 - target) / out_channels + 1
    }
}

/// One source channel more is one share more exactly when it is mixed into
/// the target channel.
proof fn lemma_shares_step(out_channels: int, target: int, upto: int)
    requires
        1 <= out_channels,
        0 <= target < out_channels,
        0 <= upto,
    ensures
        shares_upto(out_channels, target, upto + 1) == shares_upto(out_channels, target, upto) + (
        if upto % out_channels == target {
            1int
        } else {
            0int
        }),
{
    if upto < target {
        lemma_fundamental_div_mod_converse(upto, out_channels, 0, upto);
    } else if upto == target {
        lemma_fundamental_div_mod_converse(upto, out_channels, 0, upto);
        lemma_fundamental_div_mod_converse(0, out_channels, 0, 0);
    } else {
        let before = upto - 1 - target;
        let quotient = before / out_channels;
        let rest = before % out_channels;
        lemma_fundamental_div_mod(before, out_channels);
        lemma_mod_bound(before, out_channels);
        assert(out_channels * quotient == quotient * out_channels) by (nonlinear_arith);
        assert((quotient + 1) * out_channels == quotient * out_channels + out_channels)
            by (nonlinear_arith);
        if rest == out_channels - 1 {
            lemma_fundamental_div_mod_converse(before + 1, out_channels, quotient + 1, 0);
            lemma_fundamental_div_mod_converse(upto, out_channels, quotient + 1, target);
        } else {
            lemma_fundamental_div_mod_converse(before + 1, out_channels, quotient, rest + 1);
            if rest + 1 + target < out_channels {
                lemma_fundamental_div_mod_converse(
                    upto,
                    out_channels,
                    quotient,
                    rest + 1 + target,
                );
            } else {
                lemma_fundamental_div_mod_converse(
                    upto,
                    out_channels,
                    quotient + 1,
                    rest + 1 + target - out_channels,
                );
            }
        }
    }
}

/// With equal weights the first `upto` weights of a row add up to as many
/// parts as source channels among them are mixed into the target channel.
proof fn lemma_equal_parts(
    in_layout: ChannelLayout,
    out_layout: ChannelLayout,
    in_channels: int,
    out_channels: int,
    target: int,
    upto: nat,
)
    requires
        1 <= out_channels <= in_channels,
        0 <= target < out_channels,
        !has_standard_matrix_spec(in_layout, out_layout, in_channels, out_channels),
    ensures
        row_parts(in_layout, out_layout, in_channels, out_channels, target, upto) == shares_upto(
            out_channels,
            target,
            upto as int,
        ),
    decreases upto,
{
    if upto > 0 {
        lemma_equal_parts(
            in_layout,
            out_layout,
            in_channels,
            out_channels,
            target,
            (upto - 1) as nat,
        );
        lemma_shares_step(out_channels, target, upto - 1);
    }
}

/// Under the fold-down gains the first `upto` weights of a row add up to the
/// gains of the first `upto` source channels.
proof fn lemma_standard_parts(
    in_layout: ChannelLayout,
    out_layout: ChannelLayout,
    in_channels: int,
    out_channels: int,
    target: int,
    upto: nat,
)
    requires
        has_standard_matrix_spec(in_layout, out_layout, in_channels, out_channels),
        0 <= target < out_channels,
        upto <= in_channels,
    ensures
        row_parts(in_layout, out_layout, in_channels, out_channels, target, upto) == row_gain(
            order_of(out_layout)[target],
            order_of(in_layout),
            upto,
        ),
    decreases upto,
{
    if upto > 0 {
        lemma_standard_parts(
            in_layout,
            out_layout,
            in_channels,
            out_channels,
            target,
            (upto - 1) as nat,
        );
    }
}

/// The weights of a row never add up to more than the whole, so a mix is
/// never louder than the loudest of its channels. With equal weights they
/// add up to exactly the whole: each target channel is the mean of the
/// source channels mixed into it.
pub proof fn lemma_row_within_whole(
    in_layout: ChannelLayout,
    out_layout: ChannelLayout,
    in_channels: int,
    out_channels: int,
    target: int,
)
    requires
        1 <= out_channels <= in_channels,
        0 <= target < out_channels,
    ensures
        row_parts(in_layout, out_layout, in_channels, out_channels, target, in_channels as nat)
            <= row_whole(in_layout, out_layout, in_channels, out_channels, target),
        !has_standard_matrix_spec(in_layout, out_layout, in_channels, out_channels) ==> row_parts(
            in_layout,
            out_layout,
            in_channels,
            out_channels,
            target,
            in_channels as nat,
        ) == row_whole(in_layout, out_layout, in_channels, out_channels, target),
{
    if has_standard_matrix_spec(in_layout, out_layout, in_channels, out_channels) {
        lemma_catalog_entry(in_layout);
        lemma_catalog_entry(out_layout);
        lemma_standard_parts(
            in_layout,
            out_layout,
            in_channels,
            out_channels,
            target,
            in_channels as nat,
        );
        lemma_row_gain_bound(
            order_of(out_layout)[target],
            order_of(in_layout),
            order_of(in_layout).len(),
        );
    } else {
        lemma_equal_parts(
            in_layout,
            out_layout,
            in_channels,
            out_channels,
            target,
            in_channels as nat,
        );
    }
}

} // verus!
