use cubeb_mixer::buffer::holds_frames;
use cubeb_mixer::channel::Channel;
use cubeb_mixer::downmix::downmix;
use cubeb_mixer::layout::ChannelLayout;
use cubeb_mixer::log::LogLevel;
use cubeb_mixer::stream::{should_downmix, should_upmix, StreamParams};
use cubeb_mixer::upmix::upmix;
use cubeb_mixer::weights::{
    downmix_weight, fold_gain, has_standard_matrix, row_denominator, Weight, GAIN_MINUS_3DB,
    GAIN_MINUS_6DB, GAIN_UNITY,
};

fn add_share(mix: f32, sample: f32, weight: Weight) -> f32 {
    mix + sample * (weight.num as f32 / weight.den as f32)
}

fn params(channels: u32) -> StreamParams {
    StreamParams { channels, layout: ChannelLayout::Undefined }
}

#[test]
fn downmix_needed_iff_mixer_has_fewer_channels() {
    for n in 0..12u32 {
        for m in 0..12u32 {
            assert_eq!(should_downmix(&params(n), &params(m)), m < n, "{} {}", n, m);
        }
    }
}

#[test]
fn upmix_needed_iff_mixer_has_more_channels() {
    for n in 0..12u32 {
        for m in 0..12u32 {
            assert_eq!(should_upmix(&params(n), &params(m)), m > n, "{} {}", n, m);
        }
    }
}

#[test]
fn equal_channel_counts_need_neither() {
    for n in 0..12u32 {
        assert!(!should_downmix(&params(n), &params(n)));
        assert!(!should_upmix(&params(n), &params(n)));
    }
}

#[test]
fn never_both_downmix_and_upmix() {
    for n in [0u32, 1, 2, 6, 8, u32::MAX] {
        for m in [0u32, 1, 2, 6, 8, u32::MAX] {
            let (s, d) = (params(n), params(m));
            assert!(!(should_downmix(&s, &d) && should_upmix(&s, &d)));
        }
    }
}

#[test]
fn layouts_have_no_say_in_the_decision() {
    let stream = StreamParams { channels: 2, layout: ChannelLayout::Stereo };
    let mixer = StreamParams { channels: 6, layout: ChannelLayout::Layout3F2Lfe };
    assert!(should_upmix(&stream, &mixer));
    assert!(!should_downmix(&stream, &mixer));
    assert!(should_downmix(&mixer, &stream));
    assert!(!should_upmix(&mixer, &stream));
    let undefined = StreamParams { channels: 2, layout: ChannelLayout::Undefined };
    assert!(should_upmix(&undefined, &mixer));
}

#[test]
fn upmix_mono_to_stereo() {
    let input = [0.5f32, -0.5];
    let mut output = [9.0f32; 4];
    upmix(&input, 2, &mut output, 1, 2, 0.0);
    assert_eq!(output, [0.5, 0.0, -0.5, 0.0]);
}

#[test]
fn upmix_stereo_to_five_one() {
    let input = [1.0f32, 2.0, 3.0, 4.0];
    let mut output = [9.0f32; 12];
    upmix(&input, 2, &mut output, 2, 6, 0.0);
    assert_eq!(output, [1.0, 2.0, 0.0, 0.0, 0.0, 0.0, 3.0, 4.0, 0.0, 0.0, 0.0, 0.0]);
}

#[test]
fn upmix_to_as_many_channels_copies() {
    let input = [1.0f32, 2.0, 3.0, 4.0];
    let mut output = [9.0f32; 4];
    upmix(&input, 2, &mut output, 2, 2, 0.0);
    assert_eq!(output, input);
}

#[test]
fn upmix_of_no_frames_does_nothing() {
    let input = [0.5f32, -0.5];
    let mut output = [9.0f32; 4];
    upmix(&input, 0, &mut output, 1, 2, 0.0);
    assert_eq!(output, [9.0; 4]);
    let empty: [f32; 0] = [];
    let mut nothing: [f32; 0] = [];
    upmix(&empty, 0, &mut nothing, 1, 2, 0.0);
}

#[test]
fn upmix_writes_no_more_than_the_frames() {
    let input = [0.5f32, -0.5, 0.25];
    let mut output = [9.0f32; 7];
    upmix(&input, 2, &mut output, 1, 3, 0.0);
    assert_eq!(output, [0.5, 0.0, 0.0, -0.5, 0.0, 0.0, 9.0]);
}

#[test]
fn upmix_fills_with_the_given_silence() {
    let input = [7i16, 8];
    let mut output = [0i16; 4];
    upmix(&input, 2, &mut output, 1, 2, -1);
    assert_eq!(output, [7, -1, 8, -1]);
}

#[test]
fn downmix_stereo_to_mono_with_equal_weights() {
    let input = [1.0f32, 0.0];
    let mut output = [9.0f32; 1];
    downmix(
        &input,
        1,
        &mut output,
        2,
        1,
        ChannelLayout::Undefined,
        ChannelLayout::Undefined,
        0.0,
        add_share,
    );
    assert_eq!(output, [0.5]);
}

#[test]
fn downmix_stereo_to_mono_with_fold_down_gains() {
    let input = [1.0f32, 0.0, 0.5, 0.5];
    let mut output = [9.0f32; 2];
    downmix(
        &input,
        2,
        &mut output,
        2,
        1,
        ChannelLayout::Stereo,
        ChannelLayout::Mono,
        0.0,
        add_share,
    );
    assert_eq!(output, [0.5, 0.5]);
}

#[test]
fn downmix_five_one_to_stereo() {
    let left_share = 10000.0f32 / 24142.0;
    let fold_share = 7071.0f32 / 24142.0;
    let input = [
        1.0f32, 0.0, 0.0, 0.0, 0.0, 0.0, // left only
        0.0, 0.0, 1.0, 0.0, 0.0, 0.0, // center only
        0.0, 0.0, 0.0, 1.0, 0.0, 0.0, // low frequency only
        0.0, 0.0, 0.0, 0.0, 0.0, 1.0, // right surround only
    ];
    let mut output = [9.0f32; 8];
    downmix(
        &input,
        4,
        &mut output,
        6,
        2,
        ChannelLayout::Layout3F2Lfe,
        ChannelLayout::Stereo,
        0.0,
        add_share,
    );
    assert_eq!(
        output,
        [left_share, 0.0, fold_share, fold_share, 0.0, 0.0, 0.0, fold_share]
    );
}

#[test]
fn downmix_passes_over_a_channel_of_no_weight() {
    let input = [0.25f32, 0.5, 0.0, f32::NAN, 0.0, 0.0];
    let mut output = [9.0f32; 2];
    downmix(
        &input,
        1,
        &mut output,
        6,
        2,
        ChannelLayout::Layout3F2Lfe,
        ChannelLayout::Stereo,
        0.0,
        add_share,
    );
    assert_eq!(output, [0.25 * (10000.0f32 / 24142.0), 0.5 * (10000.0f32 / 24142.0)]);
}

#[test]
fn downmix_with_equal_weights_takes_channels_in_turn() {
    let input = [3.0f32, 30.0, 6.0, 60.0, 9.0, 90.0];
    let mut output = [9.0f32; 2];
    downmix(
        &input,
        1,
        &mut output,
        6,
        2,
        ChannelLayout::Undefined,
        ChannelLayout::Undefined,
        0.0,
        |mix: f32, sample: f32, weight: Weight| mix + sample / weight.den as f32,
    );
    assert_eq!(output, [6.0, 60.0]);
}

#[test]
fn downmix_to_as_many_channels_copies() {
    let input = [1.0f32, 2.0, 3.0, 4.0];
    let mut output = [9.0f32; 4];
    downmix(
        &input,
        2,
        &mut output,
        2,
        2,
        ChannelLayout::Undefined,
        ChannelLayout::Undefined,
        0.0,
        add_share,
    );
    assert_eq!(output, input);
}

#[test]
fn downmix_of_no_frames_does_nothing() {
    let input = [1.0f32, 0.0];
    let mut output = [9.0f32; 1];
    downmix(
        &input,
        0,
        &mut output,
        2,
        1,
        ChannelLayout::Stereo,
        ChannelLayout::Mono,
        0.0,
        add_share,
    );
    assert_eq!(output, [9.0]);
}

#[test]
fn downmix_writes_no_more_than_the_frames() {
    let input = [1.0f32, 0.0, 0.0, 1.0, 0.5, 0.5];
    let mut output = [9.0f32; 4];
    downmix(
        &input,
        2,
        &mut output,
        2,
        1,
        ChannelLayout::Undefined,
        ChannelLayout::Undefined,
        0.0,
        add_share,
    );
    assert_eq!(output, [0.5, 0.5, 9.0, 9.0]);
}

#[test]
fn downmix_hands_each_channel_over_in_order() {
    let input = [1u32, 2, 3];
    let mut output = [0u32; 1];
    downmix(
        &input,
        1,
        &mut output,
        3,
        1,
        ChannelLayout::Undefined,
        ChannelLayout::Undefined,
        0,
        |mix: u32, sample: u32, weight: Weight| {
            assert_eq!(weight, Weight { num: 1, den: 3 });
            mix * 10 + sample
        },
    );
    assert_eq!(output, [123]);
}

#[test]
fn fold_down_gains() {
    assert_eq!(GAIN_UNITY, 10000);
    assert_eq!(GAIN_MINUS_3DB, 7071);
    assert_eq!(GAIN_MINUS_6DB, 5000);
    assert_eq!(fold_gain(Channel::Left, Channel::Left), 10000);
    assert_eq!(fold_gain(Channel::Left, Channel::Center), 7071);
    assert_eq!(fold_gain(Channel::Left, Channel::Mono), 7071);
    assert_eq!(fold_gain(Channel::Left, Channel::LeftSurround), 7071);
    assert_eq!(fold_gain(Channel::Left, Channel::RearLeftSurround), 7071);
    assert_eq!(fold_gain(Channel::Left, Channel::RearCenter), 7071);
    assert_eq!(fold_gain(Channel::Left, Channel::Right), 0);
    assert_eq!(fold_gain(Channel::Left, Channel::RightSurround), 0);
    assert_eq!(fold_gain(Channel::Left, Channel::RearRightSurround), 0);
    assert_eq!(fold_gain(Channel::Right, Channel::Right), 10000);
    assert_eq!(fold_gain(Channel::Right, Channel::Center), 7071);
    assert_eq!(fold_gain(Channel::Right, Channel::Mono), 7071);
    assert_eq!(fold_gain(Channel::Right, Channel::RightSurround), 7071);
    assert_eq!(fold_gain(Channel::Right, Channel::RearRightSurround), 7071);
    assert_eq!(fold_gain(Channel::Right, Channel::RearCenter), 7071);
    assert_eq!(fold_gain(Channel::Right, Channel::Left), 0);
    assert_eq!(fold_gain(Channel::Right, Channel::LeftSurround), 0);
    assert_eq!(fold_gain(Channel::Mono, Channel::Mono), 10000);
    assert_eq!(fold_gain(Channel::Mono, Channel::Center), 10000);
    assert_eq!(fold_gain(Channel::Mono, Channel::Left), 7071);
    assert_eq!(fold_gain(Channel::Mono, Channel::Right), 7071);
    assert_eq!(fold_gain(Channel::Mono, Channel::RearCenter), 7071);
    assert_eq!(fold_gain(Channel::Mono, Channel::LeftSurround), 5000);
    assert_eq!(fold_gain(Channel::Mono, Channel::RightSurround), 5000);
    assert_eq!(fold_gain(Channel::Mono, Channel::RearLeftSurround), 5000);
    assert_eq!(fold_gain(Channel::Mono, Channel::RearRightSurround), 5000);
}

#[test]
fn low_frequency_is_folded_nowhere() {
    for target in [Channel::Mono, Channel::Left, Channel::Right] {
        assert_eq!(fold_gain(target, Channel::LowFrequency), 0);
        assert_eq!(fold_gain(target, Channel::Invalid), 0);
    }
}

#[test]
fn only_mono_and_front_pair_take_a_fold() {
    for target in [Channel::Center, Channel::LowFrequency, Channel::LeftSurround, Channel::Invalid] {
        for source in [Channel::Mono, Channel::Left, Channel::Center, target] {
            assert_eq!(fold_gain(target, source), 0);
        }
    }
}

#[test]
fn fold_down_gains_apply_to_named_sources_and_front_targets() {
    assert!(has_standard_matrix(ChannelLayout::Layout3F2Lfe, ChannelLayout::Stereo, 6, 2));
    assert!(has_standard_matrix(ChannelLayout::Stereo, ChannelLayout::Mono, 2, 1));
    assert!(has_standard_matrix(ChannelLayout::Mono, ChannelLayout::Mono, 1, 1));
    assert!(!has_standard_matrix(ChannelLayout::Undefined, ChannelLayout::Stereo, 6, 2));
    assert!(!has_standard_matrix(ChannelLayout::Layout3F2Lfe, ChannelLayout::Undefined, 6, 2));
    assert!(!has_standard_matrix(ChannelLayout::Layout3F2Lfe, ChannelLayout::Layout3F, 6, 3));
    assert!(!has_standard_matrix(ChannelLayout::Layout3F2Lfe, ChannelLayout::DualMono, 6, 2));
    assert!(!has_standard_matrix(ChannelLayout::Layout3F2Lfe, ChannelLayout::Stereo, 5, 2));
    assert!(!has_standard_matrix(ChannelLayout::Layout3F2Lfe, ChannelLayout::Stereo, 6, 1));
}

#[test]
fn weights_of_five_one_to_stereo() {
    let weight = |target, source| {
        downmix_weight(ChannelLayout::Layout3F2Lfe, ChannelLayout::Stereo, 6, 2, target, source)
    };
    assert_eq!(weight(0, 0), Weight { num: 10000, den: 24142 });
    assert_eq!(weight(0, 1), Weight { num: 0, den: 24142 });
    assert_eq!(weight(0, 2), Weight { num: 7071, den: 24142 });
    assert_eq!(weight(0, 3), Weight { num: 0, den: 24142 });
    assert_eq!(weight(0, 4), Weight { num: 7071, den: 24142 });
    assert_eq!(weight(0, 5), Weight { num: 0, den: 24142 });
    assert_eq!(weight(1, 0), Weight { num: 0, den: 24142 });
    assert_eq!(weight(1, 1), Weight { num: 10000, den: 24142 });
    assert_eq!(weight(1, 2), Weight { num: 7071, den: 24142 });
    assert_eq!(weight(1, 5), Weight { num: 7071, den: 24142 });
}

#[test]
fn weights_of_five_one_to_mono() {
    let weight = |source| {
        downmix_weight(ChannelLayout::Layout3F2Lfe, ChannelLayout::Mono, 6, 1, 0, source)
    };
    assert_eq!(weight(0), Weight { num: 7071, den: 34142 });
    assert_eq!(weight(1), Weight { num: 7071, den: 34142 });
    assert_eq!(weight(2), Weight { num: 10000, den: 34142 });
    assert_eq!(weight(3), Weight { num: 0, den: 34142 });
    assert_eq!(weight(4), Weight { num: 5000, den: 34142 });
    assert_eq!(weight(5), Weight { num: 5000, den: 34142 });
}

#[test]
fn row_that_adds_up_to_less_than_unity_is_not_raised() {
    let weight = |target, source| {
        downmix_weight(ChannelLayout::MonoLfe, ChannelLayout::Stereo, 2, 2, target, source)
    };
    assert_eq!(weight(0, 0), Weight { num: 7071, den: 10000 });
    assert_eq!(weight(0, 1), Weight { num: 0, den: 10000 });
    assert_eq!(weight(1, 0), Weight { num: 7071, den: 10000 });
}

#[test]
fn row_denominators() {
    assert_eq!(row_denominator(ChannelLayout::Stereo, ChannelLayout::Mono, 2, 1, 0), 14142);
    assert_eq!(row_denominator(ChannelLayout::Layout3F4Lfe, ChannelLayout::Stereo, 8, 2, 1), 31213);
    assert_eq!(row_denominator(ChannelLayout::DualMono, ChannelLayout::Stereo, 2, 2, 0), 10000);
    assert_eq!(row_denominator(ChannelLayout::Undefined, ChannelLayout::Undefined, 7, 3, 0), 3);
    assert_eq!(row_denominator(ChannelLayout::Undefined, ChannelLayout::Undefined, 7, 3, 1), 2);
    assert_eq!(row_denominator(ChannelLayout::Undefined, ChannelLayout::Undefined, 7, 3, 2), 2);
}

#[test]
fn equal_weights() {
    let weight = |target, source| {
        downmix_weight(ChannelLayout::Undefined, ChannelLayout::Undefined, 7, 3, target, source)
    };
    assert_eq!(weight(0, 0), Weight { num: 1, den: 3 });
    assert_eq!(weight(0, 3), Weight { num: 1, den: 3 });
    assert_eq!(weight(0, 6), Weight { num: 1, den: 3 });
    assert_eq!(weight(0, 1), Weight { num: 0, den: 1 });
    assert_eq!(weight(1, 1), Weight { num: 1, den: 2 });
    assert_eq!(weight(1, 4), Weight { num: 1, den: 2 });
    assert_eq!(weight(2, 5), Weight { num: 1, den: 2 });
    assert_eq!(weight(2, 6), Weight { num: 0, den: 1 });
}

#[test]
fn equal_weights_where_the_target_is_no_front_layout() {
    let weight =
        downmix_weight(ChannelLayout::Layout3F2Lfe, ChannelLayout::Layout2F2, 6, 4, 1, 5);
    assert_eq!(weight, Weight { num: 1, den: 2 });
}

#[test]
fn buffer_room() {
    assert!(holds_frames(4, 2, 2));
    assert!(holds_frames(5, 2, 2));
    assert!(!holds_frames(3, 2, 2));
    assert!(holds_frames(0, 0, 8));
    assert!(holds_frames(0, 8, 0));
    assert!(!holds_frames(usize::MAX, usize::MAX, 2));
    assert!(holds_frames(usize::MAX, usize::MAX, 1));
}

#[test]
fn log_level_ranks() {
    assert_eq!(LogLevel::Disabled.rank(), 0);
    assert_eq!(LogLevel::Normal.rank(), 1);
    assert_eq!(LogLevel::Verbose.rank(), 2);
    assert!(LogLevel::Disabled < LogLevel::Normal);
    assert!(LogLevel::Normal < LogLevel::Verbose);
}

#[test]
fn log_level_passes_up_to_the_threshold() {
    assert!(LogLevel::Normal.passes(LogLevel::Normal));
    assert!(LogLevel::Normal.passes(LogLevel::Verbose));
    assert!(!LogLevel::Normal.passes(LogLevel::Disabled));
    assert!(LogLevel::Verbose.passes(LogLevel::Verbose));
    assert!(!LogLevel::Verbose.passes(LogLevel::Normal));
    assert!(!LogLevel::Verbose.passes(LogLevel::Disabled));
    assert!(LogLevel::Disabled.passes(LogLevel::Disabled));
}
