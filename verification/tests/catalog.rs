use cubeb_mixer::catalog::channel_index_to_order;
use cubeb_mixer::channel::Channel;
use cubeb_mixer::channel::Channel::{
    Center, Left, LeftSurround, LowFrequency, Mono, RearCenter, RearLeftSurround,
    RearRightSurround, Right, RightSurround,
};
use cubeb_mixer::layout::{ChannelLayout, LAYOUT_COUNT};

fn all_layouts() -> Vec<ChannelLayout> {
    vec![
        ChannelLayout::Undefined,
        ChannelLayout::DualMono,
        ChannelLayout::DualMonoLfe,
        ChannelLayout::Mono,
        ChannelLayout::MonoLfe,
        ChannelLayout::Stereo,
        ChannelLayout::StereoLfe,
        ChannelLayout::Layout3F,
        ChannelLayout::Layout3FLfe,
        ChannelLayout::Layout2F1,
        ChannelLayout::Layout2F1Lfe,
        ChannelLayout::Layout3F1,
        ChannelLayout::Layout3F1Lfe,
        ChannelLayout::Layout2F2,
        ChannelLayout::Layout2F2Lfe,
        ChannelLayout::Layout3F2,
        ChannelLayout::Layout3F2Lfe,
        ChannelLayout::Layout3F3RLfe,
        ChannelLayout::Layout3F4Lfe,
    ]
}

#[test]
fn catalog_has_nineteen_layouts() {
    assert_eq!(LAYOUT_COUNT, 19);
    assert_eq!(all_layouts().len(), LAYOUT_COUNT);
}

#[test]
fn layout_positions_follow_declaration() {
    for (position, layout) in all_layouts().into_iter().enumerate() {
        assert_eq!(layout.index(), position);
        assert_eq!(ChannelLayout::from_index(position), layout);
    }
}

#[test]
fn position_past_the_end_is_undefined() {
    assert_eq!(ChannelLayout::from_index(19), ChannelLayout::Undefined);
    assert_eq!(ChannelLayout::from_index(usize::MAX), ChannelLayout::Undefined);
}

#[test]
fn documented_channel_counts() {
    let counts: Vec<u32> = all_layouts().into_iter().map(|l| l.channels()).collect();
    assert_eq!(counts, vec![0, 2, 3, 1, 2, 2, 3, 3, 4, 3, 4, 4, 5, 4, 5, 5, 6, 7, 8]);
}

#[test]
fn undefined_is_the_invalid_sentinel() {
    assert_eq!(channel_index_to_order(ChannelLayout::Undefined), &[Channel::Invalid]);
}

#[test]
fn every_named_entry_has_its_documented_length() {
    for layout in all_layouts().into_iter().skip(1) {
        let order = channel_index_to_order(layout);
        assert_eq!(order.len(), layout.channels() as usize, "{:?}", layout);
        assert!(order.len() <= 8);
    }
}

#[test]
fn no_named_entry_holds_invalid() {
    for layout in all_layouts().into_iter().skip(1) {
        assert!(!channel_index_to_order(layout).contains(&Channel::Invalid), "{:?}", layout);
    }
}

#[test]
fn no_named_entry_holds_a_channel_twice() {
    for layout in all_layouts().into_iter().skip(1) {
        let order = channel_index_to_order(layout);
        for i in 0..order.len() {
            for j in 0..i {
                assert_ne!(order[i], order[j], "{:?}", layout);
            }
        }
    }
}

#[test]
fn entries_in_frame_order() {
    assert_eq!(channel_index_to_order(ChannelLayout::DualMono), &[Left, Right]);
    assert_eq!(channel_index_to_order(ChannelLayout::DualMonoLfe), &[Left, Right, LowFrequency]);
    assert_eq!(channel_index_to_order(ChannelLayout::Mono), &[Mono]);
    assert_eq!(channel_index_to_order(ChannelLayout::MonoLfe), &[Mono, LowFrequency]);
    assert_eq!(channel_index_to_order(ChannelLayout::Stereo), &[Left, Right]);
    assert_eq!(channel_index_to_order(ChannelLayout::StereoLfe), &[Left, Right, LowFrequency]);
    assert_eq!(channel_index_to_order(ChannelLayout::Layout3F), &[Left, Right, Center]);
    assert_eq!(
        channel_index_to_order(ChannelLayout::Layout3FLfe),
        &[Left, Right, Center, LowFrequency]
    );
    assert_eq!(channel_index_to_order(ChannelLayout::Layout2F1), &[Left, Right, RearCenter]);
    assert_eq!(
        channel_index_to_order(ChannelLayout::Layout2F1Lfe),
        &[Left, Right, LowFrequency, RearCenter]
    );
    assert_eq!(
        channel_index_to_order(ChannelLayout::Layout3F1),
        &[Left, Right, Center, RearCenter]
    );
    assert_eq!(
        channel_index_to_order(ChannelLayout::Layout3F1Lfe),
        &[Left, Right, Center, LowFrequency, RearCenter]
    );
    assert_eq!(
        channel_index_to_order(ChannelLayout::Layout2F2),
        &[Left, Right, LeftSurround, RightSurround]
    );
    assert_eq!(
        channel_index_to_order(ChannelLayout::Layout2F2Lfe),
        &[Left, Right, LowFrequency, LeftSurround, RightSurround]
    );
    assert_eq!(
        channel_index_to_order(ChannelLayout::Layout3F2),
        &[Left, Right, Center, LeftSurround, RightSurround]
    );
    assert_eq!(
        channel_index_to_order(ChannelLayout::Layout3F2Lfe),
        &[Left, Right, Center, LowFrequency, LeftSurround, RightSurround]
    );
    assert_eq!(
        channel_index_to_order(ChannelLayout::Layout3F3RLfe),
        &[Left, Right, Center, LowFrequency, RearCenter, LeftSurround, RightSurround]
    );
    assert_eq!(
        channel_index_to_order(ChannelLayout::Layout3F4Lfe),
        &[
            Left,
            Right,
            Center,
            LowFrequency,
            RearLeftSurround,
            RearRightSurround,
            LeftSurround,
            RightSurround
        ]
    );
}

#[test]
fn channel_codes() {
    let codes: Vec<i32> = vec![
        Channel::Invalid,
        Channel::Mono,
        Channel::Left,
        Channel::Right,
        Channel::Center,
        Channel::LeftSurround,
        Channel::RightSurround,
        Channel::RearLeftSurround,
        Channel::RearCenter,
        Channel::RearRightSurround,
        Channel::LowFrequency,
    ]
    .into_iter()
    .map(|c| c.code())
    .collect();
    assert_eq!(codes, vec![-1, 0, 1, 2, 3, 4, 5, 6, 7, 8, 9]);
}

#[test]
fn channel_of_each_code() {
    assert_eq!(Channel::from_code(0), Channel::Mono);
    assert_eq!(Channel::from_code(1), Channel::Left);
    assert_eq!(Channel::from_code(2), Channel::Right);
    assert_eq!(Channel::from_code(3), Channel::Center);
    assert_eq!(Channel::from_code(4), Channel::LeftSurround);
    assert_eq!(Channel::from_code(5), Channel::RightSurround);
    assert_eq!(Channel::from_code(6), Channel::RearLeftSurround);
    assert_eq!(Channel::from_code(7), Channel::RearCenter);
    assert_eq!(Channel::from_code(8), Channel::RearRightSurround);
    assert_eq!(Channel::from_code(9), Channel::LowFrequency);
}

#[test]
fn code_that_stands_for_nothing_is_invalid() {
    assert_eq!(Channel::from_code(-1), Channel::Invalid);
    assert_eq!(Channel::from_code(10), Channel::Invalid);
    assert_eq!(Channel::from_code(-2), Channel::Invalid);
    assert_eq!(Channel::from_code(i32::MAX), Channel::Invalid);
    assert_eq!(Channel::from_code(i32::MIN), Channel::Invalid);
}

#[test]
fn channels_are_ordered_by_code() {
    assert!(Channel::Invalid < Channel::Mono);
    assert!(Channel::Mono < Channel::Left);
    assert!(Channel::RearRightSurround < Channel::LowFrequency);
}
