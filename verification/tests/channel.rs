use mp3decoder::channel::{new_channel, BlockType, Channel, ChannelLayout};
use mp3decoder::error::DecodeError;

#[test]
fn channel_normal_layout() {
    let channel = new_channel(&[0xAB, 0xCA, 0xAA, 0xD4, 0xAB, 0x5A, 0xD7, 0xA0]).unwrap();
    assert_eq!(
        channel,
        Channel {
            part2_3_length: 2748,
            big_values: 341,
            global_gain: 90,
            scalefac_compress: 9,
            preemphasis: true,
            scalefac_scale: false,
            count1table_select: true,
            layout: ChannelLayout::Normal {
                table_select: [21, 21, 21],
                region_0_count: 10,
                region_1_count: 7,
            },
        }
    );
}

#[test]
fn channel_normal_layout_distinct_selectors() {
    let channel = new_channel(&[0x12, 0x34, 0x56, 0x78, 0x0D, 0x9B, 0x6D, 0x40]).unwrap();
    assert_eq!(channel.part2_3_length, 291);
    assert_eq!(channel.big_values, 138);
    assert_eq!(channel.global_gain, 207);
    assert_eq!(channel.scalefac_compress, 0);
    assert!(!channel.preemphasis);
    assert!(channel.scalefac_scale);
    assert!(!channel.count1table_select);
    assert_eq!(
        channel.layout,
        ChannelLayout::Normal { table_select: [6, 25, 22], region_0_count: 13, region_1_count: 5 }
    );
}

#[test]
fn channel_window_switched_layout() {
    let channel = new_channel(&[0x12, 0x34, 0x56, 0x78, 0xEF, 0x9B, 0x6D, 0x40]).unwrap();
    assert_eq!(
        channel,
        Channel {
            part2_3_length: 291,
            big_values: 138,
            global_gain: 207,
            scalefac_compress: 1,
            preemphasis: false,
            scalefac_scale: true,
            count1table_select: false,
            layout: ChannelLayout::WindowSwitched {
                block_type: BlockType::Mixed,
                table_select: [30, 13],
                subblock_gain: [5, 5, 5],
            },
        }
    );
}

#[test]
fn channel_clear_flag_always_gives_normal() {
    for fifth in 0u8..=255 {
        if fifth & 0x40 != 0 {
            continue;
        }
        let result = new_channel(&[0x12, 0x34, 0x56, 0x78, fifth, 0x9B, 0x6D, 0x40]);
        assert!(matches!(result, Ok(Channel { layout: ChannelLayout::Normal { .. }, .. })));
    }
}

#[test]
fn channel_set_flag_never_gives_normal() {
    for fifth in 0u8..=255 {
        if fifth & 0x40 == 0 {
            continue;
        }
        let result = new_channel(&[0x12, 0x34, 0x56, 0x78, fifth, 0x9B, 0x6D, 0x40]);
        if fifth & 0x30 == 0 {
            assert_eq!(result, Err(DecodeError::InvalidBlockType));
        } else {
            assert!(matches!(
                result,
                Ok(Channel { layout: ChannelLayout::WindowSwitched { .. }, .. })
            ));
        }
    }
}

#[test]
fn channel_block_type_start() {
    let channel = new_channel(&[0x12, 0x34, 0x56, 0x78, 0xD7, 0x9B, 0x6D, 0x40]).unwrap();
    assert_eq!(
        channel.layout,
        ChannelLayout::WindowSwitched {
            block_type: BlockType::Start,
            table_select: [30, 13],
            subblock_gain: [5, 5, 5],
        }
    );
    // The mixed-block flag tells nothing apart under the code 01.
    let channel = new_channel(&[0x12, 0x34, 0x56, 0x78, 0x5F, 0x9B, 0x6D, 0xE0]).unwrap();
    assert_eq!(
        channel.layout,
        ChannelLayout::WindowSwitched {
            block_type: BlockType::Start,
            table_select: [30, 13],
            subblock_gain: [5, 5, 5],
        }
    );
    assert!(channel.preemphasis && channel.scalefac_scale && channel.count1table_select);
}

#[test]
fn channel_block_type_mixed_with_the_flag_set() {
    let channel = new_channel(&[0x12, 0x34, 0x56, 0x78, 0xEF, 0x9B, 0x6D, 0x40]).unwrap();
    assert!(matches!(
        channel.layout,
        ChannelLayout::WindowSwitched { block_type: BlockType::Mixed, .. }
    ));
}

#[test]
fn channel_block_type_short_with_the_flag_clear() {
    let channel = new_channel(&[0x12, 0x34, 0x56, 0x78, 0xE7, 0x9B, 0x6D, 0x40]).unwrap();
    assert_eq!(
        channel.layout,
        ChannelLayout::WindowSwitched {
            block_type: BlockType::Short,
            table_select: [30, 13],
            subblock_gain: [5, 5, 5],
        }
    );
}

#[test]
fn channel_block_type_end() {
    let channel = new_channel(&[0xFF; 8]).unwrap();
    assert_eq!(
        channel,
        Channel {
            part2_3_length: 4095,
            big_values: 511,
            global_gain: 255,
            scalefac_compress: 15,
            preemphasis: true,
            scalefac_scale: true,
            count1table_select: true,
            layout: ChannelLayout::WindowSwitched {
                block_type: BlockType::End,
                table_select: [31, 31],
                subblock_gain: [7, 7, 7],
            },
        }
    );
}

#[test]
fn channel_unmapped_block_type() {
    assert_eq!(
        new_channel(&[0xFF, 0xFF, 0xFF, 0xFF, 0xCF, 0xFF, 0xFF, 0xFF]),
        Err(DecodeError::InvalidBlockType)
    );
    assert_eq!(
        new_channel(&[0x00, 0x00, 0x00, 0x00, 0x40, 0x00, 0x00, 0x00]),
        Err(DecodeError::InvalidBlockType)
    );
}

#[test]
fn channel_all_zero_window() {
    assert_eq!(
        new_channel(&[0u8; 8]),
        Ok(Channel {
            part2_3_length: 0,
            big_values: 0,
            global_gain: 0,
            scalefac_compress: 0,
            preemphasis: false,
            scalefac_scale: false,
            count1table_select: false,
            layout: ChannelLayout::Normal {
                table_select: [0, 0, 0],
                region_0_count: 0,
                region_1_count: 0,
            },
        })
    );
}

#[test]
fn channel_block_type_codes() {
    assert_eq!(BlockType::from_code(0, false), None);
    assert_eq!(BlockType::from_code(0, true), None);
    assert_eq!(BlockType::from_code(1, false), Some(BlockType::Start));
    assert_eq!(BlockType::from_code(1, true), Some(BlockType::Start));
    assert_eq!(BlockType::from_code(2, false), Some(BlockType::Short));
    assert_eq!(BlockType::from_code(2, true), Some(BlockType::Mixed));
    assert_eq!(BlockType::from_code(3, false), Some(BlockType::End));
    assert_eq!(BlockType::from_code(3, true), Some(BlockType::End));
}
