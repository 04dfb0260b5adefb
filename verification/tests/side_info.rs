use mp3decoder::header::{new_frame_header, FrameHeader};
use mp3decoder::side_info::{new_side_info, new_side_info_mono, new_side_info_stereo, SideInfo};

fn mono_block(head: [u8; 3]) -> [u8; 17] {
    let mut block = [0u8; 17];
    block[..3].copy_from_slice(&head);
    block
}

fn stereo_block(head: [u8; 3]) -> [u8; 32] {
    let mut block = [0u8; 32];
    block[..3].copy_from_slice(&head);
    block
}

fn header_with_mode(mode_bits: u8) -> FrameHeader {
    new_frame_header(&[0xFF, 0xFB, 0x90, mode_bits << 6]).unwrap()
}

#[test]
fn side_info_mono_fields() {
    let info = new_side_info_mono(&mono_block([0xB5, 0xD6, 0xC0]));
    assert_eq!(info, SideInfo { main_data_begin: 363, scale_factor_selection: 10 });
}

#[test]
fn side_info_stereo_fields() {
    let info = new_side_info_stereo(&stereo_block([0xB5, 0xD6, 0xC0]));
    assert_eq!(info, SideInfo { main_data_begin: 363, scale_factor_selection: 43 });
}

#[test]
fn side_info_main_data_begin_has_nine_bits() {
    assert_eq!(new_side_info_mono(&mono_block([0xFF, 0xFF, 0xFF])).main_data_begin, 511);
    assert_eq!(new_side_info_stereo(&stereo_block([0xFF, 0xFF, 0xFF])).main_data_begin, 511);
    assert_eq!(new_side_info_mono(&mono_block([0x00, 0x80, 0x00])).main_data_begin, 1);
    assert_eq!(new_side_info_mono(&mono_block([0x01, 0x02, 0x00])).main_data_begin, 2);
    assert_eq!(new_side_info_stereo(&stereo_block([0x80, 0x7E, 0x00])).main_data_begin, 256);
}

#[test]
fn side_info_selection_width_depends_on_the_channels() {
    assert_eq!(new_side_info_mono(&mono_block([0xFF, 0xFF, 0xFF])).scale_factor_selection, 15);
    assert_eq!(new_side_info_stereo(&stereo_block([0xFF, 0xFF, 0xFF])).scale_factor_selection, 63);
    assert_eq!(new_side_info_mono(&mono_block([0x01, 0x02, 0x00])).scale_factor_selection, 0);
    assert_eq!(new_side_info_stereo(&stereo_block([0x01, 0x02, 0x00])).scale_factor_selection, 1);
    assert_eq!(new_side_info_mono(&mono_block([0x80, 0x7E, 0x00])).scale_factor_selection, 15);
    assert_eq!(new_side_info_stereo(&stereo_block([0x80, 0x7E, 0x00])).scale_factor_selection, 63);
}

#[test]
fn side_info_of_all_zero_blocks() {
    assert_eq!(
        new_side_info_mono(&[0u8; 17]),
        SideInfo { main_data_begin: 0, scale_factor_selection: 0 }
    );
    assert_eq!(
        new_side_info_stereo(&[0u8; 32]),
        SideInfo { main_data_begin: 0, scale_factor_selection: 0 }
    );
}

#[test]
fn side_info_ignores_the_rest_of_the_block() {
    let mut block = stereo_block([0xB5, 0xD6, 0xC0]);
    let before = new_side_info_stereo(&block);
    for byte in block.iter_mut().skip(2) {
        *byte = 0xFF;
    }
    block[1] |= 0x01;
    assert_eq!(new_side_info_stereo(&block), before);
}

#[test]
fn side_info_single_channel_takes_17_bytes() {
    let header = header_with_mode(3);
    assert_eq!(header.side_info_len(), 17);
    let block = mono_block([0xB5, 0xD6, 0xC0]);
    assert_eq!(new_side_info(&header, &block), new_side_info_mono(&block));
    assert_eq!(
        new_side_info(&header, &block),
        SideInfo { main_data_begin: 363, scale_factor_selection: 10 }
    );
}

#[test]
fn side_info_other_modes_take_32_bytes() {
    let block = stereo_block([0xB5, 0xD6, 0xC0]);
    for mode_bits in 0u8..3 {
        let header = header_with_mode(mode_bits);
        assert_eq!(header.side_info_len(), 32);
        assert_eq!(new_side_info(&header, &block), new_side_info_stereo(&block));
        assert_eq!(
            new_side_info(&header, &block),
            SideInfo { main_data_begin: 363, scale_factor_selection: 43 }
        );
    }
}
