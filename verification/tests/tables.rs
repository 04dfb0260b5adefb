use mp3decoder::header::Layer;
use mp3decoder::tables::{bitrate_kbps, frame_size_bytes, sampling_rate_hz};

#[test]
fn bitrate_of_each_layer() {
    assert_eq!(bitrate_kbps(9, Layer::L1), Some(288));
    assert_eq!(bitrate_kbps(9, Layer::L2), Some(160));
    assert_eq!(bitrate_kbps(9, Layer::L3), Some(128));
    assert_eq!(bitrate_kbps(1, Layer::L1), Some(32));
    assert_eq!(bitrate_kbps(1, Layer::L2), Some(32));
    assert_eq!(bitrate_kbps(1, Layer::L3), Some(32));
    assert_eq!(bitrate_kbps(14, Layer::L1), Some(448));
    assert_eq!(bitrate_kbps(14, Layer::L2), Some(384));
    assert_eq!(bitrate_kbps(14, Layer::L3), Some(320));
}

#[test]
fn bitrate_of_layer_three_by_index() {
    let expected = [32u16, 40, 48, 56, 64, 80, 96, 112, 128, 160, 192, 224, 256, 320];
    for index in 1u16..=14 {
        assert_eq!(bitrate_kbps(index, Layer::L3), Some(expected[(index - 1) as usize]));
    }
}

#[test]
fn bitrate_of_layer_one_is_a_multiple_of_32() {
    for index in 1u16..=14 {
        assert_eq!(bitrate_kbps(index, Layer::L1), Some(32 * index));
    }
}

#[test]
fn bitrate_free_index_names_no_rate() {
    assert_eq!(bitrate_kbps(0, Layer::L1), None);
    assert_eq!(bitrate_kbps(0, Layer::L2), None);
    assert_eq!(bitrate_kbps(0, Layer::L3), None);
}

#[test]
fn bitrate_forbidden_index_names_no_rate() {
    assert_eq!(bitrate_kbps(15, Layer::L1), None);
    assert_eq!(bitrate_kbps(15, Layer::L2), None);
    assert_eq!(bitrate_kbps(15, Layer::L3), None);
    assert_eq!(bitrate_kbps(16, Layer::L3), None);
    assert_eq!(bitrate_kbps(u16::MAX, Layer::L3), None);
}

#[test]
fn bitrate_reserved_layer_names_no_rate() {
    for index in 0u16..=15 {
        assert_eq!(bitrate_kbps(index, Layer::Reserved), None);
    }
}

#[test]
fn sampling_rate_by_index() {
    assert_eq!(sampling_rate_hz(0), Some(44100));
    assert_eq!(sampling_rate_hz(1), Some(48000));
    assert_eq!(sampling_rate_hz(2), Some(32000));
    assert_eq!(sampling_rate_hz(3), None);
    assert_eq!(sampling_rate_hz(4), None);
}

#[test]
fn frame_size_exact_values() {
    assert_eq!(frame_size_bytes(128, 44100), Some(417));
    assert_eq!(frame_size_bytes(128, 32000), Some(576));
    assert_eq!(frame_size_bytes(128, 48000), Some(384));
    assert_eq!(frame_size_bytes(32, 48000), Some(96));
    assert_eq!(frame_size_bytes(320, 32000), Some(1440));
    assert_eq!(frame_size_bytes(48, 48000), Some(144));
    assert_eq!(frame_size_bytes(40, 48000), Some(120));
    assert_eq!(frame_size_bytes(224, 44100), Some(731));
}

#[test]
fn frame_size_follows_the_formula() {
    let rates = [32u16, 40, 48, 56, 64, 80, 96, 112, 128, 160, 192, 224, 256, 320];
    let frequencies = [32000u16, 44100, 48000];
    for kbps in rates {
        for hz in frequencies {
            let expected = 144_000 * kbps as usize / hz as usize;
            assert_eq!(frame_size_bytes(kbps, hz), Some(expected));
        }
    }
}

#[test]
fn frame_size_unknown_bitrate() {
    assert_eq!(frame_size_bytes(0, 44100), None);
    assert_eq!(frame_size_bytes(288, 44100), None);
    assert_eq!(frame_size_bytes(352, 32000), None);
    assert_eq!(frame_size_bytes(384, 48000), None);
    assert_eq!(frame_size_bytes(416, 44100), None);
    assert_eq!(frame_size_bytes(448, 44100), None);
    assert_eq!(frame_size_bytes(129, 44100), None);
}

#[test]
fn frame_size_unknown_sampling_rate() {
    assert_eq!(frame_size_bytes(128, 0), None);
    assert_eq!(frame_size_bytes(128, 22050), None);
    assert_eq!(frame_size_bytes(128, 44101), None);
}
