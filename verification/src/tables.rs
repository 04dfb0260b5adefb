//! The format tables: bitrate by index and layer, sampling frequency by
//! index, and frame size by bitrate and sampling frequency.

use crate::header::Layer;
use vstd::prelude::*;

verus! {

/// Bitrates in kbit/s. Rows are the bitrate indices 0 to 14, columns are
/// Layer I, Layer II and Layer III. Row 0 is the free-format index, which
/// names no rate; index 15 is forbidden and has no row.
pub const BITRATE_KBPS: [[u16; 3]; 15] = [
    [0, 0, 0],
    [32, 32, 32],
    [64, 48, 40],
    [96, 56, 48],
    [128, 64, 56],
    [160, 80, 64],
    [192, 96, 80],
    [224, 112, 96],
    [256, 128, 112],
    [288, 160, 128],
    [320, 192, 160],
    [352, 224, 192],
    [384, 256, 224],
    [416, 320, 256],
    [448, 384, 320],
];

/// Sampling frequencies in Hz, by sampling-frequency index. Index 3 is
/// reserved and has no entry.
pub const SAMPLING_RATE_HZ: [u16; 3] = [44100, 48000, 32000];

/// Frame sizes in bytes. Each row holds a bitrate in kbit/s and the size of
/// a frame of that bitrate at 32 kHz, 44.1 kHz and 48 kHz, without the
/// padding byte.
pub const FRAME_SIZE_BYTES: [[u16; 4]; 14] = [
    [32, 144, 104, 96],
    [40, 180, 130, 120],
    [48, 216, 156, 144],
    [56, 252, 182, 168],
    [64, 288, 208, 192],
    [80, 360, 261, 240],
    [96, 432, 313, 288],
    [112, 504, 365, 336],
    [128, 576, 417, 384],
    [160, 720, 522, 480],
    [192, 864, 626, 576],
    [224, 1008, 731, 672],
    [256, 1152, 835, 768],
    [320, 1440, 1044, 960],
];

/// The column of `BITRATE_KBPS` that belongs to a layer.
pub open spec fn layer_column(layer: Layer) -> Option<int> {
    match layer {
        Layer::Reserved => None,
        Layer::L1 => Some(0),
        Layer::L2 => Some(1),
        Layer::L3 => Some(2),
    }
}

/// The bitrate in kbit/s that a bitrate index names in a layer: the table
/// entry for the indices 1 to 14, nothing for the free-format index 0, for
/// the forbidden index 15 (or anything above), and for the reserved layer.
pub open spec fn bitrate_of(index: nat, layer: Layer) -> Option<u16> {
    match layer_column(layer) {
        Some(column) if 1 <= index <= 14 => Some(BITRATE_KBPS[index as int][column]),
        _ => None,
    }
}

/// The sampling frequency in Hz that an index names; nothing for the
/// reserved index 3 (or anything above).
pub open spec fn sampling_rate_of(index: nat) -> Option<u16> {
    if index < 3 {
        Some(SAMPLING_RATE_HZ[index as int])
    } else {
        None
    }
}

/// Whether the frame-size table has a row for this bitrate.
pub open spec fn has_frame_size(bitrate_kbps: u16) -> bool {
    ||| bitrate_kbps == 32
    ||| bitrate_kbps == 40
    ||| bitrate_kbps == 48
    ||| bitrate_kbps == 56
    ||| bitrate_kbps == 64
    ||| bitrate_kbps == 80
    ||| bitrate_kbps == 96
    ||| bitrate_kbps == 112
    ||| bitrate_kbps == 128
    ||| bitrate_kbps == 160
    ||| bitrate_kbps == 192
    ||| bitrate_kbps == 224
    ||| bitrate_kbps == 256
    ||| bitrate_kbps == 320
}

/// Whether the frame-size table has a column for this sampling frequency.
pub open spec fn is_sampling_rate(sampling_rate_hz: u16) -> bool {
    sampling_rate_hz == 32000 || sampling_rate_hz == 44100 || sampling_rate_hz == 48000
}

/// The size in bytes of a frame, without its padding byte: 144 bit times
/// the bitrate over the sampling frequency, rounded down, for the pairs of
/// bitrate and sampling frequency that the table holds; nothing for any
/// other pair.
pub open spec fn frame_size_of(bitrate_kbps: u16, sampling_rate_hz: u16) -> Option<usize> {
    if has_frame_size(bitrate_kbps) && is_sampling_rate(sampling_rate_hz) {
        Some((144_000 * bitrate_kbps as int / sampling_rate_hz as int) as usize)
    } else {
        None
    }
}

/// The sampling frequency in Hz that a column of `FRAME_SIZE_BYTES` stands
/// for.
pub open spec fn column_rate(column: int) -> u16 {
    if column == 1 {
        32000
    } else if column == 2 {
        44100
    } else {
        48000
    }
}

/// Every size in `FRAME_SIZE_BYTES` is 144 000 times the bitrate of its row
/// over the sampling frequency of its column, rounded down, and the rows are
/// the bitrates that have a frame size.
pub proof fn lemma_frame_size_row(row: int)
    requires
        0 <= row < 14,
    ensures
        has_frame_size(FRAME_SIZE_BYTES[row][0]),
        forall|column: int|
            1 <= column <= 3 ==> frame_size_of(FRAME_SIZE_BYTES[row][0], column_rate(column))
                == Some(#[trigger] FRAME_SIZE_BYTES[row][column] as usize),
{
    let kbps = FRAME_SIZE_BYTES[row][0];
    assert forall|column: int| 1 <= column <= 3 implies frame_size_of(kbps, column_rate(column))
        == Some(#[trigger] FRAME_SIZE_BYTES[row][column] as usize) by {
        let size = FRAME_SIZE_BYTES[row][column];
        let hz = column_rate(column);
        assert(size * hz <= 144_000 * kbps < (size + 1) * hz);
        assert(144_000 * kbps as int / hz as int == size) by (nonlinear_arith)
            requires
                size * hz <= 144_000 * kbps < (size + 1) * hz,
                hz > 0,
        ;
    }
}

/// Looks up the bitrate in kbit/s for a bitrate index and a layer.
pub fn bitrate_kbps(index: u16, layer: Layer) -> (rate: Option<u16>)
    ensures
        rate == bitrate_of(index as nat, layer),
{
    let column: usize = match layer {
        Layer::Reserved => { return None; },
        Layer::L1 => 0,
        Layer::L2 => 1,
        Layer::L3 => 2,
    };
    if 1 <= index && index <= 14 {
        Some(BITRATE_KBPS[index as usize][column])
    } else {
        None
    }
}

/// Looks up the sampling frequency in Hz for a sampling-frequency index.
pub fn sampling_rate_hz(index: u16) -> (rate: Option<u16>)
    ensures
        rate == sampling_rate_of(index as nat),
{
    if index < 3 {
        Some(SAMPLING_RATE_HZ[index as usize])
    } else {
        None
    }
}

/// Looks up the size in bytes of a frame with the given bitrate and sampling
/// frequency. The padding byte is not part of it.
pub fn frame_size_bytes(bitrate_kbps: u16, sampling_rate_hz: u16) -> (size: Option<usize>)
    ensures
        size == frame_size_of(bitrate_kbps, sampling_rate_hz),
{
    let column: usize = if sampling_rate_hz == 32000 {
        1
    } else if sampling_rate_hz == 44100 {
        2
    } else if sampling_rate_hz == 48000 {
        3
    } else {
        return None;
    };
    let mut row: usize = 0;
    while row < 14
        invariant
            row <= 14,
            1 <= column <= 3,
            column_rate(column as int) == sampling_rate_hz,
            forall|earlier: int| 0 <= earlier < row ==> FRAME_SIZE_BYTES[earlier][0] != bitrate_kbps,
        decreases 14 - row,
    {
        if FRAME_SIZE_BYTES[row][0] == bitrate_kbps {
            proof {
                lemma_frame_size_row(row as int);
            }
            return Some(FRAME_SIZE_BYTES[row][column] as usize);
        }
        row += 1;
    }
    None
}

} // verus!
