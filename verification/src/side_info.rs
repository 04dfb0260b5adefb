//! The side-information block that follows the frame header.
//!
//! The block has 17 bytes in a single-channel frame and 32 bytes in every
//! other mode. Bit offsets count from the most significant bit of byte 0:
//!
//! | field                  | offset | width                        |
//! |------------------------|--------|------------------------------|
//! | main_data_begin        | 0      | 9                            |
//! | scale_factor_selection | 9      | 4 (one channel), 6 (two)     |

use crate::bits::{extract_bits, field};
use crate::header::{FrameHeader, Mode};
use vstd::prelude::*;

verus! {

pub const MAIN_DATA_BEGIN_AT: usize = 0;

pub const MAIN_DATA_BEGIN_BITS: usize = 9;

/// The scale-factor selection follows `main_data_begin` at once.
pub const SCALE_FACTOR_SELECTION_AT: usize = 9;

/// The width of the scale-factor selection in a single-channel frame.
pub const MONO_SCALE_FACTOR_SELECTION_BITS: usize = 4;

/// The width of the scale-factor selection in a frame with two channels.
pub const STEREO_SCALE_FACTOR_SELECTION_BITS: usize = 6;

/// The stream-level fields of the side information.
#[derive(Clone, Copy, Debug, PartialEq, Eq, Structural)]
pub struct SideInfo {
    /// How far before this frame its main data begins, in bytes. Every
    /// nine-bit value is representable; none is refused here.
    pub main_data_begin: usize,
    /// A bitmask: a set bit says that a group of scale factors of the first
    /// granule serves the second one too. It has four bits for one channel
    /// and six bits for two.
    pub scale_factor_selection: u8,
}

/// What a side-information block decodes to, with a scale-factor selection
/// of `selection_bits` bits.
pub open spec fn side_info_of(side: Seq<u8>, selection_bits: usize) -> SideInfo {
    SideInfo {
        main_data_begin: field(side, MAIN_DATA_BEGIN_AT, MAIN_DATA_BEGIN_BITS) as usize,
        scale_factor_selection: field(side, SCALE_FACTOR_SELECTION_AT, selection_bits) as u8,
    }
}

/// What the 17 bytes of a single-channel side-information block decode to.
pub open spec fn mono_side_info_of(side: Seq<u8>) -> SideInfo {
    side_info_of(side, MONO_SCALE_FACTOR_SELECTION_BITS)
}

/// What the 32 bytes of a two-channel side-information block decode to.
pub open spec fn stereo_side_info_of(side: Seq<u8>) -> SideInfo {
    side_info_of(side, STEREO_SCALE_FACTOR_SELECTION_BITS)
}

/// Decodes the stream-level fields at the head of a side-information block.
fn side_info_fields(side: &[u8], selection_bits: usize) -> (info: SideInfo)
    requires
        side@.len() >= 2,
        selection_bits <= 7,
    ensures
        info == side_info_of(side@, selection_bits),
{
    let main_data_begin = extract_bits(side, MAIN_DATA_BEGIN_AT, MAIN_DATA_BEGIN_BITS);
    let selection = extract_bits(side, SCALE_FACTOR_SELECTION_AT, selection_bits);
    SideInfo { main_data_begin: main_data_begin as usize, scale_factor_selection: selection as u8 }
}

/// Decodes the side information of a single-channel frame.
pub fn new_side_info_mono(side: &[u8; 17]) -> (info: SideInfo)
    ensures
        info == mono_side_info_of(side@),
        info.main_data_begin < 512,
        info.scale_factor_selection < 16,
{
    side_info_fields(side.as_slice(), MONO_SCALE_FACTOR_SELECTION_BITS)
}

/// Decodes the side information of a frame with two channels.
pub fn new_side_info_stereo(side: &[u8; 32]) -> (info: SideInfo)
    ensures
        info == stereo_side_info_of(side@),
        info.main_data_begin < 512,
        info.scale_factor_selection < 64,
{
    side_info_fields(side.as_slice(), STEREO_SCALE_FACTOR_SELECTION_BITS)
}

/// Copies a byte run of `N` bytes into a block of that size.
fn block_of<const N: usize>(side: &[u8]) -> (block: [u8; N])
    requires
        side@.len() == N,
    ensures
        block@ == side@,
{
    let mut block = [0u8; N];
    let mut at: usize = 0;
    while at < N
        invariant
            at <= N,
            side@.len() == N,
            forall|i: int| 0 <= i < at ==> block@[i] == side@[i],
        decreases N - at,
    {
        block[at] = side[at];
        at += 1;
    }
    assert(block@ =~= side@);
    block
}

/// Decodes the side information that follows `header`.
///
/// Of the header only the channel mode is read. It fixes the length of the
/// block, 17 bytes for a single channel and 32 bytes for every other mode,
/// and the caller hands over a block of exactly that length.
pub fn new_side_info(header: &FrameHeader, side: &[u8]) -> (info: SideInfo)
    requires
        side@.len() == header.spec_side_info_len(),
    ensures
        header.channel_mode == Mode::SingleChannel ==> info == mono_side_info_of(side@),
        header.channel_mode != Mode::SingleChannel ==> info == stereo_side_info_of(side@),
{
    if header.single_channel() {
        let block: [u8; 17] = block_of(side);
        new_side_info_mono(&block)
    } else {
        let block: [u8; 32] = block_of(side);
        new_side_info_stereo(&block)
    }
}

} // verus!
