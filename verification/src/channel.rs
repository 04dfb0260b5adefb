//! The bit-allocation fields of one channel in one granule.
//!
//! The fields of a channel are taken from a window of eight bytes whose
//! first bit is the first bit of `part2_3_length`. Bit offsets count from the
//! most significant bit of byte 0:
//!
//! | field                 | offset     | width |
//! |-----------------------|------------|-------|
//! | part2_3_length        | 0          | 12    |
//! | big_values            | 12         | 9     |
//! | global_gain           | 21         | 8     |
//! | scalefac_compress     | 29         | 4     |
//! | window_switching_flag | 33         | 1     |
//! | preemphasis           | 56         | 1     |
//! | scalefac_scale        | 57         | 1     |
//! | count1table_select    | 58         | 1     |
//!
//! Without window switching, the bits 34 to 55 hold
//!
//! | field                 | offset     | width |
//! |-----------------------|------------|-------|
//! | table_select          | 34, 39, 44 | 5     |
//! | region_0_count        | 49         | 4     |
//! | region_1_count        | 53         | 3     |
//!
//! and with window switching they hold
//!
//! | field                 | offset     | width |
//! |-----------------------|------------|-------|
//! | block-type code       | 34         | 2     |
//! | mixed-block flag      | 36         | 1     |
//! | table_select          | 37, 42     | 5     |
//! | subblock_gain         | 47, 50, 53 | 3     |

use crate::bits::{extract_bits, extract_flag, field, flag};
use crate::error::DecodeError;
use vstd::prelude::*;

verus! {

/// The number of bytes in the window of one channel.
pub const CHANNEL_LEN: usize = 8;

pub const PART2_3_LENGTH_AT: usize = 0;

pub const PART2_3_LENGTH_BITS: usize = 12;

pub const BIG_VALUES_AT: usize = 12;

pub const BIG_VALUES_BITS: usize = 9;

pub const GLOBAL_GAIN_AT: usize = 21;

pub const GLOBAL_GAIN_BITS: usize = 8;

pub const SCALEFAC_COMPRESS_AT: usize = 29;

pub const SCALEFAC_COMPRESS_BITS: usize = 4;

pub const WINDOW_SWITCHING_AT: usize = 33;

pub const PREEMPHASIS_AT: usize = 56;

pub const SCALEFAC_SCALE_AT: usize = 57;

pub const COUNT1TABLE_SELECT_AT: usize = 58;

/// The width of one Huffman table selector.
pub const TABLE_SELECT_BITS: usize = 5;

/// The offsets of the three table selectors of a normal block.
pub const NORMAL_TABLE_SELECT_AT: [usize; 3] = [34, 39, 44];

pub const REGION_0_COUNT_AT: usize = 49;

pub const REGION_0_COUNT_BITS: usize = 4;

pub const REGION_1_COUNT_AT: usize = 53;

pub const REGION_1_COUNT_BITS: usize = 3;

pub const BLOCK_TYPE_AT: usize = 34;

pub const BLOCK_TYPE_BITS: usize = 2;

pub const MIXED_BLOCK_AT: usize = 36;

/// The offsets of the two table selectors of a window-switched block.
pub const SWITCHED_TABLE_SELECT_AT: [usize; 2] = [37, 42];

/// The width of one subblock gain.
pub const SUBBLOCK_GAIN_BITS: usize = 3;

/// The offsets of the three subblock gains of a window-switched block.
pub const SUBBLOCK_GAIN_AT: [usize; 3] = [47, 50, 53];

/// The window shape of a window-switched block.
#[derive(Clone, Copy, Debug, PartialEq, Eq, Structural)]
pub enum BlockType {
    Start,
    Short,
    Mixed,
    End,
}

/// The part of a channel's fields whose layout depends on the
/// window-switching flag.
#[allow(inconsistent_fields)]
#[derive(Clone, Copy, Debug, PartialEq, Eq)]
pub enum ChannelLayout {
    /// The layout without window switching.
    Normal { table_select: [u8; 3], region_0_count: u8, region_1_count: u8 },
    /// The layout with window switching.
    WindowSwitched { block_type: BlockType, table_select: [u8; 2], subblock_gain: [u8; 3] },
}

/// The bit-allocation fields of one channel in one granule.
#[derive(Clone, Copy, Debug, PartialEq, Eq)]
pub struct Channel {
    /// The number of bits spent on scale factors and Huffman data.
    pub part2_3_length: u16,
    pub big_values: u16,
    pub global_gain: u8,
    pub scalefac_compress: u8,
    pub preemphasis: bool,
    pub scalefac_scale: bool,
    pub count1table_select: bool,
    pub layout: ChannelLayout,
}

impl BlockType {
    /// The block type that a two-bit block-type code names. The code `10`
    /// stands for two block types, told apart by the mixed-block flag; the
    /// code `00` names none.
    pub open spec fn of_code(code: nat, mixed: bool) -> Option<BlockType> {
        if code == 1 {
            Some(BlockType::Start)
        } else if code == 2 {
            if mixed {
                Some(BlockType::Mixed)
            } else {
                Some(BlockType::Short)
            }
        } else if code == 3 {
            Some(BlockType::End)
        } else {
            None
        }
    }

    /// Decodes a two-bit block-type code and the mixed-block flag.
    pub fn from_code(code: u16, mixed: bool) -> (block_type: Option<BlockType>)
        ensures
            block_type == BlockType::of_code(code as nat, mixed),
    {
        match code {
            1 => Some(BlockType::Start),
            2 => if mixed {
                Some(BlockType::Mixed)
            } else {
                Some(BlockType::Short)
            },
            3 => Some(BlockType::End),
            _ => None,
        }
    }
}

/// Whether the window-switching flag of a channel window is set.
pub open spec fn window_switching(b: Seq<u8>) -> bool {
    flag(b, WINDOW_SWITCHING_AT)
}

/// The block-type code of a window-switched channel window.
pub open spec fn block_type_code(b: Seq<u8>) -> nat {
    field(b, BLOCK_TYPE_AT, BLOCK_TYPE_BITS)
}

/// Whether the mixed-block flag of a window-switched channel window is set.
pub open spec fn mixed_block(b: Seq<u8>) -> bool {
    flag(b, MIXED_BLOCK_AT)
}

impl ChannelLayout {
    /// Every field is within the width it is stored in.
    pub open spec fn well_formed(&self) -> bool {
        match *self {
            ChannelLayout::Normal { table_select, region_0_count, region_1_count } => {
                &&& forall|i: int| 0 <= i < 3 ==> table_select[i] < 32
                &&& region_0_count < 16
                &&& region_1_count < 8
            },
            ChannelLayout::WindowSwitched { block_type, table_select, subblock_gain } => {
                &&& forall|i: int| 0 <= i < 2 ==> table_select[i] < 32
                &&& forall|i: int| 0 <= i < 3 ==> subblock_gain[i] < 8
            },
        }
    }
}

impl Channel {
    /// Every field is within the width it is stored in: twelve bits of
    /// `part2_3_length`, nine of `big_values`, four of `scalefac_compress`,
    /// five of each table selector, four and three of the region counts,
    /// three of each subblock gain.
    pub open spec fn well_formed(&self) -> bool {
        &&& self.part2_3_length < 4096
        &&& self.big_values < 512
        &&& self.scalefac_compress < 16
        &&& self.layout.well_formed()
    }

    /// The block type of a window-switched channel; a normal channel has none.
    pub open spec fn block_type(&self) -> Option<BlockType> {
        match self.layout {
            ChannelLayout::Normal { .. } => None,
            ChannelLayout::WindowSwitched { block_type, .. } => Some(block_type),
        }
    }
}

/// The layout-dependent fields of a channel without window switching.
pub open spec fn normal_layout_of(b: Seq<u8>) -> ChannelLayout {
    ChannelLayout::Normal {
        table_select: [
            field(b, NORMAL_TABLE_SELECT_AT[0], TABLE_SELECT_BITS) as u8,
            field(b, NORMAL_TABLE_SELECT_AT[1], TABLE_SELECT_BITS) as u8,
            field(b, NORMAL_TABLE_SELECT_AT[2], TABLE_SELECT_BITS) as u8,
        ],
        region_0_count: field(b, REGION_0_COUNT_AT, REGION_0_COUNT_BITS) as u8,
        region_1_count: field(b, REGION_1_COUNT_AT, REGION_1_COUNT_BITS) as u8,
    }
}

/// Decodes the layout-dependent fields of a channel without window
/// switching.
fn normal_layout(bytes: &[u8]) -> (layout: ChannelLayout)
    requires
        bytes@.len() == CHANNEL_LEN,
    ensures
        layout == normal_layout_of(bytes@),
{
    let t0 = extract_bits(bytes, NORMAL_TABLE_SELECT_AT[0], TABLE_SELECT_BITS) as u8;
    let t1 = extract_bits(bytes, NORMAL_TABLE_SELECT_AT[1], TABLE_SELECT_BITS) as u8;
    let t2 = extract_bits(bytes, NORMAL_TABLE_SELECT_AT[2], TABLE_SELECT_BITS) as u8;
    let region_0_count = extract_bits(bytes, REGION_0_COUNT_AT, REGION_0_COUNT_BITS) as u8;
    let region_1_count = extract_bits(bytes, REGION_1_COUNT_AT, REGION_1_COUNT_BITS) as u8;
    ChannelLayout::Normal { table_select: [t0, t1, t2], region_0_count, region_1_count }
}

/// The layout-dependent fields of a channel with window switching, where
/// the block-type code names a block type.
pub open spec fn switched_layout_of(b: Seq<u8>) -> Option<ChannelLayout> {
    match BlockType::of_code(block_type_code(b), mixed_block(b)) {
        None => None,
        Some(block_type) => Some(
            ChannelLayout::WindowSwitched {
                block_type,
                table_select: [
                    field(b, SWITCHED_TABLE_SELECT_AT[0], TABLE_SELECT_BITS) as u8,
                    field(b, SWITCHED_TABLE_SELECT_AT[1], TABLE_SELECT_BITS) as u8,
                ],
                subblock_gain: [
                    field(b, SUBBLOCK_GAIN_AT[0], SUBBLOCK_GAIN_BITS) as u8,
                    field(b, SUBBLOCK_GAIN_AT[1], SUBBLOCK_GAIN_BITS) as u8,
                    field(b, SUBBLOCK_GAIN_AT[2], SUBBLOCK_GAIN_BITS) as u8,
                ],
            },
        ),
    }
}

/// What the eight bytes of a channel window decode to. The
/// window-switching flag alone selects the layout; with window switching the
/// block-type code `00` is the one input that does not decode.
pub open spec fn channel_of(b: Seq<u8>) -> Result<Channel, DecodeError> {
    let layout = if window_switching(b) {
        switched_layout_of(b)
    } else {
        Some(normal_layout_of(b))
    };
    match layout {
        None => Err(DecodeError::InvalidBlockType),
        Some(layout) => Ok(
            Channel {
                part2_3_length: field(b, PART2_3_LENGTH_AT, PART2_3_LENGTH_BITS) as u16,
                big_values: field(b, BIG_VALUES_AT, BIG_VALUES_BITS) as u16,
                global_gain: field(b, GLOBAL_GAIN_AT, GLOBAL_GAIN_BITS) as u8,
                scalefac_compress: field(b, SCALEFAC_COMPRESS_AT, SCALEFAC_COMPRESS_BITS) as u8,
                preemphasis: flag(b, PREEMPHASIS_AT),
                scalefac_scale: flag(b, SCALEFAC_SCALE_AT),
                count1table_select: flag(b, COUNT1TABLE_SELECT_AT),
                layout,
            },
        ),
    }
}

/// Decodes the layout-dependent fields of a channel with window switching.
fn switched_layout(bytes: &[u8]) -> (layout: Option<ChannelLayout>)
    requires
        bytes@.len() == CHANNEL_LEN,
    ensures
        layout == switched_layout_of(bytes@),
{
    let code = extract_bits(bytes, BLOCK_TYPE_AT, BLOCK_TYPE_BITS);
    let mixed = extract_flag(bytes, MIXED_BLOCK_AT);
    let block_type = match BlockType::from_code(code, mixed) {
        Some(block_type) => block_type,
        None => { return None; },
    };
    let t0 = extract_bits(bytes, SWITCHED_TABLE_SELECT_AT[0], TABLE_SELECT_BITS) as u8;
    let t1 = extract_bits(bytes, SWITCHED_TABLE_SELECT_AT[1], TABLE_SELECT_BITS) as u8;
    let g0 = extract_bits(bytes, SUBBLOCK_GAIN_AT[0], SUBBLOCK_GAIN_BITS) as u8;
    let g1 = extract_bits(bytes, SUBBLOCK_GAIN_AT[1], SUBBLOCK_GAIN_BITS) as u8;
    let g2 = extract_bits(bytes, SUBBLOCK_GAIN_AT[2], SUBBLOCK_GAIN_BITS) as u8;
    Some(
        ChannelLayout::WindowSwitched {
            block_type,
            table_select: [t0, t1],
            subblock_gain: [g0, g1, g2],
        },
    )
}

/// Decodes the bit-allocation fields of one channel from its window of
/// eight bytes.
///
/// The four leading fields and the three trailing flags are the same in both
/// layouts. The window-switching flag selects what lies between them: a
/// clear flag always gives `ChannelLayout::Normal`, a set flag gives
/// `ChannelLayout::WindowSwitched`, in which the block-type code `10` reads
/// as `Mixed` where the mixed-block flag is set and as `Short` where it is
/// clear. A set flag with the block-type code `00` is the only input that is
/// refused.
pub fn new_channel(bytes: &[u8; 8]) -> (result: Result<Channel, DecodeError>)
    ensures
        result == channel_of(bytes@),
        result is Err <==> window_switching(bytes@) && block_type_code(bytes@) == 0,
        result is Err ==> result == Err::<Channel, DecodeError>(DecodeError::InvalidBlockType),
        result matches Ok(channel) ==> channel.well_formed(),
        !window_switching(bytes@) ==> (result matches Ok(channel) && channel.layout is Normal),
        window_switching(bytes@) && block_type_code(bytes@) != 0 ==> (result matches Ok(channel)
            && channel.layout is WindowSwitched),
        window_switching(bytes@) && block_type_code(bytes@) == 2 ==> (result matches Ok(channel)
            && channel.block_type() == Some(
            if mixed_block(bytes@) {
                BlockType::Mixed
            } else {
                BlockType::Short
            },
        )),
{
    let window = bytes.as_slice();
    let part2_3_length = extract_bits(window, PART2_3_LENGTH_AT, PART2_3_LENGTH_BITS);
    let big_values = extract_bits(window, BIG_VALUES_AT, BIG_VALUES_BITS);
    let global_gain = extract_bits(window, GLOBAL_GAIN_AT, GLOBAL_GAIN_BITS) as u8;
    let scalefac_compress = extract_bits(window, SCALEFAC_COMPRESS_AT, SCALEFAC_COMPRESS_BITS)
        as u8;
    let preemphasis = extract_flag(window, PREEMPHASIS_AT);
    let scalefac_scale = extract_flag(window, SCALEFAC_SCALE_AT);
    let count1table_select = extract_flag(window, COUNT1TABLE_SELECT_AT);
    let window_switching = extract_flag(window, WINDOW_SWITCHING_AT);
    let layout = if window_switching {
        match switched_layout(window) {
            Some(layout) => layout,
            None => { return Err(DecodeError::InvalidBlockType); },
        }
    } else {
        normal_layout(window)
    };
    Ok(
        Channel {
            part2_3_length,
            big_values,
            global_gain,
            scalefac_compress,
            preemphasis,
            scalefac_scale,
            count1table_select,
            layout,
        },
    )
}

} // verus!
