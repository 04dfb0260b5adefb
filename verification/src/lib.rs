//! Bit-exact decoding of the fixed-size structures at the head of an MPEG
//! audio frame: the four header bytes, the side-information block that
//! follows them, and the per-granule, per-channel bit-allocation fields.
//!
//! Every decoder is a pure function from a fixed-size byte window to a value
//! or a typed error. What it returns is specified over
//! [`bits::bit_field`], the unsigned number held by a run of bits read most
//! significant bit first, and over the format tables in [`tables`].
//!
//! - [`bits`]: the bit-field extractor and what it means to read a field.
//! - [`tables`]: bitrates, sampling frequencies and frame sizes.
//! - [`header`]: the frame header and the laws of framing.
//! - [`side_info`]: the stream-level fields of the side information.
//! - [`channel`]: the bit-allocation fields of one channel in one granule.
//! - [`error`]: the decode failures.

pub mod bits;
pub mod channel;
pub mod error;
pub mod header;
pub mod side_info;
pub mod tables;
