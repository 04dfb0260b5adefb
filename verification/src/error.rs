//! The ways in which a byte window can fail to decode.

use vstd::prelude::*;

verus! {

/// A format failure found while decoding one frame. Each variant names the
/// field that did not validate; none of them is ever replaced by a default
/// value.
#[derive(Clone, Copy, Debug, PartialEq, Eq, Structural)]
pub enum DecodeError {
    /// The first eleven bits of the header are not all set.
    SyncNotFound,
    /// The version field holds the reserved code `01`.
    UnsupportedVersion,
    /// The layer field holds the reserved code `00`.
    UnsupportedLayer,
    /// The bitrate index carries no rate for the layer, or the rate has no
    /// frame size.
    InvalidBitrate,
    /// The sampling-frequency index holds the reserved code `11`.
    InvalidSamplingRate,
    /// A window-switched channel block carries the block-type code `00`.
    InvalidBlockType,
}

} // verus!
