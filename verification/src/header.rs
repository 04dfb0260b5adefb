//! The four-byte frame header.
//!
//! Bit offsets count from the most significant bit of byte 0:
//!
//! | field              | offset | width |
//! |--------------------|--------|-------|
//! | sync pattern       | 0      | 11    |
//! | version            | 11     | 2     |
//! | layer              | 13     | 2     |
//! | protection         | 15     | 1     |
//! | bitrate index      | 16     | 4     |
//! | sampling index     | 20     | 2     |
//! | padding            | 22     | 1     |
//! | private            | 23     | 1     |
//! | channel mode       | 24     | 2     |
//! | MS stereo          | 26     | 1     |
//! | intensity stereo   | 27     | 1     |
//! | copyright          | 28     | 1     |
//! | original           | 29     | 1     |
//! | emphasis           | 30     | 2     |

use crate::bits::{extract_bits, extract_flag, field, flag, lemma_bit_field_is_local};
use crate::error::DecodeError;
use crate::tables::{
    bitrate_kbps, bitrate_of, frame_size_bytes, frame_size_of, has_frame_size, sampling_rate_hz,
    sampling_rate_of,
};
use vstd::prelude::*;

verus! {

pub const SYNC_AT: usize = 0;

pub const SYNC_BITS: usize = 11;

/// The sync pattern: eleven set bits.
pub const SYNC_PATTERN: u16 = 0x7FF;

pub const VERSION_AT: usize = 11;

pub const VERSION_BITS: usize = 2;

pub const LAYER_AT: usize = 13;

pub const LAYER_BITS: usize = 2;

pub const PROTECTION_AT: usize = 15;

pub const BITRATE_INDEX_AT: usize = 16;

pub const BITRATE_INDEX_BITS: usize = 4;

pub const SAMPLING_INDEX_AT: usize = 20;

pub const SAMPLING_INDEX_BITS: usize = 2;

pub const PADDING_AT: usize = 22;

pub const MODE_AT: usize = 24;

pub const MODE_BITS: usize = 2;

pub const MS_STEREO_AT: usize = 26;

pub const INTENSITY_STEREO_AT: usize = 27;

pub const COPYRIGHT_AT: usize = 28;

pub const ORIGINAL_AT: usize = 29;

pub const EMPHASIS_AT: usize = 30;

pub const EMPHASIS_BITS: usize = 2;

/// The number of bytes in a frame header.
pub const HEADER_LEN: usize = 4;

/// The number of bytes of side information in a single-channel frame.
pub const MONO_SIDE_INFO_LEN: usize = 17;

/// The number of bytes of side information in a frame with two channels.
pub const STEREO_SIDE_INFO_LEN: usize = 32;

/// The version of the MPEG audio standard.
#[allow(non_camel_case_types)]
#[derive(Clone, Copy, Debug, PartialEq, Eq, Structural)]
pub enum MpegVersion {
    V1,
    V2,
    V2_5,
}

/// The layer of the audio coding scheme.
#[derive(Clone, Copy, Debug, PartialEq, Eq, Structural)]
pub enum Layer {
    /// The reserved layer code; no decoded header carries it.
    Reserved,
    L1,
    L2,
    L3,
}

/// How the channels of a frame are coded.
#[derive(Clone, Copy, Debug, PartialEq, Eq, Structural)]
pub enum Mode {
    Stereo,
    JointStereo,
    DualMonaural,
    SingleChannel,
}

/// The de-emphasis the decoder is asked to apply.
#[allow(non_camel_case_types)]
#[derive(Clone, Copy, Debug, PartialEq, Eq, Structural)]
pub enum Emphasis {
    /// Code `00`: no emphasis.
    Off,
    /// Code `01`: 50/15 microseconds.
    Us50_15,
    /// Code `10`: reserved.
    Reserved,
    /// Code `11`: CCITT J.17.
    CcittJ17,
}

impl MpegVersion {
    /// The version that a two-bit version code names; `01` is reserved and
    /// names none.
    pub open spec fn of_code(code: nat) -> Option<MpegVersion> {
        if code == 0 {
            Some(MpegVersion::V2_5)
        } else if code == 2 {
            Some(MpegVersion::V2)
        } else if code == 3 {
            Some(MpegVersion::V1)
        } else {
            None
        }
    }

    /// Decodes a two-bit version code.
    pub fn from_code(code: u16) -> (version: Option<MpegVersion>)
        ensures
            version == MpegVersion::of_code(code as nat),
    {
        match code {
            0 => Some(MpegVersion::V2_5),
            2 => Some(MpegVersion::V2),
            3 => Some(MpegVersion::V1),
            _ => None,
        }
    }
}

impl Layer {
    /// The layer that a two-bit layer code names; `00` is reserved and names
    /// none.
    pub open spec fn of_code(code: nat) -> Option<Layer> {
        if code == 1 {
            Some(Layer::L3)
        } else if code == 2 {
            Some(Layer::L2)
        } else if code == 3 {
            Some(Layer::L1)
        } else {
            None
        }
    }

    /// Decodes a two-bit layer code.
    pub fn from_code(code: u16) -> (layer: Option<Layer>)
        ensures
            layer == Layer::of_code(code as nat),
    {
        match code {
            1 => Some(Layer::L3),
            2 => Some(Layer::L2),
            3 => Some(Layer::L1),
            _ => None,
        }
    }
}

impl Mode {
    /// The channel mode that a two-bit mode code names.
    pub open spec fn of_code(code: nat) -> Mode {
        if code == 0 {
            Mode::Stereo
        } else if code == 1 {
            Mode::JointStereo
        } else if code == 2 {
            Mode::DualMonaural
        } else {
            Mode::SingleChannel
        }
    }

    /// Decodes a two-bit mode code.
    pub fn from_code(code: u16) -> (mode: Mode)
        ensures
            mode == Mode::of_code(code as nat),
    {
        match code {
            0 => Mode::Stereo,
            1 => Mode::JointStereo,
            2 => Mode::DualMonaural,
            _ => Mode::SingleChannel,
        }
    }
}

impl Emphasis {
    /// The emphasis that a two-bit emphasis code names.
    pub open spec fn of_code(code: nat) -> Emphasis {
        if code == 0 {
            Emphasis::Off
        } else if code == 1 {
            Emphasis::Us50_15
        } else if code == 2 {
            Emphasis::Reserved
        } else {
            Emphasis::CcittJ17
        }
    }

    /// Decodes a two-bit emphasis code.
    pub fn from_code(code: u16) -> (emphasis: Emphasis)
        ensures
            emphasis == Emphasis::of_code(code as nat),
    {
        match code {
            0 => Emphasis::Off,
            1 => Emphasis::Us50_15,
            2 => Emphasis::Reserved,
            _ => Emphasis::CcittJ17,
        }
    }
}

/// A decoded frame header.
#[derive(Clone, Copy, Debug, PartialEq, Eq, Structural)]
pub struct FrameHeader {
    pub version: MpegVersion,
    pub layer: Layer,
    /// Whether a CRC follows the header. The protection bit is stored
    /// inverted: a set bit means that there is none.
    pub has_crc_protection: bool,
    pub bitrate_kbps: u16,
    pub sampling_rate_hz: u16,
    pub has_padding_byte: bool,
    pub channel_mode: Mode,
    /// Meaningful only under `Mode::JointStereo`, decoded under every mode.
    pub intensity_stereo: bool,
    /// Meaningful only under `Mode::JointStereo`, decoded under every mode.
    pub ms_stereo: bool,
    pub is_copyrighted: bool,
    pub is_original: bool,
    pub emphasis: Emphasis,
    /// The frame size that the format tables give for `bitrate_kbps` and
    /// `sampling_rate_hz`. The padding byte is not counted in it: see
    /// `padded_size`.
    pub frame_size_bytes: usize,
}

/// Whether a header starts with the sync pattern.
pub open spec fn sync_present(b: Seq<u8>) -> bool {
    field(b, SYNC_AT, SYNC_BITS) == SYNC_PATTERN
}

/// Whether a bitrate index names, in a layer, a bitrate that has a frame
/// size.
pub open spec fn valid_rate_pair(index: nat, layer: Layer) -> bool {
    match bitrate_of(index, layer) {
        Some(kbps) => has_frame_size(kbps),
        None => false,
    }
}

/// Whether header bytes decode: they start with the sync pattern, version
/// and layer are not reserved, the bitrate index names a bitrate with a frame
/// size in that layer, and the sampling-frequency index is not reserved.
pub open spec fn decodable(b: Seq<u8>) -> bool {
    &&& sync_present(b)
    &&& MpegVersion::of_code(field(b, VERSION_AT, VERSION_BITS)) is Some
    &&& Layer::of_code(field(b, LAYER_AT, LAYER_BITS)) matches Some(layer)
    &&& valid_rate_pair(field(b, BITRATE_INDEX_AT, BITRATE_INDEX_BITS), layer)
    &&& field(b, SAMPLING_INDEX_AT, SAMPLING_INDEX_BITS) < 3
}

/// What four header bytes decode to. The checks come in a fixed order, and
/// the first one that fails names the error: sync pattern, version, layer,
/// bitrate index, sampling-frequency index, frame size.
pub open spec fn frame_header_of(b: Seq<u8>) -> Result<FrameHeader, DecodeError> {
    let version = MpegVersion::of_code(field(b, VERSION_AT, VERSION_BITS));
    let layer = Layer::of_code(field(b, LAYER_AT, LAYER_BITS));
    if !sync_present(b) {
        Err(DecodeError::SyncNotFound)
    } else if version is None {
        Err(DecodeError::UnsupportedVersion)
    } else if layer is None {
        Err(DecodeError::UnsupportedLayer)
    } else {
        let kbps = bitrate_of(field(b, BITRATE_INDEX_AT, BITRATE_INDEX_BITS), layer->0);
        let hz = sampling_rate_of(field(b, SAMPLING_INDEX_AT, SAMPLING_INDEX_BITS));
        if kbps is None {
            Err(DecodeError::InvalidBitrate)
        } else if hz is None {
            Err(DecodeError::InvalidSamplingRate)
        } else {
            match frame_size_of(kbps->0, hz->0) {
                None => Err(DecodeError::InvalidBitrate),
                Some(size) => Ok(
                    FrameHeader {
                        version: version->0,
                        layer: layer->0,
                        has_crc_protection: !flag(b, PROTECTION_AT),
                        bitrate_kbps: kbps->0,
                        sampling_rate_hz: hz->0,
                        has_padding_byte: flag(b, PADDING_AT),
                        channel_mode: Mode::of_code(field(b, MODE_AT, MODE_BITS)),
                        intensity_stereo: flag(b, INTENSITY_STEREO_AT),
                        ms_stereo: flag(b, MS_STEREO_AT),
                        is_copyrighted: flag(b, COPYRIGHT_AT),
                        is_original: flag(b, ORIGINAL_AT),
                        emphasis: Emphasis::of_code(field(b, EMPHASIS_AT, EMPHASIS_BITS)),
                        frame_size_bytes: size,
                    },
                ),
            }
        }
    }
}

impl FrameHeader {
    /// The invariant of a decoded header: the layer is a real one, bitrate
    /// and sampling frequency are table values, and the frame size is the
    /// one that the tables give for the two.
    pub open spec fn well_formed(&self) -> bool {
        &&& self.layer != Layer::Reserved
        &&& exists|index: nat| bitrate_of(index, self.layer) == Some(self.bitrate_kbps)
        &&& exists|index: nat| sampling_rate_of(index) == Some(self.sampling_rate_hz)
        &&& frame_size_of(self.bitrate_kbps, self.sampling_rate_hz) == Some(self.frame_size_bytes)
    }

    /// The number of bytes of side information that follow a header with
    /// this channel mode.
    pub open spec fn spec_side_info_len(&self) -> nat {
        if self.channel_mode == Mode::SingleChannel {
            MONO_SIDE_INFO_LEN as nat
        } else {
            STEREO_SIDE_INFO_LEN as nat
        }
    }

    /// The size of the frame with its padding byte, where it has one.
    pub open spec fn spec_padded_size(&self) -> nat {
        if self.has_padding_byte {
            self.frame_size_bytes as nat + 1
        } else {
            self.frame_size_bytes as nat
        }
    }

    /// The number of bytes from the first byte of this frame's header to
    /// the first byte of the next one: the frame size of the tables, and one
    /// byte more where the padding flag is set. `frame_size_bytes` itself
    /// never counts the padding byte.
    pub fn padded_size(&self) -> (size: usize)
        requires
            self.frame_size_bytes < usize::MAX,
        ensures
            size == self.spec_padded_size(),
    {
        if self.has_padding_byte {
            self.frame_size_bytes + 1
        } else {
            self.frame_size_bytes
        }
    }

    /// Whether the frame carries one channel only.
    pub fn single_channel(&self) -> (single: bool)
        ensures
            single == (self.channel_mode == Mode::SingleChannel),
    {
        match self.channel_mode {
            Mode::SingleChannel => true,
            _ => false,
        }
    }

    /// The number of bytes of side information to read after this header:
    /// 17 for a single channel, 32 for every other mode.
    pub fn side_info_len(&self) -> (len: usize)
        ensures
            len == self.spec_side_info_len(),
            len == 17 || len == 32,
            len == 17 <==> self.channel_mode == Mode::SingleChannel,
    {
        if self.single_channel() {
            MONO_SIDE_INFO_LEN
        } else {
            STEREO_SIDE_INFO_LEN
        }
    }
}

/// Whether four bytes start with the sync pattern: byte 0 has all bits set
/// and so have the top three bits of byte 1.
pub fn has_sync_word(frame_header: &[u8; 4]) -> (found: bool)
    ensures
        found == sync_present(frame_header@),
        found == (frame_header[0] == 0xFF && frame_header[1] >= 0xE0),
{
    extract_bits(frame_header.as_slice(), SYNC_AT, SYNC_BITS) == SYNC_PATTERN
}

/// Decodes the four bytes of a frame header.
///
/// The bytes are taken to stand at a frame start: the sync pattern is
/// checked, not searched for. Either every field decodes and the header is
/// returned whole, or the first check that fails names the error.
pub fn new_frame_header(frame_header: &[u8; 4]) -> (result: Result<FrameHeader, DecodeError>)
    ensures
        result == frame_header_of(frame_header@),
        !sync_present(frame_header@) <==> result == Err::<FrameHeader, DecodeError>(
            DecodeError::SyncNotFound,
        ),
        result is Ok <==> decodable(frame_header@),
        result matches Ok(header) ==> header.well_formed(),
{
    let bytes = frame_header.as_slice();
    if !has_sync_word(frame_header) {
        return Err(DecodeError::SyncNotFound);
    }
    let version = match MpegVersion::from_code(extract_bits(bytes, VERSION_AT, VERSION_BITS)) {
        Some(version) => version,
        None => { return Err(DecodeError::UnsupportedVersion); },
    };
    let layer = match Layer::from_code(extract_bits(bytes, LAYER_AT, LAYER_BITS)) {
        Some(layer) => layer,
        None => { return Err(DecodeError::UnsupportedLayer); },
    };
    let has_crc_protection = !extract_flag(bytes, PROTECTION_AT);
    let bitrate_index = extract_bits(bytes, BITRATE_INDEX_AT, BITRATE_INDEX_BITS);
    let kbps = match bitrate_kbps(bitrate_index, layer) {
        Some(kbps) => kbps,
        None => { return Err(DecodeError::InvalidBitrate); },
    };
    let sampling_index = extract_bits(bytes, SAMPLING_INDEX_AT, SAMPLING_INDEX_BITS);
    let hz = match sampling_rate_hz(sampling_index) {
        Some(hz) => hz,
        None => { return Err(DecodeError::InvalidSamplingRate); },
    };
    let has_padding_byte = extract_flag(bytes, PADDING_AT);
    let channel_mode = Mode::from_code(extract_bits(bytes, MODE_AT, MODE_BITS));
    let ms_stereo = extract_flag(bytes, MS_STEREO_AT);
    let intensity_stereo = extract_flag(bytes, INTENSITY_STEREO_AT);
    let is_copyrighted = extract_flag(bytes, COPYRIGHT_AT);
    let is_original = extract_flag(bytes, ORIGINAL_AT);
    let emphasis = Emphasis::from_code(extract_bits(bytes, EMPHASIS_AT, EMPHASIS_BITS));
    let size = match frame_size_bytes(kbps, hz) {
        Some(size) => size,
        None => { return Err(DecodeError::InvalidBitrate); },
    };
    Ok(
        FrameHeader {
            version,
            layer,
            has_crc_protection,
            bitrate_kbps: kbps,
            sampling_rate_hz: hz,
            has_padding_byte,
            channel_mode,
            intensity_stereo,
            ms_stereo,
            is_copyrighted,
            is_original,
            emphasis,
            frame_size_bytes: size,
        },
    )
}

/// A header is a function of its first four bytes and of nothing else:
/// byte runs that agree there decode to the same header or to the same
/// error.
pub proof fn lemma_header_depends_on_four_bytes(a: Seq<u8>, b: Seq<u8>)
    requires
        a.len() >= HEADER_LEN,
        b.len() >= HEADER_LEN,
        forall|i: int| 0 <= i < HEADER_LEN ==> a[i] == b[i],
    ensures
        frame_header_of(a) == frame_header_of(b),
{
    lemma_bit_field_is_local(a, b, SYNC_AT as nat, SYNC_BITS as nat);
    lemma_bit_field_is_local(a, b, VERSION_AT as nat, VERSION_BITS as nat);
    lemma_bit_field_is_local(a, b, LAYER_AT as nat, LAYER_BITS as nat);
    lemma_bit_field_is_local(a, b, PROTECTION_AT as nat, 1);
    lemma_bit_field_is_local(a, b, BITRATE_INDEX_AT as nat, BITRATE_INDEX_BITS as nat);
    lemma_bit_field_is_local(a, b, SAMPLING_INDEX_AT as nat, SAMPLING_INDEX_BITS as nat);
    lemma_bit_field_is_local(a, b, PADDING_AT as nat, 1);
    lemma_bit_field_is_local(a, b, MODE_AT as nat, MODE_BITS as nat);
    lemma_bit_field_is_local(a, b, MS_STEREO_AT as nat, 1);
    lemma_bit_field_is_local(a, b, INTENSITY_STEREO_AT as nat, 1);
    lemma_bit_field_is_local(a, b, COPYRIGHT_AT as nat, 1);
    lemma_bit_field_is_local(a, b, ORIGINAL_AT as nat, 1);
    lemma_bit_field_is_local(a, b, EMPHASIS_AT as nat, EMPHASIS_BITS as nat);
}

/// The pairs of bitrate index and layer that decode: every index from 1 to
/// 14 in Layer III, all of them but 14 in Layer II, and in Layer I the
/// indices up to 8 and the index 10.
pub proof fn lemma_valid_rate_pairs(index: nat, layer: Layer)
    ensures
        valid_rate_pair(index, layer) <==> match layer {
            Layer::Reserved => false,
            Layer::L1 => 1 <= index <= 8 || index == 10,
            Layer::L2 => 1 <= index <= 13,
            Layer::L3 => 1 <= index <= 14,
        },
{
}

/// Header bytes decode exactly where they are `decodable`. Every decoded
/// header is well formed, and its frame is long enough to hold the header
/// and the side information that follows it.
pub proof fn lemma_decoded_header(b: Seq<u8>)
    ensures
        frame_header_of(b) is Ok <==> decodable(b),
        frame_header_of(b) matches Ok(header) ==> {
            &&& header.well_formed()
            &&& 96 <= header.frame_size_bytes <= 1440
            &&& header.frame_size_bytes >= HEADER_LEN + header.spec_side_info_len()
        },
{
    if frame_header_of(b) is Ok {
        let header = frame_header_of(b)->Ok_0;
        let index = field(b, BITRATE_INDEX_AT, BITRATE_INDEX_BITS);
        let sampling = field(b, SAMPLING_INDEX_AT, SAMPLING_INDEX_BITS);
        assert(bitrate_of(index, header.layer) == Some(header.bitrate_kbps));
        assert(sampling_rate_of(sampling) == Some(header.sampling_rate_hz));
        assert(has_frame_size(header.bitrate_kbps));
    }
}

/// Round-trip framing. Let a frame whose header decodes take up as many
/// bytes as its header says, padding byte included, and let another frame
/// follow it at once. Then the decoded header leads from the first frame to
/// the second: `spec_padded_size` bytes after the start of the first frame
/// stands the sync pattern of the second, and what decodes there is the
/// second frame's header.
pub proof fn lemma_round_trip_framing(first: Seq<u8>, second: Seq<u8>)
    requires
        first.len() >= HEADER_LEN,
        frame_header_of(first.subrange(0, HEADER_LEN as int)) matches Ok(header)
            && first.len() == header.spec_padded_size(),
        second.len() >= HEADER_LEN,
        sync_present(second.subrange(0, HEADER_LEN as int)),
    ensures
        ({
            let stream = first + second;
            let header = frame_header_of(stream.subrange(0, HEADER_LEN as int));
            let next = header->Ok_0.spec_padded_size() as int;
            &&& header == frame_header_of(first.subrange(0, HEADER_LEN as int))
            &&& next + HEADER_LEN <= stream.len()
            &&& sync_present(stream.subrange(next, next + HEADER_LEN))
            &&& frame_header_of(stream.subrange(next, next + HEADER_LEN)) == frame_header_of(
                second.subrange(0, HEADER_LEN as int),
            )
        }),
{
    let stream = first + second;
    assert(stream.subrange(0, HEADER_LEN as int) =~= first.subrange(0, HEADER_LEN as int));
    let next = first.len() as int;
    assert(stream.subrange(next, next + HEADER_LEN) =~= second.subrange(0, HEADER_LEN as int));
}

} // verus!
