//! The fixed 28-byte VBAN packet header: its fields, the total mappings
//! between the enum-typed fields and their wire bit patterns, and the
//! bit-exact encoder and decoder.

use vstd::prelude::*;

use crate::packet::Error;
use crate::wire;

verus! {

use vstd::bytes::{spec_u32_to_le_bytes, spec_u32_from_le_bytes};

/// Largest number of samples one audio frame may carry.
pub const MAX_NUM_SAMPLES: usize = 256;

/// Size in bytes of the wire header.
pub const HEADER_SIZE: usize = 28;

/// The 21 sample rates the protocol defines, plus the 11 reserved bit
/// patterns of the 5-bit rate field, so that every pattern decodes.
#[derive(Clone, Copy, Debug, PartialEq, Eq, Structural)]
pub enum SampleRate {
    Hz6000,
    Hz12000,
    Hz24000,
    Hz48000,
    Hz96000,
    Hz192000,
    Hz384000,
    Hz8000,
    Hz16000,
    Hz32000,
    Hz64000,
    Hz128000,
    Hz256000,
    Hz512000,
    Hz11025,
    Hz22050,
    Hz44100,
    Hz88200,
    Hz176400,
    Hz352800,
    Hz705600,
    Undefined1,
    Undefined2,
    Undefined3,
    Undefined4,
    Undefined5,
    Undefined6,
    Undefined7,
    Undefined8,
    Undefined9,
    Undefined10,
    Undefined11,
}

impl SampleRate {
    /// Wire value of this sample rate: the 5 low bits of byte 4.
    pub open spec fn value_spec(self) -> u8 {
        match self {
            SampleRate::Hz6000 => 0,
            SampleRate::Hz12000 => 1,
            SampleRate::Hz24000 => 2,
            SampleRate::Hz48000 => 3,
            SampleRate::Hz96000 => 4,
            SampleRate::Hz192000 => 5,
            SampleRate::Hz384000 => 6,
            SampleRate::Hz8000 => 7,
            SampleRate::Hz16000 => 8,
            SampleRate::Hz32000 => 9,
            SampleRate::Hz64000 => 10,
            SampleRate::Hz128000 => 11,
            SampleRate::Hz256000 => 12,
            SampleRate::Hz512000 => 13,
            SampleRate::Hz11025 => 14,
            SampleRate::Hz22050 => 15,
            SampleRate::Hz44100 => 16,
            SampleRate::Hz88200 => 17,
            SampleRate::Hz176400 => 18,
            SampleRate::Hz352800 => 19,
            SampleRate::Hz705600 => 20,
            SampleRate::Undefined1 => 21,
            SampleRate::Undefined2 => 22,
            SampleRate::Undefined3 => 23,
            SampleRate::Undefined4 => 24,
            SampleRate::Undefined5 => 25,
            SampleRate::Undefined6 => 26,
            SampleRate::Undefined7 => 27,
            SampleRate::Undefined8 => 28,
            SampleRate::Undefined9 => 29,
            SampleRate::Undefined10 => 30,
            SampleRate::Undefined11 => 31,
        }
    }

    /// Sample rate denoted by a masked 5-bit wire value; total over `u8`.
    pub open spec fn from_u8_spec(v: u8) -> SampleRate {
        match v {
            0 => SampleRate::Hz6000,
            1 => SampleRate::Hz12000,
            2 => SampleRate::Hz24000,
            3 => SampleRate::Hz48000,
            4 => SampleRate::Hz96000,
            5 => SampleRate::Hz192000,
            6 => SampleRate::Hz384000,
            7 => SampleRate::Hz8000,
            8 => SampleRate::Hz16000,
            9 => SampleRate::Hz32000,
            10 => SampleRate::Hz64000,
            11 => SampleRate::Hz128000,
            12 => SampleRate::Hz256000,
            13 => SampleRate::Hz512000,
            14 => SampleRate::Hz11025,
            15 => SampleRate::Hz22050,
            16 => SampleRate::Hz44100,
            17 => SampleRate::Hz88200,
            18 => SampleRate::Hz176400,
            19 => SampleRate::Hz352800,
            20 => SampleRate::Hz705600,
            21 => SampleRate::Undefined1,
            22 => SampleRate::Undefined2,
            23 => SampleRate::Undefined3,
            24 => SampleRate::Undefined4,
            25 => SampleRate::Undefined5,
            26 => SampleRate::Undefined6,
            27 => SampleRate::Undefined7,
            28 => SampleRate::Undefined8,
            29 => SampleRate::Undefined9,
            30 => SampleRate::Undefined10,
            _ => SampleRate::Undefined11,
        }
    }

    pub fn to_u8(self) -> (r: u8)
        ensures
            r == self.value_spec(),
    {
        match self {
            SampleRate::Hz6000 => 0,
            SampleRate::Hz12000 => 1,
            SampleRate::Hz24000 => 2,
            SampleRate::Hz48000 => 3,
            SampleRate::Hz96000 => 4,
            SampleRate::Hz192000 => 5,
            SampleRate::Hz384000 => 6,
            SampleRate::Hz8000 => 7,
            SampleRate::Hz16000 => 8,
            SampleRate::Hz32000 => 9,
            SampleRate::Hz64000 => 10,
            SampleRate::Hz128000 => 11,
            SampleRate::Hz256000 => 12,
            SampleRate::Hz512000 => 13,
            SampleRate::Hz11025 => 14,
            SampleRate::Hz22050 => 15,
            SampleRate::Hz44100 => 16,
            SampleRate::Hz88200 => 17,
            SampleRate::Hz176400 => 18,
            SampleRate::Hz352800 => 19,
            SampleRate::Hz705600 => 20,
            SampleRate::Undefined1 => 21,
            SampleRate::Undefined2 => 22,
            SampleRate::Undefined3 => 23,
            SampleRate::Undefined4 => 24,
            SampleRate::Undefined5 => 25,
            SampleRate::Undefined6 => 26,
            SampleRate::Undefined7 => 27,
            SampleRate::Undefined8 => 28,
            SampleRate::Undefined9 => 29,
            SampleRate::Undefined10 => 30,
            SampleRate::Undefined11 => 31,
        }
    }

    pub fn from_u8(v: u8) -> (r: SampleRate)
        ensures
            r == Self::from_u8_spec(v),
    {
        match v {
            0 => SampleRate::Hz6000,
            1 => SampleRate::Hz12000,
            2 => SampleRate::Hz24000,
            3 => SampleRate::Hz48000,
            4 => SampleRate::Hz96000,
            5 => SampleRate::Hz192000,
            6 => SampleRate::Hz384000,
            7 => SampleRate::Hz8000,
            8 => SampleRate::Hz16000,
            9 => SampleRate::Hz32000,
            10 => SampleRate::Hz64000,
            11 => SampleRate::Hz128000,
            12 => SampleRate::Hz256000,
            13 => SampleRate::Hz512000,
            14 => SampleRate::Hz11025,
            15 => SampleRate::Hz22050,
            16 => SampleRate::Hz44100,
            17 => SampleRate::Hz88200,
            18 => SampleRate::Hz176400,
            19 => SampleRate::Hz352800,
            20 => SampleRate::Hz705600,
            21 => SampleRate::Undefined1,
            22 => SampleRate::Undefined2,
            23 => SampleRate::Undefined3,
            24 => SampleRate::Undefined4,
            25 => SampleRate::Undefined5,
            26 => SampleRate::Undefined6,
            27 => SampleRate::Undefined7,
            28 => SampleRate::Undefined8,
            29 => SampleRate::Undefined9,
            30 => SampleRate::Undefined10,
            _ => SampleRate::Undefined11,
        }
    }
}

/// The payload-type discriminator: the 3 high bits of byte 4.
#[derive(Clone, Copy, Debug, PartialEq, Eq, Structural)]
pub enum SubProtocol {
    Audio,
    Serial,
    Text,
    Service,
    Undefined1,
    Undefined2,
    Undefined3,
    User,
}

impl SubProtocol {
    /// Wire value of this sub-protocol, already shifted into bits 7..5.
    pub open spec fn value_spec(self) -> u8 {
        match self {
            SubProtocol::Audio => 0x00,
            SubProtocol::Serial => 0x20,
            SubProtocol::Text => 0x40,
            SubProtocol::Service => 0x60,
            SubProtocol::Undefined1 => 0x80,
            SubProtocol::Undefined2 => 0xa0,
            SubProtocol::Undefined3 => 0xc0,
            SubProtocol::User => 0xe0,
        }
    }

    /// Sub-protocol denoted by a masked wire value; total over `u8`.
    pub open spec fn from_u8_spec(v: u8) -> SubProtocol {
        match v {
            0x00 => SubProtocol::Audio,
            0x20 => SubProtocol::Serial,
            0x40 => SubProtocol::Text,
            0x60 => SubProtocol::Service,
            0x80 => SubProtocol::Undefined1,
            0xa0 => SubProtocol::Undefined2,
            0xc0 => SubProtocol::Undefined3,
            _ => SubProtocol::User,
        }
    }

    pub fn to_u8(self) -> (r: u8)
        ensures
            r == self.value_spec(),
    {
        match self {
            SubProtocol::Audio => 0x00,
            SubProtocol::Serial => 0x20,
            SubProtocol::Text => 0x40,
            SubProtocol::Service => 0x60,
            SubProtocol::Undefined1 => 0x80,
            SubProtocol::Undefined2 => 0xa0,
            SubProtocol::Undefined3 => 0xc0,
            SubProtocol::User => 0xe0,
        }
    }

    pub fn from_u8(v: u8) -> (r: SubProtocol)
        ensures
            r == Self::from_u8_spec(v),
    {
        match v {
            0x00 => SubProtocol::Audio,
            0x20 => SubProtocol::Serial,
            0x40 => SubProtocol::Text,
            0x60 => SubProtocol::Service,
            0x80 => SubProtocol::Undefined1,
            0xa0 => SubProtocol::Undefined2,
            0xc0 => SubProtocol::Undefined3,
            _ => SubProtocol::User,
        }
    }
}

/// The sample encoding: the 3 low bits of byte 7.
#[derive(Clone, Copy, Debug, PartialEq, Eq, Structural)]
pub enum BitResolution {
    Unsigned8Bit,
    Signed16Bit,
    Signed24Bit,
    Signed32Bit,
    Float32Bit,
    Float64Bit,
    Signed12Bit,
    Signed10Bit,
}

impl BitResolution {
    /// Wire value of this bit resolution: the 3 low bits of byte 7.
    pub open spec fn value_spec(self) -> u8 {
        match self {
            BitResolution::Unsigned8Bit => 0,
            BitResolution::Signed16Bit => 1,
            BitResolution::Signed24Bit => 2,
            BitResolution::Signed32Bit => 3,
            BitResolution::Float32Bit => 4,
            BitResolution::Float64Bit => 5,
            BitResolution::Signed12Bit => 6,
            BitResolution::Signed10Bit => 7,
        }
    }

    /// Bit resolution denoted by a masked wire value; total over `u8`.
    pub open spec fn from_u8_spec(v: u8) -> BitResolution {
        match v {
            0 => BitResolution::Unsigned8Bit,
            1 => BitResolution::Signed16Bit,
            2 => BitResolution::Signed24Bit,
            3 => BitResolution::Signed32Bit,
            4 => BitResolution::Float32Bit,
            5 => BitResolution::Float64Bit,
            6 => BitResolution::Signed12Bit,
            _ => BitResolution::Signed10Bit,
        }
    }

    pub fn to_u8(self) -> (r: u8)
        ensures
            r == self.value_spec(),
    {
        match self {
            BitResolution::Unsigned8Bit => 0,
            BitResolution::Signed16Bit => 1,
            BitResolution::Signed24Bit => 2,
            BitResolution::Signed32Bit => 3,
            BitResolution::Float32Bit => 4,
            BitResolution::Float64Bit => 5,
            BitResolution::Signed12Bit => 6,
            BitResolution::Signed10Bit => 7,
        }
    }

    pub fn from_u8(v: u8) -> (r: BitResolution)
        ensures
            r == Self::from_u8_spec(v),
    {
        match v {
            0 => BitResolution::Unsigned8Bit,
            1 => BitResolution::Signed16Bit,
            2 => BitResolution::Signed24Bit,
            3 => BitResolution::Signed32Bit,
            4 => BitResolution::Float32Bit,
            5 => BitResolution::Float64Bit,
            6 => BitResolution::Signed12Bit,
            _ => BitResolution::Signed10Bit,
        }
    }
}

/// The payload codec: the 4 high bits of byte 7.
#[derive(Clone, Copy, Debug, PartialEq, Eq, Structural)]
pub enum Codec {
    PCM,
    VBCA,
    VBCV,
    Undefined1,
    Undefined2,
    Undefined3,
    Undefined4,
    Undefined5,
    Undefined6,
    Undefined7,
    Undefined8,
    Undefined9,
    Undefined10,
    Undefined11,
    Undefined12,
    User,
}

impl Codec {
    /// Wire value of this codec, already shifted into bits 7..4.
    pub open spec fn value_spec(self) -> u8 {
        match self {
            Codec::PCM => 0x00,
            Codec::VBCA => 0x10,
            Codec::VBCV => 0x20,
            Codec::Undefined1 => 0x30,
            Codec::Undefined2 => 0x40,
            Codec::Undefined3 => 0x50,
            Codec::Undefined4 => 0x60,
            Codec::Undefined5 => 0x70,
            Codec::Undefined6 => 0x80,
            Codec::Undefined7 => 0x90,
            Codec::Undefined8 => 0xa0,
            Codec::Undefined9 => 0xb0,
            Codec::Undefined10 => 0xc0,
            Codec::Undefined11 => 0xd0,
            Codec::Undefined12 => 0xe0,
            Codec::User => 0xf0,
        }
    }

    /// Codec denoted by a masked wire value; total over `u8`.
    pub open spec fn from_u8_spec(v: u8) -> Codec {
        match v {
            0x00 => Codec::PCM,
            0x10 => Codec::VBCA,
            0x20 => Codec::VBCV,
            0x30 => Codec::Undefined1,
            0x40 => Codec::Undefined2,
            0x50 => Codec::Undefined3,
            0x60 => Codec::Undefined4,
            0x70 => Codec::Undefined5,
            0x80 => Codec::Undefined6,
            0x90 => Codec::Undefined7,
            0xa0 => Codec::Undefined8,
            0xb0 => Codec::Undefined9,
            0xc0 => Codec::Undefined10,
            0xd0 => Codec::Undefined11,
            0xe0 => Codec::Undefined12,
            _ => Codec::User,
        }
    }

    pub fn to_u8(self) -> (r: u8)
        ensures
            r == self.value_spec(),
    {
        match self {
            Codec::PCM => 0x00,
            Codec::VBCA => 0x10,
            Codec::VBCV => 0x20,
            Codec::Undefined1 => 0x30,
            Codec::Undefined2 => 0x40,
            Codec::Undefined3 => 0x50,
            Codec::Undefined4 => 0x60,
            Codec::Undefined5 => 0x70,
            Codec::Undefined6 => 0x80,
            Codec::Undefined7 => 0x90,
            Codec::Undefined8 => 0xa0,
            Codec::Undefined9 => 0xb0,
            Codec::Undefined10 => 0xc0,
            Codec::Undefined11 => 0xd0,
            Codec::Undefined12 => 0xe0,
            Codec::User => 0xf0,
        }
    }

    pub fn from_u8(v: u8) -> (r: Codec)
        ensures
            r == Self::from_u8_spec(v),
    {
        match v {
            0x00 => Codec::PCM,
            0x10 => Codec::VBCA,
            0x20 => Codec::VBCV,
            0x30 => Codec::Undefined1,
            0x40 => Codec::Undefined2,
            0x50 => Codec::Undefined3,
            0x60 => Codec::Undefined4,
            0x70 => Codec::Undefined5,
            0x80 => Codec::Undefined6,
            0x90 => Codec::Undefined7,
            0xa0 => Codec::Undefined8,
            0xb0 => Codec::Undefined9,
            0xc0 => Codec::Undefined10,
            0xd0 => Codec::Undefined11,
            0xe0 => Codec::Undefined12,
            _ => Codec::User,
        }
    }
}

/// Each wire value maps back to the variant it came from, and the values
/// lie in the bit ranges their fields occupy.
pub proof fn lemma_field_values_invert()
    ensures
        forall|sr: SampleRate| #[trigger] SampleRate::from_u8_spec(sr.value_spec()) == sr,
        forall|sr: SampleRate| #[trigger] sr.value_spec() < 32,
        forall|sp: SubProtocol| #[trigger] SubProtocol::from_u8_spec(sp.value_spec()) == sp,
        forall|sp: SubProtocol| #[trigger] sp.value_spec() & 0x1f == 0,
        forall|sp: SubProtocol| #[trigger] sp.value_spec() <= 0xe0,
        forall|br: BitResolution| #[trigger] BitResolution::from_u8_spec(br.value_spec()) == br,
        forall|br: BitResolution| #[trigger] br.value_spec() < 8,
        forall|c: Codec| #[trigger] Codec::from_u8_spec(c.value_spec()) == c,
        forall|c: Codec| #[trigger] c.value_spec() & 0x0f == 0,
        forall|c: Codec| #[trigger] c.value_spec() <= 0xf0,
{
    assert forall|sp: SubProtocol| #[trigger] sp.value_spec() & 0x1f == 0 by {
        let v = sp.value_spec();
        assert(v == 0x00 || v == 0x20 || v == 0x40 || v == 0x60 || v == 0x80 || v == 0xa0
            || v == 0xc0 || v == 0xe0);
        assert((v == 0x00 || v == 0x20 || v == 0x40 || v == 0x60 || v == 0x80 || v == 0xa0
            || v == 0xc0 || v == 0xe0) ==> v & 0x1f == 0) by (bit_vector);
    }
    assert forall|c: Codec| #[trigger] c.value_spec() & 0x0f == 0 by {
        let v = c.value_spec();
        assert(v % 16 == 0);
        assert(v % 16 == 0 ==> v & 0x0f == 0) by (bit_vector);
    }
}

/// The mathematical content of a header: the enum fields, the two wire
/// count fields (each one less than the true count), the 16-byte padded
/// stream name, and the advisory frame counter.
#[verifier::ext_equal]
pub ghost struct HeaderView {
    pub sample_rate: SampleRate,
    pub sub_protocol: SubProtocol,
    pub num_samples: u8,
    pub num_channels: u8,
    pub bit_resolution: BitResolution,
    pub codec: Codec,
    pub stream_name: Seq<u8>,
    pub frame_number: u32,
}

impl HeaderView {
    /// A header is well formed when its stream name holds exactly the 16
    /// padded wire bytes.
    pub open spec fn wf(self) -> bool {
        self.stream_name.len() == 16
    }
}

/// A stream name as shown to callers: the padded wire bytes with every
/// zero byte removed.
pub open spec fn spec_strip_zeros(s: Seq<u8>) -> Seq<u8> {
    s.filter(|b: u8| b != 0)
}

/// A stream name as it stands in the header: truncated to 16 bytes, or
/// padded with trailing zero bytes up to 16.
pub open spec fn spec_pad_name(s: Seq<u8>) -> Seq<u8> {
    if s.len() >= 16 {
        s.subrange(0, 16)
    } else {
        s + Seq::new((16 - s.len()) as nat, |i: int| 0u8)
    }
}

/// The 28 wire bytes of a header.
pub open spec fn spec_encode(h: HeaderView) -> Seq<u8> {
    seq![
        0x56u8,
        0x42u8,
        0x41u8,
        0x4eu8,
        (h.sub_protocol.value_spec() + h.sample_rate.value_spec()) as u8,
        h.num_samples,
        h.num_channels,
        (h.codec.value_spec() + h.bit_resolution.value_spec()) as u8,
    ] + h.stream_name + spec_u32_to_le_bytes(h.frame_number)
}

/// Whether a buffer begins with the protocol magic `"VBAN"`.
pub open spec fn spec_magic_ok(s: Seq<u8>) -> bool {
    s[0] == 0x56 && s[1] == 0x42 && s[2] == 0x41 && s[3] == 0x4e
}

/// Whether the reserved bit (bit 3 of byte 7) is set.
pub open spec fn spec_reserved_set(s: Seq<u8>) -> bool {
    s[7] & 0x08 != 0
}

/// The header denoted by the first 28 bytes of a buffer whose magic and
/// reserved bit have been checked.
pub open spec fn spec_decode_fields(s: Seq<u8>) -> HeaderView {
    HeaderView {
        sample_rate: SampleRate::from_u8_spec(s[4] & 0x1f),
        sub_protocol: SubProtocol::from_u8_spec(s[4] & 0xe0),
        num_samples: s[5],
        num_channels: s[6],
        bit_resolution: BitResolution::from_u8_spec(s[7] & 0x07),
        codec: Codec::from_u8_spec(s[7] & 0xf0),
        stream_name: s.subrange(8, 24),
        frame_number: spec_u32_from_le_bytes(s.subrange(24, 28)),
    }
}

/// What decoding a buffer of at least 28 bytes yields.
pub open spec fn spec_decode(s: Seq<u8>) -> Result<HeaderView, Error> {
    if !spec_magic_ok(s) {
        Result::Err(Error::MissingMagicNumber)
    } else if spec_reserved_set(s) {
        Result::Err(Error::MalformedFormat)
    } else {
        Result::Ok(spec_decode_fields(s))
    }
}

/// One VBAN packet header.
#[derive(Clone, Debug)]
pub struct Header {
    sample_rate: SampleRate,
    sub_protocol: SubProtocol,
    num_samples: u8,
    num_channels: u8,
    bit_resolution: BitResolution,
    codec: Codec,
    stream_name: Vec<u8>,
    frame_number: u32,
}

impl View for Header {
    type V = HeaderView;

    closed spec fn view(&self) -> HeaderView {
        HeaderView {
            sample_rate: self.sample_rate,
            sub_protocol: self.sub_protocol,
            num_samples: self.num_samples,
            num_channels: self.num_channels,
            bit_resolution: self.bit_resolution,
            codec: self.codec,
            stream_name: self.stream_name@,
            frame_number: self.frame_number,
        }
    }
}

impl Header {
    /// A fresh audio header for the given stream name: 48 kHz, 256 samples
    /// per frame, 2 channels, signed 16-bit PCM, frame counter 0. The name
    /// is truncated to 16 bytes or padded with zero bytes.
    pub fn new(stream_name: &[u8]) -> (r: Header)
        ensures
            r@.wf(),
            r@.sample_rate == SampleRate::Hz48000,
            r@.sub_protocol == SubProtocol::Audio,
            r@.num_samples == 255,
            r@.num_channels == 1,
            r@.bit_resolution == BitResolution::Signed16Bit,
            r@.codec == Codec::PCM,
            r@.stream_name == spec_pad_name(stream_name@),
            r@.frame_number == 0,
    {
        let mut name: Vec<u8> = Vec::new();
        let mut i: usize = 0;
        while i < 16
            invariant
                i <= 16,
                name@.len() == i,
                forall|j: int| 0 <= j < i ==> name@[j] == #[trigger] spec_pad_name(
                    stream_name@,
                )[j],
            decreases 16 - i,
        {
            if i < stream_name.len() {
                name.push(stream_name[i]);
            } else {
                name.push(0u8);
            }
            i = i + 1;
        }
        proof {
            assert(name@ =~= spec_pad_name(stream_name@));
        }
        Header {
            sample_rate: SampleRate::Hz48000,
            sub_protocol: SubProtocol::Audio,
            num_samples: 255,
            num_channels: 1,
            bit_resolution: BitResolution::Signed16Bit,
            codec: Codec::PCM,
            stream_name: name,
            frame_number: 0,
        }
    }

    pub fn sample_rate(&self) -> (r: SampleRate)
        ensures
            r == self@.sample_rate,
    {
        self.sample_rate
    }

    /// The stream name with every zero byte removed.
    pub fn stream_name(&self) -> (r: Vec<u8>)
        ensures
            r@ == spec_strip_zeros(self@.stream_name),
    {
        let mut out: Vec<u8> = Vec::new();
        let mut i: usize = 0;
        while i < self.stream_name.len()
            invariant
                i <= self.stream_name.len(),
                out@ == spec_strip_zeros(self.stream_name@.take(i as int)),
            decreases self.stream_name.len() - i,
        {
            let b = self.stream_name[i];
            if b != 0 {
                out.push(b);
            }
            proof {
                reveal(Seq::filter);
                assert(self.stream_name@.take(i + 1).drop_last() =~= self.stream_name@.take(
                    i as int,
                ));
                assert(self.stream_name@.take(i + 1).last() == b);
                assert(out@ == spec_strip_zeros(self.stream_name@.take(i + 1)));
            }
            i = i + 1;
        }
        proof {
            assert(self.stream_name@.take(self.stream_name@.len() as int) =~= self.stream_name@);
        }
        out
    }

    pub fn sub_protocol(&self) -> (r: SubProtocol)
        ensures
            r == self@.sub_protocol,
    {
        self.sub_protocol
    }

    /// The wire samples-per-frame field: one less than the frame's true
    /// sample count per channel.
    pub fn num_samples(&self) -> (r: u8)
        ensures
            r == self@.num_samples,
    {
        self.num_samples
    }

    pub fn set_num_samples(&mut self, num_samples: u8)
        ensures
            final(self)@ == (HeaderView { num_samples, ..old(self)@ }),
    {
        self.num_samples = num_samples;
    }

    /// The true channel count: one more than the wire field.
    pub fn num_channels(&self) -> (r: u16)
        ensures
            r == self@.num_channels + 1,
    {
        self.num_channels as u16 + 1
    }

    pub fn bit_resolution(&self) -> (r: BitResolution)
        ensures
            r == self@.bit_resolution,
    {
        self.bit_resolution
    }

    pub fn codec(&self) -> (r: Codec)
        ensures
            r == self@.codec,
    {
        self.codec
    }

    pub fn frame_number(&self) -> (r: u32)
        ensures
            r == self@.frame_number,
    {
        self.frame_number
    }

    pub fn set_frame_number(&mut self, frame_number: u32)
        ensures
            final(self)@ == (HeaderView { frame_number, ..old(self)@ }),
    {
        self.frame_number = frame_number;
    }

    /// Encode this header into its 28 wire bytes.
    pub fn encode(&self) -> (r: Vec<u8>)
        requires
            self@.wf(),
        ensures
            r@ == spec_encode(self@),
            r@.len() == 28,
    {
        let mut buf: Vec<u8> = Vec::new();
        buf.push(0x56);
        buf.push(0x42);
        buf.push(0x41);
        buf.push(0x4e);
        let sub = self.sub_protocol.to_u8();
        let rate = self.sample_rate.to_u8();
        proof {
            lemma_field_values_invert();
        }
        buf.push(sub + rate);
        buf.push(self.num_samples);
        buf.push(self.num_channels);
        let codec = self.codec.to_u8();
        let res = self.bit_resolution.to_u8();
        buf.push(codec + res);
        proof {
            assert forall|j: int| 0 <= j < 8 implies buf@[j] == spec_encode(self@)[j] by {
                assert(spec_encode(self@)[j] == seq![
                    0x56u8,
                    0x42u8,
                    0x41u8,
                    0x4eu8,
                    (self@.sub_protocol.value_spec() + self@.sample_rate.value_spec()) as u8,
                    self@.num_samples,
                    self@.num_channels,
                    (self@.codec.value_spec() + self@.bit_resolution.value_spec()) as u8,
                ][j]);
            }
        }
        let mut i: usize = 0;
        while i < self.stream_name.len()
            invariant
                i <= self.stream_name@.len(),
                self.stream_name@.len() == 16,
                buf@.len() == 8 + i,
                forall|j: int| 0 <= j < 8 ==> buf@[j] == #[trigger] spec_encode(self@)[j],
                forall|j: int| 8 <= j < 8 + i ==> #[trigger] buf@[j] == self.stream_name@[j - 8],
            decreases self.stream_name@.len() - i,
        {
            buf.push(self.stream_name[i]);
            i = i + 1;
        }
        let mut tail = wire::le_u32_to_bytes(self.frame_number);
        buf.append(&mut tail);
        proof {
            vstd::bytes::lemma_auto_spec_u32_to_from_le_bytes();
            assert forall|j: int| 0 <= j < 28 implies buf@[j] == spec_encode(self@)[j] by {
                if 8 <= j < 24 {
                    assert(spec_encode(self@)[j] == self@.stream_name[j - 8]);
                } else if 24 <= j {
                    assert(spec_encode(self@)[j] == spec_u32_to_le_bytes(self@.frame_number)[j
                        - 24]);
                }
            }
            assert(buf@ =~= spec_encode(self@));
        }
        buf
    }

    /// Decode a header from the first 28 bytes of a buffer, checking the
    /// magic and the reserved format bit.
    pub fn decode(data: &[u8]) -> (r: Result<Header, Error>)
        requires
            data@.len() >= 28,
        ensures
            (r is Err) == (spec_decode(data@) is Err),
            r matches Err(e) ==> spec_decode(data@) == Result::<HeaderView, Error>::Err(e),
            r matches Ok(h) ==> spec_decode(data@) == Result::<HeaderView, Error>::Ok(h@),
            r matches Ok(h) ==> h@.wf(),
    {
        if !(data[0] == 0x56 && data[1] == 0x42 && data[2] == 0x41 && data[3] == 0x4e) {
            return Err(Error::MissingMagicNumber);
        }
        let format_codec = data[7];
        if format_codec & 0x08 != 0 {
            return Err(Error::MalformedFormat);
        }
        let sr_sp = data[4];
        let sample_rate = SampleRate::from_u8(sr_sp & 0x1f);
        let sub_protocol = SubProtocol::from_u8(sr_sp & 0xe0);
        let bit_resolution = BitResolution::from_u8(format_codec & 0x07);
        let codec = Codec::from_u8(format_codec & 0xf0);
        let mut name: Vec<u8> = Vec::new();
        let mut i: usize = 8;
        while i < 24
            invariant
                8 <= i <= 24,
                data@.len() >= 28,
                name@.len() == i - 8,
                name@ =~= data@.subrange(8, i as int),
            decreases 24 - i,
        {
            name.push(data[i]);
            i = i + 1;
        }
        let frame_number = wire::le_u32_from_bytes(&data[24..28]);
        proof {
            assert(data@.subrange(24, 28).subrange(0, 4) =~= data@.subrange(24, 28));
        }
        let h = Header {
            sample_rate,
            sub_protocol,
            num_samples: data[5],
            num_channels: data[6],
            bit_resolution,
            codec,
            stream_name: name,
            frame_number,
        };
        proof {
            assert(h@ =~= spec_decode_fields(data@));
        }
        Ok(h)
    }
}

impl PartialEq for Header {
    /// Two headers are equal when every field is, the stream name byte
    /// for byte.
    fn eq(&self, other: &Header) -> (r: bool) {
        let fields_eq = self.sample_rate == other.sample_rate && self.sub_protocol
            == other.sub_protocol && self.num_samples == other.num_samples && self.num_channels
            == other.num_channels && self.bit_resolution == other.bit_resolution && self.codec
            == other.codec && crate::util::bytes_eq(
            self.stream_name.as_slice(),
            other.stream_name.as_slice(),
        ) && self.frame_number == other.frame_number;
        proof {
            if fields_eq {
                assert(self@ =~= other@);
            }
        }
        fields_eq
    }
}

impl vstd::std_specs::cmp::PartialEqSpecImpl for Header {
    open spec fn obeys_eq_spec() -> bool {
        true
    }

    open spec fn eq_spec(&self, other: &Header) -> bool {
        self@ == other@
    }
}

/// Decoding the encoding of any well-formed header gives that header back:
/// the codec round-trips on every header value.
pub proof fn lemma_header_round_trip(h: HeaderView)
    requires
        h.wf(),
    ensures
        spec_decode(spec_encode(h)) == Result::<HeaderView, Error>::Ok(h),
{
    lemma_field_values_invert();
    vstd::bytes::lemma_auto_spec_u32_to_from_le_bytes();
    let s = spec_encode(h);
    let rate = h.sample_rate.value_spec();
    let sub = h.sub_protocol.value_spec();
    let res = h.bit_resolution.value_spec();
    let codec = h.codec.value_spec();
    let b4 = (sub + rate) as u8;
    let b7 = (codec + res) as u8;
    assert(b4 & 0x1f == rate && b4 & 0xe0 == sub) by (bit_vector)
        requires
            rate < 32,
            sub & 0x1f == 0,
            b4 == (sub + rate) as u8,
    ;
    assert(b7 & 0x07 == res && b7 & 0xf0 == codec && b7 & 0x08 == 0) by (bit_vector)
        requires
            res < 8,
            codec & 0x0f == 0,
            b7 == (codec + res) as u8,
    ;
    assert(!spec_reserved_set(s));
    assert(s.subrange(8, 24) =~= h.stream_name);
    assert(s.subrange(24, 28) =~= spec_u32_to_le_bytes(h.frame_number));
    assert(spec_decode_fields(s) =~= h);
}

} // verus!
