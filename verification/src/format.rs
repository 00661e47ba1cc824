//! The pure mapping from a sample encoding (channel count and bit depth) to
//! its native format identifier and element byte width.

use vstd::prelude::*;

use crate::error::Error;

verus! {

/// Native identifier for single-channel 8-bit integer samples.
pub const FORMAT_MONO8: u32 = 0x1100;
/// Native identifier for single-channel 16-bit integer samples.
pub const FORMAT_MONO16: u32 = 0x1101;
/// Native identifier for two-channel 8-bit integer samples.
pub const FORMAT_STEREO8: u32 = 0x1102;
/// Native identifier for two-channel 16-bit integer samples.
pub const FORMAT_STEREO16: u32 = 0x1103;

/// A concrete sample encoding with a native mapping: each variant carries a
/// fixed native format identifier and a fixed element byte width.
#[derive(Clone, Copy, Debug, PartialEq, Eq, Structural)]
pub enum SampleFormat {
    Mono8,
    Mono16,
    Stereo8,
    Stereo16,
}

impl SampleFormat {
    /// The channel count of this encoding.
    pub open spec fn spec_channels(self) -> u16 {
        match self {
            SampleFormat::Mono8 | SampleFormat::Mono16 => 1,
            SampleFormat::Stereo8 | SampleFormat::Stereo16 => 2,
        }
    }

    /// The bit depth of one sample element of this encoding.
    pub open spec fn spec_bits(self) -> u16 {
        match self {
            SampleFormat::Mono8 | SampleFormat::Stereo8 => 8,
            SampleFormat::Mono16 | SampleFormat::Stereo16 => 16,
        }
    }

    /// The byte width of one sample element of this encoding.
    pub open spec fn spec_width(self) -> u16 {
        match self {
            SampleFormat::Mono8 | SampleFormat::Stereo8 => 1,
            SampleFormat::Mono16 | SampleFormat::Stereo16 => 2,
        }
    }

    /// The native format identifier of this encoding.
    pub open spec fn spec_id(self) -> u32 {
        match self {
            SampleFormat::Mono8 => FORMAT_MONO8,
            SampleFormat::Mono16 => FORMAT_MONO16,
            SampleFormat::Stereo8 => FORMAT_STEREO8,
            SampleFormat::Stereo16 => FORMAT_STEREO16,
        }
    }

    pub fn channels(self) -> (c: u16)
        ensures
            c == self.spec_channels(),
    {
        match self {
            SampleFormat::Mono8 | SampleFormat::Mono16 => 1,
            SampleFormat::Stereo8 | SampleFormat::Stereo16 => 2,
        }
    }

    pub fn bits(self) -> (b: u16)
        ensures
            b == self.spec_bits(),
    {
        match self {
            SampleFormat::Mono8 | SampleFormat::Stereo8 => 8,
            SampleFormat::Mono16 | SampleFormat::Stereo16 => 16,
        }
    }

    pub fn width(self) -> (w: u16)
        ensures
            w == self.spec_width(),
    {
        match self {
            SampleFormat::Mono8 | SampleFormat::Stereo8 => 1,
            SampleFormat::Mono16 | SampleFormat::Stereo16 => 2,
        }
    }

    pub fn id(self) -> (i: u32)
        ensures
            i == self.spec_id(),
    {
        match self {
            SampleFormat::Mono8 => FORMAT_MONO8,
            SampleFormat::Mono16 => FORMAT_MONO16,
            SampleFormat::Stereo8 => FORMAT_STEREO8,
            SampleFormat::Stereo16 => FORMAT_STEREO16,
        }
    }
}

/// Whether a (channel count, bit depth) pair has a native encoding.
pub open spec fn supported(channels: u16, bits: u16) -> bool {
    (channels == 1 || channels == 2) && (bits == 8 || bits == 16)
}

/// The native encoding of a (channel count, bit depth) pair, if any.
pub open spec fn format_spec(channels: u16, bits: u16) -> Option<SampleFormat> {
    if channels == 1 && bits == 8 {
        Some(SampleFormat::Mono8)
    } else if channels == 1 && bits == 16 {
        Some(SampleFormat::Mono16)
    } else if channels == 2 && bits == 8 {
        Some(SampleFormat::Stereo8)
    } else if channels == 2 && bits == 16 {
        Some(SampleFormat::Stereo16)
    } else {
        None
    }
}

/// Resolves a (channel count, bit depth) pair to its native encoding, or
/// fails with `UnsupportedFormat` when the pair has no native mapping.
pub fn format_of(channels: u16, bits: u16) -> (r: Result<SampleFormat, Error>)
    ensures
        match r {
            Ok(f) => supported(channels, bits) && format_spec(channels, bits) == Some(f),
            Err(e) => !supported(channels, bits) && e == Error::UnsupportedFormat,
        },
{
    if channels == 1 && bits == 8 {
        Ok(SampleFormat::Mono8)
    } else if channels == 1 && bits == 16 {
        Ok(SampleFormat::Mono16)
    } else if channels == 2 && bits == 8 {
        Ok(SampleFormat::Stereo8)
    } else if channels == 2 && bits == 16 {
        Ok(SampleFormat::Stereo16)
    } else {
        Err(Error::UnsupportedFormat)
    }
}

/// Every supported (channel count, bit depth) pair resolves to an encoding,
/// and every unsupported pair resolves to none.
pub proof fn lemma_format_total(channels: u16, bits: u16)
    ensures
        supported(channels, bits) <==> format_spec(channels, bits) is Some,
{
}

/// The format mapping is invertible: an encoding's own channel count and bit
/// depth resolve back to that encoding.
pub proof fn lemma_format_round_trip(f: SampleFormat)
    ensures
        format_spec(f.spec_channels(), f.spec_bits()) == Some(f),
{
}

/// PCM sample data in one of the supported element depths. The channel count
/// is not part of the data: interleaving is the caller's concern, and each
/// element counts as one sample.
pub enum Samples {
    Bits8(Vec<u8>),
    Bits16(Vec<i16>),
}

impl Samples {
    /// The bit depth of one element of this data.
    pub open spec fn spec_bits(&self) -> u16 {
        match self {
            Samples::Bits8(_) => 8,
            Samples::Bits16(_) => 16,
        }
    }

    /// The number of sample elements.
    pub open spec fn spec_len(&self) -> nat {
        match self {
            Samples::Bits8(v) => v@.len(),
            Samples::Bits16(v) => v@.len(),
        }
    }

    /// The total upload length in bytes: element width times sample count.
    pub open spec fn spec_byte_len(&self) -> int {
        match self {
            Samples::Bits8(v) => v@.len() as int,
            Samples::Bits16(v) => 2 * (v@.len() as int),
        }
    }

    pub fn bits(&self) -> (b: u16)
        ensures
            b == self.spec_bits(),
    {
        match self {
            Samples::Bits8(_) => 8,
            Samples::Bits16(_) => 16,
        }
    }

    pub fn len(&self) -> (l: usize)
        ensures
            l == self.spec_len(),
    {
        match self {
            Samples::Bits8(v) => v.len(),
            Samples::Bits16(v) => v.len(),
        }
    }

    /// The total upload length in bytes.
    pub fn byte_len(&self) -> (b: usize)
        requires
            self.spec_byte_len() <= usize::MAX,
        ensures
            b == self.spec_byte_len(),
    {
        match self {
            Samples::Bits8(v) => v.len(),
            Samples::Bits16(v) => {
                let l = v.len();
                l * 2
            },
        }
    }
}

} // verus!
