//! Stream settings, sample formats, and the output header derived from them.
use vstd::prelude::*;

verus! {

/// The sample representations an input stream may deliver.
#[derive(Clone, Copy, Debug, PartialEq, Eq, Structural)]
pub enum InputFormat {
    F32,
    I16,
    U16,
}

/// How captured samples are turned into what the output file stores,
/// chosen once when a stream starts.
#[derive(Clone, Copy, Debug, PartialEq, Eq, Structural)]
pub enum Conversion {
    /// 32-bit float samples are stored unchanged.
    KeepFloat,
    /// Signed 16-bit samples are stored unchanged.
    KeepSigned,
    /// Unsigned 16-bit samples are shifted into the signed 16-bit range.
    UnsignedToSigned,
}

/// The sample representation of the output file's data chunk.
#[derive(Clone, Copy, Debug, PartialEq, Eq, Structural)]
pub enum StoredFormat {
    Float,
    Int,
}

/// The negotiated stream configuration: the device's sample format with the
/// caller's rate, channel count and buffer size.
#[derive(Clone, Copy, Debug, PartialEq, Eq, Structural)]
pub struct StreamSettings {
    pub format: InputFormat,
    pub sample_rate: u32,
    pub channels: u16,
    pub buffer_size: u32,
}

/// The header fields written at the start of every output file.
#[derive(Clone, Copy, Debug, PartialEq, Eq, Structural)]
pub struct OutputSpec {
    pub channels: u16,
    pub sample_rate: u32,
    pub bits_per_sample: u16,
    pub stored: StoredFormat,
}

#[verifier::external_type_specification]
pub struct ExWavFormat(hound::SampleFormat);

#[verifier::external_type_specification]
pub struct ExWavSpec(hound::WavSpec);

impl OutputSpec {
    /// The same header in the encoder's own terms.
    pub fn to_wav_spec(&self) -> (r: hound::WavSpec)
        ensures
            r.channels == self.channels,
            r.sample_rate == self.sample_rate,
            r.bits_per_sample == self.bits_per_sample,
            r.sample_format == (match self.stored {
                StoredFormat::Float => hound::SampleFormat::Float,
                StoredFormat::Int => hound::SampleFormat::Int,
            }),
    {
        hound::WavSpec {
            channels: self.channels,
            sample_rate: self.sample_rate,
            bits_per_sample: self.bits_per_sample,
            sample_format: match self.stored {
                StoredFormat::Float => hound::SampleFormat::Float,
                StoredFormat::Int => hound::SampleFormat::Int,
            },
        }
    }
}

/// Bytes taken by one sample of the given format.
pub open spec fn sample_size_spec(f: InputFormat) -> nat {
    match f {
        InputFormat::F32 => 4,
        InputFormat::I16 => 2,
        InputFormat::U16 => 2,
    }
}

/// The conversion selected for a format.
pub open spec fn conversion_spec(f: InputFormat) -> Conversion {
    match f {
        InputFormat::F32 => Conversion::KeepFloat,
        InputFormat::I16 => Conversion::KeepSigned,
        InputFormat::U16 => Conversion::UnsignedToSigned,
    }
}

/// What a file written from samples of this format stores.
pub open spec fn stored_spec(f: InputFormat) -> StoredFormat {
    match f {
        InputFormat::F32 => StoredFormat::Float,
        _ => StoredFormat::Int,
    }
}

/// A rate, a channel count and a buffer size that a stream can be opened with.
pub open spec fn valid_request(sample_rate: u32, channels: u16, buffer_size: u32) -> bool {
    sample_rate > 0 && channels > 0 && buffer_size > 0
}

/// The header determined by a stream configuration.
pub open spec fn output_spec_of(s: StreamSettings) -> OutputSpec {
    OutputSpec {
        channels: s.channels,
        sample_rate: s.sample_rate,
        bits_per_sample: (8 * sample_size_spec(s.format)) as u16,
        stored: stored_spec(s.format),
    }
}

impl InputFormat {
    /// Bytes taken by one sample.
    pub fn sample_size(&self) -> (r: usize)
        ensures
            r == sample_size_spec(*self),
    {
        match self {
            InputFormat::F32 => 4,
            InputFormat::I16 => 2,
            InputFormat::U16 => 2,
        }
    }

    /// The conversion that samples of this format go through before encoding.
    pub fn conversion(&self) -> (r: Conversion)
        ensures
            r == conversion_spec(*self),
    {
        match self {
            InputFormat::F32 => Conversion::KeepFloat,
            InputFormat::I16 => Conversion::KeepSigned,
            InputFormat::U16 => Conversion::UnsignedToSigned,
        }
    }
}

impl StreamSettings {
    /// Combines the device's sample format with the caller's rate, channel
    /// count and buffer size. A zero in any of the three is refused.
    pub fn negotiate(
        format: InputFormat,
        sample_rate: u32,
        channels: u16,
        buffer_size: u32,
    ) -> (r: Option<StreamSettings>)
        ensures
            r.is_some() <==> valid_request(sample_rate, channels, buffer_size),
            r matches Some(s) ==> s == (StreamSettings { format, sample_rate, channels, buffer_size }),
    {
        if sample_rate == 0 || channels == 0 || buffer_size == 0 {
            None
        } else {
            Some(StreamSettings { format, sample_rate, channels, buffer_size })
        }
    }

    /// The header that every file recorded with these settings carries.
    pub fn output_spec(&self) -> (r: OutputSpec)
        ensures
            r == output_spec_of(*self),
    {
        let size = self.format.sample_size();
        let stored = match self.format {
            InputFormat::F32 => StoredFormat::Float,
            _ => StoredFormat::Int,
        };
        OutputSpec {
            channels: self.channels,
            sample_rate: self.sample_rate,
            bits_per_sample: (8 * size) as u16,
            stored,
        }
    }
}

/// Shifts an unsigned 16-bit sample into the signed range: the midpoint
/// 32768 becomes silence.
pub fn unsigned_to_signed(x: u16) -> (r: i16)
    ensures
        r as int == x as int - 32768,
{
    (x as i32 - 32768) as i16
}

/// Converts a buffer of unsigned 16-bit samples, sample by sample.
pub fn convert_unsigned(data: &[u16]) -> (r: Vec<i16>)
    ensures
        r@.len() == data@.len(),
        forall|i: int| 0 <= i < data@.len() ==> r@[i] as int == data@[i] as int - 32768,
{
    let mut out: Vec<i16> = Vec::with_capacity(data.len());
    let mut i: usize = 0;
    while i < data.len()
        invariant
            i <= data@.len(),
            out@.len() == i,
            forall|j: int| 0 <= j < i ==> out@[j] as int == data@[j] as int - 32768,
        decreases data@.len() - i,
    {
        out.push(unsigned_to_signed(data[i]));
        i = i + 1;
    }
    out
}

} // verus!
