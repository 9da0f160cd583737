//! The output format negotiated with the host once, before the stream is
//! built.
use vstd::prelude::*;

verus! {

/// The numeric sample types a stream can be built for: one render loop is
/// specialised for the negotiated type when the stream is built.
#[derive(Clone, Copy, Debug, PartialEq, Eq, Structural)]
pub enum SampleFormat {
    I8,
    I16,
    I32,
    I64,
    U8,
    U16,
    U32,
    U64,
    F32,
    F64,
}

/// The channel count every stream must have: the source's samples are
/// interleaved stereo.
pub const STEREO_CHANNELS: u16 = 2;

/// A negotiated output configuration, fixed for the life of a stream.
#[derive(Clone, Copy, Debug, PartialEq, Eq, Structural)]
pub struct OutputConfig {
    pub format: SampleFormat,
    pub channels: u16,
    pub sample_rate: u32,
}

/// Why no audio is possible. Reported once; the application carries on
/// without sound.
#[derive(Clone, Copy, Debug, PartialEq, Eq, Structural)]
pub enum AudioError {
    /// The host has no default output device.
    NoDevice,
    /// The device's sample type is none of `SampleFormat`.
    UnsupportedFormat,
    /// The device's default configuration is not stereo.
    UnsupportedChannels(u16),
}

/// Checks what the host offers: `format` is `None` when the device's sample
/// type is none of `SampleFormat`. The format is checked before the channel
/// count.
pub fn negotiate(format: Option<SampleFormat>, channels: u16, sample_rate: u32) -> (r: Result<
    OutputConfig,
    AudioError,
>)
    ensures
        format is None <==> r == Err::<OutputConfig, AudioError>(AudioError::UnsupportedFormat),
        format is Some && channels != STEREO_CHANNELS <==> r == Err::<OutputConfig, AudioError>(
            AudioError::UnsupportedChannels(channels),
        ),
        r is Ok <==> format is Some && channels == STEREO_CHANNELS,
        r is Ok ==> r->Ok_0 == (OutputConfig { format: format->0, channels, sample_rate }),
{
    match format {
        None => Err(AudioError::UnsupportedFormat),
        Some(format) => {
            if channels != STEREO_CHANNELS {
                Err(AudioError::UnsupportedChannels(channels))
            } else {
                Ok(OutputConfig { format, channels, sample_rate })
            }
        },
    }
}

} // verus!
