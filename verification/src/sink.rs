//! Audio output sink decisions.
//!
//! The sink itself — the host's output device and its hardware-driven
//! callback — is outside work; what is verified here is the decision the
//! sink's open phase makes: which device sample formats the engine can
//! serve, and the error when none fits.  The callback's pull lives on the
//! ring buffer (`RingBuffer::read_or_silence`), and its pacing constant in
//! `ring_capacity`.

use vstd::prelude::*;

verus! {

/// The sample formats a host output device may ask for.
#[derive(Clone, Copy, PartialEq, Eq, Debug, Structural)]
pub enum SampleFormat {
    /// 32-bit float samples.
    F32,
    /// Signed 16-bit integer samples.
    I16,
    /// Unsigned 16-bit integer samples.
    U16,
    /// Anything else the device might report.
    Other,
}

/// Why the output sink could not be opened.
#[derive(Clone, Copy, PartialEq, Eq, Debug, Structural)]
pub enum OutputError {
    /// No default output device exists at all; fatal to the application.
    NoDevice,
    /// The device refused to report a default stream configuration.
    NoConfig,
    /// The device's sample format is none the engine can serve.
    UnsupportedFormat,
    /// Building or starting the hardware stream failed.
    StreamFailed,
}

/// Picks the sample format the output stream will run at: the device's own
/// format where the engine can serve it, and `UnsupportedFormat` otherwise.
pub fn negotiate_format(device_format: SampleFormat) -> (r: Result<SampleFormat, OutputError>)
    ensures
        r == if device_format is Other {
            Err::<SampleFormat, OutputError>(OutputError::UnsupportedFormat)
        } else {
            Ok::<SampleFormat, OutputError>(device_format)
        },
{
    match device_format {
        SampleFormat::F32 => Ok(SampleFormat::F32),
        SampleFormat::I16 => Ok(SampleFormat::I16),
        SampleFormat::U16 => Ok(SampleFormat::U16),
        SampleFormat::Other => Err(OutputError::UnsupportedFormat),
    }
}

} // verus!
