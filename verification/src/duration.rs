//! Track duration arithmetic.
//!
//! The container formats are read outside (their files must be opened); the
//! arithmetic that turns what they report into whole seconds is verified
//! here.  The last resort — decoding the whole file and counting samples —
//! reduces to `duration_from_samples`.

use vstd::prelude::*;

verus! {

/// The duration in whole seconds of `samples` interleaved samples at
/// `sample_rate` frames per second with `channels` samples per frame.
pub fn duration_from_samples(samples: u64, sample_rate: u32, channels: u16) -> (r: u64)
    requires
        sample_rate > 0,
        channels > 0,
    ensures
        r == samples as int / sample_rate as int / channels as int,
{
    samples / (sample_rate as u64) / (channels as u64)
}

/// One logical stream of an Ogg container, as its header reports it.
#[derive(Clone, Copy, PartialEq, Eq, Debug, Structural)]
pub enum OggStream {
    /// A Vorbis stream: total length in samples (when the header says) and
    /// the sample rate.
    Vorbis { length_in_samples: Option<u64>, sample_rate: u32 },
    /// An Opus stream: total length in 48 kHz samples, when the header says.
    Opus { length_in_48khz_samples: Option<u64> },
}

/// A Vorbis stream that carries a total length must also carry a non-zero
/// sample rate, or its duration would be a division by zero (and the seconds
/// computed from it are meaningless anyway).
pub open spec fn vorbis_rate_ok(s: OggStream) -> bool {
    s matches OggStream::Vorbis { length_in_samples, sample_rate } ==> (length_in_samples is Some
        ==> sample_rate != 0)
}

/// The duration, in whole seconds, that the first stream carrying a total
/// length reports; `None` when no stream does.
pub open spec fn ogg_duration_spec(s: Seq<OggStream>) -> Option<u64>
    decreases s.len(),
{
    if s.len() == 0 {
        None
    } else {
        match s[0] {
            OggStream::Vorbis { length_in_samples, sample_rate } => {
                if length_in_samples is Some {
                    Some((length_in_samples->0 as int / sample_rate as int) as u64)
                } else {
                    ogg_duration_spec(s.skip(1))
                }
            },
            OggStream::Opus { length_in_48khz_samples } => {
                if length_in_48khz_samples is Some {
                    Some((length_in_48khz_samples->0 as int / 48_000) as u64)
                } else {
                    ogg_duration_spec(s.skip(1))
                }
            },
        }
    }
}

/// The duration of an Ogg container: what the first stream that carries a
/// total length reports, in whole seconds.
pub fn ogg_duration(streams: &Vec<OggStream>) -> (r: Option<u64>)
    requires
        forall|i: int| 0 <= i < streams@.len() ==> vorbis_rate_ok(#[trigger] streams@[i]),
    ensures
        r == ogg_duration_spec(streams@),
{
    let n = streams.len();
    let mut i: usize = 0;
    proof {
        assert(streams@.skip(0) =~= streams@);
    }
    while i < n
        invariant
            i <= n,
            n == streams@.len(),
            forall|k: int| 0 <= k < n ==> vorbis_rate_ok(#[trigger] streams@[k]),
            ogg_duration_spec(streams@) == ogg_duration_spec(streams@.skip(i as int)),
        decreases n - i,
    {
        proof {
            assert(streams@.skip(i as int)[0] == streams@[i as int]);
            assert(streams@.skip(i as int).skip(1) =~= streams@.skip(i as int + 1));
        }
        match streams[i] {
            OggStream::Vorbis { length_in_samples: Some(length), sample_rate } => {
                return Some(length / (sample_rate as u64));
            },
            OggStream::Opus { length_in_48khz_samples: Some(length) } => {
                return Some(length / 48_000u64);
            },
            _ => {},
        }
        i = i + 1;
    }
    None
}

} // verus!
