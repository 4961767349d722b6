//! Session configuration: negotiated stream parameters, the arithmetic that
//! sizes the relay from a target latency, and the checks that reject a
//! mismatched capture/render pair before any stream starts.

use vstd::prelude::*;

verus! {

/// Why a session could not be configured. Configuration errors are detected
/// before streaming starts and are fatal to session startup; they never occur
/// at runtime.
#[derive(Clone, Copy, Debug, PartialEq, Eq, Structural)]
pub enum ConfigError {
    /// The relay would have zero sample slots, so no stream could flow.
    ZeroCapacity,
    /// More prefilled silence was requested than the relay can hold.
    PrefillExceedsCapacity,
    /// Capture and render streams negotiated different sample rates.
    SampleRateMismatch,
    /// Capture and render streams negotiated different channel counts.
    ChannelCountMismatch,
    /// The computed relay capacity does not fit in this machine's `usize`.
    CapacityOverflow,
}

/// The format a stream negotiated with its device, fixed for the session.
#[derive(Clone, Copy, Debug, PartialEq, Eq, Structural)]
pub struct StreamParams {
    /// Sample frames per second.
    pub sample_rate: u32,
    /// Interleaved samples per frame.
    pub channel_count: u16,
}

/// Frames covering `latency_ms` of audio at `sample_rate`: the latency in
/// seconds times the rate, rounded half-up.
pub open spec fn latency_frames(latency_ms: int, sample_rate: int) -> int {
    (latency_ms * sample_rate + 500) / 1000
}

/// Relay capacity in sample slots: the latency frame count, interleaved
/// across `channel_count` channels.
pub open spec fn session_capacity(latency_ms: int, sample_rate: int, channel_count: int) -> int {
    latency_frames(latency_ms, sample_rate) * channel_count
}

/// Checks that the capture and render streams agree on format; a mismatch is
/// a configuration error (sample-rate disagreement reported first), never
/// something tolerated at runtime by resampling or re-channeling.
pub fn validate_match(capture: &StreamParams, render: &StreamParams) -> (r: Result<
    (),
    ConfigError,
>)
    ensures
        match r {
            Ok(_) => capture.sample_rate == render.sample_rate && capture.channel_count
                == render.channel_count,
            Err(e) => if capture.sample_rate != render.sample_rate {
                e == ConfigError::SampleRateMismatch
            } else {
                capture.channel_count != render.channel_count && e
                    == ConfigError::ChannelCountMismatch
            },
        },
{
    if capture.sample_rate != render.sample_rate {
        Err(ConfigError::SampleRateMismatch)
    } else if capture.channel_count != render.channel_count {
        Err(ConfigError::ChannelCountMismatch)
    } else {
        Ok(())
    }
}

/// Computes the relay capacity for a target latency, failing only where the
/// result would not fit in `usize`.
pub fn compute_capacity(latency_ms: u64, params: &StreamParams) -> (r: Result<usize, ConfigError>)
    ensures
        ({
            let cap = session_capacity(
                latency_ms as int,
                params.sample_rate as int,
                params.channel_count as int,
            );
            match r {
                Ok(n) => cap <= usize::MAX && n == cap,
                Err(e) => cap > usize::MAX && e == ConfigError::CapacityOverflow,
            }
        }),
{
    proof {
        assert((latency_ms as int) * (params.sample_rate as int) <= 0xffff_ffff_ffff_ffff
            * 0xffff_ffff) by (nonlinear_arith)
            requires
                latency_ms <= 0xffff_ffff_ffff_ffff,
                params.sample_rate <= 0xffff_ffff,
        ;
    }
    let scaled: u128 = (latency_ms as u128) * (params.sample_rate as u128) + 500;
    let frames: u128 = scaled / 1000;
    proof {
        assert(frames * (params.channel_count as int) <= (scaled as int / 1000) * 0xffff)
            by (nonlinear_arith)
            requires
                frames == scaled as int / 1000,
                params.channel_count <= 0xffff,
                frames >= 0,
        ;
        assert((scaled as int / 1000) * 0xffff <= u128::MAX) by (nonlinear_arith)
            requires
                0 <= scaled <= 0xffff_ffff_ffff_ffff * 0xffff_ffff + 500,
        ;
    }
    let samples: u128 = frames * (params.channel_count as u128);
    if samples <= usize::MAX as u128 {
        Ok(samples as usize)
    } else {
        Err(ConfigError::CapacityOverflow)
    }
}

} // verus!
