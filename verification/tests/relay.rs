use sidetone::config::ConfigError;
use sidetone::config::StreamParams;
use sidetone::relay::LatencyRelay;

#[test]
fn scenario_capacity_four_prefill_two() {
    // capacity 4, prefill 2: the relay starts holding two silence samples.
    let mut relay = LatencyRelay::new(4, 2).unwrap();
    assert_eq!(relay.capacity(), 4);
    assert_eq!(relay.prefill(), 2);

    // Feeding three samples admits only the first two (fill 2 + 3 > 4).
    let overrun = relay.feed(&[1, 2, 3]);
    assert!(overrun);

    // Draining three returns the two silences and the first admitted sample.
    let (out, underrun) = relay.drain(3);
    assert_eq!(out, vec![0, 0, 1]);
    assert!(!underrun);

    // One sample is left; draining two pads the second with silence.
    let (out, underrun) = relay.drain(2);
    assert_eq!(out, vec![2, 0]);
    assert!(underrun);
}

#[test]
fn zero_capacity_is_rejected() {
    let result = LatencyRelay::new(0, 0);
    assert_eq!(result.unwrap_err(), ConfigError::ZeroCapacity);
}

#[test]
fn prefill_beyond_capacity_is_rejected() {
    let result = LatencyRelay::new(3, 4);
    assert_eq!(result.unwrap_err(), ConfigError::PrefillExceedsCapacity);
}

#[test]
fn drain_always_returns_exactly_what_was_asked() {
    let mut relay = LatencyRelay::new(5, 0).unwrap();
    for n in 0..8 {
        let (out, _) = relay.drain(n);
        assert_eq!(out.len(), n);
    }
    relay.feed(&[7, 8]);
    let (out, _) = relay.drain(6);
    assert_eq!(out.len(), 6);
    assert_eq!(out, vec![7, 8, 0, 0, 0, 0]);
}

#[test]
fn fifo_order_is_kept_across_interleavings() {
    let mut relay = LatencyRelay::new(8, 0).unwrap();
    assert!(!relay.feed(&[1, 2, 3]));
    let (out, underrun) = relay.drain(2);
    assert_eq!(out, vec![1, 2]);
    assert!(!underrun);
    assert!(!relay.feed(&[4, 5, 6, 7]));
    let (out, underrun) = relay.drain(5);
    assert_eq!(out, vec![3, 4, 5, 6, 7]);
    assert!(!underrun);
}

#[test]
fn overrun_reported_iff_batch_exceeds_room() {
    let mut relay = LatencyRelay::new(4, 0).unwrap();
    // Exactly filling the relay is not an overrun.
    assert!(!relay.feed(&[1, 2, 3, 4]));
    // Any further sample is.
    assert!(relay.feed(&[5]));
    // The full relay still delivers what it admitted, in order.
    let (out, underrun) = relay.drain(4);
    assert_eq!(out, vec![1, 2, 3, 4]);
    assert!(!underrun);
}

#[test]
fn underrun_reported_iff_request_exceeds_fill() {
    let mut relay = LatencyRelay::new(4, 0).unwrap();
    relay.feed(&[9, 9]);
    // Asking for exactly what is queued is not an underrun.
    let (out, underrun) = relay.drain(2);
    assert_eq!(out, vec![9, 9]);
    assert!(!underrun);
    // Asking for anything from an empty relay is.
    let (out, underrun) = relay.drain(1);
    assert_eq!(out, vec![0]);
    assert!(underrun);
}

#[test]
fn frame_requests_drain_one_sample_per_channel() {
    let mut relay = LatencyRelay::new(8, 0).unwrap();
    relay.feed(&[1, 2, 3, 4, 5]);
    let (out, underrun) = relay.drain_frames(2, 2);
    assert_eq!(out, vec![1, 2, 3, 4]);
    assert!(!underrun);
    let (out, underrun) = relay.drain_frames(1, 2);
    assert_eq!(out, vec![5, 0]);
    assert!(underrun);
}

#[test]
fn identical_interleavings_give_identical_output() {
    let mut first: Vec<u32> = Vec::new();
    let mut second: Vec<u32> = Vec::new();
    for run in [&mut first, &mut second] {
        let mut relay = LatencyRelay::new(6, 2).unwrap();
        relay.feed(&[10, 11, 12]);
        run.extend(relay.drain(4).0);
        relay.feed(&[13, 14, 15, 16, 17]);
        run.extend(relay.drain(3).0);
        run.extend(relay.drain(4).0);
    }
    assert_eq!(first, second);
}

#[test]
fn session_relay_prefills_its_whole_capacity() {
    let params = StreamParams { sample_rate: 8, channel_count: 2 };
    // One second at 8 frames per second over 2 channels: 16 sample slots.
    let relay = LatencyRelay::for_session(&params, &params, 1000).unwrap();
    assert_eq!(relay.capacity(), 16);
    assert_eq!(relay.prefill(), 16);
}

#[test]
fn first_drained_samples_of_a_session_are_silence() {
    let params = StreamParams { sample_rate: 4, channel_count: 2 };
    let mut relay = LatencyRelay::for_session(&params, &params, 1000).unwrap();
    // round(1.0 s * 4 frames/s) * 2 channels = 8 samples of initial silence,
    // however the requests are split.
    let (head, underrun) = relay.drain(3);
    assert_eq!(head, vec![0, 0, 0]);
    assert!(!underrun);
    let (tail, underrun) = relay.drain(5);
    assert_eq!(tail, vec![0, 0, 0, 0, 0]);
    assert!(!underrun);
}

#[test]
fn session_sample_rate_mismatch_is_rejected() {
    let capture = StreamParams { sample_rate: 44100, channel_count: 2 };
    let render = StreamParams { sample_rate: 48000, channel_count: 2 };
    let result = LatencyRelay::for_session(&capture, &render, 1000);
    assert_eq!(result.unwrap_err(), ConfigError::SampleRateMismatch);
}

#[test]
fn session_channel_count_mismatch_is_rejected() {
    let capture = StreamParams { sample_rate: 48000, channel_count: 1 };
    let render = StreamParams { sample_rate: 48000, channel_count: 2 };
    let result = LatencyRelay::for_session(&capture, &render, 1000);
    assert_eq!(result.unwrap_err(), ConfigError::ChannelCountMismatch);
}

#[test]
fn session_zero_latency_is_rejected() {
    let params = StreamParams { sample_rate: 48000, channel_count: 2 };
    let result = LatencyRelay::for_session(&params, &params, 0);
    assert_eq!(result.unwrap_err(), ConfigError::ZeroCapacity);
}

#[test]
fn session_oversized_latency_is_rejected() {
    let params = StreamParams { sample_rate: u32::MAX, channel_count: u16::MAX };
    let result = LatencyRelay::for_session(&params, &params, u64::MAX);
    assert_eq!(result.unwrap_err(), ConfigError::CapacityOverflow);
}
