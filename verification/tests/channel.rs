use sidetone::channel::SampleChannel;
use sidetone::channel::SILENCE;

#[test]
fn silence_is_the_zero_word() {
    assert_eq!(SILENCE, 0);
    assert_eq!(f32::from_bits(SILENCE), 0.0);
}

#[test]
fn push_and_pop_keep_fifo_order() {
    let mut channel = SampleChannel::new(3);
    assert!(channel.try_push(1));
    assert!(channel.try_push(2));
    assert_eq!(channel.try_pop(), Some(1));
    assert!(channel.try_push(3));
    assert_eq!(channel.try_pop(), Some(2));
    assert_eq!(channel.try_pop(), Some(3));
    assert_eq!(channel.try_pop(), None);
}

#[test]
fn full_channel_rejects_a_push() {
    let mut channel = SampleChannel::new(2);
    assert!(channel.try_push(1));
    assert!(channel.try_push(2));
    assert!(!channel.try_push(3));
    // The rejected sample is gone; the queued ones are untouched.
    assert_eq!(channel.try_pop(), Some(1));
    assert_eq!(channel.try_pop(), Some(2));
    assert_eq!(channel.try_pop(), None);
}

#[test]
fn empty_channel_pops_nothing() {
    let mut channel = SampleChannel::new(4);
    assert_eq!(channel.try_pop(), None);
    assert_eq!(channel.capacity(), 4);
}

#[test]
fn zero_capacity_channel_rejects_everything() {
    let mut channel = SampleChannel::new(0);
    assert!(!channel.try_push(1));
    assert_eq!(channel.try_pop(), None);
}
