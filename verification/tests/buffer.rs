use aquinas::ring::{ring_capacity, RingBuffer};
use aquinas::sink::{negotiate_format, OutputError, SampleFormat};

#[test]
fn ring_capacity_is_200ms_of_audio() {
    assert_eq!(ring_capacity(44100, 2), 17640);
    assert_eq!(ring_capacity(48000, 2), 19200);
    assert_eq!(ring_capacity(8000, 1), 1600);
}

#[test]
fn ring_is_first_in_first_out() {
    let mut rb = RingBuffer::new(8);
    assert_eq!(rb.queued(), 0);
    assert_eq!(rb.free(), 8);
    let taken = rb.write(&vec![1, 2, 3], 0);
    assert_eq!(taken, 3);
    assert_eq!(rb.queued(), 3);
    assert_eq!(rb.read(2), vec![1, 2]);
    assert_eq!(rb.read(2), vec![3]);
    assert_eq!(rb.read(2), Vec::<i16>::new());
}

#[test]
fn ring_write_takes_only_what_fits() {
    let mut rb = RingBuffer::new(4);
    let samples = vec![10, 20, 30, 40, 50, 60];
    let taken = rb.write(&samples, 0);
    assert_eq!(taken, 4);
    // The producer continues from where it stopped once space frees up.
    assert_eq!(rb.read(2), vec![10, 20]);
    let taken2 = rb.write(&samples, taken);
    assert_eq!(taken2, 2);
    assert_eq!(rb.read(4), vec![30, 40, 50, 60]);
}

#[test]
fn ring_wraps_around_its_storage() {
    let mut rb = RingBuffer::new(4);
    assert_eq!(rb.write(&vec![1, 2, 3], 0), 3);
    assert_eq!(rb.read(2), vec![1, 2]);
    assert_eq!(rb.write(&vec![4, 5, 6], 0), 3);
    assert_eq!(rb.queued(), 4);
    assert_eq!(rb.read(4), vec![3, 4, 5, 6]);
    assert_eq!(rb.queued(), 0);
}

#[test]
fn underrun_fills_silence_without_blocking() {
    let mut rb = RingBuffer::new(8);
    rb.write(&vec![7, 8, 9], 0);
    // The hardware callback asks for more than is queued: it gets exactly
    // what it asked for, the tail filled with silence.
    let out = rb.read_or_silence(6);
    assert_eq!(out, vec![7, 8, 9, 0, 0, 0]);
    assert_eq!(rb.queued(), 0);
    // A completely stalled producer yields pure silence.
    assert_eq!(rb.read_or_silence(4), vec![0, 0, 0, 0]);
}

#[test]
fn read_or_silence_leaves_the_surplus_queued() {
    let mut rb = RingBuffer::new(8);
    rb.write(&vec![1, 2, 3, 4, 5], 0);
    assert_eq!(rb.read_or_silence(3), vec![1, 2, 3]);
    assert_eq!(rb.queued(), 2);
    assert_eq!(rb.read_or_silence(3), vec![4, 5, 0]);
}

#[test]
fn device_formats_negotiate() {
    assert_eq!(negotiate_format(SampleFormat::F32), Ok(SampleFormat::F32));
    assert_eq!(negotiate_format(SampleFormat::I16), Ok(SampleFormat::I16));
    assert_eq!(negotiate_format(SampleFormat::U16), Ok(SampleFormat::U16));
    assert_eq!(
        negotiate_format(SampleFormat::Other),
        Err(OutputError::UnsupportedFormat)
    );
}
