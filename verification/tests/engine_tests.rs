use blockcheck::device::{IoOutcome, SimDevice};
use blockcheck::engine::{find_first_mismatch, read_device, write_device, write_step, Mismatch, WriteStep};
use blockcheck::seed::{resolve_seed, Seed};
use blockcheck::stream::KeyedStream;

fn test_seed() -> Seed {
    resolve_seed(Some(&b"engine tests".to_vec()), None, true, true).unwrap()
}

#[test]
fn write_fills_exactly_the_capacity() {
    // Out-of-space termination: the out-of-space signal after exactly M bytes
    // ends the write phase successfully, reporting M bytes written.
    let seed = test_seed();
    let m: usize = 10_000;  // not a multiple of the block size
    let mut dev = SimDevice::new(m, 1 << 20);
    let mut stream = KeyedStream::new(&seed, 4096);
    assert!(!dev.is_synced());
    let written = write_device(&mut stream, &mut dev);
    assert_eq!(written, m);
    // The out-of-space path ends with a durability sync.
    assert!(dev.is_synced());
}

#[test]
fn write_handles_partial_writes() {
    // A target that accepts at most 7 bytes per call must end up holding the
    // same bytes, in the same order, as one that takes whole blocks at once.
    let seed = test_seed();
    let capacity: usize = 5000;
    let mut chunked = SimDevice::new(capacity, 7);
    let mut whole = SimDevice::new(capacity, 1 << 20);
    let mut s1 = KeyedStream::new(&seed, 512);
    let mut s2 = KeyedStream::new(&seed, 512);
    assert_eq!(write_device(&mut s1, &mut chunked), capacity);
    assert_eq!(write_device(&mut s2, &mut whole), capacity);
    for i in 0..capacity {
        assert_eq!(chunked.byte_at(i), whole.byte_at(i));
    }
}

#[test]
fn write_then_read_verifies() {
    let seed = test_seed();
    let capacity: usize = 20_000;
    let mut dev = SimDevice::new(capacity, 1 << 20);
    let mut ws = KeyedStream::new(&seed, 4096);
    let written = write_device(&mut ws, &mut dev);
    let mut rs = KeyedStream::new(&seed, 4096);
    let read = read_device(&mut rs, &mut dev).unwrap();
    assert_eq!(written, capacity);
    assert_eq!(read, capacity);
}

#[test]
fn read_with_short_reads_still_verifies() {
    // Reads come back in 7-byte chunks; verification must stay aligned.
    let seed = test_seed();
    let capacity: usize = 3000;
    let mut dev = SimDevice::new(capacity, 1 << 20);
    let mut ws = KeyedStream::new(&seed, 256);
    assert_eq!(write_device(&mut ws, &mut dev), capacity);
    let mut chunked = SimDevice::new(capacity, 7);
    let mut ws2 = KeyedStream::new(&seed, 256);
    assert_eq!(write_device(&mut ws2, &mut chunked), capacity);
    let mut rs = KeyedStream::new(&seed, 256);
    assert_eq!(read_device(&mut rs, &mut chunked).unwrap(), capacity);
    let mut rs2 = KeyedStream::new(&seed, 256);
    assert_eq!(read_device(&mut rs2, &mut dev).unwrap(), capacity);
}

#[test]
fn mismatch_is_located_exactly() {
    // A single flipped byte at offset K is reported at exactly K with both
    // conflicting values.
    let seed = test_seed();
    let capacity: usize = 100_000;
    let k: usize = 12_345;
    let mut dev = SimDevice::new(capacity, 1 << 20);
    let mut ws = KeyedStream::new(&seed, 4096);
    assert_eq!(write_device(&mut ws, &mut dev), capacity);
    let original = dev.byte_at(k);
    let flipped = original ^ 0xff;
    dev.corrupt(k, flipped);
    let mut rs = KeyedStream::new(&seed, 4096);
    let err = read_device(&mut rs, &mut dev).unwrap_err();
    assert_eq!(
        err,
        Mismatch { offset: k, device_byte: flipped, expected_byte: original }
    );
}

#[test]
fn mismatch_in_first_and_last_byte() {
    let seed = test_seed();
    let capacity: usize = 1000;
    for k in [0usize, 999] {
        let mut dev = SimDevice::new(capacity, 1 << 20);
        let mut ws = KeyedStream::new(&seed, 256);
        write_device(&mut ws, &mut dev);
        let original = dev.byte_at(k);
        dev.corrupt(k, original.wrapping_add(1));
        let mut rs = KeyedStream::new(&seed, 256);
        let err = read_device(&mut rs, &mut dev).unwrap_err();
        assert_eq!(err.offset, k);
        assert_eq!(err.device_byte, original.wrapping_add(1));
        assert_eq!(err.expected_byte, original);
    }
}

#[test]
fn earliest_mismatch_wins() {
    let seed = test_seed();
    let capacity: usize = 2000;
    let mut dev = SimDevice::new(capacity, 1 << 20);
    let mut ws = KeyedStream::new(&seed, 512);
    write_device(&mut ws, &mut dev);
    for k in [1700usize, 300, 900] {
        let original = dev.byte_at(k);
        dev.corrupt(k, original ^ 0x01);
    }
    let mut rs = KeyedStream::new(&seed, 512);
    let err = read_device(&mut rs, &mut dev).unwrap_err();
    assert_eq!(err.offset, 300);
}

#[test]
fn zero_capacity_device() {
    let seed = test_seed();
    let mut dev = SimDevice::new(0, 4);
    let mut ws = KeyedStream::new(&seed, 128);
    assert_eq!(write_device(&mut ws, &mut dev), 0);
    let mut rs = KeyedStream::new(&seed, 128);
    assert_eq!(read_device(&mut rs, &mut dev).unwrap(), 0);
}

#[test]
fn find_first_mismatch_reports_first_difference() {
    let chunk = vec![1u8, 2, 3, 4, 5];
    let expected = vec![9u8, 1, 2, 9, 4, 9, 9];
    assert_eq!(find_first_mismatch(&chunk, &expected, 2, 1), None);
    assert_eq!(find_first_mismatch(&chunk, &expected, 4, 1), Some((2, 3, 9)));
    assert_eq!(find_first_mismatch(&chunk, &expected, 0, 6), None);
    assert_eq!(find_first_mismatch(&chunk, &expected, 1, 0), Some((0, 1, 9)));
}

#[test]
fn write_step_advances_counters() {
    let mut written: usize = 100;
    let mut off: usize = 10;
    let r = write_step(&mut written, &mut off, 64, IoOutcome::Progress(20));
    assert_eq!(r, WriteStep::Continue);
    assert_eq!((written, off), (120, 30));
    let r = write_step(&mut written, &mut off, 64, IoOutcome::Progress(34));
    assert_eq!(r, WriteStep::BlockDone);
    assert_eq!((written, off), (154, 64));
}

#[test]
fn write_step_terminal_outcomes() {
    let mut written: usize = 5;
    let mut off: usize = 0;
    assert_eq!(write_step(&mut written, &mut off, 16, IoOutcome::Progress(0)), WriteStep::NoProgress);
    assert_eq!(write_step(&mut written, &mut off, 16, IoOutcome::EndOfDevice), WriteStep::DeviceFull);
    assert_eq!(write_step(&mut written, &mut off, 16, IoOutcome::Failure), WriteStep::IoError);
    assert_eq!((written, off), (5, 0));
}

#[test]
fn sim_device_write_outcomes() {
    let mut dev = SimDevice::new(4, 2);
    let data = vec![10u8, 11, 12, 13, 14];
    assert_eq!(dev.write(&data, 0), IoOutcome::Progress(2));
    assert_eq!(dev.write(&data, 2), IoOutcome::Progress(2));
    assert_eq!(dev.write(&data, 4), IoOutcome::EndOfDevice);
    for (i, b) in [10u8, 11, 12, 13].iter().enumerate() {
        assert_eq!(dev.byte_at(i), *b);
    }
}

#[test]
fn sim_device_read_returns_zero_at_end() {
    let mut dev = SimDevice::new(3, 8);
    let data = vec![7u8, 8, 9];
    dev.write(&data, 0);
    let mut buf = vec![0u8; 8];
    assert_eq!(dev.read(&mut buf, 8), 3);
    assert_eq!(&buf[..3], &[7, 8, 9]);
    assert_eq!(dev.read(&mut buf, 8), 0);
}
