use blockcheck::device::SimDevice;
use blockcheck::run::{check_counts, effective_modes, progress_due, run_cycle, CountError, UPDATE_FREQUENCY_SECS};
use blockcheck::seed::resolve_seed;

#[test]
fn end_to_end_ten_mebibytes() {
    // seed = hash("test"), simulated 10 MiB device, block size 4096: the write
    // phase reports 10485760 bytes, the read phase matches them all.
    let seed = resolve_seed(Some(&b"test".to_vec()), None, true, true).unwrap();
    let mut dev = SimDevice::new(10 * 1024 * 1024, 1 << 20);
    let (written, read) = run_cycle(&seed, 4096, &mut dev);
    assert_eq!(written, 10_485_760);
    assert_eq!(read, 10_485_760);
    assert_eq!(written, read);
}

#[test]
fn cycle_on_small_odd_device() {
    let seed = resolve_seed(Some(&b"odd".to_vec()), None, true, true).unwrap();
    let mut dev = SimDevice::new(4097, 13);
    let (written, read) = run_cycle(&seed, 4096, &mut dev);
    assert_eq!((written, read), (4097, 4097));
}

#[test]
fn effective_modes_imply_full_cycle() {
    assert_eq!(effective_modes(false, false), (true, true));
    assert_eq!(effective_modes(true, false), (true, false));
    assert_eq!(effective_modes(false, true), (false, true));
    assert_eq!(effective_modes(true, true), (true, true));
}

#[test]
fn count_checks_pass_when_counts_match() {
    assert!(check_counts(Some(100), Some(100), 100).is_ok());
    assert!(check_counts(Some(100), None, 100).is_ok());
    assert!(check_counts(None, Some(100), 100).is_ok());
    assert!(check_counts(None, None, 100).is_ok());
}

#[test]
fn count_checks_name_the_conflicting_counts() {
    assert_eq!(
        check_counts(Some(90), Some(100), 100).unwrap_err(),
        CountError::WroteNotExpected { written: 90, expected: 100 }
    );
    assert_eq!(
        check_counts(Some(100), Some(90), 100).unwrap_err(),
        CountError::ReadNotExpected { read: 90, expected: 100 }
    );
    assert_eq!(
        check_counts(None, Some(42), 100).unwrap_err(),
        CountError::ReadNotExpected { read: 42, expected: 100 }
    );
}

#[test]
fn progress_gate_fires_only_after_the_interval() {
    assert!(!progress_due(0, UPDATE_FREQUENCY_SECS));
    assert!(!progress_due(60, UPDATE_FREQUENCY_SECS));
    assert!(progress_due(61, UPDATE_FREQUENCY_SECS));
}
