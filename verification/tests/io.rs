use dispatch::io::{io_outcome, path_with_nul};
use dispatch::{Channel, ChannelType};

#[test]
fn channel_type_raw() {
    assert_eq!(ChannelType::Stream.as_raw(), 0);
    assert_eq!(ChannelType::Random.as_raw(), 1);
}

#[test]
fn interval_saturates() {
    assert_eq!(Channel::interval_nanos(0, 0), 0);
    assert_eq!(Channel::interval_nanos(2, 5), 2_000_000_005);
    assert_eq!(Channel::interval_nanos(18_446_744_073, 709_551_615), u64::MAX);
    assert_eq!(Channel::interval_nanos(18_446_744_073, 709_551_616), u64::MAX);
    assert_eq!(Channel::interval_nanos(u64::MAX, 0), u64::MAX);
}

#[test]
fn outcomes() {
    // a delivery with code zero, partial or final, is progress
    assert_eq!(io_outcome(0), Ok(()));
    // a closed channel reports ECANCELED
    assert_eq!(io_outcome(libc_ecanceled()), Err(libc_ecanceled()));
    assert_eq!(io_outcome(2), Err(2));
    assert_eq!(io_outcome(-1), Err(-1));
}

#[test]
fn path_gets_terminated() {
    assert_eq!(path_with_nul(b"/tmp/x"), b"/tmp/x\0".to_vec());
    assert_eq!(path_with_nul(b""), vec![0u8]);
}

#[test]
fn channel_handle() {
    assert_eq!(Channel::from_raw(0x1000).as_raw(), 0x1000);
}

fn libc_ecanceled() -> i32 {
    125
}
