use io_uring::register::Probe;
use io_uring::register::ProbeOp;
use io_uring::squeue::{Entry, Entry128};
use io_uring::sys;
use io_uring::types::{CancelBuilder, Fd, Fixed, Target, Timespec};
use std::alloc::Layout;
use std::time::Duration;

#[test]
fn test_probe_layout() {
    let probe = Probe::new();
    assert_eq!(
        Layout::new::<sys::IoUringProbe>().size() + std::mem::size_of::<ProbeOp>() * 256,
        Layout::for_value(&probe).size()
    );
    assert_eq!(Layout::new::<sys::IoUringProbe>().align(), Layout::for_value(&probe).align());
}

#[test]
fn test_entry_sizes() {
    assert_eq!(std::mem::size_of::<Entry>(), 64);
    assert_eq!(std::mem::size_of::<Entry128>(), 128);
}

#[test]
fn timespec_from_duration_converts_correctly() {
    let duration = Duration::new(2, 500);
    let timespec = Timespec::from(duration);

    assert_eq!(timespec.tv_sec() as u64, duration.as_secs());
    assert_eq!(timespec.tv_nsec() as u32, duration.subsec_nanos());
}

#[test]
fn test_cancel_builder_flags() {
    let cb = CancelBuilder::any();
    assert_eq!(cb.flags(), sys::IORING_ASYNC_CANCEL_ANY);

    let mut cb = CancelBuilder::user_data(42);
    assert_eq!(cb.flags(), 0);
    assert_eq!(cb.target_user_data(), Some(42));
    assert!(cb.target_fd().is_none());
    cb = cb.all();
    assert_eq!(cb.flags(), sys::IORING_ASYNC_CANCEL_ALL);

    let mut cb = CancelBuilder::fd(Fd(42));
    assert_eq!(cb.flags(), sys::IORING_ASYNC_CANCEL_FD);
    assert!(matches!(cb.target_fd(), Some(Target::Fd(42))));
    assert!(cb.target_user_data().is_none());
    cb = cb.all();
    assert_eq!(cb.flags(), sys::IORING_ASYNC_CANCEL_FD | sys::IORING_ASYNC_CANCEL_ALL);

    let mut cb = CancelBuilder::fd(Fixed(42));
    assert_eq!(cb.flags(), sys::IORING_ASYNC_CANCEL_FD | sys::IORING_ASYNC_CANCEL_FD_FIXED);
    assert!(matches!(cb.target_fd(), Some(Target::Fixed(42))));
    assert!(cb.target_user_data().is_none());
    cb = cb.all();
    assert_eq!(
        cb.flags(),
        sys::IORING_ASYNC_CANCEL_FD | sys::IORING_ASYNC_CANCEL_FD_FIXED | sys::IORING_ASYNC_CANCEL_ALL
    );
}
