use ruchei_ffi::poll::{FfiPoll, ABI_VERSION};
use std::convert::TryFrom;
use std::task::Poll;

#[test]
fn the_layout_has_its_version() {
    assert_eq!(ABI_VERSION, 2);
}

#[test]
fn a_ready_poll_comes_back() {
    let carried = FfiPoll::from_poll(Poll::Ready(7));
    assert!(matches!(carried, FfiPoll::Ready(7)));
    assert!(matches!(carried.try_into_poll(), Ok(Poll::Ready(7))));
}

#[test]
fn a_pending_poll_comes_back() {
    let carried: FfiPoll<u8> = FfiPoll::from(Poll::Pending);
    assert!(matches!(carried, FfiPoll::Pending));
    assert!(matches!(Poll::<u8>::try_from(carried), Ok(Poll::Pending)));
}

#[test]
fn a_panic_comes_back_as_the_error() {
    let carried: FfiPoll<u8> = FfiPoll::from_caught(Err("payload"));
    assert!(matches!(carried, FfiPoll::Panicked));
    let error = match carried.try_into_poll() {
        Ok(_) => panic!("a panic is no poll result"),
        Err(error) => error,
    };
    assert_eq!(error.message(), "FFI poll function panicked");
}

#[test]
fn a_poll_that_ended_is_carried() {
    let ready: FfiPoll<u8> = FfiPoll::from_caught::<()>(Ok(Poll::Ready(3)));
    assert!(matches!(ready, FfiPoll::Ready(3)));
    let pending: FfiPoll<u8> = FfiPoll::from_caught::<()>(Ok(Poll::Pending));
    assert!(matches!(pending, FfiPoll::Pending));
}
