use abi_stable::std_types::{ROption, RResult, Tuple2};
use async_ffi::FfiPoll;
use ruchei_ffi::auto::Auto;
use ruchei_ffi::channel::Started;
use std::task::Poll;

#[test]
fn options_change_their_layout() {
    let r: ROption<u8> = Some(1u8).auto();
    assert_eq!(r, ROption::RSome(1));
    let r: ROption<u8> = None::<u8>.auto();
    assert_eq!(r, ROption::RNone);
    let o: Option<u8> = ROption::RSome(2u8).auto();
    assert_eq!(o, Some(2));
    let o: Option<u8> = ROption::<u8>::RNone.auto();
    assert_eq!(o, None);
}

#[test]
fn results_change_their_layout() {
    let ok: Result<u8, i8> = Ok(1);
    let r: RResult<u8, i8> = ok.auto();
    assert_eq!(r, RResult::ROk(1));
    let err: Result<u8, i8> = Err(-1);
    let r: RResult<u8, i8> = err.auto();
    assert_eq!(r, RResult::RErr(-1));
    let back: Result<u8, i8> = RResult::<u8, i8>::RErr(-2).auto();
    assert_eq!(back, Err(-2));
    let back: Result<u8, i8> = RResult::<u8, i8>::ROk(3).auto();
    assert_eq!(back, Ok(3));
}

#[test]
fn pairs_change_their_layout() {
    let r: Tuple2<u8, i8> = (1u8, -1i8).auto();
    assert_eq!(r, Tuple2(1, -1));
    let pair: (u8, i8) = r.auto();
    assert_eq!(pair, (1, -1));
}

#[test]
fn polls_change_their_layout() {
    let f: FfiPoll<ROption<u8>> = Poll::Ready(Some(4u8)).auto();
    assert!(matches!(f, FfiPoll::Ready(ROption::RSome(4))));
    let p: Poll<Option<u8>> = f.auto();
    assert_eq!(p, Poll::Ready(Some(4)));
    let f: FfiPoll<ROption<u8>> = Poll::<Option<u8>>::Pending.auto();
    assert!(matches!(f, FfiPoll::Pending));
    let p: Poll<Option<u8>> = f.auto();
    assert_eq!(p, Poll::Pending);
}

#[test]
fn nested_values_are_converted() {
    let poll: Poll<Option<Result<(u8, u16), i8>>> = Poll::Ready(Some(Ok((1, 2))));
    let r: Poll<Option<RResult<Tuple2<u8, u16>, i8>>> = poll.auto();
    assert_eq!(r, Poll::Ready(Some(RResult::ROk(Tuple2(1, 2)))));
}

#[test]
fn started_sends_are_results() {
    let ok: Result<(), u8> = Started::<u8>::Accepted.auto();
    assert_eq!(ok, Ok(()));
    let err: Result<(), u8> = Started::Failed(5u8).auto();
    assert_eq!(err, Err(5));
}
