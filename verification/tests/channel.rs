use abi_stable::std_types::{ROption, RResult, Tuple2};
use async_ffi::FfiPoll;
use ruchei_ffi::channel::{
    dealer_item, dealer_next, next_answer, next_poll, router_item, router_next, sink_answer,
    sink_poll, start_answer, start_result, LocalBorrowingFfiDealer, LocalBorrowingFfiRouter,
    RouteTarget, Started,
};
use std::task::Poll;

type Caught<T> = Result<T, &'static str>;

#[test]
fn items_cross() {
    let caught: Caught<Poll<Option<u8>>> = Ok(Poll::Ready(Some(1)));
    let answer = next_answer(caught);
    assert!(matches!(answer, FfiPoll::Ready(ROption::RSome(1))));
    assert_eq!(next_poll(answer), Poll::Ready(Some(1)));
    let caught: Caught<Poll<Option<u8>>> = Ok(Poll::Ready(None));
    assert_eq!(next_poll(next_answer(caught)), Poll::Ready(None));
    let caught: Caught<Poll<Option<u8>>> = Ok(Poll::Pending);
    assert_eq!(next_poll(next_answer(caught)), Poll::Pending);
}

#[test]
fn panics_cross() {
    let next: Caught<Poll<Option<u8>>> = Err("payload");
    assert!(matches!(next_answer(next), FfiPoll::Panicked));
    let sink: Caught<Poll<Result<(), u8>>> = Err("payload");
    assert!(matches!(sink_answer(sink), FfiPoll::Panicked));
    let start: Caught<Result<(), u8>> = Err("payload");
    let answer = start_answer(start);
    assert!(matches!(answer, Started::Panicked));
    assert!(answer.try_into_result().is_err());
}

#[test]
fn sink_polls_cross() {
    let caught: Caught<Poll<Result<(), u8>>> = Ok(Poll::Ready(Ok(())));
    let answer = sink_answer(caught);
    assert!(matches!(answer, FfiPoll::Ready(RResult::ROk(()))));
    assert_eq!(sink_poll(answer), Poll::Ready(Ok(())));
    let caught: Caught<Poll<Result<(), u8>>> = Ok(Poll::Ready(Err(2)));
    assert_eq!(sink_poll(sink_answer(caught)), Poll::Ready(Err(2)));
    let caught: Caught<Poll<Result<(), u8>>> = Ok(Poll::Pending);
    assert_eq!(sink_poll(sink_answer(caught)), Poll::Pending);
}

#[test]
fn sends_cross() {
    let caught: Caught<Result<(), u8>> = Ok(Ok(()));
    assert_eq!(start_result(start_answer(caught)), Ok(()));
    let caught: Caught<Result<(), u8>> = Ok(Err(3));
    let answer = start_answer(caught);
    assert!(matches!(answer, Started::Failed(3)));
    assert_eq!(start_result(answer), Err(3));
    assert!(matches!(Started::<u8>::Accepted.try_into_result(), Ok(Ok(()))));
}

#[test]
fn dealer_items_cross() {
    let poll: Poll<Option<Result<u8, i8>>> = Poll::Ready(Some(Err(-1)));
    let item = dealer_item(poll);
    assert_eq!(item, Poll::Ready(Some(RResult::RErr(-1))));
    assert_eq!(dealer_next(item), poll);
}

#[test]
fn router_items_cross() {
    let poll: Poll<Option<Result<(u8, u16), i8>>> = Poll::Ready(Some(Ok((1, 2))));
    let item = router_item(poll);
    assert_eq!(item, Poll::Ready(Some(RResult::ROk(Tuple2(1, 2)))));
    assert_eq!(router_next(item), poll);
}

#[test]
fn a_dealer_calls_what_it_was_made_of() {
    let dealer = LocalBorrowingFfiDealer::from_fns("stream", 'r', 's', 'f', 'c');
    assert_eq!(dealer.ready_fn(), 'r');
    assert_eq!(dealer.start_fn(), 's');
    assert_eq!(dealer.flush_fn(), 'f');
    assert_eq!(dealer.close_fn(), 'c');
    assert_eq!(dealer.into_stream(), "stream");
}

#[test]
fn a_routing_router_tells_peers_apart() {
    let router = LocalBorrowingFfiRouter::from_fns("dealer", true, 'r', 'f');
    assert!(router.is_routing());
    assert!(!router.is_dealer());
    assert!(matches!(router.poll_ready(), RouteTarget::Route('r')));
    assert!(matches!(router.poll_flush(), RouteTarget::Route('f')));
    assert_eq!(router.into_parts(), ("dealer", true, Some('r'), Some('f'), Some('f')));
}

#[test]
fn a_router_that_does_not_route_is_a_dealer() {
    let router = LocalBorrowingFfiRouter::from_fns("dealer", false, 'r', 'f');
    assert!(!router.is_routing());
    assert!(router.is_dealer());
    assert!(matches!(router.poll_ready(), RouteTarget::Any));
    assert!(matches!(router.poll_flush(), RouteTarget::Any));
    assert_eq!(router.into_dealer(), "dealer");
}

#[test]
fn a_dealer_becomes_a_router_and_back() {
    let router: LocalBorrowingFfiRouter<&str, char> = LocalBorrowingFfiRouter::from_dealer("dealer");
    assert!(router.is_dealer());
    assert_eq!(router.into_dealer(), "dealer");
    let parts = LocalBorrowingFfiRouter::from_parts("dealer", false, Some('r'), None, None);
    assert!(!parts.is_dealer());
    assert!(matches!(parts.poll_ready(), RouteTarget::Route('r')));
}
