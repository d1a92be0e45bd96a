//! Streams, dealers and routers over the boundary.
//!
//! A *stream* hands items out, a *dealer* is a stream that also takes items in, and a
//! *router* is a dealer whose items carry the peer that they come from or go to. Each
//! operation on the far side is a call that answers with a value of stable layout:
//! these functions make the answers out of how an operation ended, and read them back.

use crate::auto::Auto;
use abi_stable::std_types::{ROption, RResult, Tuple2};
use async_ffi::FfiPoll as AsyncFfiPoll;
use std::task::Poll;
use vstd::prelude::*;

verus! {

/// How the sending of an item started on the far side.
pub enum Started<E> {
    Accepted,
    Failed(E),
    Panicked,
}

/// The error of a send function that panicked on the far side.
pub struct StartPanicked;

impl<E> Started<E> {
    /// The result of the send function, or the error where it panicked.
    pub fn try_into_result(self) -> (result: Result<Result<(), E>, StartPanicked>)
        ensures
            match self {
                Started::Accepted => result == Ok::<Result<(), E>, StartPanicked>(Ok(())),
                Started::Failed(error) => result == Ok::<Result<(), E>, StartPanicked>(Err(error)),
                Started::Panicked => result is Err,
            },
    {
        match self {
            Started::Accepted => Ok(Ok(())),
            Started::Failed(error) => Ok(Err(error)),
            Started::Panicked => Err(StartPanicked),
        }
    }
}

impl<T, U: Auto<T>> Auto<Result<(), T>> for Started<U> {
    open spec fn auto_requires(self) -> bool {
        &&& self !is Panicked
        &&& self matches Started::Failed(error) ==> error.auto_requires()
    }

    open spec fn auto_spec(self) -> Result<(), T> {
        match self {
            Started::Accepted => Ok(()),
            Started::Failed(error) => Err(error.auto_spec()),
            Started::Panicked => arbitrary(),
        }
    }

    fn auto(self) -> (result: Result<(), T>) {
        match self.try_into_result() {
            Ok(result) => match result {
                Ok(()) => Ok(()),
                Err(error) => Err(error.auto()),
            },
            Err(_) => vstd::pervasive::unreached(),
        }
    }
}

/// The answer of stable layout to a request for the next item that ended in `outcome`.
pub open spec fn next_answer_of<T, P>(outcome: Result<Poll<Option<T>>, P>) -> AsyncFfiPoll<
    ROption<T>,
> {
    match outcome {
        Ok(Poll::Ready(Some(item))) => AsyncFfiPoll::Ready(ROption::RSome(item)),
        Ok(Poll::Ready(None)) => AsyncFfiPoll::Ready(ROption::RNone),
        Ok(Poll::Pending) => AsyncFfiPoll::Pending,
        Err(_) => AsyncFfiPoll::Panicked,
    }
}

/// The poll result that an answer to a request for the next item stands for.
pub open spec fn next_poll_of<T>(answer: AsyncFfiPoll<ROption<T>>) -> Option<Poll<Option<T>>> {
    match answer {
        AsyncFfiPoll::Ready(ROption::RSome(item)) => Some(Poll::Ready(Some(item))),
        AsyncFfiPoll::Ready(ROption::RNone) => Some(Poll::Ready(None)),
        AsyncFfiPoll::Pending => Some(Poll::Pending),
        AsyncFfiPoll::Panicked => None,
    }
}

/// The answer of stable layout to a request to get ready, to flush or to close that
/// ended in `outcome`.
pub open spec fn sink_answer_of<E, P>(outcome: Result<Poll<Result<(), E>>, P>) -> AsyncFfiPoll<
    RResult<(), E>,
> {
    match outcome {
        Ok(Poll::Ready(Ok(done))) => AsyncFfiPoll::Ready(RResult::ROk(done)),
        Ok(Poll::Ready(Err(error))) => AsyncFfiPoll::Ready(RResult::RErr(error)),
        Ok(Poll::Pending) => AsyncFfiPoll::Pending,
        Err(_) => AsyncFfiPoll::Panicked,
    }
}

/// The poll result that an answer to a request to get ready, to flush or to close
/// stands for.
pub open spec fn sink_poll_of<E>(answer: AsyncFfiPoll<RResult<(), E>>) -> Option<
    Poll<Result<(), E>>,
> {
    match answer {
        AsyncFfiPoll::Ready(RResult::ROk(done)) => Some(Poll::Ready(Ok(done))),
        AsyncFfiPoll::Ready(RResult::RErr(error)) => Some(Poll::Ready(Err(error))),
        AsyncFfiPoll::Pending => Some(Poll::Pending),
        AsyncFfiPoll::Panicked => None,
    }
}

/// The answer to a request to send an item that ended in `outcome`.
pub open spec fn start_answer_of<E, P>(outcome: Result<Result<(), E>, P>) -> Started<E> {
    match outcome {
        Ok(Ok(_)) => Started::Accepted,
        Ok(Err(error)) => Started::Failed(error),
        Err(_) => Started::Panicked,
    }
}

/// The result that an answer to a request to send an item stands for.
pub open spec fn start_result_of<E>(answer: Started<E>) -> Option<Result<(), E>> {
    match answer {
        Started::Accepted => Some(Ok(())),
        Started::Failed(error) => Some(Err(error)),
        Started::Panicked => None,
    }
}

/// What the next item of a dealer becomes for the way over the boundary.
pub open spec fn dealer_item_of<In, E>(poll: Poll<Option<Result<In, E>>>) -> Poll<
    Option<RResult<In, E>>,
> {
    match poll {
        Poll::Ready(Some(Ok(item))) => Poll::Ready(Some(RResult::ROk(item))),
        Poll::Ready(Some(Err(error))) => Poll::Ready(Some(RResult::RErr(error))),
        Poll::Ready(None) => Poll::Ready(None),
        Poll::Pending => Poll::Pending,
    }
}

/// What the next item of a router becomes for the way over the boundary.
pub open spec fn router_item_of<K, M, E>(poll: Poll<Option<Result<(K, M), E>>>) -> Poll<
    Option<RResult<Tuple2<K, M>, E>>,
> {
    match poll {
        Poll::Ready(Some(Ok(item))) => Poll::Ready(Some(RResult::ROk(Tuple2(item.0, item.1)))),
        Poll::Ready(Some(Err(error))) => Poll::Ready(Some(RResult::RErr(error))),
        Poll::Ready(None) => Poll::Ready(None),
        Poll::Pending => Poll::Pending,
    }
}

/// The next item of a dealer that came over the boundary as `item`.
pub open spec fn dealer_poll_of<In, E>(item: Poll<Option<RResult<In, E>>>) -> Poll<
    Option<Result<In, E>>,
> {
    match item {
        Poll::Ready(Some(RResult::ROk(item))) => Poll::Ready(Some(Ok(item))),
        Poll::Ready(Some(RResult::RErr(error))) => Poll::Ready(Some(Err(error))),
        Poll::Ready(None) => Poll::Ready(None),
        Poll::Pending => Poll::Pending,
    }
}

/// The next item of a router that came over the boundary as `item`.
pub open spec fn router_poll_of<K, M, E>(item: Poll<Option<RResult<Tuple2<K, M>, E>>>) -> Poll<
    Option<Result<(K, M), E>>,
> {
    match item {
        Poll::Ready(Some(RResult::ROk(item))) => Poll::Ready(Some(Ok((item.0, item.1)))),
        Poll::Ready(Some(RResult::RErr(error))) => Poll::Ready(Some(Err(error))),
        Poll::Ready(None) => Poll::Ready(None),
        Poll::Pending => Poll::Pending,
    }
}

/// The answer to a request for the next item, given how the request ended: with a poll
/// result, or with a caught panic, whose payload is dropped.
pub fn next_answer<T, P>(outcome: Result<Poll<Option<T>>, P>) -> (answer: AsyncFfiPoll<ROption<T>>)
    ensures
        answer == next_answer_of(outcome),
{
    match outcome {
        Ok(poll) => poll.auto(),
        Err(_) => AsyncFfiPoll::Panicked,
    }
}

/// The answer to a request to get ready, to flush or to close, given how the request
/// ended: with a poll result, or with a caught panic, whose payload is dropped.
pub fn sink_answer<E, P>(outcome: Result<Poll<Result<(), E>>, P>) -> (answer: AsyncFfiPoll<
    RResult<(), E>,
>)
    ensures
        answer == sink_answer_of(outcome),
{
    match outcome {
        Ok(poll) => poll.auto(),
        Err(_) => AsyncFfiPoll::Panicked,
    }
}

/// The answer to a request to send an item, given how the request ended: with a result,
/// or with a caught panic, whose payload is dropped.
pub fn start_answer<E, P>(outcome: Result<Result<(), E>, P>) -> (answer: Started<E>)
    ensures
        answer == start_answer_of(outcome),
{
    match outcome {
        Ok(Ok(())) => Started::Accepted,
        Ok(Err(error)) => Started::Failed(error),
        Err(_) => Started::Panicked,
    }
}

/// Reads the answer to a request for the next item. The far side must not have panicked.
pub fn next_poll<T>(answer: AsyncFfiPoll<ROption<T>>) -> (poll: Poll<Option<T>>)
    requires
        answer !is Panicked,
    ensures
        next_poll_of(answer) == Some(poll),
{
    answer.auto()
}

/// Reads the answer to a request to get ready, to flush or to close. The far side must
/// not have panicked.
pub fn sink_poll<E>(answer: AsyncFfiPoll<RResult<(), E>>) -> (poll: Poll<Result<(), E>>)
    requires
        answer !is Panicked,
    ensures
        sink_poll_of(answer) == Some(poll),
{
    answer.auto()
}

/// Reads the answer to a request to send an item. The far side must not have panicked.
pub fn start_result<E>(answer: Started<E>) -> (result: Result<(), E>)
    requires
        answer !is Panicked,
    ensures
        start_result_of(answer) == Some(result),
{
    answer.auto()
}

/// Prepares the next item of a dealer for the way over the boundary.
pub fn dealer_item<In, E>(poll: Poll<Option<Result<In, E>>>) -> (item: Poll<Option<RResult<In, E>>>)
    ensures
        item == dealer_item_of(poll),
{
    poll.auto()
}

/// The next item of a dealer, as it came over the boundary.
pub fn dealer_next<In, E>(item: Poll<Option<RResult<In, E>>>) -> (poll: Poll<Option<Result<In, E>>>)
    ensures
        poll == dealer_poll_of(item),
{
    item.auto()
}

/// Prepares the next item of a router for the way over the boundary.
pub fn router_item<K, M, E>(poll: Poll<Option<Result<(K, M), E>>>) -> (item: Poll<
    Option<RResult<Tuple2<K, M>, E>>,
>)
    ensures
        item == router_item_of(poll),
{
    poll.auto()
}

/// The next item of a router, as it came over the boundary.
pub fn router_next<K, M, E>(item: Poll<Option<RResult<Tuple2<K, M>, E>>>) -> (poll: Poll<
    Option<Result<(K, M), E>>,
>)
    ensures
        poll == router_poll_of(item),
{
    item.auto()
}

/// A stream that is also a sink: where to go for its items, and the functions of the far
/// side that get ready, send, flush and close.
///
/// `S` is the stream, `P` a function that is polled, and `B` the function that begins to
/// send an item.
pub struct LocalBorrowingFfiDealer<S, P, B> {
    stream: S,
    close_fn: P,
    start_fn: B,
    flush_fn: P,
    ready_fn: P,
}

impl<S, P: Copy, B: Copy> LocalBorrowingFfiDealer<S, P, B> {
    pub closed spec fn stream(self) -> S {
        self.stream
    }

    pub closed spec fn ready(self) -> P {
        self.ready_fn
    }

    pub closed spec fn start(self) -> B {
        self.start_fn
    }

    pub closed spec fn flush(self) -> P {
        self.flush_fn
    }

    pub closed spec fn close(self) -> P {
        self.close_fn
    }

    /// A dealer over the given functions.
    pub fn from_fns(stream: S, ready_fn: P, start_fn: B, flush_fn: P, close_fn: P) -> (dealer: Self)
        ensures
            dealer.stream() == stream,
            dealer.ready() == ready_fn,
            dealer.start() == start_fn,
            dealer.flush() == flush_fn,
            dealer.close() == close_fn,
    {
        LocalBorrowingFfiDealer { stream, ready_fn, start_fn, flush_fn, close_fn }
    }

    /// The function that gets ready for an item.
    pub fn ready_fn(&self) -> (function: P)
        ensures
            function == self.ready(),
    {
        self.ready_fn
    }

    /// The function that begins to send an item.
    pub fn start_fn(&self) -> (function: B)
        ensures
            function == self.start(),
    {
        self.start_fn
    }

    /// The function that flushes.
    pub fn flush_fn(&self) -> (function: P)
        ensures
            function == self.flush(),
    {
        self.flush_fn
    }

    /// The function that closes.
    pub fn close_fn(&self) -> (function: P)
        ensures
            function == self.close(),
    {
        self.close_fn
    }

    /// The stream alone.
    pub fn into_stream(self) -> (stream: S)
        ensures
            stream == self.stream(),
    {
        self.stream
    }
}

/// Whom a request for one peer goes to.
pub enum RouteTarget<F> {
    /// A function of the far side that is told the peer.
    Route(F),
    /// The dealer, for all peers at once.
    Any,
}

/// Whom a request for one peer goes to, given the function for one peer.
pub open spec fn target_of<F>(function: Option<F>) -> RouteTarget<F> {
    match function {
        Some(function) => RouteTarget::Route(function),
        None => RouteTarget::Any,
    }
}

/// A dealer whose items carry a peer. One that *routes* can get ready and flush for each
/// peer apart; one that does not treats all peers as one.
///
/// `D` is the dealer, and `F` a function that is polled for one peer.
pub struct LocalBorrowingFfiRouter<D, F> {
    dealer: D,
    is_routing: bool,
    ready_fn: Option<F>,
    flush_fn: Option<F>,
    close_fn: Option<F>,
}

impl<D, F: Copy> LocalBorrowingFfiRouter<D, F> {
    pub closed spec fn dealer(self) -> D {
        self.dealer
    }

    pub closed spec fn routing(self) -> bool {
        self.is_routing
    }

    pub closed spec fn ready(self) -> Option<F> {
        self.ready_fn
    }

    pub closed spec fn flush(self) -> Option<F> {
        self.flush_fn
    }

    pub closed spec fn close(self) -> Option<F> {
        self.close_fn
    }

    /// The functions for one peer are there if and only if the router routes.
    pub open spec fn consistent(self) -> bool {
        &&& self.ready() is Some <==> self.routing()
        &&& self.flush() is Some <==> self.routing()
        &&& self.close() is Some <==> self.routing()
    }

    /// A router over the given functions, which are left out where it does not route.
    /// The function that flushes one peer also stands in the place for closing one.
    pub fn from_fns(dealer: D, is_routing: bool, ready_fn: F, flush_fn: F) -> (router: Self)
        ensures
            router.dealer() == dealer,
            router.routing() == is_routing,
            router.consistent(),
            is_routing ==> {
                &&& router.ready() == Some(ready_fn)
                &&& router.flush() == Some(flush_fn)
                &&& router.close() == Some(flush_fn)
            },
    {
        if is_routing {
            LocalBorrowingFfiRouter {
                dealer,
                is_routing,
                ready_fn: Some(ready_fn),
                flush_fn: Some(flush_fn),
                close_fn: Some(flush_fn),
            }
        } else {
            LocalBorrowingFfiRouter {
                dealer,
                is_routing,
                ready_fn: None,
                flush_fn: None,
                close_fn: None,
            }
        }
    }

    /// The router that is made of the given parts.
    pub fn from_parts(
        dealer: D,
        is_routing: bool,
        ready_fn: Option<F>,
        flush_fn: Option<F>,
        close_fn: Option<F>,
    ) -> (router: Self)
        ensures
            router.dealer() == dealer,
            router.routing() == is_routing,
            router.ready() == ready_fn,
            router.flush() == flush_fn,
            router.close() == close_fn,
    {
        LocalBorrowingFfiRouter { dealer, is_routing, ready_fn, flush_fn, close_fn }
    }

    /// The parts of which the router is made.
    pub fn into_parts(self) -> (parts: (D, bool, Option<F>, Option<F>, Option<F>))
        ensures
            parts == (self.dealer(), self.routing(), self.ready(), self.flush(), self.close()),
    {
        (self.dealer, self.is_routing, self.ready_fn, self.flush_fn, self.close_fn)
    }

    /// The router that treats all peers of a dealer as one.
    pub fn from_dealer(dealer: D) -> (router: Self)
        ensures
            router.dealer() == dealer,
            !router.routing(),
            router.consistent(),
    {
        LocalBorrowingFfiRouter {
            dealer,
            is_routing: false,
            ready_fn: None,
            flush_fn: None,
            close_fn: None,
        }
    }

    /// The dealer alone. Only a router that does not route can be one.
    pub fn into_dealer(self) -> (dealer: D)
        requires
            !self.routing(),
            self.ready() is None,
            self.flush() is None,
        ensures
            dealer == self.dealer(),
    {
        self.dealer
    }

    /// Whether the dealer alone would do.
    pub fn is_dealer(&self) -> (result: bool)
        ensures
            result == (!self.routing() && self.ready() is None && self.flush() is None),
    {
        !self.is_routing && self.ready_fn.is_none() && self.flush_fn.is_none()
    }

    /// Whom a request to get ready for one peer goes to.
    pub fn poll_ready(&self) -> (target: RouteTarget<F>)
        ensures
            target == target_of(self.ready()),
    {
        match self.ready_fn {
            Some(function) => RouteTarget::Route(function),
            None => RouteTarget::Any,
        }
    }

    /// Whom a request to flush what was sent to one peer goes to.
    pub fn poll_flush(&self) -> (target: RouteTarget<F>)
        ensures
            target == target_of(self.flush()),
    {
        match self.flush_fn {
            Some(function) => RouteTarget::Route(function),
            None => RouteTarget::Any,
        }
    }

    /// Whether the router routes.
    pub fn is_routing(&self) -> (result: bool)
        ensures
            result == self.routing(),
    {
        self.is_routing
    }
}

/// A stream over the boundary gives the items that the stream behind it gives: each poll
/// result comes back unchanged, and what comes back as a panic was one.
pub proof fn next_crosses_unchanged<T, P>(outcome: Result<Poll<Option<T>>, P>)
    ensures
        match outcome {
            Ok(poll) => next_poll_of(next_answer_of(outcome)) == Some(poll),
            Err(_) => next_poll_of(next_answer_of(outcome)) is None,
        },
{
}

/// A dealer over the boundary gives the items and errors that the dealer behind it gives.
pub proof fn dealer_items_cross_unchanged<In, E, P>(poll: Poll<Option<Result<In, E>>>)
    ensures
        next_poll_of(next_answer_of::<_, P>(Ok(dealer_item_of(poll)))) matches Some(item)
            && dealer_poll_of(item) == poll,
{
}

/// A router over the boundary gives the items, peers and errors that the router behind it
/// gives.
pub proof fn router_items_cross_unchanged<K, M, E, P>(poll: Poll<Option<Result<(K, M), E>>>)
    ensures
        next_poll_of(next_answer_of::<_, P>(Ok(router_item_of(poll)))) matches Some(item)
            && router_poll_of(item) == poll,
{
}

/// Getting ready, flushing and closing over the boundary come to what they come to behind
/// it, and what comes back as a panic was one.
pub proof fn sink_polls_cross_unchanged<E, P>(outcome: Result<Poll<Result<(), E>>, P>)
    ensures
        match outcome {
            Ok(poll) => sink_poll_of(sink_answer_of(outcome)) == Some(poll),
            Err(_) => sink_poll_of(sink_answer_of(outcome)) is None,
        },
{
}

/// Sending an item over the boundary comes to what it comes to behind it, and what comes
/// back as a panic was one.
pub proof fn sends_cross_unchanged<E, P>(outcome: Result<Result<(), E>, P>)
    ensures
        match outcome {
            Ok(result) => start_result_of(start_answer_of(outcome)) == Some(result),
            Err(_) => start_result_of(start_answer_of(outcome)) is None,
        },
{
    if let Ok(Ok(done)) = outcome {
        assert(done == ());
    }
}

/// A router sends a request for one peer to that peer's own function if and only if it
/// routes, and one that does not can be turned back into its dealer.
pub proof fn peers_are_apart_where_routed<D, F: Copy>(router: LocalBorrowingFfiRouter<D, F>)
    requires
        router.consistent(),
    ensures
        target_of(router.ready()) is Route <==> router.routing(),
        target_of(router.flush()) is Route <==> router.routing(),
        !router.routing() ==> router.ready() is None && router.flush() is None,
{
}

/// The answer to a request for the next item tells apart an item, the end, none yet and a panic,
/// each from how the request ended, and carries the item.
pub proof fn a_next_answer_tells_how_the_request_ended<T, P>(
    outcome: Result<Poll<Option<T>>, P>,
    answer: AsyncFfiPoll<ROption<T>>,
    item: T,
)
    requires
        call_ensures(next_answer::<T, P>, (outcome,), answer),
    ensures
        answer is Panicked <==> outcome is Err,
        answer is Pending <==> outcome == Ok::<Poll<Option<T>>, P>(Poll::Pending),
        answer == AsyncFfiPoll::Ready(ROption::<T>::RNone) <==> outcome == Ok::<
            Poll<Option<T>>,
            P,
        >(Poll::Ready(None)),
        answer == AsyncFfiPoll::Ready(ROption::RSome(item)) <==> outcome == Ok::<
            Poll<Option<T>>,
            P,
        >(Poll::Ready(Some(item))),
{
}

/// An answer to a request for the next item reads as an item where it carries one, as the end
/// where it tells the end, and as none yet where it tells so. Any answer but a panic can be read.
pub proof fn a_next_answer_is_read_as_it_is<T>(
    answer: AsyncFfiPoll<ROption<T>>,
    poll: Poll<Option<T>>,
    item: T,
)
    requires
        answer !is Panicked,
        call_ensures(next_poll::<T>, (answer,), poll),
    ensures
        call_requires(next_poll::<T>, (answer,)),
        poll is Pending <==> answer is Pending,
        poll == Poll::Ready(None::<T>) <==> answer == AsyncFfiPoll::Ready(ROption::<T>::RNone),
        poll == Poll::Ready(Some(item)) <==> answer == AsyncFfiPoll::Ready(ROption::RSome(item)),
{
}

/// The answer to a request to get ready, to flush or to close tells apart done, an error, not
/// yet and a panic, each from how the request ended, and carries the error.
pub proof fn a_sink_answer_tells_how_the_request_ended<E, P>(
    outcome: Result<Poll<Result<(), E>>, P>,
    answer: AsyncFfiPoll<RResult<(), E>>,
    error: E,
)
    requires
        call_ensures(sink_answer::<E, P>, (outcome,), answer),
    ensures
        answer is Panicked <==> outcome is Err,
        answer is Pending <==> outcome == Ok::<Poll<Result<(), E>>, P>(Poll::Pending),
        answer == AsyncFfiPoll::Ready(RResult::<(), E>::ROk(())) <==> outcome == Ok::<
            Poll<Result<(), E>>,
            P,
        >(Poll::Ready(Ok(()))),
        answer == AsyncFfiPoll::Ready(RResult::<(), E>::RErr(error)) <==> outcome == Ok::<
            Poll<Result<(), E>>,
            P,
        >(Poll::Ready(Err(error))),
{
}

/// An answer to a request to get ready, to flush or to close reads as done, as its error or as
/// not yet, where it tells so. Any answer but a panic can be read.
pub proof fn a_sink_answer_is_read_as_it_is<E>(
    answer: AsyncFfiPoll<RResult<(), E>>,
    poll: Poll<Result<(), E>>,
    error: E,
)
    requires
        answer !is Panicked,
        call_ensures(sink_poll::<E>, (answer,), poll),
    ensures
        call_requires(sink_poll::<E>, (answer,)),
        poll is Pending <==> answer is Pending,
        poll == Poll::Ready(Ok::<(), E>(())) <==> answer == AsyncFfiPoll::Ready(
            RResult::<(), E>::ROk(()),
        ),
        poll == Poll::Ready(Err::<(), E>(error)) <==> answer == AsyncFfiPoll::Ready(
            RResult::<(), E>::RErr(error),
        ),
{
}

/// The answer to a request to send an item tells apart accepted, failed and a panic, each from
/// how the request ended, and carries the error.
pub proof fn a_start_answer_tells_how_the_request_ended<E, P>(
    outcome: Result<Result<(), E>, P>,
    answer: Started<E>,
)
    requires
        call_ensures(start_answer::<E, P>, (outcome,), answer),
    ensures
        answer is Panicked <==> outcome is Err,
        answer is Accepted <==> outcome is Ok && outcome->Ok_0 is Ok,
        answer is Failed <==> outcome is Ok && outcome->Ok_0 is Err,
        answer is Failed ==> answer->Failed_0 == outcome->Ok_0->Err_0,
{
}

/// An answer to a request to send an item reads as success where the item was accepted, and as
/// its error where it failed. Any answer but a panic can be read, and a panic is told from both.
pub proof fn a_start_answer_is_read_as_it_is<E>(
    answer: Started<E>,
    result: Result<(), E>,
    tried: Result<Result<(), E>, StartPanicked>,
)
    requires
        answer !is Panicked ==> call_ensures(start_result::<E>, (answer,), result),
        call_ensures(Started::<E>::try_into_result, (answer,), tried),
    ensures
        answer !is Panicked ==> call_requires(start_result::<E>, (answer,)),
        answer is Accepted ==> result is Ok,
        answer is Failed ==> result is Err && result->Err_0 == answer->Failed_0,
        tried is Err <==> answer is Panicked,
        tried is Ok && tried->Ok_0 is Ok <==> answer is Accepted,
        tried is Ok && tried->Ok_0 is Err <==> answer is Failed,
        answer is Failed ==> tried->Ok_0->Err_0 == answer->Failed_0,
{
}

/// What starting to send became converts as it is read, with its error converted.
pub proof fn a_start_converts_as_it_is_read<T, U: Auto<T>>(answer: Started<U>, result: Result<(), T>)
    requires
        answer !is Panicked,
        call_ensures(<Started<U> as Auto<Result<(), T>>>::auto, (answer,), result),
    ensures
        result is Ok <==> answer is Accepted,
        result is Err <==> answer is Failed,
        result is Err ==> result->Err_0 == answer->Failed_0.auto_spec(),
        answer is Accepted ==> <Started<U> as Auto<Result<(), T>>>::auto_requires(answer),
{
}

/// Preparing an item of a dealer or of a stream with errors changes its layout only: there is an
/// item, an error, the end or none yet in what is prepared if and only if there is in what the
/// stream gave, with the same item or error.
pub proof fn a_dealer_item_is_prepared_as_it_is<In, E>(
    poll: Poll<Option<Result<In, E>>>,
    item: Poll<Option<RResult<In, E>>>,
    value: In,
    error: E,
)
    requires
        call_ensures(dealer_item::<In, E>, (poll,), item),
    ensures
        item is Pending <==> poll is Pending,
        item == Poll::Ready(None::<RResult<In, E>>) <==> poll == Poll::Ready(None::<Result<In, E>>),
        item == Poll::Ready(Some(RResult::<In, E>::ROk(value))) <==> poll == Poll::Ready(Some(Result::<In, E>::Ok(value))),
        item == Poll::Ready(Some(RResult::<In, E>::RErr(error))) <==> poll == Poll::Ready(
            Some(Result::<In, E>::Err(error)),
        ),
{
}

/// An item of a dealer reads as what was prepared: an item, an error, the end or none yet if and
/// only if that came over, with the same item or error.
pub proof fn a_dealer_item_is_read_as_it_is<In, E>(
    item: Poll<Option<RResult<In, E>>>,
    poll: Poll<Option<Result<In, E>>>,
    value: In,
    error: E,
)
    requires
        call_ensures(dealer_next::<In, E>, (item,), poll),
    ensures
        poll is Pending <==> item is Pending,
        poll == Poll::Ready(None::<Result<In, E>>) <==> item == Poll::Ready(None::<RResult<In, E>>),
        poll == Poll::Ready(Some(Result::<In, E>::Ok(value))) <==> item == Poll::Ready(Some(RResult::<In, E>::ROk(value))),
        poll == Poll::Ready(Some(Result::<In, E>::Err(error))) <==> item == Poll::Ready(
            Some(RResult::<In, E>::RErr(error)),
        ),
{
}

/// Preparing an item of a router changes its layout only: there is an
/// item, an error, the end or none yet in what is prepared if and only if there is in what the
/// stream gave, with the same peer, message or error.
pub proof fn a_router_item_is_prepared_as_it_is<K, M, E>(
    poll: Poll<Option<Result<(K, M), E>>>,
    item: Poll<Option<RResult<Tuple2<K, M>, E>>>,
    peer: K,
    message: M,
    error: E,
)
    requires
        call_ensures(router_item::<K, M, E>, (poll,), item),
    ensures
        item is Pending <==> poll is Pending,
        item == Poll::Ready(None::<RResult<Tuple2<K, M>, E>>) <==> poll == Poll::Ready(None::<Result<(K, M), E>>),
        item == Poll::Ready(Some(RResult::<Tuple2<K, M>, E>::ROk(
            Tuple2(peer, message),
        ))) <==> poll == Poll::Ready(Some(Result::<(K, M), E>::Ok((peer, message)))),
        item == Poll::Ready(Some(RResult::<Tuple2<K, M>, E>::RErr(error))) <==> poll == Poll::Ready(
            Some(Result::<(K, M), E>::Err(error)),
        ),
{
}

/// An item of a router reads as what was prepared: an item, an error, the end or none yet if and
/// only if that came over, with the same peer, message or error.
pub proof fn a_router_item_is_read_as_it_is<K, M, E>(
    item: Poll<Option<RResult<Tuple2<K, M>, E>>>,
    poll: Poll<Option<Result<(K, M), E>>>,
    peer: K,
    message: M,
    error: E,
)
    requires
        call_ensures(router_next::<K, M, E>, (item,), poll),
    ensures
        poll is Pending <==> item is Pending,
        poll == Poll::Ready(None::<Result<(K, M), E>>) <==> item == Poll::Ready(None::<RResult<Tuple2<K, M>, E>>),
        poll == Poll::Ready(Some(Result::<(K, M), E>::Ok((peer, message)))) <==> item == Poll::Ready(Some(RResult::<Tuple2<K, M>, E>::ROk(
            Tuple2(peer, message),
        ))),
        poll == Poll::Ready(Some(Result::<(K, M), E>::Err(error))) <==> item == Poll::Ready(
            Some(RResult::<Tuple2<K, M>, E>::RErr(error)),
        ),
{
}

/// A dealer reaches each function of the far side under its own name: what is asked for by the
/// name under which a function was given is that function, and the stream is the one given.
pub proof fn a_dealer_reaches_each_function<S, P: Copy, B: Copy>(
    stream: S,
    ready_fn: P,
    start_fn: B,
    flush_fn: P,
    close_fn: P,
    dealer: LocalBorrowingFfiDealer<S, P, B>,
    ready: P,
    start: B,
    flush: P,
    close: P,
    alone: S,
)
    requires
        call_ensures(
            LocalBorrowingFfiDealer::<S, P, B>::from_fns,
            (stream, ready_fn, start_fn, flush_fn, close_fn),
            dealer,
        ),
        call_ensures(LocalBorrowingFfiDealer::<S, P, B>::ready_fn, (&dealer,), ready),
        call_ensures(LocalBorrowingFfiDealer::<S, P, B>::start_fn, (&dealer,), start),
        call_ensures(LocalBorrowingFfiDealer::<S, P, B>::flush_fn, (&dealer,), flush),
        call_ensures(LocalBorrowingFfiDealer::<S, P, B>::close_fn, (&dealer,), close),
        call_ensures(LocalBorrowingFfiDealer::<S, P, B>::into_stream, (dealer,), alone),
    ensures
        ready == ready_fn,
        start == start_fn,
        flush == flush_fn,
        close == close_fn,
        alone == stream,
{
}

/// A router that is made to route sends a request for one peer to the function given for that
/// request, and one that is not sends it to all peers; it tells which of the two it is, and it
/// can be turned back into its dealer exactly where it does not route.
pub proof fn a_router_reaches_each_function<D, F: Copy>(
    dealer: D,
    routes: bool,
    ready_fn: F,
    flush_fn: F,
    router: LocalBorrowingFfiRouter<D, F>,
    ready: RouteTarget<F>,
    flush: RouteTarget<F>,
    is_routing: bool,
    is_dealer: bool,
    alone: D,
)
    requires
        call_ensures(
            LocalBorrowingFfiRouter::<D, F>::from_fns,
            (dealer, routes, ready_fn, flush_fn),
            router,
        ),
        call_ensures(LocalBorrowingFfiRouter::<D, F>::poll_ready, (&router,), ready),
        call_ensures(LocalBorrowingFfiRouter::<D, F>::poll_flush, (&router,), flush),
        call_ensures(LocalBorrowingFfiRouter::<D, F>::is_routing, (&router,), is_routing),
        call_ensures(LocalBorrowingFfiRouter::<D, F>::is_dealer, (&router,), is_dealer),
        !routes ==> call_ensures(LocalBorrowingFfiRouter::<D, F>::into_dealer, (router,), alone),
    ensures
        ready is Route <==> routes,
        flush is Route <==> routes,
        routes ==> ready->Route_0 == ready_fn && flush->Route_0 == flush_fn,
        is_routing == routes,
        is_dealer == !routes,
        !routes ==> call_requires(LocalBorrowingFfiRouter::<D, F>::into_dealer, (router,)),
        !routes ==> alone == dealer,
{
}

/// A dealer that is made a router treats all peers as one, and comes back unchanged.
pub proof fn a_dealer_comes_back_from_a_router<D, F: Copy>(
    dealer: D,
    router: LocalBorrowingFfiRouter<D, F>,
    ready: RouteTarget<F>,
    flush: RouteTarget<F>,
    is_routing: bool,
    is_dealer: bool,
    alone: D,
)
    requires
        call_ensures(LocalBorrowingFfiRouter::<D, F>::from_dealer, (dealer,), router),
        call_ensures(LocalBorrowingFfiRouter::<D, F>::poll_ready, (&router,), ready),
        call_ensures(LocalBorrowingFfiRouter::<D, F>::poll_flush, (&router,), flush),
        call_ensures(LocalBorrowingFfiRouter::<D, F>::is_routing, (&router,), is_routing),
        call_ensures(LocalBorrowingFfiRouter::<D, F>::is_dealer, (&router,), is_dealer),
        call_ensures(LocalBorrowingFfiRouter::<D, F>::into_dealer, (router,), alone),
    ensures
        ready is Any,
        flush is Any,
        !is_routing,
        is_dealer,
        call_requires(LocalBorrowingFfiRouter::<D, F>::into_dealer, (router,)),
        alone == dealer,
{
}

/// A router is what its parts make it: they come back as they were given, a request for one peer
/// goes to the function given for it where there is one, and the dealer alone would do exactly
/// where the router does not route and has neither function.
pub proof fn a_router_is_made_of_its_parts<D, F: Copy>(
    dealer: D,
    routes: bool,
    ready_fn: Option<F>,
    flush_fn: Option<F>,
    close_fn: Option<F>,
    router: LocalBorrowingFfiRouter<D, F>,
    parts: (D, bool, Option<F>, Option<F>, Option<F>),
    ready: RouteTarget<F>,
    flush: RouteTarget<F>,
    is_dealer: bool,
)
    requires
        call_ensures(
            LocalBorrowingFfiRouter::<D, F>::from_parts,
            (dealer, routes, ready_fn, flush_fn, close_fn),
            router,
        ),
        call_ensures(LocalBorrowingFfiRouter::<D, F>::into_parts, (router,), parts),
        call_ensures(LocalBorrowingFfiRouter::<D, F>::poll_ready, (&router,), ready),
        call_ensures(LocalBorrowingFfiRouter::<D, F>::poll_flush, (&router,), flush),
        call_ensures(LocalBorrowingFfiRouter::<D, F>::is_dealer, (&router,), is_dealer),
    ensures
        parts == (dealer, routes, ready_fn, flush_fn, close_fn),
        ready is Route <==> ready_fn is Some,
        ready is Route ==> ready->Route_0 == ready_fn->Some_0,
        flush is Route <==> flush_fn is Some,
        flush is Route ==> flush->Route_0 == flush_fn->Some_0,
        is_dealer <==> !routes && ready_fn is None && flush_fn is None,
{
}

/// The parts of a router that is made to route hold the function that flushes one peer in the
/// place for closing one too, and those of one that is not hold no function.
pub proof fn a_router_holds_the_functions_given<D, F: Copy>(
    dealer: D,
    routes: bool,
    ready_fn: F,
    flush_fn: F,
    router: LocalBorrowingFfiRouter<D, F>,
    parts: (D, bool, Option<F>, Option<F>, Option<F>),
)
    requires
        call_ensures(
            LocalBorrowingFfiRouter::<D, F>::from_fns,
            (dealer, routes, ready_fn, flush_fn),
            router,
        ),
        call_ensures(LocalBorrowingFfiRouter::<D, F>::into_parts, (router,), parts),
    ensures
        parts.0 == dealer,
        parts.1 == routes,
        parts.2 is Some <==> routes,
        parts.3 is Some <==> routes,
        parts.4 is Some <==> routes,
        routes ==> parts.2->Some_0 == ready_fn && parts.3->Some_0 == flush_fn && parts.4->Some_0
            == flush_fn,
{
}

}
