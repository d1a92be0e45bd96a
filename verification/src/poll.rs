//! Poll results that can cross the FFI boundary.

use std::task::Poll;
use vstd::prelude::*;
use vstd::std_specs::convert::{FromSpecImpl, TryFromSpecImpl};

verus! {

/// `std::task::Poll`, with its two variants visible to the proofs.
#[verifier::external_type_specification]
pub struct ExPoll<T>(Poll<T>);

/// Version of the layout of the types that cross the boundary.
pub const ABI_VERSION: u32 = 2;

/// What polling on the far side of the boundary came to: the two results that a
/// poll has, and the panic that may not unwind through the boundary.
pub enum FfiPoll<T> {
    Ready(T),
    Pending,
    Panicked,
}

/// The error of a poll function that panicked on the far side.
#[derive(Debug)]
pub struct PollPanicked {
    _private: (),
}

impl PollPanicked {
    /// The one value of this type.
    pub closed spec fn value() -> Self {
        PollPanicked { _private: () }
    }

    /// The text of the error.
    pub fn message(&self) -> (text: &'static str)
        ensures
            text@ == "FFI poll function panicked"@,
    {
        "FFI poll function panicked"
    }
}

impl<T> FfiPoll<T> {
    /// What carries a poll result.
    pub open spec fn of_poll(poll: Poll<T>) -> Self {
        match poll {
            Poll::Ready(value) => FfiPoll::Ready(value),
            Poll::Pending => FfiPoll::Pending,
        }
    }

    /// What carries the end of a poll function: a poll result, or a panic.
    pub open spec fn of_caught<P>(outcome: Result<Poll<T>, P>) -> Self {
        match outcome {
            Ok(poll) => Self::of_poll(poll),
            Err(_) => FfiPoll::Panicked,
        }
    }

    /// The poll result that is carried, or the error for a panic.
    pub open spec fn poll_result(self) -> Result<Poll<T>, PollPanicked> {
        match self {
            FfiPoll::Ready(value) => Ok(Poll::Ready(value)),
            FfiPoll::Pending => Ok(Poll::Pending),
            FfiPoll::Panicked => Err(PollPanicked::value()),
        }
    }

    /// Carries a poll result as it is.
    pub fn from_poll(poll: Poll<T>) -> (carried: Self)
        ensures
            carried == Self::of_poll(poll),
    {
        match poll {
            Poll::Ready(value) => FfiPoll::Ready(value),
            Poll::Pending => FfiPoll::Pending,
        }
    }

    /// Gives the poll result back, or the error where the far side panicked.
    pub fn try_into_poll(self) -> (result: Result<Poll<T>, PollPanicked>)
        ensures
            result == self.poll_result(),
    {
        match self {
            FfiPoll::Ready(value) => Ok(Poll::Ready(value)),
            FfiPoll::Pending => Ok(Poll::Pending),
            FfiPoll::Panicked => Err(PollPanicked { _private: () }),
        }
    }

    /// What a poll function answers over the boundary, given how its body ended: with
    /// a poll result, or with a caught panic, whose payload is dropped.
    pub fn from_caught<P>(outcome: Result<Poll<T>, P>) -> (carried: Self)
        ensures
            carried == Self::of_caught(outcome),
    {
        match outcome {
            Ok(poll) => Self::from(poll),
            Err(_) => FfiPoll::Panicked,
        }
    }
}

impl<T> From<Poll<T>> for FfiPoll<T> {
    fn from(poll: Poll<T>) -> (carried: Self) {
        Self::from_poll(poll)
    }
}

impl<T> FromSpecImpl<Poll<T>> for FfiPoll<T> {
    open spec fn obeys_from_spec() -> bool {
        true
    }

    open spec fn from_spec(poll: Poll<T>) -> Self {
        Self::of_poll(poll)
    }
}

impl<T> TryFrom<FfiPoll<T>> for Poll<T> {
    type Error = PollPanicked;

    fn try_from(carried: FfiPoll<T>) -> (result: Result<Self, PollPanicked>) {
        carried.try_into_poll()
    }
}

impl<T> TryFromSpecImpl<FfiPoll<T>> for Poll<T> {
    open spec fn obeys_try_from_spec() -> bool {
        true
    }

    open spec fn try_from_spec(carried: FfiPoll<T>) -> Result<Self, PollPanicked> {
        carried.poll_result()
    }
}

/// Polling over the boundary comes to what it comes to behind it: a poll result comes back
/// unchanged, and what comes back as the error was a panic.
pub proof fn polls_cross_unchanged<T, P>(outcome: Result<Poll<T>, P>)
    ensures
        FfiPoll::of_caught(outcome).poll_result() == (match outcome {
            Ok(poll) => Ok(poll),
            Err(_) => Err(PollPanicked::value()),
        }),
{
}

/// A poll result is carried under its own variant, with its own value, and is never taken for
/// a panic.
pub proof fn a_poll_is_carried_as_it_is<T>(poll: Poll<T>, carried: FfiPoll<T>, value: T)
    requires
        call_ensures(FfiPoll::<T>::from_poll, (poll,), carried) || call_ensures(
            <FfiPoll<T> as From<Poll<T>>>::from,
            (poll,),
            carried,
        ),
    ensures
        carried !is Panicked,
        carried is Pending <==> poll is Pending,
        carried == FfiPoll::Ready(value) <==> poll == Poll::Ready(value),
{
}

/// What a poll function answers tells a panic from the two poll results, and carries a poll
/// result as it is.
pub proof fn a_caught_panic_is_told_apart<T, P>(
    outcome: Result<Poll<T>, P>,
    carried: FfiPoll<T>,
    value: T,
)
    requires
        call_ensures(FfiPoll::<T>::from_caught::<P>, (outcome,), carried),
    ensures
        carried is Panicked <==> outcome is Err,
        carried is Pending <==> outcome == Ok::<Poll<T>, P>(Poll::Pending),
        carried == FfiPoll::Ready(value) <==> outcome == Ok::<Poll<T>, P>(Poll::Ready(value)),
{
}

/// Reading what is carried fails for a panic and for nothing else; a poll result is given as it
/// is carried.
pub proof fn only_a_panic_is_an_error<T>(
    carried: FfiPoll<T>,
    result: Result<Poll<T>, PollPanicked>,
    value: T,
)
    requires
        call_ensures(FfiPoll::<T>::try_into_poll, (carried,), result) || call_ensures(
            <Poll<T> as TryFrom<FfiPoll<T>>>::try_from,
            (carried,),
            result,
        ),
    ensures
        result is Err <==> carried is Panicked,
        result == Ok::<Poll<T>, PollPanicked>(Poll::Pending) <==> carried is Pending,
        result == Ok::<Poll<T>, PollPanicked>(Poll::Ready(value)) <==> carried == FfiPoll::Ready(
            value,
        ),
{
}

/// What is read on one side is how the poll function ended on the other: two calls, one on each
/// side, hand a poll result through and turn a panic into the error.
pub proof fn a_poll_function_is_read_as_it_ended<T, P>(
    outcome: Result<Poll<T>, P>,
    carried: FfiPoll<T>,
    result: Result<Poll<T>, PollPanicked>,
)
    requires
        call_ensures(FfiPoll::<T>::from_caught::<P>, (outcome,), carried),
        call_ensures(FfiPoll::<T>::try_into_poll, (carried,), result),
    ensures
        result is Ok <==> outcome is Ok,
        outcome is Ok ==> result->Ok_0 == outcome->Ok_0,
{
}

}
