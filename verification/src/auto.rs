//! Conversions between the types of `std` and their counterparts with a stable layout.

use abi_stable::std_types::{ROption, RResult, Tuple2};
use async_ffi::{FfiPoll as AsyncFfiPoll, PollPanicked as AsyncPollPanicked};
use std::task::Poll;
use vstd::prelude::*;

verus! {

/// `abi_stable`'s `ROption`, with its variants visible to the proofs.
#[verifier::external_type_specification]
pub struct ExROption<T>(ROption<T>);

/// `abi_stable`'s `RResult`, with its variants visible to the proofs.
#[verifier::external_type_specification]
pub struct ExRResult<T, E>(RResult<T, E>);

/// `abi_stable`'s `Tuple2`, with its fields visible to the proofs.
#[verifier::external_type_specification]
pub struct ExTuple2<A, B>(Tuple2<A, B>);

/// `async_ffi`'s `FfiPoll`, with its variants visible to the proofs.
#[verifier::external_type_specification]
pub struct ExAsyncFfiPoll<T>(AsyncFfiPoll<T>);

/// `async_ffi`'s error for a poll function that panicked.
#[verifier::external_type_specification]
#[verifier::external_body]
pub struct ExAsyncPollPanicked(AsyncPollPanicked);

/// `ROption::from(Option)`: the same variant with the same value.
#[verifier::external_body]
fn roption_from<T>(option: Option<T>) -> (result: ROption<T>)
    ensures
        result == (match option {
            Some(value) => ROption::RSome(value),
            None => ROption::RNone,
        }),
{
    ROption::from(option)
}

/// `ROption::into_option`: the same variant with the same value.
pub assume_specification<T>[ ROption::<T>::into_option ](option: ROption<T>) -> (result: Option<T>)
    ensures
        result == (match option {
            ROption::RSome(value) => Some(value),
            ROption::RNone => None,
        }),
;

/// `RResult::from(Result)`: the same variant with the same value.
#[verifier::external_body]
fn rresult_from<T, E>(result: Result<T, E>) -> (r: RResult<T, E>)
    ensures
        r == (match result {
            Ok(value) => RResult::ROk(value),
            Err(error) => RResult::RErr(error),
        }),
{
    RResult::from(result)
}

/// `RResult::into_result`: the same variant with the same value.
pub assume_specification<T, E>[ RResult::<T, E>::into_result ](result: RResult<T, E>) -> (r: Result<T, E>)
    ensures
        r == (match result {
            RResult::ROk(value) => Ok(value),
            RResult::RErr(error) => Err(error),
        }),
;

/// `async_ffi::FfiPoll::from_poll`: the same variant with the same value.
pub assume_specification<T>[ AsyncFfiPoll::<T>::from_poll ](poll: Poll<T>) -> (result: AsyncFfiPoll<T>)
    ensures
        result == (match poll {
            Poll::Ready(value) => AsyncFfiPoll::Ready(value),
            Poll::Pending => AsyncFfiPoll::Pending,
        }),
;

/// `async_ffi::FfiPoll::try_into_poll`: the same variant with the same value, and the
/// error for `Panicked` alone.
pub assume_specification<T>[ AsyncFfiPoll::<T>::try_into_poll ](poll: AsyncFfiPoll<T>) -> (result: Result<
    Poll<T>,
    AsyncPollPanicked,
>)
    ensures
        match poll {
            AsyncFfiPoll::Ready(value) => result == Ok::<Poll<T>, AsyncPollPanicked>(Poll::Ready(value)),
            AsyncFfiPoll::Pending => result == Ok::<Poll<T>, AsyncPollPanicked>(Poll::Pending),
            AsyncFfiPoll::Panicked => result is Err,
        },
;

/// A conversion that keeps variants and values and changes layouts only.
///
/// The parameter `X` keeps apart the conversions that would otherwise overlap: with the
/// default, a value converts to itself or to a type of another layout; with a tuple, the
/// outer type stays and what it holds is converted.
pub trait Auto<T, X = ()>: Sized {
    /// The value can be converted: nothing in it stands for a panic.
    spec fn auto_requires(self) -> bool;

    /// What the value is converted to.
    spec fn auto_spec(self) -> T;

    /// Converts the value.
    fn auto(self) -> (result: T)
        requires
            self.auto_requires(),
        ensures
            result == self.auto_spec(),
    ;
}

impl<T> Auto<T> for T {
    open spec fn auto_requires(self) -> bool {
        true
    }

    open spec fn auto_spec(self) -> T {
        self
    }

    fn auto(self) -> (result: T) {
        self
    }
}

impl<T, X, U: Auto<T, X>> Auto<Option<T>, (X,)> for Option<U> {
    open spec fn auto_requires(self) -> bool {
        self matches Some(value) ==> value.auto_requires()
    }

    open spec fn auto_spec(self) -> Option<T> {
        match self {
            Some(value) => Some(value.auto_spec()),
            None => None,
        }
    }

    fn auto(self) -> (result: Option<T>) {
        match self {
            Some(value) => Some(value.auto()),
            None => None,
        }
    }
}

impl<T, U: Auto<T>> Auto<ROption<T>> for Option<U> {
    open spec fn auto_requires(self) -> bool {
        self matches Some(value) ==> value.auto_requires()
    }

    open spec fn auto_spec(self) -> ROption<T> {
        match self {
            Some(value) => ROption::RSome(value.auto_spec()),
            None => ROption::RNone,
        }
    }

    fn auto(self) -> (result: ROption<T>) {
        let option: Option<T> = self.auto();
        roption_from(option)
    }
}

impl<T, U: Auto<T>> Auto<Option<T>> for ROption<U> {
    open spec fn auto_requires(self) -> bool {
        self matches ROption::RSome(value) ==> value.auto_requires()
    }

    open spec fn auto_spec(self) -> Option<T> {
        match self {
            ROption::RSome(value) => Some(value.auto_spec()),
            ROption::RNone => None,
        }
    }

    fn auto(self) -> (result: Option<T>) {
        self.into_option().auto()
    }
}

impl<T, X, U: Auto<T, X>> Auto<Poll<T>, (X,)> for Poll<U> {
    open spec fn auto_requires(self) -> bool {
        self matches Poll::Ready(value) ==> value.auto_requires()
    }

    open spec fn auto_spec(self) -> Poll<T> {
        match self {
            Poll::Ready(value) => Poll::Ready(value.auto_spec()),
            Poll::Pending => Poll::Pending,
        }
    }

    fn auto(self) -> (result: Poll<T>) {
        match self {
            Poll::Ready(value) => Poll::Ready(value.auto()),
            Poll::Pending => Poll::Pending,
        }
    }
}

impl<T, U: Auto<T>> Auto<AsyncFfiPoll<T>> for Poll<U> {
    open spec fn auto_requires(self) -> bool {
        self matches Poll::Ready(value) ==> value.auto_requires()
    }

    open spec fn auto_spec(self) -> AsyncFfiPoll<T> {
        match self {
            Poll::Ready(value) => AsyncFfiPoll::Ready(value.auto_spec()),
            Poll::Pending => AsyncFfiPoll::Pending,
        }
    }

    fn auto(self) -> (result: AsyncFfiPoll<T>) {
        let poll: Poll<T> = self.auto();
        AsyncFfiPoll::from_poll(poll)
    }
}

impl<T, X, U: Auto<T, X>> Auto<Poll<T>, X> for AsyncFfiPoll<U> {
    open spec fn auto_requires(self) -> bool {
        &&& self !is Panicked
        &&& self matches AsyncFfiPoll::Ready(value) ==> value.auto_requires()
    }

    open spec fn auto_spec(self) -> Poll<T> {
        match self {
            AsyncFfiPoll::Ready(value) => Poll::Ready(value.auto_spec()),
            AsyncFfiPoll::Pending => Poll::Pending,
            AsyncFfiPoll::Panicked => arbitrary(),
        }
    }

    fn auto(self) -> (result: Poll<T>) {
        match self.try_into_poll() {
            Ok(poll) => poll.auto(),
            Err(_) => vstd::pervasive::unreached(),
        }
    }
}

impl<T0, T1, U0: Auto<T0>, U1: Auto<T1>> Auto<Tuple2<T0, T1>> for (U0, U1) {
    open spec fn auto_requires(self) -> bool {
        self.0.auto_requires() && self.1.auto_requires()
    }

    open spec fn auto_spec(self) -> Tuple2<T0, T1> {
        Tuple2(self.0.auto_spec(), self.1.auto_spec())
    }

    fn auto(self) -> (result: Tuple2<T0, T1>) {
        Tuple2(self.0.auto(), self.1.auto())
    }
}

impl<T0, T1, U0: Auto<T0>, U1: Auto<T1>> Auto<(T0, T1)> for Tuple2<U0, U1> {
    open spec fn auto_requires(self) -> bool {
        self.0.auto_requires() && self.1.auto_requires()
    }

    open spec fn auto_spec(self) -> (T0, T1) {
        (self.0.auto_spec(), self.1.auto_spec())
    }

    fn auto(self) -> (result: (T0, T1)) {
        (self.0.auto(), self.1.auto())
    }
}

impl<T0, T1, U0: Auto<T0>, U1: Auto<T1>> Auto<Result<T0, T1>, ((),)> for Result<U0, U1> {
    open spec fn auto_requires(self) -> bool {
        match self {
            Ok(value) => value.auto_requires(),
            Err(error) => error.auto_requires(),
        }
    }

    open spec fn auto_spec(self) -> Result<T0, T1> {
        match self {
            Ok(value) => Ok(value.auto_spec()),
            Err(error) => Err(error.auto_spec()),
        }
    }

    fn auto(self) -> (result: Result<T0, T1>) {
        match self {
            Ok(value) => Ok(value.auto()),
            Err(error) => Err(error.auto()),
        }
    }
}

impl<T0, T1, U0: Auto<T0>, U1: Auto<T1>> Auto<RResult<T0, T1>> for Result<U0, U1> {
    open spec fn auto_requires(self) -> bool {
        match self {
            Ok(value) => value.auto_requires(),
            Err(error) => error.auto_requires(),
        }
    }

    open spec fn auto_spec(self) -> RResult<T0, T1> {
        match self {
            Ok(value) => RResult::ROk(value.auto_spec()),
            Err(error) => RResult::RErr(error.auto_spec()),
        }
    }

    fn auto(self) -> (result: RResult<T0, T1>) {
        let result: Result<T0, T1> = self.auto();
        rresult_from(result)
    }
}

impl<T0, T1, U0: Auto<T0>, U1: Auto<T1>> Auto<Result<T0, T1>> for RResult<U0, U1> {
    open spec fn auto_requires(self) -> bool {
        match self {
            RResult::ROk(value) => value.auto_requires(),
            RResult::RErr(error) => error.auto_requires(),
        }
    }

    open spec fn auto_spec(self) -> Result<T0, T1> {
        match self {
            RResult::ROk(value) => Ok(value.auto_spec()),
            RResult::RErr(error) => Err(error.auto_spec()),
        }
    }

    fn auto(self) -> (result: Result<T0, T1>) {
        self.into_result().auto()
    }
}

/// Converting a value to its own type hands the value through.
pub proof fn a_value_converts_to_itself<T>(value: T, result: T)
    requires
        call_ensures(<T as Auto<T>>::auto, (value,), result),
    ensures
        result == value,
{
}

/// An option stays what it is, and what it holds is converted.
pub proof fn an_option_converts_inside<T, X, U: Auto<T, X>>(value: Option<U>, result: Option<T>, inner: U)
    requires
        call_ensures(<Option<U> as Auto<Option<T>, (X,)>>::auto, (value,), result),
    ensures
        result is Some <==> value is Some,
        result is None <==> value is None,
        value == Option::Some(inner) ==> result == Option::Some(inner.auto_spec()),
{
}

/// An option becomes the same variant of stable layout, and what it holds is converted.
pub proof fn an_option_converts_to_a_stable_one<T, U: Auto<T>>(value: Option<U>, result: ROption<T>, inner: U)
    requires
        call_ensures(<Option<U> as Auto<ROption<T>>>::auto, (value,), result),
    ensures
        result is RSome <==> value is Some,
        result is RNone <==> value is None,
        value == Option::Some(inner) ==> result == ROption::RSome(inner.auto_spec()),
{
}

/// An option of stable layout becomes the same variant, and what it holds is converted.
pub proof fn a_stable_option_converts_back<T, U: Auto<T>>(value: ROption<U>, result: Option<T>, inner: U)
    requires
        call_ensures(<ROption<U> as Auto<Option<T>>>::auto, (value,), result),
    ensures
        result is Some <==> value is RSome,
        result is None <==> value is RNone,
        value == ROption::RSome(inner) ==> result == Option::Some(inner.auto_spec()),
{
}

/// A poll result stays what it is, and what is ready is converted.
pub proof fn a_poll_converts_inside<T, X, U: Auto<T, X>>(value: Poll<U>, result: Poll<T>, inner: U)
    requires
        call_ensures(<Poll<U> as Auto<Poll<T>, (X,)>>::auto, (value,), result),
    ensures
        result is Ready <==> value is Ready,
        result is Pending <==> value is Pending,
        value == Poll::Ready(inner) ==> result == Poll::Ready(inner.auto_spec()),
{
}

/// A poll result becomes the same variant of stable layout, and what is ready is converted.
pub proof fn a_poll_converts_to_a_stable_one<T, U: Auto<T>>(value: Poll<U>, result: AsyncFfiPoll<T>, inner: U)
    requires
        call_ensures(<Poll<U> as Auto<AsyncFfiPoll<T>>>::auto, (value,), result),
    ensures
        result is Ready <==> value is Ready,
        result is Pending <==> value is Pending,
        value == Poll::Ready(inner) ==> result == AsyncFfiPoll::Ready(inner.auto_spec()),
{
}

/// A poll result of stable layout becomes the same variant, and what is ready is converted. It
/// can be converted unless it stands for a panic.
pub proof fn a_stable_poll_converts_back<T, X, U: Auto<T, X>>(
    value: AsyncFfiPoll<U>,
    result: Poll<T>,
    inner: U,
)
    requires
        value !is Panicked,
        call_ensures(<AsyncFfiPoll<U> as Auto<Poll<T>, X>>::auto, (value,), result),
    ensures
        result is Ready <==> value is Ready,
        result is Pending <==> value is Pending,
        value == AsyncFfiPoll::Ready(inner) ==> result == Poll::Ready(inner.auto_spec()),
        value is Pending ==> <AsyncFfiPoll<U> as Auto<Poll<T>, X>>::auto_requires(value),
        value == AsyncFfiPoll::Ready(inner) && <U as Auto<T, X>>::auto_requires(inner) ==> <AsyncFfiPoll<
            U,
        > as Auto<Poll<T>, X>>::auto_requires(value),
{
}

/// A pair keeps its order over the boundary, in both directions.
pub proof fn a_pair_keeps_its_order<T0, T1, U0: Auto<T0>, U1: Auto<T1>>(
    pair: (U0, U1),
    stable: Tuple2<T0, T1>,
    stable_pair: Tuple2<U0, U1>,
    back: (T0, T1),
)
    requires
        call_ensures(<(U0, U1) as Auto<Tuple2<T0, T1>>>::auto, (pair,), stable),
        call_ensures(<Tuple2<U0, U1> as Auto<(T0, T1)>>::auto, (stable_pair,), back),
    ensures
        stable.0 == pair.0.auto_spec(),
        stable.1 == pair.1.auto_spec(),
        back.0 == stable_pair.0.auto_spec(),
        back.1 == stable_pair.1.auto_spec(),
{
}

/// A result stays what it is, and what it holds is converted.
pub proof fn a_result_converts_inside<T0, T1, U0: Auto<T0>, U1: Auto<T1>>(
    value: Result<U0, U1>,
    result: Result<T0, T1>,
    inner: U0,
    error: U1,
)
    requires
        call_ensures(<Result<U0, U1> as Auto<Result<T0, T1>, ((),)>>::auto, (value,), result),
    ensures
        result is Ok <==> value is Ok,
        result is Err <==> value is Err,
        value == Result::<U0, U1>::Ok(inner) ==> result == Result::<T0, T1>::Ok(
            inner.auto_spec(),
        ),
        value == Result::<U0, U1>::Err(error) ==> result == Result::<T0, T1>::Err(
            error.auto_spec(),
        ),
{
}

/// A result becomes the same variant of stable layout, and what it holds is converted.
pub proof fn a_result_converts_to_a_stable_one<T0, T1, U0: Auto<T0>, U1: Auto<T1>>(
    value: Result<U0, U1>,
    result: RResult<T0, T1>,
    inner: U0,
    error: U1,
)
    requires
        call_ensures(<Result<U0, U1> as Auto<RResult<T0, T1>>>::auto, (value,), result),
    ensures
        result is ROk <==> value is Ok,
        result is RErr <==> value is Err,
        value == Result::<U0, U1>::Ok(inner) ==> result == RResult::<T0, T1>::ROk(
            inner.auto_spec(),
        ),
        value == Result::<U0, U1>::Err(error) ==> result == RResult::<T0, T1>::RErr(
            error.auto_spec(),
        ),
{
}

/// A result of stable layout becomes the same variant, and what it holds is converted.
pub proof fn a_stable_result_converts_back<T0, T1, U0: Auto<T0>, U1: Auto<T1>>(
    value: RResult<U0, U1>,
    result: Result<T0, T1>,
    inner: U0,
    error: U1,
)
    requires
        call_ensures(<RResult<U0, U1> as Auto<Result<T0, T1>>>::auto, (value,), result),
    ensures
        result is Ok <==> value is ROk,
        result is Err <==> value is RErr,
        value == RResult::<U0, U1>::ROk(inner) ==> result == Result::<T0, T1>::Ok(
            inner.auto_spec(),
        ),
        value == RResult::<U0, U1>::RErr(error) ==> result == Result::<T0, T1>::Err(
            error.auto_spec(),
        ),
{
}

}
