//! How much a subscriber cares for a callsite.

use tracing_core::Interest;
use vstd::prelude::*;
use vstd::std_specs::convert::FromSpecImpl;

verus! {

/// `tracing_core`'s `Interest`, whose kind stays hidden.
#[verifier::external_type_specification]
#[verifier::external_body]
pub struct ExInterest(Interest);

/// The kind of an `Interest`: 0 for never, 1 for sometimes, 2 for always.
pub uninterp spec fn interest_kind(interest: Interest) -> int;

/// `Interest::is_always`: the interest is one in every occurrence.
pub assume_specification[ Interest::is_always ](interest: &Interest) -> (result: bool)
    ensures
        result == (interest_kind(*interest) == 2),
;

/// `Interest::is_sometimes`: the interest is to be asked for each occurrence.
pub assume_specification[ Interest::is_sometimes ](interest: &Interest) -> (result: bool)
    ensures
        result == (interest_kind(*interest) == 1),
;

/// `Interest::never`: the interest in no occurrence.
pub assume_specification[ Interest::never ]() -> (interest: Interest)
    ensures
        interest_kind(interest) == 0,
;

/// `Interest::sometimes`: the interest that is to be asked for each occurrence.
pub assume_specification[ Interest::sometimes ]() -> (interest: Interest)
    ensures
        interest_kind(interest) == 1,
;

/// `Interest::always`: the interest in every occurrence.
pub assume_specification[ Interest::always ]() -> (interest: Interest)
    ensures
        interest_kind(interest) == 2,
;

/// An interest that can cross the boundary.
#[derive(Clone, Copy, Debug, PartialEq, Eq, Structural)]
pub enum RInterest {
    Never,
    Sometimes,
    Always,
}

impl RInterest {
    /// The number of the interest in `interest_kind`.
    pub open spec fn kind(self) -> int {
        match self {
            RInterest::Never => 0,
            RInterest::Sometimes => 1,
            RInterest::Always => 2,
        }
    }

    /// The interest of a number in `interest_kind`.
    pub open spec fn of_kind(kind: int) -> Self {
        if kind == 2 {
            RInterest::Always
        } else if kind == 1 {
            RInterest::Sometimes
        } else {
            RInterest::Never
        }
    }

    /// The interest that passes the given tests; one that passes neither is `Never`.
    pub fn from_tests(is_always: bool, is_sometimes: bool) -> (interest: Self)
        ensures
            interest == (if is_always {
                RInterest::Always
            } else if is_sometimes {
                RInterest::Sometimes
            } else {
                RInterest::Never
            }),
    {
        if is_always {
            RInterest::Always
        } else if is_sometimes {
            RInterest::Sometimes
        } else {
            RInterest::Never
        }
    }
}

impl From<Interest> for RInterest {
    fn from(value: Interest) -> (interest: Self) {
        Self::from_tests(value.is_always(), value.is_sometimes())
    }
}

impl FromSpecImpl<Interest> for RInterest {
    open spec fn obeys_from_spec() -> bool {
        true
    }

    open spec fn from_spec(value: Interest) -> Self {
        RInterest::of_kind(interest_kind(value))
    }
}

impl From<RInterest> for Interest {
    fn from(value: RInterest) -> (interest: Self)
        ensures
            interest_kind(interest) == value.kind(),
    {
        match value {
            RInterest::Never => Interest::never(),
            RInterest::Sometimes => Interest::sometimes(),
            RInterest::Always => Interest::always(),
        }
    }
}

impl FromSpecImpl<RInterest> for Interest {
    open spec fn obeys_from_spec() -> bool {
        false
    }

    open spec fn from_spec(value: RInterest) -> Self {
        arbitrary()
    }
}

/// An interest survives the boundary, in both directions.
pub proof fn interests_cross_unchanged(interest: RInterest, kind: int)
    requires
        0 <= kind <= 2,
    ensures
        RInterest::of_kind(interest.kind()) == interest,
        RInterest::of_kind(kind).kind() == kind,
{
}

/// An interest crosses as what it is, and comes back as what it is: always, sometimes and never
/// are told apart on both sides.
pub proof fn an_interest_is_what_it_is_on_both_sides(
    interest: Interest,
    crossed: RInterest,
    sent: RInterest,
    received: Interest,
)
    requires
        0 <= interest_kind(interest) <= 2,
        call_ensures(<RInterest as From<Interest>>::from, (interest,), crossed),
        call_ensures(<Interest as From<RInterest>>::from, (sent,), received),
    ensures
        crossed is Always <==> interest_kind(interest) == 2,
        crossed is Sometimes <==> interest_kind(interest) == 1,
        crossed is Never <==> interest_kind(interest) == 0,
        interest_kind(received) == 2 <==> sent is Always,
        interest_kind(received) == 1 <==> sent is Sometimes,
        interest_kind(received) == 0 <==> sent is Never,
{
}

/// An interest goes by its tests: the first that it passes tells what it is, and one that passes
/// none is never.
pub proof fn an_interest_goes_by_its_tests(
    is_always: bool,
    is_sometimes: bool,
    interest: RInterest,
)
    requires
        call_ensures(RInterest::from_tests, (is_always, is_sometimes), interest),
    ensures
        interest is Always <==> is_always,
        interest is Sometimes <==> !is_always && is_sometimes,
        interest is Never <==> !is_always && !is_sometimes,
{
}

}
