//! Verbosity levels, and the filters on them.

use tracing_core::{Level, LevelFilter};
use vstd::prelude::*;
use vstd::std_specs::convert::FromSpecImpl;

verus! {

/// `tracing_core`'s `Level`, whose value stays hidden.
#[verifier::external_type_specification]
#[verifier::external_body]
pub struct ExLevel(Level);

/// `tracing_core`'s `LevelFilter`, whose value stays hidden.
#[verifier::external_type_specification]
#[verifier::external_body]
pub struct ExLevelFilter(LevelFilter);

/// A verbosity level that can cross the boundary.
#[derive(Clone, Copy, Debug, PartialEq, Eq, Structural)]
pub enum RLevel {
    Error,
    Warn,
    Info,
    Debug,
    Trace,
}

/// A filter on verbosity levels that can cross the boundary.
#[derive(Clone, Copy, Debug, PartialEq, Eq, Structural)]
pub enum RLevelFilter {
    Off,
    Error,
    Warn,
    Info,
    Debug,
    Trace,
}

/// Which of the five levels a `Level` is.
pub uninterp spec fn level_value(level: Level) -> RLevel;

/// The most verbose level that a `LevelFilter` lets through, if any.
pub uninterp spec fn level_filter_value(filter: LevelFilter) -> Option<RLevel>;

/// The constant `Level::ERROR`: the level of that name.
#[verifier::external_body]
fn level_error() -> (level: Level)
    ensures
        level_value(level) == RLevel::Error,
{
    Level::ERROR
}

/// The constant `Level::WARN`: the level of that name.
#[verifier::external_body]
fn level_warn() -> (level: Level)
    ensures
        level_value(level) == RLevel::Warn,
{
    Level::WARN
}

/// The constant `Level::INFO`: the level of that name.
#[verifier::external_body]
fn level_info() -> (level: Level)
    ensures
        level_value(level) == RLevel::Info,
{
    Level::INFO
}

/// The constant `Level::DEBUG`: the level of that name.
#[verifier::external_body]
fn level_debug() -> (level: Level)
    ensures
        level_value(level) == RLevel::Debug,
{
    Level::DEBUG
}

/// The constant `Level::TRACE`: the level of that name.
#[verifier::external_body]
fn level_trace() -> (level: Level)
    ensures
        level_value(level) == RLevel::Trace,
{
    Level::TRACE
}

/// `==` on `Level`: whether the two are the same of the five levels.
#[verifier::external_body]
fn same_level(a: &Level, b: &Level) -> (result: bool)
    ensures
        result == (level_value(*a) == level_value(*b)),
{
    a == b
}

/// `LevelFilter::into_level`: the level that the filter is made of, or nothing for the
/// filter that lets nothing through.
pub assume_specification[ LevelFilter::into_level ](filter: LevelFilter) -> (level: Option<Level>)
    ensures
        level_filter_value(filter) == (match level {
            Some(level) => Some(level_value(level)),
            None => None,
        }),
;

/// `LevelFilter::from_level`: the filter that is made of the level.
pub assume_specification[ LevelFilter::from_level ](level: Level) -> (filter: LevelFilter)
    ensures
        level_filter_value(filter) == Some(level_value(level)),
;

/// The constant `LevelFilter::OFF`: the filter that lets nothing through.
#[verifier::external_body]
fn level_filter_off() -> (filter: LevelFilter)
    ensures
        level_filter_value(filter) is None,
{
    LevelFilter::OFF
}

impl From<&Level> for RLevel {
    fn from(value: &Level) -> (level: Self) {
        if same_level(value, &level_error()) {
            RLevel::Error
        } else if same_level(value, &level_warn()) {
            RLevel::Warn
        } else if same_level(value, &level_info()) {
            RLevel::Info
        } else if same_level(value, &level_debug()) {
            RLevel::Debug
        } else {
            RLevel::Trace
        }
    }
}

impl FromSpecImpl<&Level> for RLevel {
    open spec fn obeys_from_spec() -> bool {
        true
    }

    open spec fn from_spec(value: &Level) -> Self {
        level_value(*value)
    }
}

impl From<&RLevel> for Level {
    fn from(value: &RLevel) -> (level: Self)
        ensures
            level_value(level) == *value,
    {
        match value {
            RLevel::Error => level_error(),
            RLevel::Warn => level_warn(),
            RLevel::Info => level_info(),
            RLevel::Debug => level_debug(),
            RLevel::Trace => level_trace(),
        }
    }
}

impl FromSpecImpl<&RLevel> for Level {
    open spec fn obeys_from_spec() -> bool {
        false
    }

    open spec fn from_spec(value: &RLevel) -> Self {
        arbitrary()
    }
}

impl RLevelFilter {
    /// The most verbose level that the filter lets through, if any.
    pub open spec fn level(self) -> Option<RLevel> {
        match self {
            RLevelFilter::Off => None,
            RLevelFilter::Error => Some(RLevel::Error),
            RLevelFilter::Warn => Some(RLevel::Warn),
            RLevelFilter::Info => Some(RLevel::Info),
            RLevelFilter::Debug => Some(RLevel::Debug),
            RLevelFilter::Trace => Some(RLevel::Trace),
        }
    }

    /// The filter with a given most verbose level.
    pub open spec fn of_level(level: Option<RLevel>) -> Self {
        match level {
            None => RLevelFilter::Off,
            Some(RLevel::Error) => RLevelFilter::Error,
            Some(RLevel::Warn) => RLevelFilter::Warn,
            Some(RLevel::Info) => RLevelFilter::Info,
            Some(RLevel::Debug) => RLevelFilter::Debug,
            Some(RLevel::Trace) => RLevelFilter::Trace,
        }
    }

    /// The filter with a given most verbose level.
    pub fn from_level(level: Option<RLevel>) -> (filter: Self)
        ensures
            filter == Self::of_level(level),
    {
        match level {
            None => RLevelFilter::Off,
            Some(RLevel::Error) => RLevelFilter::Error,
            Some(RLevel::Warn) => RLevelFilter::Warn,
            Some(RLevel::Info) => RLevelFilter::Info,
            Some(RLevel::Debug) => RLevelFilter::Debug,
            Some(RLevel::Trace) => RLevelFilter::Trace,
        }
    }

    /// The most verbose level that the filter lets through, if any.
    pub fn into_level(self) -> (level: Option<RLevel>)
        ensures
            level == self.level(),
    {
        match self {
            RLevelFilter::Off => None,
            RLevelFilter::Error => Some(RLevel::Error),
            RLevelFilter::Warn => Some(RLevel::Warn),
            RLevelFilter::Info => Some(RLevel::Info),
            RLevelFilter::Debug => Some(RLevel::Debug),
            RLevelFilter::Trace => Some(RLevel::Trace),
        }
    }
}

impl From<LevelFilter> for RLevelFilter {
    fn from(value: LevelFilter) -> (filter: Self) {
        match value.into_level() {
            Some(level) => Self::from_level(Some(RLevel::from(&level))),
            None => Self::from_level(None),
        }
    }
}

impl FromSpecImpl<LevelFilter> for RLevelFilter {
    open spec fn obeys_from_spec() -> bool {
        true
    }

    open spec fn from_spec(value: LevelFilter) -> Self {
        Self::of_level(level_filter_value(value))
    }
}

impl From<RLevelFilter> for LevelFilter {
    fn from(value: RLevelFilter) -> (filter: Self)
        ensures
            level_filter_value(filter) == value.level(),
    {
        match value.into_level() {
            Some(level) => LevelFilter::from_level(Level::from(&level)),
            None => level_filter_off(),
        }
    }
}

impl FromSpecImpl<RLevelFilter> for LevelFilter {
    open spec fn obeys_from_spec() -> bool {
        false
    }

    open spec fn from_spec(value: RLevelFilter) -> Self {
        arbitrary()
    }
}

/// A filter survives the boundary, in both directions.
pub proof fn filters_cross_unchanged(filter: RLevelFilter, level: Option<RLevel>)
    ensures
        RLevelFilter::of_level(filter.level()) == filter,
        RLevelFilter::of_level(level).level() == level,
{
}

/// A level crosses as the level that it is, and comes back as the level that it is.
pub proof fn a_level_is_what_it_is_on_both_sides(
    level: Level,
    crossed: RLevel,
    sent: RLevel,
    received: Level,
)
    requires
        call_ensures(<RLevel as From<&Level>>::from, (&level,), crossed),
        call_ensures(<Level as From<&RLevel>>::from, (&sent,), received),
    ensures
        crossed == level_value(level),
        level_value(received) == sent,
{
}

/// A filter crosses as the filter that it is: it lets through what it did, and nothing where it
/// let nothing through.
pub proof fn a_filter_crosses_as_it_is(filter: LevelFilter, crossed: RLevelFilter)
    requires
        call_ensures(<RLevelFilter as From<LevelFilter>>::from, (filter,), crossed),
    ensures
        crossed is Off <==> level_filter_value(filter) is None,
        crossed is Error <==> level_filter_value(filter) == Some(RLevel::Error),
        crossed is Warn <==> level_filter_value(filter) == Some(RLevel::Warn),
        crossed is Info <==> level_filter_value(filter) == Some(RLevel::Info),
        crossed is Debug <==> level_filter_value(filter) == Some(RLevel::Debug),
        crossed is Trace <==> level_filter_value(filter) == Some(RLevel::Trace),
{
}

/// A filter comes back as the filter that it is.
pub proof fn a_filter_comes_back_as_it_is(sent: RLevelFilter, received: LevelFilter)
    requires
        call_ensures(<LevelFilter as From<RLevelFilter>>::from, (sent,), received),
    ensures
        level_filter_value(received) is None <==> sent is Off,
        level_filter_value(received) == Some(RLevel::Error) <==> sent is Error,
        level_filter_value(received) == Some(RLevel::Warn) <==> sent is Warn,
        level_filter_value(received) == Some(RLevel::Info) <==> sent is Info,
        level_filter_value(received) == Some(RLevel::Debug) <==> sent is Debug,
        level_filter_value(received) == Some(RLevel::Trace) <==> sent is Trace,
{
}

/// A filter is made of the level of its name, and gives that level back.
pub proof fn a_filter_goes_by_its_level(
    level: Option<RLevel>,
    filter: RLevelFilter,
    other: RLevelFilter,
    back: Option<RLevel>,
)
    requires
        call_ensures(RLevelFilter::from_level, (level,), filter),
        call_ensures(RLevelFilter::into_level, (other,), back),
    ensures
        filter is Off <==> level is None,
        filter is Error <==> level == Some(RLevel::Error),
        filter is Warn <==> level == Some(RLevel::Warn),
        filter is Info <==> level == Some(RLevel::Info),
        filter is Debug <==> level == Some(RLevel::Debug),
        filter is Trace <==> level == Some(RLevel::Trace),
        back is None <==> other is Off,
        back == Some(RLevel::Error) <==> other is Error,
        back == Some(RLevel::Warn) <==> other is Warn,
        back == Some(RLevel::Info) <==> other is Info,
        back == Some(RLevel::Debug) <==> other is Debug,
        back == Some(RLevel::Trace) <==> other is Trace,
{
}

}
