use ruchei_ffi::tracing::interest::RInterest;
use ruchei_ffi::tracing::kind::RKind;
use ruchei_ffi::tracing::level::{RLevel, RLevelFilter};
use tracing_core::{Interest, Kind, Level, LevelFilter};

#[test]
fn interests_cross() {
    assert_eq!(RInterest::from(Interest::never()), RInterest::Never);
    assert_eq!(RInterest::from(Interest::sometimes()), RInterest::Sometimes);
    assert_eq!(RInterest::from(Interest::always()), RInterest::Always);
    assert!(Interest::from(RInterest::Never).is_never());
    assert!(Interest::from(RInterest::Sometimes).is_sometimes());
    assert!(Interest::from(RInterest::Always).is_always());
}

#[test]
fn an_interest_passes_its_tests() {
    assert_eq!(RInterest::from_tests(true, false), RInterest::Always);
    assert_eq!(RInterest::from_tests(true, true), RInterest::Always);
    assert_eq!(RInterest::from_tests(false, true), RInterest::Sometimes);
    assert_eq!(RInterest::from_tests(false, false), RInterest::Never);
}

#[test]
fn a_kind_is_built_bit_by_bit() {
    let kind = RKind::empty();
    assert!(!kind.is_event() && !kind.is_span() && !kind.is_hint());
    let kind = kind.event(true);
    assert!(kind.is_event() && !kind.is_span() && !kind.is_hint());
    let kind = kind.span(true).hint(false);
    assert!(kind.is_event() && kind.is_span() && !kind.is_hint());
    let kind = kind.hint(true).event(false);
    assert!(kind.is_event() && kind.is_span() && kind.is_hint());
}

#[test]
fn kinds_cross() {
    let kinds = [
        Kind::EVENT,
        Kind::SPAN,
        Kind::HINT,
        Kind::EVENT.hint(),
        Kind::SPAN.hint(),
        Kind::HINT.hint(),
    ];
    for kind in kinds {
        let crossed = RKind::from(kind.clone());
        assert_eq!(crossed.is_event(), kind.is_event());
        assert_eq!(crossed.is_span(), kind.is_span());
        assert_eq!(crossed.is_hint(), kind.is_hint());
        assert!(Kind::from(crossed) == kind);
    }
}

#[test]
fn an_empty_kind_is_received_as_a_hint() {
    assert!(Kind::from(RKind::empty()) == Kind::HINT);
}

#[test]
fn an_event_that_is_a_span_is_received_as_an_event() {
    assert!(Kind::from(RKind::empty().event(true).span(true)) == Kind::EVENT);
    assert!(Kind::from(RKind::empty().event(true).span(true).hint(true)) == Kind::EVENT.hint());
}

#[test]
fn levels_cross() {
    let levels = [
        (Level::ERROR, RLevel::Error),
        (Level::WARN, RLevel::Warn),
        (Level::INFO, RLevel::Info),
        (Level::DEBUG, RLevel::Debug),
        (Level::TRACE, RLevel::Trace),
    ];
    for (level, crossed) in levels {
        assert_eq!(RLevel::from(&level), crossed);
        assert_eq!(Level::from(&crossed), level);
    }
}

#[test]
fn level_filters_cross() {
    let filters = [
        (LevelFilter::OFF, RLevelFilter::Off),
        (LevelFilter::ERROR, RLevelFilter::Error),
        (LevelFilter::WARN, RLevelFilter::Warn),
        (LevelFilter::INFO, RLevelFilter::Info),
        (LevelFilter::DEBUG, RLevelFilter::Debug),
        (LevelFilter::TRACE, RLevelFilter::Trace),
    ];
    for (filter, crossed) in filters {
        assert_eq!(RLevelFilter::from(filter), crossed);
        assert_eq!(LevelFilter::from(crossed), filter);
    }
}

#[test]
fn a_filter_is_its_most_verbose_level() {
    assert_eq!(RLevelFilter::from_level(None), RLevelFilter::Off);
    assert_eq!(RLevelFilter::from_level(Some(RLevel::Info)), RLevelFilter::Info);
    assert_eq!(RLevelFilter::Trace.into_level(), Some(RLevel::Trace));
    assert_eq!(RLevelFilter::Off.into_level(), None);
}

#[test]
fn a_kind_is_made_of_its_bits() {
    assert_eq!(RKind::from_bits(0), RKind::empty());
    assert_eq!(RKind::from_bits(5), RKind::empty().event(true).hint(true));
    assert_eq!(RKind::empty().span(true).to_bits(), 2);
    assert_eq!(RKind::from_bits(200).to_bits(), 200);
}
