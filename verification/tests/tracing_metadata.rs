use ruchei_ffi::registry::Registry;
use ruchei_ffi::tracing::field::{RField, RFieldSet, RIdentifier};
use ruchei_ffi::tracing::kind::RKind;
use ruchei_ffi::tracing::level::RLevel;
use ruchei_ffi::tracing::metadata::{RMetadata, Tables};
use tracing_core::callsite::Identifier;
use tracing_core::field::FieldSet;
use tracing_core::{Callsite, Interest, Kind, Level, Metadata};

struct Site(u8);

impl Callsite for Site {
    fn set_interest(&self, _: Interest) {}

    fn metadata(&self) -> &Metadata<'_> {
        panic!("no metadata for callsite {}", self.0)
    }
}

static NEAR: Site = Site(1);
static FAR: Site = Site(2);

fn near() -> Identifier {
    Identifier(&NEAR)
}

fn far() -> Identifier {
    Identifier(&FAR)
}

const MODULE: Option<&str> = Some("krate::module");

fn metadata(kind: Kind) -> &'static Metadata<'static> {
    Box::leak(Box::new(Metadata::new(
        "name",
        "target",
        Level::WARN,
        Some("file.rs"),
        Some(12),
        MODULE,
        FieldSet::new(&["a", "b"], near()),
        kind,
    )))
}

#[test]
fn names_are_registered_once() {
    let mut known = Registry::new();
    let first = RFieldSet::register_names(&mut known, 1, &FieldSet::new(&["a", "b"], near()));
    assert_eq!(first, ["a", "b"]);
    let second = RFieldSet::register_names(&mut known, 1, &FieldSet::new(&["c"], near()));
    assert_eq!(second, ["a", "b"]);
    let other = RFieldSet::register_names(&mut known, 2, &FieldSet::new(&["c"], near()));
    assert_eq!(other, ["c"]);
}

#[test]
fn a_field_comes_back_at_its_place() {
    let mut known = Registry::new();
    let fields = FieldSet::new(&["a", "b", "c"], near());
    RFieldSet::register_names(&mut known, 1, &fields);
    let sent = fields.iter().nth(1).unwrap();
    let field = RField::from_field(&known, 1, &sent, RIdentifier { callsite: 5 });
    assert_eq!(field.name, "b");
    assert_eq!(field.fields.names, ["a", "b", "c"]);
    assert_eq!(field.fields.callsite.callsite, 5);
    let back = field.field(far());
    assert_eq!(back.name(), "b");
    assert_eq!(back.index(), 1);
    assert!(back.callsite() == far());
    assert!(back.callsite() != near());
}

#[test]
fn fields_that_share_a_name_come_back_as_the_first() {
    let fields = RFieldSet { names: &["a", "b", "a"], callsite: RIdentifier { callsite: 5 } };
    let field = RField { name: "a", fields };
    assert_eq!(field.field(far()).index(), 0);
    assert_eq!(fields.fields(far()).len(), 3);
}

#[test]
fn metadata_is_sent() {
    let fields = RFieldSet { names: &["a", "b"], callsite: RIdentifier { callsite: 5 } };
    let event = metadata(Kind::EVENT);
    let crossed = RMetadata::from_metadata(event, MODULE, fields);
    assert_eq!(crossed.name, "name");
    assert_eq!(crossed.target, "target");
    assert_eq!(crossed.level, RLevel::Warn);
    assert_eq!(crossed.module, Some("krate::module"));
    assert_eq!(crossed.file, Some("krate::module"));
    assert_eq!(crossed.line, Some(12));
    assert_eq!(crossed.fields.names, ["a", "b"]);
    assert_eq!(crossed.kind, RKind::empty().event(true));
}

#[test]
fn metadata_is_received() {
    let fields = RFieldSet { names: &["a", "b"], callsite: RIdentifier { callsite: 5 } };
    let span = metadata(Kind::SPAN);
    let received = RMetadata::from_metadata(span, MODULE, fields).metadata(far());
    assert_eq!(received.name(), "name");
    assert_eq!(received.target(), "target");
    assert_eq!(received.level(), &Level::WARN);
    assert_eq!(received.file(), MODULE);
    assert_eq!(format!("{:?}", received).matches("krate::module").count(), 2);
    assert_eq!(received.line(), Some(12));
    assert!(received.is_span() && !received.is_event());
    assert!(received.callsite() == far());
    let names: Vec<&str> = received.fields().iter().map(|field| field.name()).collect();
    assert_eq!(names, ["a", "b"]);
}

#[test]
fn the_file_is_received_as_the_module() {
    let crossed = RMetadata {
        name: "name",
        target: "target",
        level: RLevel::Trace,
        module: Some("elsewhere"),
        file: Some("source"),
        line: None,
        fields: RFieldSet { names: &[], callsite: RIdentifier { callsite: 5 } },
        kind: RKind::empty().span(true).hint(true),
    };
    let received = crossed.metadata(far());
    assert_eq!(received.file(), Some("source"));
    let shown = format!("{:?}", received);
    assert_eq!(shown.matches("source").count(), 2);
    assert!(!shown.contains("elsewhere"));
    assert_eq!(received.line(), None);
    assert!(received.is_span());
}

#[test]
fn a_hint_is_received_as_one() {
    let fields = RFieldSet { names: &[], callsite: RIdentifier { callsite: 5 } };
    let hint = metadata(Kind::HINT);
    let crossed = RMetadata::from_metadata(hint, None, fields);
    assert_eq!(crossed.kind, RKind::empty());
    let received = crossed.metadata(far());
    assert!(!received.is_event() && !received.is_span());
    let loud = metadata(Kind::EVENT.hint());
    assert!(!RMetadata::from_metadata(loud, None, fields).kind.is_hint());
}

#[test]
fn metadata_is_converted_once() {
    let mut tables = Tables::new();
    let event = metadata(Kind::EVENT);
    let first = tables.metadata_ref(100, event, MODULE, 1, || RIdentifier {
        callsite: 50,
    });
    assert_eq!(first.name, "name");
    assert_eq!(first.fields.names, ["a", "b"]);
    assert_eq!(first.fields.callsite.callsite, 50);
    let second = tables.metadata_ref(100, metadata(Kind::SPAN), None, 1, || RIdentifier {
        callsite: 51,
    });
    assert!(std::ptr::eq(first, second));
    assert_eq!(tables.names.try_get(&1), Some(first.fields.names));
    let other = tables.metadata_ref(200, metadata(Kind::SPAN), None, 1, || RIdentifier {
        callsite: 52,
    });
    assert!(!std::ptr::eq(first, other));
    assert_eq!(other.fields.callsite.callsite, 50);
    assert!(other.kind.is_span());
}

#[test]
fn a_callsite_keeps_what_stands_for_it() {
    let mut tables = Tables::new();
    let fields = FieldSet::new(&["a"], near());
    let first = tables.fields(1, &fields, || RIdentifier { callsite: 50 });
    let second = tables.fields(1, &fields, || RIdentifier { callsite: 60 });
    assert_eq!(first.callsite, second.callsite);
    let id = RIdentifier::from_address(&mut tables.callsites, 1, || RIdentifier { callsite: 70 });
    assert_eq!(id.callsite, 50);
    let id = RIdentifier::from_address(&mut tables.callsites, 2, || RIdentifier { callsite: 70 });
    assert_eq!(id.callsite, 70);
}

#[test]
fn received_metadata_is_made_once() {
    let fields = RFieldSet { names: &["a"], callsite: RIdentifier { callsite: 5 } };
    let event = metadata(Kind::EVENT);
    let crossed = RMetadata::from_metadata(event, None, fields);
    let mut known = Registry::new();
    let first = crossed.metadata_ref(&mut known, 7, far());
    let second = crossed.metadata_ref(&mut known, 7, near());
    assert!(std::ptr::eq(first, second));
    assert!(second.callsite() == far());
}

#[test]
fn callsites_have_their_own_to_stand_for_them() {
    let mut callsites = Registry::new();
    let addresses = [10, 20, 10, 30, 20];
    let mut identifiers = Vec::new();
    for (made, address) in addresses.into_iter().enumerate() {
        let value = || RIdentifier { callsite: 100 + made };
        identifiers.push(RIdentifier::from_address(&mut callsites, address, value));
    }
    for i in 0..5 {
        for j in 0..5 {
            assert_eq!(identifiers[i] == identifiers[j], addresses[i] == addresses[j]);
        }
    }
}

#[test]
fn a_field_is_sent_with_its_callsite() {
    let mut tables = Tables::new();
    let event = metadata(Kind::EVENT);
    tables.metadata_ref(100, event, MODULE, 1, || RIdentifier { callsite: 50 });
    let field = event.fields().field("b").unwrap();
    let crossed = tables.field(1, &field, || RIdentifier { callsite: 60 });
    assert_eq!(crossed.name, "b");
    assert_eq!(crossed.fields.names, ["a", "b"]);
    assert_eq!(crossed.fields.callsite.callsite, 50);
}

#[test]
fn later_requests_are_answered_alike() {
    let mut tables = Tables::new();
    let event = metadata(Kind::EVENT);
    let span = metadata(Kind::SPAN);
    let identifier = || RIdentifier { callsite: 50 };
    let first = tables.metadata_ref(100, event, MODULE, 1, identifier);
    tables.metadata_ref(200, span, MODULE, 1, identifier);
    tables.fields(2, &FieldSet::new(&["c"], near()), || RIdentifier { callsite: 60 });
    let later = tables.metadata_ref(100, event, MODULE, 1, identifier);
    assert!(std::ptr::eq(first, later));
    assert_eq!(later.name, event.name());
    assert_eq!(later.fields.names, ["a", "b"]);
    assert!(later.kind.is_event());
    assert_eq!(tables.names.try_get(&1), Some(later.fields.names));
    assert_eq!(tables.callsites.try_get(&1), Some(later.fields.callsite));
    assert_eq!(tables.names.try_get(&3), None);
    let mut known = Registry::new();
    let received = later.metadata_ref(&mut known, 7, far());
    tables.metadata_ref(200, span, MODULE, 1, identifier).metadata_ref(&mut known, 8, far());
    let again = later.metadata_ref(&mut known, 7, far());
    assert!(std::ptr::eq(received, again));
    assert_eq!(again.name(), event.name());
    assert!(again.is_event());
}
