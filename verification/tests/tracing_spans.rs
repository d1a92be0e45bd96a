use ruchei_ffi::tracing::field::{RFieldSet, RIdentifier};
use ruchei_ffi::tracing::kind::RKind;
use ruchei_ffi::tracing::level::RLevel;
use ruchei_ffi::tracing::metadata::{RMetadata, Tables};
use ruchei_ffi::tracing::span::{RArcSubscriber, RAttributes, RCurrent, REvent, RId, RParent};
use ruchei_ffi::tracing::value::RValueSet;
use tracing_core::callsite::Identifier;
use tracing_core::field::FieldSet;
use tracing_core::span::{Attributes, Current, Id};
use tracing_core::subscriber::{NoSubscriber, Subscriber};
use tracing_core::{Callsite, Event, Interest, Kind, Level, Metadata};

struct Site;

impl Callsite for Site {
    fn set_interest(&self, _: Interest) {}

    fn metadata(&self) -> &Metadata<'_> {
        panic!("no metadata")
    }
}

static SITE: Site = Site;

fn crossed() -> &'static RMetadata<'static> {
    Box::leak(Box::new(RMetadata {
        name: "crossed",
        target: "",
        level: RLevel::Info,
        module: None,
        file: None,
        line: None,
        fields: FIELDS,
        kind: RKind::empty().span(true),
    }))
}

const FIELDS: RFieldSet = RFieldSet { names: &[], callsite: RIdentifier { callsite: 1 } };

static METADATA: Metadata<'static> = Metadata::new(
    "name",
    "target",
    Level::INFO,
    None,
    None,
    None,
    FieldSet::new(&["a", "b"], Identifier(&SITE)),
    Kind::SPAN,
);

fn id(number: u64) -> RId {
    RId::new(number).expect("zero is no span")
}

#[test]
fn zero_is_no_span() {
    assert!(RId::new(0).is_none());
    assert_eq!(id(3).get(), 3);
}

#[test]
fn span_numbers_cross() {
    let crossed = RId::from(Id::from_u64(77));
    assert_eq!(crossed.get(), 77);
    assert_eq!(crossed.id(), Id::from_u64(77));
    assert_eq!(Id::from(crossed), Id::from_u64(77));
    assert_eq!(RId::from_id(&Id::from_u64(u64::MAX)).get(), u64::MAX);
}

#[test]
fn a_parent_passes_its_tests() {
    assert!(matches!(RParent::from_tests(None, true), RParent::Current));
    assert!(matches!(RParent::from_tests(None, false), RParent::Root));
    assert!(matches!(RParent::from_tests(Some(id(4)), true), RParent::Explicit(p) if p.get() == 4));
}

fn send_span<'a>(
    span: &Attributes<'_>,
    tables: &mut Tables,
    values: &'a RValueSet<'a>,
) -> RAttributes<'a> {
    let identifier = || RIdentifier { callsite: 50 };
    RAttributes::from_attributes(span, tables, 100, Some("module"), 1, identifier, values)
}

fn send_event<'a>(
    event: &Event<'_>,
    tables: &mut Tables,
    values: &'a RValueSet<'a>,
) -> REvent<'a> {
    let identifier = || RIdentifier { callsite: 50 };
    REvent::from_event(event, tables, 100, Some("module"), 1, identifier, values)
}

#[test]
fn spans_hang_in_the_same_place() {
    let fields = METADATA.fields();
    let values = fields.value_set(&[]);
    let set = RValueSet { values: &[], fields: FIELDS };
    let mut tables = Tables::new();

    let root = send_span(&Attributes::new_root(&METADATA, &values), &mut tables, &set);
    assert!(matches!(root.parent, RParent::Root));
    assert!(std::ptr::eq(root.values, &set));
    let back = root.attributes(&METADATA, &values);
    assert!(back.is_root() && !back.is_contextual() && back.parent().is_none());
    assert!(std::ptr::eq(back.metadata(), &METADATA));

    let current = send_span(&Attributes::new(&METADATA, &values), &mut tables, &set);
    assert!(matches!(current.parent, RParent::Current));
    let back = current.attributes(&METADATA, &values);
    assert!(back.is_contextual() && !back.is_root() && back.parent().is_none());

    let child = Attributes::child_of(Id::from_u64(8), &METADATA, &values);
    let child = send_span(&child, &mut tables, &set);
    assert!(matches!(&child.parent, RParent::Explicit(parent) if parent.get() == 8));
    let back = child.attributes(&METADATA, &values);
    assert_eq!(back.parent(), Some(&Id::from_u64(8)));
}

#[test]
fn a_span_is_sent_with_its_metadata() {
    let fields = METADATA.fields();
    let values = fields.value_set(&[]);
    let set = RValueSet { values: &[], fields: FIELDS };
    let mut tables = Tables::new();
    let first = send_span(&Attributes::new(&METADATA, &values), &mut tables, &set);
    assert_eq!(first.metadata.name, "name");
    assert_eq!(first.metadata.target, "target");
    assert_eq!(first.metadata.level, RLevel::Info);
    assert_eq!(first.metadata.module, Some("module"));
    assert_eq!(first.metadata.fields.names, ["a", "b"]);
    assert_eq!(first.metadata.fields.callsite.callsite, 50);
    assert!(first.metadata.kind.is_span());
    let second = send_event(&Event::new(&METADATA, &values), &mut tables, &set);
    assert!(std::ptr::eq(first.metadata, second.metadata));
    assert!(tables.names.try_get(&1).is_some());
    let mut others = Tables::new();
    let event = send_event(&Event::new(&METADATA, &values), &mut others, &set);
    assert_eq!(event.metadata.name, "name");
    assert_eq!(event.metadata.fields.names, ["a", "b"]);
}

#[test]
fn a_span_comes_out_as_it_went_in() {
    let fields = METADATA.fields();
    let values = fields.value_set(&[]);
    let set = RValueSet { values: &[], fields: FIELDS };
    let mut tables = Tables::new();
    let sent = Attributes::child_of(Id::from_u64(3), &METADATA, &values);
    let crossed = send_span(&sent, &mut tables, &set);
    let metadata: &'static Metadata<'static> =
        Box::leak(Box::new(crossed.metadata.metadata(Identifier(&SITE))));
    let received = crossed.attributes(metadata, &values);
    assert_eq!(received.parent(), sent.parent());
    assert_eq!(received.metadata().name(), "name");
    assert_eq!(received.metadata().target(), "target");
    assert_eq!(received.metadata().level(), &Level::INFO);
    assert_eq!(received.metadata().file(), Some("module"));
    assert_eq!(received.metadata().fields().len(), 2);
    assert!(received.metadata().is_span());
}

#[test]
fn events_hang_in_the_same_place() {
    let fields = METADATA.fields();
    let values = fields.value_set(&[]);
    let set = RValueSet { values: &[], fields: FIELDS };
    let mut tables = Tables::new();

    let root = send_event(&Event::new_child_of(None, &METADATA, &values), &mut tables, &set);
    assert!(matches!(root.parent, RParent::Root));
    assert!(root.event(&METADATA, &values).is_root());

    let current = send_event(&Event::new(&METADATA, &values), &mut tables, &set);
    assert!(matches!(current.parent, RParent::Current));
    assert!(current.event(&METADATA, &values).is_contextual());

    let child = Event::new_child_of(Id::from_u64(9), &METADATA, &values);
    let child = send_event(&child, &mut tables, &set);
    assert!(matches!(&child.parent, RParent::Explicit(parent) if parent.get() == 9));
    let back = child.event(&METADATA, &values);
    assert_eq!(back.parent(), Some(&Id::from_u64(9)));
    assert!(std::ptr::eq(back.metadata(), &METADATA));
}

#[test]
fn the_current_span_crosses() {
    let metadata = crossed();
    let current = Current::new(Id::from_u64(5), &METADATA);
    let sent = RCurrent::from_current(current, |found| {
        assert!(std::ptr::eq(found, &METADATA));
        metadata
    });
    assert!(matches!(&sent, RCurrent::Current { id, metadata } if id.get() == 5 && metadata.name == "crossed"));
    let received = sent.into_current(|found| {
        assert_eq!(found.name, "crossed");
        &METADATA
    });
    assert_eq!(received.id(), Some(&Id::from_u64(5)));
    assert!(received.is_known());
}

#[test]
fn no_current_span_crosses() {
    let sent = RCurrent::from_current(Current::none(), |_| crossed());
    assert!(matches!(sent, RCurrent::Nothing));
    let received = sent.into_current(|_| &METADATA);
    assert!(received.is_known() && received.id().is_none());
}

#[test]
fn an_unknown_current_span_crosses() {
    let sent = RCurrent::from_current(NoSubscriber::new().current_span(), |_| crossed());
    assert!(matches!(sent, RCurrent::Unknown));
    let received = sent.into_current(|_| &METADATA);
    assert!(!received.is_known() && received.id().is_none());
}

#[test]
fn a_current_span_passes_its_tests() {
    assert!(matches!(RCurrent::from_tests(true, None), RCurrent::Nothing));
    assert!(matches!(RCurrent::from_tests(false, None), RCurrent::Unknown));
    let entered = RCurrent::from_tests(true, Some((id(6), crossed())));
    assert!(matches!(entered, RCurrent::Current { id, .. } if id.get() == 6));
}

#[test]
fn values_are_recorded_for_open_spans() {
    let mut spans = RArcSubscriber::new();
    assert_eq!(spans.record(&id(1)), None);
    spans.new_span(&id(1), "one");
    spans.new_span(&id(2), "two");
    assert_eq!(spans.record(&id(1)), Some("one"));
    assert!(!spans.try_close(&id(1), false));
    assert_eq!(spans.record(&id(1)), Some("one"));
    assert!(spans.try_close(&id(1), true));
    assert_eq!(spans.record(&id(1)), None);
    assert_eq!(spans.record(&id(2)), Some("two"));
    spans.new_span(&id(1), "again");
    assert_eq!(spans.record(&id(1)), Some("again"));
}
