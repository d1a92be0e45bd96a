use abi_stable::std_types::RResult;
use bumpalo::Bump;
use ruchei_ffi::tracing::field::{RField, RFieldSet, RIdentifier};
use ruchei_ffi::tracing::kind::RKind;
use ruchei_ffi::tracing::level::RLevel;
use ruchei_ffi::tracing::metadata::{RMetadata, Tables};
use ruchei_ffi::tracing::value::{
    debug_answer, debug_result, value_set, BumpVisit, FieldVisit, RFieldValue, RRecord, RValueSet,
    MAX_VALUES,
};
use tracing_core::callsite::Identifier;
use tracing_core::field::{Field, FieldSet};
use tracing_core::{Callsite, Interest, Metadata};

struct Site(u8);

impl Callsite for Site {
    fn set_interest(&self, _: Interest) {}

    fn metadata(&self) -> &Metadata<'_> {
        panic!("no metadata for callsite {}", self.0)
    }
}

static SITE: Site = Site(1);

fn identifier() -> RIdentifier {
    RIdentifier { callsite: 70 }
}

/// Fields of the callsite at 10 that have a number for a name.
fn fields(tables: &mut Tables, count: usize) -> Vec<Field> {
    let mut names: Vec<&'static str> = Vec::new();
    for number in 0..count {
        names.push(format!("{}", number).leak());
    }
    let set = FieldSet::new(names.leak(), Identifier(&SITE));
    tables.fields(10, &set, identifier);
    set.iter().collect()
}

const FIELDS: RFieldSet = RFieldSet { names: &["a", "b"], callsite: RIdentifier { callsite: 1 } };

fn metadata() -> RMetadata<'static> {
    RMetadata {
        name: "name",
        target: "",
        level: RLevel::Info,
        module: None,
        file: None,
        line: None,
        fields: FIELDS,
        kind: RKind::empty().span(true),
    }
}

fn items(count: usize) -> Vec<RFieldValue> {
    let field = RField { name: "a", fields: FIELDS };
    (0..count).map(|place| RFieldValue { field, holder: 3, place }).collect()
}

fn places(items: &[RFieldValue]) -> Vec<usize> {
    items.iter().map(|item| item.place).collect()
}

#[test]
fn fields_are_collected_in_order() {
    let bump = Bump::new();
    let mut tables = Tables::new();
    let fields = fields(&mut tables, 5);
    let mut visit = BumpVisit::new(&bump);
    assert!(visit.as_slice().is_empty());
    visit.record_debug(&mut tables, 10, &fields[4], identifier);
    visit.record_debug(&mut tables, 10, &fields[1], identifier);
    visit.record_debug(&mut tables, 10, &fields[4], identifier);
    assert_eq!(places(visit.as_slice()), [4, 1, 4]);
    let set = RValueSet::from_visit(&visit, &metadata());
    assert_eq!(places(set.values), [4, 1, 4]);
    assert_eq!(set.fields.names, ["a", "b"]);
    let record = RRecord { values: &set };
    assert_eq!(record.values.values.len(), 3);
}

#[test]
fn fields_are_collected_with_their_names() {
    let bump = Bump::new();
    let mut tables = Tables::new();
    let fields = fields(&mut tables, 3);
    let mut visit = BumpVisit::new(&bump);
    visit.record_debug(&mut tables, 10, &fields[2], identifier);
    let item = visit.as_slice()[0];
    assert_eq!(item.field.name, "2");
    assert_eq!(item.field.fields.names, ["0", "1", "2"]);
    assert_eq!(item.field.fields.callsite.callsite, 70);
    assert_eq!(item.holder, 10);
    assert_eq!(item.place, 2);
}

#[test]
fn no_more_fields_are_collected_than_cross() {
    assert_eq!(MAX_VALUES, 256);
    let bump = Bump::new();
    let mut tables = Tables::new();
    let mut visit = BumpVisit::new(&bump);
    for (number, field) in fields(&mut tables, 300).iter().enumerate() {
        assert_eq!(visit.has_room(), number < 256);
        visit.record_debug(&mut tables, 10, field, identifier);
    }
    let expected: Vec<usize> = (0..256).collect();
    assert_eq!(places(visit.as_slice()), expected);
    assert_eq!(visit.as_slice()[255].field.name, "255");
}

#[test]
fn values_are_handed_on() {
    let bump = Bump::new();
    let mut values = items(256);
    values.reverse();
    let set = RValueSet { values: &values, fields: FIELDS };
    assert_eq!(places(set.values(&bump).as_slice()), places(&values));
    let many = items(257);
    let set = RValueSet { values: &many, fields: FIELDS };
    assert_eq!(places(set.values(&bump).as_slice()), places(&many[..256]));
    let set = RValueSet { values: &[], fields: FIELDS };
    assert!(set.values(&bump).as_slice().is_empty());
}

#[test]
fn a_value_set_is_cut_off() {
    let few = [1, 2, 3];
    assert_eq!(value_set(&few), few);
    let all: Vec<u16> = (0..256).collect();
    assert_eq!(value_set(&all), all);
    let many: Vec<u16> = (0..1000).collect();
    assert_eq!(value_set(&many), all);
}

#[test]
fn the_first_value_of_a_field_is_taken() {
    let fields = fields(&mut Tables::new(), 3);
    let field = RField { name: "2", fields: FIELDS };
    let mut visit = FieldVisit::new(&RFieldValue { field, holder: 10, place: 2 });
    visit.record_debug(10, &fields[1], || panic!("another field"));
    visit.record_debug(11, &fields[2], || panic!("another callsite"));
    assert!(!visit.is_found());
    visit.record_debug(10, &fields[2], || "first");
    assert!(visit.is_found());
    visit.record_debug(10, &fields[2], || panic!("found before"));
    assert_eq!(visit.into_result(), "first");
}

#[test]
fn writing_out_ends_alike() {
    assert_eq!(debug_answer::<u8>(Ok(())), RResult::ROk(()));
    assert_eq!(debug_answer(Err(3)), RResult::RErr(()));
    assert_eq!(debug_result(RResult::ROk(())), Ok(()));
    assert_eq!(debug_result(RResult::RErr(())), Err(()));
}
