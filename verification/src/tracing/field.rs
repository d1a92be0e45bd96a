//! The fields of a callsite, and the tables that keep their names.

use crate::registry::{
    an_answer_was_made_on_the_first_request, entry_stays, is_run, lookup, starts_empty, Registry,
};
use tracing_core::callsite::Identifier;
use tracing_core::field::{Field, FieldSet};
use vstd::prelude::*;

verus! {

/// `tracing_core`'s `Identifier` of a callsite.
#[verifier::external_type_specification]
#[verifier::external_body]
pub struct ExIdentifier(Identifier);

/// `tracing_core`'s `FieldSet`, whose parts stay hidden.
#[verifier::external_type_specification]
#[verifier::external_body]
pub struct ExFieldSet(FieldSet);

/// `tracing_core`'s `Field`, whose parts stay hidden.
#[verifier::external_type_specification]
#[verifier::external_body]
pub struct ExField(Field);

/// What a `FieldSet` holds: the names of the fields, in order, and the callsite that they
/// belong to.
pub struct FieldSetView {
    pub names: Seq<Seq<char>>,
    pub callsite: Identifier,
}

/// What a `Field` holds: the set that it is of, and its place there.
pub struct FieldView {
    pub set: FieldSetView,
    pub index: usize,
}

/// What a `FieldSet` holds.
pub uninterp spec fn field_set_view(fields: FieldSet) -> FieldSetView;

/// What a `Field` holds.
pub uninterp spec fn field_view(field: Field) -> FieldView;

/// The characters of each name.
pub open spec fn names_view(names: Seq<&'static str>) -> Seq<Seq<char>> {
    names.map_values(|name: &'static str| name@)
}

/// `name` stands at `index` among `names`.
pub open spec fn is_at(names: Seq<Seq<char>>, name: Seq<char>, index: int) -> bool {
    0 <= index < names.len() && names[index] == name
}

/// `name` stands at `index` among `names`, and nowhere before.
pub open spec fn is_first(names: Seq<Seq<char>>, name: Seq<char>, index: int) -> bool {
    &&& is_at(names, name, index)
    &&& forall|i: int| 0 <= i < index ==> names[i] != name
}

/// `Field::name`: the name at the field's place among those of its set. There must be such a
/// place, which is not so of the field that `tracing_core` makes up for a callsite without
/// fields.
pub assume_specification[ Field::name ](field: &Field) -> (name: &'static str)
    requires
        field_view(*field).index < field_view(*field).set.names.len(),
    ensures
        is_at(field_view(*field).set.names, name@, field_view(*field).index as int),
;

/// `Field::index`: the field's place in its set.
pub assume_specification[ Field::index ](field: &Field) -> (index: usize)
    ensures
        index == field_view(*field).index,
;

/// `FieldSet::new`: the set of the given names for the given callsite.
pub assume_specification[ FieldSet::new ](
    names: &'static [&'static str],
    callsite: Identifier,
) -> (fields: FieldSet)
    ensures
        field_set_view(fields) == (FieldSetView { names: names_view(names@), callsite }),
;

/// `FieldSet::iter` and `Field::name`: the names of the fields, in order.
#[verifier::external_body]
fn field_set_names(fields: &FieldSet) -> (names: Vec<&'static str>)
    ensures
        names_view(names@) == field_set_view(*fields).names,
{
    fields.iter().map(|field| field.name()).collect()
}

/// `FieldSet::field`: the first field of the given name, or nothing where the set has no
/// field of that name.
#[verifier::external_body]
fn field_set_field(fields: &FieldSet, name: &str) -> (field: Option<Field>)
    ensures
        match field {
            Some(field) => {
                &&& field_view(field).set == field_set_view(*fields)
                &&& is_first(field_set_view(*fields).names, name@, field_view(field).index as int)
            },
            None => !field_set_view(*fields).names.contains(name@),
        },
{
    fields.field(name)
}

/// `Vec::leak`: the same items, for the rest of the program.
#[verifier::external_body]
fn leak_names(names: Vec<&'static str>) -> (leaked: &'static [&'static str])
    ensures
        leaked@ == names@,
{
    names.leak()
}

/// A callsite on this side of the boundary, known by the address of what stands for it on
/// the other.
#[derive(Clone, Copy, Debug, PartialEq, Eq, Structural)]
pub struct RIdentifier {
    pub callsite: usize,
}

/// The names of the fields of a callsite.
#[derive(Clone, Copy)]
pub struct RFieldSet {
    pub names: &'static [&'static str],
    pub callsite: RIdentifier,
}

/// One field of a callsite.
#[derive(Clone, Copy)]
pub struct RField {
    pub name: &'static str,
    pub fields: RFieldSet,
}

/// No two callsites have the same to stand for them.
pub open spec fn told_apart(callsites: Map<usize, RIdentifier>) -> bool {
    forall|a: usize, b: usize|
        #![trigger callsites[a], callsites[b]]
        callsites.contains_key(a) && callsites.contains_key(b) && callsites[a].callsite
            == callsites[b].callsite ==> a == b
}

/// `identifier` stands for no callsite.
pub open spec fn is_unused(callsites: Map<usize, RIdentifier>, identifier: RIdentifier) -> bool {
    forall|a: usize| #[trigger]
        callsites.contains_key(a) ==> callsites[a].callsite != identifier.callsite
}

/// A request that was answered with `identifier` made nothing that stands for another callsite.
pub open spec fn made_new(
    before: Map<usize, RIdentifier>,
    address: usize,
    identifier: RIdentifier,
) -> bool {
    before.contains_key(address) || is_unused(before, identifier)
}

impl RIdentifier {
    /// What stands for the callsite at an address; it is made on the first request. As long as
    /// `value` makes what stands for no other callsite yet, callsites are told apart.
    pub fn from_address<F: FnOnce() -> RIdentifier>(
        callsites: &mut Registry<RIdentifier>,
        address: usize,
        value: F,
    ) -> (identifier: Self)
        requires
            old(callsites).wf(),
            !old(callsites)@.contains_key(address) ==> value.requires(()),
        ensures
            final(callsites).wf(),
            final(callsites)@ == old(callsites)@.insert(address, identifier),
            match lookup(old(callsites)@, address) {
                Some(known) => identifier == known,
                None => value.ensures((), identifier),
            },
            told_apart(old(callsites)@) && made_new(old(callsites)@, address, identifier)
                ==> told_apart(final(callsites)@),
    {
        callsites.get(address, value)
    }
}

impl RFieldSet {
    /// The names of the fields of the callsite at an address. They are taken from
    /// `fields` on the first request.
    pub fn register_names(
        known: &mut Registry<&'static [&'static str]>,
        address: usize,
        fields: &FieldSet,
    ) -> (names: &'static [&'static str])
        requires
            old(known).wf(),
        ensures
            final(known).wf(),
            final(known)@ == old(known)@.insert(address, names),
            match lookup(old(known)@, address) {
                Some(registered) => names == registered,
                None => names_view(names@) == field_set_view(*fields).names,
            },
    {
        let collect = || -> (names: &'static [&'static str])
            ensures
                names_view(names@) == field_set_view(*fields).names,
        {
            leak_names(field_set_names(fields))
        };
        known.get(address, collect)
    }

    /// The set of fields on the other side of the boundary, where `callsite` is what
    /// stands for the callsite.
    pub fn fields(&self, callsite: Identifier) -> (fields: FieldSet)
        ensures
            field_set_view(fields) == (FieldSetView { names: names_view(self.names@), callsite }),
    {
        FieldSet::new(self.names, callsite)
    }
}

impl RField {
    /// A field for the way over the boundary, where its callsite stands at an address and
    /// is known on the other side as `callsite`. The names of the callsite must have been
    /// registered, which they are once its metadata has been handed over, and the field must
    /// have its place among those of its set.
    pub fn from_field(
        known: &Registry<&'static [&'static str]>,
        address: usize,
        field: &Field,
        callsite: RIdentifier,
    ) -> (crossed: Self)
        requires
            known.wf(),
            known@.contains_key(address),
            field_view(*field).index < field_view(*field).set.names.len(),
        ensures
            is_at(field_view(*field).set.names, crossed.name@, field_view(*field).index as int),
            crossed.fields == (RFieldSet { names: known@[address], callsite }),
    {
        match known.try_get(&address) {
            Some(names) => RField { name: field.name(), fields: RFieldSet { names, callsite } },
            None => vstd::pervasive::unreached(),
        }
    }

    /// The field on the other side of the boundary, where `callsite` is what stands for
    /// the callsite. The name must be one of the callsite's.
    pub fn field(&self, callsite: Identifier) -> (field: Field)
        requires
            names_view(self.fields.names@).contains(self.name@),
        ensures
            field_view(field).set == (FieldSetView {
                names: names_view(self.fields.names@),
                callsite,
            }),
            is_first(names_view(self.fields.names@), self.name@, field_view(field).index as int),
    {
        let fields = self.fields.fields(callsite);
        match field_set_field(&fields, self.name) {
            Some(field) => field,
            None => vstd::pervasive::unreached(),
        }
    }
}

/// A field comes back as the field of the same name at the same place, as long as no two
/// fields of its callsite share a name.
///
/// `crossed` is what `field` becomes for the way over the boundary, with the names of its
/// set, and `received` what it becomes there.
pub proof fn fields_cross_unchanged(field: FieldView, crossed: RField, received: FieldView)
    requires
        field.set.names.no_duplicates(),
        is_at(field.set.names, crossed.name@, field.index as int),
        names_view(crossed.fields.names@) == field.set.names,
        received.set.names == names_view(crossed.fields.names@),
        is_first(received.set.names, crossed.name@, received.index as int),
    ensures
        names_view(crossed.fields.names@).contains(crossed.name@),
        received.index == field.index,
        received.set.names == field.set.names,
{
    assert(field.set.names[field.index as int] == crossed.name@);
}

/// Callsites are told apart across the boundary: in a run of requests that starts from no
/// callsite, two of them are answered with the same if and only if they are for the same
/// callsite, as long as what is made on a first request stands for no other callsite.
///
/// `callsites` is what is known after each request for one of the `addresses`, and
/// `identifiers` are the answers.
pub proof fn callsites_are_told_apart(
    addresses: Seq<usize>,
    identifiers: Seq<RIdentifier>,
    callsites: Seq<Map<usize, RIdentifier>>,
    i: int,
    j: int,
)
    requires
        is_run(addresses, identifiers, callsites),
        starts_empty(addresses, identifiers, callsites),
        forall|n: int|
            0 < n < addresses.len() ==> #[trigger] made_new(
                callsites[n - 1],
                addresses[n],
                identifiers[n],
            ),
        0 <= i < addresses.len(),
        0 <= j < addresses.len(),
    ensures
        identifiers[i].callsite == identifiers[j].callsite <==> addresses[i] == addresses[j],
{
    let last = addresses.len() - 1;
    stay_told_apart(addresses, identifiers, callsites, last);
    entry_stays(addresses, identifiers, callsites, i, last);
    entry_stays(addresses, identifiers, callsites, j, last);
}

proof fn stay_told_apart(
    addresses: Seq<usize>,
    identifiers: Seq<RIdentifier>,
    callsites: Seq<Map<usize, RIdentifier>>,
    n: int,
)
    requires
        is_run(addresses, identifiers, callsites),
        starts_empty(addresses, identifiers, callsites),
        forall|n: int|
            0 < n < addresses.len() ==> #[trigger] made_new(
                callsites[n - 1],
                addresses[n],
                identifiers[n],
            ),
        0 <= n < addresses.len(),
    ensures
        told_apart(callsites[n]),
    decreases n,
{
    if n > 0 {
        stay_told_apart(addresses, identifiers, callsites, n - 1);
        assert(made_new(callsites[n - 1], addresses[n], identifiers[n]));
        assert(callsites[n] == callsites[n - 1].insert(addresses[n], identifiers[n]));
    }
}

/// What is registered for a callsite are the names of its fields, on every request and not only
/// on the first: in a run of requests that starts from nothing, where requests for one callsite
/// come with fields of the same names, each is answered with the names that it came with.
///
/// `known` is what is registered after each request for one of the `addresses`, `fields` are the
/// names of the fields that it came with, and `names` are the answers.
pub proof fn registered_names_are_those_of_the_fields(
    addresses: Seq<usize>,
    fields: Seq<Seq<Seq<char>>>,
    names: Seq<&'static [&'static str]>,
    known: Seq<Map<usize, &'static [&'static str]>>,
    j: int,
)
    requires
        is_run(addresses, names, known),
        starts_empty(addresses, names, known),
        fields.len() == addresses.len(),
        forall|n: int|
            #![trigger names[n]]
            0 <= n < addresses.len() && (n > 0 ==> !known[n - 1].contains_key(addresses[n]))
                ==> names_view(names[n]@) == fields[n],
        forall|m: int, n: int|
            0 <= m < addresses.len() && 0 <= n < addresses.len() && addresses[m] == addresses[n]
                ==> #[trigger] fields[m] == #[trigger] fields[n],
        0 <= j < addresses.len(),
    ensures
        names_view(names[j]@) == fields[j],
{
    let i = an_answer_was_made_on_the_first_request(addresses, names, known, j);
    assert(names_view(names[i]@) == fields[i]);
}

/// A field crosses under its own name, which is the one at its place among those of its set, and
/// with the names that are registered for its callsite.
pub proof fn a_field_crosses_under_its_own_name(
    known: Registry<&'static [&'static str]>,
    address: usize,
    field: Field,
    callsite: RIdentifier,
    names: Option<&'static [&'static str]>,
    crossed: RField,
)
    requires
        call_ensures(
            Registry::<&'static [&'static str]>::try_get,
            (&known, &address),
            names,
        ),
        names is Some,
        call_ensures(RField::from_field, (&known, address, &field, callsite), crossed),
    ensures
        0 <= field_view(field).index < field_view(field).set.names.len(),
        crossed.name@ == field_view(field).set.names[field_view(field).index as int],
        crossed.fields.names == names->Some_0,
        crossed.fields.callsite == callsite,
{
}

/// A field comes out under the name that it crossed under: it is a field of the callsite's names,
/// at a place where that name stands, and it can be made of any name that is among them.
pub proof fn a_field_comes_out_under_its_name(
    crossed: RField,
    callsite: Identifier,
    received: Field,
    place: int,
)
    requires
        0 <= place < crossed.fields.names@.len(),
        crossed.fields.names@[place]@ == crossed.name@,
        call_ensures(RField::field, (&crossed, callsite), received),
    ensures
        call_requires(RField::field, (&crossed, callsite)),
        field_view(received).set.callsite == callsite,
        field_view(received).set.names.len() == crossed.fields.names@.len(),
        field_view(received).index < crossed.fields.names@.len(),
        crossed.fields.names@[field_view(received).index as int]@ == crossed.name@,
        field_view(received).index <= place,
{
    assert(names_view(crossed.fields.names@)[place] == crossed.name@);
}

/// A field that is sent and received has the name and the place that it had, where the names that
/// are registered for its callsite are those of its set and no two of them are the same.
pub proof fn a_field_comes_back_as_it_went(
    known: Registry<&'static [&'static str]>,
    address: usize,
    field: Field,
    stands: RIdentifier,
    crossed: RField,
    callsite: Identifier,
    received: Field,
)
    requires
        call_ensures(RField::from_field, (&known, address, &field, stands), crossed),
        names_view(crossed.fields.names@) == field_view(field).set.names,
        field_view(field).set.names.no_duplicates(),
        call_ensures(RField::field, (&crossed, callsite), received),
    ensures
        field_view(received).index == field_view(field).index,
        field_view(received).set.names == field_view(field).set.names,
        field_view(received).set.callsite == callsite,
{
}

/// A set of fields comes out with the names that it crossed with, in the same order, for the
/// callsite that stands for its own.
pub proof fn a_set_of_fields_comes_out_in_order(
    crossed: RFieldSet,
    callsite: Identifier,
    fields: FieldSet,
    i: int,
)
    requires
        call_ensures(RFieldSet::fields, (&crossed, callsite), fields),
    ensures
        field_set_view(fields).callsite == callsite,
        field_set_view(fields).names.len() == crossed.names@.len(),
        0 <= i < crossed.names@.len() ==> field_set_view(fields).names[i] == crossed.names@[i]@,
{
}

/// The names that are registered for a callsite are those of the fields that the first request
/// for it came with, in order, and a later request is answered with the same.
pub proof fn names_are_registered_in_order(
    known: &mut Registry<&'static [&'static str]>,
    later: &mut Registry<&'static [&'static str]>,
    address: usize,
    fields: FieldSet,
    later_fields: FieldSet,
    before: Option<&'static [&'static str]>,
    names: &'static [&'static str],
    later_names: &'static [&'static str],
    i: int,
)
    requires
        call_ensures(
            Registry::<&'static [&'static str]>::try_get,
            (&*old(known), &address),
            before,
        ),
        call_ensures(RFieldSet::register_names, (known, address, &fields), names),
        *old(later) == *final(known),
        call_ensures(RFieldSet::register_names, (later, address, &later_fields), later_names),
    ensures
        before is Some ==> names == before->Some_0,
        before is None ==> names@.len() == field_set_view(fields).names.len(),
        before is None && 0 <= i < names@.len() ==> names@[i]@ == field_set_view(fields).names[i],
        later_names == names,
{
    assert(names_view(names@).len() == names@.len());
    if 0 <= i < names@.len() {
        assert(names_view(names@)[i] == names@[i]@);
    }
}

/// What stands for a callsite is made once: a later request for the callsite is answered with the
/// same, whatever it would make, and what stands for another callsite stays.
pub proof fn a_callsite_keeps_what_stands_for_it<
    F: FnOnce() -> RIdentifier,
    G: FnOnce() -> RIdentifier,
>(
    callsites: &mut Registry<RIdentifier>,
    later: &mut Registry<RIdentifier>,
    address: usize,
    value: F,
    later_value: G,
    identifier: RIdentifier,
    later_identifier: RIdentifier,
    other: usize,
    other_before: Option<RIdentifier>,
    other_after: Option<RIdentifier>,
)
    requires
        call_ensures(RIdentifier::from_address::<F>, (callsites, address, value), identifier),
        *old(later) == *final(callsites),
        call_ensures(
            RIdentifier::from_address::<G>,
            (later, address, later_value),
            later_identifier,
        ),
        other != address,
        call_ensures(Registry::<RIdentifier>::try_get, (&*old(callsites), &other), other_before),
        call_ensures(Registry::<RIdentifier>::try_get, (&*final(callsites), &other), other_after),
    ensures
        later_identifier == identifier,
        other_after == other_before,
        lookup(old(callsites)@, address) is None ==> value.ensures((), identifier),
{
}

}
