//! The values that a span or an event carries.

use crate::registry::lookup;
use crate::tracing::field::{
    field_view, is_at, names_view, FieldView, RField, RFieldSet, RIdentifier,
};
use crate::tracing::metadata::{field_sent, fields_entered, RMetadata, Tables};
use abi_stable::std_types::RResult;
use bumpalo::collections::Vec as BumpVec;
use bumpalo::Bump;
use tracing_core::callsite::Identifier;
use tracing_core::field::Field;
use vstd::prelude::*;

verus! {

/// `bumpalo`'s arena.
#[verifier::external_type_specification]
#[verifier::external_body]
pub struct ExBump<const MIN_ALIGN: usize>(Bump<MIN_ALIGN>);

/// `bumpalo`'s vector, which allocates in an arena.
#[verifier::external_type_specification]
#[verifier::external_body]
#[verifier::reject_recursive_types(T)]
pub struct ExBumpVec<'bump, T>(BumpVec<'bump, T>);

/// The items of a vector in an arena.
pub uninterp spec fn bump_items(items: BumpVec<'_, RFieldValue>) -> Seq<RFieldValue>;

/// `bumpalo::collections::Vec::new_in`: a vector without items.
#[verifier::external_body]
fn bump_new<'bump>(bump: &'bump Bump) -> (items: BumpVec<'bump, RFieldValue>)
    ensures
        bump_items(items) == Seq::<RFieldValue>::empty(),
{
    BumpVec::new_in(bump)
}

/// `bumpalo::collections::Vec::len`: the number of items.
#[verifier::external_body]
fn bump_len(items: &BumpVec<'_, RFieldValue>) -> (len: usize)
    ensures
        len == bump_items(*items).len(),
{
    items.len()
}

/// `bumpalo::collections::Vec::push`: one more item, at the end. The number of items is
/// kept far from where the vector could not grow any more.
#[verifier::external_body]
fn bump_push(items: &mut BumpVec<'_, RFieldValue>, item: RFieldValue)
    requires
        bump_items(*old(items)).len() < MAX_VALUES,
    ensures
        bump_items(*final(items)) == bump_items(*old(items)).push(item),
{
    items.push(item);
}

/// `bumpalo::collections::Vec::as_slice`: the items, in order.
#[verifier::external_body]
fn bump_slice<'a>(items: &'a BumpVec<'_, RFieldValue>) -> (slice: &'a [RFieldValue])
    ensures
        slice@ == bump_items(*items),
{
    items.as_slice()
}

/// Marks the objects of the far side to which text is written.
pub struct FmtInterface;

/// Marks the objects of the far side that can be written out.
pub struct DebugInterface;

/// How writing a value out ended, for the way over the boundary.
pub fn debug_answer<E>(result: Result<(), E>) -> (answer: RResult<(), ()>)
    ensures
        answer == (match result {
            Ok(_) => RResult::ROk(()),
            Err(_) => RResult::RErr(()),
        }),
{
    match result {
        Ok(()) => RResult::ROk(()),
        Err(_) => RResult::RErr(()),
    }
}

/// How writing a value out ended on the far side.
pub fn debug_result(answer: RResult<(), ()>) -> (result: Result<(), ()>)
    ensures
        result == (match answer {
            RResult::ROk(_) => Ok(()),
            RResult::RErr(_) => Err(()),
        }),
{
    match answer {
        RResult::ROk(()) => Ok(()),
        RResult::RErr(()) => Err(()),
    }
}

/// The number of values of one span or event that cross the boundary; what goes beyond is
/// left out.
pub const MAX_VALUES: usize = 256;

/// The first items of a sequence, as many as cross the boundary.
pub open spec fn kept<T>(items: Seq<T>) -> Seq<T> {
    if items.len() <= MAX_VALUES {
        items
    } else {
        items.take(MAX_VALUES as int)
    }
}

/// What is collected once a further field was visited, where `before` was collected until
/// then.
pub open spec fn collected<T>(before: Seq<T>, field: T) -> Seq<T> {
    if before.len() < MAX_VALUES {
        before.push(field)
    } else {
        before
    }
}

/// A field that has a value: how the field crosses the boundary, and where its value is found
/// on this side. On the side that records the value that is the address of the field's callsite
/// and the field's place there.
#[derive(Clone, Copy)]
pub struct RFieldValue {
    pub field: RField,
    pub holder: usize,
    pub place: usize,
}

/// `item` is what is collected for a field of the callsite at an address, where `names` are those
/// that are registered for the callsite.
pub open spec fn field_collected(
    field: FieldView,
    callsite: usize,
    names: &'static [&'static str],
    item: RFieldValue,
) -> bool {
    &&& field_sent(field, names, item.field)
    &&& item.holder == callsite
    &&& item.place == field.index
}

/// Collects the fields that have a value, in the order in which they are visited.
pub struct BumpVisit<'bump> {
    fields: BumpVec<'bump, RFieldValue>,
}

impl<'bump> BumpVisit<'bump> {
    /// The fields collected so far.
    pub closed spec fn fields(self) -> Seq<RFieldValue> {
        bump_items(self.fields)
    }

    /// Nothing is collected yet.
    pub fn new(bump: &'bump Bump) -> (visit: Self)
        ensures
            visit.fields() == Seq::<RFieldValue>::empty(),
    {
        BumpVisit { fields: bump_new(bump) }
    }

    /// Whether a further field would be collected.
    pub fn has_room(&self) -> (result: bool)
        ensures
            result == (self.fields().len() < MAX_VALUES),
    {
        bump_len(&self.fields) < MAX_VALUES
    }

    /// Visits a field that has a value, of the callsite at an address. Where it is collected,
    /// the names of the callsite must have been registered, and the field must have its place
    /// among those of its set.
    pub fn record_debug<F: FnOnce() -> RIdentifier>(
        &mut self,
        tables: &mut Tables,
        callsite: usize,
        field: &Field,
        identifier: F,
    )
        requires
            old(tables).wf(),
            old(self).fields().len() < MAX_VALUES ==> {
                &&& old(tables).names@.contains_key(callsite)
                &&& field_view(*field).index < field_view(*field).set.names.len()
                &&& !old(tables).callsites@.contains_key(callsite) ==> identifier.requires(())
            },
        ensures
            final(tables).wf(),
            final(self).fields() == collected(old(self).fields(), final(self).fields().last()),
            if old(self).fields().len() < MAX_VALUES {
                &&& field_collected(
                    field_view(*field),
                    callsite,
                    old(tables).names@[callsite],
                    final(self).fields().last(),
                )
                &&& fields_entered(
                    *old(tables),
                    *final(tables),
                    callsite,
                    field_view(*field).set.names,
                    identifier,
                    final(self).fields().last().field.fields,
                )
                &&& final(tables).metadata@ == old(tables).metadata@
            } else {
                *final(tables) == *old(tables)
            },
    {
        if self.has_room() {
            let crossed = tables.field(callsite, field, identifier);
            bump_push(
                &mut self.fields,
                RFieldValue { field: crossed, holder: callsite, place: field.index() },
            );
        }
    }

    /// The fields collected so far.
    pub fn as_slice(&self) -> (fields: &[RFieldValue])
        ensures
            fields@ == self.fields(),
    {
        bump_slice(&self.fields)
    }
}

/// Looks for the value of one field, and takes what becomes of it.
pub struct FieldVisit<R> {
    callsite: usize,
    field: usize,
    result: Option<R>,
}

impl<R> FieldVisit<R> {
    /// The field that is looked for: the address of its callsite and its place there.
    pub closed spec fn wanted(self) -> (usize, usize) {
        (self.callsite, self.field)
    }

    /// What became of the value, once it was found.
    pub closed spec fn found(self) -> Option<R> {
        self.result
    }

    /// Looks for the value of a field that was collected; nothing is found yet.
    pub fn new(collected: &RFieldValue) -> (visit: Self)
        ensures
            visit.wanted() == (collected.holder, collected.place),
            visit.found() is None,
    {
        FieldVisit { callsite: collected.holder, field: collected.place, result: None }
    }

    /// Visits a field of the callsite at an address. If it is the one that is looked for,
    /// and was not found before, `value` is called for what becomes of its value; else it is
    /// not called.
    pub fn record_debug<F: FnOnce() -> R>(&mut self, callsite: usize, field: &Field, value: F)
        requires
            old(self).found() is None && (callsite, field_view(*field).index) == old(
                self,
            ).wanted() ==> value.requires(()),
        ensures
            final(self).wanted() == old(self).wanted(),
            taken(
                old(self).found(),
                (callsite, field_view(*field).index),
                old(self).wanted(),
                final(self).found(),
            ),
            final(self).found() != old(self).found() ==> value.ensures(
                (),
                final(self).found()->Some_0,
            ),
    {
        if self.result.is_none() && callsite == self.callsite && field.index() == self.field {
            self.result = Some(value());
        }
    }

    /// What became of the value, which must have been found.
    pub fn into_result(self) -> (result: R)
        requires
            self.found() is Some,
        ensures
            Some(result) == self.found(),
    {
        match self.result {
            Some(result) => result,
            None => vstd::pervasive::unreached(),
        }
    }

    /// Whether the field was found.
    pub fn is_found(&self) -> (result: bool)
        ensures
            result == self.found() is Some,
    {
        self.result.is_some()
    }
}

/// The values of a span or an event for the way over the boundary: which fields have one, and
/// all fields of the callsite.
#[derive(Clone, Copy)]
pub struct RValueSet<'a> {
    pub values: &'a [RFieldValue],
    pub fields: RFieldSet,
}

/// Values that are recorded for a span later on.
#[derive(Clone, Copy)]
pub struct RRecord<'a> {
    pub values: &'a RValueSet<'a>,
}

impl<'a> RValueSet<'a> {
    /// The values that were collected at a callsite with the given metadata.
    pub fn from_visit<'bump>(visit: &'a BumpVisit<'bump>, metadata: &RMetadata<'_>) -> (set: Self)
        ensures
            set.values@ == visit.fields(),
            set.fields == metadata.fields,
    {
        RValueSet { values: visit.as_slice(), fields: metadata.fields }
    }

    /// The fields whose values are handed on.
    pub fn values<'bump>(&self, bump: &'bump Bump) -> (visit: BumpVisit<'bump>)
        ensures
            visit.fields() == kept(self.values@),
    {
        let mut visit = BumpVisit::new(bump);
        let mut place: usize = 0;
        while place < self.values.len() && place < MAX_VALUES
            invariant
                place <= self.values@.len(),
                place <= MAX_VALUES,
                visit.fields() == self.values@.take(place as int),
            decreases self.values@.len() - place,
        {
            bump_push(&mut visit.fields, self.values[place]);
            place = place + 1;
            assert(self.values@.take(place as int) =~= self.values@.take(place - 1).push(
                self.values@[place - 1],
            ));
        }
        assert(self.values@.take(place as int) =~= kept(self.values@));
        visit
    }
}

/// The values out of `tuples` that make up a set of values.
pub fn value_set<T>(tuples: &[T]) -> (values: &[T])
    ensures
        values@ == kept(tuples@),
{
    if tuples.len() <= MAX_VALUES {
        tuples
    } else {
        vstd::slice::slice_subrange(tuples, 0, MAX_VALUES)
    }
}

/// Values are left out once at most: of the values that have crossed the boundary, all are
/// handed on.
pub proof fn what_crossed_is_handed_on<T>(items: Seq<T>)
    ensures
        kept(kept(items)) == kept(items),
{
}

/// With each further field that is visited, what is collected stays the part that is kept of
/// all visited fields.
pub proof fn collecting_keeps_the_first<T>(visited: Seq<T>, field: T)
    ensures
        kept(visited.push(field)) == collected(kept(visited), field),
{
    if visited.len() >= MAX_VALUES {
        assert(visited.push(field).take(MAX_VALUES as int) =~= visited.take(MAX_VALUES as int));
        assert(visited.take(visited.len() as int) =~= visited);
    }
}

/// The first values cross: what comes over the boundary, and is handed on there, is a first
/// part of all fields that were visited, and all of them where they are not too many.
///
/// `runs` is what has been collected before each of the visited fields, and after all of
/// them.
pub proof fn the_first_values_cross<T>(visited: Seq<T>, runs: Seq<Seq<T>>)
    requires
        runs.len() == visited.len() + 1,
        runs[0] == Seq::<T>::empty(),
        forall|n: int|
            #![trigger visited[n]]
            0 <= n < visited.len() ==> runs[n + 1] == collected(runs[n], visited[n]),
    ensures
        runs.last() == kept(visited),
        kept(runs.last()) == kept(visited),
        kept(visited).is_prefix_of(visited),
        visited.len() <= MAX_VALUES ==> runs.last() == visited,
    decreases visited.len(),
{
    if visited.len() > 0 {
        let last = visited.len() - 1;
        let earlier = visited.drop_last();
        let before = runs.drop_last();
        assert forall|n: int| #![trigger earlier[n]] 0 <= n < earlier.len() implies before[n + 1]
            == collected(before[n], earlier[n]) by {
            assert(runs[n + 1] == collected(runs[n], visited[n]));
        }
        the_first_values_cross(earlier, before);
        assert(runs[last + 1] == collected(runs[last], visited[last]));
        assert(visited =~= earlier.push(visited[last]));
        collecting_keeps_the_first(earlier, visited[last]);
    }
}

/// `item` carries the name of a field, and leads to its value.
pub open spec fn carries(field: FieldView, item: RFieldValue) -> bool {
    &&& is_at(field.set.names, item.field.name@, field.index as int)
    &&& item.place == field.index
}

/// What is collected for a visited field carries that field: its own name, which is the one at its
/// place among those of its set, and that place.
pub proof fn what_is_collected_carries_its_field(
    field: FieldView,
    callsite: usize,
    names: &'static [&'static str],
    item: RFieldValue,
)
    requires
        field_collected(field, callsite, names, item),
    ensures
        carries(field, item),
        0 <= field.index < field.set.names.len(),
        item.field.name@ == field.set.names[field.index as int],
        item.field.fields.names == names,
        item.holder == callsite,
        item.place == field.index,
{
}

/// Values cross with the names of their fields: what comes over the boundary carries, in order,
/// the fields that were visited first, each under its own name.
///
/// `items` is what is collected for each of the visited `fields`, of the callsites at `callsites`
/// with the registered `names`, as far as it is collected; and `runs` is what has been collected
/// before each of them, and after all of them.
pub proof fn values_cross_with_their_names(
    fields: Seq<FieldView>,
    callsites: Seq<usize>,
    names: Seq<&'static [&'static str]>,
    items: Seq<RFieldValue>,
    runs: Seq<Seq<RFieldValue>>,
)
    requires
        items.len() == fields.len(),
        runs.len() == items.len() + 1,
        runs[0] == Seq::<RFieldValue>::empty(),
        forall|n: int|
            #![trigger items[n]]
            0 <= n < items.len() ==> {
                &&& runs[n + 1] == collected(runs[n], items[n])
                &&& runs[n].len() < MAX_VALUES ==> field_collected(
                    fields[n],
                    callsites[n],
                    names[n],
                    items[n],
                )
            },
    ensures
        runs.last().len() == (if fields.len() <= 256 {
            fields.len()
        } else {
            256
        }),
        forall|k: int|
            0 <= k < runs.last().len() ==> {
                &&& (#[trigger] runs.last()[k]).field.name@
                    == fields[k].set.names[fields[k].index as int]
                &&& runs.last()[k].field.fields.names == names[k]
                &&& runs.last()[k].holder == callsites[k]
                &&& runs.last()[k].place == fields[k].index
            },
{
    the_first_values_cross(items, runs);
    assert forall|k: int| 0 <= k < runs.last().len() implies {
        &&& (#[trigger] runs.last()[k]).field.name@ == fields[k].set.names[fields[k].index as int]
        &&& runs.last()[k].field.fields.names == names[k]
        &&& runs.last()[k].holder == callsites[k]
        &&& runs.last()[k].place == fields[k].index
    } by {
        let visited = items.take(k);
        let earlier = runs.take(k + 1);
        assert forall|n: int| #![trigger visited[n]] 0 <= n < visited.len() implies earlier[n + 1]
            == collected(earlier[n], visited[n]) by {
            assert(runs[n + 1] == collected(runs[n], items[n]));
        }
        the_first_values_cross(visited, earlier);
        assert(runs.last()[k] == items[k]);
        what_is_collected_carries_its_field(fields[k], callsites[k], names[k], items[k]);
    }
}

/// `after` is what may have been found once a field was visited, where `before` was found
/// until then: a value is taken from the field that is looked for, and only if none was
/// found before.
pub open spec fn taken<R>(
    before: Option<R>,
    field: (usize, usize),
    wanted: (usize, usize),
    after: Option<R>,
) -> bool {
    if before is None && field == wanted {
        after is Some
    } else {
        after == before
    }
}

/// What is found is the first value of the field that is looked for: it is found if and only
/// if the field is visited, and once found it stays.
///
/// `found` is what has been found before each of the visited fields, and after all of them.
pub proof fn the_first_value_is_taken<R>(
    visited: Seq<(usize, usize)>,
    wanted: (usize, usize),
    found: Seq<Option<R>>,
)
    requires
        found.len() == visited.len() + 1,
        found[0] is None,
        forall|n: int|
            #![trigger visited[n]]
            0 <= n < visited.len() ==> taken(found[n], visited[n], wanted, found[n + 1]),
    ensures
        found.last() is Some <==> visited.contains(wanted),
        forall|n: int|
            0 <= n < visited.len() && #[trigger] visited[n] == wanted && (forall|m: int|
                0 <= m < n ==> visited[m] != wanted) ==> found.last() == found[n + 1],
    decreases visited.len(),
{
    if visited.len() > 0 {
        let last = visited.len() - 1;
        let earlier = visited.drop_last();
        let before = found.drop_last();
        assert forall|n: int| #![trigger earlier[n]] 0 <= n < earlier.len() implies taken(
            before[n],
            earlier[n],
            wanted,
            before[n + 1],
        ) by {
            assert(taken(found[n], visited[n], wanted, found[n + 1]));
        }
        the_first_value_is_taken(earlier, wanted, before);
        assert(taken(found[last], visited[last], wanted, found[last + 1]));
        assert(visited =~= earlier.push(visited[last]));
        assert forall|n: int|
            0 <= n < visited.len() && #[trigger] visited[n] == wanted && (forall|m: int|
                0 <= m < n ==> visited[m] != wanted) implies found.last() == found[n + 1] by {
            if n < last {
                assert(earlier[n] == wanted);
            }
        }
        assert(visited.contains(wanted) <==> earlier.contains(wanted) || visited[last] == wanted) by {
            if earlier.contains(wanted) {
                let n = earlier.index_of(wanted);
                assert(visited[n] == wanted);
            }
        }
    }
}

/// How writing a value out ended comes over as it was: success as success, and an error as one.
pub proof fn writing_out_ends_alike_on_both_sides<E>(
    result: Result<(), E>,
    answer: RResult<(), ()>,
    came: RResult<(), ()>,
    read: Result<(), ()>,
)
    requires
        call_ensures(debug_answer::<E>, (result,), answer),
        call_ensures(debug_result, (came,), read),
    ensures
        answer is ROk <==> result is Ok,
        answer is RErr <==> result is Err,
        read is Ok <==> came is ROk,
        read is Err <==> came is RErr,
{
}

/// A field that is visited is collected behind those that were, under its own name: the one at its
/// place among those of its set. It is left out only where there are as many fields as may cross,
/// which is told beforehand, and what was collected stays.
pub proof fn a_visited_field_is_collected_under_its_own_name<'bump, F: FnOnce() -> RIdentifier>(
    visit: &mut BumpVisit<'bump>,
    tables: &mut Tables,
    callsite: usize,
    field: Field,
    identifier: F,
    before: &[RFieldValue],
    has_room: bool,
    after: &[RFieldValue],
)
    requires
        old(tables).names@.contains_key(callsite),
        call_ensures(BumpVisit::<'bump>::as_slice, (&*old(visit),), before),
        call_ensures(BumpVisit::<'bump>::has_room, (&*old(visit),), has_room),
        call_ensures(
            BumpVisit::<'bump>::record_debug::<F>,
            (visit, tables, callsite, &field, identifier),
            (),
        ),
        call_ensures(BumpVisit::<'bump>::as_slice, (&*final(visit),), after),
    ensures
        has_room <==> before@.len() < 256,
        !has_room ==> after@ == before@,
        has_room ==> {
            &&& after@.len() == before@.len() + 1
            &&& forall|i: int| 0 <= i < before@.len() ==> #[trigger] after@[i] == before@[i]
            &&& 0 <= field_view(field).index < field_view(field).set.names.len()
            &&& after@.last().field.name@ == field_view(field).set.names[field_view(
                field,
            ).index as int]
            &&& after@.last().field.fields.names == old(tables).names@[callsite]
            &&& lookup(final(tables).callsites@, callsite) == Some(
                after@.last().field.fields.callsite,
            )
            &&& after@.last().holder == callsite
            &&& after@.last().place == field_view(field).index
        },
        final(tables).names@ =~= old(tables).names@,
        final(tables).metadata@ == old(tables).metadata@,
{
}

/// A value that crosses comes out for the field that it was recorded for: the field that is
/// received for a collected one has its place, where the names that are registered for the
/// callsite are those of the field's set and no two of them are the same.
pub proof fn a_value_comes_out_for_its_own_field<'bump, F: FnOnce() -> RIdentifier>(
    visit: &mut BumpVisit<'bump>,
    tables: &mut Tables,
    address: usize,
    field: Field,
    identifier: F,
    before: &[RFieldValue],
    after: &[RFieldValue],
    callsite: Identifier,
    received: Field,
)
    requires
        old(tables).names@.contains_key(address),
        names_view(old(tables).names@[address]@) == field_view(field).set.names,
        field_view(field).set.names.no_duplicates(),
        call_ensures(BumpVisit::<'bump>::as_slice, (&*old(visit),), before),
        before@.len() < 256,
        call_ensures(
            BumpVisit::<'bump>::record_debug::<F>,
            (visit, tables, address, &field, identifier),
            (),
        ),
        call_ensures(BumpVisit::<'bump>::as_slice, (&*final(visit),), after),
        call_ensures(RField::field, (&after@.last().field, callsite), received),
    ensures
        field_view(received).index == field_view(field).index,
        field_view(received).set.names == field_view(field).set.names,
        field_view(received).set.callsite == callsite,
{
}

/// Nothing is collected at first, and what is collected makes up the set of values, in order,
/// with the fields of the callsite's metadata.
pub proof fn a_set_of_values_is_what_was_collected<'a, 'bump>(
    bump: Bump,
    new: BumpVisit<'bump>,
    nothing: &[RFieldValue],
    visit: BumpVisit<'bump>,
    metadata: RMetadata<'static>,
    items: &[RFieldValue],
    set: RValueSet<'a>,
)
    requires
        call_ensures(BumpVisit::<'bump>::new, (&bump,), new),
        call_ensures(BumpVisit::<'bump>::as_slice, (&new,), nothing),
        call_ensures(BumpVisit::<'bump>::as_slice, (&visit,), items),
        call_ensures(RValueSet::<'a>::from_visit, (&visit, &metadata), set),
    ensures
        nothing@.len() == 0,
        set.values@ == items@,
        set.fields == metadata.fields,
{
}

/// The first values are handed on, in order and unchanged: all of them where there are no more
/// than may cross, and that many where there are more.
pub proof fn the_first_values_are_handed_on<'a, 'bump>(
    set: RValueSet<'a>,
    bump: Bump,
    visit: BumpVisit<'bump>,
    items: &[RFieldValue],
    i: int,
)
    requires
        call_ensures(RValueSet::<'a>::values, (&set, &bump), visit),
        call_ensures(BumpVisit::<'bump>::as_slice, (&visit,), items),
    ensures
        set.values@.len() <= 256 ==> items@.len() == set.values@.len(),
        set.values@.len() > 256 ==> items@.len() == 256,
        0 <= i < items@.len() ==> items@[i] == set.values@[i],
{
}

/// A set of values is made of the first ones, in order and unchanged: all of them where there are
/// no more than may cross, and that many where there are more.
pub proof fn a_value_set_is_made_of_the_first_values<T>(tuples: &[T], values: &[T], i: int)
    requires
        call_ensures(value_set::<T>, (tuples,), values),
    ensures
        tuples@.len() <= 256 ==> values@.len() == tuples@.len(),
        tuples@.len() > 256 ==> values@.len() == 256,
        0 <= i < values@.len() ==> values@[i] == tuples@[i],
{
}

/// The value of a collected field is taken from that field: it is found once a field of its
/// callsite at its place is visited, with what becomes of that value, and not by any other field.
pub proof fn a_value_is_taken_from_its_own_field<R, F: FnOnce() -> R>(
    item: RFieldValue,
    new: FieldVisit<R>,
    found_at_first: bool,
    visit: &mut FieldVisit<R>,
    callsite: usize,
    field: Field,
    value: F,
    found: bool,
    result: R,
)
    requires
        call_ensures(FieldVisit::<R>::new, (&item,), new),
        call_ensures(FieldVisit::<R>::is_found, (&new,), found_at_first),
        *old(visit) == new,
        call_ensures(FieldVisit::<R>::record_debug::<F>, (visit, callsite, &field, value), ()),
        call_ensures(FieldVisit::<R>::is_found, (&*final(visit),), found),
        found ==> call_ensures(FieldVisit::<R>::into_result, (*final(visit),), result),
    ensures
        !found_at_first,
        found <==> callsite == item.holder && field_view(field).index == item.place,
        found ==> value.ensures((), result),
        found ==> call_requires(FieldVisit::<R>::into_result, (*final(visit),)),
{
}

/// The first value of a field is taken and kept: a field that is visited before it changes
/// nothing, and one that is visited after it, be it the same, changes nothing either.
pub proof fn the_first_value_of_a_field_is_kept<
    R,
    F: FnOnce() -> R,
    G: FnOnce() -> R,
    H: FnOnce() -> R,
>(
    item: RFieldValue,
    before: &mut FieldVisit<R>,
    wanted: &mut FieldVisit<R>,
    after: &mut FieldVisit<R>,
    other_callsite: usize,
    other: Field,
    other_value: F,
    field: Field,
    value: G,
    later_callsite: usize,
    later: Field,
    later_value: H,
    found: bool,
    taken_value: R,
    kept_value: R,
)
    requires
        call_ensures(FieldVisit::<R>::new, (&item,), *old(before)),
        other_callsite != item.holder || field_view(other).index != item.place,
        call_ensures(
            FieldVisit::<R>::record_debug::<F>,
            (before, other_callsite, &other, other_value),
            (),
        ),
        *old(wanted) == *final(before),
        field_view(field).index == item.place,
        call_ensures(
            FieldVisit::<R>::record_debug::<G>,
            (wanted, item.holder, &field, value),
            (),
        ),
        *old(after) == *final(wanted),
        call_ensures(FieldVisit::<R>::into_result, (*old(after),), taken_value),
        call_ensures(
            FieldVisit::<R>::record_debug::<H>,
            (after, later_callsite, &later, later_value),
            (),
        ),
        call_ensures(FieldVisit::<R>::is_found, (&*final(after),), found),
        call_ensures(FieldVisit::<R>::into_result, (*final(after),), kept_value),
    ensures
        found,
        value.ensures((), taken_value),
        kept_value == taken_value,
{
}

}
