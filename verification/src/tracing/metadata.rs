//! What is known of a callsite before anything happens there.

use crate::registry::{
    an_answer_was_made_on_the_first_request, is_run, lookup, starts_empty, Registry,
};
use crate::tracing::field::{
    field_set_view, field_view, is_at, names_view, FieldSetView, FieldView, RField, RFieldSet,
    RIdentifier,
};
use crate::tracing::kind::{kind_bits, lemma_kinds, RKind};
use crate::tracing::level::{level_value, RLevel};
use tracing_core::callsite::Identifier;
use tracing_core::field::{Field, FieldSet};
use tracing_core::{Kind, Level, Metadata};
use vstd::prelude::*;

verus! {

/// `tracing_core`'s `Metadata`, whose parts stay hidden.
#[verifier::external_type_specification]
#[verifier::external_body]
pub struct ExMetadata<'a>(Metadata<'a>);

/// What a `Metadata` holds.
pub struct MetadataView {
    pub name: Seq<char>,
    pub target: Seq<char>,
    pub level: RLevel,
    pub module: Option<Seq<char>>,
    pub file: Option<Seq<char>>,
    pub line: Option<u32>,
    pub fields: FieldSetView,
    pub kind: u8,
}

/// What a `Metadata` holds.
pub uninterp spec fn metadata_view(metadata: Metadata<'_>) -> MetadataView;

/// The characters of a string that may be missing.
pub open spec fn text_view(text: Option<&str>) -> Option<Seq<char>> {
    match text {
        Some(text) => Some(text@),
        None => None,
    }
}

/// `Metadata::new`: the metadata with the given parts.
pub assume_specification<'a>[ Metadata::<'a>::new ](
    name: &'static str,
    target: &'a str,
    level: Level,
    file: Option<&'a str>,
    line: Option<u32>,
    module: Option<&'a str>,
    fields: FieldSet,
    kind: Kind,
) -> (metadata: Metadata<'a>)
    ensures
        metadata_view(metadata) == (MetadataView {
            name: name@,
            target: target@,
            level: level_value(level),
            module: text_view(module),
            file: text_view(file),
            line,
            fields: field_set_view(fields),
            kind: kind_bits(kind),
        }),
;

/// `Metadata::name`: the name.
pub assume_specification<'a>[ Metadata::<'a>::name ](metadata: &Metadata<'a>) -> (name: &'static str)
    ensures
        name@ == metadata_view(*metadata).name,
;

/// `Metadata::target`: the target.
pub assume_specification<'a>[ Metadata::<'a>::target ](metadata: &Metadata<'a>) -> (target: &'a str)
    ensures
        target@ == metadata_view(*metadata).target,
;

/// `Metadata::level`: the level.
pub assume_specification<'a, 'b>[ Metadata::<'a>::level ](metadata: &'b Metadata<'a>) -> (level: &'b Level)
    ensures
        level_value(*level) == metadata_view(*metadata).level,
;

/// `Metadata::line`: the number of the line, if known.
pub assume_specification<'a>[ Metadata::<'a>::line ](metadata: &Metadata<'a>) -> (line: Option<u32>)
    ensures
        line == metadata_view(*metadata).line,
;

/// `Metadata::fields`: the fields.
pub assume_specification<'a, 'b>[ Metadata::<'a>::fields ](metadata: &'b Metadata<'a>) -> (fields: &'b FieldSet)
    ensures
        field_set_view(*fields) == metadata_view(*metadata).fields,
;

/// `Metadata::is_event`: the kind's bit for an event is set.
pub assume_specification<'a>[ Metadata::<'a>::is_event ](metadata: &Metadata<'a>) -> (result: bool)
    ensures
        result == (metadata_view(*metadata).kind & 1 == 1),
;

/// `Metadata::is_span`: the kind's bit for a span is set.
pub assume_specification<'a>[ Metadata::<'a>::is_span ](metadata: &Metadata<'a>) -> (result: bool)
    ensures
        result == (metadata_view(*metadata).kind & 2 == 2),
;

/// `Box::leak`: the same value, for the rest of the program.
#[verifier::external_body]
fn leak<T: 'static>(value: Box<T>) -> (leaked: &'static T)
    ensures
        *leaked == *value,
{
    Box::leak(value)
}

/// Metadata that can cross the boundary.
#[derive(Clone, Copy)]
pub struct RMetadata<'a> {
    pub name: &'static str,
    pub target: &'a str,
    pub level: RLevel,
    pub module: Option<&'a str>,
    pub file: Option<&'a str>,
    pub line: Option<u32>,
    pub fields: RFieldSet,
    pub kind: RKind,
}

/// `crossed` is what `metadata` becomes for the way over the boundary, where `module` is
/// its path of the module. That path is sent in the place of the file too, and of the kind
/// only whether it is an event or a span.
pub open spec fn sent<'a>(
    metadata: MetadataView,
    module: Option<&'a str>,
    crossed: RMetadata<'a>,
) -> bool {
    &&& crossed.name@ == metadata.name
    &&& crossed.target@ == metadata.target
    &&& crossed.level == metadata.level
    &&& crossed.module == module
    &&& crossed.file == module
    &&& crossed.line == metadata.line
    &&& crossed.kind.has_event() == (metadata.kind & 1 == 1)
    &&& crossed.kind.has_span() == (metadata.kind & 2 == 2)
    &&& !crossed.kind.has_hint()
}

/// The metadata that `crossed` becomes on the other side, where `callsite` is what stands
/// for the callsite. The file is also taken for the module path.
pub open spec fn received(crossed: RMetadata<'_>, callsite: Identifier) -> MetadataView {
    MetadataView {
        name: crossed.name@,
        target: crossed.target@,
        level: crossed.level,
        module: text_view(crossed.file),
        file: text_view(crossed.file),
        line: crossed.line,
        fields: FieldSetView { names: names_view(crossed.fields.names@), callsite },
        kind: crossed.kind.chosen_bits(),
    }
}

impl<'a> RMetadata<'a> {
    /// Metadata for the way over the boundary, with the path of its module, and with its
    /// fields as they have been registered.
    pub fn from_metadata(
        metadata: &Metadata<'a>,
        module: Option<&'a str>,
        fields: RFieldSet,
    ) -> (crossed: Self)
        ensures
            sent(metadata_view(*metadata), module, crossed),
            crossed.fields == fields,
    {
        let kind = RKind::empty().event(metadata.is_event()).span(metadata.is_span());
        proof {
            assert(0u8 & 1 == 0 && 0u8 & 2 == 0 && 0u8 & 4 == 0) by (bit_vector);
        }
        RMetadata {
            name: metadata.name(),
            target: metadata.target(),
            level: RLevel::from(metadata.level()),
            module,
            file: module,
            line: metadata.line(),
            fields,
            kind,
        }
    }

    /// The metadata on the other side of the boundary, where `callsite` is what stands for
    /// the callsite.
    pub fn metadata(&self, callsite: Identifier) -> (metadata: Metadata<'a>)
        ensures
            metadata_view(metadata) == received(*self, callsite),
    {
        Metadata::new(
            self.name,
            self.target,
            Level::from(&self.level),
            self.file,
            self.line,
            self.file,
            self.fields.fields(callsite),
            Kind::from(self.kind),
        )
    }
}

/// The tables of what has been handed over: what stands for each callsite and the names of
/// its fields, by the address of the callsite, and metadata by its own address.
pub struct Tables {
    pub callsites: Registry<RIdentifier>,
    pub names: Registry<&'static [&'static str]>,
    pub metadata: Registry<&'static RMetadata<'static>>,
}

/// What entering the fields of the callsite at an address does to the tables, where `names` are
/// those of the fields, and `crossed` is what the fields cross as: names and callsite are taken
/// from the tables, or entered on the first request.
pub open spec fn fields_kept(
    before: Tables,
    after: Tables,
    callsite: usize,
    names: Seq<Seq<char>>,
    crossed: RFieldSet,
) -> bool {
    &&& after.names@ == before.names@.insert(callsite, crossed.names)
    &&& after.callsites@ == before.callsites@.insert(callsite, crossed.callsite)
    &&& match lookup(before.names@, callsite) {
        Some(known) => crossed.names == known,
        None => names_view(crossed.names@) == names,
    }
    &&& match lookup(before.callsites@, callsite) {
        Some(known) => crossed.callsite == known,
        None => true,
    }
}

/// What entering fields does, where `identifier` makes what stands for a callsite that is not
/// known yet.
pub open spec fn fields_entered<F: FnOnce() -> RIdentifier>(
    before: Tables,
    after: Tables,
    callsite: usize,
    names: Seq<Seq<char>>,
    identifier: F,
    crossed: RFieldSet,
) -> bool {
    &&& fields_kept(before, after, callsite, names, crossed)
    &&& lookup(before.callsites@, callsite) is None ==> identifier.ensures((), crossed.callsite)
}

/// What handing the metadata at an address over does to the tables, and what it crosses as: on
/// the first request the metadata is converted and its fields are entered, and later on the
/// same is given.
pub open spec fn metadata_kept(
    before: Tables,
    after: Tables,
    address: usize,
    metadata: MetadataView,
    module: Option<&'static str>,
    callsite: usize,
    crossed: RMetadata<'static>,
) -> bool {
    &&& after.metadata@ == before.metadata@.insert(address, &crossed)
    &&& match lookup(before.metadata@, address) {
        Some(known) => {
            &&& crossed == *known
            &&& after.names@ == before.names@
            &&& after.callsites@ == before.callsites@
        },
        None => {
            &&& sent(metadata, module, crossed)
            &&& fields_kept(before, after, callsite, metadata.fields.names, crossed.fields)
        },
    }
}

/// What handing metadata over does, where `identifier` makes what stands for a callsite that is
/// not known yet.
pub open spec fn handed_over<F: FnOnce() -> RIdentifier>(
    before: Tables,
    after: Tables,
    address: usize,
    metadata: MetadataView,
    module: Option<&'static str>,
    callsite: usize,
    identifier: F,
    crossed: RMetadata<'static>,
) -> bool {
    &&& metadata_kept(before, after, address, metadata, module, callsite, crossed)
    &&& lookup(before.metadata@, address) is None && lookup(before.callsites@, callsite) is None
        ==> identifier.ensures((), crossed.fields.callsite)
}

/// `crossed` is what a field becomes for the way over the boundary, where `names` are those that
/// are registered for its callsite.
pub open spec fn field_sent(
    field: FieldView,
    names: &'static [&'static str],
    crossed: RField,
) -> bool {
    &&& is_at(field.set.names, crossed.name@, field.index as int)
    &&& crossed.fields.names == names
}

impl Tables {
    pub open spec fn wf(&self) -> bool {
        self.callsites.wf() && self.names.wf() && self.metadata.wf()
    }

    /// Tables of nothing.
    pub fn new() -> (tables: Self)
        ensures
            tables.wf(),
            tables.callsites@ == Map::<usize, RIdentifier>::empty(),
            tables.names@ == Map::<usize, &'static [&'static str]>::empty(),
            tables.metadata@ == Map::<usize, &'static RMetadata<'static>>::empty(),
    {
        Tables { callsites: Registry::new(), names: Registry::new(), metadata: Registry::new() }
    }

    /// The fields of the callsite at an address, as they cross the boundary; `identifier`
    /// makes what stands for the callsite.
    pub fn fields<F: FnOnce() -> RIdentifier>(
        &mut self,
        callsite: usize,
        fields: &FieldSet,
        identifier: F,
    ) -> (crossed: RFieldSet)
        requires
            old(self).wf(),
            !old(self).callsites@.contains_key(callsite) ==> identifier.requires(()),
        ensures
            final(self).wf(),
            final(self).metadata@ == old(self).metadata@,
            fields_entered(
                *old(self),
                *final(self),
                callsite,
                field_set_view(*fields).names,
                identifier,
                crossed,
            ),
    {
        let names = RFieldSet::register_names(&mut self.names, callsite, fields);
        let callsite = RIdentifier::from_address(&mut self.callsites, callsite, identifier);
        RFieldSet { names, callsite }
    }

    /// A field of the callsite at an address, as it crosses the boundary. The names of the
    /// callsite must have been registered, and the field must have its place among those of
    /// its set.
    pub fn field<F: FnOnce() -> RIdentifier>(
        &mut self,
        callsite: usize,
        field: &Field,
        identifier: F,
    ) -> (crossed: RField)
        requires
            old(self).wf(),
            old(self).names@.contains_key(callsite),
            field_view(*field).index < field_view(*field).set.names.len(),
            !old(self).callsites@.contains_key(callsite) ==> identifier.requires(()),
        ensures
            final(self).wf(),
            final(self).metadata@ == old(self).metadata@,
            field_sent(field_view(*field), old(self).names@[callsite], crossed),
            fields_entered(
                *old(self),
                *final(self),
                callsite,
                field_view(*field).set.names,
                identifier,
                crossed.fields,
            ),
    {
        let stands = RIdentifier::from_address(&mut self.callsites, callsite, identifier);
        let crossed = RField::from_field(&self.names, callsite, field, stands);
        assert(self.names@ =~= old(self).names@.insert(callsite, crossed.fields.names));
        crossed
    }

    /// The metadata at an address, as it crosses the boundary. It is converted on the first
    /// request, and with it its fields are entered for the callsite at another address.
    pub fn metadata_ref<F: FnOnce() -> RIdentifier>(
        &mut self,
        address: usize,
        metadata: &'static Metadata<'static>,
        module: Option<&'static str>,
        callsite: usize,
        identifier: F,
    ) -> (crossed: &'static RMetadata<'static>)
        requires
            old(self).wf(),
            !old(self).callsites@.contains_key(callsite) ==> identifier.requires(()),
        ensures
            final(self).wf(),
            handed_over(
                *old(self),
                *final(self),
                address,
                metadata_view(*metadata),
                module,
                callsite,
                identifier,
                *crossed,
            ),
    {
        if let Some(known) = self.metadata.try_get(&address) {
            assert(self.metadata@.insert(address, known) =~= self.metadata@);
            return known;
        }
        let fields = self.fields(callsite, metadata.fields(), identifier);
        let crossed: &'static RMetadata<'static> = leak(
            Box::new(RMetadata::from_metadata(metadata, module, fields)),
        );
        let value = || -> (value: &'static RMetadata<'static>)
            ensures
                value == crossed,
        {
            crossed
        };
        self.metadata.get(address, value)
    }
}

impl RMetadata<'static> {
    /// The metadata on the other side of the boundary for what stands at an address here.
    /// It is made on the first request.
    pub fn metadata_ref(
        &self,
        known: &mut Registry<&'static Metadata<'static>>,
        address: usize,
        callsite: Identifier,
    ) -> (metadata: &'static Metadata<'static>)
        requires
            old(known).wf(),
        ensures
            final(known).wf(),
            final(known)@ == old(known)@.insert(address, metadata),
            match lookup(old(known)@, address) {
                Some(registered) => metadata == registered,
                None => metadata_view(*metadata) == received(*self, callsite),
            },
    {
        if let Some(metadata) = known.try_get(&address) {
            assert(known@.insert(address, metadata) =~= known@);
            return metadata;
        }
        let metadata: &'static Metadata<'static> = leak(Box::new(self.metadata(callsite)));
        let value = || -> (value: &'static Metadata<'static>)
            ensures
                value == metadata,
        {
            metadata
        };
        known.get(address, value)
    }
}

/// The bits of the kind that comes back: an event where it was one, else a span where it was
/// one, else a hint. An event or a span is not a hint any more.
pub open spec fn crossed_kind(kind: u8) -> u8 {
    if kind & 1 == 1 {
        1
    } else if kind & 2 == 2 {
        2
    } else {
        4
    }
}

/// Metadata comes back with the same name, target, level, line and field names, in the same
/// order, for a callsite that stands for its own, and with the path of the module that was sent
/// along. In the place of the file it has that path once more. It is an event or a span where it
/// was one, and a hint where it was neither; what is both comes back as an event.
pub proof fn metadata_crosses(
    metadata: MetadataView,
    module: Option<&str>,
    crossed: RMetadata<'_>,
    callsite: Identifier,
)
    requires
        sent(metadata, module, crossed),
        names_view(crossed.fields.names@) == metadata.fields.names,
    ensures
        received(crossed, callsite) == (MetadataView {
            module: text_view(module),
            file: text_view(module),
            fields: FieldSetView { names: metadata.fields.names, callsite },
            kind: crossed_kind(metadata.kind),
            ..metadata
        }),
        (received(crossed, callsite).kind & 1 == 1) == (metadata.kind & 1 == 1),
        metadata.kind & 1 != 1 ==> (received(crossed, callsite).kind & 2 == 2) == (metadata.kind & 2
            == 2),
{
    lemma_kinds();
}

/// A request to the tables, along with what it was answered with.
pub enum TableStep {
    /// The metadata at an address is handed over, with the path of its module and the address
    /// of its callsite.
    HandOver {
        address: usize,
        metadata: MetadataView,
        module: Option<&'static str>,
        callsite: usize,
        crossed: RMetadata<'static>,
    },
    /// The fields of the callsite at an address, or one of them, are entered, with their names.
    Enter { callsite: usize, names: Seq<Seq<char>>, crossed: RFieldSet },
    /// What stands for the callsite at an address is asked for.
    Identify { callsite: usize, crossed: RIdentifier },
}

impl TableStep {
    /// The address of the callsite.
    pub open spec fn callsite(self) -> usize {
        match self {
            TableStep::HandOver { callsite, .. } => callsite,
            TableStep::Enter { callsite, .. } => callsite,
            TableStep::Identify { callsite, .. } => callsite,
        }
    }

    /// The names of the callsite's fields that the request comes with, if it does with any.
    pub open spec fn names(self) -> Option<Seq<Seq<char>>> {
        match self {
            TableStep::HandOver { metadata, .. } => Some(metadata.fields.names),
            TableStep::Enter { names, .. } => Some(names),
            TableStep::Identify { .. } => None,
        }
    }

    /// What the request does to the tables.
    pub open spec fn takes(self, before: Tables, after: Tables) -> bool {
        match self {
            TableStep::HandOver { address, metadata, module, callsite, crossed } => metadata_kept(
                before,
                after,
                address,
                metadata,
                module,
                callsite,
                crossed,
            ),
            TableStep::Enter { callsite, names, crossed } => {
                &&& fields_kept(before, after, callsite, names, crossed)
                &&& after.metadata@ == before.metadata@
            },
            TableStep::Identify { callsite, crossed } => {
                &&& after.callsites@ == before.callsites@.insert(callsite, crossed)
                &&& match lookup(before.callsites@, callsite) {
                    Some(known) => crossed == known,
                    None => true,
                }
                &&& after.names@ == before.names@
                &&& after.metadata@ == before.metadata@
            },
        }
    }

    /// The two requests do not contradict each other: what stands at one address is one metadata
    /// of one callsite, and one callsite has fields of the same names.
    pub open spec fn agrees(self, other: Self) -> bool {
        &&& self is HandOver && other is HandOver && self->address == other->address ==> {
            &&& self->metadata == other->metadata
            &&& self->module == other->module
            &&& self->HandOver_callsite == other->HandOver_callsite
        }
        &&& self.callsite() == other.callsite() && self.names() is Some && other.names() is Some
            ==> self.names() == other.names()
    }

    /// The answer is what the request asks for, and the tables hold it.
    pub open spec fn answered(self, tables: Tables) -> bool {
        match self {
            TableStep::HandOver { address, metadata, module, callsite, crossed } => {
                &&& sent(metadata, module, crossed)
                &&& names_view(crossed.fields.names@) == metadata.fields.names
                &&& lookup(tables.metadata@, address) == Some(&crossed)
                &&& lookup(tables.names@, callsite) == Some(crossed.fields.names)
                &&& lookup(tables.callsites@, callsite) == Some(crossed.fields.callsite)
            },
            TableStep::Enter { callsite, names, crossed } => {
                &&& names_view(crossed.names@) == names
                &&& lookup(tables.names@, callsite) == Some(crossed.names)
                &&& lookup(tables.callsites@, callsite) == Some(crossed.callsite)
            },
            TableStep::Identify { callsite, crossed } => {
                lookup(tables.callsites@, callsite) == Some(crossed)
            },
        }
    }
}

/// `tables` are what the tables hold before each of the requests in `steps`, and after all of
/// them. They start from nothing, and the requests do not contradict each other.
pub open spec fn is_table_run(tables: Seq<Tables>, steps: Seq<TableStep>) -> bool {
    &&& tables.len() == steps.len() + 1
    &&& tables[0].metadata@ == Map::<usize, &'static RMetadata<'static>>::empty()
    &&& tables[0].names@ == Map::<usize, &'static [&'static str]>::empty()
    &&& tables[0].callsites@ == Map::<usize, RIdentifier>::empty()
    &&& forall|n: int|
        0 <= n < steps.len() ==> (#[trigger] steps[n]).takes(tables[n], tables[n + 1])
    &&& forall|m: int, n: int|
        0 <= m < steps.len() && 0 <= n < steps.len() ==> (#[trigger] steps[m]).agrees(
            #[trigger] steps[n],
        )
}

/// Every request to the tables is answered with what it asks for, whether it is the first or a
/// later one, and that stays: in a run of requests that starts from nothing, where requests for
/// one address are for one metadata, what crosses for metadata was made from that metadata, has
/// the names of its fields, and is what the tables hold from then on.
pub proof fn every_request_is_answered(tables: Seq<Tables>, steps: Seq<TableStep>, i: int, j: int)
    requires
        is_table_run(tables, steps),
        0 <= i < j <= steps.len(),
    ensures
        steps[i].answered(tables[j]),
{
    tables_hold_the_answers(tables, steps, j);
}

/// What the tables hold after the first `n` requests: the answers to them, and nothing else.
spec fn hold_the_answers(tables: Tables, steps: Seq<TableStep>, n: int) -> bool {
    &&& forall|i: int| 0 <= i < n ==> (#[trigger] steps[i]).answered(tables)
    &&& forall|address: usize| #[trigger]
        tables.metadata@.contains_key(address) ==> exists|i: int|
            0 <= i < n && #[trigger] steps[i] is HandOver && steps[i]->address == address
    &&& forall|callsite: usize| #[trigger]
        tables.names@.contains_key(callsite) ==> exists|i: int|
            0 <= i < n && (#[trigger] steps[i]).names() is Some && steps[i].callsite() == callsite
}

proof fn tables_hold_the_answers(tables: Seq<Tables>, steps: Seq<TableStep>, n: int)
    requires
        is_table_run(tables, steps),
        0 <= n <= steps.len(),
    ensures
        hold_the_answers(tables[n], steps, n),
    decreases n,
{
    if n > 0 {
        let last = n - 1;
        let before = tables[last];
        let after = tables[n];
        let step = steps[last];
        tables_hold_the_answers(tables, steps, last);
        assert(step.takes(before, after));
        assert(step.answered(after)) by {
            if before.names@.contains_key(step.callsite()) {
                let i = choose|i: int|
                    0 <= i < last && (#[trigger] steps[i]).names() is Some && steps[i].callsite()
                        == step.callsite();
                assert(steps[i].answered(before));
                assert(steps[i].agrees(step));
            }
            if step is HandOver && before.metadata@.contains_key(step->address) {
                let i = choose|i: int|
                    0 <= i < last && #[trigger] steps[i] is HandOver && steps[i]->address
                        == step->address;
                assert(steps[i].answered(before));
                assert(steps[i].agrees(step));
            }
        }
        assert forall|i: int| 0 <= i < n implies (#[trigger] steps[i]).answered(after) by {
            if i < last {
                assert(steps[i].answered(before));
            }
        }
        assert forall|address: usize| #[trigger] after.metadata@.contains_key(address) implies exists|
            i: int,
        |
            0 <= i < n && #[trigger] steps[i] is HandOver && steps[i]->address == address by {
            if before.metadata@.contains_key(address) {
                let i = choose|i: int|
                    0 <= i < last && #[trigger] steps[i] is HandOver && steps[i]->address == address;
                assert(steps[i] is HandOver);
            } else {
                assert(steps[last] is HandOver);
            }
        }
        assert forall|callsite: usize| #[trigger]
            after.names@.contains_key(callsite) implies exists|i: int|
            0 <= i < n && (#[trigger] steps[i]).names() is Some && steps[i].callsite()
                == callsite by {
            if before.names@.contains_key(callsite) {
                let i = choose|i: int|
                    0 <= i < last && (#[trigger] steps[i]).names() is Some && steps[i].callsite()
                        == callsite;
                assert(steps[i].names() is Some);
            } else {
                assert(steps[last].names() is Some);
            }
        }
    }
}

/// What stands for metadata that came over the boundary was made from it, on every request and
/// not only on the first: in a run of requests that starts from nothing, where requests for one
/// address are for the same metadata and callsite, each is answered with what its own metadata
/// becomes.
///
/// `known` is what is registered after each request for one of the `addresses`, `crossed` and
/// `callsites` are what it came with, and `answers` are the answers.
pub proof fn received_metadata_is_made_from_what_came(
    addresses: Seq<usize>,
    crossed: Seq<RMetadata<'static>>,
    callsites: Seq<Identifier>,
    answers: Seq<&'static Metadata<'static>>,
    known: Seq<Map<usize, &'static Metadata<'static>>>,
    j: int,
)
    requires
        is_receiving_run(addresses, crossed, callsites, answers, known),
        0 <= j < addresses.len(),
    ensures
        metadata_view(*answers[j]) == received(crossed[j], callsites[j]),
{
    let i = an_answer_was_made_on_the_first_request(addresses, answers, known, j);
    assert(metadata_view(*answers[i]) == received(crossed[i], callsites[i]));
    assert(crossed[i] == crossed[j]);
}

/// A run of requests for what stands for metadata that came over the boundary. It starts from
/// nothing, and requests for one address are for the same metadata and callsite.
pub open spec fn is_receiving_run(
    addresses: Seq<usize>,
    crossed: Seq<RMetadata<'static>>,
    callsites: Seq<Identifier>,
    answers: Seq<&'static Metadata<'static>>,
    known: Seq<Map<usize, &'static Metadata<'static>>>,
) -> bool {
    &&& is_run(addresses, answers, known)
    &&& starts_empty(addresses, answers, known)
    &&& crossed.len() == callsites.len() == addresses.len()
    &&& forall|n: int|
        #![trigger answers[n]]
        0 <= n < addresses.len() && (n > 0 ==> !known[n - 1].contains_key(addresses[n]))
            ==> metadata_view(*answers[n]) == received(crossed[n], callsites[n])
    &&& forall|m: int, n: int|
        0 <= m < addresses.len() && 0 <= n < addresses.len() && addresses[m] == addresses[n] ==> {
            &&& #[trigger] crossed[m] == #[trigger] crossed[n]
            &&& callsites[m] == callsites[n]
        }
}

/// New tables know nothing: no callsite, no names and no metadata.
pub proof fn new_tables_know_nothing(
    tables: Tables,
    key: usize,
    callsite: Option<RIdentifier>,
    names: Option<&'static [&'static str]>,
    metadata: Option<&'static RMetadata<'static>>,
)
    requires
        call_ensures(Tables::new, (), tables),
        call_ensures(Registry::<RIdentifier>::try_get, (&tables.callsites, &key), callsite),
        call_ensures(Registry::<&'static [&'static str]>::try_get, (&tables.names, &key), names),
        call_ensures(
            Registry::<&'static RMetadata<'static>>::try_get,
            (&tables.metadata, &key),
            metadata,
        ),
    ensures
        tables.wf(),
        callsite is None,
        names is None,
        metadata is None,
{
}

/// Metadata is sent part by part: the name, the target, the level and the line are its own, the
/// path of the module is the one given and stands in the place of the file too, the fields are
/// those given, and it is an event or a span exactly where it was one.
pub proof fn metadata_is_sent_part_by_part<'a>(
    metadata: Metadata<'a>,
    module: Option<&'a str>,
    fields: RFieldSet,
    crossed: RMetadata<'a>,
    is_event: bool,
    is_span: bool,
    is_hint: bool,
)
    requires
        call_ensures(RMetadata::<'a>::from_metadata, (&metadata, module, fields), crossed),
        call_ensures(RKind::is_event, (&crossed.kind,), is_event),
        call_ensures(RKind::is_span, (&crossed.kind,), is_span),
        call_ensures(RKind::is_hint, (&crossed.kind,), is_hint),
    ensures
        crossed.name@ == metadata_view(metadata).name,
        crossed.target@ == metadata_view(metadata).target,
        crossed.level == metadata_view(metadata).level,
        crossed.line == metadata_view(metadata).line,
        crossed.module == module,
        crossed.file == module,
        crossed.fields == fields,
        is_event == (metadata_view(metadata).kind & 1 == 1),
        is_span == (metadata_view(metadata).kind & 2 == 2),
        !is_hint,
{
}

/// Metadata is received part by part: the name, the target, the level and the line are those that
/// crossed, what crossed as the file is the file and the path of the module, the fields have the
/// names that crossed, in order, for the callsite that stands for its own, and it is an event or
/// a span where it crossed as one.
pub proof fn metadata_is_received_part_by_part<'a>(
    crossed: RMetadata<'a>,
    callsite: Identifier,
    metadata: Metadata<'a>,
    text: &'a str,
    i: int,
    is_event: bool,
    is_span: bool,
    is_hint: bool,
)
    requires
        call_ensures(RMetadata::<'a>::metadata, (&crossed, callsite), metadata),
        call_ensures(RKind::is_event, (&crossed.kind,), is_event),
        call_ensures(RKind::is_span, (&crossed.kind,), is_span),
        call_ensures(RKind::is_hint, (&crossed.kind,), is_hint),
    ensures
        metadata_view(metadata).name == crossed.name@,
        metadata_view(metadata).target == crossed.target@,
        metadata_view(metadata).level == crossed.level,
        metadata_view(metadata).line == crossed.line,
        crossed.file is None ==> metadata_view(metadata).file is None && metadata_view(
            metadata,
        ).module is None,
        crossed.file == Some(text) ==> metadata_view(metadata).file == Some(text@)
            && metadata_view(metadata).module == Some(text@),
        metadata_view(metadata).fields.callsite == callsite,
        metadata_view(metadata).fields.names.len() == crossed.fields.names@.len(),
        0 <= i < crossed.fields.names@.len() ==> metadata_view(metadata).fields.names[i]
            == crossed.fields.names@[i]@,
        (metadata_view(metadata).kind & 1 == 1) == is_event,
        (metadata_view(metadata).kind & 2 == 2) == (is_span && !is_event),
        (metadata_view(metadata).kind & 4 == 4) == (is_hint || !is_event && !is_span),
{
    lemma_kinds();
}

/// Metadata that is sent and received has the name, the target, the level, the line, the names of
/// its fields and the kind that it had: two calls, one on each side, with fields that have the
/// names of its own.
pub proof fn metadata_comes_back_as_it_went<'a>(
    metadata: Metadata<'a>,
    module: Option<&'a str>,
    fields: RFieldSet,
    crossed: RMetadata<'a>,
    callsite: Identifier,
    received: Metadata<'a>,
)
    requires
        call_ensures(RMetadata::<'a>::from_metadata, (&metadata, module, fields), crossed),
        names_view(fields.names@) == metadata_view(metadata).fields.names,
        call_ensures(RMetadata::<'a>::metadata, (&crossed, callsite), received),
    ensures
        metadata_view(received).name == metadata_view(metadata).name,
        metadata_view(received).target == metadata_view(metadata).target,
        metadata_view(received).level == metadata_view(metadata).level,
        metadata_view(received).line == metadata_view(metadata).line,
        metadata_view(received).fields.names == metadata_view(metadata).fields.names,
        metadata_view(received).fields.callsite == callsite,
        (metadata_view(received).kind & 1 == 1) == (metadata_view(metadata).kind & 1 == 1),
        metadata_view(metadata).kind & 1 != 1 ==> (metadata_view(received).kind & 2 == 2) == (
        metadata_view(metadata).kind & 2 == 2),
        module is None ==> metadata_view(received).module is None && metadata_view(received).file
            is None,
        module matches Some(path) ==> metadata_view(received).module == Some(path@)
            && metadata_view(received).file == Some(path@),
{
    lemma_kinds();
}

/// A field is sent by the tables under its own name, which is the one at its place among those of
/// its set, with the names that are registered for its callsite and what stands for it.
pub proof fn the_tables_send_a_field_under_its_own_name<F: FnOnce() -> RIdentifier>(
    tables: &mut Tables,
    callsite: usize,
    field: Field,
    identifier: F,
    crossed: RField,
)
    requires
        call_ensures(Tables::field::<F>, (tables, callsite, &field, identifier), crossed),
        old(tables).names@.contains_key(callsite),
    ensures
        0 <= field_view(field).index < field_view(field).set.names.len(),
        crossed.name@ == field_view(field).set.names[field_view(field).index as int],
        crossed.fields.names == old(tables).names@[callsite],
        lookup(old(tables).callsites@, callsite) matches Some(known) ==> crossed.fields.callsite
            == known,
        lookup(old(tables).callsites@, callsite) is None ==> identifier.ensures(
            (),
            crossed.fields.callsite,
        ),
        final(tables).names@ =~= old(tables).names@,
        final(tables).metadata@ == old(tables).metadata@,
        final(tables).callsites@.contains_key(callsite),
        final(tables).callsites@[callsite] == crossed.fields.callsite,
{
}

/// A field that the tables send and that is received has the name and the place that it had,
/// where the names that are registered for its callsite are those of its set and no two of them
/// are the same.
pub proof fn a_field_from_the_tables_comes_back_as_it_went<F: FnOnce() -> RIdentifier>(
    tables: &mut Tables,
    address: usize,
    field: Field,
    identifier: F,
    crossed: RField,
    callsite: Identifier,
    received: Field,
)
    requires
        call_ensures(Tables::field::<F>, (tables, address, &field, identifier), crossed),
        old(tables).names@.contains_key(address),
        names_view(old(tables).names@[address]@) == field_view(field).set.names,
        field_view(field).set.names.no_duplicates(),
        call_ensures(RField::field, (&crossed, callsite), received),
    ensures
        field_view(received).index == field_view(field).index,
        field_view(received).set.names == field_view(field).set.names,
        field_view(received).set.callsite == callsite,
{
}

/// The fields of a callsite that is not known yet cross with their own names, in order; those of
/// one that is known cross as they did before. They are what the tables hold from then on, and
/// other callsites stay as they were.
pub proof fn fields_cross_with_their_names<F: FnOnce() -> RIdentifier>(
    tables: &mut Tables,
    callsite: usize,
    fields: FieldSet,
    identifier: F,
    crossed: RFieldSet,
    other: usize,
    i: int,
)
    requires
        call_ensures(Tables::fields::<F>, (tables, callsite, &fields, identifier), crossed),
        other != callsite,
    ensures
        !old(tables).names@.contains_key(callsite) ==> crossed.names@.len() == field_set_view(
            fields,
        ).names.len(),
        !old(tables).names@.contains_key(callsite) && 0 <= i < crossed.names@.len()
            ==> crossed.names@[i]@ == field_set_view(fields).names[i],
        old(tables).names@.contains_key(callsite) ==> crossed.names
            == old(tables).names@[callsite],
        old(tables).callsites@.contains_key(callsite) ==> crossed.callsite
            == old(tables).callsites@[callsite],
        !old(tables).callsites@.contains_key(callsite) ==> identifier.ensures((), crossed.callsite),
        lookup(final(tables).names@, callsite) == Some(crossed.names),
        lookup(final(tables).callsites@, callsite) == Some(crossed.callsite),
        lookup(final(tables).names@, other) == lookup(old(tables).names@, other),
        lookup(final(tables).callsites@, other) == lookup(old(tables).callsites@, other),
        final(tables).metadata@ == old(tables).metadata@,
{
    assert(names_view(crossed.names@).len() == crossed.names@.len());
    if 0 <= i < crossed.names@.len() {
        assert(names_view(crossed.names@)[i] == crossed.names@[i]@);
    }
}

/// Metadata that was not handed over before is sent part by part, with the names of its own
/// fields where its callsite was not known; what was handed over before is given again. It is
/// what the tables hold from then on, and other metadata stays as it was.
pub proof fn metadata_is_handed_over_part_by_part<F: FnOnce() -> RIdentifier>(
    tables: &mut Tables,
    address: usize,
    metadata: &'static Metadata<'static>,
    module: Option<&'static str>,
    callsite: usize,
    identifier: F,
    crossed: &'static RMetadata<'static>,
    other: usize,
    is_event: bool,
    is_span: bool,
    is_hint: bool,
)
    requires
        call_ensures(
            Tables::metadata_ref::<F>,
            (tables, address, metadata, module, callsite, identifier),
            crossed,
        ),
        call_ensures(RKind::is_event, (&crossed.kind,), is_event),
        call_ensures(RKind::is_span, (&crossed.kind,), is_span),
        call_ensures(RKind::is_hint, (&crossed.kind,), is_hint),
        other != address,
    ensures
        old(tables).metadata@.contains_key(address) ==> {
            &&& crossed == old(tables).metadata@[address]
            &&& final(tables).names@ == old(tables).names@
            &&& final(tables).callsites@ == old(tables).callsites@
        },
        !old(tables).metadata@.contains_key(address) ==> {
            &&& crossed.name@ == metadata_view(*metadata).name
            &&& crossed.target@ == metadata_view(*metadata).target
            &&& crossed.level == metadata_view(*metadata).level
            &&& crossed.line == metadata_view(*metadata).line
            &&& crossed.module == module
            &&& crossed.file == module
            &&& is_event == (metadata_view(*metadata).kind & 1 == 1)
            &&& is_span == (metadata_view(*metadata).kind & 2 == 2)
            &&& !is_hint
            &&& lookup(final(tables).names@, callsite) == Some(crossed.fields.names)
            &&& lookup(final(tables).callsites@, callsite) == Some(crossed.fields.callsite)
            &&& lookup(old(tables).names@, callsite) is None ==> names_view(crossed.fields.names@)
                == metadata_view(*metadata).fields.names
            &&& lookup(old(tables).names@, callsite) matches Some(names) ==> crossed.fields.names
                == names
            &&& lookup(old(tables).callsites@, callsite) matches Some(known)
                ==> crossed.fields.callsite == known
            &&& lookup(old(tables).callsites@, callsite) is None ==> identifier.ensures(
                (),
                crossed.fields.callsite,
            )
        },
        lookup(final(tables).metadata@, address) == Some(crossed),
        lookup(final(tables).metadata@, other) == lookup(old(tables).metadata@, other),
{
}

/// What stands for metadata that came over is made of it part by part on the first request, and
/// given again on later ones.
pub proof fn metadata_that_came_over_is_kept(
    crossed: RMetadata<'static>,
    known: &mut Registry<&'static Metadata<'static>>,
    later: &mut Registry<&'static Metadata<'static>>,
    address: usize,
    callsite: Identifier,
    later_callsite: Identifier,
    before: Option<&'static Metadata<'static>>,
    metadata: &'static Metadata<'static>,
    later_metadata: &'static Metadata<'static>,
    converted: Metadata<'static>,
)
    requires
        call_ensures(RMetadata::<'static>::metadata, (&crossed, callsite), converted),
        call_ensures(
            Registry::<&'static Metadata<'static>>::try_get,
            (&*old(known), &address),
            before,
        ),
        call_ensures(
            RMetadata::<'static>::metadata_ref,
            (&crossed, known, address, callsite),
            metadata,
        ),
        *old(later) == *final(known),
        call_ensures(
            RMetadata::<'static>::metadata_ref,
            (&crossed, later, address, later_callsite),
            later_metadata,
        ),
    ensures
        before is Some ==> metadata == before->Some_0,
        before is None ==> {
            &&& metadata_view(*metadata) == metadata_view(converted)
            &&& metadata_view(*metadata).name == crossed.name@
            &&& metadata_view(*metadata).target == crossed.target@
            &&& metadata_view(*metadata).level == crossed.level
            &&& metadata_view(*metadata).line == crossed.line
            &&& metadata_view(*metadata).fields.names == names_view(crossed.fields.names@)
            &&& metadata_view(*metadata).fields.callsite == callsite
        },
        later_metadata == metadata,
{
}

}
