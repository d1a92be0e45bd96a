//! Spans: their numbers, their parents, and the spans that are open.

use crate::registry::lookup;
use crate::tracing::field::{names_view, FieldSetView, RIdentifier};
use crate::tracing::kind::RKind;
use crate::tracing::metadata::{
    crossed_kind, every_request_is_answered, handed_over, is_receiving_run, is_table_run,
    metadata_crosses, metadata_view, received_metadata_is_made_from_what_came, text_view,
    MetadataView, RMetadata, TableStep, Tables,
};
use crate::tracing::value::RValueSet;
use std::collections::HashMap;
use tracing_core::callsite::Identifier;
use tracing_core::field::ValueSet;
use tracing_core::span::{Attributes, Current as CurrentSpan, Id};
use tracing_core::subscriber::{NoSubscriber, Subscriber};
use tracing_core::{Event, Metadata};
use vstd::prelude::*;
use vstd::std_specs::convert::FromSpecImpl;

verus! {

broadcast use vstd::std_specs::hash::group_hash_axioms;

/// `tracing_core`'s `Id` of a span, whose number stays hidden.
#[verifier::external_type_specification]
#[verifier::external_body]
pub struct ExId(Id);

/// `tracing_core`'s `Attributes` of a span, whose parts stay hidden.
#[verifier::external_type_specification]
#[verifier::external_body]
pub struct ExAttributes<'a>(Attributes<'a>);

/// `tracing_core`'s `Event`, whose parts stay hidden.
#[verifier::external_type_specification]
#[verifier::external_body]
pub struct ExEvent<'a>(Event<'a>);

/// `tracing_core`'s `ValueSet`, whose parts stay hidden.
#[verifier::external_type_specification]
#[verifier::external_body]
pub struct ExValueSet<'a>(ValueSet<'a>);

/// `tracing_core`'s `Current` span, whose parts stay hidden.
#[verifier::external_type_specification]
#[verifier::external_body]
pub struct ExCurrentSpan(CurrentSpan);

/// The number of a span.
pub uninterp spec fn id_number(id: Id) -> u64;

/// `Id::into_u64`: the number, which is never zero.
pub assume_specification[ Id::into_u64 ](id: &Id) -> (number: u64)
    ensures
        number == id_number(*id),
        number != 0,
;

/// `Id::from_u64`: the span of the number, which must not be zero.
pub assume_specification[ Id::from_u64 ](number: u64) -> (id: Id)
    requires
        number != 0,
    ensures
        id_number(id) == number,
;

/// Where a span or an event hangs: nowhere, below the current span, or below the span of
/// a given number.
pub enum ParentView {
    Root,
    Current,
    Explicit(u64),
}

/// What the `Attributes` of a span, or an `Event`, hold.
pub struct SpanView<'a> {
    pub parent: ParentView,
    pub metadata: Metadata<'static>,
    pub values: ValueSet<'a>,
}

/// What `Attributes` hold.
pub uninterp spec fn attributes_view(attributes: Attributes<'_>) -> SpanView<'_>;

/// What an `Event` holds.
pub uninterp spec fn event_view(event: Event<'_>) -> SpanView<'_>;

/// `Attributes::parent`: the parent, where one is given.
pub assume_specification<'a, 'b>[ Attributes::<'a>::parent ](attributes: &'b Attributes<'a>) -> (parent: Option<
    &'b Id,
>)
    ensures
        match parent {
            Some(id) => attributes_view(*attributes).parent == ParentView::Explicit(id_number(*id)),
            None => attributes_view(*attributes).parent !is Explicit,
        },
;

/// `Attributes::metadata`: the metadata.
pub assume_specification<'a>[ Attributes::<'a>::metadata ](attributes: &Attributes<'a>) -> (metadata: &'static Metadata<
    'static,
>)
    ensures
        *metadata == attributes_view(*attributes).metadata,
;

/// `Attributes::is_contextual`: the span hangs below the current one.
pub assume_specification<'a>[ Attributes::<'a>::is_contextual ](attributes: &Attributes<'a>) -> (result: bool)
    ensures
        result == (attributes_view(*attributes).parent is Current),
;

/// `Attributes::new_root`: those of a span that hangs nowhere.
pub assume_specification<'a>[ Attributes::<'a>::new_root ](
    metadata: &'static Metadata<'static>,
    values: &'a ValueSet<'a>,
) -> (attributes: Attributes<'a>)
    ensures
        attributes_view(attributes) == (SpanView {
            parent: ParentView::Root,
            metadata: *metadata,
            values: *values,
        }),
;

/// `Attributes::new`: those of a span that hangs below the current one.
pub assume_specification<'a>[ Attributes::<'a>::new ](
    metadata: &'static Metadata<'static>,
    values: &'a ValueSet<'a>,
) -> (attributes: Attributes<'a>)
    ensures
        attributes_view(attributes) == (SpanView {
            parent: ParentView::Current,
            metadata: *metadata,
            values: *values,
        }),
;

/// `Attributes::child_of`: those of a span that hangs below a given one.
pub assume_specification<'a>[ Attributes::<'a>::child_of ](
    parent: Id,
    metadata: &'static Metadata<'static>,
    values: &'a ValueSet<'a>,
) -> (attributes: Attributes<'a>)
    ensures
        attributes_view(attributes) == (SpanView {
            parent: ParentView::Explicit(id_number(parent)),
            metadata: *metadata,
            values: *values,
        }),
;

/// `Event::parent`: the parent, where one is given.
pub assume_specification<'a, 'b>[ Event::<'a>::parent ](event: &'b Event<'a>) -> (parent: Option<&'b Id>)
    ensures
        match parent {
            Some(id) => event_view(*event).parent == ParentView::Explicit(id_number(*id)),
            None => event_view(*event).parent !is Explicit,
        },
;

/// `Event::metadata`: the metadata.
pub assume_specification<'a>[ Event::<'a>::metadata ](event: &Event<'a>) -> (metadata: &'static Metadata<
    'static,
>)
    ensures
        *metadata == event_view(*event).metadata,
;

/// `Event::is_contextual`: the event hangs below the current span.
pub assume_specification<'a>[ Event::<'a>::is_contextual ](event: &Event<'a>) -> (result: bool)
    ensures
        result == (event_view(*event).parent is Current),
;

/// `Event::new`: an event that hangs below the current span.
pub assume_specification<'a>[ Event::<'a>::new ](
    metadata: &'static Metadata<'static>,
    fields: &'a ValueSet<'a>,
) -> (event: Event<'a>)
    ensures
        event_view(event) == (SpanView {
            parent: ParentView::Current,
            metadata: *metadata,
            values: *fields,
        }),
;

/// `Event::new_child_of`: an event that hangs below a given span, or nowhere where none is
/// given.
#[verifier::external_body]
fn event_child_of<'a>(
    parent: Option<Id>,
    metadata: &'static Metadata<'static>,
    fields: &'a ValueSet<'a>,
) -> (event: Event<'a>)
    ensures
        event_view(event) == (SpanView {
            parent: match parent {
                Some(id) => ParentView::Explicit(id_number(id)),
                None => ParentView::Root,
            },
            metadata: *metadata,
            values: *fields,
        }),
{
    Event::new_child_of(parent, metadata, fields)
}

/// What a `Current` tells: the span that is entered, that none is, or that this is not
/// known.
pub enum CurrentView {
    Span(u64, Metadata<'static>),
    Nothing,
    Unknown,
}

/// What a `Current` tells.
pub uninterp spec fn current_view(current: CurrentSpan) -> CurrentView;

/// `Current::is_known`: the current span is known, or that there is none.
pub assume_specification[ CurrentSpan::is_known ](current: &CurrentSpan) -> (result: bool)
    ensures
        result == (current_view(*current) !is Unknown),
;

/// `Current::into_inner`: the current span and its metadata, where one is known.
pub assume_specification[ CurrentSpan::into_inner ](current: CurrentSpan) -> (inner: Option<
    (Id, &'static Metadata<'static>),
>)
    ensures
        match inner {
            Some((id, metadata)) => current_view(current) == CurrentView::Span(
                id_number(id),
                *metadata,
            ),
            None => current_view(current) !is Span,
        },
;

/// `Current::new`: the given span is the current one.
pub assume_specification[ CurrentSpan::new ](
    id: Id,
    metadata: &'static Metadata<'static>,
) -> (current: CurrentSpan)
    ensures
        current_view(current) == CurrentView::Span(id_number(id), *metadata),
;

/// `Current::none`: there is no current span.
pub assume_specification[ CurrentSpan::none ]() -> (current: CurrentSpan)
    ensures
        current_view(current) is Nothing,
;

/// `Subscriber::current_span` in its default form, which `NoSubscriber` has: the current
/// span is not known.
#[verifier::external_body]
fn current_unknown() -> (current: CurrentSpan)
    ensures
        current_view(current) is Unknown,
{
    NoSubscriber::new().current_span()
}

/// The number of a span, which can cross the boundary. It is never zero.
#[derive(Debug)]
pub struct RId(u64);

impl RId {
    #[verifier::type_invariant]
    spec fn nonzero(self) -> bool {
        self.0 != 0
    }

    /// The number.
    pub closed spec fn number(self) -> u64 {
        self.0
    }

    /// The span of a number, unless that is zero.
    pub fn new(number: u64) -> (id: Option<Self>)
        ensures
            id is Some <==> number != 0,
            id matches Some(id) ==> id.number() == number,
    {
        if number == 0 {
            None
        } else {
            Some(RId(number))
        }
    }

    /// The number.
    pub fn get(&self) -> (number: u64)
        ensures
            number == self.number(),
            number != 0,
    {
        proof {
            use_type_invariant(self);
        }
        self.0
    }

    /// The number of a span, for the way over the boundary.
    pub fn from_id(id: &Id) -> (crossed: Self)
        ensures
            crossed.number() == id_number(*id),
    {
        RId(id.into_u64())
    }

    /// The span on the other side of the boundary.
    pub fn id(&self) -> (id: Id)
        ensures
            id_number(id) == self.number(),
    {
        Id::from_u64(self.get())
    }
}

impl From<Id> for RId {
    fn from(value: Id) -> (crossed: Self)
        ensures
            crossed.number() == id_number(value),
    {
        Self::from_id(&value)
    }
}

impl FromSpecImpl<Id> for RId {
    open spec fn obeys_from_spec() -> bool {
        true
    }

    closed spec fn from_spec(value: Id) -> Self {
        RId(id_number(value))
    }
}

impl From<RId> for Id {
    fn from(value: RId) -> (id: Self)
        ensures
            id_number(id) == value.number(),
    {
        value.id()
    }
}

impl FromSpecImpl<RId> for Id {
    open spec fn obeys_from_spec() -> bool {
        false
    }

    open spec fn from_spec(value: RId) -> Self {
        arbitrary()
    }
}

/// Where a span or an event hangs, for the way over the boundary.
#[derive(Debug)]
pub enum RParent {
    Root,
    Current,
    Explicit(RId),
}

impl View for RParent {
    type V = ParentView;

    open spec fn view(&self) -> ParentView {
        match *self {
            RParent::Root => ParentView::Root,
            RParent::Current => ParentView::Current,
            RParent::Explicit(id) => ParentView::Explicit(id.number()),
        }
    }
}

impl RParent {
    /// Where something hangs that has the given parent, if any, and that hangs below the
    /// current span or not.
    pub fn from_tests(parent: Option<RId>, is_contextual: bool) -> (hangs: Self)
        ensures
            hangs@ == (match parent {
                Some(id) => ParentView::Explicit(id.number()),
                None => if is_contextual {
                    ParentView::Current
                } else {
                    ParentView::Root
                },
            }),
    {
        match parent {
            Some(id) => RParent::Explicit(id),
            None => if is_contextual {
                RParent::Current
            } else {
                RParent::Root
            },
        }
    }

    /// Where a new span hangs.
    pub fn from_attributes(span: &Attributes<'_>) -> (hangs: Self)
        ensures
            hangs@ == attributes_view(*span).parent,
    {
        match span.parent() {
            Some(id) => Self::from_tests(Some(RId::from_id(id)), false),
            None => Self::from_tests(None, span.is_contextual()),
        }
    }

    /// Where an event hangs.
    pub fn from_event(event: &Event<'_>) -> (hangs: Self)
        ensures
            hangs@ == event_view(*event).parent,
    {
        match event.parent() {
            Some(id) => Self::from_tests(Some(RId::from_id(id)), false),
            None => Self::from_tests(None, event.is_contextual()),
        }
    }
}

/// The attributes of a new span, for the way over the boundary.
pub struct RAttributes<'a> {
    pub metadata: &'static RMetadata<'static>,
    pub values: &'a RValueSet<'a>,
    pub parent: RParent,
}

impl<'a> RAttributes<'a> {
    /// The attributes of a new span, with its values as they have been converted. Its metadata, which
    /// stands at an address, is handed over through the tables.
    pub fn from_attributes<F: FnOnce() -> RIdentifier>(
        span: &Attributes<'_>,
        tables: &mut Tables,
        address: usize,
        module: Option<&'static str>,
        callsite: usize,
        identifier: F,
        values: &'a RValueSet<'a>,
    ) -> (crossed: Self)
        requires
            old(tables).wf(),
            !old(tables).callsites@.contains_key(callsite) ==> identifier.requires(()),
        ensures
            final(tables).wf(),
            handed_over(
                *old(tables),
                *final(tables),
                address,
                metadata_view(attributes_view(*span).metadata),
                module,
                callsite,
                identifier,
                *crossed.metadata,
            ),
            crossed.values == values,
            crossed.parent@ == attributes_view(*span).parent,
    {
        let metadata = tables.metadata_ref(
            address,
            span.metadata(),
            module,
            callsite,
            identifier,
        );
        RAttributes { metadata, values, parent: RParent::from_attributes(span) }
    }

    /// The attributes on the other side of the boundary, with the metadata and values that
    /// they stand for there.
    pub fn attributes<'b>(
        &self,
        metadata: &'static Metadata<'static>,
        values: &'b ValueSet<'b>,
    ) -> (span: Attributes<'b>)
        ensures
            attributes_view(span) == (SpanView {
                parent: self.parent@,
                metadata: *metadata,
                values: *values,
            }),
    {
        match &self.parent {
            RParent::Root => Attributes::new_root(metadata, values),
            RParent::Current => Attributes::new(metadata, values),
            RParent::Explicit(parent) => Attributes::child_of(parent.id(), metadata, values),
        }
    }
}

/// An event, for the way over the boundary.
pub struct REvent<'a> {
    pub values: &'a RValueSet<'a>,
    pub metadata: &'static RMetadata<'static>,
    pub parent: RParent,
}

impl<'a> REvent<'a> {
    /// An event, with its values as they have been converted. Its metadata, which
    /// stands at an address, is handed over through the tables.
    pub fn from_event<F: FnOnce() -> RIdentifier>(
        event: &Event<'_>,
        tables: &mut Tables,
        address: usize,
        module: Option<&'static str>,
        callsite: usize,
        identifier: F,
        values: &'a RValueSet<'a>,
    ) -> (crossed: Self)
        requires
            old(tables).wf(),
            !old(tables).callsites@.contains_key(callsite) ==> identifier.requires(()),
        ensures
            final(tables).wf(),
            handed_over(
                *old(tables),
                *final(tables),
                address,
                metadata_view(event_view(*event).metadata),
                module,
                callsite,
                identifier,
                *crossed.metadata,
            ),
            crossed.values == values,
            crossed.parent@ == event_view(*event).parent,
    {
        let metadata = tables.metadata_ref(
            address,
            event.metadata(),
            module,
            callsite,
            identifier,
        );
        REvent { values, metadata, parent: RParent::from_event(event) }
    }

    /// The event on the other side of the boundary, with the metadata and values that it
    /// stands for there.
    pub fn event<'b>(
        &self,
        metadata: &'static Metadata<'static>,
        fields: &'b ValueSet<'b>,
    ) -> (event: Event<'b>)
        ensures
            event_view(event) == (SpanView {
                parent: self.parent@,
                metadata: *metadata,
                values: *fields,
            }),
    {
        match &self.parent {
            RParent::Root => event_child_of(None, metadata, fields),
            RParent::Current => Event::new(metadata, fields),
            RParent::Explicit(parent) => event_child_of(Some(parent.id()), metadata, fields),
        }
    }
}

/// The current span, for the way over the boundary.
pub enum RCurrent {
    /// A span is entered.
    Current { id: RId, metadata: &'static RMetadata<'static> },
    /// No span is entered.
    Nothing,
    /// It is not known whether a span is entered.
    Unknown,
}

impl RCurrent {
    /// What is told by a test for being known and by the span that is entered, if any.
    pub fn from_tests(
        known: bool,
        entered: Option<(RId, &'static RMetadata<'static>)>,
    ) -> (current: Self)
        ensures
            current == (match entered {
                Some((id, metadata)) => RCurrent::Current { id, metadata },
                None => if known {
                    RCurrent::Nothing
                } else {
                    RCurrent::Unknown
                },
            }),
    {
        match entered {
            Some((id, metadata)) => RCurrent::Current { id, metadata },
            None => if known {
                RCurrent::Nothing
            } else {
                RCurrent::Unknown
            },
        }
    }

    /// The current span for the way over the boundary, with its metadata as
    /// `metadata_ref` converts it.
    pub fn from_current<F: FnOnce(&'static Metadata<'static>) -> &'static RMetadata<'static>>(
        value: CurrentSpan,
        metadata_ref: F,
    ) -> (crossed: Self)
        requires
            current_view(value) matches CurrentView::Span(_, span) ==> metadata_ref.requires(
                (&span,),
            ),
        ensures
            current_crosses(current_view(value), crossed),
            current_view(value) matches CurrentView::Span(_, span) ==> metadata_ref.ensures(
                (&span,),
                crossed->metadata,
            ),
    {
        let known = value.is_known();
        match value.into_inner() {
            Some((id, metadata)) => Self::from_tests(
                known,
                Some((RId::from(id), metadata_ref(metadata))),
            ),
            None => Self::from_tests(known, None),
        }
    }

    /// The current span on the other side of the boundary, with its metadata as
    /// `metadata_ref` converts it.
    pub fn into_current<F: FnOnce(&'static RMetadata<'static>) -> &'static Metadata<'static>>(
        self,
        metadata_ref: F,
    ) -> (current: CurrentSpan)
        requires
            self matches RCurrent::Current { metadata, .. } ==> metadata_ref.requires((metadata,)),
        ensures
            current_crosses(current_view(current), self),
            self matches RCurrent::Current { metadata, .. } ==> metadata_ref.ensures(
                (metadata,),
                &current_view(current)->Span_1,
            ),
    {
        match self {
            RCurrent::Current { id, metadata } => CurrentSpan::new(Id::from(id), metadata_ref(metadata)),
            RCurrent::Nothing => CurrentSpan::none(),
            RCurrent::Unknown => current_unknown(),
        }
    }
}

/// What happens to the spans of a subscriber.
pub enum SpanEvent<M> {
    /// A span with the given number was made from the given metadata.
    New(u64, M),
    /// The span with the given number was asked to close, and did so or not.
    Close(u64, bool),
}

/// The spans after one more event.
pub open spec fn spans_step<M>(spans: Map<u64, M>, event: SpanEvent<M>) -> Map<u64, M> {
    match event {
        SpanEvent::New(id, metadata) => spans.insert(id, metadata),
        SpanEvent::Close(id, closed) => if closed {
            spans.remove(id)
        } else {
            spans
        },
    }
}

/// The spans after a run of events.
pub open spec fn spans_after<M>(events: Seq<SpanEvent<M>>) -> Map<u64, M>
    decreases events.len(),
{
    if events.len() == 0 {
        Map::empty()
    } else {
        spans_step(spans_after(events.drop_last()), events.last())
    }
}

/// The open spans of a subscriber on the other side of the boundary, each with the
/// metadata that it was made from.
pub struct RArcSubscriber<M> {
    spans: HashMap<u64, M>,
}

impl<M: Copy> View for RArcSubscriber<M> {
    type V = Map<u64, M>;

    /// The metadata of each open span.
    closed spec fn view(&self) -> Map<u64, M> {
        self.spans@
    }
}

impl<M: Copy> RArcSubscriber<M> {
    /// No span is open.
    pub fn new() -> (subscriber: Self)
        ensures
            subscriber@ == Map::<u64, M>::empty(),
    {
        RArcSubscriber { spans: HashMap::new() }
    }

    /// Takes note of a new span.
    pub fn new_span(&mut self, id: &RId, metadata: M)
        ensures
            final(self)@ == spans_step(old(self)@, SpanEvent::New(id.number(), metadata)),
    {
        self.spans.insert(id.get(), metadata);
    }

    /// The metadata by which values for a span are recorded. For a span that is not open
    /// there is none, and nothing is recorded.
    pub fn record(&self, span: &RId) -> (metadata: Option<M>)
        ensures
            metadata == (if self@.contains_key(span.number()) {
                Some(self@[span.number()])
            } else {
                None
            }),
    {
        match self.spans.get(&span.get()) {
            Some(metadata) => Some(*metadata),
            None => None,
        }
    }

    /// Takes note of a span that was asked to close, and whether it did.
    pub fn try_close(&mut self, id: &RId, closed: bool) -> (result: bool)
        ensures
            result == closed,
            final(self)@ == spans_step(old(self)@, SpanEvent::Close(id.number(), closed)),
    {
        if closed {
            self.spans.remove(&id.get());
        }
        closed
    }
}

/// The event at `i` is the making of a span, and no later one makes or closes it.
pub open spec fn opened_at<M>(events: Seq<SpanEvent<M>>, id: u64, i: int) -> bool {
    &&& 0 <= i < events.len()
    &&& events[i] matches SpanEvent::New(made, _) && made == id
    &&& forall|j: int|
        i < j < events.len() ==> match #[trigger] events[j] {
            SpanEvent::New(made, _) => made != id,
            SpanEvent::Close(asked, closed) => !(asked == id && closed),
        }
}

/// A span is kept from when it was made until it was closed: after any run of events there
/// is metadata for it if and only if it was made and not closed since, and the metadata is
/// what it was last made from.
pub proof fn a_span_is_kept_while_open<M>(events: Seq<SpanEvent<M>>, id: u64)
    ensures
        spans_after(events).contains_key(id) <==> exists|i: int| opened_at(events, id, i),
        forall|i: int| #[trigger]
            opened_at(events, id, i) ==> events[i] == SpanEvent::New(id, spans_after(events)[id]),
    decreases events.len(),
{
    if events.len() > 0 {
        let earlier = events.drop_last();
        let last = events.len() - 1;
        a_span_is_kept_while_open(earlier, id);
        assert forall|i: int| 0 <= i < last implies (#[trigger] opened_at(events, id, i) <==> (
        opened_at(earlier, id, i) && match events[last] {
            SpanEvent::New(made, _) => made != id,
            SpanEvent::Close(asked, closed) => !(asked == id && closed),
        })) by {
            assert forall|j: int| 0 <= j < last implies events[j] == earlier[j] by {}
            if opened_at(events, id, i) {
                assert(forall|j: int| i < j < last ==> events[j] == #[trigger] earlier[j]);
                assert(opened_at(earlier, id, i));
            }
        }
        if spans_after(earlier).contains_key(id) {
            let i = choose|i: int| opened_at(earlier, id, i);
            assert(opened_at(earlier, id, i));
            if spans_after(events).contains_key(id) {
                assert(opened_at(events, id, i) || opened_at(events, id, last));
            }
        }
        if events[last] matches SpanEvent::New(made, _) && made == id {
            assert(opened_at(events, id, last));
        }
        if exists|i: int| opened_at(events, id, i) {
            let i = choose|i: int| opened_at(events, id, i);
            if i < last {
                assert(opened_at(earlier, id, i));
            }
        }
    }
}

/// A new span comes out of the boundary where it went in, and so does an event, on every request
/// and not only on the first: it hangs in the same place, and its metadata is the same but for
/// what `metadata_crosses` tells.
///
/// `span` is what is sent. Its metadata is handed over by the request at `i` in a run of requests
/// to the tables; `parent` is what crosses of where it hangs. `received_span` is what is made of
/// that on the other side, with the metadata that the request at `j` in a run of requests there
/// is answered with.
pub proof fn spans_and_events_cross<'a, 'b>(
    span: SpanView<'a>,
    parent: RParent,
    received_span: SpanView<'b>,
    tables: Seq<Tables>,
    steps: Seq<TableStep>,
    i: int,
    addresses: Seq<usize>,
    crossed: Seq<RMetadata<'static>>,
    callsites: Seq<Identifier>,
    answers: Seq<&'static Metadata<'static>>,
    known: Seq<Map<usize, &'static Metadata<'static>>>,
    j: int,
)
    requires
        is_table_run(tables, steps),
        0 <= i < steps.len(),
        steps[i] is HandOver,
        steps[i]->metadata == metadata_view(span.metadata),
        parent@ == span.parent,
        is_receiving_run(addresses, crossed, callsites, answers, known),
        0 <= j < addresses.len(),
        crossed[j] == steps[i]->HandOver_crossed,
        received_span.parent == parent@,
        received_span.metadata == *answers[j],
    ensures
        received_span.parent == span.parent,
        metadata_view(received_span.metadata) == (MetadataView {
            module: text_view(steps[i]->module),
            file: text_view(steps[i]->module),
            fields: FieldSetView {
                names: metadata_view(span.metadata).fields.names,
                callsite: callsites[j],
            },
            kind: crossed_kind(metadata_view(span.metadata).kind),
            ..metadata_view(span.metadata)
        }),
{
    every_request_is_answered(tables, steps, i, i + 1);
    received_metadata_is_made_from_what_came(addresses, crossed, callsites, answers, known, j);
    metadata_crosses(
        metadata_view(span.metadata),
        steps[i]->module,
        steps[i]->HandOver_crossed,
        callsites[j],
    );
}

/// What `current` becomes for the way over the boundary, as far as it does not depend on
/// how metadata is converted.
pub open spec fn current_crosses(current: CurrentView, crossed: RCurrent) -> bool {
    match current {
        CurrentView::Span(number, _) => crossed matches RCurrent::Current { id, .. }
            && id.number() == number,
        CurrentView::Nothing => crossed is Nothing,
        CurrentView::Unknown => crossed is Unknown,
    }
}

/// The current span is the one of the same number on both sides of the boundary; that there
/// is none, or that it is not known, is told apart on both sides too.
pub proof fn current_spans_cross_unchanged(
    current: CurrentView,
    crossed: RCurrent,
    received: CurrentView,
)
    requires
        current_crosses(current, crossed),
        current_crosses(received, crossed),
    ensures
        match current {
            CurrentView::Span(number, _) => received matches CurrentView::Span(n, _) && n == number,
            CurrentView::Nothing => received is Nothing,
            CurrentView::Unknown => received is Unknown,
        },
{
}

/// The number of a span is what it was made of, on both sides: zero makes none, any other number
/// one of that number, and a span that crosses and one that comes back have the number that they
/// had.
pub proof fn a_span_keeps_its_number(
    number: u64,
    made: Option<RId>,
    id: RId,
    made_number: u64,
    span: Id,
    crossed: RId,
    crossed_number: u64,
    sent: RId,
    sent_number: u64,
    received: Id,
)
    requires
        call_ensures(RId::new, (number,), made),
        call_ensures(RId::get, (&id,), made_number),
        (call_ensures(RId::from_id, (&span,), crossed) || call_ensures(
            <RId as From<Id>>::from,
            (span,),
            crossed,
        )),
        call_ensures(RId::get, (&crossed,), crossed_number),
        call_ensures(RId::get, (&sent,), sent_number),
        (call_ensures(RId::id, (&sent,), received) || call_ensures(
            <Id as From<RId>>::from,
            (sent,),
            received,
        )),
    ensures
        made is None <==> number == 0,
        made == Some(id) ==> made_number == number,
        crossed_number == id_number(span),
        id_number(received) == sent_number,
{
}

/// Where something hangs goes by its tests: below the given parent where there is one, else below
/// the current span where it is told so, else nowhere.
pub proof fn a_place_goes_by_its_tests(parent: Option<RId>, is_contextual: bool, hangs: RParent)
    requires
        call_ensures(RParent::from_tests, (parent, is_contextual), hangs),
    ensures
        hangs is Explicit <==> parent is Some,
        hangs is Current <==> parent is None && is_contextual,
        hangs is Root <==> parent is None && !is_contextual,
        hangs is Explicit ==> hangs->Explicit_0.number() == parent->Some_0.number(),
{
}

/// A new span crosses with the place where it hangs: nowhere, below the current span, or below the
/// span of the same number.
pub proof fn a_new_span_crosses_with_its_place<'a>(
    span: Attributes<'a>,
    hangs: RParent,
    id: RId,
    number: u64,
)
    requires
        call_ensures(RParent::from_attributes, (&span,), hangs),
        call_ensures(RId::get, (&id,), number),
    ensures
        hangs is Root <==> attributes_view(span).parent is Root,
        hangs is Current <==> attributes_view(span).parent is Current,
        hangs is Explicit <==> attributes_view(span).parent is Explicit,
        hangs == RParent::Explicit(id) ==> attributes_view(span).parent == ParentView::Explicit(number),
{
}

/// A new span comes out in the place that it crossed with, and with the metadata and the values that
/// it is given.
pub proof fn a_new_span_comes_out_in_its_place<'a, 'b>(
    crossed: RAttributes<'a>,
    metadata: &'static Metadata<'static>,
    values: &'b ValueSet<'b>,
    received: Attributes<'b>,
    id: RId,
    number: u64,
)
    requires
        call_ensures(RAttributes::<'a>::attributes, (&crossed, metadata, values), received),
        call_ensures(RId::get, (&id,), number),
    ensures
        attributes_view(received).parent is Root <==> crossed.parent is Root,
        attributes_view(received).parent is Current <==> crossed.parent is Current,
        attributes_view(received).parent is Explicit <==> crossed.parent is Explicit,
        crossed.parent == RParent::Explicit(id) ==> attributes_view(received).parent
            == ParentView::Explicit(number),
        attributes_view(received).metadata == *metadata,
        attributes_view(received).values == *values,
{
}

/// A new span that is sent and received hangs where it hung: two calls, one on each side.
pub proof fn a_new_span_comes_back_where_it_hung<
    'a,
    'b,
    'c,
    F: FnOnce() -> RIdentifier,
>(
    span: Attributes<'c>,
    tables: &mut Tables,
    address: usize,
    module: Option<&'static str>,
    callsite: usize,
    identifier: F,
    set: &'a RValueSet<'a>,
    crossed: RAttributes<'a>,
    metadata: &'static Metadata<'static>,
    values: &'b ValueSet<'b>,
    received: Attributes<'b>,
)
    requires
        call_ensures(
            RAttributes::<'a>::from_attributes::<F>,
            (&span, tables, address, module, callsite, identifier, set),
            crossed,
        ),
        call_ensures(RAttributes::<'a>::attributes, (&crossed, metadata, values), received),
    ensures
        attributes_view(received).parent == attributes_view(span).parent,
        crossed.values == set,
        crossed.parent is Root <==> attributes_view(span).parent is Root,
        crossed.parent is Current <==> attributes_view(span).parent is Current,
{
}

/// A new span is sent with its own metadata: part by part where that was not handed over before, and
/// as it was handed over else. That is what the tables hold from then on.
pub proof fn a_new_span_is_sent_with_its_own_metadata<
    'a,
    'c,
    F: FnOnce() -> RIdentifier,
>(
    span: Attributes<'c>,
    tables: &mut Tables,
    address: usize,
    module: Option<&'static str>,
    callsite: usize,
    identifier: F,
    set: &'a RValueSet<'a>,
    crossed: RAttributes<'a>,
    is_event: bool,
    is_span: bool,
)
    requires
        call_ensures(
            RAttributes::<'a>::from_attributes::<F>,
            (&span, tables, address, module, callsite, identifier, set),
            crossed,
        ),
        call_ensures(RKind::is_event, (&crossed.metadata.kind,), is_event),
        call_ensures(RKind::is_span, (&crossed.metadata.kind,), is_span),
    ensures
        lookup(final(tables).metadata@, address) == Some(crossed.metadata),
        lookup(old(tables).metadata@, address) matches Some(known) ==> crossed.metadata == known,
        lookup(old(tables).metadata@, address) is None ==> {
            &&& crossed.metadata.name@ == metadata_view(attributes_view(span).metadata).name
            &&& crossed.metadata.target@ == metadata_view(attributes_view(span).metadata).target
            &&& crossed.metadata.level == metadata_view(attributes_view(span).metadata).level
            &&& crossed.metadata.line == metadata_view(attributes_view(span).metadata).line
            &&& crossed.metadata.module == module
            &&& crossed.metadata.file == module
            &&& is_event == (metadata_view(attributes_view(span).metadata).kind & 1 == 1)
            &&& is_span == (metadata_view(attributes_view(span).metadata).kind & 2 == 2)
            &&& lookup(final(tables).names@, callsite) == Some(crossed.metadata.fields.names)
            &&& lookup(final(tables).callsites@, callsite) == Some(
                crossed.metadata.fields.callsite,
            )
            &&& lookup(old(tables).names@, callsite) is None ==> names_view(
                crossed.metadata.fields.names@,
            ) == metadata_view(attributes_view(span).metadata).fields.names
        },
{
}

/// An event crosses with the place where it hangs: nowhere, below the current span, or below the
/// span of the same number.
pub proof fn an_event_crosses_with_its_place<'a>(
    event: Event<'a>,
    hangs: RParent,
    id: RId,
    number: u64,
)
    requires
        call_ensures(RParent::from_event, (&event,), hangs),
        call_ensures(RId::get, (&id,), number),
    ensures
        hangs is Root <==> event_view(event).parent is Root,
        hangs is Current <==> event_view(event).parent is Current,
        hangs is Explicit <==> event_view(event).parent is Explicit,
        hangs == RParent::Explicit(id) ==> event_view(event).parent == ParentView::Explicit(number),
{
}

/// An event comes out in the place that it crossed with, and with the metadata and the values that
/// it is given.
pub proof fn an_event_comes_out_in_its_place<'a, 'b>(
    crossed: REvent<'a>,
    metadata: &'static Metadata<'static>,
    values: &'b ValueSet<'b>,
    received: Event<'b>,
    id: RId,
    number: u64,
)
    requires
        call_ensures(REvent::<'a>::event, (&crossed, metadata, values), received),
        call_ensures(RId::get, (&id,), number),
    ensures
        event_view(received).parent is Root <==> crossed.parent is Root,
        event_view(received).parent is Current <==> crossed.parent is Current,
        event_view(received).parent is Explicit <==> crossed.parent is Explicit,
        crossed.parent == RParent::Explicit(id) ==> event_view(received).parent
            == ParentView::Explicit(number),
        event_view(received).metadata == *metadata,
        event_view(received).values == *values,
{
}

/// An event that is sent and received hangs where it hung: two calls, one on each side.
pub proof fn an_event_comes_back_where_it_hung<
    'a,
    'b,
    'c,
    F: FnOnce() -> RIdentifier,
>(
    event: Event<'c>,
    tables: &mut Tables,
    address: usize,
    module: Option<&'static str>,
    callsite: usize,
    identifier: F,
    set: &'a RValueSet<'a>,
    crossed: REvent<'a>,
    metadata: &'static Metadata<'static>,
    values: &'b ValueSet<'b>,
    received: Event<'b>,
)
    requires
        call_ensures(
            REvent::<'a>::from_event::<F>,
            (&event, tables, address, module, callsite, identifier, set),
            crossed,
        ),
        call_ensures(REvent::<'a>::event, (&crossed, metadata, values), received),
    ensures
        event_view(received).parent == event_view(event).parent,
        crossed.values == set,
        crossed.parent is Root <==> event_view(event).parent is Root,
        crossed.parent is Current <==> event_view(event).parent is Current,
{
}

/// An event is sent with its own metadata: part by part where that was not handed over before, and
/// as it was handed over else. That is what the tables hold from then on.
pub proof fn an_event_is_sent_with_its_own_metadata<
    'a,
    'c,
    F: FnOnce() -> RIdentifier,
>(
    event: Event<'c>,
    tables: &mut Tables,
    address: usize,
    module: Option<&'static str>,
    callsite: usize,
    identifier: F,
    set: &'a RValueSet<'a>,
    crossed: REvent<'a>,
    is_event: bool,
    is_span: bool,
)
    requires
        call_ensures(
            REvent::<'a>::from_event::<F>,
            (&event, tables, address, module, callsite, identifier, set),
            crossed,
        ),
        call_ensures(RKind::is_event, (&crossed.metadata.kind,), is_event),
        call_ensures(RKind::is_span, (&crossed.metadata.kind,), is_span),
    ensures
        lookup(final(tables).metadata@, address) == Some(crossed.metadata),
        lookup(old(tables).metadata@, address) matches Some(known) ==> crossed.metadata == known,
        lookup(old(tables).metadata@, address) is None ==> {
            &&& crossed.metadata.name@ == metadata_view(event_view(event).metadata).name
            &&& crossed.metadata.target@ == metadata_view(event_view(event).metadata).target
            &&& crossed.metadata.level == metadata_view(event_view(event).metadata).level
            &&& crossed.metadata.line == metadata_view(event_view(event).metadata).line
            &&& crossed.metadata.module == module
            &&& crossed.metadata.file == module
            &&& is_event == (metadata_view(event_view(event).metadata).kind & 1 == 1)
            &&& is_span == (metadata_view(event_view(event).metadata).kind & 2 == 2)
            &&& lookup(final(tables).names@, callsite) == Some(crossed.metadata.fields.names)
            &&& lookup(final(tables).callsites@, callsite) == Some(
                crossed.metadata.fields.callsite,
            )
            &&& lookup(old(tables).names@, callsite) is None ==> names_view(
                crossed.metadata.fields.names@,
            ) == metadata_view(event_view(event).metadata).fields.names
        },
{
}

/// What is told of the current span is told over the boundary: the span that is entered with its
/// own number, that none is, or that it is not known; and the metadata of the span is what its
/// own is converted to.
pub proof fn the_current_span_is_told_as_it_is<
    F: FnOnce(&'static Metadata<'static>) -> &'static RMetadata<'static>,
>(
    current: CurrentSpan,
    metadata_ref: F,
    crossed: RCurrent,
    id: RId,
    metadata: &'static RMetadata<'static>,
    number: u64,
    entered: u64,
    own: Metadata<'static>,
)
    requires
        call_ensures(RCurrent::from_current::<F>, (current, metadata_ref), crossed),
        call_ensures(RId::get, (&id,), number),
    ensures
        crossed is Nothing <==> current_view(current) is Nothing,
        crossed is Unknown <==> current_view(current) is Unknown,
        crossed is Current <==> current_view(current) is Span,
        crossed == (RCurrent::Current { id, metadata }) && current_view(current)
            == CurrentView::Span(entered, own) ==> number == entered && metadata_ref.ensures(
            (&own,),
            metadata,
        ),
{
}

/// What came over of the current span is what is told of it here: the span that is entered with
/// its own number, that none is, or that it is not known; and the metadata of the span is what
/// its own is converted to.
pub proof fn the_current_span_is_received_as_it_is<
    F: FnOnce(&'static RMetadata<'static>) -> &'static Metadata<'static>,
>(
    crossed: RCurrent,
    metadata_ref: F,
    current: CurrentSpan,
    id: RId,
    metadata: &'static RMetadata<'static>,
    number: u64,
    entered: u64,
    own: Metadata<'static>,
)
    requires
        call_ensures(RCurrent::into_current::<F>, (crossed, metadata_ref), current),
        call_ensures(RId::get, (&id,), number),
    ensures
        current_view(current) is Nothing <==> crossed is Nothing,
        current_view(current) is Unknown <==> crossed is Unknown,
        current_view(current) is Span <==> crossed is Current,
        crossed == (RCurrent::Current { id, metadata }) && current_view(current)
            == CurrentView::Span(entered, own) ==> number == entered && metadata_ref.ensures(
            (metadata,),
            &own,
        ),
{
}

/// What is told of the current span goes by its tests: the span that is entered where there is
/// one, else that there is none where that is known, else that it is not known.
pub proof fn the_current_span_goes_by_its_tests(
    known: bool,
    entered: Option<(RId, &'static RMetadata<'static>)>,
    current: RCurrent,
    id: RId,
    metadata: &'static RMetadata<'static>,
)
    requires
        call_ensures(RCurrent::from_tests, (known, entered), current),
    ensures
        current == (RCurrent::Current { id, metadata }) <==> entered == Some((id, metadata)),
        current is Nothing <==> entered is None && known,
        current is Unknown <==> entered is None && !known,
{
}

/// Values are recorded by the metadata that a span was made from: a subscriber has none for any
/// span at first, has that of a span once it was made, and leaves every other span alone.
pub proof fn a_span_is_recorded_by_its_own_metadata<M: Copy>(
    empty: RArcSubscriber<M>,
    nothing: Option<M>,
    spans: &mut RArcSubscriber<M>,
    id: RId,
    metadata: M,
    recorded: Option<M>,
    number: u64,
    other: RId,
    other_number: u64,
    other_before: Option<M>,
    other_after: Option<M>,
)
    requires
        call_ensures(RArcSubscriber::<M>::new, (), empty),
        call_ensures(RArcSubscriber::<M>::record, (&empty, &id), nothing),
        call_ensures(RArcSubscriber::<M>::new_span, (spans, &id, metadata), ()),
        call_ensures(RArcSubscriber::<M>::record, (&*final(spans), &id), recorded),
        call_ensures(RId::get, (&id,), number),
        call_ensures(RId::get, (&other,), other_number),
        other_number != number,
        call_ensures(RArcSubscriber::<M>::record, (&*old(spans), &other), other_before),
        call_ensures(RArcSubscriber::<M>::record, (&*final(spans), &other), other_after),
    ensures
        nothing is None,
        recorded == Some(metadata),
        other_after == other_before,
{
}

/// A span that closed is recorded no more, one that did not is recorded as before, and so is every
/// other span; and whether it closed is told on.
pub proof fn a_span_is_recorded_until_it_closes<M: Copy>(
    spans: &mut RArcSubscriber<M>,
    id: RId,
    closed: bool,
    result: bool,
    before: Option<M>,
    after: Option<M>,
    number: u64,
    other: RId,
    other_number: u64,
    other_before: Option<M>,
    other_after: Option<M>,
)
    requires
        call_ensures(RArcSubscriber::<M>::record, (&*old(spans), &id), before),
        call_ensures(RArcSubscriber::<M>::try_close, (spans, &id, closed), result),
        call_ensures(RArcSubscriber::<M>::record, (&*final(spans), &id), after),
        call_ensures(RId::get, (&id,), number),
        call_ensures(RId::get, (&other,), other_number),
        other_number != number,
        call_ensures(RArcSubscriber::<M>::record, (&*old(spans), &other), other_before),
        call_ensures(RArcSubscriber::<M>::record, (&*final(spans), &other), other_after),
    ensures
        result == closed,
        closed ==> after is None,
        !closed ==> after == before,
        other_after == other_before,
{
}

}
