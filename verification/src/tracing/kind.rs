//! Whether a callsite is an event, a span or a hint.

use tracing_core::Kind;
use vstd::prelude::*;
use vstd::std_specs::convert::FromSpecImpl;

verus! {

/// `tracing_core`'s `Kind`, whose bits stay hidden.
#[verifier::external_type_specification]
#[verifier::external_body]
pub struct ExKind(Kind);

/// The bits of a `Kind`: bit 0 for an event, bit 1 for a span, bit 2 for a hint.
pub uninterp spec fn kind_bits(kind: Kind) -> u8;

/// `Kind::is_event`: the bit for an event is set.
pub assume_specification[ Kind::is_event ](kind: &Kind) -> (result: bool)
    ensures
        result == (kind_bits(*kind) & 1 == 1),
;

/// `Kind::is_span`: the bit for a span is set.
pub assume_specification[ Kind::is_span ](kind: &Kind) -> (result: bool)
    ensures
        result == (kind_bits(*kind) & 2 == 2),
;

/// `Kind::is_hint`: the bit for a hint is set.
pub assume_specification[ Kind::is_hint ](kind: &Kind) -> (result: bool)
    ensures
        result == (kind_bits(*kind) & 4 == 4),
;

/// `Kind::hint`: the same bits and the one for a hint.
pub assume_specification[ Kind::hint ](kind: Kind) -> (hint: Kind)
    ensures
        kind_bits(hint) == kind_bits(kind) | 4,
;

/// The constant `Kind::EVENT`: the bit for an event alone.
#[verifier::external_body]
fn kind_event() -> (kind: Kind)
    ensures
        kind_bits(kind) == 1,
{
    Kind::EVENT
}

/// The constant `Kind::SPAN`: the bit for a span alone.
#[verifier::external_body]
fn kind_span() -> (kind: Kind)
    ensures
        kind_bits(kind) == 2,
{
    Kind::SPAN
}

/// The constant `Kind::HINT`: the bit for a hint alone.
#[verifier::external_body]
fn kind_hint() -> (kind: Kind)
    ensures
        kind_bits(kind) == 4,
{
    Kind::HINT
}

/// A kind of callsite that can cross the boundary.
#[derive(Clone, Copy, Debug, PartialEq, Eq, Structural)]
pub struct RKind(u8);

impl RKind {
    const EVENT_BIT: u8 = 1;

    const SPAN_BIT: u8 = 2;

    const HINT_BIT: u8 = 4;

    /// The bits of the kind, placed as in `kind_bits`.
    pub closed spec fn bits(self) -> u8 {
        self.0
    }

    /// The kind is an event.
    pub open spec fn has_event(self) -> bool {
        self.bits() & 1 == 1
    }

    /// The kind is a span.
    pub open spec fn has_span(self) -> bool {
        self.bits() & 2 == 2
    }

    /// The kind is a hint.
    pub open spec fn has_hint(self) -> bool {
        self.bits() & 4 == 4
    }

    /// The kind that is nothing yet.
    pub fn empty() -> (kind: Self)
        ensures
            kind.bits() == 0,
    {
        RKind(0)
    }

    /// The kind of the given bits.
    pub fn from_bits(bits: u8) -> (kind: Self)
        ensures
            kind.bits() == bits,
    {
        RKind(bits)
    }

    /// The bits of the kind.
    pub fn to_bits(&self) -> (bits: u8)
        ensures
            bits == self.bits(),
    {
        self.0
    }

    /// Whether the kind is a span.
    pub fn is_span(&self) -> (result: bool)
        ensures
            result == self.has_span(),
    {
        self.0 & Self::SPAN_BIT == Self::SPAN_BIT
    }

    /// Whether the kind is an event.
    pub fn is_event(&self) -> (result: bool)
        ensures
            result == self.has_event(),
    {
        self.0 & Self::EVENT_BIT == Self::EVENT_BIT
    }

    /// Whether the kind is a hint.
    pub fn is_hint(&self) -> (result: bool)
        ensures
            result == self.has_hint(),
    {
        self.0 & Self::HINT_BIT == Self::HINT_BIT
    }

    /// The same kind, and an event too if asked for.
    pub fn event(self, event: bool) -> (kind: Self)
        ensures
            kind.bits() == self.bits() | (if event {
                1u8
            } else {
                0u8
            }),
            kind.has_event() == (self.has_event() || event),
            kind.has_span() == self.has_span(),
            kind.has_hint() == self.has_hint(),
    {
        proof {
            lemma_set_bit(self.0);
        }
        if event {
            RKind(self.0 | Self::EVENT_BIT)
        } else {
            self
        }
    }

    /// The same kind, and a span too if asked for.
    pub fn span(self, span: bool) -> (kind: Self)
        ensures
            kind.bits() == self.bits() | (if span {
                2u8
            } else {
                0u8
            }),
            kind.has_event() == self.has_event(),
            kind.has_span() == (self.has_span() || span),
            kind.has_hint() == self.has_hint(),
    {
        proof {
            lemma_set_bit(self.0);
        }
        if span {
            RKind(self.0 | Self::SPAN_BIT)
        } else {
            self
        }
    }

    /// The same kind, and a hint too if asked for.
    pub fn hint(self, hint: bool) -> (kind: Self)
        ensures
            kind.bits() == self.bits() | (if hint {
                4u8
            } else {
                0u8
            }),
            kind.has_event() == self.has_event(),
            kind.has_span() == self.has_span(),
            kind.has_hint() == (self.has_hint() || hint),
    {
        proof {
            lemma_set_bit(self.0);
        }
        if hint {
            RKind(self.0 | Self::HINT_BIT)
        } else {
            self
        }
    }

    /// The bits of the `Kind` that this kind stands for: an event, else a span, else a
    /// hint; and a hint along with either of the first two where this kind is one.
    pub open spec fn chosen_bits(self) -> u8 {
        if self.has_event() {
            if self.has_hint() {
                5
            } else {
                1
            }
        } else if self.has_span() {
            if self.has_hint() {
                6
            } else {
                2
            }
        } else {
            4
        }
    }
}

/// What setting a bit does to each of the three.
proof fn lemma_set_bit(bits: u8)
    ensures
        bits | 0 == bits,
        (bits | 1) & 1 == 1 && (bits | 1) & 2 == bits & 2 && (bits | 1) & 4 == bits & 4,
        (bits | 2) & 1 == bits & 1 && (bits | 2) & 2 == 2 && (bits | 2) & 4 == bits & 4,
        (bits | 4) & 1 == bits & 1 && (bits | 4) & 2 == bits & 2 && (bits | 4) & 4 == 4,
{
    assert(bits | 0 == bits) by (bit_vector);
    assert((bits | 1) & 1 == 1 && (bits | 1) & 2 == bits & 2 && (bits | 1) & 4 == bits & 4)
        by (bit_vector);
    assert((bits | 2) & 1 == bits & 1 && (bits | 2) & 2 == 2 && (bits | 2) & 4 == bits & 4)
        by (bit_vector);
    assert((bits | 4) & 1 == bits & 1 && (bits | 4) & 2 == bits & 2 && (bits | 4) & 4 == 4)
        by (bit_vector);
}

/// Which bits are set in each of the kinds.
pub(crate) proof fn lemma_kinds()
    ensures
        1u8 & 7 == 1 && 2u8 & 7 == 2 && 4u8 & 7 == 4 && 5u8 & 7 == 5 && 6u8 & 7 == 6,
        1u8 & 1 == 1 && 2u8 & 1 == 0 && 4u8 & 1 == 0 && 5u8 & 1 == 1 && 6u8 & 1 == 0,
        1u8 & 2 == 0 && 2u8 & 2 == 2 && 4u8 & 2 == 0 && 5u8 & 2 == 0 && 6u8 & 2 == 2,
        1u8 & 4 == 0 && 2u8 & 4 == 0 && 4u8 & 4 == 4 && 5u8 & 4 == 4 && 6u8 & 4 == 4,
{
    assert(1u8 & 7 == 1 && 2u8 & 7 == 2 && 4u8 & 7 == 4 && 5u8 & 7 == 5 && 6u8 & 7 == 6)
        by (bit_vector);
    assert(1u8 & 1 == 1 && 2u8 & 1 == 0 && 4u8 & 1 == 0 && 5u8 & 1 == 1 && 6u8 & 1 == 0)
        by (bit_vector);
    assert(1u8 & 2 == 0 && 2u8 & 2 == 2 && 4u8 & 2 == 0 && 5u8 & 2 == 0 && 6u8 & 2 == 2)
        by (bit_vector);
    assert(1u8 & 4 == 0 && 2u8 & 4 == 0 && 4u8 & 4 == 4 && 5u8 & 4 == 4 && 6u8 & 4 == 4)
        by (bit_vector);
}

/// What the empty kind is, and what its three bits make up.
proof fn lemma_three_bits(bits: u8)
    ensures
        0u8 & 1 == 0 && 0u8 & 2 == 0 && 0u8 & 4 == 0,
        bits & 7 == ((0 | (if bits & 1 == 1 {
            1u8
        } else {
            0
        })) | (if bits & 2 == 2 {
            2u8
        } else {
            0
        })) | (if bits & 4 == 4 {
            4u8
        } else {
            0
        }),
{
    assert(0u8 & 1 == 0 && 0u8 & 2 == 0 && 0u8 & 4 == 0) by (bit_vector);
    assert(bits & 7 == ((0 | (if bits & 1 == 1 {
        1u8
    } else {
        0
    })) | (if bits & 2 == 2 {
        2u8
    } else {
        0
    })) | (if bits & 4 == 4 {
        4u8
    } else {
        0
    })) by (bit_vector);
}

impl From<Kind> for RKind {
    fn from(value: Kind) -> (kind: Self)
        ensures
            kind.bits() == kind_bits(value) & 7,
            kind.has_event() == (kind_bits(value) & 1 == 1),
            kind.has_span() == (kind_bits(value) & 2 == 2),
            kind.has_hint() == (kind_bits(value) & 4 == 4),
    {
        proof {
            lemma_three_bits(kind_bits(value));
        }
        RKind(0).event(value.is_event()).span(value.is_span()).hint(value.is_hint())
    }
}

impl FromSpecImpl<Kind> for RKind {
    open spec fn obeys_from_spec() -> bool {
        true
    }

    closed spec fn from_spec(value: Kind) -> Self {
        RKind(kind_bits(value) & 7)
    }
}

impl From<RKind> for Kind {
    fn from(value: RKind) -> (kind: Self)
        ensures
            kind_bits(kind) == value.chosen_bits(),
    {
        proof {
            assert(1u8 | 4 == 5 && 2u8 | 4 == 6) by (bit_vector);
        }
        if value.is_event() {
            if value.is_hint() {
                kind_event().hint()
            } else {
                kind_event()
            }
        } else if value.is_span() {
            if value.is_hint() {
                kind_span().hint()
            } else {
                kind_span()
            }
        } else {
            kind_hint()
        }
    }
}

impl FromSpecImpl<RKind> for Kind {
    open spec fn obeys_from_spec() -> bool {
        false
    }

    open spec fn from_spec(value: RKind) -> Self {
        arbitrary()
    }
}

/// The bits are those of an event or a span, which may be a hint too, or of a hint alone.
pub open spec fn is_kind(bits: u8) -> bool {
    bits == 1 || bits == 2 || bits == 4 || bits == 5 || bits == 6
}

/// A kind survives the boundary: whatever is an event or a span but not both, or a hint
/// alone, comes back with the same bits.
pub proof fn kind_crosses_unchanged(kind: Kind, crossed: RKind)
    requires
        is_kind(kind_bits(kind)),
        crossed.bits() == kind_bits(kind) & 7,
    ensures
        crossed.chosen_bits() == kind_bits(kind),
{
    lemma_kinds();
}

/// Making a kind an event makes it one where asked for, unmakes nothing, and leaves alone what else it
/// is.
pub proof fn making_a_kind_an_event_changes_nothing_else(
    kind: RKind,
    set: bool,
    after: RKind,
    event_before: bool,
    event_after: bool,
    span_before: bool,
    span_after: bool,
    hint_before: bool,
    hint_after: bool,
)
    requires
        call_ensures(RKind::event, (kind, set), after),
        call_ensures(RKind::is_event, (&kind,), event_before),
        call_ensures(RKind::is_event, (&after,), event_after),
        call_ensures(RKind::is_span, (&kind,), span_before),
        call_ensures(RKind::is_span, (&after,), span_after),
        call_ensures(RKind::is_hint, (&kind,), hint_before),
        call_ensures(RKind::is_hint, (&after,), hint_after),
    ensures
        event_after == (event_before || set),
        span_after == span_before,
        hint_after == hint_before,
{
}

/// Making a kind a span makes it one where asked for, unmakes nothing, and leaves alone what else it
/// is.
pub proof fn making_a_kind_a_span_changes_nothing_else(
    kind: RKind,
    set: bool,
    after: RKind,
    event_before: bool,
    event_after: bool,
    span_before: bool,
    span_after: bool,
    hint_before: bool,
    hint_after: bool,
)
    requires
        call_ensures(RKind::span, (kind, set), after),
        call_ensures(RKind::is_event, (&kind,), event_before),
        call_ensures(RKind::is_event, (&after,), event_after),
        call_ensures(RKind::is_span, (&kind,), span_before),
        call_ensures(RKind::is_span, (&after,), span_after),
        call_ensures(RKind::is_hint, (&kind,), hint_before),
        call_ensures(RKind::is_hint, (&after,), hint_after),
    ensures
        event_after == event_before,
        span_after == (span_before || set),
        hint_after == hint_before,
{
}

/// Making a kind a hint makes it one where asked for, unmakes nothing, and leaves alone what else it
/// is.
pub proof fn making_a_kind_a_hint_changes_nothing_else(
    kind: RKind,
    set: bool,
    after: RKind,
    event_before: bool,
    event_after: bool,
    span_before: bool,
    span_after: bool,
    hint_before: bool,
    hint_after: bool,
)
    requires
        call_ensures(RKind::hint, (kind, set), after),
        call_ensures(RKind::is_event, (&kind,), event_before),
        call_ensures(RKind::is_event, (&after,), event_after),
        call_ensures(RKind::is_span, (&kind,), span_before),
        call_ensures(RKind::is_span, (&after,), span_after),
        call_ensures(RKind::is_hint, (&kind,), hint_before),
        call_ensures(RKind::is_hint, (&after,), hint_after),
    ensures
        event_after == event_before,
        span_after == span_before,
        hint_after == (hint_before || set),
{
}

/// The bits of a kind tell what it is: the first that it is an event, the second that it is a
/// span, the third that it is a hint. They come back as they were given, and an empty kind has
/// none of them.
pub proof fn a_kind_is_what_its_bits_tell(
    bits: u8,
    kind: RKind,
    back: u8,
    is_event: bool,
    is_span: bool,
    is_hint: bool,
    empty: RKind,
    no_bits: u8,
)
    requires
        call_ensures(RKind::from_bits, (bits,), kind),
        call_ensures(RKind::to_bits, (&kind,), back),
        call_ensures(RKind::is_event, (&kind,), is_event),
        call_ensures(RKind::is_span, (&kind,), is_span),
        call_ensures(RKind::is_hint, (&kind,), is_hint),
        call_ensures(RKind::empty, (), empty),
        call_ensures(RKind::to_bits, (&empty,), no_bits),
    ensures
        back == bits,
        is_event == (bits & 1 == 1),
        is_span == (bits & 2 == 2),
        is_hint == (bits & 4 == 4),
        no_bits == 0,
{
}

/// A kind crosses as what it is: an event, a span and a hint if and only if it was one.
pub proof fn a_kind_crosses_as_it_is(
    kind: Kind,
    crossed: RKind,
    is_event: bool,
    is_span: bool,
    is_hint: bool,
)
    requires
        call_ensures(<RKind as From<Kind>>::from, (kind,), crossed),
        call_ensures(RKind::is_event, (&crossed,), is_event),
        call_ensures(RKind::is_span, (&crossed,), is_span),
        call_ensures(RKind::is_hint, (&crossed,), is_hint),
    ensures
        is_event == (kind_bits(kind) & 1 == 1),
        is_span == (kind_bits(kind) & 2 == 2),
        is_hint == (kind_bits(kind) & 4 == 4),
{
}

/// A kind comes back as an event where it is one, else as a span where it is one, each a hint too
/// where it is one, and as a hint where it is neither.
pub proof fn a_kind_comes_back_as_it_is(
    sent: RKind,
    received: Kind,
    is_event: bool,
    is_span: bool,
    is_hint: bool,
)
    requires
        call_ensures(<Kind as From<RKind>>::from, (sent,), received),
        call_ensures(RKind::is_event, (&sent,), is_event),
        call_ensures(RKind::is_span, (&sent,), is_span),
        call_ensures(RKind::is_hint, (&sent,), is_hint),
    ensures
        (kind_bits(received) & 1 == 1) == is_event,
        (kind_bits(received) & 2 == 2) == (is_span && !is_event),
        (kind_bits(received) & 4 == 4) == (is_hint || !is_event && !is_span),
        kind_bits(received) == 1 || kind_bits(received) == 2 || kind_bits(received) == 4 || kind_bits(
            received,
        ) == 5 || kind_bits(received) == 6,
{
    lemma_kinds();
}

/// A kind that crosses and comes back has the bits that it had, wherever it is an event or a span
/// but not both, or a hint alone.
pub proof fn a_kind_comes_back_as_it_went(kind: Kind, crossed: RKind, received: Kind)
    requires
        kind_bits(kind) == 1 || kind_bits(kind) == 2 || kind_bits(kind) == 4 || kind_bits(kind) == 5
            || kind_bits(kind) == 6,
        call_ensures(<RKind as From<Kind>>::from, (kind,), crossed),
        call_ensures(<Kind as From<RKind>>::from, (crossed,), received),
    ensures
        kind_bits(received) == kind_bits(kind),
{
    lemma_kinds();
}

}
