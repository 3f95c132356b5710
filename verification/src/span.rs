//! Source spans and the provenance ids that are made of them.

use vstd::prelude::*;

verus! {

/// The number of low bits of a provenance id that hold the number of a span
/// within its file.
pub const SPAN_BITS: u64 = 48;

/// The place in a source file that a visual item came from: the file and a
/// number within the file, of which the low 48 bits count.
#[derive(Clone, Copy, Debug, PartialEq, Eq, Structural)]
pub struct SourceSpan {
    pub file_id: u16,
    pub number: u64,
}

/// The span of an item that came from no source.
pub open spec fn detached_span() -> SourceSpan {
    SourceSpan { file_id: 0, number: 1 }
}

/// The provenance id of a span: the file in the high 16 bits, the number
/// within the file in the low 48.
pub open spec fn span_id(span: SourceSpan) -> u64 {
    (span.file_id as int * 0x1_0000_0000_0000 + span.number as int % 0x1_0000_0000_0000) as u64
}

/// The span that a provenance id stands for: the file from the high 16
/// bits, the number within the file from the low 48.
pub open spec fn span_of(id: u64) -> SourceSpan {
    SourceSpan {
        file_id: (id as int / 0x1_0000_0000_0000) as u16,
        number: (id as int % 0x1_0000_0000_0000) as u64,
    }
}

/// The greatest provenance id so far after one more span: a detached span
/// changes nothing, another one counts if its id is greater.
pub open spec fn max_attached_step(best: Option<u64>, span: SourceSpan) -> Option<u64> {
    if span == detached_span() {
        best
    } else {
        match best {
            Some(m) if m >= span_id(span) => Some(m),
            _ => Some(span_id(span)),
        }
    }
}

/// The greatest provenance id among the spans of `spans` that are not
/// detached, if there is one.
pub open spec fn max_attached_id(spans: Seq<SourceSpan>) -> Option<u64>
    decreases spans.len(),
{
    if spans.len() == 0 {
        None
    } else {
        max_attached_step(max_attached_id(spans.drop_last()), spans.last())
    }
}

/// The provenance id of a run of spans: the greatest id among those that are
/// not detached, and the id of the detached span where all are.
pub open spec fn run_span_id(spans: Seq<SourceSpan>) -> u64 {
    match max_attached_id(spans) {
        Some(m) => m,
        None => span_id(detached_span()),
    }
}

impl SourceSpan {
    /// The span of an item that came from no source.
    pub fn detached() -> (r: SourceSpan)
        ensures
            r == detached_span(),
    {
        SourceSpan { file_id: 0, number: 1 }
    }

    /// Whether this is the detached span.
    pub fn is_detached(&self) -> (r: bool)
        ensures
            r == (*self == detached_span()),
    {
        self.file_id == 0 && self.number == 1
    }

    /// The span that a provenance id stands for.
    pub fn from_u64(id: u64) -> (r: SourceSpan)
        ensures
            r == span_of(id),
    {
        assert((id >> 48) == id / 0x1_0000_0000_0000u64 && (id >> 48) < 0x1_0000u64 && (id
            & 0xffff_ffff_ffffu64) == id % 0x1_0000_0000_0000u64) by (bit_vector);
        SourceSpan { file_id: (id >> SPAN_BITS) as u16, number: id & 0xffff_ffff_ffffu64 }
    }

    /// The provenance id of the span.
    pub fn to_u64(&self) -> (r: u64)
        ensures
            r == span_id(*self),
    {
        let file: u64 = self.file_id as u64;
        let number: u64 = self.number;
        assert(((file << 48) | (number & 0xffff_ffff_ffffu64)) == file * 0x1_0000_0000_0000u64
            + number % 0x1_0000_0000_0000u64) by (bit_vector)
            requires
                file < 0x1_0000u64,
        ;
        (file << SPAN_BITS) | (number & 0xffff_ffff_ffffu64)
    }
}

/// The id of the detached span is one.
pub proof fn lemma_detached_id()
    ensures
        span_id(detached_span()) == 1,
{
}

/// Provenance ids order spans by file first and by number second, so two
/// spans with numbers below two to the 48th have the same id only if they are
/// the same span.
pub proof fn lemma_span_id_order(a: SourceSpan, b: SourceSpan)
    requires
        a.number < 0x1_0000_0000_0000,
        b.number < 0x1_0000_0000_0000,
    ensures
        span_id(a) < span_id(b) <==> (a.file_id < b.file_id || (a.file_id == b.file_id && a.number
            < b.number)),
        span_id(a) == span_id(b) <==> a == b,
{
}

/// A provenance id leads back to the span that it was made of, and a span
/// that is made from an id has that id.
pub proof fn lemma_span_id_round_trip(span: SourceSpan, id: u64)
    ensures
        span.number < 0x1_0000_0000_0000 ==> span_of(span_id(span)) == span,
        span_id(span_of(id)) == id,
        span_of(id).number < 0x1_0000_0000_0000,
{
}

/// The id of a run with a span that is not detached is the id of one such
/// span of the run, and no such span of the run has a greater id.
pub proof fn lemma_run_span_id_is_max(spans: Seq<SourceSpan>)
    ensures
        (forall|i: int| 0 <= i < spans.len() ==> spans[i] == detached_span()) ==> run_span_id(spans)
            == span_id(detached_span()) && max_attached_id(spans) is None,
        (exists|i: int| 0 <= i < spans.len() && spans[i] != detached_span()) ==> {
            &&& max_attached_id(spans) is Some
            &&& exists|i: int|
                0 <= i < spans.len() && spans[i] != detached_span() && span_id(spans[i])
                    == run_span_id(spans)
            &&& forall|i: int|
                0 <= i < spans.len() && spans[i] != detached_span() ==> span_id(spans[i])
                    <= run_span_id(spans)
        },
    decreases spans.len(),
{
    if spans.len() > 0 {
        let init = spans.drop_last();
        let last = spans.last();
        lemma_run_span_id_is_max(init);
        assert(forall|i: int| 0 <= i < init.len() ==> init[i] == spans[i]);
        if last == detached_span() {
            if exists|i: int| 0 <= i < spans.len() && spans[i] != detached_span() {
                let i = choose|i: int| 0 <= i < spans.len() && spans[i] != detached_span();
                assert(init[i] != detached_span());
                let j = choose|j: int|
                    0 <= j < init.len() && init[j] != detached_span() && span_id(init[j])
                        == run_span_id(init);
                assert(spans[j] != detached_span() && span_id(spans[j]) == run_span_id(spans));
            }
        } else {
            let k = spans.len() - 1;
            assert(spans[k] != detached_span());
            match max_attached_id(init) {
                Some(m) if m >= span_id(last) => {
                    assert(exists|i: int| 0 <= i < init.len() && init[i] != detached_span());
                    let j = choose|j: int|
                        0 <= j < init.len() && init[j] != detached_span() && span_id(init[j])
                            == run_span_id(init);
                    assert(spans[j] != detached_span() && span_id(spans[j]) == run_span_id(
                        spans,
                    ));
                },
                _ => {
                    assert(span_id(spans[k]) == run_span_id(spans));
                },
            }
        }
    }
}

/// Takes one more span into the greatest provenance id so far.
pub fn max_attached_with(best: Option<u64>, span: &SourceSpan) -> (r: Option<u64>)
    ensures
        r == max_attached_step(best, *span),
{
    if span.is_detached() {
        best
    } else {
        let id = span.to_u64();
        match best {
            Some(m) if m >= id => Some(m),
            _ => Some(id),
        }
    }
}

} // verus!
