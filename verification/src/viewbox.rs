//! The view box of an embedded SVG glyph document.
//!
//! The document is tokenized only as far as the end of its root start tag.
//! The view box of the root element is then set by patching the bytes of the
//! document in place, so that no other byte changes.

use vstd::prelude::*;
use vstd::string::*;
use vstd::utf8::*;

verus! {

/// A range of bytes of a document, from `start` up to `end`.
#[derive(Clone, Copy, Debug, PartialEq, Eq, Structural)]
pub struct ByteSpan {
    pub start: usize,
    pub end: usize,
}

/// What the tokenizer reports of a document, one piece at a time.
#[derive(Clone, Copy, Debug, PartialEq, Eq, Structural)]
pub enum XmlEvent {
    /// The opening of a start tag: the span of the element's local name, and
    /// where the opening ends.
    ElementStart { local: ByteSpan, end: usize },
    /// An attribute: the spans of its local name and of its value.
    Attribute { local: ByteSpan, value: ByteSpan },
    /// The end of a start tag, or an end tag.
    ElementEnd,
    /// Any other well-formed piece.
    Other,
    /// A piece that is not well-formed.
    Malformed,
}

/// `xmlparser::Tokenizer`: the XML tokenizer, an iterator over the tokens of
/// a document. Nothing is known of what it holds but what
/// [`pending_events`] names.
#[verifier::external_type_specification]
#[verifier::external_body]
pub struct ExTokenizer<'a>(xmlparser::Tokenizer<'a>);

/// `xmlparser::Token`: what the tokenizer hands out. The library reads of
/// one only what an [`XmlEvent`] holds.
#[verifier::external_type_specification]
#[verifier::external_body]
pub struct ExToken<'a>(xmlparser::Token<'a>);

/// `xmlparser::Error`: what the tokenizer hands out in place of a token that
/// is not well-formed.
#[verifier::external_type_specification]
#[verifier::external_body]
pub struct ExXmlError(xmlparser::Error);

/// The events that `xmlparser::Tokenizer` reports of a document, in order:
/// one for each item that its iterator yields from the start of the document,
/// up to and including the first that is an error.
pub uninterp spec fn xml_events(text: Seq<char>) -> Seq<XmlEvent>;

/// The events that a tokenizer has not yet handed out.
pub uninterp spec fn pending_events(tokens: xmlparser::Tokenizer<'_>) -> Seq<XmlEvent>;

/// `xmlparser::Tokenizer::from`: a tokenizer at the start of the document,
/// which has all the events of the document yet to hand out.
#[verifier::external_body]
fn tokenize<'a>(text: &'a str) -> (tokens: xmlparser::Tokenizer<'a>)
    ensures
        pending_events(tokens) == xml_events(text@),
{
    xmlparser::Tokenizer::from(text)
}

/// `Iterator::next` of `xmlparser::Tokenizer`: the first of the pending
/// events, which is then no longer pending, or `None` where none is pending.
/// Of a token the event keeps the byte offsets that `StrSpan::start` and
/// `StrSpan::end` give; an error of the tokenizer is the event `Malformed`.
#[verifier::external_body]
fn next_event(tokens: &mut xmlparser::Tokenizer<'_>) -> (event: Option<XmlEvent>)
    ensures
        match event {
            Some(e) => pending_events(*old(tokens)).len() > 0
                && e == pending_events(*old(tokens))[0]
                && pending_events(*final(tokens)) == pending_events(*old(tokens)).skip(1),
            None => pending_events(*old(tokens)).len() == 0 && pending_events(*final(tokens))
                == pending_events(*old(tokens)),
        },
{
    Some(match tokens.next()? {
        Ok(xmlparser::Token::ElementStart { local, span, .. }) => XmlEvent::ElementStart {
            local: ByteSpan { start: local.start(), end: local.end() },
            end: span.end(),
        },
        Ok(xmlparser::Token::Attribute { local, value, .. }) => XmlEvent::Attribute {
            local: ByteSpan { start: local.start(), end: local.end() },
            value: ByteSpan { start: value.start(), end: value.end() },
        },
        Ok(xmlparser::Token::ElementEnd { .. }) => XmlEvent::ElementEnd,
        Ok(_) => XmlEvent::Other,
        Err(_) => XmlEvent::Malformed,
    })
}

/// `core::str::Utf8Error`: why bytes are no UTF-8.
#[verifier::external_type_specification]
#[verifier::external_body]
pub struct ExUtf8Error(core::str::Utf8Error);

/// `core::str::from_utf8`: the bytes as a string slice if and only if they
/// are valid UTF-8; the slice then holds exactly these bytes.
pub assume_specification[ core::str::from_utf8 ](v: &[u8]) -> (r: Result<
    &str,
    core::str::Utf8Error,
>)
    ensures
        r is Ok <==> valid_utf8(v@),
        r matches Ok(s) ==> s.spec_bytes() == v@,
;

/// Where the root start tag and the first view box of a document are.
#[derive(Clone, Copy, Debug, PartialEq, Eq, Structural)]
pub struct FindViewBoxResult {
    /// Where the opening of the last `svg` start tag before the scan stopped
    /// ends: right behind the element's name.
    pub start_span: Option<usize>,
    /// The span of the value of the first `viewBox` attribute.
    pub first_viewbox: Option<ByteSpan>,
}

/// Whether `span` lies within `markup` and holds exactly the bytes of `name`.
pub open spec fn span_holds(markup: Seq<u8>, span: ByteSpan, name: Seq<u8>) -> bool {
    span.start <= span.end <= markup.len() && markup.subrange(span.start as int, span.end as int)
        == name
}

/// How a scan goes on after an event.
#[derive(Clone, Copy, Debug, PartialEq, Eq, Structural)]
pub enum Scan {
    /// The scan goes on, with the root start tag found so far.
    Continue(Option<usize>),
    /// The scan is over: with what it found, or with nothing where the
    /// document is malformed.
    Done(Option<FindViewBoxResult>),
}

/// What one event does to a scan that has found `start_span` so far. The
/// opening of an `svg` start tag is remembered. The scan ends at the first
/// `viewBox` attribute and at the first element end, and it fails at a
/// malformed piece.
pub open spec fn scan_step(markup: Seq<u8>, start_span: Option<usize>, event: XmlEvent) -> Scan {
    match event {
        XmlEvent::ElementStart { local, end } => Scan::Continue(
            if span_holds(markup, local, "svg".spec_bytes()) {
                Some(end)
            } else {
                start_span
            },
        ),
        XmlEvent::Attribute { local, value } => if span_holds(
            markup,
            local,
            "viewBox".spec_bytes(),
        ) {
            Scan::Done(Some(FindViewBoxResult { start_span, first_viewbox: Some(value) }))
        } else {
            Scan::Continue(start_span)
        },
        XmlEvent::ElementEnd => Scan::Done(
            Some(FindViewBoxResult { start_span, first_viewbox: None }),
        ),
        XmlEvent::Other => Scan::Continue(start_span),
        XmlEvent::Malformed => Scan::Done(None),
    }
}

/// What a scan of `events` finds, given the root start tag found so far: what
/// the first event that ends the scan gives, and where no event ends it, the
/// root start tag without a view box.
pub open spec fn scan_events(
    markup: Seq<u8>,
    events: Seq<XmlEvent>,
    start_span: Option<usize>,
) -> Option<FindViewBoxResult>
    decreases events.len(),
{
    if events.len() == 0 {
        Some(FindViewBoxResult { start_span, first_viewbox: None })
    } else {
        match scan_step(markup, start_span, events[0]) {
            Scan::Continue(found) => scan_events(markup, events.skip(1), found),
            Scan::Done(result) => result,
        }
    }
}

/// The attribute that sets the view box to `view_box`, with the space that
/// parts it from what stands before it.
pub open spec fn view_box_attribute(view_box: Seq<u8>) -> Seq<u8> {
    " viewBox=\"".spec_bytes() + view_box + "\"".spec_bytes()
}

/// The document with its view box set to `view_box`: the value of the first
/// `viewBox` attribute replaced where there is one, and else the attribute
/// inserted right behind the opening of the root start tag. `None` where
/// there is neither, or where a span does not lie within the document.
pub open spec fn rewritten(markup: Seq<u8>, found: FindViewBoxResult, view_box: Seq<u8>) -> Option<
    Seq<u8>,
> {
    match found.first_viewbox {
        Some(value) => if value.start <= value.end <= markup.len() {
            Some(
                markup.subrange(0, value.start as int) + view_box + markup.subrange(
                    value.end as int,
                    markup.len() as int,
                ),
            )
        } else {
            None
        },
        None => match found.start_span {
            Some(at) => if at <= markup.len() {
                Some(
                    markup.subrange(0, at as int) + view_box_attribute(view_box)
                        + markup.subrange(at as int, markup.len() as int),
                )
            } else {
                None
            },
            None => None,
        },
    }
}

/// The document with its view box normalized to `view_box`, where the
/// document is valid UTF-8, its root start tag is well-formed, and it has a
/// view box or an `svg` root.
pub open spec fn normalized(markup: Seq<u8>, view_box: Seq<u8>) -> Option<Seq<u8>> {
    if valid_utf8(markup) {
        match scan_events(markup, xml_events(decode_utf8(markup)), None) {
            Some(found) => rewritten(markup, found, view_box),
            None => None,
        }
    } else {
        None
    }
}

/// Where a document has a view box, the rewriter replaces its value and
/// nothing else: the bytes before the value and the bytes behind it stay.
pub proof fn lemma_replace_keeps_other_bytes(
    markup: Seq<u8>,
    found: FindViewBoxResult,
    view_box: Seq<u8>,
)
    requires
        found.first_viewbox matches Some(value) && value.start <= value.end <= markup.len(),
    ensures
        ({
            let value = found.first_viewbox->0;
            &&& rewritten(markup, found, view_box) matches Some(out)
            &&& out.len() == markup.len() - (value.end - value.start) + view_box.len()
            &&& out.subrange(0, value.start as int) == markup.subrange(0, value.start as int)
            &&& out.subrange(value.start as int, value.start + view_box.len()) == view_box
            &&& out.subrange(value.start + view_box.len(), out.len() as int) == markup.subrange(
                value.end as int,
                markup.len() as int,
            )
        }),
{
    let value = found.first_viewbox->0;
    let out = rewritten(markup, found, view_box)->0;
    assert(out.subrange(0, value.start as int) =~= markup.subrange(0, value.start as int));
    assert(out.subrange(value.start as int, value.start + view_box.len()) =~= view_box);
    assert(out.subrange(value.start + view_box.len(), out.len() as int) =~= markup.subrange(
        value.end as int,
        markup.len() as int,
    ));
}

/// Where a document has no view box but an `svg` root, the rewriter inserts
/// the attribute once, behind the opening of the root start tag, and every
/// byte of the document stays.
pub proof fn lemma_insert_keeps_all_bytes(
    markup: Seq<u8>,
    found: FindViewBoxResult,
    view_box: Seq<u8>,
)
    requires
        found.first_viewbox is None,
        found.start_span matches Some(at) && at <= markup.len(),
    ensures
        ({
            let at = found.start_span->0;
            let attribute = view_box_attribute(view_box);
            &&& rewritten(markup, found, view_box) matches Some(out)
            &&& out.len() == markup.len() + attribute.len()
            &&& out.subrange(0, at as int) == markup.subrange(0, at as int)
            &&& out.subrange(at as int, at + attribute.len()) == attribute
            &&& out.subrange(at + attribute.len(), out.len() as int) == markup.subrange(
                at as int,
                markup.len() as int,
            )
        }),
{
    let at = found.start_span->0;
    let attribute = view_box_attribute(view_box);
    let out = rewritten(markup, found, view_box)->0;
    assert(out.subrange(0, at as int) =~= markup.subrange(0, at as int));
    assert(out.subrange(at as int, at + attribute.len()) =~= attribute);
    assert(out.subrange(at + attribute.len(), out.len() as int) =~= markup.subrange(
        at as int,
        markup.len() as int,
    ));
}

/// Whether `out` is `markup` with the bytes from `at` up to `until` replaced
/// by `view_box`, or, where there are no such bytes, with the attribute for
/// `view_box` inserted at `at`.
pub open spec fn patched(
    markup: Seq<u8>,
    out: Seq<u8>,
    view_box: Seq<u8>,
    at: int,
    until: int,
) -> bool {
    &&& 0 <= at <= until <= markup.len()
    &&& {
        ||| out == markup.subrange(0, at) + view_box + markup.subrange(until, markup.len() as int)
        ||| at == until && out == markup.subrange(0, at) + view_box_attribute(view_box)
            + markup.subrange(at, markup.len() as int)
    }
}

/// A normalized document differs from the document in one place: there the
/// value of a view box has become `view_box`, or the attribute for
/// `view_box` has been inserted. Every byte before and behind that place is a
/// byte of the document, in its place.
pub proof fn lemma_normalized_changes_one_place(markup: Seq<u8>, view_box: Seq<u8>)
    ensures
        normalized(markup, view_box) matches Some(out) ==> exists|at: int, until: int|
            patched(markup, out, view_box, at, until),
{
    if let Some(out) = normalized(markup, view_box) {
        let found = scan_events(markup, xml_events(decode_utf8(markup)), None)->0;
        match found.first_viewbox {
            Some(value) => {
                assert(patched(markup, out, view_box, value.start as int, value.end as int));
            },
            None => {
                let at = found.start_span->0;
                assert(patched(markup, out, view_box, at as int, at as int));
            },
        }
    }
}

/// Whether the bytes of `markup` in `span` are those of `name`.
fn span_is(markup: &[u8], span: ByteSpan, name: &[u8]) -> (r: bool)
    ensures
        r == span_holds(markup@, span, name@),
{
    if span.start > span.end || span.end > markup.len() || span.end - span.start != name.len() {
        proof {
            if span.start <= span.end <= markup.len() {
                assert(markup@.subrange(span.start as int, span.end as int).len() != name@.len());
            }
        }
        return false;
    }
    let mut i: usize = 0;
    while i < name.len()
        invariant
            i <= name.len(),
            span.start <= span.end <= markup.len(),
            span.end - span.start == name.len(),
            forall|k: int| 0 <= k < i ==> markup@[span.start + k] == name@[k],
        decreases name.len() - i,
    {
        if markup[span.start + i] != name[i] {
            proof {
                assert(markup@.subrange(span.start as int, span.end as int)[i as int]
                    != name@[i as int]);
            }
            return false;
        }
        i += 1;
    }
    proof {
        assert(markup@.subrange(span.start as int, span.end as int) =~= name@);
    }
    true
}

/// Takes one event into a scan of `markup` that has found `start_span` so far.
pub fn scan_event(markup: &[u8], start_span: Option<usize>, event: XmlEvent) -> (r: Scan)
    ensures
        r == scan_step(markup@, start_span, event),
{
    match event {
        XmlEvent::ElementStart { local, end } => {
            if span_is(markup, local, "svg".as_bytes()) {
                Scan::Continue(Some(end))
            } else {
                Scan::Continue(start_span)
            }
        },
        XmlEvent::Attribute { local, value } => {
            if span_is(markup, local, "viewBox".as_bytes()) {
                Scan::Done(Some(FindViewBoxResult { start_span, first_viewbox: Some(value) }))
            } else {
                Scan::Continue(start_span)
            }
        },
        XmlEvent::ElementEnd => Scan::Done(
            Some(FindViewBoxResult { start_span, first_viewbox: None }),
        ),
        XmlEvent::Other => Scan::Continue(start_span),
        XmlEvent::Malformed => Scan::Done(None),
    }
}

/// Finds the root start tag and the first `viewBox` attribute of a document.
/// Only the attributes of the root start tag are looked at: the scan stops
/// at the first element end. `None` where the document is malformed before
/// the scan stops.
pub fn find_viewbox_attr(svg_str: &str) -> (r: Option<FindViewBoxResult>)
    ensures
        r == scan_events(svg_str.spec_bytes(), xml_events(svg_str@), None),
{
    let markup = svg_str.as_bytes();
    let mut tokens = tokenize(svg_str);
    let mut start_span: Option<usize> = None;
    loop
        invariant
            markup@ == svg_str.spec_bytes(),
            scan_events(markup@, xml_events(svg_str@), None) == scan_events(
                markup@,
                pending_events(tokens),
                start_span,
            ),
        decreases pending_events(tokens).len(),
    {
        match next_event(&mut tokens) {
            Some(event) => match scan_event(markup, start_span, event) {
                Scan::Continue(found) => {
                    start_span = found;
                },
                Scan::Done(result) => {
                    return result;
                },
            },
            None => {
                return Some(FindViewBoxResult { start_span, first_viewbox: None });
            },
        }
    }
}

/// Appends the bytes of `source` from `from` up to `to` to `out`.
fn push_bytes(out: &mut Vec<u8>, source: &[u8], from: usize, to: usize)
    requires
        from <= to <= source.len(),
    ensures
        final(out)@ == old(out)@ + source@.subrange(from as int, to as int),
{
    let mut i: usize = from;
    while i < to
        invariant
            from <= i <= to <= source.len(),
            out@ == old(out)@ + source@.subrange(from as int, i as int),
        decreases to - i,
    {
        out.push(source[i]);
        proof {
            assert(out@ =~= old(out)@ + source@.subrange(from as int, i + 1));
        }
        i += 1;
    }
}

/// Sets the view box of a document of which the root start tag and the first
/// view box are known.
pub fn rewrite_viewbox(markup: &[u8], found: &FindViewBoxResult, view_box: &[u8]) -> (r: Option<
    Vec<u8>,
>)
    ensures
        match r {
            Some(out) => rewritten(markup@, *found, view_box@) == Some(out@),
            None => rewritten(markup@, *found, view_box@) is None,
        },
{
    let mut out: Vec<u8> = Vec::new();
    match found.first_viewbox {
        Some(value) => {
            if value.start > value.end || value.end > markup.len() {
                return None;
            }
            // replace the value of the first view box
            push_bytes(&mut out, markup, 0, value.start);
            push_bytes(&mut out, view_box, 0, view_box.len());
            push_bytes(&mut out, markup, value.end, markup.len());
            proof {
                assert(view_box@.subrange(0, view_box@.len() as int) =~= view_box@);
                assert(out@ =~= markup@.subrange(0, value.start as int) + view_box@
                    + markup@.subrange(value.end as int, markup@.len() as int));
            }
            Some(out)
        },
        None => match found.start_span {
            Some(at) => {
                if at > markup.len() {
                    return None;
                }
                // insert the view box behind the opening of the root start tag
                let open = " viewBox=\"".as_bytes();
                let close = "\"".as_bytes();
                push_bytes(&mut out, markup, 0, at);
                push_bytes(&mut out, open, 0, open.len());
                push_bytes(&mut out, view_box, 0, view_box.len());
                push_bytes(&mut out, close, 0, close.len());
                push_bytes(&mut out, markup, at, markup.len());
                proof {
                    assert(view_box@.subrange(0, view_box@.len() as int) =~= view_box@);
                    assert(open@.subrange(0, open@.len() as int) =~= open@);
                    assert(close@.subrange(0, close@.len() as int) =~= close@);
                    assert(out@ =~= markup@.subrange(0, at as int) + view_box_attribute(
                        view_box@,
                    ) + markup@.subrange(at as int, markup@.len() as int));
                }
                Some(out)
            },
            None => None,
        },
    }
}

/// Normalizes the view box of an embedded SVG document to `view_box`,
/// changing no other byte of the document.
pub fn normalize_viewbox(markup: &[u8], view_box: &str) -> (r: Option<Vec<u8>>)
    ensures
        match r {
            Some(out) => normalized(markup@, view_box.spec_bytes()) == Some(out@),
            None => normalized(markup@, view_box.spec_bytes()) is None,
        },
{
    match core::str::from_utf8(markup) {
        Ok(text) => {
            proof {
                encode_utf8_decode_utf8(text@);
            }
            match find_viewbox_attr(text) {
                Some(found) => rewrite_viewbox(markup, &found, view_box.as_bytes()),
                None => None,
            }
        },
        Err(_) => None,
    }
}

} // verus!
