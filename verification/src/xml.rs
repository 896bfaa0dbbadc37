//! XML tokens read with quick-xml's pull reader, XML written with quick-xml's
//! indenting writer, and XML escaping.
use vstd::prelude::*;

use quick_xml::events::{BytesEnd, BytesStart, BytesText, Event};

verus! {

broadcast use vstd::string::group_string_axioms;

// ---------------------------------------------------------------------------
// Escaping
// ---------------------------------------------------------------------------

/// The escaped form of one character: `<`, `>`, `&`, `'` and `"` become
/// entity references, every other character stays.
pub open spec fn escape_char(c: char) -> Seq<char> {
    if c == '<' {
        "&lt;"@
    } else if c == '>' {
        "&gt;"@
    } else if c == '&' {
        "&amp;"@
    } else if c == '\'' {
        "&apos;"@
    } else if c == '"' {
        "&quot;"@
    } else {
        seq![c]
    }
}

/// The escaped form of a text: each character escaped in turn.
pub open spec fn escaped(s: Seq<char>) -> Seq<char>
    decreases s.len(),
{
    if s.len() == 0 {
        seq![]
    } else {
        escaped(s.drop_last()) + escape_char(s.last())
    }
}

// ---------------------------------------------------------------------------
// Reading
// ---------------------------------------------------------------------------

/// One token of the pull reader, as plain values.
pub enum XmlEvent {
    /// A start tag: its qualified name and the raw text of its attributes.
    Start(String, String),
    /// An end tag: its qualified name.
    End(String),
    /// Text between tags, raw (entity references are kept as written).
    Text(String),
    /// Anything else (declarations, comments, empty-element tags, ...).
    Other,
    /// End of input.
    Eof,
    /// The reader reported an error.
    Error,
}

/// The view of a reader token.
pub enum XmlEventView {
    Start(Seq<char>, Seq<char>),
    End(Seq<char>),
    Text(Seq<char>),
    Other,
    Eof,
    Error,
}

impl View for XmlEvent {
    type V = XmlEventView;

    open spec fn view(&self) -> XmlEventView {
        match self {
            XmlEvent::Start(n, a) => XmlEventView::Start(n@, a@),
            XmlEvent::End(n) => XmlEventView::End(n@),
            XmlEvent::Text(t) => XmlEventView::Text(t@),
            XmlEvent::Other => XmlEventView::Other,
            XmlEvent::Eof => XmlEventView::Eof,
            XmlEvent::Error => XmlEventView::Error,
        }
    }
}

/// The view of a list of reader tokens.
pub open spec fn events_view(s: Seq<XmlEvent>) -> Seq<XmlEventView> {
    s.map_values(|e: XmlEvent| e@)
}

/// A token after which the reader is not asked again: the end of input.
pub open spec fn is_final_event(e: XmlEventView) -> bool {
    e is Eof
}

/// The tokens quick-xml's reader gives for `xml`, with whitespace around text
/// trimmed, in order, up to and including the end of input. An error the
/// reader recovers from (ill-formed markup) is one token among the others;
/// after any other error the reader gives the end of input.
pub uninterp spec fn xml_read_events(xml: Seq<char>) -> Seq<XmlEventView>;

/// The tokens a reader has still to give, up to and including the end of
/// input.
pub uninterp spec fn pending_events(reader: quick_xml::reader::Reader<&[u8]>) -> Seq<XmlEventView>;

#[verifier::external_type_specification]
#[verifier::external_body]
#[verifier::reject_recursive_types(R)]
pub struct ExXmlReader<R>(quick_xml::reader::Reader<R>);

/// `Reader::from_str` with `trim_text(true)`: a reader positioned at the start
/// of `xml`, with text trimmed of surrounding whitespace. Its tokens end with
/// the end of input, and it gives no end of input before that: it passes over
/// ill-formed markup, and after any other error it gives the end of input.
#[verifier::external_body]
fn xml_reader(xml: &str) -> (r: quick_xml::reader::Reader<&[u8]>)
    ensures
        pending_events(r) == xml_read_events(xml@),
        pending_events(r).len() > 0,
        is_final_event(pending_events(r).last()),
        forall|i: int|
            0 <= i < pending_events(r).len() - 1 ==> !is_final_event(#[trigger] pending_events(r)[i]),
{
    let mut r = quick_xml::reader::Reader::from_str(xml);
    r.config_mut().trim_text(true);
    r
}

/// `Reader::read_event`: the next token, its names and text taken as raw
/// UTF-8; the reader moves past it.
#[verifier::external_body]
fn next_xml_event(reader: &mut quick_xml::reader::Reader<&[u8]>) -> (r: XmlEvent)
    requires
        pending_events(*old(reader)).len() > 0,
    ensures
        r@ == pending_events(*old(reader))[0],
        pending_events(*final(reader)) == pending_events(*old(reader)).drop_first(),
{
    match reader.read_event() {
        Ok(Event::Start(e)) => XmlEvent::Start(
            String::from_utf8_lossy(e.name().as_ref()).into_owned(),
            String::from_utf8_lossy(e.attributes_raw()).into_owned(),
        ),
        Ok(Event::End(e)) => XmlEvent::End(String::from_utf8_lossy(e.name().as_ref()).into_owned()),
        Ok(Event::Text(t)) => XmlEvent::Text(String::from_utf8_lossy(&t).into_owned()),
        Ok(Event::Eof) => XmlEvent::Eof,
        Ok(_) => XmlEvent::Other,
        Err(_) => XmlEvent::Error,
    }
}

/// Every token `xml` gives, in order, errors included, up to and including
/// the end of input.
pub fn read_xml_events(xml: &str) -> (r: Vec<XmlEvent>)
    ensures
        events_view(r@) == xml_read_events(xml@),
{
    let mut reader = xml_reader(xml);
    let ghost all = xml_read_events(xml@);
    let mut out: Vec<XmlEvent> = Vec::new();
    loop
        invariant_except_break
            forall|i: int| 0 <= i < out@.len() ==> !is_final_event(#[trigger] events_view(out@)[i]),
        invariant
            all == xml_read_events(xml@),
            all.len() > 0,
            is_final_event(all.last()),
            forall|i: int| 0 <= i < all.len() - 1 ==> !is_final_event(#[trigger] all[i]),
            events_view(out@) + pending_events(reader) == all,
        ensures
            events_view(out@) == all,
        decreases pending_events(reader).len(),
    {
        let ghost before = pending_events(reader);
        let ghost prev = events_view(out@);
        proof {
            if before.len() == 0 {
                assert(prev =~= all);
                assert(!is_final_event(prev[prev.len() - 1]));
            }
        }
        let ev = next_xml_event(&mut reader);
        let stop = match ev {
            XmlEvent::Eof => true,
            _ => false,
        };
        out.push(ev);
        proof {
            assert(events_view(out@) =~= prev.push(before[0]));
            assert(events_view(out@) + pending_events(reader) =~= all);
        }
        if stop {
            proof {
                let n = events_view(out@).len() as int;
                assert(all[n - 1] == events_view(out@)[n - 1]);
                if n < all.len() {
                    assert(!is_final_event(all[n - 1]));
                }
                assert(events_view(out@) =~= all);
            }
            break;
        }
    }
    out
}

// ---------------------------------------------------------------------------
// Attributes
// ---------------------------------------------------------------------------

/// The view of one attribute item: `None` for a malformed or duplicated
/// attribute, else (key, raw value).
pub open spec fn attribute_view(a: Option<(String, String)>) -> Option<(Seq<char>, Seq<char>)> {
    match a {
        Some(p) => Some((p.0@, p.1@)),
        None => None,
    }
}

/// The views of a list of attribute items.
pub open spec fn attributes_view(s: Seq<Option<(String, String)>>) -> Seq<Option<(Seq<char>, Seq<char>)>> {
    s.map_values(|a: Option<(String, String)>| attribute_view(a))
}

/// The items quick-xml's attribute iterator gives for the raw attribute text
/// of a tag, in order.
pub uninterp spec fn attribute_items(raw: Seq<char>) -> Seq<Option<(Seq<char>, Seq<char>)>>;

/// The items an attribute iterator has still to give.
pub uninterp spec fn pending_attributes(it: quick_xml::events::attributes::Attributes<'_>) -> Seq<Option<(Seq<char>, Seq<char>)>>;

#[verifier::external_type_specification]
#[verifier::external_body]
pub struct ExAttributes<'a>(quick_xml::events::attributes::Attributes<'a>);

#[verifier::external_type_specification]
#[verifier::external_body]
pub struct ExAttribute<'a>(quick_xml::events::attributes::Attribute<'a>);

#[verifier::external_type_specification]
#[verifier::external_body]
pub struct ExAttrError(quick_xml::events::attributes::AttrError);

/// `Attributes::new(raw, 0)`: an iterator over the attributes in `raw`.
#[verifier::external_body]
fn attribute_iter(raw: &str) -> (r: quick_xml::events::attributes::Attributes<'_>)
    ensures
        pending_attributes(r) == attribute_items(raw@),
{
    quick_xml::events::attributes::Attributes::new(raw, 0)
}

/// `Attributes::next`: the next item, `Some(None)` for an attribute the
/// iterator reports as an error, `None` once every item was given.
#[verifier::external_body]
fn next_attribute(it: &mut quick_xml::events::attributes::Attributes<'_>) -> (r: Option<Option<(String, String)>>)
    ensures
        pending_attributes(*old(it)).len() == 0 ==> r is None
            && pending_attributes(*final(it)) == pending_attributes(*old(it)),
        pending_attributes(*old(it)).len() > 0 ==> r is Some
            && attribute_view(r->0) == pending_attributes(*old(it))[0]
            && pending_attributes(*final(it)) == pending_attributes(*old(it)).drop_first(),
{
    match it.next() {
        Some(Ok(a)) => Some(Some((
            String::from_utf8_lossy(a.key.as_ref()).into_owned(),
            String::from_utf8_lossy(&a.value).into_owned(),
        ))),
        Some(Err(_)) => Some(None),
        None => None,
    }
}

/// Every attribute item of the raw attribute text of a tag, in order.
pub fn read_attributes(raw: &str) -> (r: Vec<Option<(String, String)>>)
    ensures
        attributes_view(r@) == attribute_items(raw@),
{
    let mut it = attribute_iter(raw);
    let ghost all = attribute_items(raw@);
    let mut out: Vec<Option<(String, String)>> = Vec::new();
    loop
        invariant
            attributes_view(out@) + pending_attributes(it) == all,
        ensures
            attributes_view(out@) == all,
        decreases pending_attributes(it).len(),
    {
        let ghost before = pending_attributes(it);
        let ghost prev = attributes_view(out@);
        match next_attribute(&mut it) {
            None => {
                assert(prev + before =~= prev);
                break;
            },
            Some(a) => {
                out.push(a);
                assert(attributes_view(out@) =~= prev.push(before[0]));
                assert(attributes_view(out@) + pending_attributes(it) =~= all);
            },
        }
    }
    out
}

// ---------------------------------------------------------------------------
// Writing
// ---------------------------------------------------------------------------

/// One event given to the writer.
pub enum XmlWrite {
    /// A start tag with its attributes (key, value), written escaped.
    Start(String, Vec<(String, String)>),
    /// Text, written escaped.
    Text(String),
    /// An end tag.
    End(String),
}

/// The view of a writer event.
pub enum XmlWriteView {
    Start(Seq<char>, Seq<(Seq<char>, Seq<char>)>),
    Text(Seq<char>),
    End(Seq<char>),
}

impl View for XmlWrite {
    type V = XmlWriteView;

    open spec fn view(&self) -> XmlWriteView {
        match self {
            XmlWrite::Start(n, a) => XmlWriteView::Start(n@, crate::types::upnp::pairs_view(a@)),
            XmlWrite::Text(t) => XmlWriteView::Text(t@),
            XmlWrite::End(n) => XmlWriteView::End(n@),
        }
    }
}

/// What quick-xml's writer, indenting with two spaces, produces for a sequence
/// of events.
pub uninterp spec fn xml_written(events: Seq<XmlWriteView>) -> Seq<char>;

/// The events a writer has been given so far.
pub uninterp spec fn written_events(w: quick_xml::writer::Writer<Vec<u8>>) -> Seq<XmlWriteView>;

#[verifier::external_type_specification]
#[verifier::external_body]
#[verifier::reject_recursive_types(W)]
pub struct ExXmlWriter<W>(quick_xml::writer::Writer<W>);

/// `Writer::new_with_indent(Vec::new(), b' ', 2)`: a writer that has been given
/// no event.
#[verifier::external_body]
pub(crate) fn xml_writer() -> (r: quick_xml::writer::Writer<Vec<u8>>)
    ensures
        written_events(r) == Seq::<XmlWriteView>::empty(),
{
    quick_xml::writer::Writer::new_with_indent(Vec::new(), b' ', 2)
}

/// `Writer::write_event` for a start tag (with its attributes), a text or an
/// end tag. Writing into memory does not fail.
#[verifier::external_body]
pub(crate) fn write_xml_event(w: &mut quick_xml::writer::Writer<Vec<u8>>, ev: &XmlWrite)
    ensures
        written_events(*final(w)) == written_events(*old(w)).push(ev@),
{
    let _ = match ev {
        XmlWrite::Start(n, attrs) => w.write_event(Event::Start(
            BytesStart::new(n.as_str()).with_attributes(attrs.iter().map(|(k, v)| (k.as_str(), v.as_str()))),
        )),
        XmlWrite::Text(t) => w.write_event(Event::Text(BytesText::new(t.as_str()))),
        XmlWrite::End(n) => w.write_event(Event::End(BytesEnd::new(n.as_str()))),
    };
}

/// `Writer::into_inner` and UTF-8 decoding: the text written so far.
#[verifier::external_body]
pub(crate) fn xml_written_text(w: quick_xml::writer::Writer<Vec<u8>>) -> (r: String)
    ensures
        r@ == xml_written(written_events(w)),
{
    String::from_utf8(w.into_inner()).unwrap_or_default()
}

/// The views of a list of writer events.
pub open spec fn writes_view(s: Seq<XmlWrite>) -> Seq<XmlWriteView> {
    s.map_values(|e: XmlWrite| e@)
}

/// The XML text quick-xml's indenting writer produces for `events`.
pub fn write_xml(events: &Vec<XmlWrite>) -> (r: String)
    ensures
        r@ == xml_written(writes_view(events@)),
{
    let mut w = xml_writer();
    let mut i: usize = 0;
    while i < events.len()
        invariant
            i <= events@.len(),
            written_events(w) == writes_view(events@).subrange(0, i as int),
        decreases events.len() - i,
    {
        write_xml_event(&mut w, &events[i]);
        i = i + 1;
        assert(written_events(w) =~= writes_view(events@).subrange(0, i as int));
    }
    assert(writes_view(events@).subrange(0, i as int) =~= writes_view(events@));
    xml_written_text(w)
}

/// A start tag without attributes.
pub fn start_tag(name: &str) -> (r: XmlWrite)
    ensures
        r@ == XmlWriteView::Start(name@, Seq::empty()),
{
    let r = XmlWrite::Start(crate::text::to_owned_string(name), Vec::new());
    assert(crate::types::upnp::pairs_view(Seq::<(String, String)>::empty()) =~= Seq::empty());
    r
}

/// A start tag with one attribute.
pub fn start_tag_with(name: &str, key: &str, value: &str) -> (r: XmlWrite)
    ensures
        r@ == XmlWriteView::Start(name@, seq![(key@, value@)]),
{
    let mut attrs: Vec<(String, String)> = Vec::new();
    attrs.push((crate::text::to_owned_string(key), crate::text::to_owned_string(value)));
    let r = XmlWrite::Start(crate::text::to_owned_string(name), attrs);
    assert(crate::types::upnp::pairs_view(attrs@) =~= seq![(key@, value@)]);
    r
}

/// A text event.
pub fn text_event(t: &str) -> (r: XmlWrite)
    ensures
        r@ == XmlWriteView::Text(t@),
{
    XmlWrite::Text(crate::text::to_owned_string(t))
}

/// An end tag.
pub fn end_tag(name: &str) -> (r: XmlWrite)
    ensures
        r@ == XmlWriteView::End(name@),
{
    XmlWrite::End(crate::text::to_owned_string(name))
}

/// Appends the escaped form of `s`.
pub fn push_escaped(out: &mut String, s: &str)
    ensures
        final(out)@ == old(out)@ + escaped(s@),
{
    let e = crate::didl::escape_xml(s);
    crate::text::push_str(out, e.as_str());
}

} // verus!
