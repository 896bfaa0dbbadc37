//! DIDL-Lite metadata parsing and serialization.
//!
//! DIDL-Lite is the XML format used for UPnP AV metadata.
//! See UPnP-av-AVTransport-v3-Service §5.7.
use vstd::prelude::*;

use crate::text::{parse_u32, parse_u64, parse_unsigned, str_eq, to_owned_string};
use crate::types::upnp::{lookup, pairs_view, is_first_key, has_key, lemma_first_key};
use crate::xml::{
    attribute_items, attributes_view, end_tag, escaped, events_view, read_attributes, read_xml_events,
    start_tag, text_event, write_xml, writes_view, xml_read_events, xml_written, XmlEvent, XmlEventView,
    XmlWrite, XmlWriteView,
};

verus! {

broadcast use vstd::string::group_string_axioms;

// ── Data model ──────────────────────────────────────────────────────────────

/// A single media item inside a DIDL-Lite document.
#[derive(Debug, Clone, PartialEq)]
pub struct Item {
    pub id: String,
    pub parent_id: String,
    pub restricted: bool,
    pub title: String,
    pub creator: String,
    pub artist: String,
    pub album: String,
    pub album_art_uri: Option<String>,
    pub class_: String,
    pub resources: Vec<Resource>,
}

/// A resource (URI) inside a DIDL-Lite item.
#[derive(Debug, Clone, PartialEq)]
pub struct Resource {
    pub protocol_info: String,
    pub uri: String,
    pub duration: Option<String>,
    pub sample_frequency: Option<u32>,
    pub bits_per_sample: Option<u32>,
    pub nr_audio_channels: Option<u32>,
    pub size: Option<u64>,
}

/// A complete DIDL-Lite document.
#[derive(Debug, Clone, Default, PartialEq)]
pub struct DidlDocument {
    pub items: Vec<Item>,
}

// ── Views ───────────────────────────────────────────────────────────────────

/// The view of an optional string.
pub open spec fn opt_view(o: Option<String>) -> Option<Seq<char>> {
    match o {
        Some(s) => Some(s@),
        None => None,
    }
}

/// The view of a resource.
pub struct ResourceView {
    pub protocol_info: Seq<char>,
    pub uri: Seq<char>,
    pub duration: Option<Seq<char>>,
    pub sample_frequency: Option<u32>,
    pub bits_per_sample: Option<u32>,
    pub nr_audio_channels: Option<u32>,
    pub size: Option<u64>,
}

impl View for Resource {
    type V = ResourceView;

    open spec fn view(&self) -> ResourceView {
        ResourceView {
            protocol_info: self.protocol_info@,
            uri: self.uri@,
            duration: opt_view(self.duration),
            sample_frequency: self.sample_frequency,
            bits_per_sample: self.bits_per_sample,
            nr_audio_channels: self.nr_audio_channels,
            size: self.size,
        }
    }
}

/// The views of a list of resources.
pub open spec fn resources_view(r: Seq<Resource>) -> Seq<ResourceView> {
    r.map_values(|x: Resource| x@)
}

/// The view of an item.
pub struct ItemView {
    pub id: Seq<char>,
    pub parent_id: Seq<char>,
    pub restricted: bool,
    pub title: Seq<char>,
    pub creator: Seq<char>,
    pub artist: Seq<char>,
    pub album: Seq<char>,
    pub album_art_uri: Option<Seq<char>>,
    pub class_: Seq<char>,
    pub resources: Seq<ResourceView>,
}

impl View for Item {
    type V = ItemView;

    open spec fn view(&self) -> ItemView {
        ItemView {
            id: self.id@,
            parent_id: self.parent_id@,
            restricted: self.restricted,
            title: self.title@,
            creator: self.creator@,
            artist: self.artist@,
            album: self.album@,
            album_art_uri: opt_view(self.album_art_uri),
            class_: self.class_@,
            resources: resources_view(self.resources@),
        }
    }
}

/// The views of a list of items.
pub open spec fn items_view(i: Seq<Item>) -> Seq<ItemView> {
    i.map_values(|x: Item| x@)
}

impl View for DidlDocument {
    type V = Seq<ItemView>;

    open spec fn view(&self) -> Seq<ItemView> {
        items_view(self.items@)
    }
}

// ── Parsing ─────────────────────────────────────────────────────────────────

/// The value of the first well-formed attribute named `key`, if any.
pub open spec fn first_attr(items: Seq<Option<(Seq<char>, Seq<char>)>>, key: Seq<char>) -> Option<
    Seq<char>,
>
    decreases items.len(),
{
    if items.len() == 0 {
        None
    } else {
        match items[0] {
            Some(kv) => if kv.0 == key {
                Some(kv.1)
            } else {
                first_attr(items.drop_first(), key)
            },
            None => first_attr(items.drop_first(), key),
        }
    }
}

/// The value of an optional text, empty when absent.
pub open spec fn or_empty(o: Option<Seq<char>>) -> Seq<char> {
    match o {
        Some(v) => v,
        None => Seq::empty(),
    }
}

/// An optional text parsed as a `u32`; `None` when absent or not a number
/// that fits.
pub open spec fn parsed_u32(o: Option<Seq<char>>) -> Option<u32> {
    match o {
        Some(t) => match parse_unsigned(t, u32::MAX as nat) {
            Some(n) => Some(n as u32),
            None => None,
        },
        None => None,
    }
}

/// An optional text parsed as a `u64`; `None` when absent or not a number
/// that fits.
pub open spec fn parsed_u64(o: Option<Seq<char>>) -> Option<u64> {
    match o {
        Some(t) => match parse_unsigned(t, u64::MAX as nat) {
            Some(n) => Some(n as u64),
            None => None,
        },
        None => None,
    }
}

/// The item an `item` start tag opens: identifiers from its attributes,
/// restricted when `restricted` is `1`, everything else empty.
pub open spec fn new_item(attrs: Seq<Option<(Seq<char>, Seq<char>)>>) -> ItemView {
    ItemView {
        id: or_empty(first_attr(attrs, "id"@)),
        parent_id: or_empty(first_attr(attrs, "parentID"@)),
        restricted: first_attr(attrs, "restricted"@) == Some("1"@),
        title: Seq::empty(),
        creator: Seq::empty(),
        artist: Seq::empty(),
        album: Seq::empty(),
        album_art_uri: None,
        class_: Seq::empty(),
        resources: Seq::empty(),
    }
}

/// The resource fields collected so far: those of the last `res` start tag,
/// and the text read inside it.
pub struct ResScan {
    pub protocol_info: Option<Seq<char>>,
    pub duration: Option<Seq<char>>,
    pub sample_frequency: Option<u32>,
    pub bits_per_sample: Option<u32>,
    pub nr_audio_channels: Option<u32>,
    pub size: Option<u64>,
    pub uri: Seq<char>,
}

/// No resource fields collected.
pub open spec fn empty_res() -> ResScan {
    ResScan {
        protocol_info: None,
        duration: None,
        sample_frequency: None,
        bits_per_sample: None,
        nr_audio_channels: None,
        size: None,
        uri: Seq::empty(),
    }
}

/// The resource fields a `res` start tag sets: the protocol (empty when
/// absent), the duration, and the numeric attributes that parse.
pub open spec fn res_start(attrs: Seq<Option<(Seq<char>, Seq<char>)>>) -> ResScan {
    ResScan {
        protocol_info: Some(or_empty(first_attr(attrs, "protocolInfo"@))),
        duration: first_attr(attrs, "duration"@),
        sample_frequency: parsed_u32(first_attr(attrs, "sampleFrequency"@)),
        bits_per_sample: parsed_u32(first_attr(attrs, "bitsPerSample"@)),
        nr_audio_channels: parsed_u32(first_attr(attrs, "nrAudioChannels"@)),
        size: parsed_u64(first_attr(attrs, "size"@)),
        uri: Seq::empty(),
    }
}

/// The resource the collected fields make.
pub open spec fn res_of(r: ResScan) -> ResourceView {
    ResourceView {
        protocol_info: or_empty(r.protocol_info),
        uri: r.uri,
        duration: r.duration,
        sample_frequency: r.sample_frequency,
        bits_per_sample: r.bits_per_sample,
        nr_audio_channels: r.nr_audio_channels,
        size: r.size,
    }
}

/// The item field whose text content is awaited.
#[derive(Clone, Copy)]
pub enum TextField {
    NoField,
    Title,
    Creator,
    Artist,
    Album,
    AlbumArtUri,
    Class,
}

/// The field a start tag inside an item reads, with or without its namespace
/// prefix.
pub open spec fn field_of_tag(tag: Seq<char>) -> TextField {
    if tag == "title"@ || tag == "dc:title"@ {
        TextField::Title
    } else if tag == "creator"@ || tag == "dc:creator"@ {
        TextField::Creator
    } else if tag == "artist"@ || tag == "upnp:artist"@ {
        TextField::Artist
    } else if tag == "album"@ || tag == "upnp:album"@ {
        TextField::Album
    } else if tag == "albumArtURI"@ || tag == "upnp:albumArtURI"@ {
        TextField::AlbumArtUri
    } else if tag == "class"@ || tag == "upnp:class"@ {
        TextField::Class
    } else {
        TextField::NoField
    }
}

/// An item with one text field set.
pub open spec fn with_field(it: ItemView, f: TextField, t: Seq<char>) -> ItemView {
    match f {
        TextField::NoField => it,
        TextField::Title => ItemView { title: t, ..it },
        TextField::Creator => ItemView { creator: t, ..it },
        TextField::Artist => ItemView { artist: t, ..it },
        TextField::Album => ItemView { album: t, ..it },
        TextField::AlbumArtUri => ItemView { album_art_uri: Some(t), ..it },
        TextField::Class => ItemView { class_: t, ..it },
    }
}

/// Where the scan of a DIDL-Lite document stands: the item being read, the
/// field whose text is awaited, whether it is inside a `res` element, and the
/// resource fields collected.
pub struct DidlScan {
    pub item: Option<ItemView>,
    pub field: TextField,
    pub in_res: bool,
    pub res: ResScan,
}

/// The state before the first token.
pub open spec fn scan_start() -> DidlScan {
    DidlScan { item: None, field: TextField::NoField, in_res: false, res: empty_res() }
}

/// The state after a start tag (outside a field's text).
pub open spec fn after_start(st: DidlScan, tag: Seq<char>, attrs: Seq<char>) -> DidlScan {
    if tag == "item"@ {
        DidlScan { item: Some(new_item(attribute_items(attrs))), ..st }
    } else if tag == "res"@ {
        DidlScan { in_res: true, res: res_start(attribute_items(attrs)), ..st }
    } else if st.item is Some {
        DidlScan { field: field_of_tag(tag), ..st }
    } else {
        st
    }
}

/// The items a DIDL-Lite document yields from token `i` on, in the state `st`.
///
/// An `item` start tag opens an item (dropping one still open); its end tag
/// yields it. A `res` start tag collects the resource fields and the text up to
/// its end tag, which adds the resource to the open item (with no item open the
/// fields are kept). A title, creator, artist, album, album art or class start
/// tag inside an item takes the next text as the field's value; an end tag or
/// the end of input before any text leaves it empty. The scan stops at the end
/// of input or at a reader error.
pub open spec fn didl_scan(es: Seq<XmlEventView>, i: int, st: DidlScan) -> Seq<ItemView>
    decreases es.len() - i,
{
    if i < 0 || i >= es.len() {
        Seq::empty()
    } else if !(st.field is NoField) {
        match es[i] {
            XmlEventView::Text(t) => match st.item {
                Some(it) => didl_scan(
                    es,
                    i + 1,
                    DidlScan { item: Some(with_field(it, st.field, t)), field: TextField::NoField, ..st },
                ),
                None => didl_scan(es, i + 1, DidlScan { field: TextField::NoField, ..st }),
            },
            XmlEventView::End(_) => match st.item {
                Some(it) => didl_scan(
                    es,
                    i + 1,
                    DidlScan {
                        item: Some(with_field(it, st.field, Seq::empty())),
                        field: TextField::NoField,
                        ..st
                    },
                ),
                None => didl_scan(es, i + 1, DidlScan { field: TextField::NoField, ..st }),
            },
            XmlEventView::Eof => Seq::empty(),
            _ => didl_scan(es, i + 1, st),
        }
    } else {
        match es[i] {
            XmlEventView::Start(tag, attrs) => didl_scan(es, i + 1, after_start(st, tag, attrs)),
            XmlEventView::Text(t) => if st.in_res {
                didl_scan(es, i + 1, DidlScan { res: ResScan { uri: st.res.uri + t, ..st.res }, ..st })
            } else {
                didl_scan(es, i + 1, st)
            },
            XmlEventView::End(tag) => if tag == "res"@ {
                match st.item {
                    Some(it) => didl_scan(
                        es,
                        i + 1,
                        DidlScan {
                            item: Some(ItemView { resources: it.resources.push(res_of(st.res)), ..it }),
                            in_res: false,
                            res: empty_res(),
                            ..st
                        },
                    ),
                    None => didl_scan(es, i + 1, DidlScan { in_res: false, ..st }),
                }
            } else if tag == "item"@ {
                match st.item {
                    Some(it) => seq![it] + didl_scan(es, i + 1, DidlScan { item: None, ..st }),
                    None => didl_scan(es, i + 1, st),
                }
            } else {
                didl_scan(es, i + 1, st)
            },
            XmlEventView::Eof => Seq::empty(),
            XmlEventView::Error => didl_scan(es, i + 1, st),
            XmlEventView::Other => didl_scan(es, i + 1, st),
        }
    }
}

/// The items of a DIDL-Lite document, from its tokens.
pub open spec fn didl_items(xml: Seq<char>) -> Seq<ItemView> {
    didl_scan(xml_read_events(xml), 0, scan_start())
}

/// The value of the first well-formed attribute named `key`.
fn first_attr_of(items: &Vec<Option<(String, String)>>, key: &str) -> (r: Option<String>)
    ensures
        opt_view(r) == first_attr(attributes_view(items@), key@),
{
    let ghost iv = attributes_view(items@);
    let mut i: usize = 0;
    assert(iv.subrange(0, iv.len() as int) =~= iv);
    while i < items.len()
        invariant
            iv == attributes_view(items@),
            i <= iv.len(),
            first_attr(iv, key@) == first_attr(iv.subrange(i as int, iv.len() as int), key@),
        decreases items.len() - i,
    {
        let ghost rest = iv.subrange(i as int, iv.len() as int);
        assert(rest.drop_first() =~= iv.subrange(i + 1, iv.len() as int));
        assert(rest[0] == iv[i as int]);
        match &items[i] {
            Some(kv) => {
                if str_eq(kv.0.as_str(), key) {
                    return Some(to_owned_string(kv.1.as_str()));
                }
            },
            None => {},
        }
        i = i + 1;
    }
    None
}

fn text_or_empty(o: Option<String>) -> (r: String)
    ensures
        r@ == or_empty(opt_view(o)),
{
    match o {
        Some(s) => s,
        None => String::new(),
    }
}

fn parse_opt_u32(o: Option<String>) -> (r: Option<u32>)
    ensures
        r == parsed_u32(opt_view(o)),
{
    match o {
        Some(s) => parse_u32(s.as_str()),
        None => None,
    }
}

fn parse_opt_u64(o: Option<String>) -> (r: Option<u64>)
    ensures
        r == parsed_u64(opt_view(o)),
{
    match o {
        Some(s) => parse_u64(s.as_str()),
        None => None,
    }
}

/// The item an `item` start tag with the raw attribute text `attrs` opens.
fn open_item(attrs: &str) -> (r: Item)
    ensures
        r@ == new_item(attribute_items(attrs@)),
{
    let items = read_attributes(attrs);
    let restricted = match first_attr_of(&items, "restricted") {
        Some(v) => str_eq(v.as_str(), "1"),
        None => false,
    };
    let r = Item {
        id: text_or_empty(first_attr_of(&items, "id")),
        parent_id: text_or_empty(first_attr_of(&items, "parentID")),
        restricted,
        title: String::new(),
        creator: String::new(),
        artist: String::new(),
        album: String::new(),
        album_art_uri: None,
        class_: String::new(),
        resources: Vec::new(),
    };
    assert(resources_view(r.resources@) =~= Seq::<ResourceView>::empty());
    r
}

/// The resource fields being collected.
struct PendingRes {
    protocol_info: Option<String>,
    duration: Option<String>,
    sample_frequency: Option<u32>,
    bits_per_sample: Option<u32>,
    nr_audio_channels: Option<u32>,
    size: Option<u64>,
    uri: String,
}

impl View for PendingRes {
    type V = ResScan;

    closed spec fn view(&self) -> ResScan {
        ResScan {
            protocol_info: opt_view(self.protocol_info),
            duration: opt_view(self.duration),
            sample_frequency: self.sample_frequency,
            bits_per_sample: self.bits_per_sample,
            nr_audio_channels: self.nr_audio_channels,
            size: self.size,
            uri: self.uri@,
        }
    }
}

fn no_res() -> (r: PendingRes)
    ensures
        r@ == empty_res(),
{
    PendingRes {
        protocol_info: None,
        duration: None,
        sample_frequency: None,
        bits_per_sample: None,
        nr_audio_channels: None,
        size: None,
        uri: String::new(),
    }
}

/// The resource fields a `res` start tag with the raw attribute text `attrs`
/// sets.
fn start_res(attrs: &str) -> (r: PendingRes)
    ensures
        r@ == res_start(attribute_items(attrs@)),
{
    let items = read_attributes(attrs);
    PendingRes {
        protocol_info: Some(text_or_empty(first_attr_of(&items, "protocolInfo"))),
        duration: first_attr_of(&items, "duration"),
        sample_frequency: parse_opt_u32(first_attr_of(&items, "sampleFrequency")),
        bits_per_sample: parse_opt_u32(first_attr_of(&items, "bitsPerSample")),
        nr_audio_channels: parse_opt_u32(first_attr_of(&items, "nrAudioChannels")),
        size: parse_opt_u64(first_attr_of(&items, "size")),
        uri: String::new(),
    }
}

fn finish_res(p: PendingRes) -> (r: Resource)
    ensures
        r@ == res_of(p@),
{
    Resource {
        protocol_info: text_or_empty(p.protocol_info),
        uri: p.uri,
        duration: p.duration,
        sample_frequency: p.sample_frequency,
        bits_per_sample: p.bits_per_sample,
        nr_audio_channels: p.nr_audio_channels,
        size: p.size,
    }
}

fn tag_field(tag: &str) -> (r: TextField)
    ensures
        r == field_of_tag(tag@),
{
    if str_eq(tag, "title") || str_eq(tag, "dc:title") {
        TextField::Title
    } else if str_eq(tag, "creator") || str_eq(tag, "dc:creator") {
        TextField::Creator
    } else if str_eq(tag, "artist") || str_eq(tag, "upnp:artist") {
        TextField::Artist
    } else if str_eq(tag, "album") || str_eq(tag, "upnp:album") {
        TextField::Album
    } else if str_eq(tag, "albumArtURI") || str_eq(tag, "upnp:albumArtURI") {
        TextField::AlbumArtUri
    } else if str_eq(tag, "class") || str_eq(tag, "upnp:class") {
        TextField::Class
    } else {
        TextField::NoField
    }
}

fn set_field(it: Item, f: TextField, t: String) -> (r: Item)
    ensures
        r@ == with_field(it@, f, t@),
{
    match f {
        TextField::NoField => it,
        TextField::Title => Item { title: t, ..it },
        TextField::Creator => Item { creator: t, ..it },
        TextField::Artist => Item { artist: t, ..it },
        TextField::Album => Item { album: t, ..it },
        TextField::AlbumArtUri => Item { album_art_uri: Some(t), ..it },
        TextField::Class => Item { class_: t, ..it },
    }
}

fn add_resource(it: Item, r: Resource) -> (out: Item)
    ensures
        out@ == (ItemView { resources: it@.resources.push(r@), ..it@ }),
{
    let ghost rv = r@;
    let mut it = it;
    let ghost before = it.resources@;
    it.resources.push(r);
    assert(resources_view(it.resources@) =~= resources_view(before).push(rv));
    it
}

/// The view of the scan state held in the parser's variables.
pub open spec fn scan_view(item: Option<Item>, field: TextField, in_res: bool, res: ResScan) -> DidlScan {
    DidlScan {
        item: match item {
            Some(it) => Some(it@),
            None => None,
        },
        field,
        in_res,
        res,
    }
}

/// The document the tokens of a DIDL-Lite text describe.
pub fn didl_from_events(events: &Vec<XmlEvent>) -> (r: DidlDocument)
    ensures
        r@ == didl_scan(events_view(events@), 0, scan_start()),
{
    let ghost es = events_view(events@);
    let mut items: Vec<Item> = Vec::new();
    let mut item: Option<Item> = None;
    let mut field = TextField::NoField;
    let mut in_res = false;
    let mut res = no_res();
    let mut i: usize = 0;
    assert(items_view(items@) =~= Seq::<ItemView>::empty());
    while i < events.len()
        invariant
            es == events_view(events@),
            i <= es.len(),
            items_view(items@) + didl_scan(es, i as int, scan_view(item, field, in_res, res@))
                == didl_scan(es, 0, scan_start()),
        decreases events.len() - i,
    {
        let ghost before = items_view(items@);
        let ghost st = scan_view(item, field, in_res, res@);
        let ghost target = didl_scan(es, 0, scan_start());
        assert(es[i as int] == events[i as int]@);
        let mut stop = false;
        match field {
            TextField::NoField => {
                match &events[i] {
                    XmlEvent::Start(tag, attrs) => {
                        if str_eq(tag.as_str(), "item") {
                            item = Some(open_item(attrs.as_str()));
                        } else if str_eq(tag.as_str(), "res") {
                            in_res = true;
                            res = start_res(attrs.as_str());
                        } else if item.is_some() {
                            field = tag_field(tag.as_str());
                        }
                        assert(scan_view(item, field, in_res, res@) == after_start(st, tag@, attrs@));
                    },
                    XmlEvent::Text(t) => {
                        if in_res {
                            crate::text::push_str(&mut res.uri, t.as_str());
                        }
                    },
                    XmlEvent::End(tag) => {
                        if str_eq(tag.as_str(), "res") {
                            in_res = false;
                            match item {
                                Some(it) => {
                                    let mut done = no_res();
                                    std::mem::swap(&mut done, &mut res);
                                    let r = finish_res(done);
                                    item = Some(add_resource(it, r));
                                },
                                None => {
                                    item = None;
                                },
                            }
                        } else if str_eq(tag.as_str(), "item") {
                            match item {
                                Some(it) => {
                                    let ghost iv = it@;
                                    items.push(it);
                                    item = None;
                                    assert(items_view(items@) =~= before.push(iv));
                                    assert(before + didl_scan(es, i as int, st) =~= items_view(items@)
                                        + didl_scan(es, i + 1, scan_view(item, field, in_res, res@)));
                                },
                                None => {
                                    item = None;
                                },
                            }
                        }
                    },
                    XmlEvent::Eof => {
                        stop = true;
                    },
                    XmlEvent::Error => {},
                    XmlEvent::Other => {},
                }
            },
            _ => {
                match &events[i] {
                    XmlEvent::Text(t) => {
                        match item {
                            Some(it) => {
                                item = Some(set_field(it, field, to_owned_string(t.as_str())));
                            },
                            None => {
                                item = None;
                            },
                        }
                        field = TextField::NoField;
                    },
                    XmlEvent::End(_) => {
                        match item {
                            Some(it) => {
                                item = Some(set_field(it, field, String::new()));
                            },
                            None => {
                                item = None;
                            },
                        }
                        field = TextField::NoField;
                    },
                    XmlEvent::Eof => {
                        stop = true;
                    },
                    _ => {},
                }
            },
        }
        if stop {
            assert(didl_scan(es, i as int, st) == Seq::<ItemView>::empty());
            assert(items_view(items@) + didl_scan(es, es.len() as int, scan_view(item, field, in_res, res@)) =~= before);
            assert(before =~= before + didl_scan(es, i as int, st));
            i = events.len();
        } else {
            i = i + 1;
        }
    }
    let r = DidlDocument { items };
    assert(items_view(r.items@) =~= items_view(r.items@) + didl_scan(es, i as int, scan_view(item, field, in_res, res@)));
    r
}

/// Parse a DIDL-Lite XML string into a document.
///
/// Parsing does not fail: what the reader gives up to its end of input is
/// read into the document, ill-formed markup passed over.
pub fn parse_didl(xml: &str) -> (r: Result<DidlDocument, String>)
    ensures
        r matches Ok(d) && d@ == didl_items(xml@),
{
    let events = read_xml_events(xml);
    Ok(didl_from_events(&events))
}

// ── XML utilities ─────────────────────────────────────────────────────────────

/// Escape XML special characters in a string using quick-xml's built-in escape.
///
/// `quick_xml::escape::escape` replaces `<`, `>`, `&`, `'` and `"` with
/// `&lt;`, `&gt;`, `&amp;`, `&apos;` and `&quot;`, and keeps every other
/// character.
#[verifier::external_body]
pub fn escape_xml(s: &str) -> (r: String)
    ensures
        r@ == escaped(s@),
{
    quick_xml::escape::escape(s).into_owned()
}

// ── Serialization ───────────────────────────────────────────────────────────

/// The writer events of an element holding only text.
pub open spec fn element_events(name: Seq<char>, content: Seq<char>) -> Seq<XmlWriteView> {
    seq![XmlWriteView::Start(name, Seq::empty()), XmlWriteView::Text(content), XmlWriteView::End(name)]
}

/// The writer events of a resource: its protocol as an attribute, its URI as
/// text.
pub open spec fn res_events(r: ResourceView) -> Seq<XmlWriteView> {
    seq![
        XmlWriteView::Start("res"@, seq![("protocolInfo"@, r.protocol_info)]),
        XmlWriteView::Text(r.uri),
        XmlWriteView::End("res"@),
    ]
}

/// The writer events of the resources, in order.
pub open spec fn resources_events(rs: Seq<ResourceView>) -> Seq<XmlWriteView>
    decreases rs.len(),
{
    if rs.len() == 0 {
        Seq::empty()
    } else {
        resources_events(rs.drop_last()) + res_events(rs.last())
    }
}

/// The attributes of an item's start tag.
pub open spec fn item_attrs(it: ItemView) -> Seq<(Seq<char>, Seq<char>)> {
    seq![
        ("id"@, it.id),
        ("parentID"@, it.parent_id),
        ("restricted"@, if it.restricted { "1"@ } else { "0"@ }),
    ]
}

/// The writer events of an item: its identifiers as attributes, then its
/// title, creator and class, then its resources.
pub open spec fn item_events(it: ItemView) -> Seq<XmlWriteView> {
    seq![XmlWriteView::Start("item"@, item_attrs(it))] + element_events("dc:title"@, it.title)
        + element_events("dc:creator"@, it.creator) + element_events("upnp:class"@, it.class_)
        + resources_events(it.resources) + seq![XmlWriteView::End("item"@)]
}

/// The writer events of the items, in order.
pub open spec fn items_events(items: Seq<ItemView>) -> Seq<XmlWriteView>
    decreases items.len(),
{
    if items.len() == 0 {
        Seq::empty()
    } else {
        items_events(items.drop_last()) + item_events(items.last())
    }
}

/// The namespace attributes of the `DIDL-Lite` element.
pub open spec fn didl_namespaces() -> Seq<(Seq<char>, Seq<char>)> {
    seq![
        ("xmlns:dc"@, "http://purl.org/dc/elements/1.1/"@),
        ("xmlns:upnp"@, "urn:schemas-upnp-org:metadata-1-0/upnp/"@),
        ("xmlns"@, "urn:schemas-upnp-org:metadata-1-0/DIDL-Lite/"@),
    ]
}

/// The writer events of a document: the `DIDL-Lite` element around its items.
pub open spec fn didl_events(items: Seq<ItemView>) -> Seq<XmlWriteView> {
    seq![XmlWriteView::Start("DIDL-Lite"@, didl_namespaces())] + items_events(items) + seq![
        XmlWriteView::End("DIDL-Lite"@),
    ]
}

/// The attributes of a written start tag as the reader lists them: each one
/// well formed.
pub open spec fn as_read(attrs: Seq<(Seq<char>, Seq<char>)>) -> Seq<Option<(Seq<char>, Seq<char>)>> {
    attrs.map_values(|kv: (Seq<char>, Seq<char>)| Some(kv))
}

/// What the reader makes of a text element inside an item, given as its
/// written start tag and text: the text goes into the field the tag names.
pub open spec fn read_element(it: ItemView, start: XmlWriteView, text: XmlWriteView) -> ItemView {
    match (start, text) {
        (XmlWriteView::Start(tag, _), XmlWriteView::Text(t)) => with_field(it, field_of_tag(tag), t),
        _ => it,
    }
}

/// What the reader makes of the opening of an item's writer events: the item
/// its start tag opens, then the three text elements that follow (each a
/// start tag, a text and an end tag), each into the field its tag names.
pub open spec fn read_item_head(ev: Seq<XmlWriteView>) -> ItemView {
    let opened = match ev[0] {
        XmlWriteView::Start(_, attrs) => new_item(as_read(attrs)),
        _ => new_item(Seq::empty()),
    };
    read_element(read_element(read_element(opened, ev[1], ev[2]), ev[4], ev[5]), ev[7], ev[8])
}

/// What the reader makes of a resource's writer events (start tag, text, end
/// tag): the fields of the start tag, with the text as the URI.
pub open spec fn read_resource(ev: Seq<XmlWriteView>) -> ResourceView {
    let fields = match ev[0] {
        XmlWriteView::Start(_, attrs) => res_start(as_read(attrs)),
        _ => empty_res(),
    };
    let uri = match ev[1] {
        XmlWriteView::Text(t) => t,
        _ => Seq::empty(),
    };
    res_of(ResScan { uri: fields.uri + uri, ..fields })
}

/// The position, among a document's writer events, of the first event of item
/// `k`: after the `DIDL-Lite` start tag and the events of the items before it.
pub open spec fn item_tag_pos(items: Seq<ItemView>, k: int) -> int {
    1 + items_events(items.take(k)).len() as int
}

/// The field names the reader knows the written text elements by.
proof fn lemma_written_tags_fields()
    ensures
        field_of_tag("dc:title"@) == TextField::Title,
        field_of_tag("dc:creator"@) == TextField::Creator,
        field_of_tag("upnp:class"@) == TextField::Class,
{
    reveal_strlit("title");
    reveal_strlit("dc:title");
    reveal_strlit("creator");
    reveal_strlit("dc:creator");
    reveal_strlit("artist");
    reveal_strlit("upnp:artist");
    reveal_strlit("album");
    reveal_strlit("upnp:album");
    reveal_strlit("albumArtURI");
    reveal_strlit("upnp:albumArtURI");
    reveal_strlit("class");
    reveal_strlit("upnp:class");
    assert("title"@.len() == 5 && "dc:title"@.len() == 8 && "creator"@.len() == 7);
    assert("dc:creator"@.len() == 10 && "artist"@.len() == 6 && "upnp:artist"@.len() == 11);
    assert("album"@.len() == 5 && "upnp:album"@.len() == 10 && "albumArtURI"@.len() == 11);
    assert("upnp:albumArtURI"@.len() == 16 && "class"@.len() == 5 && "upnp:class"@.len() == 10);
    assert("upnp:class"@[0] != "dc:creator"@[0]);
    assert("upnp:class"@[5] != "upnp:album"@[5]);
    assert("upnp:class"@ != "dc:creator"@);
    assert("upnp:class"@ != "upnp:album"@);
}

/// An item's writer events give back what they were written from: the reader
/// opens, from the start tag's attributes, an item with the same id, parentID
/// and restricted flag, and takes the title, creator and class elements back
/// into the same fields.
pub proof fn lemma_item_reads_back(it: ItemView)
    ensures
        item_events(it)[0] == XmlWriteView::Start("item"@, item_attrs(it)),
        item_events(it).last() == XmlWriteView::End("item"@),
        ({
            let back = read_item_head(item_events(it));
            &&& back.id == it.id
            &&& back.parent_id == it.parent_id
            &&& back.restricted == it.restricted
            &&& back.title == it.title
            &&& back.creator == it.creator
            &&& back.class_ == it.class_
        }),
{
    reveal_strlit("id");
    reveal_strlit("parentID");
    reveal_strlit("restricted");
    reveal_strlit("1");
    reveal_strlit("0");
    lemma_written_tags_fields();
    let a = as_read(item_attrs(it));
    assert("id"@.len() == 2 && "parentID"@.len() == 8 && "restricted"@.len() == 10);
    assert("1"@[0] != "0"@[0]);
    assert(a.len() == 3);
    assert(a[0] == Some(("id"@, it.id)));
    assert(a[1] == Some(("parentID"@, it.parent_id)));
    assert(a[2] == Some(("restricted"@, if it.restricted { "1"@ } else { "0"@ })));
    assert(a.drop_first().drop_first().drop_first().len() == 0);
    assert(first_attr(a.drop_first().drop_first(), "restricted"@) == Some(
        (if it.restricted { "1"@ } else { "0"@ }),
    )) by {
        reveal_with_fuel(first_attr, 2);
    }
    assert(first_attr(a, "restricted"@) == first_attr(a.drop_first().drop_first(), "restricted"@)) by {
        reveal_with_fuel(first_attr, 3);
    }
    assert(first_attr(a, "parentID"@) == Some(it.parent_id)) by {
        reveal_with_fuel(first_attr, 3);
    }
    assert(first_attr(a, "id"@) == Some(it.id));
    let ev = item_events(it);
    assert(ev[1] == XmlWriteView::Start("dc:title"@, Seq::empty()));
    assert(ev[2] == XmlWriteView::Text(it.title));
    assert(ev[4] == XmlWriteView::Start("dc:creator"@, Seq::empty()));
    assert(ev[5] == XmlWriteView::Text(it.creator));
    assert(ev[7] == XmlWriteView::Start("upnp:class"@, Seq::empty()));
    assert(ev[8] == XmlWriteView::Text(it.class_));
}

/// The writer events of a list of resources hold, three by three, the events
/// of each resource in order.
pub proof fn lemma_resources_events_at(rs: Seq<ResourceView>, j: int)
    requires
        0 <= j < rs.len(),
    ensures
        resources_events(rs).len() == 3 * rs.len(),
        resources_events(rs).subrange(3 * j, 3 * j + 3) == res_events(rs[j]),
    decreases rs.len(),
{
    lemma_resources_events_len(rs);
    let init = rs.drop_last();
    if j < rs.len() - 1 {
        lemma_resources_events_at(init, j);
        assert(init[j] == rs[j]);
        assert(resources_events(rs).subrange(3 * j, 3 * j + 3) =~= resources_events(init).subrange(3 * j, 3 * j + 3));
    } else {
        lemma_resources_events_len(init);
        assert(resources_events(rs).subrange(3 * j, 3 * j + 3) =~= res_events(rs.last()));
    }
}

/// Three writer events per resource.
proof fn lemma_resources_events_len(rs: Seq<ResourceView>)
    ensures
        resources_events(rs).len() == 3 * rs.len(),
    decreases rs.len(),
{
    if rs.len() > 0 {
        lemma_resources_events_len(rs.drop_last());
    }
}

/// A resource's writer events give back its protocol and its URI.
pub proof fn lemma_resource_reads_back(r: ResourceView)
    ensures
        read_resource(res_events(r)).protocol_info == r.protocol_info,
        read_resource(res_events(r)).uri == r.uri,
{
    reveal_strlit("protocolInfo");
    let a = as_read(seq![("protocolInfo"@, r.protocol_info)]);
    assert(a[0] == Some(("protocolInfo"@, r.protocol_info)));
    assert(first_attr(a, "protocolInfo"@) == Some(r.protocol_info));
    assert(Seq::<char>::empty() + r.uri =~= r.uri);
}

/// Every resource of an item sits in the item's writer events after the
/// title, creator and class elements, three events each, in order.
pub proof fn lemma_item_resources_at(it: ItemView, j: int)
    requires
        0 <= j < it.resources.len(),
    ensures
        item_events(it).subrange(10 + 3 * j, 13 + 3 * j) == res_events(it.resources[j]),
{
    lemma_resources_events_at(it.resources, j);
    let head = seq![XmlWriteView::Start("item"@, item_attrs(it))] + element_events("dc:title"@, it.title)
        + element_events("dc:creator"@, it.creator) + element_events("upnp:class"@, it.class_);
    assert(head.len() == 10);
    assert(item_events(it) == head + resources_events(it.resources) + seq![XmlWriteView::End("item"@)]);
    assert(item_events(it).subrange(10 + 3 * j, 13 + 3 * j) =~= resources_events(it.resources).subrange(
        3 * j,
        3 * j + 3,
    ));
}

/// The writer events of consecutive runs of items follow each other.
pub proof fn lemma_items_events_append(a: Seq<ItemView>, b: Seq<ItemView>)
    ensures
        items_events(a + b) == items_events(a) + items_events(b),
    decreases b.len(),
{
    if b.len() == 0 {
        assert(a + b =~= a);
        assert(items_events(a) + items_events(b) =~= items_events(a));
    } else {
        let b2 = b.drop_last();
        lemma_items_events_append(a, b2);
        assert((a + b).drop_last() =~= a + b2);
        assert((a + b).last() == b.last());
        assert(items_events(a + b) =~= items_events(a) + items_events(b));
    }
}

/// Serializing a document writes every item's events, in order, inside the
/// `DIDL-Lite` element: item `k`'s start at its place in the document, and
/// from them the reader takes back its id, parentID, restricted flag, title,
/// creator and class.
pub proof fn lemma_serialized_items_read_back(items: Seq<ItemView>, k: int)
    requires
        0 <= k < items.len(),
    ensures
        ({
            let p = item_tag_pos(items, k);
            let n = item_events(items[k]).len() as int;
            let back = read_item_head(didl_events(items).subrange(p, p + n));
            &&& 0 < p && p + n < didl_events(items).len()
            &&& didl_events(items).subrange(p, p + n) == item_events(items[k])
            &&& back.id == items[k].id
            &&& back.parent_id == items[k].parent_id
            &&& back.restricted == items[k].restricted
            &&& back.title == items[k].title
            &&& back.creator == items[k].creator
            &&& back.class_ == items[k].class_
        }),
{
    let before = items.take(k);
    let rest = items.skip(k + 1);
    let one = seq![items[k]];
    assert(items =~= before + one + rest);
    lemma_items_events_append(before + one, rest);
    lemma_items_events_append(before, one);
    assert(one.drop_last() =~= Seq::<ItemView>::empty());
    assert(items_events(one.drop_last()) =~= Seq::<XmlWriteView>::empty());
    assert(one.last() == items[k]);
    assert(items_events(one) =~= item_events(items[k]));
    let ie = item_events(items[k]);
    let l = items_events(before).len() as int;
    let p = item_tag_pos(items, k);
    assert(items_events(items) == items_events(before) + ie + items_events(rest));
    assert(didl_events(items).subrange(p, p + ie.len()) =~= ie);
    lemma_item_reads_back(items[k]);
}

fn push_write(ev: &mut Vec<XmlWrite>, w: XmlWrite)
    ensures
        writes_view(final(ev)@) == writes_view(old(ev)@).push(w@),
{
    let ghost wv = w@;
    ev.push(w);
    assert(writes_view(ev@) =~= writes_view(old(ev)@).push(wv));
}

fn push_pair(attrs: &mut Vec<(String, String)>, k: &str, v: &str)
    ensures
        pairs_view(final(attrs)@) == pairs_view(old(attrs)@).push((k@, v@)),
{
    attrs.push((to_owned_string(k), to_owned_string(v)));
    assert(pairs_view(attrs@) =~= pairs_view(old(attrs)@).push((k@, v@)));
}

fn push_element_events(ev: &mut Vec<XmlWrite>, name: &str, content: &str)
    ensures
        writes_view(final(ev)@) == writes_view(old(ev)@) + element_events(name@, content@),
{
    push_write(ev, start_tag(name));
    push_write(ev, text_event(content));
    push_write(ev, end_tag(name));
    assert(writes_view(ev@) =~= writes_view(old(ev)@) + element_events(name@, content@));
}

fn push_item_events(ev: &mut Vec<XmlWrite>, item: &Item)
    ensures
        writes_view(final(ev)@) == writes_view(old(ev)@) + item_events(item@),
{
    let ghost start = writes_view(ev@);
    let mut attrs: Vec<(String, String)> = Vec::new();
    assert(pairs_view(attrs@) =~= Seq::<(Seq<char>, Seq<char>)>::empty());
    push_pair(&mut attrs, "id", item.id.as_str());
    push_pair(&mut attrs, "parentID", item.parent_id.as_str());
    push_pair(&mut attrs, "restricted", if item.restricted { "1" } else { "0" });
    assert(pairs_view(attrs@) =~= item_attrs(item@));
    push_write(ev, XmlWrite::Start(to_owned_string("item"), attrs));
    push_element_events(ev, "dc:title", item.title.as_str());
    push_element_events(ev, "dc:creator", item.creator.as_str());
    push_element_events(ev, "upnp:class", item.class_.as_str());
    let ghost open = writes_view(ev@);
    let ghost rs = resources_view(item.resources@);
    let mut i: usize = 0;
    while i < item.resources.len()
        invariant
            i <= item.resources@.len(),
            rs == resources_view(item.resources@),
            writes_view(ev@) == open + resources_events(rs.subrange(0, i as int)),
        decreases item.resources.len() - i,
    {
        let r = &item.resources[i];
        let ghost before = writes_view(ev@);
        let mut res_attrs: Vec<(String, String)> = Vec::new();
        assert(pairs_view(res_attrs@) =~= Seq::<(Seq<char>, Seq<char>)>::empty());
        push_pair(&mut res_attrs, "protocolInfo", r.protocol_info.as_str());
        assert(pairs_view(res_attrs@) =~= seq![("protocolInfo"@, r.protocol_info@)]);
        push_write(ev, XmlWrite::Start(to_owned_string("res"), res_attrs));
        push_write(ev, text_event(r.uri.as_str()));
        push_write(ev, end_tag("res"));
        assert(writes_view(ev@) =~= before + res_events(r@));
        proof {
            let sub = rs.subrange(0, i + 1);
            assert(sub.drop_last() =~= rs.subrange(0, i as int));
            assert(sub.last() == r@);
            assert(writes_view(ev@) =~= open + resources_events(sub));
        }
        i = i + 1;
    }
    assert(rs.subrange(0, rs.len() as int) =~= rs);
    push_write(ev, end_tag("item"));
    assert(writes_view(ev@) =~= start + item_events(item@));
}

/// The writer events of a document.
pub fn didl_write_events(doc: &DidlDocument) -> (r: Vec<XmlWrite>)
    ensures
        writes_view(r@) == didl_events(doc@),
{
    let mut ev: Vec<XmlWrite> = Vec::new();
    let mut ns: Vec<(String, String)> = Vec::new();
    assert(pairs_view(ns@) =~= Seq::<(Seq<char>, Seq<char>)>::empty());
    push_pair(&mut ns, "xmlns:dc", "http://purl.org/dc/elements/1.1/");
    push_pair(&mut ns, "xmlns:upnp", "urn:schemas-upnp-org:metadata-1-0/upnp/");
    push_pair(&mut ns, "xmlns", "urn:schemas-upnp-org:metadata-1-0/DIDL-Lite/");
    assert(pairs_view(ns@) =~= didl_namespaces());
    assert(writes_view(ev@) =~= Seq::<XmlWriteView>::empty());
    push_write(&mut ev, XmlWrite::Start(to_owned_string("DIDL-Lite"), ns));
    let ghost open = writes_view(ev@);
    let ghost items = doc@;
    let mut i: usize = 0;
    while i < doc.items.len()
        invariant
            i <= doc.items@.len(),
            items == doc@,
            writes_view(ev@) == open + items_events(items.subrange(0, i as int)),
        decreases doc.items.len() - i,
    {
        push_item_events(&mut ev, &doc.items[i]);
        proof {
            let sub = items.subrange(0, i + 1);
            assert(sub.drop_last() =~= items.subrange(0, i as int));
            assert(writes_view(ev@) =~= open + items_events(sub));
        }
        i = i + 1;
    }
    assert(items.subrange(0, items.len() as int) =~= items);
    push_write(&mut ev, end_tag("DIDL-Lite"));
    assert(writes_view(ev@) =~= didl_events(doc@));
    ev
}

/// Serialize a DIDL-Lite document to XML string, with quick-xml's writer
/// indenting by two spaces.
pub fn serialize_didl(doc: &DidlDocument) -> (r: String)
    ensures
        r@ == xml_written(didl_events(doc@)),
{
    let ev = didl_write_events(doc);
    write_xml(&ev)
}

// ── Helpers ─────────────────────────────────────────────────────────────────

/// Extract a single arg value from a parsed args list: the value of the first
/// pair whose key is `key`.
pub fn arg_value(args: &[(String, String)], key: &str) -> (r: Option<String>)
    ensures
        match r {
            Some(v) => lookup(pairs_view(args@), key@) == Some(v@),
            None => lookup(pairs_view(args@), key@) is None,
        },
{
    let ghost p = pairs_view(args@);
    let mut i: usize = 0;
    while i < args.len()
        invariant
            p == pairs_view(args@),
            i <= args@.len(),
            forall|j: int| 0 <= j < i ==> #[trigger] p[j].0 != key@,
        decreases args.len() - i,
    {
        if str_eq(args[i].0.as_str(), key) {
            proof {
                assert(is_first_key(p, key@, i as int));
                lemma_first_key(p, key@);
            }
            return Some(to_owned_string(args[i].1.as_str()));
        }
        i = i + 1;
    }
    proof {
        assert(!has_key(p, key@));
    }
    None
}

} // verus!
