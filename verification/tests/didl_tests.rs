use upnpav::didl::{arg_value, escape_xml, parse_didl, serialize_didl, DidlDocument, Item, Resource};

const DOC: &str = r#"<DIDL-Lite xmlns:dc="http://purl.org/dc/elements/1.1/" xmlns:upnp="urn:schemas-upnp-org:metadata-1-0/upnp/" xmlns="urn:schemas-upnp-org:metadata-1-0/DIDL-Lite/">
  <item id="42" parentID="7" restricted="1">
    <dc:title>Song</dc:title>
    <dc:creator>Someone</dc:creator>
    <upnp:artist>Band</upnp:artist>
    <upnp:album>Record</upnp:album>
    <upnp:albumArtURI>http://x/art.jpg</upnp:albumArtURI>
    <upnp:class>object.item.audioItem.musicTrack</upnp:class>
    <res protocolInfo="http-get:*:audio/mpeg:*" duration="0:03:00.000" sampleFrequency="44100" bitsPerSample="16" nrAudioChannels="2" size="123456">http://x/song.mp3</res>
  </item>
  <item id="43" parentID="7" restricted="0">
    <dc:title></dc:title>
    <res protocolInfo="http-get:*:audio/flac:*" size="big">http://x/b.flac</res>
  </item>
</DIDL-Lite>"#;

#[test]
fn parse_items_and_resources() {
    let doc = parse_didl(DOC).unwrap();
    assert_eq!(doc.items.len(), 2);
    let a = &doc.items[0];
    assert_eq!(a.id, "42");
    assert_eq!(a.parent_id, "7");
    assert!(a.restricted);
    assert_eq!(a.title, "Song");
    assert_eq!(a.creator, "Someone");
    assert_eq!(a.artist, "Band");
    assert_eq!(a.album, "Record");
    assert_eq!(a.album_art_uri.as_deref(), Some("http://x/art.jpg"));
    assert_eq!(a.class_, "object.item.audioItem.musicTrack");
    assert_eq!(a.resources.len(), 1);
    let r = &a.resources[0];
    assert_eq!(r.protocol_info, "http-get:*:audio/mpeg:*");
    assert_eq!(r.uri, "http://x/song.mp3");
    assert_eq!(r.duration.as_deref(), Some("0:03:00.000"));
    assert_eq!(r.sample_frequency, Some(44100));
    assert_eq!(r.bits_per_sample, Some(16));
    assert_eq!(r.nr_audio_channels, Some(2));
    assert_eq!(r.size, Some(123456));
    let b = &doc.items[1];
    assert!(!b.restricted);
    assert_eq!(b.title, "");
    assert_eq!(b.resources[0].size, None);
    assert_eq!(b.resources[0].sample_frequency, None);
}

#[test]
fn parse_empty_and_unclosed() {
    assert!(parse_didl("").unwrap().items.is_empty());
    // An item that is never closed is not yielded.
    let doc = parse_didl("<DIDL-Lite><item id=\"1\"><dc:title>T</dc:title>").unwrap();
    assert!(doc.items.is_empty());
}

fn item() -> Item {
    Item {
        id: "1".to_string(),
        parent_id: "0".to_string(),
        restricted: true,
        title: "A & B".to_string(),
        creator: "C".to_string(),
        artist: String::new(),
        album: String::new(),
        album_art_uri: None,
        class_: "object.item".to_string(),
        resources: vec![Resource {
            protocol_info: "http-get:*:audio/mpeg:*".to_string(),
            uri: "http://h/x.mp3".to_string(),
            duration: None,
            sample_frequency: None,
            bits_per_sample: None,
            nr_audio_channels: None,
            size: None,
        }],
    }
}

#[test]
fn serialize_then_parse() {
    let doc = DidlDocument { items: vec![item()] };
    let xml = serialize_didl(&doc);
    assert!(xml.starts_with("<DIDL-Lite"));
    assert!(xml.contains("xmlns:dc=\"http://purl.org/dc/elements/1.1/\""));
    assert!(xml.contains("<dc:title>A &amp; B</dc:title>"));
    assert!(xml.contains("restricted=\"1\""));
    assert!(xml.contains("http://h/x.mp3"));
    let back = parse_didl(&xml).unwrap();
    assert_eq!(back.items.len(), 1);
    assert_eq!(back.items[0].id, "1");
    assert_eq!(back.items[0].creator, "C");
    assert_eq!(back.items[0].class_, "object.item");
    assert_eq!(back.items[0].resources[0].uri, "http://h/x.mp3");
    assert_eq!(back.items[0].resources[0].protocol_info, "http-get:*:audio/mpeg:*");
}

#[test]
fn serialize_empty_document() {
    let xml = serialize_didl(&DidlDocument::default());
    assert!(xml.contains("<DIDL-Lite"));
    assert!(xml.contains("</DIDL-Lite>"));
}

#[test]
fn escaping() {
    assert_eq!(escape_xml("<a href=\"x\">&'</a>"), "&lt;a href=&quot;x&quot;&gt;&amp;&apos;&lt;/a&gt;");
    assert_eq!(escape_xml("plain"), "plain");
}

#[test]
fn first_argument_value() {
    let args = vec![("A".to_string(), "1".to_string()), ("A".to_string(), "2".to_string())];
    assert_eq!(arg_value(&args, "A"), Some("1".to_string()));
    assert_eq!(arg_value(&args, "B"), None);
}

#[test]
fn reading_goes_on_past_ill_formed_markup() {
    let doc = parse_didl(
        "<DIDL-Lite><item id=\"1\"><dc:title>A</dc:title></item></bogus><item id=\"2\"><dc:title>B</dc:title></item></DIDL-Lite>",
    )
    .unwrap();
    assert_eq!(doc.items.len(), 2);
    assert_eq!(doc.items[0].title, "A");
    assert_eq!(doc.items[1].title, "B");
}
