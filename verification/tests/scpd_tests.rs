use upnpav::config::{Icon, SsdpDevice, UpnpDevice};
use upnpav::scpd::{escape_xml, scpd_document, DescriptionHandler};
use upnpav::services::avtransport::statics::StateVariableName as Avt;
use upnpav::state::{state_def, StateStore};
use upnpav::types::upnp::{Action, ActionArgs, ActionMap, ArgumentDefinition, ArgumentDirection, DataType, Device, Error, ServiceVersion, Services};

fn devices(icon: Option<Icon>) -> (UpnpDevice, SsdpDevice) {
    let u = UpnpDevice::new(
        Some("Living <Room>".to_string()),
        None,
        None,
        None,
        Some("http://maker".to_string()),
        None,
        None,
        Some("SN1".to_string()),
        icon,
        None,
    );
    let s = SsdpDevice::new(
        "10.0.0.2".to_string(),
        8080,
        "srv".to_string(),
        Device::MediaRenderer,
        vec![Services::AVTransport(ServiceVersion::V3)],
        None,
        Some(3),
        None,
        None,
        None,
        Some("aa:bb:cc:dd:ee:ff".to_string()),
    );
    (u, s)
}

#[test]
fn description_document() {
    let (u, s) = devices(None);
    let h = DescriptionHandler::new(u, s, "srv".to_string());
    let xml = h.build_description_xml();
    assert!(xml.starts_with("<?xml version=\"1.0\"?>\n<root xmlns=\"urn:schemas-upnp-org:device-1-0\" configId=\"3\">\n  <specVersion>\n    <major>2</major>\n    <minor>0</minor>\n  </specVersion>\n  <device>\n"));
    assert!(xml.contains("    <deviceType>urn:schemas-upnp-org:device:MediaRenderer:1</deviceType>\n"));
    assert!(xml.contains("    <UDN>uuid:98a849f5-5047-50e1-bba1-b43f2da1809b</UDN>\n"));
    assert!(xml.contains("    <friendlyName>Living &lt;Room&gt;</friendlyName>\n"));
    assert!(xml.contains("    <manufacturerURL>http://maker</manufacturerURL>\n"));
    assert!(!xml.contains("modelDescription"));
    assert!(xml.contains("    <serialNumber>SN1</serialNumber>\n"));
    assert!(!xml.contains("iconList"));
    assert!(xml.contains("        <serviceType>urn:schemas-upnp-org:service:AVTransport:3</serviceType>\n"));
    assert!(xml.contains("        <serviceId>urn:upnp-org:serviceId:AVTransport</serviceId>\n"));
    assert!(xml.contains("        <SCPDURL>/upnp/AVTransport.xml</SCPDURL>\n"));
    assert!(xml.contains("        <controlURL>/upnp/control/AVTransport</controlURL>\n"));
    assert!(xml.contains("        <eventSubURL>/upnp/event/AVTransport</eventSubURL>\n"));
    assert!(xml.ends_with("    </serviceList>\n  </device>\n</root>\n"));
    assert_eq!(h.server_info(), "srv");
}

#[test]
fn description_with_icon() {
    let icon = Icon { mime_type: "image/png".to_string(), width: 48, height: 48, depth: 24, bytes: vec![1, 2, 3] };
    let (u, s) = devices(Some(icon));
    let xml = DescriptionHandler::new(u, s, "srv".to_string()).build_description_xml();
    assert!(xml.contains("    <iconList>\n        <icon>\n          <mimetype>image/png</mimetype>\n          <width>48</width>\n          <height>48</height>\n          <depth>24</depth>\n          <url>icon.png</url>\n        </icon>\n    </iconList>\n"));
}

struct Play;

impl Action for Play {
    fn name(&self) -> &'static str {
        "Play"
    }
    fn in_args(&self) -> Vec<ArgumentDefinition<&'static str, &'static str>> {
        vec![
            ArgumentDefinition { name: "InstanceID", direction: ArgumentDirection::IN, related_state_var: Some("A_ARG_TYPE_InstanceID") },
            ArgumentDefinition { name: "Speed", direction: ArgumentDirection::IN, related_state_var: Some("TransportPlaySpeed") },
        ]
    }
    fn out_args(&self) -> Vec<ArgumentDefinition<&'static str, &'static str>> {
        Vec::new()
    }
    fn execute(&self, _args: &ActionArgs) -> Result<ActionArgs, Error> {
        Ok(ActionArgs::new())
    }
}

#[test]
fn scpd_document_contents() {
    let mut m = ActionMap::new(Services::AVTransport(ServiceVersion::V3));
    m.register(Box::new(Play));
    let mut st: StateStore<Avt> = StateStore::new();
    st.register(state_def(Avt::TransportPlaySpeed, DataType::String("1".to_string())));
    st.register(state_def(Avt::RelativeTimePosition, DataType::String("0:00:00".to_string())));
    let mut seek = state_def(Avt::A_ARG_TYPE_SeekMode, DataType::String(String::new()));
    seek.argument_type = true;
    seek.allowed_values = Some(vec!["REL_TIME".to_string(), "TRACK_NR".to_string()]);
    st.register(seek);
    let mut track = state_def(Avt::CurrentTrack, DataType::Ui4(0));
    track.allowed_value_range = Some(("0".to_string(), "100".to_string(), "1".to_string()));
    st.register(track);
    let xml = scpd_document(&m, &st, 9);
    assert!(xml.starts_with("<?xml version=\"1.0\"?>\n<scpd xmlns=\"urn:schemas-upnp-org:service-1-0\" configId=\"9\">\n"));
    assert!(xml.contains("  <actionList>\n    <action>\n      <name>Play</name>\n      <argumentList>\n        <argument>\n          <name>InstanceID</name>\n          <direction>in</direction>\n          <relatedStateVariable>A_ARG_TYPE_InstanceID</relatedStateVariable>\n        </argument>\n"));
    // referenced by Play's Speed argument and evented through LastChange
    assert!(xml.contains("    <stateVariable sendEvents=\"yes\">\n      <name>TransportPlaySpeed</name>\n      <dataType>string</dataType>\n      <defaultValue>1</defaultValue>\n    </stateVariable>\n"));
    // neither referenced, evented nor an argument type: left out
    assert!(!xml.contains("RelativeTimePosition"));
    // argument type: no default, with its allowed values
    assert!(xml.contains("    <stateVariable>\n      <name>A_ARG_TYPE_SeekMode</name>\n      <dataType>string</dataType>\n      <allowedValueList>\n        <allowedValue>REL_TIME</allowedValue>\n        <allowedValue>TRACK_NR</allowedValue>\n      </allowedValueList>\n    </stateVariable>\n"));
    assert!(xml.contains("      <allowedValueRange>\n        <minimum>0</minimum>\n        <maximum>100</maximum>\n      </allowedValueRange>\n"));
    assert!(xml.ends_with("  </serviceStateTable>\n</scpd>\n"));
}

#[test]
fn scpd_escape() {
    assert_eq!(escape_xml("a<b"), "a&lt;b");
}
