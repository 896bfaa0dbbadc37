use upnpav::types::upnp::{
    Action, ActionArgs, ActionMap, ArgumentDefinition, ArgumentDirection, DataType, Device, Error,
    ServiceVersion, Services,
};

#[test]
fn service_urls_and_namespaces() {
    let s = Services::AVTransport(ServiceVersion::V3);
    assert_eq!(s.full_namespace(), "urn:schemas-upnp-org:service:AVTransport:3");
    assert_eq!(s.name(), "AVTransport");
    assert_eq!(s.url_control(), "/upnp/control/AVTransport");
    assert_eq!(s.scpd_url(), "/upnp/AVTransport.xml");
    assert_eq!(s.event_url(), "/upnp/event/AVTransport");
    let r = Services::RenderingControl(ServiceVersion::V1);
    assert_eq!(r.full_namespace(), "urn:schemas-upnp-org:service:RenderingControl:1");
}

#[test]
fn namespace_roundtrip() {
    for s in [
        Services::AVTransport(ServiceVersion::V1),
        Services::ConnectionManager(ServiceVersion::V2),
        Services::RenderingControl(ServiceVersion::V3),
    ] {
        assert_eq!(Services::namespace_from_string(&s.full_namespace()), Some(s));
    }
    assert_eq!(Services::namespace_from_string("urn:schemas-upnp-org:service:AVTransport:4"), None);
    assert_eq!(Services::namespace_from_string("garbage"), None);
    assert_eq!(Services::service_from_name("RenderingControl"), Some(Services::RenderingControl(ServiceVersion::V3)));
    assert_eq!(Services::service_from_name("Nothing"), None);
}

#[test]
fn device_urn() {
    assert_eq!(Device::MediaRenderer.urn(), "urn:schemas-upnp-org:device:MediaRenderer:1");
    assert_eq!(Device::MediaServer.urn(), "urn:schemas-upnp-org:device:MediaServer:1");
}

#[test]
fn error_codes() {
    assert_eq!(Error::InvalidAction.code(), 401);
    assert_eq!(Error::InvalidArgs.code(), 402);
    assert_eq!(Error::ActionFailed.code(), 501);
    assert_eq!(Error::ArgumentValueInvalid.code(), 600);
    assert_eq!(Error::StringArgumentTooLong.code(), 605);
    assert_eq!(Error::from_code(604), Some(Error::HumanInterventionRequired));
    assert_eq!(Error::from_code(999), None);
    for e in [Error::InvalidAction, Error::OutOfMemory, Error::ArgumentValueOutOfRange] {
        assert_eq!(Error::from_code(e.code()), Some(e));
    }
    assert_eq!(Error::InvalidAction.description(), "No action by that name in service");
}

#[test]
fn data_type_values() {
    assert_eq!(DataType::Boolean(true).as_value_str(), "1");
    assert_eq!(DataType::Boolean(false).as_value_str(), "0");
    assert_eq!(DataType::I4(-5).as_value_str(), "-5");
    assert_eq!(DataType::Ui4(7).as_value_str(), "7");
    assert_eq!(DataType::String("x".to_string()).as_value_str(), "x");
    assert_eq!(DataType::Ui2(1).as_str(), "ui2");
    assert_eq!(DataType::Base64(String::new()).as_str(), "bin.base64");
    assert!(DataType::Ui4(3).same_value(&DataType::Ui4(3)));
    assert!(!DataType::Ui4(3).same_value(&DataType::Ui2(3)));
}

#[test]
fn action_args_set_then_get() {
    let mut a = ActionArgs::new();
    assert!(a.is_empty());
    a.set("Speed".to_string(), "1".to_string());
    a.set("InstanceID".to_string(), "0".to_string());
    assert_eq!(a.get("Speed"), Some("1"));
    a.set("Speed".to_string(), "2".to_string());
    assert_eq!(a.get("Speed"), Some("2"));
    assert_eq!(a.get("InstanceID"), Some("0"));
    assert_eq!(a.get("Missing"), None);
    assert_eq!(a.pairs().len(), 2);
}

#[test]
fn action_args_first_pair_wins() {
    let a = ActionArgs::from_pairs(vec![
        ("K".to_string(), "first".to_string()),
        ("K".to_string(), "second".to_string()),
    ]);
    assert_eq!(a.get("K"), Some("first"));
}

struct Echo;

impl Action for Echo {
    fn name(&self) -> &'static str {
        "Echo"
    }
    fn in_args(&self) -> Vec<ArgumentDefinition<&'static str, &'static str>> {
        vec![ArgumentDefinition { name: "In", direction: ArgumentDirection::IN, related_state_var: Some("A_ARG_TYPE_In") }]
    }
    fn out_args(&self) -> Vec<ArgumentDefinition<&'static str, &'static str>> {
        vec![ArgumentDefinition { name: "Out", direction: ArgumentDirection::OUT, related_state_var: None }]
    }
    fn execute(&self, args: &ActionArgs) -> Result<ActionArgs, Error> {
        let mut out = ActionArgs::new();
        match args.get("In") {
            Some(v) => {
                out.set("Out".to_string(), v.to_string());
                Ok(out)
            }
            None => Err(Error::InvalidArgs),
        }
    }
}

#[test]
fn action_map_registration() {
    let mut m = ActionMap::new(Services::AVTransport(ServiceVersion::V3));
    assert!(m.get("Echo").is_none());
    m.register(Box::new(Echo));
    assert!(m.get("Echo").is_some());
    assert!(m.get("Other").is_none());
    assert_eq!(m.action_names(), vec!["Echo".to_string()]);
    assert_eq!(m.service_name(), "AVTransport");
    assert_eq!(m.namespace(), "urn:schemas-upnp-org:service:AVTransport:3");
    let defs = m.action_definitions();
    assert_eq!(defs.len(), 1);
    assert_eq!(defs[0].name, "Echo");
    assert_eq!(defs[0].in_args[0].name, "In");
    assert_eq!(defs[0].in_args[0].related_state_var.as_deref(), Some("A_ARG_TYPE_In"));
    assert_eq!(defs[0].out_args[0].name, "Out");
}

#[test]
fn data_type_conversions() {
    assert!(DataType::from(7u8).same_value(&DataType::Ui1(7)));
    assert!(DataType::from(7u16).same_value(&DataType::Ui2(7)));
    assert!(DataType::from(7u32).same_value(&DataType::Ui4(7)));
    assert!(DataType::from(-7i8).same_value(&DataType::I1(-7)));
    assert!(DataType::from(-7i16).same_value(&DataType::I2(-7)));
    assert!(DataType::from(-7i32).same_value(&DataType::I4(-7)));
    assert!(DataType::from(-7i64).same_value(&DataType::I8(-7)));
    assert!(DataType::from(true).same_value(&DataType::Boolean(true)));
    assert_eq!(DataType::from("abc".to_string()).as_value_str(), "abc");
}
