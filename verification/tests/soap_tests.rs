use upnpav::soap::{
    build_fault, build_response, find_header, handle_request, local_name_of, parse_request, parse_xml_body,
    soap_reply, split_action_header,
};
use upnpav::types::upnp::{Action, ActionArgs, ActionMap, ArgumentDefinition, ArgumentDirection, Error, ServiceVersion, Services};

const NS: &str = "urn:schemas-upnp-org:service:AVTransport:3";

fn headers(action: &str) -> Vec<(String, String)> {
    vec![
        ("Content-Type".to_string(), "text/xml; charset=\"utf-8\"".to_string()),
        ("SOAPACTION".to_string(), format!("{}#{}", NS, action)),
    ]
}

fn body(action: &str, args: &str) -> String {
    format!(
        "<?xml version=\"1.0\"?><s:Envelope xmlns:s=\"http://schemas.xmlsoap.org/soap/envelope/\"><s:Body><u:{a} xmlns:u=\"{ns}\">{args}</u:{a}></s:Body></s:Envelope>",
        a = action,
        ns = NS,
        args = args
    )
}

#[test]
fn header_lookup_ignores_case() {
    let h = headers("Play");
    assert_eq!(find_header(&h, "content-type"), "text/xml; charset=\"utf-8\"");
    assert_eq!(find_header(&h, "soapaction"), format!("{}#Play", NS));
    assert_eq!(find_header(&h, "missing"), "");
}

#[test]
fn action_header_split() {
    assert_eq!(split_action_header("ns#Act"), Some(("ns".to_string(), "Act".to_string())));
    assert_eq!(split_action_header("ns#"), None);
    assert_eq!(split_action_header("#Act"), None);
    assert_eq!(split_action_header("a#b#c"), None);
    assert_eq!(split_action_header("noaction"), None);
    assert_eq!(local_name_of("u:Play"), "Play");
    assert_eq!(local_name_of("Play"), "Play");
}

#[test]
fn body_arguments() {
    let args = parse_xml_body(&body("Play", "<InstanceID>0</InstanceID><Speed>1</Speed>")).unwrap();
    assert_eq!(args, vec![("InstanceID".to_string(), "0".to_string()), ("Speed".to_string(), "1".to_string())]);
}

#[test]
fn request_parsing() {
    let (ns, act, args) = parse_request(&headers("Play"), &body("Play", "<InstanceID>0</InstanceID><Speed>1</Speed>")).unwrap();
    assert_eq!(ns, NS);
    assert_eq!(act, "Play");
    assert_eq!(args.get("Speed"), Some("1"));
}

#[test]
fn request_with_wrong_content_type_is_refused() {
    let mut h = headers("Play");
    h[0].1 = "application/json".to_string();
    assert!(matches!(parse_request(&h, &body("Play", "")), Err(Error::InvalidAction)));
}

#[test]
fn request_without_action_header_is_refused() {
    let h = vec![("Content-Type".to_string(), "text/xml".to_string())];
    assert!(matches!(parse_request(&h, &body("Play", "")), Err(Error::InvalidAction)));
}

#[test]
fn fault_envelope() {
    let f = build_fault(501, "Not Implemented");
    assert!(f.contains("<errorCode>501</errorCode>"));
    assert!(f.contains("<errorDescription>Not Implemented</errorDescription>"));
    assert!(f.contains("<faultcode>s:Client</faultcode>"));
    assert!(f.contains("<faultstring>UPnPError</faultstring>"));
}

#[test]
fn response_envelope() {
    let r = build_response("GetVolume", &[("CurrentVolume".to_string(), "7".to_string())], "urn:x");
    assert!(r.contains("<GetVolumeResponse xmlns:u=\"urn:x\">"));
    assert!(r.contains("<CurrentVolume>7</CurrentVolume>"));
    assert!(r.contains("urn:x"));
}

#[test]
fn reply_to_failed_action_carries_code() {
    let r = soap_reply("Play", NS, Err(Error::ArgumentValueInvalid));
    assert!(r.contains("<errorCode>600</errorCode>"));
    assert!(r.contains("Action failed"));
}

struct Echo;

impl Action for Echo {
    fn name(&self) -> &'static str {
        "Echo"
    }
    fn in_args(&self) -> Vec<ArgumentDefinition<&'static str, &'static str>> {
        vec![ArgumentDefinition { name: "In", direction: ArgumentDirection::IN, related_state_var: None }]
    }
    fn out_args(&self) -> Vec<ArgumentDefinition<&'static str, &'static str>> {
        vec![ArgumentDefinition { name: "Out", direction: ArgumentDirection::OUT, related_state_var: None }]
    }
    fn execute(&self, args: &ActionArgs) -> Result<ActionArgs, Error> {
        let mut out = ActionArgs::new();
        match args.get("In") {
            Some(v) => {
                out.set("Out".to_string(), v.to_string());
                Ok(out)
            }
            None => Err(Error::InvalidArgs),
        }
    }
}

fn map() -> ActionMap {
    let mut m = ActionMap::new(Services::AVTransport(ServiceVersion::V3));
    m.register(Box::new(Echo));
    m
}

#[test]
fn dispatch_runs_the_action() {
    let r = handle_request(&map(), &headers("Echo"), &body("Echo", "<In>hi</In>"));
    assert!(r.contains("<Out>hi</Out>"));
    assert!(r.contains("<EchoResponse"));
}

#[test]
fn dispatch_reports_action_error() {
    let r = handle_request(&map(), &headers("Echo"), &body("Echo", ""));
    assert!(r.contains("<errorCode>402</errorCode>"));
}

#[test]
fn dispatch_unknown_action_is_501() {
    let r = handle_request(&map(), &headers("Nope"), &body("Nope", ""));
    assert!(r.contains("<errorCode>501</errorCode>"));
    assert!(r.contains("Not Implemented"));
}

#[test]
fn dispatch_other_service_is_401() {
    let mut h = headers("Echo");
    h[1].1 = "urn:schemas-upnp-org:service:RenderingControl:3#Echo".to_string();
    let r = handle_request(&map(), &h, &body("Echo", "<In>x</In>"));
    assert!(r.contains("<errorCode>401</errorCode>"));
    assert!(r.contains("Invalid Action"));
}

#[test]
fn dispatch_refused_request() {
    let h = vec![("Content-Type".to_string(), "text/plain".to_string())];
    let r = handle_request(&map(), &h, "");
    assert!(r.contains("<errorCode>401</errorCode>"));
    assert!(r.contains("Invalid request"));
}

struct Shadow;

impl Action for Shadow {
    fn name(&self) -> &'static str {
        "Echo"
    }
    fn in_args(&self) -> Vec<ArgumentDefinition<&'static str, &'static str>> {
        Vec::new()
    }
    fn out_args(&self) -> Vec<ArgumentDefinition<&'static str, &'static str>> {
        vec![ArgumentDefinition { name: "Out", direction: ArgumentDirection::OUT, related_state_var: None }]
    }
    fn execute(&self, _args: &ActionArgs) -> Result<ActionArgs, Error> {
        let mut out = ActionArgs::new();
        out.set("Out".to_string(), "shadow".to_string());
        Ok(out)
    }
}

#[test]
fn dispatch_runs_the_first_registered_under_the_name() {
    let mut m = map();
    m.register(Box::new(Shadow));
    let r = handle_request(&m, &headers("Echo"), &body("Echo", "<In>hi</In>"));
    assert!(r.contains("<Out>hi</Out>"));
    let mut m2 = ActionMap::new(Services::AVTransport(ServiceVersion::V3));
    m2.register(Box::new(Shadow));
    m2.register(Box::new(Echo));
    let r2 = handle_request(&m2, &headers("Echo"), &body("Echo", "<In>hi</In>"));
    assert!(r2.contains("<Out>shadow</Out>"));
    assert_eq!(m2.action_names(), vec!["Echo".to_string(), "Echo".to_string()]);
    assert_eq!(m2.action_definitions()[0].in_args.len(), 0);
    assert_eq!(m2.action_definitions()[1].in_args.len(), 1);
    assert_eq!(m2.get("Echo").map(|a| a.in_args().len()), Some(0));
}

#[test]
fn body_arguments_after_ill_formed_markup() {
    let args = parse_xml_body(&body("Play", "<InstanceID>0</Wrong><Speed>1</Speed>")).unwrap();
    assert_eq!(args, vec![("InstanceID".to_string(), "0".to_string()), ("Speed".to_string(), "1".to_string())]);
}
