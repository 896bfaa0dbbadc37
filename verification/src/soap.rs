//! SOAP control: reading an action request (headers and envelope), writing the
//! response and fault envelopes, and dispatching a request to the registered
//! action.
use vstd::prelude::*;

use crate::text::{
    chars_of, eq_ignore_ascii_case, eq_ignore_ascii_case_spec, has_prefix, i64_to_string, int_to_decimal,
    push_str, starts_with, str_eq, string_from_range, to_owned_string,
};
use crate::types::upnp::{
    first_position, full_namespace_spec, last_index_of, last_index_of_exec, pairs_view, upnp_error_code,
    Action, ActionArgs, ActionMap, ActionMapLock, Error,
};
use crate::xml::{
    end_tag, events_view, read_xml_events, start_tag, start_tag_with, text_event, write_xml, writes_view,
    xml_read_events, xml_written, XmlEvent, XmlEventView, XmlWrite, XmlWriteView,
};
use std::sync::Arc;
use vstd::rwlock::RwLock;

verus! {

broadcast use vstd::string::group_string_axioms;

// ---------------------------------------------------------------------------
// Request headers
// ---------------------------------------------------------------------------

/// The value of the first header whose name is `name` up to case, or the empty
/// text when there is none. (For the ASCII names asked for here, comparing
/// ASCII letters without case is the same as comparing the lower-cased name.)
pub open spec fn header_value(headers: Seq<(Seq<char>, Seq<char>)>, name: Seq<char>) -> Seq<char>
    decreases headers.len(),
{
    if headers.len() == 0 {
        Seq::empty()
    } else if eq_ignore_ascii_case_spec(headers[0].0, name) {
        headers[0].1
    } else {
        header_value(headers.drop_first(), name)
    }
}

/// Looks up a header by name, ignoring ASCII case; the empty text when absent.
pub fn find_header(headers: &[(String, String)], name: &str) -> (r: String)
    ensures
        r@ == header_value(pairs_view(headers@), name@),
{
    let ghost hv = pairs_view(headers@);
    let mut i: usize = 0;
    assert(hv.subrange(0, hv.len() as int) =~= hv);
    while i < headers.len()
        invariant
            hv == pairs_view(headers@),
            i <= headers@.len(),
            header_value(hv, name@) == header_value(hv.subrange(i as int, hv.len() as int), name@),
        decreases headers.len() - i,
    {
        let ghost rest = hv.subrange(i as int, hv.len() as int);
        if eq_ignore_ascii_case(headers[i].0.as_str(), name) {
            assert(rest[0] == hv[i as int]);
            return to_owned_string(headers[i].1.as_str());
        }
        assert(rest.drop_first() =~= hv.subrange(i + 1, hv.len() as int));
        i = i + 1;
    }
    String::new()
}

/// `p` is the only position of `c` in `s`.
pub open spec fn sole_index_of(s: Seq<char>, c: char, p: int) -> bool {
    &&& 0 <= p < s.len()
    &&& s[p] == c
    &&& forall|j: int| 0 <= j < s.len() && j != p ==> s[j] != c
}

/// A SOAPACTION value `namespace#ActionName`: exactly one `#`, with text on
/// both sides of it.
pub open spec fn split_soap_action(s: Seq<char>) -> Option<(Seq<char>, Seq<char>)> {
    if exists|p: int| sole_index_of(s, '#', p) && 0 < p < s.len() - 1 {
        let p = choose|p: int| sole_index_of(s, '#', p) && 0 < p < s.len() - 1;
        Some((s.subrange(0, p), s.subrange(p + 1, s.len() as int)))
    } else {
        None
    }
}

/// Splits a SOAPACTION value into namespace and action name.
pub fn split_action_header(s: &str) -> (r: Option<(String, String)>)
    ensures
        match r {
            Some((ns, act)) => split_soap_action(s@) == Some((ns@, act@)),
            None => split_soap_action(s@) is None,
        },
{
    let cs = chars_of(s);
    let n = cs.len();
    let mut count: usize = 0;
    let mut pos: usize = 0;
    let mut i: usize = 0;
    while i < n
        invariant
            cs@ == s@,
            n == cs@.len(),
            i <= n,
            count <= 2,
            count == 0 ==> forall|j: int| 0 <= j < i ==> cs@[j] != '#',
            count == 1 ==> pos < i && cs@[pos as int] == '#' && forall|j: int|
                0 <= j < i && j != pos ==> cs@[j] != '#',
            count == 2 ==> pos < n && cs@[pos as int] == '#' && exists|q: int|
                0 <= q < n && q != pos && cs@[q] == '#',
        decreases n - i,
    {
        if cs[i] == '#' {
            if count == 0 {
                pos = i;
                count = 1;
            } else if count == 1 {
                assert(cs@[i as int] == '#' && i != pos);
                count = 2;
            }
        }
        i = i + 1;
    }
    if count == 1 && pos > 0 && pos + 1 < n {
        proof {
            assert(sole_index_of(s@, '#', pos as int));
            let p = choose|p: int| sole_index_of(s@, '#', p) && 0 < p < s@.len() - 1;
            assert(p == pos);
        }
        let ns = string_from_range(&cs, 0, pos);
        let act = string_from_range(&cs, pos + 1, n);
        Some((ns, act))
    } else {
        proof {
            if exists|p: int| sole_index_of(s@, '#', p) && 0 < p < s@.len() - 1 {
                let p = choose|p: int| sole_index_of(s@, '#', p) && 0 < p < s@.len() - 1;
                if count == 0 {
                    assert(cs@[p] == '#');
                } else if count == 2 {
                    let q = choose|q: int| 0 <= q < n && q != pos && cs@[q] == '#';
                    assert(q == p || pos == p);
                } else {
                    assert(p == pos);
                }
            }
        }
        None
    }
}

// ---------------------------------------------------------------------------
// Request envelope
// ---------------------------------------------------------------------------

/// The envelope's body element, with or without the `s:` prefix.
pub open spec fn is_body_tag(tag: Seq<char>) -> bool {
    tag == "s:Body"@ || tag == "Body"@
}

/// The part of a qualified name after its last `:` (the whole name when it
/// has none).
pub open spec fn local_name(tag: Seq<char>) -> Seq<char> {
    match last_index_of(tag, ':') {
        None => tag,
        Some(i) => tag.subrange(i + 1, tag.len() as int),
    }
}

/// Where the scan of a request envelope stands: inside the body or not,
/// whether the action element was seen, and the argument whose text is being
/// read, if any.
pub struct ScanState {
    pub in_body: bool,
    pub has_action: bool,
    pub arg: Option<Seq<char>>,
}

/// The arguments found in the tokens from position `i` on, from state `st`.
///
/// The first element inside the body names the action; each later element
/// inside the body is an argument, and every text token up to the next end tag
/// becomes a (local name, text) pair; a reader error inside an argument ends
/// that argument. The scan stops at the end of input or at a reader error
/// outside an argument.
pub open spec fn soap_scan(es: Seq<XmlEventView>, i: int, st: ScanState) -> Seq<(Seq<char>, Seq<char>)>
    decreases es.len() - i,
{
    if i < 0 || i >= es.len() {
        Seq::empty()
    } else {
        match st.arg {
            Some(name) => match es[i] {
                XmlEventView::Text(t) => seq![(name, t)] + soap_scan(es, i + 1, st),
                XmlEventView::End(_) => soap_scan(
                    es,
                    i + 1,
                    ScanState { in_body: st.in_body, has_action: st.has_action, arg: None },
                ),
                XmlEventView::Eof => Seq::empty(),
                XmlEventView::Error => soap_scan(
                    es,
                    i + 1,
                    ScanState { in_body: st.in_body, has_action: st.has_action, arg: None },
                ),
                _ => soap_scan(es, i + 1, st),
            },
            None => match es[i] {
                XmlEventView::Start(tag, _) => if is_body_tag(tag) {
                    soap_scan(es, i + 1, ScanState { in_body: true, has_action: st.has_action, arg: None })
                } else if st.in_body && !st.has_action {
                    soap_scan(es, i + 1, ScanState { in_body: true, has_action: true, arg: None })
                } else if st.in_body {
                    soap_scan(
                        es,
                        i + 1,
                        ScanState { in_body: true, has_action: true, arg: Some(local_name(tag)) },
                    )
                } else {
                    soap_scan(es, i + 1, st)
                },
                XmlEventView::End(tag) => if is_body_tag(tag) {
                    soap_scan(es, i + 1, ScanState { in_body: false, has_action: st.has_action, arg: None })
                } else {
                    soap_scan(es, i + 1, st)
                },
                XmlEventView::Eof => Seq::empty(),
                XmlEventView::Error => Seq::empty(),
                _ => soap_scan(es, i + 1, st),
            },
        }
    }
}

/// The state a scan starts in.
pub open spec fn scan_start() -> ScanState {
    ScanState { in_body: false, has_action: false, arg: None }
}

/// The arguments of a request envelope, from its tokens.
pub open spec fn envelope_args(es: Seq<XmlEventView>) -> Seq<(Seq<char>, Seq<char>)> {
    soap_scan(es, 0, scan_start())
}

fn is_body_tag_exec(tag: &str) -> (r: bool)
    ensures
        r == is_body_tag(tag@),
{
    str_eq(tag, "s:Body") || str_eq(tag, "Body")
}

/// The local part of a qualified name.
pub fn local_name_of(tag: &str) -> (r: String)
    ensures
        r@ == local_name(tag@),
{
    let cs = chars_of(tag);
    match last_index_of_exec(&cs, ':') {
        None => to_owned_string(tag),
        Some(i) => string_from_range(&cs, i + 1, cs.len()),
    }
}

/// The view of an optional string.
pub open spec fn opt_str_view(a: Option<String>) -> Option<Seq<char>> {
    match a {
        Some(s) => Some(s@),
        None => None,
    }
}

/// The arguments of a request envelope, read from its tokens.
pub fn soap_args(events: &Vec<XmlEvent>) -> (r: Vec<(String, String)>)
    ensures
        pairs_view(r@) == envelope_args(events_view(events@)),
{
    let ghost es = events_view(events@);
    let mut out: Vec<(String, String)> = Vec::new();
    let mut in_body = false;
    let mut has_action = false;
    let mut arg: Option<String> = None;
    let mut i: usize = 0;
    while i < events.len()
        invariant
            es == events_view(events@),
            i <= events@.len(),
            pairs_view(out@) + soap_scan(
                es,
                i as int,
                ScanState {
                    in_body,
                    has_action,
                    arg: opt_str_view(arg),
                },
            ) == envelope_args(es),
        decreases events.len() - i,
    {
        let ghost prev = pairs_view(out@);
        let ghost st = ScanState {
            in_body,
            has_action,
            arg: opt_str_view(arg),
        };
        assert(es[i as int] == events@[i as int]@);
        let mut stop = false;
        match &arg {
            Some(name) => match &events[i] {
                XmlEvent::Text(t) => {
                    out.push((name.clone(), t.clone()));
                    assert(pairs_view(out@) =~= prev + seq![(st.arg->0, es[i as int]->Text_0)]);
                },
                XmlEvent::End(_) => {
                    arg = None;
                },
                XmlEvent::Eof => {
                    stop = true;
                },
                XmlEvent::Error => {
                    arg = None;
                },
                _ => {},
            },
            None => match &events[i] {
                XmlEvent::Start(tag, _) => {
                    if is_body_tag_exec(tag.as_str()) {
                        in_body = true;
                    } else if in_body && !has_action {
                        has_action = true;
                    } else if in_body {
                        arg = Some(local_name_of(tag.as_str()));
                    }
                },
                XmlEvent::End(tag) => {
                    if is_body_tag_exec(tag.as_str()) {
                        in_body = false;
                    }
                },
                XmlEvent::Eof => {
                    stop = true;
                },
                XmlEvent::Error => {
                    stop = true;
                },
                _ => {},
            },
        }
        if stop {
            assert(soap_scan(es, i as int, st) == Seq::<(Seq<char>, Seq<char>)>::empty());
            assert(pairs_view(out@) =~= envelope_args(es));
            return out;
        }
        i = i + 1;
    }
    assert(pairs_view(out@) =~= envelope_args(es));
    out
}

/// Parse the XML body to extract action arguments.
pub fn parse_xml_body(xml: &str) -> (r: Result<Vec<(String, String)>, Error>)
    ensures
        r is Ok,
        pairs_view(r->Ok_0@) == envelope_args(xml_read_events(xml@)),
{
    let events = read_xml_events(xml);
    Ok(soap_args(&events))
}

// ---------------------------------------------------------------------------
// Request
// ---------------------------------------------------------------------------

/// What `parse_request` gives: `InvalidAction` unless the Content-Type header
/// starts with `text/xml` and the SOAPACTION header reads `namespace#Action`;
/// else the namespace, the action name and the arguments of the envelope.
pub open spec fn parse_request_spec(headers: Seq<(Seq<char>, Seq<char>)>, body: Seq<char>) -> Result<
    (Seq<char>, Seq<char>, Seq<(Seq<char>, Seq<char>)>),
    Error,
> {
    if !has_prefix(header_value(headers, "content-type"@), "text/xml"@) {
        Err(Error::InvalidAction)
    } else {
        match split_soap_action(header_value(headers, "soapaction"@)) {
            None => Err(Error::InvalidAction),
            Some((ns, act)) => Ok((ns, act, envelope_args(xml_read_events(body)))),
        }
    }
}

/// Parse a complete SOAP request — validates Content-Type, extracts SOAPACTION, parses XML.
///
/// Returns (namespace, action_name, args).
///
/// This is the single entry point for all SOAP parsing. Callers pass raw HTTP headers
/// and body; this function validates protocol requirements and extracts the action + args.
pub fn parse_request(headers: &[(String, String)], body: &str) -> (r: Result<(String, String, ActionArgs), Error>)
    ensures
        match r {
            Ok((ns, act, args)) => parse_request_spec(pairs_view(headers@), body@) == Ok::<
                (Seq<char>, Seq<char>, Seq<(Seq<char>, Seq<char>)>),
                Error,
            >((ns@, act@, args@)),
            Err(e) => parse_request_spec(pairs_view(headers@), body@) == Err::<
                (Seq<char>, Seq<char>, Seq<(Seq<char>, Seq<char>)>),
                Error,
            >(e),
        },
{
    let content_type = find_header(headers, "content-type");
    if !starts_with(content_type.as_str(), "text/xml") {
        return Err(Error::InvalidAction);
    }
    let soap_action = find_header(headers, "soapaction");
    let (ns, act) = match split_action_header(soap_action.as_str()) {
        Some(p) => p,
        None => return Err(Error::InvalidAction),
    };
    let args = match parse_xml_body(body) {
        Ok(a) => a,
        Err(e) => return Err(e),
    };
    Ok((ns, act, ActionArgs::from_pairs(args)))
}

// ---------------------------------------------------------------------------
// Response and fault envelopes
// ---------------------------------------------------------------------------

/// The SOAP envelope namespace.
pub open spec fn envelope_namespace() -> Seq<char> {
    "http://schemas.xmlsoap.org/soap/envelope/"@
}

/// One element per returned value: start tag, text, end tag.
pub open spec fn return_events(rs: Seq<(Seq<char>, Seq<char>)>) -> Seq<XmlWriteView>
    decreases rs.len(),
{
    if rs.len() == 0 {
        Seq::empty()
    } else {
        return_events(rs.drop_last()) + seq![
            XmlWriteView::Start(rs.last().0, Seq::empty()),
            XmlWriteView::Text(rs.last().1),
            XmlWriteView::End(rs.last().0),
        ]
    }
}

/// The events of a response envelope: `s:Envelope`, `s:Body`, the
/// `<action>Response` element holding the returned values.
pub open spec fn response_events(action: Seq<char>, rs: Seq<(Seq<char>, Seq<char>)>, ns: Seq<char>) -> Seq<XmlWriteView> {
    let name = action + "Response"@;
    seq![
        XmlWriteView::Start("s:Envelope"@, seq![("xmlns:s"@, envelope_namespace())]),
        XmlWriteView::Start("s:Body"@, seq![("xmlns:u"@, ns)]),
        XmlWriteView::Start(name, seq![("xmlns:u"@, ns)]),
    ] + return_events(rs) + seq![
        XmlWriteView::End(name),
        XmlWriteView::End("s:Body"@),
        XmlWriteView::End("s:Envelope"@),
    ]
}

/// The events of a fault envelope carrying a UPnP error code and description.
pub open spec fn fault_events(code: int, description: Seq<char>) -> Seq<XmlWriteView> {
    seq![
        XmlWriteView::Start("s:Envelope"@, seq![("xmlns:s"@, envelope_namespace())]),
        XmlWriteView::Start("s:Body"@, Seq::empty()),
        XmlWriteView::Start("s:Fault"@, Seq::empty()),
        XmlWriteView::Start("faultcode"@, Seq::empty()),
        XmlWriteView::Text("s:Client"@),
        XmlWriteView::End("faultcode"@),
        XmlWriteView::Start("faultstring"@, Seq::empty()),
        XmlWriteView::Text("UPnPError"@),
        XmlWriteView::End("faultstring"@),
        XmlWriteView::Start("detail"@, Seq::empty()),
        XmlWriteView::Start("UPnPError"@, seq![("xmlns"@, "urn:schemas-upnp-org:control-1-0"@)]),
        XmlWriteView::Start("errorCode"@, Seq::empty()),
        XmlWriteView::Text(int_to_decimal(code)),
        XmlWriteView::End("errorCode"@),
        XmlWriteView::Start("errorDescription"@, Seq::empty()),
        XmlWriteView::Text(description),
        XmlWriteView::End("errorDescription"@),
        XmlWriteView::End("UPnPError"@),
        XmlWriteView::End("detail"@),
        XmlWriteView::End("s:Fault"@),
        XmlWriteView::End("s:Body"@),
        XmlWriteView::End("s:Envelope"@),
    ]
}

/// The text of a response envelope.
pub open spec fn response_text(action: Seq<char>, rs: Seq<(Seq<char>, Seq<char>)>, ns: Seq<char>) -> Seq<char> {
    xml_written(response_events(action, rs, ns))
}

/// The text of a fault envelope.
pub open spec fn fault_text(code: int, description: Seq<char>) -> Seq<char> {
    xml_written(fault_events(code, description))
}

/// Build a SOAP response envelope from action name and return values.
///
/// The response element is the action name + "Response" suffix.
pub fn build_response(action: &str, ret_values: &[(String, String)], namespace: &str) -> (r: String)
    ensures
        r@ == response_text(action@, pairs_view(ret_values@), namespace@),
{
    let ghost rs = pairs_view(ret_values@);
    let mut response_name = to_owned_string(action);
    push_str(&mut response_name, "Response");
    let mut events: Vec<XmlWrite> = Vec::new();
    events.push(start_tag_with("s:Envelope", "xmlns:s", "http://schemas.xmlsoap.org/soap/envelope/"));
    events.push(start_tag_with("s:Body", "xmlns:u", namespace));
    events.push(start_tag_with(response_name.as_str(), "xmlns:u", namespace));
    let ghost head = writes_view(events@);
    assert(head =~= seq![
        XmlWriteView::Start("s:Envelope"@, seq![("xmlns:s"@, envelope_namespace())]),
        XmlWriteView::Start("s:Body"@, seq![("xmlns:u"@, namespace@)]),
        XmlWriteView::Start(action@ + "Response"@, seq![("xmlns:u"@, namespace@)]),
    ]);
    let mut i: usize = 0;
    assert(rs.subrange(0, 0) =~= Seq::<(Seq<char>, Seq<char>)>::empty());
    while i < ret_values.len()
        invariant
            rs == pairs_view(ret_values@),
            i <= ret_values@.len(),
            writes_view(events@) == head + return_events(rs.subrange(0, i as int)),
        decreases ret_values.len() - i,
    {
        let ghost before = writes_view(events@);
        let key = ret_values[i].0.as_str();
        let value = ret_values[i].1.as_str();
        events.push(start_tag(key));
        events.push(text_event(value));
        events.push(end_tag(key));
        proof {
            let sub = rs.subrange(0, i + 1);
            assert(sub.drop_last() =~= rs.subrange(0, i as int));
            assert(sub.last() == rs[i as int]);
            assert(writes_view(events@) =~= before + seq![
                XmlWriteView::Start(key@, Seq::empty()),
                XmlWriteView::Text(value@),
                XmlWriteView::End(key@),
            ]);
        }
        i = i + 1;
    }
    let ghost body = writes_view(events@);
    events.push(end_tag(response_name.as_str()));
    events.push(end_tag("s:Body"));
    events.push(end_tag("s:Envelope"));
    assert(rs.subrange(0, rs.len() as int) =~= rs);
    assert(writes_view(events@) =~= response_events(action@, rs, namespace@));
    write_xml(&events)
}

/// Build a SOAP fault envelope for error responses.
pub fn build_fault(error_code: i32, description: &str) -> (r: String)
    ensures
        r@ == fault_text(error_code as int, description@),
{
    let code = i64_to_string(error_code as i64);
    let mut events: Vec<XmlWrite> = Vec::new();
    events.push(start_tag_with("s:Envelope", "xmlns:s", "http://schemas.xmlsoap.org/soap/envelope/"));
    events.push(start_tag("s:Body"));
    events.push(start_tag("s:Fault"));
    events.push(start_tag("faultcode"));
    events.push(text_event("s:Client"));
    events.push(end_tag("faultcode"));
    events.push(start_tag("faultstring"));
    events.push(text_event("UPnPError"));
    events.push(end_tag("faultstring"));
    events.push(start_tag("detail"));
    events.push(start_tag_with("UPnPError", "xmlns", "urn:schemas-upnp-org:control-1-0"));
    events.push(start_tag("errorCode"));
    events.push(text_event(code.as_str()));
    events.push(end_tag("errorCode"));
    events.push(start_tag("errorDescription"));
    events.push(text_event(description));
    events.push(end_tag("errorDescription"));
    events.push(end_tag("UPnPError"));
    events.push(end_tag("detail"));
    events.push(end_tag("s:Fault"));
    events.push(end_tag("s:Body"));
    events.push(end_tag("s:Envelope"));
    assert(writes_view(events@) =~= fault_events(error_code as int, description@));
    write_xml(&events)
}

// ---------------------------------------------------------------------------
// Dispatch
// ---------------------------------------------------------------------------

/// The view of an action's outcome.
pub open spec fn outcome_view(o: Result<ActionArgs, Error>) -> Result<Seq<(Seq<char>, Seq<char>)>, Error> {
    match o {
        Ok(a) => Ok(a@),
        Err(e) => Err(e),
    }
}

/// The reply to an executed action: the response envelope with its OUT
/// arguments, or a fault carrying the action's error code and "Action failed".
pub open spec fn reply_text(action: Seq<char>, ns: Seq<char>, outcome: Result<Seq<(Seq<char>, Seq<char>)>, Error>) -> Seq<char> {
    match outcome {
        Ok(rs) => response_text(action, rs, ns),
        Err(e) => fault_text(upnp_error_code(e) as int, "Action failed"@),
    }
}

/// The reply to an action that was executed with the given outcome.
pub fn soap_reply(action: &str, namespace: &str, outcome: Result<ActionArgs, Error>) -> (r: String)
    ensures
        r@ == reply_text(action@, namespace@, outcome_view(outcome)),
{
    match outcome {
        Ok(ret_values) => {
            let pairs = ret_values.into_pairs();
            build_response(action, pairs.as_slice(), namespace)
        },
        Err(e) => build_fault(e.code() as i32, "Action failed"),
    }
}

/// The reply a service gives to a control request: a fault with the parse
/// error and "Invalid request" when the request is refused; 401 "Invalid
/// Action" when it names another service; 501 "Not Implemented" when no action
/// of that name is registered; else the reply to an outcome of the action
/// registered first under that name, run on the request's arguments. Every
/// reply is sent with status 200.
pub open spec fn request_reply_ok(
    m: ActionMap,
    request: Result<(Seq<char>, Seq<char>, Seq<(Seq<char>, Seq<char>)>), Error>,
    reply: Seq<char>,
) -> bool {
    match request {
        Err(e) => reply == fault_text(upnp_error_code(e) as int, "Invalid request"@),
        Ok((ns, name, args)) => if ns != full_namespace_spec(m.service()) {
            reply == fault_text(401, "Invalid Action"@)
        } else if !m.names().contains(name) {
            reply == fault_text(501, "Not Implemented"@)
        } else {
            replies_with_first(m, ns, name, args, reply)
        },
    }
}

/// `reply` answers the request with an outcome of the action registered first
/// in `m` under `name`, run on `args`.
pub open spec fn replies_with_first(
    m: ActionMap,
    ns: Seq<char>,
    name: Seq<char>,
    args: Seq<(Seq<char>, Seq<char>)>,
    reply: Seq<char>,
) -> bool {
    exists|i: int, o: Result<ActionArgs, Error>|
        first_position(m.names(), name, i) && #[trigger] m.registered()[i].outcome(args, o) && reply == reply_text(
            name,
            ns,
            outcome_view(o),
        )
}

/// Answers one control request: parses it, checks its namespace, finds the
/// action and runs it.
pub fn handle_request(actions: &ActionMap, headers: &[(String, String)], body: &str) -> (r: String)
    ensures
        request_reply_ok(*actions, parse_request_spec(pairs_view(headers@), body@), r@),
{
    match parse_request(headers, body) {
        Err(e) => build_fault(e.code() as i32, "Invalid request"),
        Ok((ns, action_name, args)) => {
            let service_ns = actions.namespace();
            if !str_eq(ns.as_str(), service_ns.as_str()) {
                build_fault(401, "Invalid Action")
            } else {
                match actions.get(action_name.as_str()) {
                    None => build_fault(501, "Not Implemented"),
                    Some(action) => {
                        let outcome = action.execute(&args);
                        let r = soap_reply(action_name.as_str(), ns.as_str(), outcome);
                        proof {
                            let i = choose|i: int|
                                #[trigger] first_position(actions.names(), action_name@, i) && *action
                                    == actions.registered()[i];
                            assert(actions.registered()[i].outcome(args@, outcome));
                            assert(replies_with_first(*actions, ns@, action_name@, args@, r@));
                        }
                        r
                    },
                }
            }
        },
    }
}

// ---------------------------------------------------------------------------
// Handler
// ---------------------------------------------------------------------------

/// HTTP handler that processes SOAP requests for a single service.
///
/// Holds the service URL path, the service's action map behind a lock, and the
/// SERVER header value.
pub struct SoapHandler {
    path: &'static str,
    actions: Arc<RwLock<ActionMap, ActionMapLock>>,
    server_header: String,
}

impl SoapHandler {
    /// The URL path the handler serves.
    pub closed spec fn served_path(&self) -> &'static str {
        self.path
    }

    /// The shared action map.
    pub closed spec fn shared_actions(&self) -> Arc<RwLock<ActionMap, ActionMapLock>> {
        self.actions
    }

    /// The SERVER header value.
    pub closed spec fn server_value(&self) -> Seq<char> {
        self.server_header@
    }

    /// Create a new handler for the given path, action map, and server info.
    pub fn new(path: &'static str, actions: Arc<RwLock<ActionMap, ActionMapLock>>, server_header: String) -> (r: Self)
        ensures
            r.served_path() == path,
            r.server_value() == server_header@,
            r.shared_actions() == actions,
    {
        SoapHandler { path, actions, server_header }
    }

    /// The URL path the handler serves.
    pub fn path(&self) -> (r: &'static str)
        ensures
            r == self.served_path(),
    {
        self.path
    }

    /// The shared action map.
    pub fn actions(&self) -> (r: &Arc<RwLock<ActionMap, ActionMapLock>>)
        ensures
            *r == self.shared_actions(),
    {
        &self.actions
    }

    /// The SERVER header value sent with every reply.
    pub fn server_header(&self) -> (r: &str)
        ensures
            r@ == self.server_value(),
    {
        self.server_header.as_str()
    }

    /// The body of the reply to a control request (always sent with status
    /// 200), from the action map as it stands.
    pub fn respond(&self, headers: &[(String, String)], body: &str) -> (r: String)
        ensures
            exists|m: ActionMap|
                #[trigger] m.service() == self.shared_actions().pred().service && request_reply_ok(
                    m,
                    parse_request_spec(pairs_view(headers@), body@),
                    r@,
                ),
    {
        let h = self.actions.acquire_read();
        let r = handle_request(h.borrow(), headers, body);
        h.release_read();
        r
    }
}

} // verus!
