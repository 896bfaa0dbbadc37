//! SSDP (Simple Service Discovery Protocol) — UPnP 2.0 discovery layer.
//!
//! The messages (NOTIFY alive, byebye and update, and the responses to
//! M-SEARCH), the reading of M-SEARCH requests, and the timing decisions of
//! the announcement and response loops. Sending and receiving datagrams on
//! 239.255.255.250:1900 is left to the application.
use vstd::prelude::*;

use crate::config::SsdpDevice;
use crate::text::{
    eq_ignore_ascii_case, eq_ignore_ascii_case_spec, lines, lines_of, nat_to_decimal, parse_u64,
    parse_unsigned, push_decimal, push_str, split_once, split_once_at, str_eq, to_owned_string, trim,
    trimmed, words, words_of,
};
use crate::types::upnp::{full_namespace_spec, pairs_view, Services};

verus! {

broadcast use vstd::string::group_string_axioms;

// ---------------------------------------------------------------------------
// Messages
// ---------------------------------------------------------------------------

/// The HOST header line: the multicast address and SSDP port.
pub open spec fn host_line(d: SsdpDevice) -> Seq<char> {
    "HOST: "@ + d.ssdp_multicast_addr@ + ":"@ + nat_to_decimal(d.ssdp_port as nat) + "\r\n"@
}

/// The SEARCHPORT header line, sent only when the SSDP port is not 1900.
pub open spec fn searchport_line(d: SsdpDevice) -> Seq<char> {
    if d.ssdp_port != 1900 {
        "SEARCHPORT.UPNP.ORG: "@ + nat_to_decimal(d.ssdp_port as nat) + "\r\n"@
    } else {
        Seq::empty()
    }
}

/// The BOOTID and CONFIGID header lines.
pub open spec fn id_lines(d: SsdpDevice) -> Seq<char> {
    "BOOTID.UPNP.ORG: "@ + nat_to_decimal(d.boot_id as nat) + "\r\nCONFIGID.UPNP.ORG: "@ + nat_to_decimal(
        d.config_id as nat,
    ) + "\r\n"@
}

/// A unique service name: the device UDN and a notification type.
pub open spec fn usn_of(d: SsdpDevice, nt: Seq<char>) -> Seq<char> {
    "uuid:"@ + d.udn@ + "::"@ + nt
}

/// A NOTIFY * update message (with NEXTBOOTID).
pub open spec fn update_text(d: SsdpDevice, nt: Seq<char>, usn: Seq<char>, new_boot_id: u32) -> Seq<char> {
    "NOTIFY * HTTP/1.1\r\n"@ + host_line(d) + "NT: "@ + nt + "\r\nNTS: ssdp:update\r\nSERVER: "@
        + d.server_string@ + "\r\nUSN: "@ + usn + "\r\nNEXTBOOTID.UPNP.ORG: "@ + nat_to_decimal(
        new_boot_id as nat,
    ) + "\r\n\r\n"@
}

/// The NOTIFY * alive message for upnp:rootdevice, with CACHE-CONTROL and
/// LOCATION.
pub open spec fn rootdevice_alive_text(d: SsdpDevice) -> Seq<char> {
    "NOTIFY * HTTP/1.1\r\n"@ + host_line(d) + "CACHE-CONTROL: max-age="@ + nat_to_decimal(d.max_age as nat)
        + "\r\nLOCATION: "@ + d.description_url@ + "\r\nNT: upnp:rootdevice\r\nNTS: ssdp:alive\r\nSERVER: "@
        + d.server_string@ + "\r\nUSN: uuid:"@ + d.udn@ + "::upnp:rootdevice\r\n"@ + id_lines(d)
        + searchport_line(d) + "\r\n"@
}

/// A NOTIFY * alive message for a device-type or service-type NT, without
/// CACHE-CONTROL or LOCATION.
pub open spec fn nt_alive_text(d: SsdpDevice, nt: Seq<char>, usn: Seq<char>) -> Seq<char> {
    "NOTIFY * HTTP/1.1\r\n"@ + host_line(d) + "NT: "@ + nt + "\r\nNTS: ssdp:alive\r\nSERVER: "@
        + d.server_string@ + "\r\nUSN: "@ + usn + "\r\n"@ + id_lines(d) + searchport_line(d) + "\r\n"@
}

/// A NOTIFY * byebye message, without CACHE-CONTROL, LOCATION, BOOTID or
/// CONFIGID.
pub open spec fn byebye_text(d: SsdpDevice, nt: Seq<char>, usn: Seq<char>) -> Seq<char> {
    "NOTIFY * HTTP/1.1\r\n"@ + host_line(d) + "NT: "@ + nt + "\r\nNTS: ssdp:byebye\r\nSERVER: "@
        + d.server_string@ + "\r\nUSN: "@ + usn + "\r\n\r\n"@
}

/// The service types of a device, one per service, in order.
pub open spec fn service_types(services: Seq<Services>) -> Seq<Seq<char>> {
    services.map_values(|s: Services| full_namespace_spec(s))
}

/// The alive messages: root device, device type, then one per service.
pub open spec fn alive_messages(d: SsdpDevice) -> Seq<Seq<char>> {
    seq![rootdevice_alive_text(d), nt_alive_text(d, d.device_type@, usn_of(d, d.device_type@))]
        + service_types(d.services@).map_values(|ns: Seq<char>| nt_alive_text(d, ns, usn_of(d, ns)))
}

/// The byebye messages: root device, device type, then one per service.
pub open spec fn byebye_messages(d: SsdpDevice) -> Seq<Seq<char>> {
    seq![
        byebye_text(d, "upnp:rootdevice"@, usn_of(d, "upnp:rootdevice"@)),
        byebye_text(d, d.device_type@, usn_of(d, d.device_type@)),
    ] + service_types(d.services@).map_values(|ns: Seq<char>| byebye_text(d, ns, usn_of(d, ns)))
}

/// The update messages: root device, device type, then one per service.
pub open spec fn update_messages(d: SsdpDevice, new_boot_id: u32) -> Seq<Seq<char>> {
    seq![
        update_text(d, "upnp:rootdevice"@, usn_of(d, "upnp:rootdevice"@), new_boot_id),
        update_text(d, d.device_type@, usn_of(d, d.device_type@), new_boot_id),
    ] + service_types(d.services@).map_values(
        |ns: Seq<char>| update_text(d, ns, usn_of(d, ns), new_boot_id),
    )
}

fn push_host(msg: &mut String, device: &SsdpDevice)
    ensures
        final(msg)@ == old(msg)@ + host_line(*device),
{
    push_str(msg, "HOST: ");
    push_str(msg, device.ssdp_multicast_addr.as_str());
    push_str(msg, ":");
    push_decimal(msg, device.ssdp_port as u64);
    push_str(msg, "\r\n");
}

fn push_ids_and_port(msg: &mut String, device: &SsdpDevice)
    ensures
        final(msg)@ == old(msg)@ + id_lines(*device) + searchport_line(*device),
{
    push_str(msg, "BOOTID.UPNP.ORG: ");
    push_decimal(msg, device.boot_id as u64);
    push_str(msg, "\r\nCONFIGID.UPNP.ORG: ");
    push_decimal(msg, device.config_id as u64);
    push_str(msg, "\r\n");
    if device.ssdp_port != 1900 {
        push_str(msg, "SEARCHPORT.UPNP.ORG: ");
        push_decimal(msg, device.ssdp_port as u64);
        push_str(msg, "\r\n");
    }
}

/// A unique service name: the device UDN and a notification type.
pub fn usn(device: &SsdpDevice, nt: &str) -> (r: String)
    ensures
        r@ == usn_of(*device, nt@),
{
    let mut s = to_owned_string("uuid:");
    push_str(&mut s, device.udn.as_str());
    push_str(&mut s, "::");
    push_str(&mut s, nt);
    s
}

/// Build a NOTIFY * update message.
pub fn build_update_notification(device: &SsdpDevice, nt: &str, usn: &str, new_boot_id: u32) -> (r: String)
    ensures
        r@ == update_text(*device, nt@, usn@, new_boot_id),
{
    let mut msg = to_owned_string("NOTIFY * HTTP/1.1\r\n");
    push_host(&mut msg, device);
    push_str(&mut msg, "NT: ");
    push_str(&mut msg, nt);
    push_str(&mut msg, "\r\nNTS: ssdp:update\r\nSERVER: ");
    push_str(&mut msg, device.server_string.as_str());
    push_str(&mut msg, "\r\nUSN: ");
    push_str(&mut msg, usn);
    push_str(&mut msg, "\r\nNEXTBOOTID.UPNP.ORG: ");
    push_decimal(&mut msg, new_boot_id as u64);
    push_str(&mut msg, "\r\n\r\n");
    msg
}

/// Build a NOTIFY * alive message for upnp:rootdevice.
///
/// Per UPnP 2.0 spec section 3.2: rootdevice alive MUST include
/// CACHE-CONTROL and LOCATION headers.
pub fn build_rootdevice_alive(device: &SsdpDevice) -> (r: String)
    ensures
        r@ == rootdevice_alive_text(*device),
{
    let mut msg = to_owned_string("NOTIFY * HTTP/1.1\r\n");
    push_host(&mut msg, device);
    push_str(&mut msg, "CACHE-CONTROL: max-age=");
    push_decimal(&mut msg, device.max_age as u64);
    push_str(&mut msg, "\r\nLOCATION: ");
    push_str(&mut msg, device.description_url.as_str());
    push_str(&mut msg, "\r\nNT: upnp:rootdevice\r\nNTS: ssdp:alive\r\nSERVER: ");
    push_str(&mut msg, device.server_string.as_str());
    push_str(&mut msg, "\r\nUSN: uuid:");
    push_str(&mut msg, device.udn.as_str());
    push_str(&mut msg, "::upnp:rootdevice\r\n");
    push_ids_and_port(&mut msg, device);
    push_str(&mut msg, "\r\n");
    msg
}

/// Build a NOTIFY * alive message for a device-type or service-type NT.
///
/// Per UPnP 2.0 spec section 3.2: device-type and service-type alive
/// MUST NOT include CACHE-CONTROL or LOCATION headers.
pub fn build_nt_alive(device: &SsdpDevice, nt: &str, usn: &str) -> (r: String)
    ensures
        r@ == nt_alive_text(*device, nt@, usn@),
{
    let mut msg = to_owned_string("NOTIFY * HTTP/1.1\r\n");
    push_host(&mut msg, device);
    push_str(&mut msg, "NT: ");
    push_str(&mut msg, nt);
    push_str(&mut msg, "\r\nNTS: ssdp:alive\r\nSERVER: ");
    push_str(&mut msg, device.server_string.as_str());
    push_str(&mut msg, "\r\nUSN: ");
    push_str(&mut msg, usn);
    push_str(&mut msg, "\r\n");
    push_ids_and_port(&mut msg, device);
    push_str(&mut msg, "\r\n");
    msg
}

/// Build a NOTIFY * byebye message.
///
/// Per UPnP 2.0 spec section 3.3: byebye MUST NOT include CACHE-CONTROL,
/// LOCATION, BOOTID, or CONFIGID headers.
pub fn build_byebye_notification(device: &SsdpDevice, nt: &str, usn: &str) -> (r: String)
    ensures
        r@ == byebye_text(*device, nt@, usn@),
{
    let mut msg = to_owned_string("NOTIFY * HTTP/1.1\r\n");
    push_host(&mut msg, device);
    push_str(&mut msg, "NT: ");
    push_str(&mut msg, nt);
    push_str(&mut msg, "\r\nNTS: ssdp:byebye\r\nSERVER: ");
    push_str(&mut msg, device.server_string.as_str());
    push_str(&mut msg, "\r\nUSN: ");
    push_str(&mut msg, usn);
    push_str(&mut msg, "\r\n\r\n");
    msg
}

/// Which NOTIFY message a notification list is made of.
pub enum NotifyKind {
    Alive,
    Byebye,
    Update(u32),
}

/// The message of the given kind for a device-type or service-type NT.
pub open spec fn nt_message(d: SsdpDevice, kind: NotifyKind, nt: Seq<char>) -> Seq<char> {
    match kind {
        NotifyKind::Alive => nt_alive_text(d, nt, usn_of(d, nt)),
        NotifyKind::Byebye => byebye_text(d, nt, usn_of(d, nt)),
        NotifyKind::Update(b) => update_text(d, nt, usn_of(d, nt), b),
    }
}

fn build_nt_message(device: &SsdpDevice, kind: &NotifyKind, nt: &str) -> (r: String)
    ensures
        r@ == nt_message(*device, *kind, nt@),
{
    let u = usn(device, nt);
    match kind {
        NotifyKind::Alive => build_nt_alive(device, nt, u.as_str()),
        NotifyKind::Byebye => build_byebye_notification(device, nt, u.as_str()),
        NotifyKind::Update(b) => build_update_notification(device, nt, u.as_str(), *b),
    }
}

/// Appends one message per service of the device.
fn push_service_messages(msgs: &mut Vec<String>, device: &SsdpDevice, kind: &NotifyKind)
    ensures
        final(msgs)@.map_values(|m: String| m@) == old(msgs)@.map_values(|m: String| m@) + service_types(
            device.services@,
        ).map_values(|ns: Seq<char>| nt_message(*device, *kind, ns)),
{
    let ghost start = msgs@.map_values(|m: String| m@);
    let ghost all = service_types(device.services@).map_values(|ns: Seq<char>| nt_message(*device, *kind, ns));
    let mut i: usize = 0;
    while i < device.services.len()
        invariant
            i <= device.services@.len(),
            all == service_types(device.services@).map_values(|ns: Seq<char>| nt_message(*device, *kind, ns)),
            msgs@.map_values(|m: String| m@) == start + all.subrange(0, i as int),
        decreases device.services.len() - i,
    {
        let ns = device.services[i].full_namespace();
        let m = build_nt_message(device, kind, ns.as_str());
        let ghost before = msgs@.map_values(|m: String| m@);
        msgs.push(m);
        assert(msgs@.map_values(|m: String| m@) =~= before.push(all[i as int]));
        assert(all.subrange(0, i + 1) =~= all.subrange(0, i as int).push(all[i as int]));
        i = i + 1;
    }
    assert(all.subrange(0, all.len() as int) =~= all);
}

/// Build all NOTIFY * alive messages for a device.
///
/// Returns one message per notification type:
/// 1. root device: uuid::<UDN>::upnp:rootdevice (with CACHE-CONTROL + LOCATION)
/// 2. device type: uuid::<UDN>::<device_type> (without CACHE-CONTROL + LOCATION)
/// 3. each service: uuid::<UDN>::<service_namespace>:<version> (without CACHE-CONTROL + LOCATION)
pub fn build_alive_notifications(device: &SsdpDevice) -> (r: Vec<String>)
    ensures
        r@.map_values(|m: String| m@) == alive_messages(*device),
{
    let mut msgs: Vec<String> = Vec::new();
    msgs.push(build_rootdevice_alive(device));
    msgs.push(build_nt_message(device, &NotifyKind::Alive, device.device_type.as_str()));
    push_service_messages(&mut msgs, device, &NotifyKind::Alive);
    assert(msgs@.map_values(|m: String| m@) =~= alive_messages(*device));
    msgs
}

/// Build all NOTIFY * byebye messages for a device.
///
/// Returns one message per notification type (same as alive).
/// Per spec section 3.3: byebye MUST NOT include CACHE-CONTROL, LOCATION, BOOTID, or CONFIGID.
pub fn build_byebye_notifications(device: &SsdpDevice) -> (r: Vec<String>)
    ensures
        r@.map_values(|m: String| m@) == byebye_messages(*device),
{
    let mut msgs: Vec<String> = Vec::new();
    msgs.push(build_nt_message(device, &NotifyKind::Byebye, "upnp:rootdevice"));
    msgs.push(build_nt_message(device, &NotifyKind::Byebye, device.device_type.as_str()));
    push_service_messages(&mut msgs, device, &NotifyKind::Byebye);
    assert(msgs@.map_values(|m: String| m@) =~= byebye_messages(*device));
    msgs
}

/// Build all NOTIFY * update messages for a device with a new boot ID.
///
/// Returns one message per notification type with NEXTBOOTID.UPNP.ORG header.
pub fn build_update_notifications(device: &SsdpDevice, new_boot_id: u32) -> (r: Vec<String>)
    ensures
        r@.map_values(|m: String| m@) == update_messages(*device, new_boot_id),
{
    let kind = NotifyKind::Update(new_boot_id);
    let mut msgs: Vec<String> = Vec::new();
    msgs.push(build_nt_message(device, &kind, "upnp:rootdevice"));
    msgs.push(build_nt_message(device, &kind, device.device_type.as_str()));
    push_service_messages(&mut msgs, device, &kind);
    assert(msgs@.map_values(|m: String| m@) =~= update_messages(*device, new_boot_id));
    msgs
}

// ---------------------------------------------------------------------------
// M-SEARCH
// ---------------------------------------------------------------------------

/// The headers of the lines before the first empty line: each line holding a
/// `:` gives (name, value), both trimmed; other lines are skipped.
pub open spec fn header_lines(ls: Seq<Seq<char>>) -> Seq<(Seq<char>, Seq<char>)>
    decreases ls.len(),
{
    if ls.len() == 0 || ls[0].len() == 0 {
        Seq::empty()
    } else {
        match split_once_at(ls[0], ':') {
            Some((k, v)) => seq![(trimmed(k), trimmed(v))] + header_lines(ls.drop_first()),
            None => header_lines(ls.drop_first()),
        }
    }
}

/// What `parse_msearch_request` gives for a text: `None` unless its first
/// line has at least three words, the first `M-SEARCH` and the third
/// `HTTP/1.1`; else the headers that follow.
pub open spec fn msearch_headers(text: Seq<char>) -> Option<Seq<(Seq<char>, Seq<char>)>> {
    let ls = lines_of(text);
    if ls.len() == 0 {
        None
    } else {
        let parts = words_of(ls[0]);
        if parts.len() < 3 || parts[0] != "M-SEARCH"@ || parts[2] != "HTTP/1.1"@ {
            None
        } else {
            Some(header_lines(ls.drop_first()))
        }
    }
}

/// `std::str::from_utf8`: the text of `data` when it is valid UTF-8.
#[verifier::external_body]
fn utf8_text(data: &[u8]) -> (r: Option<String>)
    ensures
        r is Some <==> vstd::utf8::valid_utf8(data@),
        r matches Some(s) ==> s@ == vstd::utf8::decode_utf8(data@),
{
    match std::str::from_utf8(data) {
        Ok(s) => Some(s.to_string()),
        Err(_) => None,
    }
}

/// Reads the headers of an M-SEARCH request text.
pub fn parse_msearch_text(text: &str) -> (r: Option<Vec<(String, String)>>)
    ensures
        match r {
            Some(h) => msearch_headers(text@) == Some(pairs_view(h@)),
            None => msearch_headers(text@) is None,
        },
{
    let ls = lines(text);
    let ghost lv = ls@.map_values(|x: String| x@);
    if ls.len() == 0 {
        return None;
    }
    assert(lv[0] == ls@[0]@);
    let parts = words(ls[0].as_str());
    let ghost pv = parts@.map_values(|x: String| x@);
    if parts.len() < 3 {
        return None;
    }
    assert(pv[0] == parts@[0]@ && pv[2] == parts@[2]@);
    if !str_eq(parts[0].as_str(), "M-SEARCH") || !str_eq(parts[2].as_str(), "HTTP/1.1") {
        return None;
    }
    let mut headers: Vec<(String, String)> = Vec::new();
    let mut i: usize = 1;
    let ghost rest = lv.drop_first();
    while i < ls.len()
        invariant_except_break
            pairs_view(headers@) + header_lines(lv.subrange(i as int, lv.len() as int)) == header_lines(rest),
        invariant
            lv == ls@.map_values(|x: String| x@),
            rest == lv.drop_first(),
            1 <= i <= ls@.len(),
        ensures
            pairs_view(headers@) == header_lines(rest),
        decreases ls.len() - i,
    {
        let ghost tail = lv.subrange(i as int, lv.len() as int);
        assert(tail[0] == ls@[i as int]@);
        assert(tail.drop_first() =~= lv.subrange(i + 1, lv.len() as int));
        let line = ls[i].as_str();
        if line.unicode_len() == 0 {
            assert(pairs_view(headers@) + Seq::<(Seq<char>, Seq<char>)>::empty() =~= pairs_view(headers@));
            break;
        }
        let ghost before = pairs_view(headers@);
        match split_once(line, ':') {
            Some((key, value)) => {
                let k = trim(key.as_str());
                let v = trim(value.as_str());
                let ghost entry = (k@, v@);
                headers.push((k, v));
                assert(pairs_view(headers@) =~= before.push(entry));
                assert(before.push(entry) + header_lines(tail.drop_first()) =~= before + (seq![entry]
                    + header_lines(tail.drop_first())));
            },
            None => {},
        }
        i = i + 1;
    }
    proof {
        if i == ls.len() {
            assert(lv.subrange(i as int, lv.len() as int) =~= Seq::<Seq<char>>::empty());
        }
        assert(rest =~= lv.subrange(1, lv.len() as int));
    }
    Some(headers)
}

/// Parse an M-SEARCH request and return headers.
///
/// Returns None if the request is not valid UTF-8 or not a valid
/// M-SEARCH * HTTP/1.1.
pub fn parse_msearch_request(data: &[u8]) -> (r: Option<Vec<(String, String)>>)
    ensures
        !vstd::utf8::valid_utf8(data@) ==> r is None,
        vstd::utf8::valid_utf8(data@) ==> match r {
            Some(h) => msearch_headers(vstd::utf8::decode_utf8(data@)) == Some(pairs_view(h@)),
            None => msearch_headers(vstd::utf8::decode_utf8(data@)) is None,
        },
{
    match utf8_text(data) {
        Some(text) => parse_msearch_text(text.as_str()),
        None => None,
    }
}

/// The value of the first header named `name` up to ASCII case.
pub open spec fn header_lookup(headers: Seq<(Seq<char>, Seq<char>)>, name: Seq<char>) -> Option<Seq<char>>
    decreases headers.len(),
{
    if headers.len() == 0 {
        None
    } else if eq_ignore_ascii_case_spec(headers[0].0, name) {
        Some(headers[0].1)
    } else {
        header_lookup(headers.drop_first(), name)
    }
}

/// Extract a header value by name (case-insensitive).
pub fn get_header<'a>(headers: &'a [(String, String)], name: &str) -> (r: Option<&'a str>)
    ensures
        match r {
            Some(v) => header_lookup(pairs_view(headers@), name@) == Some(v@),
            None => header_lookup(pairs_view(headers@), name@) is None,
        },
{
    let ghost hv = pairs_view(headers@);
    let mut i: usize = 0;
    assert(hv.subrange(0, hv.len() as int) =~= hv);
    while i < headers.len()
        invariant
            hv == pairs_view(headers@),
            i <= headers@.len(),
            header_lookup(hv, name@) == header_lookup(hv.subrange(i as int, hv.len() as int), name@),
        decreases headers.len() - i,
    {
        let ghost rest = hv.subrange(i as int, hv.len() as int);
        if eq_ignore_ascii_case(headers[i].0.as_str(), name) {
            assert(rest[0] == hv[i as int]);
            return Some(headers[i].1.as_str());
        }
        assert(rest.drop_first() =~= hv.subrange(i + 1, hv.len() as int));
        i = i + 1;
    }
    None
}

/// What the listener does with a request's headers: `None` (ignore) unless
/// MAN is `"ssdp:discover"` (quoted) and MX (default 0) is a whole number
/// from 0 to 5; else the search target (ST, default empty) and MX.
pub open spec fn msearch_target_spec(headers: Seq<(Seq<char>, Seq<char>)>) -> Option<(Seq<char>, u64)> {
    if header_lookup(headers, "MAN"@) != Some("\"ssdp:discover\""@) {
        None
    } else {
        let st = match header_lookup(headers, "ST"@) {
            Some(v) => v,
            None => Seq::empty(),
        };
        let mx_text = match header_lookup(headers, "MX"@) {
            Some(v) => v,
            None => "0"@,
        };
        match parse_unsigned(mx_text, u64::MAX as nat) {
            Some(mx) => if mx <= 5 {
                Some((st, mx as u64))
            } else {
                None
            },
            None => None,
        }
    }
}

/// Validates an M-SEARCH request's headers: the search target and MX, or
/// `None` when the request is to be ignored.
pub fn msearch_target(headers: &[(String, String)]) -> (r: Option<(String, u64)>)
    ensures
        match r {
            Some((st, mx)) => msearch_target_spec(pairs_view(headers@)) == Some((st@, mx)),
            None => msearch_target_spec(pairs_view(headers@)) is None,
        },
{
    let man = get_header(headers, "MAN");
    let man_ok = match man {
        Some(v) => str_eq(v, "\"ssdp:discover\""),
        None => false,
    };
    if !man_ok {
        return None;
    }
    let st = match get_header(headers, "ST") {
        Some(v) => to_owned_string(v),
        None => String::new(),
    };
    let mx_str = match get_header(headers, "MX") {
        Some(v) => v,
        None => "0",
    };
    match parse_u64(mx_str) {
        Some(mx) => {
            if mx <= 5 {
                Some((st, mx))
            } else {
                None
            }
        },
        None => None,
    }
}

// ---------------------------------------------------------------------------
// Search responses
// ---------------------------------------------------------------------------

/// The USNs answering a search target: every notification type for
/// `ssdp:all`, the root device for `upnp:rootdevice`, the device type or a
/// service type when the target names it, else none.
pub open spec fn search_usns(d: SsdpDevice, st: Seq<char>) -> Seq<Seq<char>> {
    if st == "ssdp:all"@ {
        seq![usn_of(d, "upnp:rootdevice"@), usn_of(d, d.device_type@)] + service_types(d.services@).map_values(
            |ns: Seq<char>| usn_of(d, ns),
        )
    } else if st == "upnp:rootdevice"@ {
        seq![usn_of(d, "upnp:rootdevice"@)]
    } else if st == d.device_type@ {
        seq![usn_of(d, d.device_type@)]
    } else if service_types(d.services@).contains(st) {
        seq![usn_of(d, st)]
    } else {
        Seq::empty()
    }
}

/// One HTTP 200 OK response to an M-SEARCH request, echoing the ST.
pub open spec fn search_response_text(d: SsdpDevice, st: Seq<char>, usn: Seq<char>, date: Seq<char>) -> Seq<char> {
    "HTTP/1.1 200 OK\r\nCACHE-CONTROL: max-age="@ + nat_to_decimal(d.max_age as nat) + "\r\nDATE: "@ + date
        + "\r\nEXT:\r\nLOCATION: "@ + d.description_url@ + "\r\nSERVER: "@ + d.server_string@ + "\r\nST: "@ + st
        + "\r\nUSN: "@ + usn + "\r\n"@ + id_lines(d) + searchport_line(d) + "\r\n"@
}

fn build_search_response(device: &SsdpDevice, st: &str, usn: &str, date: &str) -> (r: String)
    ensures
        r@ == search_response_text(*device, st@, usn@, date@),
{
    let mut resp = to_owned_string("HTTP/1.1 200 OK\r\nCACHE-CONTROL: max-age=");
    push_decimal(&mut resp, device.max_age as u64);
    push_str(&mut resp, "\r\nDATE: ");
    push_str(&mut resp, date);
    push_str(&mut resp, "\r\nEXT:\r\nLOCATION: ");
    push_str(&mut resp, device.description_url.as_str());
    push_str(&mut resp, "\r\nSERVER: ");
    push_str(&mut resp, device.server_string.as_str());
    push_str(&mut resp, "\r\nST: ");
    push_str(&mut resp, st);
    push_str(&mut resp, "\r\nUSN: ");
    push_str(&mut resp, usn);
    push_str(&mut resp, "\r\n");
    push_ids_and_port(&mut resp, device);
    push_str(&mut resp, "\r\n");
    resp
}

fn matches_service(device: &SsdpDevice, st: &str) -> (r: bool)
    ensures
        r == service_types(device.services@).contains(st@),
{
    let mut i: usize = 0;
    while i < device.services.len()
        invariant
            i <= device.services@.len(),
            forall|j: int| 0 <= j < i ==> full_namespace_spec(#[trigger] device.services@[j]) != st@,
        decreases device.services.len() - i,
    {
        let ns = device.services[i].full_namespace();
        if str_eq(ns.as_str(), st) {
            assert(service_types(device.services@)[i as int] == st@);
            return true;
        }
        i = i + 1;
    }
    proof {
        if service_types(device.services@).contains(st@) {
            let j = choose|j: int| 0 <= j < service_types(device.services@).len() && service_types(device.services@)[j] == st@;
            assert(full_namespace_spec(device.services@[j]) == st@);
        }
    }
    false
}

/// The USNs answering a search target.
pub fn search_usn_list(device: &SsdpDevice, st: &str) -> (r: Vec<String>)
    ensures
        r@.map_values(|u: String| u@) == search_usns(*device, st@),
{
    let mut usns: Vec<String> = Vec::new();
    if str_eq(st, "ssdp:all") {
        usns.push(usn(device, "upnp:rootdevice"));
        usns.push(usn(device, device.device_type.as_str()));
        let ghost start = usns@.map_values(|u: String| u@);
        let ghost all = service_types(device.services@).map_values(|ns: Seq<char>| usn_of(*device, ns));
        let mut i: usize = 0;
        while i < device.services.len()
            invariant
                i <= device.services@.len(),
                all == service_types(device.services@).map_values(|ns: Seq<char>| usn_of(*device, ns)),
                usns@.map_values(|u: String| u@) == start + all.subrange(0, i as int),
            decreases device.services.len() - i,
        {
            let ns = device.services[i].full_namespace();
            let u = usn(device, ns.as_str());
            let ghost before = usns@.map_values(|u: String| u@);
            usns.push(u);
            assert(usns@.map_values(|u: String| u@) =~= before.push(all[i as int]));
            assert(all.subrange(0, i + 1) =~= all.subrange(0, i as int).push(all[i as int]));
            i = i + 1;
        }
        assert(all.subrange(0, all.len() as int) =~= all);
        assert(usns@.map_values(|u: String| u@) =~= search_usns(*device, st@));
    } else if str_eq(st, "upnp:rootdevice") {
        usns.push(usn(device, "upnp:rootdevice"));
        assert(usns@.map_values(|u: String| u@) =~= search_usns(*device, st@));
    } else if str_eq(st, device.device_type.as_str()) {
        usns.push(usn(device, device.device_type.as_str()));
        assert(usns@.map_values(|u: String| u@) =~= search_usns(*device, st@));
    } else if matches_service(device, st) {
        usns.push(usn(device, st));
        assert(usns@.map_values(|u: String| u@) =~= search_usns(*device, st@));
    } else {
        assert(usns@.map_values(|u: String| u@) =~= search_usns(*device, st@));
    }
    usns
}

/// The responses to an M-SEARCH for `st` dated `date`: one per matching USN,
/// in order (none when nothing matches).
pub open spec fn search_responses(d: SsdpDevice, st: Seq<char>, date: Seq<char>) -> Seq<Seq<char>> {
    search_usns(d, st).map_values(|u: Seq<char>| search_response_text(d, st, u, date))
}

/// Build HTTP 200 OK responses to an M-SEARCH request, with the given DATE.
///
/// Returns one response per matching USN. Per UPnP 2.0 spec section 3.6:
/// - ST header must echo the request ST value
/// - EXT header must be present with no value (no trailing space)
pub fn build_search_responses_at(device: &SsdpDevice, st: &str, date: &str) -> (r: Vec<String>)
    ensures
        r@.map_values(|m: String| m@) == search_responses(*device, st@, date@),
{
    let usns = search_usn_list(device, st);
    let ghost uv = usns@.map_values(|u: String| u@);
    let ghost all = search_responses(*device, st@, date@);
    let mut out: Vec<String> = Vec::new();
    let mut i: usize = 0;
    while i < usns.len()
        invariant
            uv == usns@.map_values(|u: String| u@),
            uv == search_usns(*device, st@),
            all == search_responses(*device, st@, date@),
            i <= uv.len(),
            out@.map_values(|m: String| m@) == all.subrange(0, i as int),
        decreases usns.len() - i,
    {
        assert(uv[i as int] == usns@[i as int]@);
        let resp = build_search_response(device, st, usns[i].as_str(), date);
        let ghost before = out@.map_values(|m: String| m@);
        out.push(resp);
        assert(out@.map_values(|m: String| m@) =~= before.push(all[i as int]));
        assert(all.subrange(0, i + 1) =~= all.subrange(0, i as int).push(all[i as int]));
        i = i + 1;
    }
    assert(all.subrange(0, all.len() as int) =~= all);
    out
}

/// `chrono::Utc::now().format(fmt).to_string()`: the current UTC time in the
/// given strftime format. What it returns depends on the clock.
#[verifier::external_body]
fn utc_now_formatted(fmt: &str) -> String
    requires
        fmt@ == "%a, %d %b %Y %H:%M:%S GMT"@,
{
    chrono::Utc::now().format(fmt).to_string()
}

/// Build HTTP 200 OK responses to an M-SEARCH request, dated now (RFC 1123).
pub fn build_search_responses(device: &SsdpDevice, st: &str) -> (r: Vec<String>)
    ensures
        exists|date: Seq<char>| r@.map_values(|m: String| m@) == #[trigger] search_responses(*device, st@, date),
{
    let date = utc_now_formatted("%a, %d %b %Y %H:%M:%S GMT");
    build_search_responses_at(device, st, date.as_str())
}

// ---------------------------------------------------------------------------
// Timing
// ---------------------------------------------------------------------------

/// `fastrand::u64(0..bound)`: a random number below `bound`.
#[verifier::external_body]
fn random_below(bound: u64) -> (r: u64)
    requires
        bound > 0,
    ensures
        r < bound,
{
    fastrand::u64(0..bound)
}

/// `fastrand::i64(low..=high)`: a random number from `low` to `high`.
#[verifier::external_body]
fn random_between(low: i64, high: i64) -> (r: i64)
    requires
        low <= high,
    ensures
        low <= r <= high,
{
    fastrand::i64(low..=high)
}

/// The delay before answering an M-SEARCH with the given MX: none for MX 0,
/// else a random number of milliseconds below (MX + 1) seconds.
pub fn response_delay_ms(mx: u64) -> (r: u64)
    requires
        mx <= 5,
    ensures
        mx == 0 ==> r == 0,
        r < (mx + 1) * 1000,
{
    if mx > 0 {
        random_below((mx + 1) * 1000)
    } else {
        0
    }
}

/// The random delay before each initial announcement set: 0 to 100 ms.
pub fn initial_delay_ms() -> (r: u64)
    ensures
        r <= 100,
{
    random_below(101)
}

/// The spread after initial announcement set `set` (0-based): 100 ms times
/// (set + 1).
pub fn spread_delay_ms(set: u64) -> (r: u64)
    requires
        set < 3,
    ensures
        r == 100 * (set + 1),
{
    100 * (set + 1)
}

/// The time between repeated announcements: half the max-age, plus or minus
/// a random jitter of up to a tenth of that.
pub fn announce_interval_secs(max_age: u32) -> (r: u64)
    ensures
        (max_age / 2) - (max_age / 2) / 10 <= r <= (max_age / 2) + (max_age / 2) / 10,
{
    let base: u64 = (max_age / 2) as u64;
    let jitter: i64 = (base as i64) / 10;
    let offset = random_between(-jitter, jitter);
    ((base as i64) + offset) as u64
}

/// What the announcement schedule does next.
pub enum AnnounceStep {
    /// Send one of the initial alive sets after a random delay of at most
    /// 100 ms, then wait `spread_ms` milliseconds (none after the last).
    Initial { spread_ms: u64 },
    /// Send a repeat alive set after the refresh interval.
    Repeat,
}

/// The next step of the announcement schedule once `sent` alive sets have
/// gone out: three initial sets, spread 100 ms and 200 ms apart, then repeats.
pub fn next_announce_step(sent: u64) -> (r: AnnounceStep)
    ensures
        sent < 2 ==> r == (AnnounceStep::Initial { spread_ms: (100 * (sent + 1)) as u64 }),
        sent == 2 ==> r == (AnnounceStep::Initial { spread_ms: 0 }),
        sent >= 3 ==> r == AnnounceStep::Repeat,
{
    if sent < 2 {
        AnnounceStep::Initial { spread_ms: spread_delay_ms(sent) }
    } else if sent == 2 {
        AnnounceStep::Initial { spread_ms: 0 }
    } else {
        AnnounceStep::Repeat
    }
}

} // verus!
