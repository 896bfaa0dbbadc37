//! Shared LastChange XML builder for UPnP AV services.
//!
//! All three services (AVTransport, ConnectionManager, RenderingControl)
//! generate identical LastChange XML — only the event namespace differs.
use vstd::prelude::*;

use crate::didl::escape_xml;
use crate::text::{push_str, to_owned_string};
use crate::types::upnp::pairs_view;
use crate::xml::escaped;

verus! {

broadcast use vstd::string::group_string_axioms;

/// The document sent when nothing changed: an empty `Event` element.
pub open spec fn empty_last_change(ns: Seq<char>) -> Seq<char> {
    "<?xml version=\"1.0\"?>\n<e:propertyset xmlns:e=\"urn:schemas-upnp-org:event-1-0\">\n  <e:property>\n    <LastChange>\n      <Event xmlns=\""@
        + ns + "\">\n      </Event>\n    </LastChange>\n  </e:property>\n</e:propertyset>"@
}

/// The start of a document that lists changes, up to the opening
/// `PropertyChange` tag.
pub open spec fn last_change_head(ns: Seq<char>) -> Seq<char> {
    "<?xml version=\"1.0\"?>\n<e:propertyset xmlns:e=\"urn:schemas-upnp-org:event-1-0\">\n  <e:property>\n    <LastChange>\n      <Event xmlns=\""@
        + ns + "\">\n        <PropertyChange>"@
}

/// The end of a document that lists changes.
pub open spec fn last_change_tail() -> Seq<char> {
    "</PropertyChange>\n      </Event>\n    </LastChange>\n  </e:property>\n</e:propertyset>"@
}

/// One changed variable: `<name>value</name>`, name and value escaped.
pub open spec fn change_entry(name: Seq<char>, value: Seq<char>) -> Seq<char> {
    "<"@ + escaped(name) + ">"@ + escaped(value) + "</"@ + escaped(name) + ">"@
}

/// The changed variables, one entry each, in order.
pub open spec fn change_entries(ev: Seq<(Seq<char>, Seq<char>)>) -> Seq<char>
    decreases ev.len(),
{
    if ev.len() == 0 {
        Seq::empty()
    } else {
        change_entries(ev.drop_last()) + change_entry(ev.last().0, ev.last().1)
    }
}

/// The LastChange document for the given event namespace and changes.
pub open spec fn last_change_text(ns: Seq<char>, ev: Seq<(Seq<char>, Seq<char>)>) -> Seq<char> {
    if ev.len() == 0 {
        empty_last_change(ns)
    } else {
        last_change_head(ns) + change_entries(ev) + last_change_tail()
    }
}

/// Build the GENA LastChange XML propertyset.
///
/// - `event_namespace`: the metadata namespace for this service
///   - AVTransport: `urn:schemas-upnp-org:metadata-1-0/AVT/`
///   - ConnectionManager: `urn:schemas-upnp-org:metadata-1-0/CM/`
///   - RenderingControl: `urn:schemas-upnp-org:metadata-1-0/RC/`
/// - `evented`: list of (state_variable_name, value) pairs that changed
///
/// Returns a complete `<e:propertyset>` document per UPnP GENA spec.
pub fn build_last_change(event_namespace: &str, evented: &[(String, String)]) -> (r: String)
    ensures
        r@ == last_change_text(event_namespace@, pairs_view(evented@)),
{
    let ghost ev = pairs_view(evented@);
    if evented.len() == 0 {
        let mut xml = to_owned_string(
            "<?xml version=\"1.0\"?>\n<e:propertyset xmlns:e=\"urn:schemas-upnp-org:event-1-0\">\n  <e:property>\n    <LastChange>\n      <Event xmlns=\"",
        );
        push_str(&mut xml, event_namespace);
        push_str(&mut xml, "\">\n      </Event>\n    </LastChange>\n  </e:property>\n</e:propertyset>");
        return xml;
    }
    let mut xml = to_owned_string(
        "<?xml version=\"1.0\"?>\n<e:propertyset xmlns:e=\"urn:schemas-upnp-org:event-1-0\">\n  <e:property>\n    <LastChange>\n      <Event xmlns=\"",
    );
    push_str(&mut xml, event_namespace);
    push_str(&mut xml, "\">\n        <PropertyChange>");
    let ghost head = xml@;
    let mut i: usize = 0;
    assert(ev.subrange(0, 0) =~= Seq::<(Seq<char>, Seq<char>)>::empty());
    while i < evented.len()
        invariant
            ev == pairs_view(evented@),
            i <= evented@.len(),
            xml@ == head + change_entries(ev.subrange(0, i as int)),
        decreases evented.len() - i,
    {
        let ghost before = xml@;
        let name = escape_xml(evented[i].0.as_str());
        let value = escape_xml(evented[i].1.as_str());
        push_str(&mut xml, "<");
        push_str(&mut xml, name.as_str());
        push_str(&mut xml, ">");
        push_str(&mut xml, value.as_str());
        push_str(&mut xml, "</");
        push_str(&mut xml, name.as_str());
        push_str(&mut xml, ">");
        proof {
            let sub = ev.subrange(0, i + 1);
            assert(sub.drop_last() =~= ev.subrange(0, i as int));
            assert(sub.last() == ev[i as int]);
            assert(xml@ =~= before + change_entry(ev[i as int].0, ev[i as int].1));
        }
        i = i + 1;
    }
    assert(ev.subrange(0, ev.len() as int) =~= ev);
    push_str(&mut xml, "</PropertyChange>\n      </Event>\n    </LastChange>\n  </e:property>\n</e:propertyset>");
    xml
}

} // verus!
