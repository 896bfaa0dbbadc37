//! Device description and SCPD documents.
//!
//! The device description is built from the device identity and its SSDP
//! settings; each service's SCPD document from its registered actions and
//! state variable definitions. Serving them over HTTP is left to the
//! embedding program.
use vstd::prelude::*;

use std::sync::Arc;

use vstd::rwlock::RwLock;

use crate::config::{Icon, SsdpDevice, UpnpDevice};
use crate::state::{StateSchema, StateStore, StateVariableName, StoreLock};
use crate::text::{nat_to_decimal, push_char, push_decimal, push_str, str_eq};
use crate::types::upnp::{
    event_url_spec, full_namespace_spec, scpd_url_spec, service_name_spec, strings_view,
    url_control_spec, value_text, ActionDefinition, ActionMap, ActionMapLock, ArgumentDefinition,
    Services,
};
use crate::xml::escaped;

verus! {

broadcast use vstd::string::group_string_axioms;

// ---------------------------------------------------------------------------
// Lines of XML
// ---------------------------------------------------------------------------

/// `<tag>content</tag>` and a line break, after `indent`.
pub open spec fn element_line(indent: Seq<char>, tag: Seq<char>, content: Seq<char>) -> Seq<char> {
    indent + seq!['<'] + tag + seq!['>'] + content + "</"@ + tag + ">\n"@
}

fn push_element(out: &mut String, indent: &str, tag: &str, content: &str)
    ensures
        final(out)@ == old(out)@ + element_line(indent@, tag@, content@),
{
    push_str(out, indent);
    push_char(out, '<');
    push_str(out, tag);
    push_char(out, '>');
    push_str(out, content);
    push_str(out, "</");
    push_str(out, tag);
    push_str(out, ">\n");
    assert(out@ =~= old(out)@ + element_line(indent@, tag@, content@));
}

fn push_element_escaped(out: &mut String, indent: &str, tag: &str, content: &str)
    ensures
        final(out)@ == old(out)@ + element_line(indent@, tag@, escaped(content@)),
{
    let e = escape_xml(content);
    push_element(out, indent, tag, e.as_str());
}

fn push_element_decimal(out: &mut String, indent: &str, tag: &str, n: u64)
    ensures
        final(out)@ == old(out)@ + element_line(indent@, tag@, nat_to_decimal(n as nat)),
{
    push_str(out, indent);
    push_char(out, '<');
    push_str(out, tag);
    push_char(out, '>');
    push_decimal(out, n);
    push_str(out, "</");
    push_str(out, tag);
    push_str(out, ">\n");
    assert(out@ =~= old(out)@ + element_line(indent@, tag@, nat_to_decimal(n as nat)));
}

/// The element line for an optional value (escaped when `esc`), nothing when
/// it is absent.
pub open spec fn opt_element(indent: Seq<char>, tag: Seq<char>, v: Option<String>, esc: bool) -> Seq<
    char,
> {
    match v {
        Some(x) => element_line(indent, tag, if esc { escaped(x@) } else { x@ }),
        None => Seq::empty(),
    }
}

fn push_opt_element(out: &mut String, indent: &str, tag: &str, v: &Option<String>, esc: bool)
    ensures
        final(out)@ == old(out)@ + opt_element(indent@, tag@, *v, esc),
{
    match v {
        Some(x) => {
            if esc {
                push_element_escaped(out, indent, tag, x.as_str());
            } else {
                push_element(out, indent, tag, x.as_str());
            }
        },
        None => {
            assert(out@ =~= old(out)@ + opt_element(indent@, tag@, *v, esc));
        },
    }
}

/// Escape XML special characters using quick-xml's built-in escape.
pub fn escape_xml(s: &str) -> (r: String)
    ensures
        r@ == escaped(s@),
{
    crate::didl::escape_xml(s)
}

// ---------------------------------------------------------------------------
// Device description
// ---------------------------------------------------------------------------

/// The `<icon>` element of an icon.
pub open spec fn icon_text(icon: Icon) -> Seq<char> {
    "        <icon>\n"@ + element_line("          "@, "mimetype"@, icon.mime_type@) + element_line(
        "          "@,
        "width"@,
        nat_to_decimal(icon.width as nat),
    ) + element_line("          "@, "height"@, nat_to_decimal(icon.height as nat)) + element_line(
        "          "@,
        "depth"@,
        nat_to_decimal(icon.depth as nat),
    ) + "          <url>icon.png</url>\n"@ + "        </icon>\n"@
}

/// The `<iconList>` of a device, nothing when it has no icon.
pub open spec fn icon_list_text(icon: Option<Icon>) -> Seq<char> {
    match icon {
        Some(i) => "    <iconList>\n"@ + icon_text(i) + "    </iconList>\n"@,
        None => Seq::empty(),
    }
}

/// The `<service>` entry of a service in the device description.
pub open spec fn service_entry_text(s: Services) -> Seq<char> {
    "      <service>\n"@ + element_line("        "@, "serviceType"@, full_namespace_spec(s))
        + element_line("        "@, "serviceId"@, "urn:upnp-org:serviceId:"@ + service_name_spec(s))
        + element_line("        "@, "SCPDURL"@, scpd_url_spec(s)) + element_line(
        "        "@,
        "controlURL"@,
        url_control_spec(s),
    ) + element_line("        "@, "eventSubURL"@, event_url_spec(s)) + "      </service>\n"@
}

/// The `<service>` entries of the services, in order.
pub open spec fn service_entries_text(s: Seq<Services>) -> Seq<char>
    decreases s.len(),
{
    if s.len() == 0 {
        Seq::empty()
    } else {
        service_entries_text(s.drop_last()) + service_entry_text(s.last())
    }
}

/// The identity lines of the `<device>` element.
pub open spec fn device_identity_text(u: UpnpDevice, s: SsdpDevice) -> Seq<char> {
    element_line("    "@, "deviceType"@, s.device_type@) + element_line("    "@, "UDN"@, "uuid:"@ + s.udn@)
        + element_line("    "@, "friendlyName"@, escaped(u.friendly_name@)) + element_line(
        "    "@,
        "manufacturer"@,
        escaped(u.manufacturer@),
    ) + opt_element("    "@, "manufacturerURL"@, u.manufacturer_url, false) + opt_element(
        "    "@,
        "modelDescription"@,
        u.model_description,
        true,
    )
}

/// The model lines of the `<device>` element.
pub open spec fn device_model_text(u: UpnpDevice) -> Seq<char> {
    element_line("    "@, "modelName"@, escaped(u.model_name@)) + element_line(
        "    "@,
        "modelNumber"@,
        escaped(u.model_number@),
    ) + opt_element("    "@, "modelURL"@, u.model_url, false) + opt_element(
        "    "@,
        "serialNumber"@,
        u.serial_number,
        false,
    )
}

/// The children of the `<device>` element.
pub open spec fn device_element_text(u: UpnpDevice, s: SsdpDevice) -> Seq<char> {
    device_identity_text(u, s) + device_model_text(u) + icon_list_text(u.icon) + "    <serviceList>\n"@
        + service_entries_text(s.services@) + "    </serviceList>\n"@
}

/// The device description document.
pub open spec fn description_text(u: UpnpDevice, s: SsdpDevice) -> Seq<char> {
    "<?xml version=\"1.0\"?>\n"@ + "<root xmlns=\"urn:schemas-upnp-org:device-1-0\" configId=\""@
        + nat_to_decimal(s.config_id as nat) + "\">\n"@ + "  <specVersion>\n"@
        + "    <major>2</major>\n"@ + "    <minor>0</minor>\n"@ + "  </specVersion>\n"@
        + "  <device>\n"@ + device_element_text(u, s) + "  </device>\n"@ + "</root>\n"@
}

fn push_icon(out: &mut String, icon: &Icon)
    ensures
        final(out)@ == old(out)@ + icon_text(*icon),
{
    push_str(out, "        <icon>\n");
    push_element(out, "          ", "mimetype", icon.mime_type.as_str());
    push_element_decimal(out, "          ", "width", icon.width as u64);
    push_element_decimal(out, "          ", "height", icon.height as u64);
    push_element_decimal(out, "          ", "depth", icon.depth as u64);
    push_str(out, "          <url>icon.png</url>\n");
    push_str(out, "        </icon>\n");
    assert(out@ =~= old(out)@ + icon_text(*icon));
}

fn push_service_entry(out: &mut String, s: Services)
    ensures
        final(out)@ == old(out)@ + service_entry_text(s),
{
    push_str(out, "      <service>\n");
    let ns = s.full_namespace();
    push_element(out, "        ", "serviceType", ns.as_str());
    let mut id = crate::text::to_owned_string("urn:upnp-org:serviceId:");
    push_str(&mut id, s.name());
    push_element(out, "        ", "serviceId", id.as_str());
    push_element(out, "        ", "SCPDURL", s.scpd_url());
    push_element(out, "        ", "controlURL", s.url_control());
    push_element(out, "        ", "eventSubURL", s.event_url());
    push_str(out, "      </service>\n");
    assert(out@ =~= old(out)@ + service_entry_text(s));
}

fn push_service_entries(out: &mut String, services: &Vec<Services>)
    ensures
        final(out)@ == old(out)@ + service_entries_text(services@),
{
    let ghost start = out@;
    let mut i: usize = 0;
    while i < services.len()
        invariant
            i <= services@.len(),
            out@ == start + service_entries_text(services@.subrange(0, i as int)),
        decreases services.len() - i,
    {
        let ghost before = out@;
        push_service_entry(out, services[i]);
        proof {
            let sub = services@.subrange(0, i + 1);
            assert(sub.drop_last() =~= services@.subrange(0, i as int));
            assert(out@ =~= start + service_entries_text(sub));
        }
        i = i + 1;
    }
    assert(services@.subrange(0, services@.len() as int) =~= services@);
}

fn push_device_identity(out: &mut String, u: &UpnpDevice, s: &SsdpDevice)
    ensures
        final(out)@ == old(out)@ + device_identity_text(*u, *s),
{
    push_element(out, "    ", "deviceType", s.device_type.as_str());
    let mut udn = crate::text::to_owned_string("uuid:");
    push_str(&mut udn, s.udn.as_str());
    push_element(out, "    ", "UDN", udn.as_str());
    push_element_escaped(out, "    ", "friendlyName", u.friendly_name.as_str());
    push_element_escaped(out, "    ", "manufacturer", u.manufacturer.as_str());
    push_opt_element(out, "    ", "manufacturerURL", &u.manufacturer_url, false);
    push_opt_element(out, "    ", "modelDescription", &u.model_description, true);
    assert(out@ =~= old(out)@ + device_identity_text(*u, *s));
}

fn push_device_model(out: &mut String, u: &UpnpDevice)
    ensures
        final(out)@ == old(out)@ + device_model_text(*u),
{
    push_element_escaped(out, "    ", "modelName", u.model_name.as_str());
    push_element_escaped(out, "    ", "modelNumber", u.model_number.as_str());
    push_opt_element(out, "    ", "modelURL", &u.model_url, false);
    push_opt_element(out, "    ", "serialNumber", &u.serial_number, false);
    assert(out@ =~= old(out)@ + device_model_text(*u));
}

fn push_icon_list(out: &mut String, icon: &Option<Icon>)
    ensures
        final(out)@ == old(out)@ + icon_list_text(*icon),
{
    match icon {
        Some(i) => {
            push_str(out, "    <iconList>\n");
            push_icon(out, i);
            push_str(out, "    </iconList>\n");
        },
        None => {},
    }
    assert(out@ =~= old(out)@ + icon_list_text(*icon));
}

fn push_device_element(out: &mut String, u: &UpnpDevice, s: &SsdpDevice)
    ensures
        final(out)@ == old(out)@ + device_element_text(*u, *s),
{
    push_device_identity(out, u, s);
    push_device_model(out, u);
    push_icon_list(out, &u.icon);
    push_str(out, "    <serviceList>\n");
    push_service_entries(out, &s.services);
    push_str(out, "    </serviceList>\n");
    assert(out@ =~= old(out)@ + device_element_text(*u, *s));
}

/// HTTP handler for device description and icon.
#[derive(Clone)]
pub struct DescriptionHandler {
    upnpdevice: Arc<UpnpDevice>,
    ssdpdevice: Arc<SsdpDevice>,
    server_info: String,
}

impl DescriptionHandler {
    /// The device identity.
    pub closed spec fn upnp(&self) -> UpnpDevice {
        *self.upnpdevice
    }

    /// The SSDP settings of the device.
    pub closed spec fn ssdp(&self) -> SsdpDevice {
        *self.ssdpdevice
    }

    /// The SERVER header value.
    pub closed spec fn server_value(&self) -> Seq<char> {
        self.server_info@
    }

    /// Create a new description handler.
    pub fn new(upnpdevice: UpnpDevice, ssdpdevice: SsdpDevice, server_info: String) -> (r: Self)
        ensures
            r.upnp() == upnpdevice,
            r.ssdp() == ssdpdevice,
            r.server_value() == server_info@,
    {
        DescriptionHandler {
            upnpdevice: Arc::new(upnpdevice),
            ssdpdevice: Arc::new(ssdpdevice),
            server_info,
        }
    }

    /// The device identity.
    pub fn upnp_device(&self) -> (r: &UpnpDevice)
        ensures
            *r == self.upnp(),
    {
        &*self.upnpdevice
    }

    /// The SSDP settings of the device.
    pub fn ssdp_device(&self) -> (r: &SsdpDevice)
        ensures
            *r == self.ssdp(),
    {
        &*self.ssdpdevice
    }

    /// The SERVER header value.
    pub fn server_info(&self) -> (r: &str)
        ensures
            r@ == self.server_value(),
    {
        self.server_info.as_str()
    }

    /// Build the device description XML.
    pub fn build_description_xml(&self) -> (r: String)
        ensures
            r@ == description_text(self.upnp(), self.ssdp()),
    {
        self.build_root()
    }

    /// Build the root `<root>` element with all children.
    fn build_root(&self) -> (r: String)
        ensures
            r@ == description_text(self.upnp(), self.ssdp()),
    {
        let s: &SsdpDevice = &*self.ssdpdevice;
        let mut xml = String::new();
        push_str(&mut xml, "<?xml version=\"1.0\"?>\n");
        push_str(&mut xml, "<root xmlns=\"urn:schemas-upnp-org:device-1-0\" configId=\"");
        push_decimal(&mut xml, s.config_id as u64);
        push_str(&mut xml, "\">\n");
        push_str(&mut xml, "  <specVersion>\n");
        push_str(&mut xml, "    <major>2</major>\n");
        push_str(&mut xml, "    <minor>0</minor>\n");
        push_str(&mut xml, "  </specVersion>\n");
        push_str(&mut xml, "  <device>\n");
        push_device_element(&mut xml, &*self.upnpdevice, s);
        push_str(&mut xml, "  </device>\n");
        push_str(&mut xml, "</root>\n");
        assert(xml@ =~= description_text(self.upnp(), self.ssdp()));
        xml
    }
}

// ---------------------------------------------------------------------------
// SCPD documents
// ---------------------------------------------------------------------------

/// The `<argument>` entry of an argument, in direction `dir` (`in` or `out`).
pub open spec fn arg_text(a: ArgumentDefinition<String, String>, dir: Seq<char>) -> Seq<char> {
    "        <argument>\n"@ + element_line("          "@, "name"@, escaped(a.name@))
        + "          <direction>"@ + dir + "</direction>\n"@ + match a.related_state_var {
        Some(v) => element_line("          "@, "relatedStateVariable"@, escaped(v@)),
        None => Seq::empty(),
    } + "        </argument>\n"@
}

/// The `<argument>` entries of a list of arguments, in order.
pub open spec fn args_text(args: Seq<ArgumentDefinition<String, String>>, dir: Seq<char>) -> Seq<char>
    decreases args.len(),
{
    if args.len() == 0 {
        Seq::empty()
    } else {
        args_text(args.drop_last(), dir) + arg_text(args.last(), dir)
    }
}

/// The `<action>` entry of an action definition: its IN arguments, then its
/// OUT arguments.
pub open spec fn action_text(d: ActionDefinition<String, String, String>) -> Seq<char> {
    "    <action>\n"@ + element_line("      "@, "name"@, escaped(d.name@)) + "      <argumentList>\n"@
        + args_text(d.in_args@, "in"@) + args_text(d.out_args@, "out"@) + "      </argumentList>\n"@
        + "    </action>\n"@
}

/// The `<action>` entries of the definitions, in order.
pub open spec fn actions_text(defs: Seq<ActionDefinition<String, String, String>>) -> Seq<char>
    decreases defs.len(),
{
    if defs.len() == 0 {
        Seq::empty()
    } else {
        actions_text(defs.drop_last()) + action_text(defs.last())
    }
}

/// The `<actionList>` element.
pub open spec fn action_list_text(defs: Seq<ActionDefinition<String, String, String>>) -> Seq<char> {
    "  <actionList>\n"@ + actions_text(defs) + "  </actionList>\n"@
}

/// The related state variables named by a list of arguments, in order.
pub open spec fn related_of_args(args: Seq<ArgumentDefinition<String, String>>) -> Seq<Seq<char>>
    decreases args.len(),
{
    if args.len() == 0 {
        Seq::empty()
    } else {
        related_of_args(args.drop_last()) + match args.last().related_state_var {
            Some(v) => seq![v@],
            None => Seq::empty(),
        }
    }
}

/// The related state variables named by the arguments of the definitions.
pub open spec fn related_names(defs: Seq<ActionDefinition<String, String, String>>) -> Seq<Seq<char>>
    decreases defs.len(),
{
    if defs.len() == 0 {
        Seq::empty()
    } else {
        related_names(defs.drop_last()) + related_of_args(defs.last().in_args@) + related_of_args(
            defs.last().out_args@,
        )
    }
}

/// Whether a state variable is listed in the SCPD: it is referenced by an
/// action's argument, evented (directly or through LastChange), or an
/// argument type.
pub open spec fn listed_in_table<S: StateVariableName>(
    d: StateSchema<S>,
    referenced: Seq<Seq<char>>,
) -> bool {
    referenced.contains(d.name.wire_name()) || d.name.evented() || d.name.in_last_change()
        || d.argument_type
}

/// The `<allowedValue>` lines of a list of values, in order.
pub open spec fn allowed_items_text(v: Seq<String>) -> Seq<char>
    decreases v.len(),
{
    if v.len() == 0 {
        Seq::empty()
    } else {
        allowed_items_text(v.drop_last()) + element_line(
            "        "@,
            "allowedValue"@,
            escaped(v.last()@),
        )
    }
}

/// The `<allowedValueList>` of a definition, nothing when it has no values.
pub open spec fn allowed_list_text(v: Option<Vec<String>>) -> Seq<char> {
    match v {
        Some(vals) => if vals@.len() > 0 {
            "      <allowedValueList>\n"@ + allowed_items_text(vals@) + "      </allowedValueList>\n"@
        } else {
            Seq::empty()
        },
        None => Seq::empty(),
    }
}

/// The `<allowedValueRange>` of a definition, nothing when it has none.
pub open spec fn allowed_range_text(r: Option<(String, String, String)>) -> Seq<char> {
    match r {
        Some(range) => "      <allowedValueRange>\n"@ + element_line(
            "        "@,
            "minimum"@,
            range.0@,
        ) + element_line("        "@, "maximum"@, range.1@) + "      </allowedValueRange>\n"@,
        None => Seq::empty(),
    }
}

/// The opening of a `<stateVariable>` element: `sendEvents="yes"` when the
/// variable is evented, directly or through LastChange.
pub open spec fn state_var_open_text<S: StateVariableName>(d: StateSchema<S>) -> Seq<char> {
    "    <stateVariable"@ + (if d.name.evented() || d.name.in_last_change() {
        " sendEvents=\"yes\""@
    } else {
        Seq::empty()
    }) + ">\n"@
}

/// The `<defaultValue>` line of a definition; argument types have none.
pub open spec fn default_value_text<S: StateVariableName>(d: StateSchema<S>) -> Seq<char> {
    if d.argument_type {
        Seq::empty()
    } else {
        element_line("      "@, "defaultValue"@, escaped(value_text(d.default@)))
    }
}

/// The `<stateVariable>` element of a definition.
pub open spec fn state_var_text<S: StateVariableName>(d: StateSchema<S>) -> Seq<char> {
    state_var_open_text(d) + element_line("      "@, "name"@, d.name.wire_name()) + element_line(
        "      "@,
        "dataType"@,
        d.name.data_type_text(),
    ) + default_value_text(d) + allowed_list_text(d.allowed_values) + allowed_range_text(
        d.allowed_value_range,
    ) + "    </stateVariable>\n"@
}

/// The `<stateVariable>` elements of the listed definitions, in order.
pub open spec fn state_vars_text<S: StateVariableName>(
    schema: Seq<StateSchema<S>>,
    referenced: Seq<Seq<char>>,
) -> Seq<char>
    decreases schema.len(),
{
    if schema.len() == 0 {
        Seq::empty()
    } else {
        state_vars_text(schema.drop_last(), referenced) + if listed_in_table(
            schema.last(),
            referenced,
        ) {
            state_var_text(schema.last())
        } else {
            Seq::empty()
        }
    }
}

/// The `<serviceStateTable>` element.
pub open spec fn state_table_text<S: StateVariableName>(
    schema: Seq<StateSchema<S>>,
    referenced: Seq<Seq<char>>,
) -> Seq<char> {
    "  <serviceStateTable>\n"@ + state_vars_text(schema, referenced) + "  </serviceStateTable>\n"@
}

/// The XML declaration, the `<scpd>` opening tag and the `<specVersion>`.
pub open spec fn scpd_header_text(config_id: u32) -> Seq<char> {
    "<?xml version=\"1.0\"?>\n"@ + "<scpd xmlns=\"urn:schemas-upnp-org:service-1-0\" configId=\""@
        + nat_to_decimal(config_id as nat) + "\">\n"@ + "  <specVersion>\n"@
        + "    <major>2</major>\n"@ + "    <minor>0</minor>\n"@ + "  </specVersion>\n"@
}

/// The SCPD document of a service with the given action definitions and
/// state variable definitions.
pub open spec fn scpd_text<S: StateVariableName>(
    config_id: u32,
    defs: Seq<ActionDefinition<String, String, String>>,
    schema: Seq<StateSchema<S>>,
) -> Seq<char> {
    scpd_header_text(config_id) + action_list_text(defs) + state_table_text(
        schema,
        related_names(defs),
    ) + "</scpd>\n"@
}

fn push_args(out: &mut String, args: &Vec<ArgumentDefinition<String, String>>, dir: &str)
    ensures
        final(out)@ == old(out)@ + args_text(args@, dir@),
{
    let ghost start = out@;
    let mut i: usize = 0;
    while i < args.len()
        invariant
            i <= args@.len(),
            out@ == start + args_text(args@.subrange(0, i as int), dir@),
        decreases args.len() - i,
    {
        let ghost before = out@;
        let a = &args[i];
        push_str(out, "        <argument>\n");
        push_element_escaped(out, "          ", "name", a.name.as_str());
        push_str(out, "          <direction>");
        push_str(out, dir);
        push_str(out, "</direction>\n");
        match &a.related_state_var {
            Some(v) => {
                push_element_escaped(out, "          ", "relatedStateVariable", v.as_str());
            },
            None => {},
        }
        push_str(out, "        </argument>\n");
        proof {
            assert(out@ =~= before + arg_text(args@[i as int], dir@));
            let sub = args@.subrange(0, i + 1);
            assert(sub.drop_last() =~= args@.subrange(0, i as int));
            assert(out@ =~= start + args_text(sub, dir@));
        }
        i = i + 1;
    }
    assert(args@.subrange(0, args@.len() as int) =~= args@);
}

fn push_action(out: &mut String, d: &ActionDefinition<String, String, String>)
    ensures
        final(out)@ == old(out)@ + action_text(*d),
{
    push_str(out, "    <action>\n");
    push_element_escaped(out, "      ", "name", d.name.as_str());
    push_str(out, "      <argumentList>\n");
    push_args(out, &d.in_args, "in");
    push_args(out, &d.out_args, "out");
    push_str(out, "      </argumentList>\n");
    push_str(out, "    </action>\n");
    assert(out@ =~= old(out)@ + action_text(*d));
}

fn push_action_list(out: &mut String, defs: &[ActionDefinition<String, String, String>])
    ensures
        final(out)@ == old(out)@ + action_list_text(defs@),
{
    let ghost start = out@;
    push_str(out, "  <actionList>\n");
    let ghost open = out@;
    let mut i: usize = 0;
    while i < defs.len()
        invariant
            i <= defs@.len(),
            out@ == open + actions_text(defs@.subrange(0, i as int)),
        decreases defs.len() - i,
    {
        push_action(out, &defs[i]);
        proof {
            let sub = defs@.subrange(0, i + 1);
            assert(sub.drop_last() =~= defs@.subrange(0, i as int));
            assert(out@ =~= open + actions_text(sub));
        }
        i = i + 1;
    }
    assert(defs@.subrange(0, defs@.len() as int) =~= defs@);
    push_str(out, "  </actionList>\n");
    assert(out@ =~= start + action_list_text(defs@));
}

fn collect_related(names: &mut Vec<String>, args: &Vec<ArgumentDefinition<String, String>>)
    ensures
        strings_view(final(names)@) == strings_view(old(names)@) + related_of_args(args@),
{
    let ghost start = strings_view(names@);
    let mut i: usize = 0;
    while i < args.len()
        invariant
            i <= args@.len(),
            strings_view(names@) == start + related_of_args(args@.subrange(0, i as int)),
        decreases args.len() - i,
    {
        let ghost before = names@;
        let ghost sub = args@.subrange(0, i + 1);
        assert(sub.drop_last() =~= args@.subrange(0, i as int));
        assert(sub.last() == args@[i as int]);
        match &args[i].related_state_var {
            Some(v) => {
                names.push(crate::text::to_owned_string(v.as_str()));
                assert(strings_view(names@) =~= strings_view(before).push(v@));
            },
            None => {},
        }
        assert(strings_view(names@) =~= start + related_of_args(sub));
        i = i + 1;
    }
    assert(args@.subrange(0, args@.len() as int) =~= args@);
}

/// The related state variables named by the arguments of the definitions.
fn related_state_vars(defs: &[ActionDefinition<String, String, String>]) -> (r: Vec<String>)
    ensures
        strings_view(r@) == related_names(defs@),
{
    let mut r: Vec<String> = Vec::new();
    let mut i: usize = 0;
    assert(strings_view(r@) =~= Seq::<Seq<char>>::empty());
    while i < defs.len()
        invariant
            i <= defs@.len(),
            strings_view(r@) == related_names(defs@.subrange(0, i as int)),
        decreases defs.len() - i,
    {
        collect_related(&mut r, &defs[i].in_args);
        collect_related(&mut r, &defs[i].out_args);
        proof {
            let sub = defs@.subrange(0, i + 1);
            assert(sub.drop_last() =~= defs@.subrange(0, i as int));
        }
        i = i + 1;
    }
    assert(defs@.subrange(0, defs@.len() as int) =~= defs@);
    r
}

fn contains_name(names: &Vec<String>, name: &str) -> (r: bool)
    ensures
        r == strings_view(names@).contains(name@),
{
    let mut i: usize = 0;
    while i < names.len()
        invariant
            i <= names@.len(),
            forall|j: int| 0 <= j < i ==> strings_view(names@)[j] != name@,
        decreases names.len() - i,
    {
        if str_eq(names[i].as_str(), name) {
            assert(strings_view(names@)[i as int] == name@);
            return true;
        }
        i = i + 1;
    }
    false
}

fn push_allowed_list(out: &mut String, v: &Option<Vec<String>>)
    ensures
        final(out)@ == old(out)@ + allowed_list_text(*v),
{
    match v {
        Some(vals) => {
            if vals.len() > 0 {
                let ghost start = out@;
                push_str(out, "      <allowedValueList>\n");
                let ghost open = out@;
                let mut i: usize = 0;
                while i < vals.len()
                    invariant
                        i <= vals@.len(),
                        out@ == open + allowed_items_text(vals@.subrange(0, i as int)),
                    decreases vals.len() - i,
                {
                    push_element_escaped(out, "        ", "allowedValue", vals[i].as_str());
                    proof {
                        let sub = vals@.subrange(0, i + 1);
                        assert(sub.drop_last() =~= vals@.subrange(0, i as int));
                        assert(out@ =~= open + allowed_items_text(sub));
                    }
                    i = i + 1;
                }
                assert(vals@.subrange(0, vals@.len() as int) =~= vals@);
                push_str(out, "      </allowedValueList>\n");
                assert(out@ =~= start + allowed_list_text(*v));
            } else {
                assert(out@ =~= old(out)@ + allowed_list_text(*v));
            }
        },
        None => {
            assert(out@ =~= old(out)@ + allowed_list_text(*v));
        },
    }
}

fn push_allowed_range(out: &mut String, r: &Option<(String, String, String)>)
    ensures
        final(out)@ == old(out)@ + allowed_range_text(*r),
{
    match r {
        Some(range) => {
            push_str(out, "      <allowedValueRange>\n");
            push_element(out, "        ", "minimum", range.0.as_str());
            push_element(out, "        ", "maximum", range.1.as_str());
            push_str(out, "      </allowedValueRange>\n");
        },
        None => {},
    }
    assert(out@ =~= old(out)@ + allowed_range_text(*r));
}

fn push_state_var<S: StateVariableName>(out: &mut String, d: &StateSchema<S>)
    ensures
        final(out)@ == old(out)@ + state_var_text(*d),
{
    let ghost start = out@;
    push_str(out, "    <stateVariable");
    if d.name.is_evented() || d.name.via_lastchange() {
        push_str(out, " sendEvents=\"yes\"");
    }
    push_str(out, ">\n");
    assert(out@ =~= start + state_var_open_text(*d));
    push_element(out, "      ", "name", d.name.as_str());
    push_element(out, "      ", "dataType", d.name.data_type_name());
    let ghost mid = out@;
    if !d.argument_type {
        let v = d.default.as_value_str();
        push_element_escaped(out, "      ", "defaultValue", v.as_str());
    }
    assert(out@ =~= mid + default_value_text(*d));
    push_allowed_list(out, &d.allowed_values);
    push_allowed_range(out, &d.allowed_value_range);
    push_str(out, "    </stateVariable>\n");
    assert(out@ =~= start + state_var_text(*d));
}

fn push_state_table<S: StateVariableName>(
    out: &mut String,
    schema: &[StateSchema<S>],
    referenced: &Vec<String>,
)
    ensures
        final(out)@ == old(out)@ + state_table_text(schema@, strings_view(referenced@)),
{
    let ghost refs = strings_view(referenced@);
    let ghost start = out@;
    push_str(out, "  <serviceStateTable>\n");
    let ghost open = out@;
    let mut i: usize = 0;
    while i < schema.len()
        invariant
            i <= schema@.len(),
            refs == strings_view(referenced@),
            out@ == open + state_vars_text(schema@.subrange(0, i as int), refs),
        decreases schema.len() - i,
    {
        let d = &schema[i];
        let is_referenced = contains_name(referenced, d.name.as_str());
        let is_evented = d.name.is_evented() || d.name.via_lastchange();
        if is_referenced || is_evented || d.argument_type {
            push_state_var(out, d);
        }
        proof {
            let sub = schema@.subrange(0, i + 1);
            assert(sub.drop_last() =~= schema@.subrange(0, i as int));
            assert(out@ =~= open + state_vars_text(sub, refs));
        }
        i = i + 1;
    }
    assert(schema@.subrange(0, schema@.len() as int) =~= schema@);
    push_str(out, "  </serviceStateTable>\n");
    assert(out@ =~= start + state_table_text(schema@, refs));
}

fn push_scpd_header(out: &mut String, config_id: u32)
    ensures
        final(out)@ == old(out)@ + scpd_header_text(config_id),
{
    push_str(out, "<?xml version=\"1.0\"?>\n");
    push_str(out, "<scpd xmlns=\"urn:schemas-upnp-org:service-1-0\" configId=\"");
    push_decimal(out, config_id as u64);
    push_str(out, "\">\n");
    push_str(out, "  <specVersion>\n");
    push_str(out, "    <major>2</major>\n");
    push_str(out, "    <minor>0</minor>\n");
    push_str(out, "  </specVersion>\n");
    assert(out@ =~= old(out)@ + scpd_header_text(config_id));
}

/// The SCPD document of a service, from its registered actions and its state
/// variable definitions.
pub fn scpd_document<S: StateVariableName>(
    actions: &ActionMap,
    store: &StateStore<S>,
    config_id: u32,
) -> (r: String)
    ensures
        r@ == scpd_text(config_id, actions.definitions(), store.schema_seq()),
{
    let defs = actions.action_definitions();
    let schema = store.schemas();
    let referenced = related_state_vars(defs);
    let mut xml = String::new();
    push_scpd_header(&mut xml, config_id);
    push_action_list(&mut xml, defs);
    push_state_table(&mut xml, schema, &referenced);
    push_str(&mut xml, "</scpd>\n");
    assert(xml@ =~= scpd_text(config_id, actions.definitions(), store.schema_seq()));
    xml
}

/// The URL path of a service's SCPD document.
pub open spec fn scpd_path_text(service_name: Seq<char>) -> Seq<char> {
    "/upnp/"@ + service_name + ".xml"@
}

/// HTTP handler for SCPD documents.
///
/// Serves dynamically generated SCPD XML from the action map and state
/// variables. Holds only shared references to them.
pub struct ScpdHandler<S: StateVariableName> {
    path: String,
    actions: Arc<RwLock<ActionMap, ActionMapLock>>,
    state_store: Arc<RwLock<StateStore<S>, StoreLock<S>>>,
    server_header: String,
    config_id: u32,
}

impl<S: StateVariableName> ScpdHandler<S> {
    /// The URL path the handler serves.
    pub closed spec fn served_path(&self) -> Seq<char> {
        self.path@
    }

    /// The shared action map.
    pub closed spec fn shared_actions(&self) -> Arc<RwLock<ActionMap, ActionMapLock>> {
        self.actions
    }

    /// The shared state store.
    pub closed spec fn shared_store(&self) -> Arc<RwLock<StateStore<S>, StoreLock<S>>> {
        self.state_store
    }

    /// The SERVER header value.
    pub closed spec fn server_value(&self) -> Seq<char> {
        self.server_header@
    }

    /// The configuration number written into the document.
    pub closed spec fn config(&self) -> u32 {
        self.config_id
    }

    /// Create a new SCPD handler. Its path is `/upnp/{service name}.xml`,
    /// with the service whose action map the lock holds.
    pub fn new(
        actions: Arc<RwLock<ActionMap, ActionMapLock>>,
        state_store: Arc<RwLock<StateStore<S>, StoreLock<S>>>,
        server_header: String,
        config_id: u32,
    ) -> (r: Self)
        ensures
            r.served_path() == scpd_path_text(service_name_spec(actions.pred().service)),
            r.shared_actions() == actions,
            r.shared_store() == state_store,
            r.server_value() == server_header@,
            r.config() == config_id,
    {
        let h = actions.acquire_read();
        let m = h.borrow();
        let mut path = crate::text::to_owned_string(crate::config::SCPD_PATH_PREFIX);
        push_str(&mut path, m.service_name());
        push_str(&mut path, crate::config::SCPD_PATH_SUFFIX);
        assert(path@ == scpd_path_text(service_name_spec(m.service())));
        h.release_read();
        ScpdHandler { path, actions, state_store, server_header, config_id }
    }

    /// The URL path the handler serves.
    pub fn path(&self) -> (r: &str)
        ensures
            r@ == self.served_path(),
    {
        self.path.as_str()
    }

    /// The SERVER header value.
    pub fn server_header(&self) -> (r: &str)
        ensures
            r@ == self.server_value(),
    {
        self.server_header.as_str()
    }

    /// Build the complete SCPD XML document, from the action map and the
    /// state store as they stand.
    pub fn build_scpd_xml(&self) -> (r: String)
        ensures
            exists|m: ActionMap|
                m.service() == self.shared_actions().pred().service && m.aligned() && r@
                    == #[trigger] scpd_text(self.config(), m.definitions(), self.shared_store().pred().schema@),
    {
        let ha = self.actions.acquire_read();
        let hs = self.state_store.acquire_read();
        let m = ha.borrow();
        let st = hs.borrow();
        proof {
            use_type_invariant(m);
            assert(m.service() == self.shared_actions().pred().service);
            assert(st.schema_seq() == self.shared_store().pred().schema@);
        }
        let r = scpd_document(m, st, self.config_id);
        assert(r@ == scpd_text(self.config(), m.definitions(), st.schema_seq()));
        hs.release_read();
        ha.release_read();
        r
    }
}

} // verus!
