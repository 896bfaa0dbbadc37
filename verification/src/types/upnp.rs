//! Shared UPnP types: service identities, device types, the generic error
//! codes, typed values, action arguments and the runtime action registry.
use vstd::prelude::*;

use crate::text::{
    chars_of, digit_char, i64_to_string, int_to_decimal, nat_to_decimal, push_char, push_decimal,
    push_str, str_eq, string_from_range, to_owned_string, u64_to_string,
};

verus! {

broadcast use vstd::string::group_string_axioms;

// ---------------------------------------------------------------------------
// ServiceVersion
// ---------------------------------------------------------------------------

/// UPnP service version (1, 2, or 3).
#[derive(Debug, Clone, Copy, PartialEq, Eq, Structural)]
pub enum ServiceVersion {
    V1,
    V2,
    V3,
}

/// The number of a service version.
pub open spec fn version_number(v: ServiceVersion) -> nat {
    match v {
        ServiceVersion::V1 => 1,
        ServiceVersion::V2 => 2,
        ServiceVersion::V3 => 3,
    }
}

/// The number of a service version, as written in a namespace URN.
pub fn version_to_u32(v: ServiceVersion) -> (r: u32)
    ensures
        r as nat == version_number(v),
{
    match v {
        ServiceVersion::V1 => 1,
        ServiceVersion::V2 => 2,
        ServiceVersion::V3 => 3,
    }
}

// ---------------------------------------------------------------------------
// Device
// ---------------------------------------------------------------------------

/// UPnP device type (per UDA 2.0 spec).
#[derive(Debug, Clone, Copy, PartialEq, Eq, Structural)]
pub enum Device {
    /// MediaRenderer — renders media content
    MediaRenderer,
    /// MediaServer — stores and serves media content
    MediaServer,
    /// MediaController — controls MediaRenderer/MediaServer
    MediaController,
    /// Gateway — bridges different network types
    Gateway,
    /// Basic — minimal UPnP device
    Basic,
    /// ControlPoint — UPnP control point
    ControlPoint,
}

/// The type name that stands inside a device URN.
pub open spec fn device_type_name(d: Device) -> Seq<char> {
    match d {
        Device::MediaRenderer => "MediaRenderer"@,
        Device::MediaServer => "MediaServer"@,
        Device::MediaController => "MediaController"@,
        Device::Gateway => "Gateway"@,
        Device::Basic => "Basic"@,
        Device::ControlPoint => "ControlPoint"@,
    }
}

/// `urn:schemas-upnp-org:device:<type>:1`.
pub open spec fn device_urn(d: Device) -> Seq<char> {
    "urn:schemas-upnp-org:device:"@ + device_type_name(d) + ":1"@
}

impl Device {
    /// Full device type URN: urn:schemas-upnp-org:device:<type>:1
    pub fn urn(&self) -> (r: String)
        ensures
            r@ == device_urn(*self),
    {
        let name = match self {
            Device::MediaRenderer => "MediaRenderer",
            Device::MediaServer => "MediaServer",
            Device::MediaController => "MediaController",
            Device::Gateway => "Gateway",
            Device::Basic => "Basic",
            Device::ControlPoint => "ControlPoint",
        };
        let mut s = to_owned_string("urn:schemas-upnp-org:device:");
        push_str(&mut s, name);
        push_str(&mut s, ":1");
        s
    }
}

// ---------------------------------------------------------------------------
// Services
// ---------------------------------------------------------------------------

/// UPnP service definition.
#[derive(Debug, Clone, Copy, PartialEq, Eq, Structural)]
pub enum Services {
    /// AVTransport service
    AVTransport(ServiceVersion),
    /// ConnectionManager service
    ConnectionManager(ServiceVersion),
    /// RenderingControl service
    RenderingControl(ServiceVersion),
}

/// Service name, e.g. `AVTransport`.
pub open spec fn service_name_spec(s: Services) -> Seq<char> {
    match s {
        Services::AVTransport(_) => "AVTransport"@,
        Services::ConnectionManager(_) => "ConnectionManager"@,
        Services::RenderingControl(_) => "RenderingControl"@,
    }
}

/// Namespace without the version, e.g. `urn:schemas-upnp-org:service:AVTransport`.
pub open spec fn base_namespace_spec(s: Services) -> Seq<char> {
    match s {
        Services::AVTransport(_) => "urn:schemas-upnp-org:service:AVTransport"@,
        Services::ConnectionManager(_) => "urn:schemas-upnp-org:service:ConnectionManager"@,
        Services::RenderingControl(_) => "urn:schemas-upnp-org:service:RenderingControl"@,
    }
}

/// The version a service value carries.
pub open spec fn service_version_spec(s: Services) -> ServiceVersion {
    match s {
        Services::AVTransport(v) => v,
        Services::ConnectionManager(v) => v,
        Services::RenderingControl(v) => v,
    }
}

/// `<base_namespace>:<version>`.
pub open spec fn full_namespace_spec(s: Services) -> Seq<char> {
    base_namespace_spec(s) + ":"@ + nat_to_decimal(version_number(service_version_spec(s)))
}

/// The control URL of a service.
pub open spec fn url_control_spec(s: Services) -> Seq<char> {
    "/upnp/control/"@ + service_name_spec(s)
}

/// The SCPD URL of a service.
pub open spec fn scpd_url_spec(s: Services) -> Seq<char> {
    "/upnp/"@ + service_name_spec(s) + ".xml"@
}

/// The event subscription URL of a service.
pub open spec fn event_url_spec(s: Services) -> Seq<char> {
    "/upnp/event/"@ + service_name_spec(s)
}

/// What `Services::service_from_name` gives: the service of that name at version 3.
pub open spec fn service_from_name_spec(name: Seq<char>) -> Option<Services> {
    if name == "AVTransport"@ {
        Some(Services::AVTransport(ServiceVersion::V3))
    } else if name == "ConnectionManager"@ {
        Some(Services::ConnectionManager(ServiceVersion::V3))
    } else if name == "RenderingControl"@ {
        Some(Services::RenderingControl(ServiceVersion::V3))
    } else {
        None
    }
}

/// The position of the last occurrence of `c` in `s`.
pub open spec fn last_index_of(s: Seq<char>, c: char) -> Option<int>
    decreases s.len(),
{
    if s.len() == 0 {
        None
    } else if s.last() == c {
        Some(s.len() - 1)
    } else {
        last_index_of(s.drop_last(), c)
    }
}

/// The version named by the text after the last `:` of a namespace URN.
pub open spec fn version_from_text(t: Seq<char>) -> Option<ServiceVersion> {
    if t == "1"@ {
        Some(ServiceVersion::V1)
    } else if t == "2"@ {
        Some(ServiceVersion::V2)
    } else if t == "3"@ {
        Some(ServiceVersion::V3)
    } else {
        None
    }
}

/// The service named by a base namespace at the given version.
pub open spec fn service_from_base(base: Seq<char>, v: ServiceVersion) -> Option<Services> {
    if base == "urn:schemas-upnp-org:service:AVTransport"@ {
        Some(Services::AVTransport(v))
    } else if base == "urn:schemas-upnp-org:service:ConnectionManager"@ {
        Some(Services::ConnectionManager(v))
    } else if base == "urn:schemas-upnp-org:service:RenderingControl"@ {
        Some(Services::RenderingControl(v))
    } else {
        None
    }
}

/// What `Services::namespace_from_string` gives: split at the last `:`, read the
/// version after it and the base namespace before it.
pub open spec fn namespace_from_string_spec(urn: Seq<char>) -> Option<Services> {
    match last_index_of(urn, ':') {
        None => None,
        Some(i) => match version_from_text(urn.subrange(i + 1, urn.len() as int)) {
            None => None,
            Some(v) => service_from_base(urn.subrange(0, i), v),
        },
    }
}

pub(crate) fn last_index_of_exec(cs: &Vec<char>, c: char) -> (r: Option<usize>)
    ensures
        match r {
            Some(i) => last_index_of(cs@, c) == Some(i as int) && i < cs.len(),
            None => last_index_of(cs@, c) is None,
        },
{
    let mut i = cs.len();
    assert(cs@.subrange(0, i as int) =~= cs@);
    while i > 0
        invariant
            i <= cs@.len(),
            last_index_of(cs@, c) == last_index_of(cs@.subrange(0, i as int), c),
        decreases i,
    {
        let ghost pre = cs@.subrange(0, i as int);
        if cs[i - 1] == c {
            return Some(i - 1);
        }
        assert(pre.drop_last() =~= cs@.subrange(0, i - 1));
        i = i - 1;
    }
    None
}

impl Services {
    /// Service name (e.g., "AVTransport")
    pub fn name(&self) -> (r: &'static str)
        ensures
            r@ == service_name_spec(*self),
    {
        match self {
            Services::AVTransport(_) => "AVTransport",
            Services::ConnectionManager(_) => "ConnectionManager",
            Services::RenderingControl(_) => "RenderingControl",
        }
    }

    /// Base namespace without version (e.g., "urn:schemas-upnp-org:service:AVTransport").
    pub fn base_namespace(&self) -> (r: &'static str)
        ensures
            r@ == base_namespace_spec(*self),
    {
        match self {
            Services::AVTransport(_) => "urn:schemas-upnp-org:service:AVTransport",
            Services::ConnectionManager(_) => "urn:schemas-upnp-org:service:ConnectionManager",
            Services::RenderingControl(_) => "urn:schemas-upnp-org:service:RenderingControl",
        }
    }

    /// Service version
    pub fn version(&self) -> (r: ServiceVersion)
        ensures
            r == service_version_spec(*self),
    {
        match self {
            Services::AVTransport(v) => *v,
            Services::ConnectionManager(v) => *v,
            Services::RenderingControl(v) => *v,
        }
    }

    /// Full namespace URN: `<base_namespace>:<version>` (e.g., `"urn:schemas-upnp-org:service:AVTransport:3"`).
    pub fn full_namespace(&self) -> (r: String)
        ensures
            r@ == full_namespace_spec(*self),
    {
        let mut s = to_owned_string(self.base_namespace());
        push_str(&mut s, ":");
        push_decimal(&mut s, version_to_u32(self.version()) as u64);
        s
    }

    /// HTTP control URL for this service (e.g., "/upnp/control/AVTransport").
    pub fn url_control(&self) -> (r: &'static str)
        ensures
            r@ == url_control_spec(*self),
    {
        proof {
            reveal_strlit("/upnp/control/");
            reveal_strlit("/upnp/control/AVTransport");
            reveal_strlit("/upnp/control/ConnectionManager");
            reveal_strlit("/upnp/control/RenderingControl");
            reveal_strlit("AVTransport");
            reveal_strlit("ConnectionManager");
            reveal_strlit("RenderingControl");
        }
        let r = match self {
            Services::AVTransport(_) => "/upnp/control/AVTransport",
            Services::ConnectionManager(_) => "/upnp/control/ConnectionManager",
            Services::RenderingControl(_) => "/upnp/control/RenderingControl",
        };
        assert(r@ =~= url_control_spec(*self));
        r
    }

    /// SCPD URL for this service (e.g., "/upnp/AVTransport.xml").
    pub fn scpd_url(&self) -> (r: &'static str)
        ensures
            r@ == scpd_url_spec(*self),
    {
        proof {
            reveal_strlit("/upnp/");
            reveal_strlit(".xml");
            reveal_strlit("/upnp/AVTransport.xml");
            reveal_strlit("/upnp/ConnectionManager.xml");
            reveal_strlit("/upnp/RenderingControl.xml");
            reveal_strlit("AVTransport");
            reveal_strlit("ConnectionManager");
            reveal_strlit("RenderingControl");
        }
        let r = match self {
            Services::AVTransport(_) => "/upnp/AVTransport.xml",
            Services::ConnectionManager(_) => "/upnp/ConnectionManager.xml",
            Services::RenderingControl(_) => "/upnp/RenderingControl.xml",
        };
        assert(r@ =~= scpd_url_spec(*self));
        r
    }

    /// Event subscription URL for this service (e.g., "/upnp/event/AVTransport").
    pub fn event_url(&self) -> (r: &'static str)
        ensures
            r@ == event_url_spec(*self),
    {
        proof {
            reveal_strlit("/upnp/event/");
            reveal_strlit("/upnp/event/AVTransport");
            reveal_strlit("/upnp/event/ConnectionManager");
            reveal_strlit("/upnp/event/RenderingControl");
            reveal_strlit("AVTransport");
            reveal_strlit("ConnectionManager");
            reveal_strlit("RenderingControl");
        }
        let r = match self {
            Services::AVTransport(_) => "/upnp/event/AVTransport",
            Services::ConnectionManager(_) => "/upnp/event/ConnectionManager",
            Services::RenderingControl(_) => "/upnp/event/RenderingControl",
        };
        assert(r@ =~= event_url_spec(*self));
        r
    }

    /// Lookup service by name
    pub fn service_from_name(name: &str) -> (r: Option<Services>)
        ensures
            r == service_from_name_spec(name@),
    {
        if str_eq(name, "AVTransport") {
            Some(Services::AVTransport(ServiceVersion::V3))
        } else if str_eq(name, "ConnectionManager") {
            Some(Services::ConnectionManager(ServiceVersion::V3))
        } else if str_eq(name, "RenderingControl") {
            Some(Services::RenderingControl(ServiceVersion::V3))
        } else {
            None
        }
    }

    /// Lookup service by full namespace URN (e.g., "urn:schemas-upnp-org:service:AVTransport:1")
    pub fn namespace_from_string(urn: &str) -> (r: Option<Services>)
        ensures
            r == namespace_from_string_spec(urn@),
    {
        let cs = chars_of(urn);
        let i = match last_index_of_exec(&cs, ':') {
            Some(i) => i,
            None => return None,
        };
        proof {
            lemma_last_index_in_range(cs@, ':');
        }
        let ver = string_from_range(&cs, i + 1, cs.len());
        let service_version = if str_eq(ver.as_str(), "1") {
            ServiceVersion::V1
        } else if str_eq(ver.as_str(), "2") {
            ServiceVersion::V2
        } else if str_eq(ver.as_str(), "3") {
            ServiceVersion::V3
        } else {
            return None;
        };
        let base = string_from_range(&cs, 0, i);
        if str_eq(base.as_str(), "urn:schemas-upnp-org:service:AVTransport") {
            Some(Services::AVTransport(service_version))
        } else if str_eq(base.as_str(), "urn:schemas-upnp-org:service:ConnectionManager") {
            Some(Services::ConnectionManager(service_version))
        } else if str_eq(base.as_str(), "urn:schemas-upnp-org:service:RenderingControl") {
            Some(Services::RenderingControl(service_version))
        } else {
            None
        }
    }
}

proof fn lemma_last_index_in_range(s: Seq<char>, c: char)
    ensures
        last_index_of(s, c) matches Some(i) ==> 0 <= i < s.len() && s[i] == c,
        forall|j: int|
            #![trigger s[j]]
            last_index_of(s, c) matches Some(i) && i < j < s.len() ==> s[j] != c,
        last_index_of(s, c) is None ==> forall|j: int| 0 <= j < s.len() ==> s[j] != c,
    decreases s.len(),
{
    if s.len() > 0 && s.last() != c {
        lemma_last_index_in_range(s.drop_last(), c);
        assert forall|j: int| 0 <= j < s.len() - 1 implies #[trigger] s[j] == s.drop_last()[j] by {}
    }
}

/// The characters of a version number never include `:`.
proof fn lemma_version_text(v: ServiceVersion)
    ensures
        nat_to_decimal(version_number(v)) == seq![digit_char(version_number(v))],
        digit_char(version_number(v)) != ':',
        version_from_text(nat_to_decimal(version_number(v))) == Some(v),
{
    reveal_strlit("1");
    reveal_strlit("2");
    reveal_strlit("3");
    assert(nat_to_decimal(version_number(v)) =~= seq![digit_char(version_number(v))]);
    match v {
        ServiceVersion::V1 => {
            assert(nat_to_decimal(1) =~= "1"@);
            assert("2"@[0] == '2');
        },
        ServiceVersion::V2 => {
            assert(nat_to_decimal(2) =~= "2"@);
            assert("1"@[0] == '1');
        },
        ServiceVersion::V3 => {
            assert(nat_to_decimal(3) =~= "3"@);
            assert("1"@[0] == '1');
            assert("2"@[0] == '2');
        },
    }
}

/// Reading back the full namespace URN of a service gives that service:
/// `namespace_from_string(s.full_namespace()) == Some(s)`.
pub proof fn lemma_namespace_roundtrip(s: Services)
    ensures
        namespace_from_string_spec(full_namespace_spec(s)) == Some(s),
{
    let base = base_namespace_spec(s);
    let v = service_version_spec(s);
    let d = nat_to_decimal(version_number(v));
    lemma_version_text(v);
    let urn = full_namespace_spec(s);
    assert(urn == base + ":"@ + d);
    reveal_strlit(":");
    assert(urn.drop_last() =~= base + ":"@);
    assert(urn.last() == digit_char(version_number(v)));
    assert((base + ":"@).last() == ':');
    assert(last_index_of(urn.drop_last(), ':') == Some(base.len() as int));
    assert(last_index_of(urn, ':') == Some(base.len() as int));
    assert(urn.subrange(base.len() as int + 1, urn.len() as int) =~= d);
    assert(urn.subrange(0, base.len() as int) =~= base);
    reveal_strlit("urn:schemas-upnp-org:service:AVTransport");
    reveal_strlit("urn:schemas-upnp-org:service:ConnectionManager");
    reveal_strlit("urn:schemas-upnp-org:service:RenderingControl");
    match s {
        Services::AVTransport(_) => {},
        Services::ConnectionManager(_) => {
            assert(base.len() != "urn:schemas-upnp-org:service:AVTransport"@.len());
        },
        Services::RenderingControl(_) => {
            assert(base.len() != "urn:schemas-upnp-org:service:AVTransport"@.len());
            assert(base.len() != "urn:schemas-upnp-org:service:ConnectionManager"@.len());
        },
    }
}

/// Looking a service up by its own name gives that service at version 3.
pub proof fn lemma_service_from_own_name(s: Services)
    ensures
        service_from_name_spec(service_name_spec(s)) matches Some(t) && service_name_spec(t)
            == service_name_spec(s) && service_version_spec(t) == ServiceVersion::V3,
{
    reveal_strlit("AVTransport");
    reveal_strlit("ConnectionManager");
    reveal_strlit("RenderingControl");
    match s {
        Services::AVTransport(_) => {},
        Services::ConnectionManager(_) => {
            assert("ConnectionManager"@.len() != "AVTransport"@.len());
        },
        Services::RenderingControl(_) => {
            assert("RenderingControl"@.len() != "AVTransport"@.len());
            assert("RenderingControl"@.len() != "ConnectionManager"@.len());
        },
    }
}

// ---------------------------------------------------------------------------
// Error
// ---------------------------------------------------------------------------

/// Generic UPnP Device Architecture error codes (codes 400-699).
///
/// These are defined by the UPnP Device Architecture specification and apply
/// across all services (AVTransport, RenderingControl, ConnectionManager, etc.).
/// Service-specific error codes (700-799) are defined in their respective modules.
#[derive(Debug, Clone, Copy, PartialEq, Eq, Structural, Hash)]
pub enum Error {
    InvalidAction,
    InvalidArgs,
    ActionFailed,
    ArgumentValueInvalid,
    ArgumentValueOutOfRange,
    OptionalActionNotImplemented,
    OutOfMemory,
    HumanInterventionRequired,
    StringArgumentTooLong,
}

/// The numeric code of each `Error` value.
pub open spec fn upnp_error_code(e: Error) -> u16 {
    match e {
        Error::InvalidAction => 401,
        Error::InvalidArgs => 402,
        Error::ActionFailed => 501,
        Error::ArgumentValueInvalid => 600,
        Error::ArgumentValueOutOfRange => 601,
        Error::OptionalActionNotImplemented => 602,
        Error::OutOfMemory => 603,
        Error::HumanInterventionRequired => 604,
        Error::StringArgumentTooLong => 605,
    }
}

/// The human-readable description of each `Error` value.
pub open spec fn upnp_error_description(e: Error) -> Seq<char> {
    match e {
        Error::InvalidAction => "No action by that name in service"@,
        Error::InvalidArgs => "Arguments are wrong (order, type, count)"@,
        Error::ActionFailed => "General failure; state prevents execution"@,
        Error::ArgumentValueInvalid => "Argument value is not valid"@,
        Error::ArgumentValueOutOfRange => "Value outside of allowed range"@,
        Error::OptionalActionNotImplemented => "Optional action not supported"@,
        Error::OutOfMemory => "Device cannot complete action"@,
        Error::HumanInterventionRequired => "User action needed (for example, media slot empty)"@,
        Error::StringArgumentTooLong => "String exceeds maximum length"@,
    }
}

/// The `Error` value with the given numeric code, if any.
pub open spec fn upnp_error_from_code(code: u16) -> Option<Error> {
    match code {
        401 => Some(Error::InvalidAction),
        402 => Some(Error::InvalidArgs),
        501 => Some(Error::ActionFailed),
        600 => Some(Error::ArgumentValueInvalid),
        601 => Some(Error::ArgumentValueOutOfRange),
        602 => Some(Error::OptionalActionNotImplemented),
        603 => Some(Error::OutOfMemory),
        604 => Some(Error::HumanInterventionRequired),
        605 => Some(Error::StringArgumentTooLong),
        _ => None,
    }
}

impl Error {
    /// Returns the numeric error code.
    pub fn code(&self) -> (r: u16)
        ensures
            r == upnp_error_code(*self),
    {
        match self {
            Error::InvalidAction => 401,
            Error::InvalidArgs => 402,
            Error::ActionFailed => 501,
            Error::ArgumentValueInvalid => 600,
            Error::ArgumentValueOutOfRange => 601,
            Error::OptionalActionNotImplemented => 602,
            Error::OutOfMemory => 603,
            Error::HumanInterventionRequired => 604,
            Error::StringArgumentTooLong => 605,
        }
    }

    /// Returns the human-readable error description.
    pub fn description(&self) -> (r: &'static str)
        ensures
            r@ == upnp_error_description(*self),
    {
        match self {
            Error::InvalidAction => "No action by that name in service",
            Error::InvalidArgs => "Arguments are wrong (order, type, count)",
            Error::ActionFailed => "General failure; state prevents execution",
            Error::ArgumentValueInvalid => "Argument value is not valid",
            Error::ArgumentValueOutOfRange => "Value outside of allowed range",
            Error::OptionalActionNotImplemented => "Optional action not supported",
            Error::OutOfMemory => "Device cannot complete action",
            Error::HumanInterventionRequired => "User action needed (for example, media slot empty)",
            Error::StringArgumentTooLong => "String exceeds maximum length",
        }
    }

    /// Lookup an error by its numeric code.
    pub fn from_code(code: u16) -> (r: Option<Self>)
        ensures
            r == upnp_error_from_code(code),
    {
        match code {
            401 => Some(Error::InvalidAction),
            402 => Some(Error::InvalidArgs),
            501 => Some(Error::ActionFailed),
            600 => Some(Error::ArgumentValueInvalid),
            601 => Some(Error::ArgumentValueOutOfRange),
            602 => Some(Error::OptionalActionNotImplemented),
            603 => Some(Error::OutOfMemory),
            604 => Some(Error::HumanInterventionRequired),
            605 => Some(Error::StringArgumentTooLong),
            _ => None,
        }
    }

    /// The display text: `UPnP Error <code>: <description>`.
    pub fn message(&self) -> (r: String)
        ensures
            r@ == "UPnP Error "@ + nat_to_decimal(upnp_error_code(*self) as nat) + ": "@ + upnp_error_description(*self),
    {
        let mut s = to_owned_string("UPnP Error ");
        push_decimal(&mut s, self.code() as u64);
        push_str(&mut s, ": ");
        push_str(&mut s, self.description());
        s
    }
}

/// Looking an error up by its own code gives that error back.
pub proof fn lemma_upnp_error_code_roundtrip(e: Error)
    ensures
        upnp_error_from_code(upnp_error_code(e)) == Some(e),
{
}

/// A code that names an error is that error's code.
pub proof fn lemma_upnp_error_from_code_inverse(code: u16)
    ensures
        upnp_error_from_code(code) matches Some(e) ==> upnp_error_code(e) == code,
{
}


// ---------------------------------------------------------------------------
// DataType — unified type + value enum
// ---------------------------------------------------------------------------

/// UPnP standard data types (UPnP-av-2.0 spec §4.2).
///
/// Each variant carries both the type tag and its value: the variant name is the
/// wire type, the inner field is the value.
#[derive(Debug)]
pub enum DataType {
    Ui1(u8),
    Ui2(u16),
    Ui4(u32),
    I1(i8),
    I2(i16),
    I4(i32),
    I8(i64),
    Decimal(String),
    Char(char),
    String(String),
    Date(String),
    DateTime(String),
    Boolean(bool),
    Base64(String),
    HexBinary(String),
    Uri(String),
    Uuid(String),
}

/// The mathematical value of a `DataType`: strings as character sequences.
pub enum DataValue {
    Ui1(u8),
    Ui2(u16),
    Ui4(u32),
    I1(i8),
    I2(i16),
    I4(i32),
    I8(i64),
    Decimal(Seq<char>),
    Char(char),
    String(Seq<char>),
    Date(Seq<char>),
    DateTime(Seq<char>),
    Boolean(bool),
    Base64(Seq<char>),
    HexBinary(Seq<char>),
    Uri(Seq<char>),
    Uuid(Seq<char>),
}

impl View for DataType {
    type V = DataValue;

    open spec fn view(&self) -> DataValue {
        match self {
            DataType::Ui1(v) => DataValue::Ui1(*v),
            DataType::Ui2(v) => DataValue::Ui2(*v),
            DataType::Ui4(v) => DataValue::Ui4(*v),
            DataType::I1(v) => DataValue::I1(*v),
            DataType::I2(v) => DataValue::I2(*v),
            DataType::I4(v) => DataValue::I4(*v),
            DataType::I8(v) => DataValue::I8(*v),
            DataType::Decimal(v) => DataValue::Decimal(v@),
            DataType::Char(v) => DataValue::Char(*v),
            DataType::String(v) => DataValue::String(v@),
            DataType::Date(v) => DataValue::Date(v@),
            DataType::DateTime(v) => DataValue::DateTime(v@),
            DataType::Boolean(v) => DataValue::Boolean(*v),
            DataType::Base64(v) => DataValue::Base64(v@),
            DataType::HexBinary(v) => DataValue::HexBinary(v@),
            DataType::Uri(v) => DataValue::Uri(v@),
            DataType::Uuid(v) => DataValue::Uuid(v@),
        }
    }
}

/// The UPnP wire-format type name of a value (used in SCPD documents).
pub open spec fn wire_type_name(v: DataValue) -> Seq<char> {
    match v {
        DataValue::Ui1(_) => "ui1"@,
        DataValue::Ui2(_) => "ui2"@,
        DataValue::Ui4(_) => "ui4"@,
        DataValue::I1(_) => "i1"@,
        DataValue::I2(_) => "i2"@,
        DataValue::I4(_) => "i4"@,
        DataValue::I8(_) => "i8"@,
        DataValue::Decimal(_) => "number"@,
        DataValue::Char(_) => "char"@,
        DataValue::String(_) => "string"@,
        DataValue::Date(_) => "date"@,
        DataValue::DateTime(_) => "dateTime"@,
        DataValue::Boolean(_) => "boolean"@,
        DataValue::Base64(_) => "bin.base64"@,
        DataValue::HexBinary(_) => "bin.hex"@,
        DataValue::Uri(_) => "uri"@,
        DataValue::Uuid(_) => "uuid"@,
    }
}

/// The UPnP string representation of a value (SOAP and LastChange):
/// integers in decimal, booleans as `1`/`0`, text as is.
pub open spec fn value_text(v: DataValue) -> Seq<char> {
    match v {
        DataValue::Ui1(x) => nat_to_decimal(x as nat),
        DataValue::Ui2(x) => nat_to_decimal(x as nat),
        DataValue::Ui4(x) => nat_to_decimal(x as nat),
        DataValue::I1(x) => int_to_decimal(x as int),
        DataValue::I2(x) => int_to_decimal(x as int),
        DataValue::I4(x) => int_to_decimal(x as int),
        DataValue::I8(x) => int_to_decimal(x as int),
        DataValue::Decimal(s) => s,
        DataValue::Char(c) => seq![c],
        DataValue::String(s) => s,
        DataValue::Date(s) => s,
        DataValue::DateTime(s) => s,
        DataValue::Boolean(b) => if b {
            "1"@
        } else {
            "0"@
        },
        DataValue::Base64(s) => s,
        DataValue::HexBinary(s) => s,
        DataValue::Uri(s) => s,
        DataValue::Uuid(s) => s,
    }
}

fn clone_string(s: &String) -> (r: String)
    ensures
        r@ == s@,
{
    s.clone()
}

impl DataType {
    /// Returns the UPnP wire-format type name for SCPD XML generation.
    pub fn as_str(&self) -> (r: &'static str)
        ensures
            r@ == wire_type_name(self@),
    {
        match self {
            DataType::Ui1(_) => "ui1",
            DataType::Ui2(_) => "ui2",
            DataType::Ui4(_) => "ui4",
            DataType::I1(_) => "i1",
            DataType::I2(_) => "i2",
            DataType::I4(_) => "i4",
            DataType::I8(_) => "i8",
            DataType::Decimal(_) => "number",
            DataType::Char(_) => "char",
            DataType::String(_) => "string",
            DataType::Date(_) => "date",
            DataType::DateTime(_) => "dateTime",
            DataType::Boolean(_) => "boolean",
            DataType::Base64(_) => "bin.base64",
            DataType::HexBinary(_) => "bin.hex",
            DataType::Uri(_) => "uri",
            DataType::Uuid(_) => "uuid",
        }
    }

    /// Convert to UPnP string representation for SOAP/LastChange.
    pub fn as_value_str(&self) -> (r: String)
        ensures
            r@ == value_text(self@),
    {
        match self {
            DataType::Ui1(v) => u64_to_string(*v as u64),
            DataType::Ui2(v) => u64_to_string(*v as u64),
            DataType::Ui4(v) => u64_to_string(*v as u64),
            DataType::I1(v) => i64_to_string(*v as i64),
            DataType::I2(v) => i64_to_string(*v as i64),
            DataType::I4(v) => i64_to_string(*v as i64),
            DataType::I8(v) => i64_to_string(*v),
            DataType::Decimal(v) => clone_string(v),
            DataType::Char(c) => {
                let mut s = String::new();
                push_char(&mut s, *c);
                assert(s@ =~= seq![*c]);
                s
            },
            DataType::String(v) => clone_string(v),
            DataType::Date(v) => clone_string(v),
            DataType::DateTime(v) => clone_string(v),
            DataType::Boolean(b) => {
                if *b {
                    to_owned_string("1")
                } else {
                    to_owned_string("0")
                }
            },
            DataType::Base64(v) => clone_string(v),
            DataType::HexBinary(v) => clone_string(v),
            DataType::Uri(v) => clone_string(v),
            DataType::Uuid(v) => clone_string(v),
        }
    }

    /// True when both hold the same type and the same value.
    pub fn same_value(&self, other: &DataType) -> (r: bool)
        ensures
            r == (self@ == other@),
    {
        match (self, other) {
            (DataType::Ui1(a), DataType::Ui1(b)) => *a == *b,
            (DataType::Ui2(a), DataType::Ui2(b)) => *a == *b,
            (DataType::Ui4(a), DataType::Ui4(b)) => *a == *b,
            (DataType::I1(a), DataType::I1(b)) => *a == *b,
            (DataType::I2(a), DataType::I2(b)) => *a == *b,
            (DataType::I4(a), DataType::I4(b)) => *a == *b,
            (DataType::I8(a), DataType::I8(b)) => *a == *b,
            (DataType::Decimal(a), DataType::Decimal(b)) => str_eq(a.as_str(), b.as_str()),
            (DataType::Char(a), DataType::Char(b)) => *a == *b,
            (DataType::String(a), DataType::String(b)) => str_eq(a.as_str(), b.as_str()),
            (DataType::Date(a), DataType::Date(b)) => str_eq(a.as_str(), b.as_str()),
            (DataType::DateTime(a), DataType::DateTime(b)) => str_eq(a.as_str(), b.as_str()),
            (DataType::Boolean(a), DataType::Boolean(b)) => *a == *b,
            (DataType::Base64(a), DataType::Base64(b)) => str_eq(a.as_str(), b.as_str()),
            (DataType::HexBinary(a), DataType::HexBinary(b)) => str_eq(a.as_str(), b.as_str()),
            (DataType::Uri(a), DataType::Uri(b)) => str_eq(a.as_str(), b.as_str()),
            (DataType::Uuid(a), DataType::Uuid(b)) => str_eq(a.as_str(), b.as_str()),
            _ => false,
        }
    }

    /// A copy holding the same type and value.
    pub fn duplicate(&self) -> (r: DataType)
        ensures
            r@ == self@,
    {
        match self {
            DataType::Ui1(v) => DataType::Ui1(*v),
            DataType::Ui2(v) => DataType::Ui2(*v),
            DataType::Ui4(v) => DataType::Ui4(*v),
            DataType::I1(v) => DataType::I1(*v),
            DataType::I2(v) => DataType::I2(*v),
            DataType::I4(v) => DataType::I4(*v),
            DataType::I8(v) => DataType::I8(*v),
            DataType::Decimal(v) => DataType::Decimal(clone_string(v)),
            DataType::Char(v) => DataType::Char(*v),
            DataType::String(v) => DataType::String(clone_string(v)),
            DataType::Date(v) => DataType::Date(clone_string(v)),
            DataType::DateTime(v) => DataType::DateTime(clone_string(v)),
            DataType::Boolean(v) => DataType::Boolean(*v),
            DataType::Base64(v) => DataType::Base64(clone_string(v)),
            DataType::HexBinary(v) => DataType::HexBinary(clone_string(v)),
            DataType::Uri(v) => DataType::Uri(clone_string(v)),
            DataType::Uuid(v) => DataType::Uuid(clone_string(v)),
        }
    }
}

impl Clone for DataType {
    fn clone(&self) -> (r: Self)
        ensures
            r@ == self@,
    {
        self.duplicate()
    }
}

impl PartialEq for DataType {
    fn eq(&self, other: &Self) -> (r: bool) {
        self.same_value(other)
    }
}

impl vstd::std_specs::cmp::PartialEqSpecImpl for DataType {
    open spec fn obeys_eq_spec() -> bool {
        true
    }

    open spec fn eq_spec(&self, other: &DataType) -> bool {
        self@ == other@
    }
}

impl From<u8> for DataType {
    fn from(v: u8) -> (r: Self) {
        DataType::Ui1(v)
    }
}

impl vstd::std_specs::convert::FromSpecImpl<u8> for DataType {
    open spec fn obeys_from_spec() -> bool {
        true
    }

    open spec fn from_spec(v: u8) -> Self {
        DataType::Ui1(v)
    }
}

impl From<u16> for DataType {
    fn from(v: u16) -> (r: Self) {
        DataType::Ui2(v)
    }
}

impl vstd::std_specs::convert::FromSpecImpl<u16> for DataType {
    open spec fn obeys_from_spec() -> bool {
        true
    }

    open spec fn from_spec(v: u16) -> Self {
        DataType::Ui2(v)
    }
}

impl From<u32> for DataType {
    fn from(v: u32) -> (r: Self) {
        DataType::Ui4(v)
    }
}

impl vstd::std_specs::convert::FromSpecImpl<u32> for DataType {
    open spec fn obeys_from_spec() -> bool {
        true
    }

    open spec fn from_spec(v: u32) -> Self {
        DataType::Ui4(v)
    }
}

impl From<i8> for DataType {
    fn from(v: i8) -> (r: Self) {
        DataType::I1(v)
    }
}

impl vstd::std_specs::convert::FromSpecImpl<i8> for DataType {
    open spec fn obeys_from_spec() -> bool {
        true
    }

    open spec fn from_spec(v: i8) -> Self {
        DataType::I1(v)
    }
}

impl From<i16> for DataType {
    fn from(v: i16) -> (r: Self) {
        DataType::I2(v)
    }
}

impl vstd::std_specs::convert::FromSpecImpl<i16> for DataType {
    open spec fn obeys_from_spec() -> bool {
        true
    }

    open spec fn from_spec(v: i16) -> Self {
        DataType::I2(v)
    }
}

impl From<i32> for DataType {
    fn from(v: i32) -> (r: Self) {
        DataType::I4(v)
    }
}

impl vstd::std_specs::convert::FromSpecImpl<i32> for DataType {
    open spec fn obeys_from_spec() -> bool {
        true
    }

    open spec fn from_spec(v: i32) -> Self {
        DataType::I4(v)
    }
}

impl From<i64> for DataType {
    fn from(v: i64) -> (r: Self) {
        DataType::I8(v)
    }
}

impl vstd::std_specs::convert::FromSpecImpl<i64> for DataType {
    open spec fn obeys_from_spec() -> bool {
        true
    }

    open spec fn from_spec(v: i64) -> Self {
        DataType::I8(v)
    }
}

impl From<bool> for DataType {
    fn from(v: bool) -> (r: Self) {
        DataType::Boolean(v)
    }
}

impl vstd::std_specs::convert::FromSpecImpl<bool> for DataType {
    open spec fn obeys_from_spec() -> bool {
        true
    }

    open spec fn from_spec(v: bool) -> Self {
        DataType::Boolean(v)
    }
}

impl From<String> for DataType {
    fn from(v: String) -> (r: Self) {
        DataType::String(v)
    }
}

impl vstd::std_specs::convert::FromSpecImpl<String> for DataType {
    open spec fn obeys_from_spec() -> bool {
        true
    }

    open spec fn from_spec(v: String) -> Self {
        DataType::String(v)
    }
}

/// Unified UPnP data type and value (the name used by the state store).
pub type StateValue = DataType;

// ---------------------------------------------------------------------------
// Argument and action definitions
// ---------------------------------------------------------------------------

/// Direction of an action argument.
#[derive(Debug, Clone, Copy, PartialEq, Eq, Structural)]
pub enum ArgumentDirection {
    IN,
    OUT,
}

/// One argument of an action, as declared in the SCPD document.
#[derive(Debug, Clone)]
pub struct ArgumentDefinition<Arg, S> {
    pub name: Arg,
    pub direction: ArgumentDirection,
    pub related_state_var: Option<S>,
}

/// An action with its IN and OUT arguments.
#[derive(Debug, Clone)]
pub struct ActionDefinition<A, Arg, S> {
    pub name: A,
    pub in_args: Vec<ArgumentDefinition<Arg, S>>,
    pub out_args: Vec<ArgumentDefinition<Arg, S>>,
}

/// The view of a statically named argument definition.
pub open spec fn static_arg_view(a: ArgumentDefinition<&'static str, &'static str>) -> (
    Seq<char>,
    ArgumentDirection,
    Option<Seq<char>>,
) {
    (
        a.name@,
        a.direction,
        match a.related_state_var {
            Some(s) => Some(s@),
            None => None,
        },
    )
}

/// The view of an owned argument definition.
pub open spec fn owned_arg_view(a: ArgumentDefinition<String, String>) -> (
    Seq<char>,
    ArgumentDirection,
    Option<Seq<char>>,
) {
    (
        a.name@,
        a.direction,
        match a.related_state_var {
            Some(s) => Some(s@),
            None => None,
        },
    )
}

/// Owned copies of statically named argument definitions.
pub fn own_arguments(args: &Vec<ArgumentDefinition<&'static str, &'static str>>) -> (r: Vec<
    ArgumentDefinition<String, String>,
>)
    ensures
        r@.len() == args@.len(),
        forall|i: int| 0 <= i < r@.len() ==> owned_arg_view(#[trigger] r@[i]) == static_arg_view(args@[i]),
{
    let mut r: Vec<ArgumentDefinition<String, String>> = Vec::new();
    let mut i: usize = 0;
    while i < args.len()
        invariant
            i <= args@.len(),
            r@.len() == i,
            forall|j: int| 0 <= j < i ==> owned_arg_view(#[trigger] r@[j]) == static_arg_view(args@[j]),
        decreases args.len() - i,
    {
        let a = &args[i];
        let related = match a.related_state_var {
            Some(s) => Some(to_owned_string(s)),
            None => None,
        };
        r.push(ArgumentDefinition { name: to_owned_string(a.name), direction: a.direction, related_state_var: related });
        i = i + 1;
    }
    r
}

// ---------------------------------------------------------------------------
// ActionArgs — key-value store for SOAP arguments
// ---------------------------------------------------------------------------

/// The view of a list of owned key-value pairs.
pub open spec fn pairs_view(p: Seq<(String, String)>) -> Seq<(Seq<char>, Seq<char>)> {
    p.map_values(|kv: (String, String)| (kv.0@, kv.1@))
}

/// `k` occurs as a key in `p`.
pub open spec fn has_key(p: Seq<(Seq<char>, Seq<char>)>, k: Seq<char>) -> bool {
    exists|i: int| 0 <= i < p.len() && #[trigger] p[i].0 == k
}

/// `i` is the first position at which `k` occurs as a key.
pub open spec fn is_first_key(p: Seq<(Seq<char>, Seq<char>)>, k: Seq<char>, i: int) -> bool {
    &&& 0 <= i < p.len()
    &&& p[i].0 == k
    &&& forall|j: int| 0 <= j < i ==> #[trigger] p[j].0 != k
}

/// The first position at which `k` occurs as a key (meaningful when `has_key`).
pub open spec fn first_key(p: Seq<(Seq<char>, Seq<char>)>, k: Seq<char>) -> int {
    choose|i: int| is_first_key(p, k, i)
}

/// The value stored under the first occurrence of `k`.
pub open spec fn lookup(p: Seq<(Seq<char>, Seq<char>)>, k: Seq<char>) -> Option<Seq<char>> {
    if has_key(p, k) {
        Some(p[first_key(p, k)].1)
    } else {
        None
    }
}

/// `p` after setting `k` to `v`: the first pair with key `k` is replaced, or the
/// pair is appended when `k` is absent.
pub open spec fn assign(p: Seq<(Seq<char>, Seq<char>)>, k: Seq<char>, v: Seq<char>) -> Seq<
    (Seq<char>, Seq<char>),
> {
    if has_key(p, k) {
        p.update(first_key(p, k), (k, v))
    } else {
        p.push((k, v))
    }
}

/// When `k` occurs in `p`, its first occurrence exists and is unique.
pub proof fn lemma_first_key(p: Seq<(Seq<char>, Seq<char>)>, k: Seq<char>)
    ensures
        has_key(p, k) ==> is_first_key(p, k, first_key(p, k)),
        forall|i: int| is_first_key(p, k, i) ==> i == first_key(p, k),
    decreases p.len(),
{
    if has_key(p, k) {
        if p[0].0 == k {
            assert(is_first_key(p, k, 0));
        } else {
            let t = p.drop_first();
            let w = choose|i: int| 0 <= i < p.len() && #[trigger] p[i].0 == k;
            assert(t[w - 1].0 == k);
            lemma_first_key(t, k);
            let f = first_key(t, k);
            assert forall|j: int| 0 <= j < f + 1 implies #[trigger] p[j].0 != k by {
                if j > 0 {
                    assert(p[j] == t[j - 1]);
                }
            }
            assert(is_first_key(p, k, f + 1));
        }
    }
    assert forall|i: int| is_first_key(p, k, i) implies i == first_key(p, k) by {
        let f = first_key(p, k);
        assert(is_first_key(p, k, f));
        if i < f {
            assert(p[i].0 != k);
        } else if f < i {
            assert(p[f].0 != k);
        }
    }
}

/// After setting `k` to `v`, reading `k` gives `v`.
pub proof fn lemma_assign_lookup_same(p: Seq<(Seq<char>, Seq<char>)>, k: Seq<char>, v: Seq<char>)
    ensures
        lookup(assign(p, k, v), k) == Some(v),
{
    lemma_first_key(p, k);
    let q = assign(p, k, v);
    if has_key(p, k) {
        let f = first_key(p, k);
        assert(q[f].0 == k);
        assert(is_first_key(q, k, f));
        lemma_first_key(q, k);
    } else {
        let n = p.len() as int;
        assert(q[n].0 == k);
        assert forall|j: int| 0 <= j < n implies #[trigger] q[j].0 != k by {
            assert(q[j] == p[j]);
        }
        assert(is_first_key(q, k, n));
        lemma_first_key(q, k);
    }
}

/// Setting `k` does not change what another key reads.
pub proof fn lemma_assign_lookup_other(
    p: Seq<(Seq<char>, Seq<char>)>,
    k: Seq<char>,
    v: Seq<char>,
    m: Seq<char>,
)
    requires
        m != k,
    ensures
        lookup(assign(p, k, v), m) == lookup(p, m),
{
    lemma_first_key(p, k);
    lemma_first_key(p, m);
    let q = assign(p, k, v);
    assert forall|j: int| 0 <= j < q.len() && j < p.len() implies (#[trigger] q[j].0 == m) == (p[j].0 == m) by {
        if has_key(p, k) && j == first_key(p, k) {
        } else {
            assert(q[j] == p[j]);
        }
    }
    if has_key(p, m) {
        let f = first_key(p, m);
        assert(q[f].0 == m);
        assert(is_first_key(q, m, f));
        lemma_first_key(q, m);
        if has_key(p, k) && f == first_key(p, k) {
        } else {
            assert(q[f] == p[f]);
        }
    } else {
        assert forall|j: int| 0 <= j < q.len() implies #[trigger] q[j].0 != m by {
            if j < p.len() {
            } else {
                assert(q[j].0 == k);
            }
        }
    }
}

/// Setting the same key twice keeps only the second value.
pub proof fn lemma_assign_twice(p: Seq<(Seq<char>, Seq<char>)>, k: Seq<char>, v1: Seq<char>, v2: Seq<char>)
    ensures
        assign(assign(p, k, v1), k, v2) == assign(p, k, v2),
{
    lemma_first_key(p, k);
    let q = assign(p, k, v1);
    if has_key(p, k) {
        let f = first_key(p, k);
        assert(q[f].0 == k);
        assert forall|j: int| 0 <= j < f implies #[trigger] q[j].0 != k by {
            assert(q[j] == p[j]);
        }
        assert(is_first_key(q, k, f));
        lemma_first_key(q, k);
        assert(assign(q, k, v2) =~= assign(p, k, v2));
    } else {
        let n = p.len() as int;
        assert(q[n].0 == k);
        assert forall|j: int| 0 <= j < n implies #[trigger] q[j].0 != k by {
            assert(q[j] == p[j]);
        }
        assert(is_first_key(q, k, n));
        lemma_first_key(q, k);
        assert(assign(q, k, v2) =~= assign(p, k, v2));
    }
}

/// Key-value store for SOAP action arguments.
///
/// Values are strings; conversion to and from Rust types happens at the SOAP
/// boundary.
#[derive(Debug, Clone)]
pub struct ActionArgs {
    pairs: Vec<(String, String)>,
}

impl View for ActionArgs {
    type V = Seq<(Seq<char>, Seq<char>)>;

    closed spec fn view(&self) -> Seq<(Seq<char>, Seq<char>)> {
        pairs_view(self.pairs@)
    }
}

impl Default for ActionArgs {
    fn default() -> (r: Self)
        ensures
            r@ == Seq::<(Seq<char>, Seq<char>)>::empty(),
    {
        ActionArgs::new()
    }
}

impl ActionArgs {
    /// An empty argument list.
    pub fn new() -> (r: Self)
        ensures
            r@ == Seq::<(Seq<char>, Seq<char>)>::empty(),
    {
        let r = ActionArgs { pairs: Vec::new() };
        assert(r@ =~= Seq::<(Seq<char>, Seq<char>)>::empty());
        r
    }

    /// An argument list holding exactly the given pairs, in order.
    pub fn from_pairs(pairs: Vec<(String, String)>) -> (r: Self)
        ensures
            r@ == pairs_view(pairs@),
    {
        ActionArgs { pairs }
    }

    /// Get a value by argument name.
    pub fn get(&self, name: &str) -> (r: Option<&str>)
        ensures
            match r {
                Some(v) => lookup(self@, name@) == Some(v@),
                None => lookup(self@, name@) is None,
            },
    {
        let ghost p = self@;
        let mut i: usize = 0;
        while i < self.pairs.len()
            invariant
                p == self@,
                p == pairs_view(self.pairs@),
                i <= self.pairs@.len(),
                forall|j: int| 0 <= j < i ==> #[trigger] p[j].0 != name@,
            decreases self.pairs.len() - i,
        {
            if str_eq(self.pairs[i].0.as_str(), name) {
                proof {
                    assert(is_first_key(p, name@, i as int));
                    lemma_first_key(p, name@);
                }
                return Some(self.pairs[i].1.as_str());
            }
            i = i + 1;
        }
        proof {
            assert(!has_key(p, name@));
        }
        None
    }

    /// Set a key-value pair: the first pair with this name is replaced, or the
    /// pair is appended.
    pub fn set(&mut self, name: String, value: String)
        ensures
            final(self)@ == assign(old(self)@, name@, value@),
    {
        let ghost p = self@;
        let mut i: usize = 0;
        while i < self.pairs.len()
            invariant
                p == pairs_view(self.pairs@),
                p == old(self)@,
                i <= self.pairs@.len(),
                forall|j: int| 0 <= j < i ==> #[trigger] p[j].0 != name@,
            decreases self.pairs.len() - i,
        {
            if str_eq(self.pairs[i].0.as_str(), name.as_str()) {
                proof {
                    assert(is_first_key(p, name@, i as int));
                    lemma_first_key(p, name@);
                }
                let ghost nv = (name@, value@);
                self.pairs[i] = (name, value);
                assert(pairs_view(self.pairs@) =~= p.update(i as int, nv));
                return;
            }
            i = i + 1;
        }
        proof {
            assert(!has_key(p, name@));
        }
        let ghost nv = (name@, value@);
        self.pairs.push((name, value));
        assert(pairs_view(self.pairs@) =~= p.push(nv));
    }

    /// Get all pairs.
    pub fn pairs(&self) -> (r: &[(String, String)])
        ensures
            pairs_view(r@) == self@,
    {
        self.pairs.as_slice()
    }

    /// Convert to owned pairs.
    pub fn into_pairs(self) -> (r: Vec<(String, String)>)
        ensures
            pairs_view(r@) == self@,
    {
        self.pairs
    }

    /// Check if empty.
    pub fn is_empty(&self) -> (r: bool)
        ensures
            r == (self@.len() == 0),
    {
        self.pairs.len() == 0
    }
}

// ---------------------------------------------------------------------------
// Action trait — runtime execution interface
// ---------------------------------------------------------------------------

/// The view of one argument definition: its name, direction and related
/// state variable.
pub type ArgView = (Seq<char>, ArgumentDirection, Option<Seq<char>>);

/// Trait for UPnP action implementations.
///
/// Each concrete action (Play, SetVolume, GetBrightness, ...) implements this
/// trait. The action carries its own schema metadata (name, IN/OUT arguments), so
/// the `ActionMap` and the SCPD document derive everything from it.
///
/// The spec functions say what each method gives: an implementation defines
/// them, and its methods are held to them. One that leaves them as they are
/// is held to the empty name and argument lists, and promises nothing of
/// `execute`.
pub trait Action: Send + Sync {
    /// The name `name` returns.
    open spec fn action_name(&self) -> Seq<char> {
        Seq::empty()
    }

    /// The views of the definitions `in_args` returns.
    open spec fn in_arg_views(&self) -> Seq<ArgView> {
        Seq::empty()
    }

    /// The views of the definitions `out_args` returns.
    open spec fn out_arg_views(&self) -> Seq<ArgView> {
        Seq::empty()
    }

    /// Whether `r` is a result that executing the action on arguments `args`
    /// may give.
    open spec fn outcome(&self, args: Seq<(Seq<char>, Seq<char>)>, r: Result<ActionArgs, Error>) -> bool {
        true
    }

    /// Returns the UPnP action name (e.g. "Play", "SetVolume", "GetTransportInfo").
    fn name(&self) -> (r: &'static str)
        ensures
            r@ == self.action_name(),
    ;

    /// Returns the IN argument definitions for this action.
    fn in_args(&self) -> (r: Vec<ArgumentDefinition<&'static str, &'static str>>)
        ensures
            r@.map_values(|a: ArgumentDefinition<&'static str, &'static str>| static_arg_view(a))
                == self.in_arg_views(),
    ;

    /// Returns the OUT argument definitions for this action.
    fn out_args(&self) -> (r: Vec<ArgumentDefinition<&'static str, &'static str>>)
        ensures
            r@.map_values(|a: ArgumentDefinition<&'static str, &'static str>| static_arg_view(a))
                == self.out_arg_views(),
    ;

    /// Execute the action with the given arguments: OUT arguments on success,
    /// or a UPnP error on failure.
    fn execute(&self, args: &ActionArgs) -> (r: Result<ActionArgs, Error>)
        ensures
            self.outcome(args@, r),
    ;
}

// ---------------------------------------------------------------------------
// ActionMap — runtime registry of actions for a service
// ---------------------------------------------------------------------------

/// `Vec::push`: the list grows by one, keeps its earlier elements, and ends
/// with `a`.
#[verifier::external_body]
fn push_last<T>(v: &mut Vec<T>, a: T)
    ensures
        final(v)@.len() == old(v)@.len() + 1,
        forall|i: int| 0 <= i < old(v)@.len() ==> final(v)@[i] == old(v)@[i],
        final(v)@ == old(v)@.push(a),
{
    v.push(a)
}

/// The views of owned argument definitions.
pub open spec fn owned_args_view(a: Seq<ArgumentDefinition<String, String>>) -> Seq<ArgView> {
    a.map_values(|d: ArgumentDefinition<String, String>| owned_arg_view(d))
}

/// An owned action definition with the given name and views of its IN and
/// OUT arguments.
pub open spec fn describes(
    d: ActionDefinition<String, String, String>,
    name: Seq<char>,
    ins: Seq<ArgView>,
    outs: Seq<ArgView>,
) -> bool {
    &&& d.name@ == name
    &&& owned_args_view(d.in_args@) == ins
    &&& owned_args_view(d.out_args@) == outs
}

/// `i` is the first position of `n` in `names`.
pub open spec fn first_position(names: Seq<Seq<char>>, n: Seq<char>, i: int) -> bool {
    0 <= i < names.len() && names[i] == n && forall|j: int| 0 <= j < i ==> names[j] != n
}

/// Runtime registry of actions for a service.
///
/// Maps action names to their implementations; used by the SOAP handler to
/// dispatch incoming requests.
pub struct ActionMap {
    namespace: Services,
    names: Vec<String>,
    actions: Vec<Box<dyn Action>>,
    action_defs: Vec<ActionDefinition<String, String, String>>,
}

/// The views of a list of strings.
pub open spec fn strings_view(a: Seq<String>) -> Seq<Seq<char>> {
    a.map_values(|e: String| e@)
}

/// A lock holding the action registry of one service: whatever is
/// registered, the registry stays that service's.
pub struct ActionMapLock {
    pub service: Services,
}

impl vstd::rwlock::RwLockPredicate<ActionMap> for ActionMapLock {
    open spec fn inv(self, v: ActionMap) -> bool {
        v.service() == self.service
    }
}

impl ActionMap {
    /// The service this registry belongs to.
    pub closed spec fn service(&self) -> Services {
        self.namespace
    }

    /// The names of the registered actions, in registration order.
    pub closed spec fn names(&self) -> Seq<Seq<char>> {
        strings_view(self.names@)
    }

    /// The definitions of the registered actions, in registration order.
    pub closed spec fn definitions(&self) -> Seq<ActionDefinition<String, String, String>> {
        self.action_defs@
    }

    /// The registered actions, in registration order.
    pub closed spec fn registered(&self) -> Seq<Box<dyn Action>> {
        self.actions@
    }

    /// Names, actions and definitions line up: at each position the name is
    /// the action's and the definition describes the action.
    pub open spec fn aligned(&self) -> bool {
        &&& self.registered().len() == self.names().len()
        &&& self.definitions().len() == self.names().len()
        &&& forall|i: int| 0 <= i < self.names().len() ==> #[trigger] self.names()[i] == self.registered()[i].action_name()
        &&& forall|i: int| 0 <= i < self.names().len() ==> describes(
            #[trigger] self.definitions()[i],
            self.registered()[i].action_name(),
            self.registered()[i].in_arg_views(),
            self.registered()[i].out_arg_views(),
        )
    }

    /// The registry's invariant: it stays aligned.
    #[verifier::type_invariant]
    pub open spec fn wf(&self) -> bool {
        self.aligned()
    }

    /// An empty registry for the given service.
    pub fn new(namespace: Services) -> (r: Self)
        ensures
            r.service() == namespace,
            r.names() == Seq::<Seq<char>>::empty(),
            r.definitions() == Seq::<ActionDefinition<String, String, String>>::empty(),
            r.registered() == Seq::<Box<dyn Action>>::empty(),
            r.aligned(),
    {
        let r = ActionMap {
            namespace,
            names: Vec::new(),
            actions: Vec::new(),
            action_defs: Vec::new(),
        };
        assert(r.names() =~= Seq::<Seq<char>>::empty());
        assert(r.registered() =~= Seq::<Box<dyn Action>>::empty());
        r
    }

    /// Register an action at the end of the registry; its name and argument
    /// definitions are read from the action itself.
    pub fn register(&mut self, action: Box<dyn Action>)
        ensures
            final(self).service() == old(self).service(),
            final(self).aligned(),
            final(self).registered().len() == old(self).registered().len() + 1,
            forall|i: int|
                0 <= i < old(self).registered().len() ==> #[trigger] final(self).registered()[i]
                    == old(self).registered()[i],
            final(self).registered() == old(self).registered().push(action),
            final(self).names() == old(self).names().push(final(self).registered().last().action_name()),
            final(self).definitions().len() == old(self).definitions().len() + 1,
            final(self).definitions().subrange(0, old(self).definitions().len() as int)
                == old(self).definitions(),
            describes(
                final(self).definitions().last(),
                final(self).registered().last().action_name(),
                final(self).registered().last().in_arg_views(),
                final(self).registered().last().out_arg_views(),
            ),
    {
        let mut taken = ActionMap::new(self.namespace);
        std::mem::swap(&mut taken, self);
        proof {
            use_type_invariant(&taken);
        }
        let ActionMap { namespace, mut names, mut actions, mut action_defs } = taken;
        let ghost old_names = names@;
        let ghost old_defs = action_defs@;
        let ghost old_acts = actions@;
        let ghost added = action;
        push_last(&mut actions, action);
        assert(actions@ == old_acts.push(added));
        let last = actions.len() - 1;
        let name = to_owned_string(actions[last].name());
        let raw_in = actions[last].in_args();
        let raw_out = actions[last].out_args();
        let in_args = own_arguments(&raw_in);
        let out_args = own_arguments(&raw_out);
        let def_name = clone_string(&name);
        let ghost a = actions@[last as int];
        names.push(name);
        action_defs.push(ActionDefinition { name: def_name, in_args, out_args });
        proof {
            assert(owned_args_view(action_defs@.last().in_args@) =~= a.in_arg_views());
            assert(owned_args_view(action_defs@.last().out_args@) =~= a.out_arg_views());
            assert(strings_view(names@) =~= strings_view(old_names).push(a.action_name()));
            assert(action_defs@.subrange(0, old_defs.len() as int) =~= old_defs);
            assert forall|i: int| 0 <= i < names@.len() implies #[trigger] strings_view(names@)[i]
                == actions@[i].action_name() && describes(
                action_defs@[i],
                actions@[i].action_name(),
                actions@[i].in_arg_views(),
                actions@[i].out_arg_views(),
            ) by {
                if i < old_names.len() {
                    assert(strings_view(old_names)[i] == old_acts[i].action_name());
                    assert(actions@[i] == old_acts[i]);
                    assert(action_defs@[i] == old_defs[i]);
                } else {
                    assert(action_defs@[i] == action_defs@.last());
                }
            }
        }
        *self = ActionMap { namespace, names, actions, action_defs };
    }

    /// Get an action by name: the first registered under that name.
    pub fn get(&self, name: &str) -> (r: Option<&Box<dyn Action>>)
        ensures
            match r {
                Some(a) => exists|i: int| #[trigger] first_position(self.names(), name@, i) && *a == self.registered()[i],
                None => !self.names().contains(name@),
            },
    {
        proof {
            use_type_invariant(self);
        }
        let mut i: usize = 0;
        while i < self.names.len()
            invariant
                self.actions@.len() == self.names@.len(),
                i <= self.names@.len(),
                forall|j: int| 0 <= j < i ==> #[trigger] self.names()[j] != name@,
            decreases self.names.len() - i,
        {
            if str_eq(self.names[i].as_str(), name) {
                assert(self.names()[i as int] == name@);
                assert(first_position(self.names(), name@, i as int));
                return Some(&self.actions[i]);
            }
            i = i + 1;
        }
        None
    }

    /// Get all action names (for SCPD generation).
    pub fn action_names(&self) -> (r: Vec<String>)
        ensures
            r@.len() == self.names().len(),
            forall|i: int| 0 <= i < r@.len() ==> #[trigger] r@[i]@ == self.names()[i],
    {
        let mut r: Vec<String> = Vec::new();
        let mut i: usize = 0;
        while i < self.names.len()
            invariant
                i <= self.names@.len(),
                r@.len() == i,
                forall|j: int| 0 <= j < i ==> #[trigger] r@[j]@ == self.names()[j],
            decreases self.names.len() - i,
        {
            r.push(clone_string(&self.names[i]));
            i = i + 1;
        }
        r
    }

    /// Get all action definitions (for SCPD generation).
    pub fn action_definitions(&self) -> (r: &[ActionDefinition<String, String, String>])
        ensures
            r@ == self.definitions(),
    {
        self.action_defs.as_slice()
    }

    /// Get the service namespace (full URN string).
    pub fn namespace(&self) -> (r: String)
        ensures
            r@ == full_namespace_spec(self.service()),
    {
        self.namespace.full_namespace()
    }

    /// Get the service name from the namespace.
    pub fn service_name(&self) -> (r: &str)
        ensures
            r@ == service_name_spec(self.service()),
    {
        self.namespace.name()
    }
}

} // verus!
