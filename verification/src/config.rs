//! Library configuration: device identity (`UpnpDevice`), the SSDP settings
//! derived from it (`SsdpDevice`) and their combination (`DeviceConfig`).
//!
//! Network addresses are kept in their text form.
use vstd::prelude::*;

use crate::text::{nat_to_decimal, push_decimal, push_str, to_owned_string};
use crate::types::upnp::{device_urn, service_version_spec, version_number, version_to_u32, Device, Services};

verus! {

broadcast use vstd::string::group_string_axioms;

/// Default device description path for HTTP routing and SSDP LOCATION headers.
pub const DESCRIPTION_PATH: &'static str = "/upnp/description.xml";

/// SCPD path prefix — all service SCPD documents are served at `/upnp/{Service}.xml`.
pub const SCPD_PATH_PREFIX: &'static str = "/upnp/";

/// Default SCPD path suffix for service name resolution.
pub const SCPD_PATH_SUFFIX: &'static str = ".xml";

/// The package name, the default friendly and model name.
pub const PACKAGE_NAME: &'static str = "upnpav";

/// The package version, the default model number.
pub const PACKAGE_VERSION: &'static str = "0.1.0";

// ---------------------------------------------------------------------------
// UpnpDevice
// ---------------------------------------------------------------------------

/// Icon metadata for UPnP device description.
#[derive(Clone)]
pub struct Icon {
    /// MIME type (e.g., "image/png")
    pub mime_type: String,
    /// Width in pixels
    pub width: u32,
    /// Height in pixels
    pub height: u32,
    /// Color depth in bits
    pub depth: u32,
    /// Raw image bytes
    pub bytes: Vec<u8>,
}

/// UPnP device metadata — used for device description XML generation.
#[derive(Clone)]
pub struct UpnpDevice {
    /// Human-readable device name (default: the package name)
    pub friendly_name: String,
    /// Manufacturer name
    pub manufacturer: String,
    /// Manufacturer website URL
    pub manufacturer_url: Option<String>,
    /// Human-readable model description
    pub model_description: Option<String>,
    /// Model name (default: the package name)
    pub model_name: String,
    /// Model number (default: the package version)
    pub model_number: String,
    /// Model information URL
    pub model_url: Option<String>,
    /// Device serial number
    pub serial_number: Option<String>,
    /// Icon metadata
    pub icon: Option<Icon>,
    /// SERVER header value (auto-built from model_name + model_number)
    pub server_header: String,
    /// IP address the device binds to, in text form (default: 0.0.0.0)
    pub ip_addr: String,
}

/// The text of an optional value, or `default`.
pub open spec fn text_or(v: Option<String>, default: Seq<char>) -> Seq<char> {
    match v {
        Some(s) => s@,
        None => default,
    }
}

fn take_or(v: Option<String>, default: &str) -> (r: String)
    ensures
        r@ == text_or(v, default@),
{
    match v {
        Some(s) => s,
        None => to_owned_string(default),
    }
}

/// The SERVER header built from a model name and number.
pub open spec fn server_header_text(model_name: Seq<char>, model_number: Seq<char>) -> Seq<char> {
    model_name + " / "@ + model_number + " UPnP/2.0"@
}

impl UpnpDevice {
    /// Create a new UpnpDevice with optional overrides.
    ///
    /// All parameters are optional — defaults are applied when `None`:
    /// - `friendly_name`: the package name
    /// - `manufacturer`: "Interweave Consumer Group"
    /// - `model_name`: the package name
    /// - `model_number`: the package version
    /// - `server_header`: auto-built as `"{model_name} / {model_number} UPnP/2.0"`
    /// - `ip_addr`: "0.0.0.0"
    pub fn new(
        friendly_name: Option<String>,
        manufacturer: Option<String>,
        model_name: Option<String>,
        model_number: Option<String>,
        manufacturer_url: Option<String>,
        model_description: Option<String>,
        model_url: Option<String>,
        serial_number: Option<String>,
        icon: Option<Icon>,
        ip_addr: Option<String>,
    ) -> (r: Self)
        ensures
            r.friendly_name@ == text_or(friendly_name, "upnpav"@),
            r.manufacturer@ == text_or(manufacturer, "Interweave Consumer Group"@),
            r.model_name@ == text_or(model_name, "upnpav"@),
            r.model_number@ == text_or(model_number, "0.1.0"@),
            r.server_header@ == server_header_text(r.model_name@, r.model_number@),
            r.ip_addr@ == text_or(ip_addr, "0.0.0.0"@),
            r.manufacturer_url == manufacturer_url,
            r.model_description == model_description,
            r.model_url == model_url,
            r.serial_number == serial_number,
            r.icon == icon,
    {
        let friendly_name = take_or(friendly_name, PACKAGE_NAME);
        let manufacturer = take_or(manufacturer, "Interweave Consumer Group");
        let model_name = take_or(model_name, PACKAGE_NAME);
        let model_number = take_or(model_number, PACKAGE_VERSION);
        let mut server_header = to_owned_string(model_name.as_str());
        push_str(&mut server_header, " / ");
        push_str(&mut server_header, model_number.as_str());
        push_str(&mut server_header, " UPnP/2.0");
        let ip_addr = take_or(ip_addr, "0.0.0.0");
        UpnpDevice {
            friendly_name,
            manufacturer,
            manufacturer_url,
            model_description,
            model_name,
            model_number,
            model_url,
            serial_number,
            icon,
            server_header,
            ip_addr,
        }
    }
}

// ---------------------------------------------------------------------------
// UUIDs
// ---------------------------------------------------------------------------

/// The 16 bytes of the UUID that `uuid::Uuid::new_v5` derives from a namespace
/// UUID and a name (the name's UTF-8 bytes).
pub uninterp spec fn uuid_v5_bytes(namespace: Seq<u8>, name: Seq<char>) -> Seq<u8>;

/// `uuid::Uuid::new_v5(namespace, name.as_bytes())`, as bytes: a function of
/// the namespace and the name alone, 16 bytes long.
#[verifier::external_body]
fn uuid_v5(namespace: &[u8], name: &str) -> (r: Vec<u8>)
    requires
        namespace@.len() == 16,
    ensures
        r@ == uuid_v5_bytes(namespace@, name@),
        r@.len() == 16,
{
    match uuid::Uuid::from_slice(namespace) {
        Ok(ns) => uuid::Uuid::new_v5(&ns, name.as_bytes()).as_bytes().to_vec(),
        Err(_) => Vec::new(),
    }
}

/// The lower-case hexadecimal digit for `d` (0..=15).
pub open spec fn hex_digit(d: nat) -> char {
    if d < 10 {
        ((d + 48) as u32) as char
    } else {
        ((d + 87) as u32) as char
    }
}

/// The two lower-case hexadecimal digits of the bytes in `b`, in order.
pub open spec fn hex_bytes(b: Seq<u8>) -> Seq<char>
    decreases b.len(),
{
    if b.len() == 0 {
        Seq::empty()
    } else {
        hex_bytes(b.drop_last()) + seq![hex_digit((b.last() / 16) as nat), hex_digit((b.last() % 16) as nat)]
    }
}

/// The hyphenated text of a UUID: 8-4-4-4-12 lower-case hexadecimal digits.
pub open spec fn uuid_hyphenated(b: Seq<u8>) -> Seq<char> {
    hex_bytes(b.subrange(0, 4)) + "-"@ + hex_bytes(b.subrange(4, 6)) + "-"@ + hex_bytes(b.subrange(6, 8))
        + "-"@ + hex_bytes(b.subrange(8, 10)) + "-"@ + hex_bytes(b.subrange(10, 16))
}

/// `Uuid::to_string`: the hyphenated lower-case form of a UUID's 16 bytes.
#[verifier::external_body]
fn uuid_text(bytes: &[u8]) -> (r: String)
    requires
        bytes@.len() == 16,
    ensures
        r@ == uuid_hyphenated(bytes@),
{
    match uuid::Uuid::from_slice(bytes) {
        Ok(u) => u.to_string(),
        Err(_) => String::new(),
    }
}

/// `uuid::Uuid::NAMESPACE_DNS` (6ba7b810-9dad-11d1-80b4-00c04fd430c8).
pub open spec fn namespace_dns() -> Seq<u8> {
    seq![
        0x6bu8, 0xa7u8, 0xb8u8, 0x10u8, 0x9du8, 0xadu8, 0x11u8, 0xd1u8, 0x80u8, 0xb4u8, 0x00u8, 0xc0u8,
        0x4fu8, 0xd4u8, 0x30u8, 0xc8u8,
    ]
}

/// The UDN of a device with the given MAC address text: the version-5 UUID
/// of the MAC text in the namespace that is itself the version-5 UUID of
/// `upnpav.iw` in the DNS namespace.
pub open spec fn device_udn(mac: Seq<char>) -> Seq<char> {
    uuid_hyphenated(uuid_v5_bytes(uuid_v5_bytes(namespace_dns(), "upnpav.iw"@), mac))
}

/// The UDN of a device with the given MAC address text.
pub fn udn_for_mac(mac: &str) -> (r: String)
    ensures
        r@ == device_udn(mac@),
{
    let dns: Vec<u8> = vec![
        0x6bu8, 0xa7u8, 0xb8u8, 0x10u8, 0x9du8, 0xadu8, 0x11u8, 0xd1u8, 0x80u8, 0xb4u8, 0x00u8, 0xc0u8,
        0x4fu8, 0xd4u8, 0x30u8, 0xc8u8,
    ];
    assert(dns@ =~= namespace_dns());
    let namespace = uuid_v5(dns.as_slice(), "upnpav.iw");
    let udn = uuid_v5(namespace.as_slice(), mac);
    uuid_text(udn.as_slice())
}

// ---------------------------------------------------------------------------
// SsdpDevice
// ---------------------------------------------------------------------------

/// SSDP identity and settings of the device.
#[derive(Clone)]
pub struct SsdpDevice {
    /// Unique Device Name (UDN) — UUID v5 derived from MAC address, hyphenated
    pub udn: String,
    /// LAN IP address the device binds to, in text form
    pub ip_addr: String,
    /// HTTP server port
    pub http_port: u16,
    /// SSDP multicast address (default: 239.255.255.250)
    pub ssdp_multicast_addr: String,
    /// SSDP port (default: 1900)
    pub ssdp_port: u16,
    /// SERVER header value in SSDP responses
    pub server_string: String,
    /// Device type URN (e.g., "urn:schemas-upnp-org:device:MediaRenderer:1")
    pub device_type: String,
    /// Cache-Control max-age in seconds (>= 1800 per UPnP 2.0 spec)
    pub max_age: u32,
    /// Boot ID — monotonic integer, increments on reboot
    pub boot_id: u32,
    /// Config ID — configuration version number
    pub config_id: u32,
    /// UPnP services this device exposes
    pub services: Vec<Services>,
    /// Maximum service version for backward-compatible SSDP announcements
    pub max_version: u32,
    /// Device description path (e.g., "/description.xml")
    pub description_path: &'static str,
    /// Full device description URL (e.g., "http://192.168.1.100:49152/description.xml")
    pub description_url: String,
}

/// The largest version number among the services, 3 when there are none.
pub open spec fn max_service_version(services: Seq<Services>) -> nat
    decreases services.len(),
{
    if services.len() == 0 {
        3
    } else if services.len() == 1 {
        version_number(service_version_spec(services[0]))
    } else {
        let rest = max_service_version(services.drop_last());
        let v = version_number(service_version_spec(services.last()));
        if v > rest {
            v
        } else {
            rest
        }
    }
}

/// A 31-bit identifier: the value, capped at 2,147,483,647; 1 when absent.
pub open spec fn id_31bit(v: Option<u32>) -> u32 {
    match v {
        Some(x) => if x > 2_147_483_647 {
            2_147_483_647
        } else {
            x
        },
        None => 1,
    }
}

/// The advertisement lifetime: at least 1800 seconds; 1800 when absent.
pub open spec fn max_age_of(v: Option<u32>) -> u32 {
    match v {
        Some(x) => if x < 1800 {
            1800
        } else {
            x
        },
        None => 1800,
    }
}

/// The device description URL for an address and HTTP port.
pub open spec fn description_url_text(ip_addr: Seq<char>, http_port: u16) -> Seq<char> {
    "http://"@ + ip_addr + ":"@ + nat_to_decimal(http_port as nat) + "/upnp/description.xml"@
}

impl SsdpDevice {
    /// Create a new device config.
    ///
    /// `mac` is the MAC address of the interface the device binds to, in text
    /// form (`"00:00:00:00:00:00"` when unknown); the UDN is derived from it.
    /// `http_port` must match the actual HTTP server port. Optional fields use
    /// UPnP 2.0 defaults when `None`: boot_id=1, config_id=1, ssdp_port=1900,
    /// ssdp_multicast_addr="239.255.255.250", max_age=1800. Boot and config
    /// IDs are 31-bit (capped at 2,147,483,647); max_age is at least 1800.
    pub fn new(
        ip_addr: String,
        http_port: u16,
        server_string: String,
        device_type: Device,
        services: Vec<Services>,
        boot_id: Option<u32>,
        config_id: Option<u32>,
        ssdp_port: Option<u16>,
        ssdp_multicast_addr: Option<String>,
        max_age: Option<u32>,
        mac: Option<String>,
    ) -> (r: Self)
        ensures
            r.udn@ == device_udn(text_or(mac, "00:00:00:00:00:00"@)),
            r.ip_addr@ == ip_addr@,
            r.http_port == http_port,
            r.ssdp_multicast_addr@ == text_or(ssdp_multicast_addr, "239.255.255.250"@),
            r.ssdp_port == match ssdp_port {
                Some(p) => p,
                None => 1900,
            },
            r.server_string@ == server_string@,
            r.device_type@ == device_urn(device_type),
            r.max_age == max_age_of(max_age),
            r.boot_id == id_31bit(boot_id),
            r.config_id == id_31bit(config_id),
            r.services@ == services@,
            r.max_version == max_service_version(services@),
            r.description_path@ == "/upnp/description.xml"@,
            r.description_url@ == description_url_text(ip_addr@, http_port),
    {
        let mac = take_or(mac, "00:00:00:00:00:00");
        let udn = udn_for_mac(mac.as_str());
        let mut max_version: u32 = 3;
        let mut i: usize = 0;
        while i < services.len()
            invariant
                i <= services@.len(),
                max_version as nat == if i == 0 {
                    3
                } else {
                    max_service_version(services@.subrange(0, i as int))
                },
                max_version <= 3,
            decreases services.len() - i,
        {
            let v = version_to_u32(services[i].version());
            let ghost sub = services@.subrange(0, i + 1);
            assert(sub.drop_last() =~= services@.subrange(0, i as int));
            if i == 0 || v > max_version {
                max_version = v;
            }
            proof {
                if i == 0 {
                    assert(sub =~= seq![services@[0]]);
                }
            }
            i = i + 1;
        }
        proof {
            if services@.len() > 0 {
                assert(services@.subrange(0, services@.len() as int) =~= services@);
            }
        }
        let mut description_url = to_owned_string("http://");
        push_str(&mut description_url, ip_addr.as_str());
        push_str(&mut description_url, ":");
        push_decimal(&mut description_url, http_port as u64);
        push_str(&mut description_url, DESCRIPTION_PATH);
        let ssdp_port = match ssdp_port {
            Some(p) => p,
            None => 1900,
        };
        let max_age = match max_age {
            Some(v) => if v < 1800 {
                1800
            } else {
                v
            },
            None => 1800,
        };
        let boot_id = match boot_id {
            Some(v) => if v > 2_147_483_647 {
                2_147_483_647
            } else {
                v
            },
            None => 1,
        };
        let config_id = match config_id {
            Some(v) => if v > 2_147_483_647 {
                2_147_483_647
            } else {
                v
            },
            None => 1,
        };
        SsdpDevice {
            udn,
            ip_addr,
            http_port,
            ssdp_multicast_addr: take_or(ssdp_multicast_addr, "239.255.255.250"),
            ssdp_port,
            server_string,
            device_type: device_type.urn(),
            max_age,
            boot_id,
            config_id,
            services,
            max_version,
            description_path: DESCRIPTION_PATH,
            description_url,
        }
    }
}

// ---------------------------------------------------------------------------
// DeviceConfig
// ---------------------------------------------------------------------------

/// Combined device configuration — holds UpnpDevice.
///
/// SsdpDevice is built at start time from runtime network info.
#[derive(Clone)]
pub struct DeviceConfig {
    pub device: UpnpDevice,
}

impl DeviceConfig {
    /// Create a combined config from UpnpDevice.
    pub fn new(device: UpnpDevice) -> (r: Self)
        ensures
            r.device == device,
    {
        DeviceConfig { device }
    }
}

} // verus!
