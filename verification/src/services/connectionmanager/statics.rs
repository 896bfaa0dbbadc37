//! ConnectionManager domain enums, action and argument names, error codes and
//! state variable names.
use vstd::prelude::*;

use crate::text::{chars_eq_str, chars_of, nat_to_decimal, push_decimal, push_str, to_owned_string};
use crate::types::upnp::ServiceVersion;

verus! {

broadcast use vstd::string::group_string_axioms;

/// ConnectionManager service version
pub const V3: ServiceVersion = ServiceVersion::V3;

/// Connection status per UPnP-av-ConnectionManager-v3 spec §4.2.
#[derive(Debug, Clone, Copy, PartialEq, Eq, Structural, Hash)]
pub enum ConnectionStatus {
    OK,
    ContentFormatMismatch,
    InsufficientBandwidth,
    UnreliableChannel,
    Unknown,
}

/// The wire name of each `ConnectionStatus` value.
pub open spec fn connection_status_str(x: ConnectionStatus) -> Seq<char> {
    match x {
        ConnectionStatus::OK => "OK"@,
        ConnectionStatus::ContentFormatMismatch => "ContentFormatMismatch"@,
        ConnectionStatus::InsufficientBandwidth => "InsufficientBandwidth"@,
        ConnectionStatus::UnreliableChannel => "UnreliableChannel"@,
        ConnectionStatus::Unknown => "Unknown"@,
    }
}

/// The `ConnectionStatus` value whose wire name is `s`, if any.
pub open spec fn connection_status_from_str(s: Seq<char>) -> Option<ConnectionStatus> {
    if s == "OK"@ {
        Some(ConnectionStatus::OK)
    } else if s == "ContentFormatMismatch"@ {
        Some(ConnectionStatus::ContentFormatMismatch)
    } else if s == "InsufficientBandwidth"@ {
        Some(ConnectionStatus::InsufficientBandwidth)
    } else if s == "UnreliableChannel"@ {
        Some(ConnectionStatus::UnreliableChannel)
    } else if s == "Unknown"@ {
        Some(ConnectionStatus::Unknown)
    } else {
        None
    }
}

impl ConnectionStatus {
    /// The wire name of this value.
    pub fn as_str(&self) -> (r: &'static str)
        ensures
            r@ == connection_status_str(*self),
    {
        match self {
            ConnectionStatus::OK => "OK",
            ConnectionStatus::ContentFormatMismatch => "ContentFormatMismatch",
            ConnectionStatus::InsufficientBandwidth => "InsufficientBandwidth",
            ConnectionStatus::UnreliableChannel => "UnreliableChannel",
            ConnectionStatus::Unknown => "Unknown",
        }
    }

    /// The value whose wire name is `s`, if any.
    pub fn from_str(s: &str) -> (r: Option<Self>)
        ensures
            r == connection_status_from_str(s@),
    {
        let cs = chars_of(s);
        if chars_eq_str(&cs, "OK") {
            Some(ConnectionStatus::OK)
        } else if chars_eq_str(&cs, "ContentFormatMismatch") {
            Some(ConnectionStatus::ContentFormatMismatch)
        } else if chars_eq_str(&cs, "InsufficientBandwidth") {
            Some(ConnectionStatus::InsufficientBandwidth)
        } else if chars_eq_str(&cs, "UnreliableChannel") {
            Some(ConnectionStatus::UnreliableChannel)
        } else if chars_eq_str(&cs, "Unknown") {
            Some(ConnectionStatus::Unknown)
        } else {
            None
        }
    }
}

/// Reading back the wire name of a `ConnectionStatus` gives that value.
pub proof fn lemma_connection_status_roundtrip(x: ConnectionStatus)
    ensures
        connection_status_from_str(connection_status_str(x)) == Some(x),
{
    reveal_strlit("ContentFormatMismatch");
    reveal_strlit("InsufficientBandwidth");
    reveal_strlit("OK");
    reveal_strlit("Unknown");
    reveal_strlit("UnreliableChannel");
    match x {
        ConnectionStatus::OK => {},
        ConnectionStatus::ContentFormatMismatch => {
            assert("ContentFormatMismatch"@.len() != "OK"@.len());
        },
        ConnectionStatus::InsufficientBandwidth => {
            assert("InsufficientBandwidth"@.len() != "OK"@.len());
            assert("InsufficientBandwidth"@[0] != "ContentFormatMismatch"@[0]);
        },
        ConnectionStatus::UnreliableChannel => {
            assert("UnreliableChannel"@.len() != "OK"@.len());
            assert("UnreliableChannel"@.len() != "ContentFormatMismatch"@.len());
            assert("UnreliableChannel"@.len() != "InsufficientBandwidth"@.len());
        },
        ConnectionStatus::Unknown => {
            assert("Unknown"@.len() != "OK"@.len());
            assert("Unknown"@.len() != "ContentFormatMismatch"@.len());
            assert("Unknown"@.len() != "InsufficientBandwidth"@.len());
            assert("Unknown"@.len() != "UnreliableChannel"@.len());
        },
    }
}

/// Connection direction per UPnP-av-ConnectionManager-v3 spec §4.2.
#[derive(Debug, Clone, Copy, PartialEq, Eq, Structural, Hash)]
pub enum Direction {
    Input,
    Output,
}

/// The wire name of each `Direction` value.
pub open spec fn direction_str(x: Direction) -> Seq<char> {
    match x {
        Direction::Input => "Input"@,
        Direction::Output => "Output"@,
    }
}

/// The `Direction` value whose wire name is `s`, if any.
pub open spec fn direction_from_str(s: Seq<char>) -> Option<Direction> {
    if s == "Input"@ {
        Some(Direction::Input)
    } else if s == "Output"@ {
        Some(Direction::Output)
    } else {
        None
    }
}

impl Direction {
    /// The wire name of this value.
    pub fn as_str(&self) -> (r: &'static str)
        ensures
            r@ == direction_str(*self),
    {
        match self {
            Direction::Input => "Input",
            Direction::Output => "Output",
        }
    }

    /// The value whose wire name is `s`, if any.
    pub fn from_str(s: &str) -> (r: Option<Self>)
        ensures
            r == direction_from_str(s@),
    {
        let cs = chars_of(s);
        if chars_eq_str(&cs, "Input") {
            Some(Direction::Input)
        } else if chars_eq_str(&cs, "Output") {
            Some(Direction::Output)
        } else {
            None
        }
    }
}

/// Reading back the wire name of a `Direction` gives that value.
pub proof fn lemma_direction_roundtrip(x: Direction)
    ensures
        direction_from_str(direction_str(x)) == Some(x),
{
    reveal_strlit("Input");
    reveal_strlit("Output");
    match x {
        Direction::Input => {},
        Direction::Output => {
            assert("Output"@.len() != "Input"@.len());
        },
    }
}

/// Returns true if this is a required action.
pub open spec fn action_required(x: ActionName) -> bool {
    match x {
        ActionName::GetProtocolInfo => true,
        ActionName::GetCurrentConnectionIDs => true,
        ActionName::PrepareForConnection => false,
        ActionName::ConnectionComplete => false,
        ActionName::GetCurrentConnectionInfo => true,
        ActionName::GetRendererItemInfo => false,
        ActionName::GetFeatureList => true,
    }
}

/// Returns true if this is an optional action.
pub open spec fn action_optional(x: ActionName) -> bool {
    match x {
        ActionName::GetProtocolInfo => false,
        ActionName::GetCurrentConnectionIDs => false,
        ActionName::PrepareForConnection => true,
        ActionName::ConnectionComplete => true,
        ActionName::GetCurrentConnectionInfo => false,
        ActionName::GetRendererItemInfo => true,
        ActionName::GetFeatureList => false,
    }
}

/// ActionName values.
#[derive(Debug, Clone, Copy, PartialEq, Eq, Structural, Hash)]
pub enum ActionName {
    GetProtocolInfo,
    GetCurrentConnectionIDs,
    PrepareForConnection,
    ConnectionComplete,
    GetCurrentConnectionInfo,
    GetRendererItemInfo,
    GetFeatureList,
}

/// The wire name of each `ActionName` value.
pub open spec fn action_name_str(x: ActionName) -> Seq<char> {
    match x {
        ActionName::GetProtocolInfo => "GetProtocolInfo"@,
        ActionName::GetCurrentConnectionIDs => "GetCurrentConnectionIDs"@,
        ActionName::PrepareForConnection => "PrepareForConnection"@,
        ActionName::ConnectionComplete => "ConnectionComplete"@,
        ActionName::GetCurrentConnectionInfo => "GetCurrentConnectionInfo"@,
        ActionName::GetRendererItemInfo => "GetRendererItemInfo"@,
        ActionName::GetFeatureList => "GetFeatureList"@,
    }
}

impl ActionName {
    /// Returns true if this is a required action.
    pub fn is_required(&self) -> (r: bool)
        ensures
            r == action_required(*self),
    {
        match self {
            ActionName::GetProtocolInfo => true,
            ActionName::GetCurrentConnectionIDs => true,
            ActionName::PrepareForConnection => false,
            ActionName::ConnectionComplete => false,
            ActionName::GetCurrentConnectionInfo => true,
            ActionName::GetRendererItemInfo => false,
            ActionName::GetFeatureList => true,
        }
    }

    /// Returns true if this is an optional action.
    pub fn is_optional(&self) -> (r: bool)
        ensures
            r == action_optional(*self),
    {
        match self {
            ActionName::GetProtocolInfo => false,
            ActionName::GetCurrentConnectionIDs => false,
            ActionName::PrepareForConnection => true,
            ActionName::ConnectionComplete => true,
            ActionName::GetCurrentConnectionInfo => false,
            ActionName::GetRendererItemInfo => true,
            ActionName::GetFeatureList => false,
        }
    }

    /// The wire name of this value.
    pub fn as_str(&self) -> (r: &'static str)
        ensures
            r@ == action_name_str(*self),
    {
        match self {
            ActionName::GetProtocolInfo => "GetProtocolInfo",
            ActionName::GetCurrentConnectionIDs => "GetCurrentConnectionIDs",
            ActionName::PrepareForConnection => "PrepareForConnection",
            ActionName::ConnectionComplete => "ConnectionComplete",
            ActionName::GetCurrentConnectionInfo => "GetCurrentConnectionInfo",
            ActionName::GetRendererItemInfo => "GetRendererItemInfo",
            ActionName::GetFeatureList => "GetFeatureList",
        }
    }
}

/// Every action falls in exactly one of the categories.
pub proof fn lemma_action_category_partition(a: ActionName)
    ensures
        action_required(a) ==> !action_optional(a),
        action_optional(a) ==> !action_required(a),
        action_required(a) || action_optional(a),
{
}

/// ConnectionManager argument names.
#[derive(Debug, Clone, Copy, PartialEq, Eq, Structural, Hash)]
pub enum ArgumentName {
    Source,
    Sink,
    RemoteProtocolInfo,
    PeerConnectionManager,
    PeerConnectionID,
    Direction,
    ConnectionID,
    AVTransportID,
    RcsID,
    ConnectionIDs,
    ProtocolInfo,
    ItemInfoFilter,
    ItemMetadataList,
    ItemRenderingInfoList,
    FeatureList,
}

/// The wire name of each `ArgumentName` value.
pub open spec fn argument_name_str(x: ArgumentName) -> Seq<char> {
    match x {
        ArgumentName::Source => "Source"@,
        ArgumentName::Sink => "Sink"@,
        ArgumentName::RemoteProtocolInfo => "RemoteProtocolInfo"@,
        ArgumentName::PeerConnectionManager => "PeerConnectionManager"@,
        ArgumentName::PeerConnectionID => "PeerConnectionID"@,
        ArgumentName::Direction => "Direction"@,
        ArgumentName::ConnectionID => "ConnectionID"@,
        ArgumentName::AVTransportID => "AVTransportID"@,
        ArgumentName::RcsID => "RcsID"@,
        ArgumentName::ConnectionIDs => "ConnectionIDs"@,
        ArgumentName::ProtocolInfo => "ProtocolInfo"@,
        ArgumentName::ItemInfoFilter => "ItemInfoFilter"@,
        ArgumentName::ItemMetadataList => "ItemMetadataList"@,
        ArgumentName::ItemRenderingInfoList => "ItemRenderingInfoList"@,
        ArgumentName::FeatureList => "FeatureList"@,
    }
}

impl ArgumentName {
    /// The wire name of this value.
    pub fn as_str(&self) -> (r: &'static str)
        ensures
            r@ == argument_name_str(*self),
    {
        match self {
            ArgumentName::Source => "Source",
            ArgumentName::Sink => "Sink",
            ArgumentName::RemoteProtocolInfo => "RemoteProtocolInfo",
            ArgumentName::PeerConnectionManager => "PeerConnectionManager",
            ArgumentName::PeerConnectionID => "PeerConnectionID",
            ArgumentName::Direction => "Direction",
            ArgumentName::ConnectionID => "ConnectionID",
            ArgumentName::AVTransportID => "AVTransportID",
            ArgumentName::RcsID => "RcsID",
            ArgumentName::ConnectionIDs => "ConnectionIDs",
            ArgumentName::ProtocolInfo => "ProtocolInfo",
            ArgumentName::ItemInfoFilter => "ItemInfoFilter",
            ArgumentName::ItemMetadataList => "ItemMetadataList",
            ArgumentName::ItemRenderingInfoList => "ItemRenderingInfoList",
            ArgumentName::FeatureList => "FeatureList",
        }
    }
}

/// UPnP ConnectionManager service error codes.
///
/// Per UPnP-av-ConnectionManager-v3-Service specification.
/// Error codes 400-699 are defined by the UPnP Device Architecture.
/// Error codes 700-799 are service-specific.
/// Error codes 800-899 are reserved for vendor extensions (not permitted for standard actions).
#[derive(Debug, Clone, Copy, PartialEq, Eq, Structural, Hash)]
pub enum Error {
    IncompatibleProtocolInfo,
    IncompatibleDirections,
    InsufficientNetworkResources,
    LocalRestrictions,
    AccessDenied,
    InvalidConnectionReference,
    NotInNetwork,
    ConnectionTableOverflow,
    InternalProcessingResourcesExceeded,
    InternalMemoryResourcesExceeded,
    InternalStorageSystemCapabilitiesExceeded,
}

/// The numeric code of each `Error` value.
pub open spec fn service_error_code(e: Error) -> u16 {
    match e {
        Error::IncompatibleProtocolInfo => 701,
        Error::IncompatibleDirections => 702,
        Error::InsufficientNetworkResources => 703,
        Error::LocalRestrictions => 704,
        Error::AccessDenied => 705,
        Error::InvalidConnectionReference => 706,
        Error::NotInNetwork => 707,
        Error::ConnectionTableOverflow => 708,
        Error::InternalProcessingResourcesExceeded => 709,
        Error::InternalMemoryResourcesExceeded => 710,
        Error::InternalStorageSystemCapabilitiesExceeded => 711,
    }
}

/// The human-readable description of each `Error` value.
pub open spec fn service_error_description(e: Error) -> Seq<char> {
    match e {
        Error::IncompatibleProtocolInfo => "The connection cannot be established because the protocol info argument is incompatible"@,
        Error::IncompatibleDirections => "The connection cannot be established because the directions of the involved ConnectionManagers (source/sink) are incompatible"@,
        Error::InsufficientNetworkResources => "The connection cannot be established because there are insufficient network resources (bandwidth, channels, etc.)"@,
        Error::LocalRestrictions => "The connection cannot be established because of local restrictions in the device (for example, when physical resources on the device are already in use by other connections)"@,
        Error::AccessDenied => "The connection cannot be established because the client is not permitted to access the specified ConnectionManager"@,
        Error::InvalidConnectionReference => "The connection reference argument does not refer to a valid connection established by this service"@,
        Error::NotInNetwork => "The connection cannot be established because the ConnectionManagers are not part of the same physical network"@,
        Error::ConnectionTableOverflow => "The connection cannot be established because the specified ConnectionManager has instantiated the maximum number of simultaneous connections it has room for in its internal data structures"@,
        Error::InternalProcessingResourcesExceeded => "The connection cannot be established because the device does not have sufficient internal processing resources to handle the new connection"@,
        Error::InternalMemoryResourcesExceeded => "The connection cannot be established because the device does not have sufficient internal memory resources to handle the new connection"@,
        Error::InternalStorageSystemCapabilitiesExceeded => "The connection cannot be established because the device does not have sufficient internal storage system capabilities to handle the new connection"@,
    }
}

/// The `Error` value with the given numeric code, if any.
pub open spec fn service_error_from_code(code: u16) -> Option<Error> {
    match code {
        701 => Some(Error::IncompatibleProtocolInfo),
        702 => Some(Error::IncompatibleDirections),
        703 => Some(Error::InsufficientNetworkResources),
        704 => Some(Error::LocalRestrictions),
        705 => Some(Error::AccessDenied),
        706 => Some(Error::InvalidConnectionReference),
        707 => Some(Error::NotInNetwork),
        708 => Some(Error::ConnectionTableOverflow),
        709 => Some(Error::InternalProcessingResourcesExceeded),
        710 => Some(Error::InternalMemoryResourcesExceeded),
        711 => Some(Error::InternalStorageSystemCapabilitiesExceeded),
        _ => None,
    }
}

impl Error {
    /// Returns the numeric error code.
    pub fn code(&self) -> (r: u16)
        ensures
            r == service_error_code(*self),
    {
        match self {
            Error::IncompatibleProtocolInfo => 701,
            Error::IncompatibleDirections => 702,
            Error::InsufficientNetworkResources => 703,
            Error::LocalRestrictions => 704,
            Error::AccessDenied => 705,
            Error::InvalidConnectionReference => 706,
            Error::NotInNetwork => 707,
            Error::ConnectionTableOverflow => 708,
            Error::InternalProcessingResourcesExceeded => 709,
            Error::InternalMemoryResourcesExceeded => 710,
            Error::InternalStorageSystemCapabilitiesExceeded => 711,
        }
    }

    /// Returns the human-readable error description.
    pub fn description(&self) -> (r: &'static str)
        ensures
            r@ == service_error_description(*self),
    {
        match self {
            Error::IncompatibleProtocolInfo => "The connection cannot be established because the protocol info argument is incompatible",
            Error::IncompatibleDirections => "The connection cannot be established because the directions of the involved ConnectionManagers (source/sink) are incompatible",
            Error::InsufficientNetworkResources => "The connection cannot be established because there are insufficient network resources (bandwidth, channels, etc.)",
            Error::LocalRestrictions => "The connection cannot be established because of local restrictions in the device (for example, when physical resources on the device are already in use by other connections)",
            Error::AccessDenied => "The connection cannot be established because the client is not permitted to access the specified ConnectionManager",
            Error::InvalidConnectionReference => "The connection reference argument does not refer to a valid connection established by this service",
            Error::NotInNetwork => "The connection cannot be established because the ConnectionManagers are not part of the same physical network",
            Error::ConnectionTableOverflow => "The connection cannot be established because the specified ConnectionManager has instantiated the maximum number of simultaneous connections it has room for in its internal data structures",
            Error::InternalProcessingResourcesExceeded => "The connection cannot be established because the device does not have sufficient internal processing resources to handle the new connection",
            Error::InternalMemoryResourcesExceeded => "The connection cannot be established because the device does not have sufficient internal memory resources to handle the new connection",
            Error::InternalStorageSystemCapabilitiesExceeded => "The connection cannot be established because the device does not have sufficient internal storage system capabilities to handle the new connection",
        }
    }

    /// Lookup an error by its numeric code.
    pub fn from_code(code: u16) -> (r: Option<Self>)
        ensures
            r == service_error_from_code(code),
    {
        match code {
            701 => Some(Error::IncompatibleProtocolInfo),
            702 => Some(Error::IncompatibleDirections),
            703 => Some(Error::InsufficientNetworkResources),
            704 => Some(Error::LocalRestrictions),
            705 => Some(Error::AccessDenied),
            706 => Some(Error::InvalidConnectionReference),
            707 => Some(Error::NotInNetwork),
            708 => Some(Error::ConnectionTableOverflow),
            709 => Some(Error::InternalProcessingResourcesExceeded),
            710 => Some(Error::InternalMemoryResourcesExceeded),
            711 => Some(Error::InternalStorageSystemCapabilitiesExceeded),
            _ => None,
        }
    }

    /// The display text: `ConnectionManager Error <code>: <description>`.
    pub fn message(&self) -> (r: String)
        ensures
            r@ == "ConnectionManager Error "@ + nat_to_decimal(service_error_code(*self) as nat) + ": "@ + service_error_description(*self),
    {
        let mut s = to_owned_string("ConnectionManager Error ");
        push_decimal(&mut s, self.code() as u64);
        push_str(&mut s, ": ");
        push_str(&mut s, self.description());
        s
    }
}

/// Looking an error up by its own code gives that error back.
pub proof fn lemma_service_error_code_roundtrip(e: Error)
    ensures
        service_error_from_code(service_error_code(e)) == Some(e),
{
}

/// A code that names an error is that error's code.
pub proof fn lemma_service_error_from_code_inverse(code: u16)
    ensures
        service_error_from_code(code) matches Some(e) ==> service_error_code(e) == code,
{
}

/// ConnectionManager state variable names per UPnP-av-ConnectionManager-v3 spec §4.2.
///
/// 6 core state variables + 11 A_ARG_TYPE_* pseudo-state-variables.
#[allow(non_camel_case_types)]
#[derive(Debug, Clone, Copy, PartialEq, Eq, Structural, Hash, Default)]
pub enum StateVariableName {
    #[default]
    SourceProtocolInfo,
    SinkProtocolInfo,
    CurrentConnectionIDs,
    FeatureList,
    ClockUpdateID,
    DeviceClockInfoUpdates,
    A_ARG_TYPE_ConnectionStatus,
    A_ARG_TYPE_ConnectionManager,
    A_ARG_TYPE_Direction,
    A_ARG_TYPE_ProtocolInfo,
    A_ARG_TYPE_ConnectionID,
    A_ARG_TYPE_AVTransportID,
    A_ARG_TYPE_RcsID,
    A_ARG_TYPE_ItemInfoFilter,
    A_ARG_TYPE_Result,
    A_ARG_TYPE_RenderingInfoList,
}

/// The wire name of each state variable.
pub open spec fn state_var_str(x: StateVariableName) -> Seq<char> {
    match x {
        StateVariableName::SourceProtocolInfo => "SourceProtocolInfo"@,
        StateVariableName::SinkProtocolInfo => "SinkProtocolInfo"@,
        StateVariableName::CurrentConnectionIDs => "CurrentConnectionIDs"@,
        StateVariableName::FeatureList => "FeatureList"@,
        StateVariableName::ClockUpdateID => "ClockUpdateID"@,
        StateVariableName::DeviceClockInfoUpdates => "DeviceClockInfoUpdates"@,
        StateVariableName::A_ARG_TYPE_ConnectionStatus => "A_ARG_TYPE_ConnectionStatus"@,
        StateVariableName::A_ARG_TYPE_ConnectionManager => "A_ARG_TYPE_ConnectionManager"@,
        StateVariableName::A_ARG_TYPE_Direction => "A_ARG_TYPE_Direction"@,
        StateVariableName::A_ARG_TYPE_ProtocolInfo => "A_ARG_TYPE_ProtocolInfo"@,
        StateVariableName::A_ARG_TYPE_ConnectionID => "A_ARG_TYPE_ConnectionID"@,
        StateVariableName::A_ARG_TYPE_AVTransportID => "A_ARG_TYPE_AVTransportID"@,
        StateVariableName::A_ARG_TYPE_RcsID => "A_ARG_TYPE_RcsID"@,
        StateVariableName::A_ARG_TYPE_ItemInfoFilter => "A_ARG_TYPE_ItemInfoFilter"@,
        StateVariableName::A_ARG_TYPE_Result => "A_ARG_TYPE_Result"@,
        StateVariableName::A_ARG_TYPE_RenderingInfoList => "A_ARG_TYPE_RenderingInfoList"@,
    }
}

/// The state variables that send events (is_evented=YES).
pub open spec fn state_var_evented(x: StateVariableName) -> bool {
    match x {
        StateVariableName::SourceProtocolInfo => true,
        StateVariableName::SinkProtocolInfo => true,
        StateVariableName::CurrentConnectionIDs => true,
        StateVariableName::FeatureList => false,
        StateVariableName::ClockUpdateID => false,
        StateVariableName::DeviceClockInfoUpdates => true,
        StateVariableName::A_ARG_TYPE_ConnectionStatus => false,
        StateVariableName::A_ARG_TYPE_ConnectionManager => false,
        StateVariableName::A_ARG_TYPE_Direction => false,
        StateVariableName::A_ARG_TYPE_ProtocolInfo => false,
        StateVariableName::A_ARG_TYPE_ConnectionID => false,
        StateVariableName::A_ARG_TYPE_AVTransportID => false,
        StateVariableName::A_ARG_TYPE_RcsID => false,
        StateVariableName::A_ARG_TYPE_ItemInfoFilter => false,
        StateVariableName::A_ARG_TYPE_Result => false,
        StateVariableName::A_ARG_TYPE_RenderingInfoList => false,
    }
}

/// The state variables collated into the LastChange document.
pub open spec fn state_var_via_lastchange(x: StateVariableName) -> bool {
    match x {
        StateVariableName::SourceProtocolInfo => false,
        StateVariableName::SinkProtocolInfo => false,
        StateVariableName::CurrentConnectionIDs => false,
        StateVariableName::FeatureList => false,
        StateVariableName::ClockUpdateID => false,
        StateVariableName::DeviceClockInfoUpdates => false,
        StateVariableName::A_ARG_TYPE_ConnectionStatus => false,
        StateVariableName::A_ARG_TYPE_ConnectionManager => false,
        StateVariableName::A_ARG_TYPE_Direction => false,
        StateVariableName::A_ARG_TYPE_ProtocolInfo => false,
        StateVariableName::A_ARG_TYPE_ConnectionID => false,
        StateVariableName::A_ARG_TYPE_AVTransportID => false,
        StateVariableName::A_ARG_TYPE_RcsID => false,
        StateVariableName::A_ARG_TYPE_ItemInfoFilter => false,
        StateVariableName::A_ARG_TYPE_Result => false,
        StateVariableName::A_ARG_TYPE_RenderingInfoList => false,
    }
}

/// The state variables kept per InstanceID.
pub open spec fn state_var_instance_scoped(x: StateVariableName) -> bool {
    match x {
        StateVariableName::SourceProtocolInfo => false,
        StateVariableName::SinkProtocolInfo => false,
        StateVariableName::CurrentConnectionIDs => false,
        StateVariableName::FeatureList => false,
        StateVariableName::ClockUpdateID => false,
        StateVariableName::DeviceClockInfoUpdates => false,
        StateVariableName::A_ARG_TYPE_ConnectionStatus => false,
        StateVariableName::A_ARG_TYPE_ConnectionManager => false,
        StateVariableName::A_ARG_TYPE_Direction => false,
        StateVariableName::A_ARG_TYPE_ProtocolInfo => false,
        StateVariableName::A_ARG_TYPE_ConnectionID => false,
        StateVariableName::A_ARG_TYPE_AVTransportID => false,
        StateVariableName::A_ARG_TYPE_RcsID => false,
        StateVariableName::A_ARG_TYPE_ItemInfoFilter => false,
        StateVariableName::A_ARG_TYPE_Result => false,
        StateVariableName::A_ARG_TYPE_RenderingInfoList => false,
    }
}

/// The SCPD data type name of each state variable.
pub open spec fn state_var_type_name(x: StateVariableName) -> Seq<char> {
    match x {
        StateVariableName::SourceProtocolInfo => "string"@,
        StateVariableName::SinkProtocolInfo => "string"@,
        StateVariableName::CurrentConnectionIDs => "string"@,
        StateVariableName::FeatureList => "string"@,
        StateVariableName::ClockUpdateID => "ui4"@,
        StateVariableName::DeviceClockInfoUpdates => "string"@,
        StateVariableName::A_ARG_TYPE_ConnectionStatus => "string"@,
        StateVariableName::A_ARG_TYPE_ConnectionManager => "string"@,
        StateVariableName::A_ARG_TYPE_Direction => "string"@,
        StateVariableName::A_ARG_TYPE_ProtocolInfo => "string"@,
        StateVariableName::A_ARG_TYPE_ConnectionID => "ui4"@,
        StateVariableName::A_ARG_TYPE_AVTransportID => "ui4"@,
        StateVariableName::A_ARG_TYPE_RcsID => "ui4"@,
        StateVariableName::A_ARG_TYPE_ItemInfoFilter => "string"@,
        StateVariableName::A_ARG_TYPE_Result => "string"@,
        StateVariableName::A_ARG_TYPE_RenderingInfoList => "string"@,
    }
}

impl crate::state::StateVariableName for StateVariableName {
    open spec fn wire_name(&self) -> Seq<char> {
        state_var_str(*self)
    }

    open spec fn evented(&self) -> bool {
        state_var_evented(*self)
    }

    open spec fn in_last_change(&self) -> bool {
        state_var_via_lastchange(*self)
    }

    open spec fn instance_scoped(&self) -> bool {
        state_var_instance_scoped(*self)
    }

    open spec fn data_type_text(&self) -> Seq<char> {
        state_var_type_name(*self)
    }

    open spec fn registered(&self) -> bool {
        crate::services::connectionmanager::registered_name(*self)
    }

    /// Returns the UPnP wire format name.
    fn as_str(&self) -> (r: &'static str) {
        match self {
            StateVariableName::SourceProtocolInfo => "SourceProtocolInfo",
            StateVariableName::SinkProtocolInfo => "SinkProtocolInfo",
            StateVariableName::CurrentConnectionIDs => "CurrentConnectionIDs",
            StateVariableName::FeatureList => "FeatureList",
            StateVariableName::ClockUpdateID => "ClockUpdateID",
            StateVariableName::DeviceClockInfoUpdates => "DeviceClockInfoUpdates",
            StateVariableName::A_ARG_TYPE_ConnectionStatus => "A_ARG_TYPE_ConnectionStatus",
            StateVariableName::A_ARG_TYPE_ConnectionManager => "A_ARG_TYPE_ConnectionManager",
            StateVariableName::A_ARG_TYPE_Direction => "A_ARG_TYPE_Direction",
            StateVariableName::A_ARG_TYPE_ProtocolInfo => "A_ARG_TYPE_ProtocolInfo",
            StateVariableName::A_ARG_TYPE_ConnectionID => "A_ARG_TYPE_ConnectionID",
            StateVariableName::A_ARG_TYPE_AVTransportID => "A_ARG_TYPE_AVTransportID",
            StateVariableName::A_ARG_TYPE_RcsID => "A_ARG_TYPE_RcsID",
            StateVariableName::A_ARG_TYPE_ItemInfoFilter => "A_ARG_TYPE_ItemInfoFilter",
            StateVariableName::A_ARG_TYPE_Result => "A_ARG_TYPE_Result",
            StateVariableName::A_ARG_TYPE_RenderingInfoList => "A_ARG_TYPE_RenderingInfoList",
        }
    }

    /// Returns true if this variable is evented per UPnP spec (is_evented=YES column).
    fn is_evented(&self) -> (r: bool) {
        match self {
            StateVariableName::SourceProtocolInfo => true,
            StateVariableName::SinkProtocolInfo => true,
            StateVariableName::CurrentConnectionIDs => true,
            StateVariableName::FeatureList => false,
            StateVariableName::ClockUpdateID => false,
            StateVariableName::DeviceClockInfoUpdates => true,
            StateVariableName::A_ARG_TYPE_ConnectionStatus => false,
            StateVariableName::A_ARG_TYPE_ConnectionManager => false,
            StateVariableName::A_ARG_TYPE_Direction => false,
            StateVariableName::A_ARG_TYPE_ProtocolInfo => false,
            StateVariableName::A_ARG_TYPE_ConnectionID => false,
            StateVariableName::A_ARG_TYPE_AVTransportID => false,
            StateVariableName::A_ARG_TYPE_RcsID => false,
            StateVariableName::A_ARG_TYPE_ItemInfoFilter => false,
            StateVariableName::A_ARG_TYPE_Result => false,
            StateVariableName::A_ARG_TYPE_RenderingInfoList => false,
        }
    }

    /// Returns true if this variable is indirectly evented via the LastChange XML payload.
    fn via_lastchange(&self) -> (r: bool) {
        false
    }

    /// Returns true if this variable is scoped per InstanceID.
    fn is_instance_scoped(&self) -> (r: bool) {
        false
    }

    /// Returns the UPnP wire type name for SCPD XML generation.
    fn data_type_name(&self) -> (r: &'static str) {
        match self {
            StateVariableName::SourceProtocolInfo => "string",
            StateVariableName::SinkProtocolInfo => "string",
            StateVariableName::CurrentConnectionIDs => "string",
            StateVariableName::FeatureList => "string",
            StateVariableName::ClockUpdateID => "ui4",
            StateVariableName::DeviceClockInfoUpdates => "string",
            StateVariableName::A_ARG_TYPE_ConnectionStatus => "string",
            StateVariableName::A_ARG_TYPE_ConnectionManager => "string",
            StateVariableName::A_ARG_TYPE_Direction => "string",
            StateVariableName::A_ARG_TYPE_ProtocolInfo => "string",
            StateVariableName::A_ARG_TYPE_ConnectionID => "ui4",
            StateVariableName::A_ARG_TYPE_AVTransportID => "ui4",
            StateVariableName::A_ARG_TYPE_RcsID => "ui4",
            StateVariableName::A_ARG_TYPE_ItemInfoFilter => "string",
            StateVariableName::A_ARG_TYPE_Result => "string",
            StateVariableName::A_ARG_TYPE_RenderingInfoList => "string",
        }
    }

}

} // verus!
