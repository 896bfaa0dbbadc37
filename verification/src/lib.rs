//! UPnP AV 2.0 device architecture: state management, SOAP, GENA, SSDP and
//! the AVTransport, ConnectionManager and RenderingControl services.
pub mod text;
pub mod types;
pub mod state;
pub mod xml;
pub mod soap;
pub mod ssdp;
pub mod config;
pub mod didl;
pub mod http;
pub mod scpd;
pub mod gena;
pub mod services;
