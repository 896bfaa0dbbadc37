//! Shared UPnP types.
pub mod upnp;
