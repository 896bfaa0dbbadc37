//! The UPnP AV services: AVTransport, ConnectionManager and RenderingControl,
//! and the LastChange document they share.
pub mod connectionmanager;
pub mod avtransport;
pub mod renderingcontrol;
pub mod lastchange;
pub mod args;
pub mod shared;
