//! The capability wrappers, one module per capability group.
pub mod clipboard;
pub mod connection;
pub mod document;
pub mod fullscreen;
pub mod geolocation;
pub mod langauges;
pub mod language;
pub mod permissions;
pub mod response;
pub mod visibility;
