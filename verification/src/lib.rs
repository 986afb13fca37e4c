//! Verified core of an OpenADR 3.0 toolkit: the wire data model, the VTN's
//! access rules and storage semantics, and the client's event timeline.

pub mod copy;
pub mod identifier;
pub mod text;
pub mod wire_enums;
pub mod ids;
pub mod priority;
pub mod time;
pub mod values;
pub mod target;
pub mod interval;
pub mod event;
pub mod report;
pub mod resource;
pub mod ven;
pub mod program;
pub mod error;
pub mod jwt;
pub mod api;
pub mod timeline;
pub mod data_source;
pub mod client;
pub mod limits;

