//! What the library promises of whole operations: how what comes out of them hangs together with
//! what goes in.
pub mod builds;
pub mod clients;
pub mod cluster;
pub mod forwarding;
pub mod lifecycle;
pub mod records;
pub mod settings;
pub mod starting;
pub mod views;
pub mod wire;
