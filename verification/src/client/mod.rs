//! The client of the appliance: one read or one write of its variables per
//! round trip.

pub mod decode;
pub mod endpoint;
pub mod error;
pub mod laws;
pub mod message;
pub mod simulator;
pub mod transport;
pub mod value;
pub mod vars;
