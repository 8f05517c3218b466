//! Grid-charging controller for a solar inverter: the control state machine,
//! the signed request codec of the vendor API, the response envelope checks and
//! the read-before-write parameter update protocol.

pub mod api;
pub mod config;
pub mod model;
pub mod signing;
pub mod state;
pub mod worker;
