//! Connectivity controller for a constrained dual-role wireless device.
//!
//! The crate holds the decision logic of the controller: the supervision
//! state machine that arbitrates between the station and access-point
//! roles of one shared radio, the scan-result selection rule, the static
//! network configuration, and the request handling of the local HTTP
//! responder. Everything here is pure: the surrounding program performs
//! the radio operations, timers and socket I/O that the state machine
//! and the request planner ask for, and feeds the outcomes back in as
//! plain values.

pub mod config;
pub mod form;
pub mod http;
pub mod ipv4;
pub mod scan;
pub mod services;
pub mod supervisor;
pub mod text;
