//! A simulated liquid tank exposed as a Modbus register map.
//!
//! The crate holds the register store, the request dispatch and the
//! word-level float encoding of the simulator. Everything here is plain,
//! sequential logic on integers: locking, timers, sockets and the
//! floating-point tank dynamics belong to the program built around it.

pub mod frame;
pub mod register_file;
pub mod modbus;
pub mod model;
pub mod modbus_access;
pub mod fixture;
