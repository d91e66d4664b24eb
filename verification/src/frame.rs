//! Decoded Modbus frames: what a transport hands to the service and what
//! the service hands back.

use vstd::prelude::*;

verus! {

/// A Modbus exception code, returned in place of a normal response.
#[derive(Clone, Copy, Debug, PartialEq, Eq, Structural)]
pub enum ExceptionCode {
    /// 0x01: the function code is not served.
    IllegalFunction,
    /// 0x02: the address range leaves the register file.
    IllegalDataAddress,
    /// 0x03
    IllegalDataValue,
    /// 0x04
    ServerDeviceFailure,
    /// 0x05
    Acknowledge,
    /// 0x06
    ServerDeviceBusy,
    /// 0x08
    MemoryParityError,
    /// 0x0A
    GatewayPathUnavailable,
    /// 0x0B
    GatewayTargetDevice,
    /// Any other code.
    Custom(u8),
}

/// A decoded request. Addresses and quantities are 0-based register indices
/// and word counts.
#[derive(Clone, Debug, PartialEq, Eq)]
pub enum Request {
    /// Read `quantity` input registers starting at `address`.
    ReadInputRegisters(u16, u16),
    /// Read `quantity` holding registers starting at `address`.
    ReadHoldingRegisters(u16, u16),
    /// Write one holding register: address, word.
    WriteSingleRegister(u16, u16),
    /// Write consecutive holding registers: address, words.
    WriteMultipleRegisters(u16, Vec<u16>),
    /// Any function that the register service does not serve, by its
    /// function code.
    Unsupported(u8),
}

/// A decoded success response.
#[derive(Clone, Debug, PartialEq, Eq)]
pub enum Response {
    /// The words read from the input registers.
    ReadInputRegisters(Vec<u16>),
    /// The words read from the holding registers.
    ReadHoldingRegisters(Vec<u16>),
    /// Echo of address and word.
    WriteSingleRegister(u16, u16),
    /// Address and number of words written.
    WriteMultipleRegisters(u16, u16),
}

} // verus!
