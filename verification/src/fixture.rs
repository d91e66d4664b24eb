//! An in-memory device with an injectable fault, for exercising a service
//! without a live simulation behind it.

use vstd::prelude::*;
use crate::frame::ExceptionCode;
use crate::modbus::ModbusRegisterAccess;
use crate::modbus_access::range_fault;
use crate::model::ModleHandler;
use crate::register_file::REGISTER_COUNT;

verus! {

/// A register store with a switch for failure. While `fault` is set, every
/// request is answered with it and the store is neither read nor written;
/// while it is not, the device behaves as the store does.
pub struct FaultInjector {
    /// The registers behind the switch.
    pub store: ModleHandler,
    /// The exception to answer with, if any.
    pub fault: Option<ExceptionCode>,
}

impl FaultInjector {
    /// A device over an all-zero store, with no fault set.
    pub fn new() -> (device: Self)
        ensures
            device.fault is None,
            device.store.input_view() == Seq::new(REGISTER_COUNT as nat, |i: int| 0u16),
            device.store.holding_view() == Seq::new(REGISTER_COUNT as nat, |i: int| 0u16),
    {
        FaultInjector { store: ModleHandler::new(), fault: None }
    }

    /// The injected fault if one is set, else the fault of the address
    /// range.
    pub open spec fn fault_for(&self, addr: int, count: int) -> Option<ExceptionCode> {
        match self.fault {
            Some(e) => Some(e),
            None => range_fault(addr, count),
        }
    }
}

impl ModbusRegisterAccess for FaultInjector {
    open spec fn input_registers(&self) -> Seq<u16> {
        self.store.input_view()
    }

    open spec fn holding_registers(&self) -> Seq<u16> {
        self.store.holding_view()
    }

    open spec fn read_input_fault(&self, addr: u16, cnt: u16) -> Option<ExceptionCode> {
        self.fault_for(addr as int, cnt as int)
    }

    open spec fn read_holding_fault(&self, addr: u16, cnt: u16) -> Option<ExceptionCode> {
        self.fault_for(addr as int, cnt as int)
    }

    open spec fn write_fault(&self, addr: u16, values: Seq<u16>) -> Option<ExceptionCode> {
        self.fault_for(addr as int, values.len() as int)
    }

    fn read_input_regs(&self, addr: u16, cnt: u16) -> (r: Result<Vec<u16>, ExceptionCode>) {
        match self.fault {
            Some(e) => Err(e),
            None => self.store.read_input_regs(addr, cnt),
        }
    }

    fn read_holding_regs(&self, addr: u16, cnt: u16) -> (r: Result<Vec<u16>, ExceptionCode>) {
        match self.fault {
            Some(e) => Err(e),
            None => self.store.read_holding_regs(addr, cnt),
        }
    }

    fn write_regs(&mut self, addr: u16, values: &[u16]) -> (r: Result<(), ExceptionCode>)
        ensures
            final(self).fault == old(self).fault,
            old(self).fault is Some ==> *final(self) == *old(self),
    {
        match self.fault {
            Some(e) => Err(e),
            None => self.store.write_regs(addr, values),
        }
    }
}

} // verus!
