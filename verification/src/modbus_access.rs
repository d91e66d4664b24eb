//! The simulator's register store as a Modbus device.
//!
//! The only fault of the store is an address range that leaves a register
//! file: it is answered with `IllegalDataAddress`, and nothing is read or
//! written.

use vstd::prelude::*;
use crate::frame::ExceptionCode;
use crate::modbus::ModbusRegisterAccess;
use crate::model::ModleHandler;
use crate::register_file::{
    lemma_written_reads_back,
    read_words,
    write_words,
    written,
    REGISTER_COUNT,
};

verus! {

/// The fault of a block of `count` words at `addr` in a file of
/// `REGISTER_COUNT` words: none if the block lies inside the file.
pub open spec fn range_fault(addr: int, count: int) -> Option<ExceptionCode> {
    if addr + count > REGISTER_COUNT {
        Some(ExceptionCode::IllegalDataAddress)
    } else {
        None
    }
}

impl ModbusRegisterAccess for ModleHandler {
    open spec fn input_registers(&self) -> Seq<u16> {
        self.input_view()
    }

    open spec fn holding_registers(&self) -> Seq<u16> {
        self.holding_view()
    }

    open spec fn read_input_fault(&self, addr: u16, cnt: u16) -> Option<ExceptionCode> {
        range_fault(addr as int, cnt as int)
    }

    open spec fn read_holding_fault(&self, addr: u16, cnt: u16) -> Option<ExceptionCode> {
        range_fault(addr as int, cnt as int)
    }

    open spec fn write_fault(&self, addr: u16, values: Seq<u16>) -> Option<ExceptionCode> {
        range_fault(addr as int, values.len() as int)
    }

    /// Succeeds exactly when `addr + cnt` does not exceed the file's length,
    /// with the `cnt` words from `addr` on.
    fn read_input_regs(&self, addr: u16, cnt: u16) -> (r: Result<Vec<u16>, ExceptionCode>)
        ensures
            addr + cnt <= REGISTER_COUNT ==> r is Ok && r->Ok_0@.len() == cnt && r->Ok_0@
                == self.input_view().subrange(addr as int, addr + cnt),
            addr + cnt > REGISTER_COUNT ==> r == Err::<Vec<u16>, ExceptionCode>(
                ExceptionCode::IllegalDataAddress,
            ),
    {
        if addr as usize + cnt as usize > REGISTER_COUNT {
            return Err(ExceptionCode::IllegalDataAddress);
        }
        Ok(read_words(self.input_registers.as_slice(), addr as usize, cnt as usize))
    }

    /// Succeeds exactly when `addr + cnt` does not exceed the file's length,
    /// with the `cnt` words from `addr` on.
    fn read_holding_regs(&self, addr: u16, cnt: u16) -> (r: Result<Vec<u16>, ExceptionCode>)
        ensures
            addr + cnt <= REGISTER_COUNT ==> r is Ok && r->Ok_0@.len() == cnt && r->Ok_0@
                == self.holding_view().subrange(addr as int, addr + cnt),
            addr + cnt > REGISTER_COUNT ==> r == Err::<Vec<u16>, ExceptionCode>(
                ExceptionCode::IllegalDataAddress,
            ),
    {
        if addr as usize + cnt as usize > REGISTER_COUNT {
            return Err(ExceptionCode::IllegalDataAddress);
        }
        Ok(read_words(self.holding_registers.as_slice(), addr as usize, cnt as usize))
    }

    /// Succeeds exactly when the block lies inside the holding registers,
    /// and then stores it; the values then read back from the same range.
    fn write_regs(&mut self, addr: u16, values: &[u16]) -> (r: Result<(), ExceptionCode>)
        ensures
            addr + values@.len() <= REGISTER_COUNT ==> {
                &&& r is Ok
                &&& final(self).holding_view() == written(
                    old(self).holding_view(),
                    addr as int,
                    values@,
                )
                &&& final(self).holding_view().subrange(addr as int, addr + values@.len())
                    == values@
            },
            addr + values@.len() > REGISTER_COUNT ==> r == Err::<(), ExceptionCode>(
                ExceptionCode::IllegalDataAddress,
            ) && *final(self) == *old(self),
    {
        if values.len() > REGISTER_COUNT || addr as usize + values.len() > REGISTER_COUNT {
            return Err(ExceptionCode::IllegalDataAddress);
        }
        proof {
            lemma_written_reads_back(self.holding_view(), addr as int, values@);
        }
        write_words(&mut self.holding_registers, addr as usize, values);
        Ok(())
    }
}

/// What was written to the holding registers is what a read of the same
/// range returns: a write that meets no fault is followed by a read of
/// `values.len()` words at `addr` that meets none either and yields `values`.
pub proof fn lemma_write_then_read(
    before: ModleHandler,
    after: ModleHandler,
    addr: u16,
    values: Seq<u16>,
)
    requires
        before.write_fault(addr, values) is None,
        after.holding_registers() == written(before.holding_registers(), addr as int, values),
    ensures
        after.read_holding_fault(addr, values.len() as u16) is None,
        after.holding_registers().subrange(addr as int, addr + values.len()) == values,
{
    lemma_written_reads_back(before.holding_view(), addr as int, values);
}

} // verus!
