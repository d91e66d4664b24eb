//! The register-access interface and the service that dispatches decoded
//! requests to it.

use vstd::prelude::*;
use crate::frame::{ExceptionCode, Request, Response};
use crate::register_file::{in_range, written};

verus! {

/// Access to a device's two register files.
///
/// An implementation says, through the three `*_fault` functions, on which
/// requests it answers with an exception and with which one. The methods are
/// then bound to that choice: a request that meets no fault succeeds, reads
/// hand out exactly the words asked for, and a write stores exactly the block
/// given and nothing else in either file.
pub trait ModbusRegisterAccess {
    /// The input registers, lowest address first.
    spec fn input_registers(&self) -> Seq<u16>;

    /// The holding registers, lowest address first.
    spec fn holding_registers(&self) -> Seq<u16>;

    /// The exception, if any, that reading `cnt` input registers at `addr`
    /// meets.
    spec fn read_input_fault(&self, addr: u16, cnt: u16) -> Option<ExceptionCode>;

    /// The exception, if any, that reading `cnt` holding registers at `addr`
    /// meets.
    spec fn read_holding_fault(&self, addr: u16, cnt: u16) -> Option<ExceptionCode>;

    /// The exception, if any, that writing `values` to the holding registers
    /// at `addr` meets.
    spec fn write_fault(&self, addr: u16, values: Seq<u16>) -> Option<ExceptionCode>;

    /// Reads `cnt` input registers starting at `addr`.
    fn read_input_regs(&self, addr: u16, cnt: u16) -> (r: Result<Vec<u16>, ExceptionCode>)
        ensures
            read_outcome(self.input_registers(), self.read_input_fault(addr, cnt), addr, cnt, r),
    ;

    /// Reads `cnt` holding registers starting at `addr`.
    fn read_holding_regs(&self, addr: u16, cnt: u16) -> (r: Result<Vec<u16>, ExceptionCode>)
        ensures
            read_outcome(
                self.holding_registers(),
                self.read_holding_fault(addr, cnt),
                addr,
                cnt,
                r,
            ),
    ;

    /// Writes `values` to the holding registers starting at `addr`. On an
    /// exception nothing is written.
    fn write_regs(&mut self, addr: u16, values: &[u16]) -> (r: Result<(), ExceptionCode>)
        ensures
            final(self).input_registers() == old(self).input_registers(),
            match old(self).write_fault(addr, values@) {
                Some(e) => r == Err::<(), ExceptionCode>(e) && final(self).holding_registers()
                    == old(self).holding_registers(),
                None => r is Ok && in_range(
                    old(self).holding_registers().len(),
                    addr as int,
                    values@.len() as int,
                ) && final(self).holding_registers() == written(
                    old(self).holding_registers(),
                    addr as int,
                    values@,
                ),
            },
    ;
}

/// What a read of `cnt` words at `addr` from the file `regs` returns, given
/// the fault that the request meets: the fault itself, or else the `cnt`
/// words from `addr` on, which then lie inside the file.
pub open spec fn read_outcome(
    regs: Seq<u16>,
    fault: Option<ExceptionCode>,
    addr: u16,
    cnt: u16,
    r: Result<Vec<u16>, ExceptionCode>,
) -> bool {
    match fault {
        Some(e) => r == Err::<Vec<u16>, ExceptionCode>(e),
        None => in_range(regs.len(), addr as int, cnt as int) && r is Ok && r->Ok_0@
            == regs.subrange(addr as int, addr + cnt),
    }
}

/// Serves decoded requests from one register-access handler.
pub struct ModbusService<T: ModbusRegisterAccess> {
    /// The device that the requests are served from.
    pub modbus_handler: T,
}

impl<T: ModbusRegisterAccess> ModbusService<T> {
    /// A service in front of `handle`.
    pub fn new(handle: T) -> (service: Self)
        ensures
            service.modbus_handler == handle,
    {
        Self { modbus_handler: handle }
    }

    /// The exception, if any, that `req` is answered with in the handler's
    /// present state. A function that is not served meets
    /// `IllegalFunction`.
    pub open spec fn fault_of(&self, req: Request) -> Option<ExceptionCode> {
        match req {
            Request::ReadInputRegisters(addr, cnt) => self.modbus_handler.read_input_fault(
                addr,
                cnt,
            ),
            Request::ReadHoldingRegisters(addr, cnt) => self.modbus_handler.read_holding_fault(
                addr,
                cnt,
            ),
            Request::WriteSingleRegister(addr, value) => self.modbus_handler.write_fault(
                addr,
                seq![value],
            ),
            Request::WriteMultipleRegisters(addr, values) => self.modbus_handler.write_fault(
                addr,
                values@,
            ),
            Request::Unsupported(_) => Some(ExceptionCode::IllegalFunction),
        }
    }

    /// Whether `resp` is the success response to `req` in the handler's
    /// present state: the words read, the echo of a single write, or the
    /// address and word count of a block write.
    pub open spec fn is_reply(&self, req: Request, resp: Response) -> bool {
        let input = self.modbus_handler.input_registers();
        let holding = self.modbus_handler.holding_registers();
        match (req, resp) {
            (Request::ReadInputRegisters(addr, cnt), Response::ReadInputRegisters(words)) => {
                words@ == input.subrange(addr as int, addr + cnt)
            },
            (Request::ReadHoldingRegisters(addr, cnt), Response::ReadHoldingRegisters(words)) => {
                words@ == holding.subrange(addr as int, addr + cnt)
            },
            (Request::WriteSingleRegister(addr, value), Response::WriteSingleRegister(a, v)) => {
                a == addr && v == value
            },
            (Request::WriteMultipleRegisters(addr, values), Response::WriteMultipleRegisters(a, n)) => {
                a == addr && n == values@.len() as u16
            },
            _ => false,
        }
    }

    /// The holding registers after `req` has been served: a write that meets
    /// no fault stores its block, every other request leaves them alone.
    pub open spec fn holding_after(&self, req: Request) -> Seq<u16> {
        if self.fault_of(req) is Some {
            self.modbus_handler.holding_registers()
        } else {
            match req {
                Request::WriteSingleRegister(addr, value) => written(
                    self.modbus_handler.holding_registers(),
                    addr as int,
                    seq![value],
                ),
                Request::WriteMultipleRegisters(addr, values) => written(
                    self.modbus_handler.holding_registers(),
                    addr as int,
                    values@,
                ),
                _ => self.modbus_handler.holding_registers(),
            }
        }
    }

    /// Serves one request.
    ///
    /// The answer is the exception that the request meets, or else its
    /// success response. The input registers never change; the holding
    /// registers change only by a write that succeeds; a read or an unserved
    /// function leaves the whole handler as it was.
    pub fn call(&mut self, req: Request) -> (res: Result<Response, ExceptionCode>)
        ensures
            match old(self).fault_of(req) {
                Some(e) => res == Err::<Response, ExceptionCode>(e),
                None => res is Ok && old(self).is_reply(req, res->Ok_0),
            },
            final(self).modbus_handler.input_registers() == old(
                self
            ).modbus_handler.input_registers(),
            final(self).modbus_handler.holding_registers() == old(self).holding_after(req),
            !(req is WriteSingleRegister || req is WriteMultipleRegisters) ==> *final(self)
                == *old(self),
            req is Unsupported ==> res == Err::<Response, ExceptionCode>(
                ExceptionCode::IllegalFunction,
            ),
    {
        match req {
            Request::ReadInputRegisters(addr, cnt) => {
                match self.modbus_handler.read_input_regs(addr, cnt) {
                    Ok(words) => Ok(Response::ReadInputRegisters(words)),
                    Err(e) => Err(e),
                }
            },
            Request::ReadHoldingRegisters(addr, cnt) => {
                match self.modbus_handler.read_holding_regs(addr, cnt) {
                    Ok(words) => Ok(Response::ReadHoldingRegisters(words)),
                    Err(e) => Err(e),
                }
            },
            Request::WriteSingleRegister(addr, value) => {
                let block: [u16; 1] = [value];
                assert(block@ =~= seq![value]);
                match self.modbus_handler.write_regs(addr, block.as_slice()) {
                    Ok(()) => Ok(Response::WriteSingleRegister(addr, value)),
                    Err(e) => Err(e),
                }
            },
            Request::WriteMultipleRegisters(addr, values) => {
                match self.modbus_handler.write_regs(addr, values.as_slice()) {
                    Ok(()) => Ok(
                        Response::WriteMultipleRegisters(
                            addr,
                            #[verifier::truncate]
                            (values.len() as u16),
                        ),
                    ),
                    Err(e) => Err(e),
                }
            },
            Request::Unsupported(_) => Err(ExceptionCode::IllegalFunction),
        }
    }
}

} // verus!
