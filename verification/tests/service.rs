use modbus_tank::fixture::FaultInjector;
use modbus_tank::frame::{ExceptionCode, Request, Response};
use modbus_tank::modbus::ModbusService;
use modbus_tank::model::ModleHandler;

fn service() -> ModbusService<ModleHandler> {
    let mut store = ModleHandler::new();
    store.input_registers = [200, 201, 202, 203, 204, 205, 206, 207, 208, 209];
    store.holding_registers = [100, 101, 102, 103, 104, 105, 106, 107, 108, 109];
    ModbusService::new(store)
}

#[test]
fn service_reads_input_registers() {
    let mut svc = service();
    assert_eq!(
        svc.call(Request::ReadInputRegisters(2, 3)),
        Ok(Response::ReadInputRegisters(vec![202, 203, 204]))
    );
    assert_eq!(
        svc.call(Request::ReadInputRegisters(8, 3)),
        Err(ExceptionCode::IllegalDataAddress)
    );
}

#[test]
fn service_reads_holding_registers() {
    let mut svc = service();
    assert_eq!(
        svc.call(Request::ReadHoldingRegisters(0, 10)),
        Ok(Response::ReadHoldingRegisters(vec![
            100, 101, 102, 103, 104, 105, 106, 107, 108, 109
        ]))
    );
    assert_eq!(
        svc.call(Request::ReadHoldingRegisters(1, 10)),
        Err(ExceptionCode::IllegalDataAddress)
    );
}

#[test]
fn service_writes_a_single_register_and_echoes_it() {
    let mut svc = service();
    assert_eq!(
        svc.call(Request::WriteSingleRegister(9, 4711)),
        Ok(Response::WriteSingleRegister(9, 4711))
    );
    assert_eq!(
        svc.modbus_handler.holding_registers,
        [100, 101, 102, 103, 104, 105, 106, 107, 108, 4711]
    );
    assert_eq!(
        svc.call(Request::WriteSingleRegister(10, 1)),
        Err(ExceptionCode::IllegalDataAddress)
    );
    assert_eq!(
        svc.modbus_handler.holding_registers,
        [100, 101, 102, 103, 104, 105, 106, 107, 108, 4711]
    );
}

#[test]
fn service_writes_a_block_and_reports_its_length() {
    let mut svc = service();
    assert_eq!(
        svc.call(Request::WriteMultipleRegisters(4, vec![7, 8, 9])),
        Ok(Response::WriteMultipleRegisters(4, 3))
    );
    assert_eq!(
        svc.call(Request::ReadHoldingRegisters(4, 3)),
        Ok(Response::ReadHoldingRegisters(vec![7, 8, 9]))
    );
    assert_eq!(
        svc.call(Request::WriteMultipleRegisters(8, vec![7, 8, 9])),
        Err(ExceptionCode::IllegalDataAddress)
    );
    assert_eq!(
        svc.modbus_handler.holding_registers,
        [100, 101, 102, 103, 7, 8, 9, 107, 108, 109]
    );
}

#[test]
fn writes_never_reach_the_input_registers() {
    let mut svc = service();
    svc.call(Request::WriteMultipleRegisters(0, vec![1; 10])).unwrap();
    svc.call(Request::WriteSingleRegister(2, 2)).unwrap();
    assert_eq!(
        svc.modbus_handler.input_registers,
        [200, 201, 202, 203, 204, 205, 206, 207, 208, 209]
    );
}

#[test]
fn unsupported_function_is_illegal_and_changes_nothing() {
    let mut svc = service();
    for code in [0x01u8, 0x02, 0x05, 0x0F, 0x16, 0x17, 0x2B, 0xFF] {
        assert_eq!(
            svc.call(Request::Unsupported(code)),
            Err(ExceptionCode::IllegalFunction)
        );
    }
    assert_eq!(
        svc.modbus_handler.input_registers,
        [200, 201, 202, 203, 204, 205, 206, 207, 208, 209]
    );
    assert_eq!(
        svc.modbus_handler.holding_registers,
        [100, 101, 102, 103, 104, 105, 106, 107, 108, 109]
    );
}

#[test]
fn disjoint_write_requests_are_all_visible_in_one_read() {
    let mut svc = service();
    let requests = [
        Request::WriteMultipleRegisters(6, vec![61, 62]),
        Request::WriteSingleRegister(0, 1),
        Request::WriteMultipleRegisters(2, vec![21, 22, 23]),
        Request::WriteSingleRegister(9, 91),
    ];
    for req in requests {
        assert!(svc.call(req).is_ok());
    }
    assert_eq!(
        svc.call(Request::ReadHoldingRegisters(0, 10)),
        Ok(Response::ReadHoldingRegisters(vec![
            1, 101, 21, 22, 23, 105, 61, 62, 108, 91
        ]))
    );
}

#[test]
fn service_passes_an_injected_fault_through_and_touches_nothing() {
    let mut device = FaultInjector::new();
    device.store.holding_registers = [100, 101, 102, 103, 104, 105, 106, 107, 108, 109];
    device.fault = Some(ExceptionCode::ServerDeviceBusy);
    let mut svc = ModbusService::new(device);
    assert_eq!(
        svc.call(Request::ReadInputRegisters(0, 1)),
        Err(ExceptionCode::ServerDeviceBusy)
    );
    assert_eq!(
        svc.call(Request::ReadHoldingRegisters(0, 1)),
        Err(ExceptionCode::ServerDeviceBusy)
    );
    assert_eq!(
        svc.call(Request::WriteSingleRegister(0, 1)),
        Err(ExceptionCode::ServerDeviceBusy)
    );
    assert_eq!(
        svc.call(Request::WriteMultipleRegisters(0, vec![1, 2])),
        Err(ExceptionCode::ServerDeviceBusy)
    );
    assert_eq!(
        svc.call(Request::Unsupported(0x07)),
        Err(ExceptionCode::IllegalFunction)
    );
    assert_eq!(
        svc.modbus_handler.store.holding_registers,
        [100, 101, 102, 103, 104, 105, 106, 107, 108, 109]
    );
    assert_eq!(svc.modbus_handler.fault, Some(ExceptionCode::ServerDeviceBusy));
}

#[test]
fn device_without_a_fault_behaves_as_the_store() {
    let mut svc = ModbusService::new(FaultInjector::new());
    assert_eq!(
        svc.call(Request::WriteMultipleRegisters(8, vec![1, 2])),
        Ok(Response::WriteMultipleRegisters(8, 2))
    );
    assert_eq!(
        svc.call(Request::ReadHoldingRegisters(7, 3)),
        Ok(Response::ReadHoldingRegisters(vec![0, 1, 2]))
    );
    assert_eq!(
        svc.call(Request::ReadInputRegisters(7, 4)),
        Err(ExceptionCode::IllegalDataAddress)
    );
    svc.modbus_handler.fault = Some(ExceptionCode::Custom(0x42));
    assert_eq!(
        svc.call(Request::ReadHoldingRegisters(7, 3)),
        Err(ExceptionCode::Custom(0x42))
    );
}
