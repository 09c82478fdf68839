use modbus_codec::exception_code::ExceptionCode;
use modbus_codec::pdu::function_code::FunctionCode;

#[test]
fn function_code_from_u8() {
    assert_eq!(FunctionCode::try_from(0x01), Ok(FunctionCode::ReadCoils));
    assert_eq!(FunctionCode::try_from(0x05), Ok(FunctionCode::WriteSingleCoil));
    assert_eq!(FunctionCode::try_from(0x20), Ok(FunctionCode::Custom(0x20)));
    assert_eq!(FunctionCode::try_from(0x80), Err(0x80));
    assert_eq!(FunctionCode::try_from(0x9a), Err(0x9a));
    assert_eq!(FunctionCode::try_from(0xff), Err(0xff));
}

#[test]
fn function_code_to_byte_inverts_try_from() {
    let bytes = [0x01_u8, 0x02, 0x03, 0x04, 0x05, 0x06, 0x0f, 0x10, 0x16, 0x17, 0x20, 0x7f, 0x00];
    for &b in bytes.iter() {
        assert_eq!(FunctionCode::try_from(b).unwrap().to_byte(), b);
    }
}

#[test]
fn exception_code_from_u8() {
    assert_eq!(ExceptionCode::try_from(0x01), Ok(ExceptionCode::IllegalFunction));
    assert_eq!(ExceptionCode::try_from(0x02), Ok(ExceptionCode::IllegalDataAddress));
    assert_eq!(ExceptionCode::try_from(0x03), Ok(ExceptionCode::IllegalDataValue));
    assert_eq!(ExceptionCode::try_from(0x04), Ok(ExceptionCode::ServerDeviceFailure));
    assert_eq!(ExceptionCode::try_from(0x05), Ok(ExceptionCode::Acknowledge));
    assert_eq!(ExceptionCode::try_from(0x06), Ok(ExceptionCode::ServerDeviceBusy));
    assert_eq!(ExceptionCode::try_from(0x08), Ok(ExceptionCode::MemoryParityError));
    assert_eq!(ExceptionCode::try_from(0x0a), Ok(ExceptionCode::GatewayPathUnavailable));
    assert_eq!(
        ExceptionCode::try_from(0x0b),
        Ok(ExceptionCode::GatewayTargetDeviceFailedToRespond)
    );
    assert_eq!(ExceptionCode::try_from(0x07), Err(0x07));
    assert_eq!(ExceptionCode::try_from(0xcc), Err(0xcc));
}
