use modbus_codec::error::{DecodeError, EncodeError, ExceptionError};
use modbus_codec::exception_code::ExceptionCode;
use modbus_codec::pdu::coil::DataCoils;
use modbus_codec::pdu::function_code::FunctionCode;
use modbus_codec::pdu::response::Response;
use modbus_codec::pdu::word::DataWords;

#[test]
fn response_from_buffer() {
    let buf: &[u8] = &[];
    assert_eq!(
        Response::decode(buf),
        Err(DecodeError::IncompleteBuffer {
            current_size: 0,
            min_needed_size: 1,
        })
    );

    let buf: &[u8] = &[0x81, 0x01];
    assert_eq!(
        Response::decode(buf),
        Err(DecodeError::ModbusExceptionCode(
            FunctionCode::ReadCoils,
            Ok(ExceptionCode::IllegalFunction)
        ))
    );
    let buf: &[u8] = &[0x90, 0x02];
    assert_eq!(
        Response::decode(buf),
        Err(DecodeError::ModbusExceptionCode(
            FunctionCode::WriteMultipleRegisters,
            Ok(ExceptionCode::IllegalDataAddress)
        ))
    );

    let buf: &[u8] = &[0x01, 0x02, 0xff, 0x7f];
    assert_eq!(
        Response::decode(buf),
        Ok(Response::ReadCoils(DataCoils::new(&[0xff, 0x7f], 16)))
    );
    let buf: &[u8] = &[0x02, 0x02, 0xff, 0x7f];
    assert_eq!(
        Response::decode(buf),
        Ok(Response::ReadDiscreteInput(DataCoils::new(&[0xff, 0x7f], 16)))
    );
    let buf: &[u8] = &[0x03, 0x04, 0x00, 0x11, 0x00, 0x04];
    assert_eq!(
        Response::decode(buf),
        Ok(Response::ReadHoldingRegisters(DataWords::new(
            &[0x00, 0x11, 0x00, 0x04],
            2
        )))
    );
    let buf: &[u8] = &[0x04, 0x04, 0x00, 0x11, 0x00, 0x04];
    assert_eq!(
        Response::decode(buf),
        Ok(Response::ReadInputRegisters(DataWords::new(
            &[0x00, 0x11, 0x00, 0x04],
            2
        )))
    );
}

#[test]
fn response_from_incomplete_buffer() {
    let buf: &[u8] = &[0x01, 0x02, 0xff];
    assert_eq!(
        Response::decode(buf),
        Err(DecodeError::IncompleteBuffer {
            current_size: 3,
            min_needed_size: 4,
        })
    );
    let buf: &[u8] = &[0x01];
    assert_eq!(
        Response::decode(buf),
        Err(DecodeError::IncompleteBuffer {
            current_size: 1,
            min_needed_size: 2,
        })
    );
    let buf: &[u8] = &[0x02];
    assert_eq!(
        Response::decode(buf),
        Err(DecodeError::IncompleteBuffer {
            current_size: 1,
            min_needed_size: 2,
        })
    );
    let buf: &[u8] = &[0x03];
    assert_eq!(
        Response::decode(buf),
        Err(DecodeError::IncompleteBuffer {
            current_size: 1,
            min_needed_size: 2,
        })
    );
    let buf: &[u8] = &[0x04];
    assert_eq!(
        Response::decode(buf),
        Err(DecodeError::IncompleteBuffer {
            current_size: 1,
            min_needed_size: 2,
        })
    );
    let buf: &[u8] = &[0x04, 0x04, 0x00, 0x11, 0x00];
    assert_eq!(
        Response::decode(buf),
        Err(DecodeError::IncompleteBuffer {
            current_size: 5,
            min_needed_size: 6,
        })
    );
    let buf: &[u8] = &[0x04, 0x04, 0x00, 0x11];
    assert_eq!(
        Response::decode(buf),
        Err(DecodeError::IncompleteBuffer {
            current_size: 4,
            min_needed_size: 6,
        })
    );
}

#[test]
fn buffer_from_response() {
    let res = Response::ReadCoils(DataCoils::new(&[0xff, 0x7f], 16));
    let buf: &mut [u8] = &mut [0; 4];
    let pdu_len = res.encode(buf);
    assert_eq!(pdu_len, Ok(4));
    assert_eq!(buf, &[0x01, 0x02, 0xff, 0x7f]);
}

#[test]
fn vec_buffer_from_response() {
    let res = Response::ReadCoils(DataCoils::new(&[0xff, 0x7f], 16));
    let size = res.pdu_len();
    let mut buf = vec![0; size];
    let pdu_len = res.encode(&mut buf);
    assert_eq!(pdu_len, Ok(4));
    assert_eq!(buf, &[0x01, 0x02, 0xff, 0x7f]);
}

#[test]
fn write_echo_responses_round_trip() {
    let res = Response::WriteSingleRegister(0x0102, 0x0304);
    let mut buf = [0_u8; 5];
    assert_eq!(res.encode(&mut buf), Ok(5));
    assert_eq!(buf, [0x06, 0x01, 0x02, 0x03, 0x04]);
    assert_eq!(Response::decode(&buf), Ok(res));

    let res = Response::WriteMultipleCoils(0x13, 10);
    let mut buf = [0_u8; 5];
    assert_eq!(res.encode(&mut buf), Ok(5));
    assert_eq!(buf, [0x0f, 0x00, 0x13, 0x00, 0x0a]);
    assert_eq!(Response::decode(&buf), Ok(res));

    let res = Response::WriteMultipleRegisters(0x13, 2);
    let mut buf = [0_u8; 5];
    assert_eq!(res.encode(&mut buf), Ok(5));
    assert_eq!(Response::decode(&buf), Ok(res));

    let res = Response::WriteSingleCoil(9, true);
    let mut buf = [0_u8; 5];
    assert_eq!(res.encode(&mut buf), Ok(5));
    assert_eq!(buf, [0x05, 0x00, 0x09, 0xff, 0x00]);
    assert_eq!(Response::decode(&buf), Ok(res));
}

#[test]
fn write_multiple_coils_echo_quantity_boundaries() {
    let out_of_range = Err(DecodeError::ModbusExceptionError(
        FunctionCode::WriteMultipleCoils,
        ExceptionError::IllegalDataValue,
    ));
    assert_eq!(Response::decode(&[0x0f, 0x00, 0x00, 0x00, 0x00]), out_of_range);
    assert_eq!(Response::decode(&[0x0f, 0x00, 0x00, 0x07, 0xb1]), out_of_range);
    assert_eq!(
        Response::decode(&[0x0f, 0x00, 0x00, 0x00, 0x01]),
        Ok(Response::WriteMultipleCoils(0, 1))
    );
    assert_eq!(
        Response::decode(&[0x0f, 0x00, 0x00, 0x07, 0xb0]),
        Ok(Response::WriteMultipleCoils(0, 1968))
    );
}

#[test]
fn write_multiple_registers_echo_quantity_boundaries() {
    let out_of_range = Err(DecodeError::ModbusExceptionError(
        FunctionCode::WriteMultipleRegisters,
        ExceptionError::IllegalDataValue,
    ));
    assert_eq!(Response::decode(&[0x10, 0x00, 0x00, 0x00, 0x00]), out_of_range);
    assert_eq!(Response::decode(&[0x10, 0x00, 0x00, 0x00, 0x7c]), out_of_range);
    assert_eq!(
        Response::decode(&[0x10, 0x00, 0x00, 0x00, 0x01]),
        Ok(Response::WriteMultipleRegisters(0, 1))
    );
    assert_eq!(
        Response::decode(&[0x10, 0x00, 0x00, 0x00, 0x7b]),
        Ok(Response::WriteMultipleRegisters(0, 123))
    );
}

#[test]
fn write_single_coil_response_value_rule() {
    assert_eq!(
        Response::decode(&[0x05, 0x00, 0x01, 0x12, 0x34]),
        Err(DecodeError::ModbusExceptionError(
            FunctionCode::WriteSingleCoil,
            ExceptionError::IllegalDataValue,
        ))
    );
}

#[test]
fn mask_write_register_response_round_trip() {
    let res = Response::MaskWriteRegister(4, 0x00ff, 0xff00);
    let mut buf = [0_u8; 7];
    assert_eq!(res.encode(&mut buf), Ok(7));
    assert_eq!(buf, [0x16, 0x00, 0x04, 0x00, 0xff, 0xff, 0x00]);
    assert_eq!(Response::decode(&buf), Ok(res));
}

#[test]
fn read_write_multiple_registers_response_round_trip() {
    let res = Response::ReadWriteMultipleRegisters(DataWords::new(&[0, 1, 0, 2], 2));
    let mut buf = [0_u8; 6];
    assert_eq!(res.encode(&mut buf), Ok(6));
    assert_eq!(buf, [0x17, 0x04, 0x00, 0x01, 0x00, 0x02]);
    assert_eq!(Response::decode(&buf), Ok(res));
}

#[test]
fn custom_response_round_trip() {
    let res = Response::Custom(FunctionCode::Custom(0x42), &[9, 8]);
    let mut buf = [0_u8; 3];
    assert_eq!(res.encode(&mut buf), Ok(3));
    assert_eq!(buf, [0x42, 9, 8]);
    assert_eq!(Response::decode(&buf), Ok(res));
}

#[test]
fn response_encode_into_short_buffer_is_refused() {
    let res = Response::ReadCoils(DataCoils::new(&[0xff, 0x7f], 16));
    let mut buf = [0_u8; 3];
    assert_eq!(res.encode(&mut buf), Err(EncodeError::InvalidBufferSize));
    assert_eq!(buf, [0, 0, 0]);
}
