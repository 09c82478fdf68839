use modbus_codec::error::{DecodeError, EncodeError, ExceptionError};
use modbus_codec::exception_code::ExceptionCode;
use modbus_codec::pdu::coil::DataCoils;
use modbus_codec::pdu::function_code::FunctionCode;
use modbus_codec::pdu::request::Request;
use modbus_codec::pdu::word::DataWords;

#[test]
fn request_from_buffer() {
    let buf: &[u8] = &[];
    assert_eq!(
        Request::decode(buf),
        Err(DecodeError::IncompleteBuffer {
            current_size: 0,
            min_needed_size: 1,
        })
    );

    let buf: &[u8] = &[0x81, 0x01];
    assert_eq!(
        Request::decode(buf),
        Err(DecodeError::ModbusExceptionCode(
            FunctionCode::ReadCoils,
            Ok(ExceptionCode::IllegalFunction)
        ))
    );
    let buf: &[u8] = &[0x90, 0x02];
    assert_eq!(
        Request::decode(buf),
        Err(DecodeError::ModbusExceptionCode(
            FunctionCode::WriteMultipleRegisters,
            Ok(ExceptionCode::IllegalDataAddress)
        ))
    );

    let buf: &[u8] = &[0x01, 0x00, 0x06, 0x03, 0xe8];
    assert_eq!(Request::decode(buf), Ok(Request::ReadCoils(6, 1000)));
    let buf: &[u8] = &[0x01, 0x00, 0x06, 0x80, 0x00];
    assert_eq!(
        Request::decode(buf),
        Err(DecodeError::ModbusExceptionError(
            FunctionCode::ReadCoils,
            ExceptionError::IllegalDataValue,
        ))
    );

    let buf: &[u8] = &[0x0f, 0x00, 0x13, 0x00, 0x0a, 0x02, 0xcd, 0x01];
    assert_eq!(
        Request::decode(buf),
        Ok(Request::WriteMultipleCoils(
            0x13,
            DataCoils::new(&[0xcd, 0x01], 0x0a)
        ))
    );
}

#[test]
fn request_buffer_from_response() {
    let res = Request::ReadCoils(0x03e8, 0x0123);
    let buf: &mut [u8] = &mut [0; 5];
    let pdu_len = res.encode(buf);
    assert_eq!(pdu_len, Ok(5));
    assert_eq!(buf, &[0x01, 0x03, 0xe8, 0x01, 0x23]);
}

#[test]
fn read_coils_quantity_boundaries() {
    let out_of_range = Err(DecodeError::ModbusExceptionError(
        FunctionCode::ReadCoils,
        ExceptionError::IllegalDataValue,
    ));
    assert_eq!(Request::decode(&[0x01, 0x00, 0x00, 0x00, 0x00]), out_of_range);
    assert_eq!(Request::decode(&[0x01, 0x00, 0x00, 0x07, 0xd1]), out_of_range);
    assert_eq!(
        Request::decode(&[0x01, 0x00, 0x00, 0x00, 0x01]),
        Ok(Request::ReadCoils(0, 1))
    );
    assert_eq!(
        Request::decode(&[0x01, 0x00, 0x00, 0x07, 0xd0]),
        Ok(Request::ReadCoils(0, 2000))
    );
}

#[test]
fn read_holding_registers_quantity_boundaries() {
    let out_of_range = Err(DecodeError::ModbusExceptionError(
        FunctionCode::ReadHoldingRegisters,
        ExceptionError::IllegalDataValue,
    ));
    assert_eq!(Request::decode(&[0x03, 0x00, 0x00, 0x00, 0x00]), out_of_range);
    assert_eq!(Request::decode(&[0x03, 0x00, 0x00, 0x00, 0x7e]), out_of_range);
    assert_eq!(
        Request::decode(&[0x03, 0x00, 0x00, 0x00, 0x01]),
        Ok(Request::ReadHoldingRegisters(0, 1))
    );
    assert_eq!(
        Request::decode(&[0x03, 0x00, 0x00, 0x00, 0x7d]),
        Ok(Request::ReadHoldingRegisters(0, 125))
    );
}

#[test]
fn write_multiple_coils_quantity_boundaries() {
    let out_of_range = Err(DecodeError::ModbusExceptionError(
        FunctionCode::WriteMultipleCoils,
        ExceptionError::IllegalDataValue,
    ));
    assert_eq!(
        Request::decode(&[0x0f, 0x00, 0x00, 0x00, 0x00, 0x00]),
        out_of_range
    );
    assert_eq!(
        Request::decode(&[0x0f, 0x00, 0x00, 0x07, 0xb1, 0x00]),
        out_of_range
    );
    assert_eq!(
        Request::decode(&[0x0f, 0x00, 0x02, 0x00, 0x01, 0x01, 0x01]),
        Ok(Request::WriteMultipleCoils(2, DataCoils::new(&[0x01], 1)))
    );

    let mut frame = vec![0x0f, 0x00, 0x00, 0x07, 0xb0, 246];
    frame.extend(std::iter::repeat(0xff).take(246));
    let decoded = Request::decode(&frame);
    assert_eq!(
        decoded,
        Ok(Request::WriteMultipleCoils(
            0,
            DataCoils::new(&frame[6..], 1968)
        ))
    );
}

#[test]
fn write_single_coil_value_rule() {
    assert_eq!(
        Request::decode(&[0x05, 0x00, 0x01, 0xff, 0x00]),
        Ok(Request::WriteSingleCoil(1, true))
    );
    assert_eq!(
        Request::decode(&[0x05, 0x00, 0x01, 0x00, 0x00]),
        Ok(Request::WriteSingleCoil(1, false))
    );
    assert_eq!(
        Request::decode(&[0x05, 0x00, 0x01, 0x12, 0x34]),
        Err(DecodeError::ModbusExceptionError(
            FunctionCode::WriteSingleCoil,
            ExceptionError::IllegalDataValue,
        ))
    );
}

#[test]
fn incomplete_request_buffers_say_what_is_needed() {
    assert_eq!(
        Request::decode(&[0x01, 0x00]),
        Err(DecodeError::IncompleteBuffer {
            current_size: 2,
            min_needed_size: 5,
        })
    );
    assert_eq!(
        Request::decode(&[0x81]),
        Err(DecodeError::IncompleteBuffer {
            current_size: 1,
            min_needed_size: 2,
        })
    );
    assert_eq!(
        Request::decode(&[0x0f, 0x00, 0x00, 0x00, 0x08]),
        Err(DecodeError::IncompleteBuffer {
            current_size: 5,
            min_needed_size: 6,
        })
    );
    assert_eq!(
        Request::decode(&[0x0f, 0x00, 0x00, 0x00, 0x08, 0x01]),
        Err(DecodeError::IncompleteBuffer {
            current_size: 6,
            min_needed_size: 7,
        })
    );
    assert_eq!(
        Request::decode(&[0x17, 0x00, 0x00, 0x00, 0x01, 0x00, 0x00, 0x00, 0x01]),
        Err(DecodeError::IncompleteBuffer {
            current_size: 9,
            min_needed_size: 10,
        })
    );
}

#[test]
fn mask_write_register_round_trip() {
    let req = Request::MaskWriteRegister(0x0102, 0xf0f0, 0x0f0f);
    let mut buf = [0_u8; 7];
    assert_eq!(req.encode(&mut buf), Ok(7));
    assert_eq!(buf, [0x16, 0x01, 0x02, 0xf0, 0xf0, 0x0f, 0x0f]);
    assert_eq!(Request::decode(&buf), Ok(req));
}

#[test]
fn read_write_multiple_registers_round_trip() {
    let req = Request::ReadWriteMultipleRegisters(3, 2, 10, DataWords::new(&[0, 1, 0, 2], 2));
    assert_eq!(req.pdu_len(), 14);
    let mut buf = [0_u8; 14];
    assert_eq!(req.encode(&mut buf), Ok(14));
    assert_eq!(
        buf,
        [0x17, 0x00, 0x03, 0x00, 0x02, 0x00, 0x0a, 0x00, 0x02, 0x04, 0x00, 0x01, 0x00, 0x02]
    );
    assert_eq!(Request::decode(&buf), Ok(req));
}

#[test]
fn write_multiple_registers_round_trip() {
    let req = Request::WriteMultipleRegisters(7, DataWords::new(&[0xab, 0xcd], 1));
    let mut buf = [0_u8; 8];
    assert_eq!(req.encode(&mut buf), Ok(8));
    assert_eq!(buf, [0x10, 0x00, 0x07, 0x00, 0x01, 0x02, 0xab, 0xcd]);
    assert_eq!(Request::decode(&buf), Ok(req));
}

#[test]
fn custom_request_round_trip() {
    let req = Request::Custom(FunctionCode::Custom(0x20), &[1, 2, 3]);
    let mut buf = [0_u8; 4];
    assert_eq!(req.encode(&mut buf), Ok(4));
    assert_eq!(buf, [0x20, 1, 2, 3]);
    assert_eq!(Request::decode(&buf), Ok(req));
}

#[test]
fn encode_into_short_buffer_is_refused() {
    let req = Request::ReadCoils(0, 1);
    let mut buf = [0_u8; 4];
    assert_eq!(req.encode(&mut buf), Err(EncodeError::InvalidBufferSize));
    assert_eq!(buf, [0, 0, 0, 0]);
}

#[test]
fn pdu_len_matches_encoded_size() {
    let req = Request::WriteMultipleCoils(0x13, DataCoils::new(&[0xcd, 0x01], 10));
    assert_eq!(req.pdu_len(), 8);
    assert_eq!(req.pdu_len(), 8);
    let mut buf = [0_u8; 8];
    assert_eq!(req.encode(&mut buf), Ok(req.pdu_len()));
}
