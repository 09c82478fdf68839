use modbus_codec::adu::tcp::header::Header;
use modbus_codec::adu::tcp::request::Request as AduRequest;
use modbus_codec::adu::tcp::response::Response as AduResponse;
use modbus_codec::error::DecodeError;
use modbus_codec::exception_code::ExceptionCode;
use modbus_codec::pdu::exception_response::ExceptionResponse;
use modbus_codec::pdu::function_code::FunctionCode;
use modbus_codec::pdu::request::Request as PduRequest;
use modbus_codec::pdu::response::Response as PduResponse;
use modbus_codec::pdu::word::DataWords;

#[test]
fn response_response_from_buffer() {
    let buf: &[u8] = &[0, 1, 0, 0, 0, 13, 1, 4, 10, 0, 1, 0, 2, 0, 3, 0, 4, 0, 5];
    assert_eq!(
        AduResponse::decode(buf),
        Ok(AduResponse::new(
            1,
            1,
            Ok(PduResponse::ReadInputRegisters(DataWords::new(
                &[0, 1, 0, 2, 0, 3, 0, 4, 0, 5],
                5
            )))
        ))
    );
}

#[test]
fn response_buffer_from_response() {
    let res = AduResponse::new(
        1,
        1,
        Ok(PduResponse::ReadInputRegisters(DataWords::new(
            &[0, 1, 0, 2, 0, 3, 0, 4, 0, 5],
            5,
        ))),
    );
    assert_eq!(res.header(), &Header::new(1, 13, 1));
    let buf = &mut [0_u8; 19];
    let adu_len = res.encode(buf);
    assert_eq!(adu_len, Ok(19));
    assert_eq!(
        buf,
        &[0, 1, 0, 0, 0, 13, 1, 4, 10, 0, 1, 0, 2, 0, 3, 0, 4, 0, 5]
    );
}

#[test]
fn header_round_trip() {
    let header = Header::new(1, 13, 1);
    assert_eq!(header.protocol_id, 0);
    let mut buf = [0_u8; 7];
    assert_eq!(header.encode(&mut buf), Ok(7));
    assert_eq!(buf, [0, 1, 0, 0, 0, 13, 1]);
    assert_eq!(Header::decode(&buf), Ok(header));
    assert_eq!(Header::size(), 7);
}

#[test]
fn header_from_short_buffer_is_incomplete() {
    assert_eq!(
        Header::decode(&[0, 1, 0]),
        Err(DecodeError::IncompleteBuffer {
            current_size: 3,
            min_needed_size: 7,
        })
    );
}

#[test]
fn exception_framing() {
    let res = ExceptionResponse::new(FunctionCode::ReadCoils, ExceptionCode::IllegalFunction);
    assert_eq!(res.pdu_len(), 2);
    let mut buf = [0_u8; 2];
    assert_eq!(res.encode(&mut buf), Ok(2));
    assert_eq!(buf, [0x81, 0x01]);
    assert_eq!(
        PduRequest::decode(&buf),
        Err(DecodeError::ModbusExceptionCode(
            FunctionCode::ReadCoils,
            Ok(ExceptionCode::IllegalFunction)
        ))
    );
}

#[test]
fn request_frame_encodes_header_then_pdu() {
    let req = AduRequest::new(0x1234, 0x05, PduRequest::ReadCoils(6, 1000));
    assert_eq!(req.pdu_len(), 5);
    assert_eq!(req.adu_len(), 12);
    assert_eq!(req.header(), &Header::new(0x1234, 6, 0x05));
    assert_eq!(req.pdu(), &PduRequest::ReadCoils(6, 1000));
    let mut buf = [0_u8; 12];
    assert_eq!(req.encode(&mut buf), Ok(12));
    assert_eq!(
        buf,
        [0x12, 0x34, 0, 0, 0, 6, 0x05, 0x01, 0x00, 0x06, 0x03, 0xe8]
    );
}

#[test]
fn truncated_response_frame_reports_the_full_length() {
    let frame: &[u8] = &[0, 1, 0, 0, 0, 13, 1, 4, 10, 0, 1, 0, 2, 0, 3, 0, 4, 0, 5];
    assert_eq!(
        AduResponse::decode(&frame[..5]),
        Err(DecodeError::IncompleteBuffer {
            current_size: 5,
            min_needed_size: 7,
        })
    );
    assert_eq!(
        AduResponse::decode(&frame[..10]),
        Err(DecodeError::IncompleteBuffer {
            current_size: 10,
            min_needed_size: 19,
        })
    );
    assert_eq!(
        AduResponse::decode(&frame[..18]),
        Err(DecodeError::IncompleteBuffer {
            current_size: 18,
            min_needed_size: 19,
        })
    );
}

#[test]
fn exception_frame_decodes_to_the_device_exception() {
    let res = AduResponse::new(
        1,
        2,
        Err(ExceptionResponse::new(
            FunctionCode::ReadCoils,
            ExceptionCode::IllegalFunction,
        )),
    );
    assert_eq!(res.pdu_len(), 2);
    assert_eq!(res.adu_len(), 9);
    let mut buf = [0_u8; 9];
    assert_eq!(res.encode(&mut buf), Ok(9));
    assert_eq!(buf, [0, 1, 0, 0, 0, 3, 2, 0x81, 0x01]);
    assert_eq!(
        AduResponse::decode(&buf),
        Err(DecodeError::ModbusExceptionCode(
            FunctionCode::ReadCoils,
            Ok(ExceptionCode::IllegalFunction)
        ))
    );
}
