use tftprs::constants::ErrorCode;
use tftprs::constants::Mode;
use tftprs::constants::OpCode;
use tftprs::constants::RequestType;
use tftprs::constants::MAX_DATA_SIZE;
use tftprs::constants::MAX_PACKET_SIZE;
use tftprs::errors::TftprsError;
use tftprs::serial::decode_ack;
use tftprs::serial::decode_data;
use tftprs::serial::decode_error;
use tftprs::serial::decode_opcode;
use tftprs::serial::decode_request;
use tftprs::serial::Ack;
use tftprs::serial::Data;
use tftprs::serial::ErrorResponse;
use tftprs::serial::Request;

fn request_bytes(opcode: u8, name: &[u8], mode: &[u8]) -> [u8; MAX_PACKET_SIZE] {
    let mut buffer = [0xFFu8; MAX_PACKET_SIZE];
    buffer[0] = 0;
    buffer[1] = opcode;
    let mut at = 2;
    for b in name {
        buffer[at] = *b;
        at += 1;
    }
    buffer[at] = 0;
    at += 1;
    for b in mode {
        buffer[at] = *b;
        at += 1;
    }
    buffer[at] = 0;
    buffer
}

#[test]
fn request_round_trip_each_kind_and_mode() {
    for kind in [RequestType::Read, RequestType::Write] {
        for mode in [Mode::Text, Mode::Binary] {
            let request = Request::new(kind, mode, String::from("boot/image.bin")).unwrap();
            let mut buffer = [0xEEu8; MAX_PACKET_SIZE];
            let count = request.serialize(&mut buffer);
            assert!(count > 0);
            let decoded = decode_request(&buffer).unwrap();
            assert_eq!(decoded.request, kind);
            assert_eq!(decoded.mode, mode);
            assert_eq!(decoded.filename, "boot/image.bin");
        }
    }
}

#[test]
fn data_round_trip_block_and_payload() {
    let file: Vec<u8> = (0..1200u32).map(|i| (i % 251) as u8).collect();
    for block in 1..=3u16 {
        let data = Data::new(block, &file).unwrap();
        let mut buffer = [0u8; MAX_PACKET_SIZE];
        let count = data.serialize(&mut buffer);
        let (decoded_block, len) = decode_data(&buffer, count).unwrap();
        assert_eq!(decoded_block, block);
        let start = (block as usize - 1) * MAX_DATA_SIZE;
        let expected_len = std::cmp::min(MAX_DATA_SIZE, file.len() - start);
        assert_eq!(len, expected_len);
        assert_eq!(&buffer[4..4 + len], &file[start..start + len]);
    }
}

#[test]
fn data_round_trip_empty_last_block() {
    let file: Vec<u8> = vec![1; MAX_DATA_SIZE];
    let data = Data::new(2, &file).unwrap();
    let mut buffer = [0u8; MAX_PACKET_SIZE];
    let count = data.serialize(&mut buffer);
    assert_eq!(count, 4);
    assert_eq!(decode_data(&buffer, count), Ok((2, 0)));
    assert!(Data::new(3, &file).is_none());
    assert!(Data::new(0, &file).is_none());
}

#[test]
fn data_offset_counts_from_block_one() {
    let file: Vec<u8> = vec![0; 3 * MAX_DATA_SIZE];
    assert_eq!(Data::new(1, &file).unwrap().offset(), 0);
    assert_eq!(Data::new(3, &file).unwrap().offset(), 1016);
}

#[test]
fn ack_round_trip_all_edges() {
    for block in [0u16, 1, 255, 256, 65535] {
        let mut buffer = [0u8; MAX_PACKET_SIZE];
        let count = Ack::new(block).serialize(&mut buffer);
        assert_eq!(count, 4);
        assert_eq!(decode_ack(&buffer, count).unwrap().block, block);
    }
}

#[test]
fn error_round_trip_each_code() {
    let codes = [
        ErrorCode::Undefined,
        ErrorCode::FileNotFound,
        ErrorCode::AccessViolation,
        ErrorCode::DiskFull,
        ErrorCode::IllegalOperation,
        ErrorCode::UnknownTransferId,
        ErrorCode::FileAlreadyExists,
        ErrorCode::NoSuchUser,
    ];
    for code in codes {
        let mut buffer = [0xAAu8; MAX_PACKET_SIZE];
        let count = ErrorResponse::new(code, String::from("no such file")).serialize(&mut buffer);
        assert_eq!(count, 4 + 12 + 1);
        let decoded = decode_error(&buffer, count).unwrap();
        assert_eq!(decoded.code, code);
        assert_eq!(decoded.message, "no such file");
    }
}

#[test]
fn error_code_unknown_value_is_undefined() {
    assert_eq!(ErrorCode::from_code(6), ErrorCode::FileAlreadyExists);
    assert_eq!(ErrorCode::from_code(8), ErrorCode::Undefined);
    assert_eq!(ErrorCode::from_code(0xFFFF), ErrorCode::Undefined);
}

#[test]
fn error_message_without_terminator_ends_at_length() {
    let mut buffer = [0u8; MAX_PACKET_SIZE];
    buffer[1] = 5;
    buffer[3] = 1;
    buffer[4] = b'o';
    buffer[5] = b'o';
    buffer[6] = b'p';
    buffer[7] = b's';
    let decoded = decode_error(&buffer, 6).unwrap();
    assert_eq!(decoded.code, ErrorCode::FileNotFound);
    assert_eq!(decoded.message, "oo");
}

#[test]
fn long_error_message_is_cut_to_one_packet() {
    let message: String = ['x'; 600].iter().collect();
    let mut buffer = [0u8; MAX_PACKET_SIZE];
    let count = ErrorResponse::new(ErrorCode::Undefined, message).serialize(&mut buffer);
    assert_eq!(count, MAX_PACKET_SIZE);
    assert_eq!(buffer[MAX_PACKET_SIZE - 1], 0);
    assert_eq!(buffer[MAX_PACKET_SIZE - 2], b'x');
}

#[test]
fn request_size_limit_binary() {
    // 2 + 503 + 1 + "OCTET" + 1 == 512
    let fits: String = ['a'; 503].iter().collect();
    let too_long: String = ['a'; 504].iter().collect();
    assert!(Request::filename_fits(Mode::Binary, &fits));
    assert!(!Request::filename_fits(Mode::Binary, &too_long));
    let request = Request::new(RequestType::Write, Mode::Binary, fits).unwrap();
    let mut buffer = [0u8; MAX_PACKET_SIZE];
    assert_eq!(request.serialize(&mut buffer), MAX_PACKET_SIZE);
    assert_eq!(decode_request(&buffer).unwrap().filename.len(), 503);
    assert_eq!(
        Request::new(RequestType::Write, Mode::Binary, too_long).unwrap_err(),
        TftprsError::BadRequestAttempted
    );
}

#[test]
fn request_size_limit_text() {
    // 2 + 500 + 1 + "NETASCII" + 1 == 512
    let fits: String = ['a'; 500].iter().collect();
    let too_long: String = ['a'; 501].iter().collect();
    assert!(Request::new(RequestType::Read, Mode::Text, fits).is_ok());
    assert!(Request::new(RequestType::Read, Mode::Text, too_long).is_err());
}

#[test]
fn request_that_does_not_fit_writes_nothing() {
    let request = Request {
        request: RequestType::Read,
        filename: ['a'; 600].iter().collect(),
        mode: Mode::Binary,
    };
    let mut buffer = [7u8; MAX_PACKET_SIZE];
    assert_eq!(request.serialize(&mut buffer), 0);
    assert!(buffer.iter().all(|b| *b == 7));
}

#[test]
fn mode_string_matches_in_any_case() {
    let lower = request_bytes(1, b"f", b"octet");
    assert_eq!(decode_request(&lower).unwrap().mode, Mode::Binary);
    let mixed = request_bytes(2, b"f", b"NetAscii");
    assert_eq!(decode_request(&mixed).unwrap().mode, Mode::Text);
    let mail = request_bytes(1, b"f", b"mail");
    assert_eq!(decode_request(&mail).unwrap_err(), TftprsError::BadPacketReceived);
}

#[test]
fn request_without_terminator_is_rejected() {
    let mut buffer = [b'a'; MAX_PACKET_SIZE];
    buffer[0] = 0;
    buffer[1] = 1;
    assert_eq!(decode_request(&buffer).unwrap_err(), TftprsError::BadPacketReceived);
    buffer[100] = 0;
    assert_eq!(decode_request(&buffer).unwrap_err(), TftprsError::BadPacketReceived);
}

#[test]
fn request_with_other_opcode_is_rejected() {
    let buffer = request_bytes(3, b"f", b"octet");
    assert_eq!(decode_request(&buffer).unwrap_err(), TftprsError::BadPacketReceived);
}

#[test]
fn opcodes_are_checked() {
    let mut buffer = [0u8; MAX_PACKET_SIZE];
    for (value, op) in [
        (1u8, OpCode::ReadRequest),
        (2, OpCode::WriteRequest),
        (3, OpCode::Data),
        (4, OpCode::Acknowledgement),
        (5, OpCode::Error),
    ] {
        buffer[1] = value;
        assert_eq!(decode_opcode(&buffer), Ok(op));
        assert_eq!(op.code(), value as u16);
    }
    buffer[1] = 6;
    assert_eq!(decode_opcode(&buffer), Err(TftprsError::BadPacketReceived));
    buffer[0] = 1;
    buffer[1] = 3;
    assert_eq!(decode_opcode(&buffer), Err(TftprsError::BadPacketReceived));
}

#[test]
fn data_length_is_checked() {
    let mut buffer = [0u8; MAX_PACKET_SIZE];
    buffer[1] = 3;
    assert_eq!(decode_data(&buffer, 3), Err(TftprsError::BadPacketReceived));
    assert_eq!(decode_data(&buffer, MAX_PACKET_SIZE + 1), Err(TftprsError::BadPacketReceived));
    assert_eq!(decode_data(&buffer, 4), Ok((0, 0)));
    assert_eq!(decode_data(&buffer, MAX_PACKET_SIZE), Ok((0, MAX_DATA_SIZE)));
    assert!(decode_ack(&buffer, 4).is_err());
}

#[test]
fn peer_error_becomes_error_response() {
    let mut buffer = [0u8; MAX_PACKET_SIZE];
    let count = ErrorResponse::new(ErrorCode::AccessViolation, String::from("denied"))
        .serialize(&mut buffer);
    let error = decode_error(&buffer, count).unwrap().into_error();
    assert_eq!(error, TftprsError::ErrorResponse(2, String::from("denied")));
}
