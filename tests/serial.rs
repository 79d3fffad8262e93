use tftprs::constants::ErrorCode;
use tftprs::constants::Mode;
use tftprs::constants::RequestType;
use tftprs::constants::MAX_DATA_SIZE;
use tftprs::constants::MAX_PACKET_SIZE;
use tftprs::serial::Ack;
use tftprs::serial::Data;
use tftprs::serial::ErrorResponse;
use tftprs::serial::Request;

#[test]
fn test_read_request() {
    let request = Request::new(RequestType::Read, Mode::Binary, String::from("ABCDE"));
    let mut tx_buffer = [0u8; MAX_PACKET_SIZE];
    request.unwrap().serialize(&mut tx_buffer);
    let expected: [u8; 14] = [
        0x0, 0x1, 0x41, 0x42, 0x43, 0x44, 0x45, 0x0, 0x4F, 0x43, 0x54, 0x45, 0x54, 0x0,
    ];
    assert_eq!(expected, tx_buffer[0..14]);
}

#[test]
fn test_write_request() {
    let request = Request::new(RequestType::Write, Mode::Text, String::from("ABCDE"));
    let mut tx_buffer = [0u8; MAX_PACKET_SIZE];
    request.unwrap().serialize(&mut tx_buffer);
    let expected: [u8; 17] = [
        0x0, 0x2, 0x41, 0x42, 0x43, 0x44, 0x45, 0x0, 0x4E, 0x45, 0x54, 0x41, 0x53, 0x43, 0x49,
        0x49, 0x0,
    ];
    assert_eq!(expected, tx_buffer[0..17]);
}

#[test]
fn test_bad_request() {
    let request = Request::new(
        RequestType::Write,
        Mode::Binary,
        String::from(['H'; 512].iter().collect::<String>()),
    );
    assert!(request.is_err());
}

#[test]
fn test_one_small_gram_data() {
    let my_datagram: Vec<u8> = vec![0x5a, 0xa5];
    let data = Data::new(1, &my_datagram);
    let mut tx_buffer = [0u8; MAX_PACKET_SIZE];
    data.unwrap().serialize(&mut tx_buffer);
    let expected: [u8; 6] = [0x0, 0x3, 0x0, 0x1, 0x5a, 0xa5];
    assert_eq!(expected, tx_buffer[0..6]);

    // cannot send a second one
    let data = Data::new(2, &my_datagram);
    assert!(data.is_none());
}

#[test]
fn test_full_packet_data() {
    let my_datagram: Vec<u8> = vec![0x5A; MAX_DATA_SIZE];
    let data = Data::new(1, &my_datagram);
    let mut tx_buffer = [0u8; MAX_PACKET_SIZE];
    data.unwrap().serialize(&mut tx_buffer);
    let mut expected: [u8; MAX_DATA_SIZE] = [0x5A; MAX_DATA_SIZE];
    expected[0] = 0x0;
    expected[1] = 0x3;
    expected[2] = 0x0;
    expected[3] = 0x1;
    assert_eq!(expected, tx_buffer[0..MAX_DATA_SIZE]);
}

#[test]
fn test_full_packet_data_and_one() {
    let mut my_datagram: Vec<u8> = vec![0x5A; MAX_DATA_SIZE + 1];
    my_datagram[MAX_DATA_SIZE] = 0xA5;
    let mut tx_buffer = [0u8; MAX_PACKET_SIZE];

    // first datagram
    let data = Data::new(1, &my_datagram);
    data.unwrap().serialize(&mut tx_buffer);
    let mut expected: [u8; MAX_DATA_SIZE] = [0x5A; MAX_DATA_SIZE];
    expected[0] = 0x0;
    expected[1] = 0x3;
    expected[2] = 0x0;
    expected[3] = 0x1;
    assert_eq!(expected, tx_buffer[0..MAX_DATA_SIZE]);

    // second datagram
    let data = Data::new(2, &my_datagram);
    data.unwrap().serialize(&mut tx_buffer);
    let expected: [u8; 5] = [0x0, 0x3, 0x0, 0x2, 0xA5];
    assert_eq!(expected, tx_buffer[0..5]);
}

#[test]
fn test_three_packets() {
    let mut my_datagram: Vec<u8> = vec![0x5A; MAX_DATA_SIZE * 2 + 1];
    my_datagram[MAX_DATA_SIZE * 2] = 0xA5;
    let mut tx_buffer = [0u8; MAX_PACKET_SIZE];

    let data = Data::new(3, &my_datagram);
    data.unwrap().serialize(&mut tx_buffer);
    let expected: [u8; 5] = [0x0, 0x3, 0x0, 0x3, 0xA5];
    assert_eq!(expected, tx_buffer[0..5]);
}

#[test]
fn test_ack() {
    let my_ack = Ack::new(0);
    let mut tx_buffer = [0u8; MAX_PACKET_SIZE];
    my_ack.serialize(&mut tx_buffer);
    let expected: [u8; 4] = [0x0, 0x4, 0x0, 0x0];
    assert_eq!(expected, tx_buffer[0..4]);

    let my_ack = Ack::new(257);
    let mut tx_buffer = [0u8; MAX_PACKET_SIZE];
    my_ack.serialize(&mut tx_buffer);
    let expected: [u8; 4] = [0x0, 0x4, 0x1, 0x1];
    assert_eq!(expected, tx_buffer[0..4]);
}

#[test]
fn test_error() {
    let my_error = ErrorResponse::new(ErrorCode::DiskFull, String::from("WRONG"));
    let mut tx_buffer = [0u8; MAX_PACKET_SIZE];
    my_error.serialize(&mut tx_buffer);
    let expected: [u8; 10] = [0x0, 0x5, 0x0, 0x3, 0x57, 0x52, 0x4F, 0x4E, 0x47, 0x0];
    assert_eq!(expected, tx_buffer[0..10]);
}
