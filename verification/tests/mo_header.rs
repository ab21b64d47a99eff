use chrono::{DateTime, Utc};
use directip::error::Error;
use directip::mo::header::{Header, HeaderBuilder, SessionStatus};

#[test]
fn header_decode() {
    match SessionStatus::decode(&0x00) {
        Ok(SessionStatus::Success) => SessionStatus::Success,
        Err(error) => panic!("Error: {:?}", error),
        _ => panic!("Decoded wrong session status"),
    };
    match SessionStatus::decode(&0x01) {
        Ok(SessionStatus::MTTooLarge) => SessionStatus::MTTooLarge,
        Err(error) => panic!("Error: {:?}", error),
        _ => panic!("Decoded wrong session status"),
    };
    match SessionStatus::decode(&0x02) {
        Ok(SessionStatus::BadLocation) => SessionStatus::BadLocation,
        Err(error) => panic!("Error: {:?}", error),
        _ => panic!("Decoded wrong session status"),
    };
    match SessionStatus::decode(&0x0a) {
        Ok(SessionStatus::Timeout) => SessionStatus::Timeout,
        Err(error) => panic!("Error: {:?}", error),
        _ => panic!("Decoded wrong session status"),
    };
    match SessionStatus::decode(&0x0b) {
        Err(Error::InvalidSessionStatus(0x0b)) => (),
        Err(error) => panic!("Error: {:?}", error),
        _ => panic!("Decoded wrong session status"),
    };
    match SessionStatus::decode(&0x0c) {
        Ok(SessionStatus::MOTooLarge) => SessionStatus::MOTooLarge,
        Err(error) => panic!("Error: {:?}", error),
        _ => panic!("Decoded wrong session status"),
    };
    match SessionStatus::decode(&0x0d) {
        Ok(SessionStatus::RFLoss) => SessionStatus::RFLoss,
        Err(error) => panic!("Error: {:?}", error),
        _ => panic!("Decoded wrong session status"),
    };
    match SessionStatus::decode(&0x0e) {
        Ok(SessionStatus::SSDAnomaly) => SessionStatus::SSDAnomaly,
        Err(error) => panic!("Error: {:?}", error),
        _ => panic!("Decoded wrong session status"),
    };
    match SessionStatus::decode(&0x0f) {
        Ok(SessionStatus::SSDProhibited) => SessionStatus::SSDProhibited,
        Err(error) => panic!("Error: {:?}", error),
        _ => panic!("Decoded wrong session status"),
    };
    match SessionStatus::decode(&0x10) {
        Err(Error::InvalidSessionStatus(0x10)) => (),
        Err(error) => panic!("Error: {:?}", error),
        _ => panic!("Decoded wrong session status"),
    };
}

#[test]
fn header_roundtrip_decode_encode() {
    let combinations = vec![0, 1, 2, 10, 12, 13, 14, 15];
    for i in combinations {
        assert_eq!(i, SessionStatus::decode(&i).unwrap().encode())
    }
}

#[test]
fn header_read() {
    let buffer = [0x00].as_slice();
    let status = SessionStatus::from_reader(buffer).unwrap();
    assert_eq!(status, SessionStatus::Success);
}

#[test]
/// The decoder accepts exactly the eight documented session status codes.
fn session_status_totality() {
    let valid = [0u8, 1, 2, 10, 12, 13, 14, 15];
    for code in 0u8..=255 {
        let r = SessionStatus::decode(&code);
        if valid.contains(&code) {
            assert!(r.is_ok());
        } else {
            assert_eq!(r, Err(Error::InvalidSessionStatus(code)));
        }
    }
}

fn session_seconds(text: &str) -> u32 {
    text.parse::<DateTime<Utc>>().unwrap().timestamp().try_into().unwrap()
}

#[test]
fn header_header_write() {
    let header = Header {
        cdr_uid: 9999,
        imei: [0, 1, 2, 3, 4, 5, 6, 7, 8, 9, 10, 11, 12, 13, 14],
        session_status: SessionStatus::Success,
        momsn: 999,
        mtmsn: 111,
        time_of_session: session_seconds("2000-03-14T12:12:12Z"),
    };
    let msg = header.to_vec();
    assert_eq!(
        msg,
        [
            0x01, 0x00, 0x1c, 0x00, 0x00, 0x27, 0x0f, 0x00, 0x01, 0x02, 0x03, 0x04, 0x05, 0x06,
            0x07, 0x08, 0x09, 0x0a, 0x0b, 0x0c, 0x0d, 0x0e, 0x00, 0x03, 0xe7, 0x00, 0x6f, 0x38,
            0xce, 0x2c, 0x9c
        ]
    );
}

#[test]
fn header_roundtrip_to_vec_n_read() {
    let header = Header {
        cdr_uid: 9999,
        imei: [0, 1, 2, 3, 4, 5, 6, 7, 8, 9, 10, 11, 12, 13, 14],
        session_status: SessionStatus::Success,
        momsn: 999,
        mtmsn: 111,
        time_of_session: session_seconds("2000-03-14T12:12:12Z"),
    };
    assert_eq!(header, Header::from_reader(header.to_vec().as_slice()).unwrap());
}

#[test]
fn build_missing_required() {
    let header = HeaderBuilder::default().build();
    assert!(matches!(header, Err(Error::UninitializedField(_))))
}

#[test]
fn build() {
    let header = HeaderBuilder::default()
        .cdr_uid(9999)
        .imei([0, 1, 2, 3, 4, 5, 6, 7, 8, 9, 0, 1, 2, 3, 4])
        .session_status(SessionStatus::Success)
        .momsn(999)
        .mtmsn(9999)
        .time_of_session(Utc::now().timestamp().try_into().unwrap())
        .build()
        .unwrap();
    assert_eq!(9999, header.cdr_uid);
}

#[test]
fn session_status_text() {
    assert_eq!(SessionStatus::Success.message(), "Session completed successfully");
    assert_eq!(SessionStatus::RFLoss.message(), "Lost connection during session");
}
