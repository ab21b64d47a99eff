use directip::error::Error;
use directip::mt::header::{DispositionFlags, Header, HeaderBuilder};

#[test]
fn header_write() {
    let header = Header {
        client_msg_id: 9999,
        imei: [0, 1, 2, 3, 4, 5, 6, 7, 8, 9, 10, 11, 12, 13, 14],
        disposition_flags: DispositionFlags {
            flush_queue: true,
            send_ring_alert: true,
            update_location: true,
            high_priority: true,
            assign_mtmsn: true,
        },
    };
    let mut msg = vec![];
    let n = header.write(&mut msg);
    // Total size is always 24
    assert_eq!(n.unwrap(), 24);
    assert_eq!(
        msg,
        [
            0x41, 0x00, 0x15, 0x00, 0x00, 0x27, 0x0f, 0x00, 0x01, 0x02, 0x03, 0x04, 0x05, 0x06,
            0x07, 0x08, 0x09, 0x0a, 0x0b, 0x0c, 0x0d, 0x0e, 0x00, 0x3b
        ]
    );
}

#[test]
fn header_to_vec() {
    let header = Header {
        client_msg_id: 9999,
        imei: [0, 1, 2, 3, 4, 5, 6, 7, 8, 9, 10, 11, 12, 13, 14],
        disposition_flags: DispositionFlags {
            flush_queue: true,
            send_ring_alert: true,
            update_location: true,
            high_priority: true,
            assign_mtmsn: true,
        },
    };
    let output = header.to_vec();

    assert_eq!(
        output,
        [
            0x41, 0x00, 0x15, 0x00, 0x00, 0x27, 0x0f, 0x00, 0x01, 0x02, 0x03, 0x04, 0x05, 0x06,
            0x07, 0x08, 0x09, 0x0a, 0x0b, 0x0c, 0x0d, 0x0e, 0x00, 0x3b
        ]
    );
}

#[test]
fn roundtrip_to_vec_n_read() {
    let header = Header {
        client_msg_id: 9999,
        imei: [0, 1, 2, 3, 4, 5, 6, 7, 8, 9, 10, 11, 12, 13, 14],
        disposition_flags: DispositionFlags {
            flush_queue: true,
            send_ring_alert: true,
            update_location: true,
            high_priority: true,
            assign_mtmsn: true,
        },
    };
    assert_eq!(header, Header::from_reader(header.to_vec().as_slice()).unwrap());
}

#[test]
fn header_build_missing_required() {
    let header = HeaderBuilder::default().build();
    match header {
        Err(Error::UninitializedField(_)) => (),
        _ => panic!(),
    }
}

#[test]
fn header_build() {
    let header = HeaderBuilder::default()
        .client_msg_id(9999)
        .imei([0, 1, 2, 3, 4, 5, 6, 7, 8, 9, 0, 1, 2, 3, 4])
        .build()
        .unwrap();
    assert_eq!(9999, header.client_msg_id());
}

#[test]
fn header_read_trailing_bytes() {
    // Exactly 24 bytes are consumed; trailing bytes do not disturb the parse.
    let mut buf = vec![
        0x41, 0x00, 0x15, 0x00, 0x00, 0x27, 0x0f, 0x00, 0x01, 0x02, 0x03, 0x04, 0x05, 0x06, 0x07,
        0x08, 0x09, 0x0a, 0x0b, 0x0c, 0x0d, 0x0e, 0x00, 0x3b,
    ];
    buf.extend_from_slice(&[0xde, 0xad, 0xbe, 0xef]);
    let header = Header::from_reader(buf.as_slice()).unwrap();
    assert_eq!(header.client_msg_id(), 9999);
    assert_eq!(header.to_vec(), &buf[..24]);
}

#[test]
fn header_wrong_identifier() {
    let buf = [0x42, 0x00, 0x15, 0x00];
    assert_eq!(Header::from_reader(&buf), Err(Error::WrongIEType(0x41, 0x42)));
}

#[test]
fn header_wrong_length() {
    let buf = [0x41, 0x00, 0x16, 0x00];
    assert_eq!(Header::from_reader(&buf), Err(Error::InvalidLength(21, 22)));
}
