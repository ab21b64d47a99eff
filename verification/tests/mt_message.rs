use directip::mt::header::{DispositionFlags, Header};
use directip::mt::payload::Payload;
use directip::mt::{InformationElementType, MTMessage, MTMessageBuilder};

#[test]
fn to_vec() {}

#[test]
// Could improve this test with some checks on the output of from_reader()
fn confirmation_from_reader() {
    let buffer = [
        0x01, 0x00, 0x1c, 0x44, 0x00, 0x19, 0x00, 0x00, 0x04, 0x57, 0x00, 0x01, 0x02, 0x03, 0x04,
        0x05, 0x06, 0x07, 0x08, 0x09, 0x0a, 0x0b, 0x0c, 0x0d, 0x0e, 0x00, 0x00, 0x00, 0x00, 0x00,
        0x2a,
    ];

    MTMessage::from_reader(&buffer[..]).unwrap();
}

#[test]
fn mod_read() {
    let msg = [
        0x41, 0x00, 0x15, 0x00, 0x00, 0x27, 0x0f, 0x00, 0x01, 0x02, 0x03, 0x04, 0x05, 0x06, 0x07,
        0x08, 0x09, 0x0a, 0x0b, 0x0c, 0x0d, 0x0e, 0x00, 0x3b,
    ]
    .as_slice();
    let _ie = InformationElementType::from_reader(msg).unwrap();
}

#[test]
fn header() {
    let header = Header::builder()
        .client_msg_id(9999)
        .imei([0, 1, 2, 3, 4, 5, 6, 7, 8, 9, 0, 1, 2, 3, 4])
        .build()
        .unwrap();
    let ie = InformationElementType::H(header);
    assert!(ie.identifier() == 0x41);
}

#[test]
fn payload() {
    let payload = Payload::builder().payload("Hey, it's me!".into()).build().unwrap();
    let ie = InformationElementType::P(payload);
    assert!(ie.identifier() == 0x42);
}

#[test]
fn mod_build() {
    let msg = MTMessageBuilder::default()
        .client_msg_id(9999)
        .imei([1, 2, 3, 4, 5, 6, 7, 8, 9, 0, 1, 2, 3, 4, 5])
        .payload(vec![])
        .build()
        .unwrap();
    assert_eq!(msg.imei(), Some([1, 2, 3, 4, 5, 6, 7, 8, 9, 0, 1, 2, 3, 4, 5]));
}

#[test]
fn tmp() {
    let msg = MTMessage::builder()
        .client_msg_id(999)
        .imei([0, 1, 2, 3, 4, 5, 6, 7, 8, 9, 10, 11, 12, 13, 14])
        .payload("Hello".into())
        .build()
        .unwrap()
        .to_vec();

    assert_eq!(msg.len(), 3 + 24 + 3 + 5);
}

#[test]
/// An MT submission encodes as header then payload, with the documented
/// header bytes.
fn build_encodes_header_bytes() {
    let flags = DispositionFlags {
        flush_queue: true,
        send_ring_alert: true,
        update_location: true,
        high_priority: true,
        assign_mtmsn: true,
    };
    let msg = MTMessage::builder()
        .client_msg_id(9999)
        .imei([0, 1, 2, 3, 4, 5, 6, 7, 8, 9, 10, 11, 12, 13, 14])
        .disposition_flags(flags)
        .payload(vec![])
        .build()
        .unwrap();
    let encoded = msg.to_vec();
    // version, total length = 24 + 3
    assert_eq!(&encoded[..3], [0x01, 0x00, 0x1b]);
    // the header information element
    assert_eq!(
        &encoded[3..27],
        [
            0x41, 0x00, 0x15, 0x00, 0x00, 0x27, 0x0f, 0x00, 0x01, 0x02, 0x03, 0x04, 0x05, 0x06,
            0x07, 0x08, 0x09, 0x0a, 0x0b, 0x0c, 0x0d, 0x0e, 0x00, 0x3b
        ]
    );
    // the empty payload information element
    assert_eq!(&encoded[27..], [0x42, 0x00, 0x00]);
}

#[test]
/// Encoding a decoded MT message reproduces the bytes, and the declared
/// length is the sum of the element sizes.
fn roundtrip_message_bytes() {
    let msg = MTMessage::builder()
        .client_msg_id(77)
        .imei([3; 15])
        .payload(vec![1, 2, 3, 4, 5])
        .build()
        .unwrap();
    let encoded = msg.to_vec();
    let total: u16 = u16::from_be_bytes([encoded[1], encoded[2]]);
    assert_eq!(total as usize, encoded.len() - 3);
    assert_eq!(total, 24 + 3 + 5);
    let decoded = MTMessage::from_reader(encoded.as_slice()).unwrap();
    assert_eq!(decoded.to_vec(), encoded);
    assert_eq!(decoded.len(), total);
    assert_eq!(decoded.total_size(), encoded.len());
}

#[test]
fn confirmation_message_text() {
    let buffer = [
        0x01, 0x00, 0x1c, 0x44, 0x00, 0x19, 0x00, 0x00, 0x04, 0x57, 0x00, 0x01, 0x02, 0x03, 0x04,
        0x05, 0x06, 0x07, 0x08, 0x09, 0x0a, 0x0b, 0x0c, 0x0d, 0x0e, 0x00, 0x00, 0x00, 0x00, 0x00,
        0x2a,
    ];
    let msg = MTMessage::from_reader(&buffer[..]).unwrap();
    assert_eq!(msg.confirmation_message(), Some("Success, queued for transmission".to_string()));
    let submission = MTMessage::builder()
        .client_msg_id(1)
        .imei([0; 15])
        .payload(vec![])
        .build()
        .unwrap();
    assert_eq!(submission.confirmation_message(), None);
}
