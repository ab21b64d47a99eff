use directip::error::Error;
use directip::mo::header::SessionStatus;
use directip::mo::{MOMessage, InformationElementType};
use directip::mt::confirmation::MessageStatus;
use directip::mt::MTMessage;
use directip::{sample, Message};

/// The worked MT confirmation envelope: 31 bytes.
const CONFIRMATION_WIRE: [u8; 31] = [
    0x01, 0x00, 0x1c, 0x44, 0x00, 0x19, 0x00, 0x00, 0x27, 0x0f, 0x00, 0x01, 0x02, 0x03, 0x04,
    0x05, 0x06, 0x07, 0x08, 0x09, 0x0a, 0x0b, 0x0c, 0x0d, 0x0e, 0xff, 0xff, 0xff, 0xff, 0xff,
    0xf5,
];

fn mo_header_wire() -> Vec<u8> {
    vec![
        0x01, 0x00, 0x1f, 0x01, 0x00, 0x1c, 0x00, 0x00, 0x27, 0x0f, 0x00, 0x01, 0x02, 0x03, 0x04,
        0x05, 0x06, 0x07, 0x08, 0x09, 0x0a, 0x0b, 0x0c, 0x0d, 0x0e, 0x00, 0x03, 0xe7, 0x00, 0x6f,
        0x38, 0xce, 0x2c, 0x9c,
    ]
}

#[test]
/// Decoding the worked confirmation envelope yields an MT message carrying
/// one confirmation.
fn mt_confirmation_decode() {
    let msg = Message::from_reader(&CONFIRMATION_WIRE[..]).unwrap();
    assert_eq!(msg.message_type(), "MT");
    assert_eq!(msg.imei(), Some([0, 1, 2, 3, 4, 5, 6, 7, 8, 9, 10, 11, 12, 13, 14]));
    match &msg {
        Message::MT(m) => {
            let c = m.confirmation().unwrap();
            assert_eq!(c.id_reference, 0xFFFFFFFF);
            assert_eq!(c.message_status(), &MessageStatus::MTMSNOutOfRange);
        }
        Message::MO(_) => panic!("expected an MT message"),
    }
    assert_eq!(msg.to_vec(), CONFIRMATION_WIRE);
}

#[test]
/// A buffer whose first element identifier is an MT header decodes as MT; an
/// MO header there makes it decode as MO.
fn direction_dispatch() {
    let mt = MTMessage::builder()
        .client_msg_id(12)
        .imei([7; 15])
        .payload(b"ping".to_vec())
        .build()
        .unwrap()
        .to_vec();
    assert_eq!(mt[3], 0x41);
    let msg = Message::from_reader(mt.as_slice()).unwrap();
    assert_eq!(msg.message_type(), "MT");

    let mo = mo_header_wire();
    assert_eq!(mo[3], 0x01);
    let msg = Message::from_reader(mo.as_slice()).unwrap();
    assert_eq!(msg.message_type(), "MO");
    assert_eq!(msg.imei(), Some([0, 1, 2, 3, 4, 5, 6, 7, 8, 9, 10, 11, 12, 13, 14]));
    assert_eq!(msg.to_vec(), mo);
}

#[test]
/// An MO header whose status byte is 11 fails with the invalid status, and
/// no message is returned.
fn mo_invalid_session_status() {
    let mut wire = mo_header_wire();
    wire[25] = 0x0b;
    let r = Message::from_reader(wire.as_slice());
    assert_eq!(r.unwrap_err(), Error::InvalidSessionStatus(11));
}

#[test]
/// An MO envelope carrying header, payload and location round-trips.
fn mo_full_roundtrip() {
    let mut wire = mo_header_wire();
    // header + payload(2) + location: 28 + 3 + 5 + 14 bytes of elements
    wire[2] = 31 + 5 + 14;
    wire.extend_from_slice(&[0x02, 0x00, 0x02, 0xaa, 0xbb]);
    wire.extend_from_slice(&[
        0x03, 0x00, 0x0b, 0x01, 0x21, 0x28, 0x47, 0x76, 0x7f, 0x06, 0x00, 0x01, 0x00, 0x00,
    ]);
    let msg = MOMessage::from_reader(wire.as_slice()).unwrap();
    assert_eq!(msg.to_vec(), wire);
    assert_eq!(msg.len() as usize, wire.len() - 3);
    let h = msg.header().unwrap();
    assert_eq!(h.session_status, SessionStatus::Success);
    assert_eq!(h.momsn, 999);
    assert_eq!(h.mtmsn, 111);
}

#[test]
/// A duplicate MO payload is rejected: after a payload only a location may
/// follow.
fn mo_duplicate_payload_rejected() {
    let mut wire = mo_header_wire();
    wire[2] = 31 + 5 + 5;
    wire.extend_from_slice(&[0x02, 0x00, 0x02, 0xaa, 0xbb]);
    wire.extend_from_slice(&[0x02, 0x00, 0x02, 0xcc, 0xdd]);
    let r = MOMessage::from_reader(wire.as_slice());
    assert_eq!(r.unwrap_err(), Error::WrongIEType(0x03, 0x02));
}

#[test]
/// An element that would run past the declared envelope length is a length
/// mismatch.
fn length_mismatch_rejected() {
    let mut wire = mo_header_wire();
    // Declare fewer element bytes than the header itself takes.
    wire[2] = 30;
    let r = MOMessage::from_reader(wire.as_slice());
    assert_eq!(r.unwrap_err(), Error::LengthMismatch);
}

#[test]
/// The envelope version byte must be 1.
fn bad_protocol_version() {
    let mut wire = mo_header_wire();
    wire[0] = 2;
    assert_eq!(Message::from_reader(wire.as_slice()).unwrap_err(), Error::ProtocolVersion(2));
}

#[test]
/// A short buffer is an IO error.
fn short_read() {
    let wire = mo_header_wire();
    assert_eq!(Message::from_reader(&wire[..10]).unwrap_err(), Error::IO);
    assert_eq!(Message::from_reader(&[][..]).unwrap_err(), Error::IO);
}

#[test]
/// The ready-made sample is the worked confirmation message.
fn sample_roundtrip() {
    let msg = sample();
    assert_eq!(msg.message_type(), "MT");
    assert_eq!(msg.to_vec(), CONFIRMATION_WIRE);
}

#[test]
/// Trailing bytes after the declared envelope length are left untouched.
fn trailing_bytes_ignored() {
    let mut wire = CONFIRMATION_WIRE.to_vec();
    wire.extend_from_slice(&[0x99, 0x98, 0x97]);
    let msg = Message::from_reader(wire.as_slice()).unwrap();
    assert_eq!(msg.to_vec(), &wire[..31]);
}

#[test]
/// Information elements of the wrong direction surface as a dispatch error.
fn mixed_direction_rejected() {
    // An MT envelope whose second element is an MO location.
    let mt = MTMessage::builder()
        .client_msg_id(1)
        .imei([0; 15])
        .payload(vec![])
        .build()
        .unwrap();
    let mut wire = mt.to_vec();
    wire[2] = 24 + 14;
    wire.truncate(27);
    wire.extend_from_slice(&[
        0x03, 0x00, 0x0b, 0x01, 0x21, 0x28, 0x47, 0x76, 0x7f, 0x06, 0x00, 0x01, 0x00, 0x00,
    ]);
    let r = MTMessage::from_reader(wire.as_slice());
    assert_eq!(r.unwrap_err(), Error::WrongIEType(0x42, 0x03));
    // Through the direction dispatcher, the failed MO retry is what
    // surfaces.
    let r = Message::from_reader(wire.as_slice());
    assert_eq!(r.unwrap_err(), Error::WrongIEType(0x01, 0x41));
}

#[test]
/// A first element of no known direction is a dispatch error.
fn unknown_first_element() {
    let wire = [0x01, 0x00, 0x1c, 0x05, 0x00, 0x19];
    // The MT attempt fails on the identifier, so the MO error surfaces.
    assert_eq!(Message::from_reader(&wire).unwrap_err(), Error::WrongIEType(0x01, 0x05));
    assert_eq!(MTMessage::from_reader(&wire).unwrap_err(), Error::WrongIEType(0x41, 0x05));
}

#[test]
/// An envelope that declares no elements at all carries no header.
fn empty_envelope_rejected() {
    let wire = [0x01, 0x00, 0x00];
    assert_eq!(Message::from_reader(&wire).unwrap_err(), Error::WrongIEType(0x01, 0x00));
}

#[test]
/// The MO information element reader dispatches on the identifier byte.
fn mo_element_read() {
    let wire = [
        0x03, 0x00, 0x0b, 0x01, 0x21, 0x28, 0x47, 0x76, 0x7f, 0x06, 0x00, 0x01, 0x00, 0x00,
    ];
    let ie = InformationElementType::from_reader(&wire).unwrap();
    assert_eq!(ie.identifier(), 0x03);
    assert_eq!(ie.len(), 11);
    assert_eq!(ie.total_size(), 14);
}
