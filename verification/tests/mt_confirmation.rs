use directip::error::Error;
use directip::mt::confirmation::{Confirmation, ConfirmationBuilder, MessageStatus};

#[test]
fn confirmation_write() {
    let confirmation = Confirmation {
        client_msg_id: 9999,
        imei: [0, 1, 2, 3, 4, 5, 6, 7, 8, 9, 10, 11, 12, 13, 14],
        id_reference: 4294967295,
        message_status: MessageStatus::MTMSNOutOfRange,
    };
    let mut msg = vec![];
    let n = confirmation.write(&mut msg);
    // Total size is always 28
    assert_eq!(n.unwrap(), 28);
    assert_eq!(
        msg,
        [
            0x44, 0x00, 0x19, 0x00, 0x00, 0x27, 0x0f, 0x00, 0x01, 0x02, 0x03, 0x04, 0x05, 0x06,
            0x07, 0x08, 0x09, 0x0a, 0x0b, 0x0c, 0x0d, 0x0e, 0xff, 0xff, 0xff, 0xff, 0xff, 0xf5
        ]
    );
}

#[test]
fn roundtrip_write_n_read() {
    let confirmation = Confirmation {
        client_msg_id: 9999,
        imei: [0, 1, 2, 3, 4, 5, 6, 7, 8, 9, 10, 11, 12, 13, 14],
        id_reference: 4294967295,
        message_status: MessageStatus::SuccessfulQueueOrder(42),
    };

    assert_eq!(confirmation, Confirmation::from_reader(confirmation.to_vec().as_slice()).unwrap());
}

#[test]
fn confirmation_build_missing_required() {
    let confirmation = ConfirmationBuilder::default().build();
    assert!(matches!(confirmation, Err(Error::UninitializedField(_))))
}

#[test]
fn confirmation_build() {
    let confirmation = ConfirmationBuilder::default()
        .client_msg_id(9999)
        .imei([0, 1, 2, 3, 4, 5, 6, 7, 8, 9, 0, 1, 2, 3, 4])
        .id_reference(0)
        .message_status(MessageStatus::SuccessfulQueueOrder(7))
        .build()
        .unwrap();

    assert_eq!(0x44, confirmation.identifier());
    assert_eq!(&MessageStatus::SuccessfulQueueOrder(7), confirmation.message_status());
}

#[test]
/// The decoder accepts exactly the codes -12..=50 for a message status.
fn message_status_totality() {
    for code in i16::MIN..=i16::MAX {
        let r = MessageStatus::decode(code);
        if (-12..=50).contains(&code) {
            assert!(r.is_ok());
        } else {
            assert_eq!(r, Err(Error::InvalidMessageStatus(code)));
        }
    }
}

#[test]
fn message_status_negative_codes() {
    assert_eq!(MessageStatus::decode(-1), Ok(MessageStatus::InvalidIMEI));
    assert_eq!(MessageStatus::decode(-2), Ok(MessageStatus::UnknownIMEI));
    assert_eq!(MessageStatus::decode(-3), Ok(MessageStatus::PayloadOversized));
    assert_eq!(MessageStatus::decode(-4), Ok(MessageStatus::PayloadMissing));
    assert_eq!(MessageStatus::decode(-5), Ok(MessageStatus::MTQueueFull));
    assert_eq!(MessageStatus::decode(-6), Ok(MessageStatus::MTResourcesUnavailable));
    assert_eq!(MessageStatus::decode(-7), Ok(MessageStatus::ProtocolViolation));
    assert_eq!(MessageStatus::decode(-8), Ok(MessageStatus::RingAlertsDisabled));
    assert_eq!(MessageStatus::decode(-9), Ok(MessageStatus::SSDNotAttached));
    assert_eq!(MessageStatus::decode(-10), Ok(MessageStatus::SourceAddressRejected));
    assert_eq!(MessageStatus::decode(-11), Ok(MessageStatus::MTMSNOutOfRange));
    assert_eq!(MessageStatus::decode(-12), Ok(MessageStatus::CertificateRejected));
    assert_eq!(MessageStatus::decode(50), Ok(MessageStatus::SuccessfulQueueOrder(50)));
}

#[test]
fn message_status_text() {
    assert_eq!(
        MessageStatus::SuccessfulQueueOrder(3).message(),
        "Success, queued for transmission"
    );
    assert_eq!(MessageStatus::MTMSNOutOfRange.message(), "Failed transmission, MTMSN out of range");
    assert!(MessageStatus::SuccessfulQueueOrder(3).is_successful());
    assert!(!MessageStatus::MTQueueFull.is_successful());
}

#[test]
fn confirmation_invalid_status() {
    // Same bytes as a valid confirmation, but a status of 51.
    let mut buf = Confirmation {
        client_msg_id: 1,
        imei: [0; 15],
        id_reference: 0,
        message_status: MessageStatus::SuccessfulQueueOrder(0),
    }
    .to_vec();
    buf[26] = 0x00;
    buf[27] = 0x33;
    assert_eq!(
        Confirmation::from_reader(buf.as_slice()),
        Err(Error::InvalidMessageStatus(51))
    );
}
