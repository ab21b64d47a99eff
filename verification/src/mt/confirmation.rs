//! Mobile Terminated confirmation element.
//!
//! Identifier `0x44`, fixed body of 25 bytes. The Gateway returns one of
//! these for every MT submission: the client's message id, the target IMEI,
//! the Gateway-assigned id reference, and a signed status code.

use vstd::prelude::*;

use crate::bytes::{
    be2, be2v, be4, be4v, i16_of_wire, i16_to_u16, put_bytes, put_u16, put_u32, put_u8, read_arr15,
    read_u16, read_u32, u16_to_i16, wire_of_i16,
};
use crate::error::Error;

verus! {

/// Status of an MT message, reported by the Gateway in a confirmation.
///
/// The wire form is a big-endian `i16`: `0..=50` is the order of the message
/// in the modem's queue, negative codes are failure reasons, and every other
/// value is invalid.
#[derive(Clone, Copy, Debug, PartialEq, Eq)]
pub enum MessageStatus {
    /// Successful; the payload is the order of the message in the MT queue,
    /// starting at 0 with a current maximum of 50.
    SuccessfulQueueOrder(u8),
    /// Invalid IMEI: too few characters, non-numeric characters.
    InvalidIMEI,
    /// Unknown IMEI: not provisioned on the Gateway.
    UnknownIMEI,
    /// Payload size exceeded the maximum allowed.
    PayloadOversized,
    /// Payload expected, but none received.
    PayloadMissing,
    /// MT message queue full (maximum of 50).
    MTQueueFull,
    /// MT resources unavailable.
    MTResourcesUnavailable,
    /// Violation of the MT Direct-IP protocol.
    ProtocolViolation,
    /// Ring alerts to the given modem are disabled.
    RingAlertsDisabled,
    /// The given modem is not attached (not set to receive ring alerts).
    SSDNotAttached,
    /// Source address rejected by the MT filter.
    SourceAddressRejected,
    /// MTMSN value out of range (valid range is 1 to 65535).
    MTMSNOutOfRange,
    /// Client SSL/TLS certificate rejected by the MT filter.
    CertificateRejected,
}

impl MessageStatus {
    /// A queue order never exceeds 50.
    pub open spec fn wf(self) -> bool {
        match self {
            MessageStatus::SuccessfulQueueOrder(n) => n <= 50,
            _ => true,
        }
    }

    /// The signed wire code of this status.
    pub open spec fn spec_code(self) -> i16 {
        match self {
            MessageStatus::SuccessfulQueueOrder(n) => n as i16,
            MessageStatus::InvalidIMEI => -1 as i16,
            MessageStatus::UnknownIMEI => -2 as i16,
            MessageStatus::PayloadOversized => -3 as i16,
            MessageStatus::PayloadMissing => -4 as i16,
            MessageStatus::MTQueueFull => -5 as i16,
            MessageStatus::MTResourcesUnavailable => -6 as i16,
            MessageStatus::ProtocolViolation => -7 as i16,
            MessageStatus::RingAlertsDisabled => -8 as i16,
            MessageStatus::SSDNotAttached => -9 as i16,
            MessageStatus::SourceAddressRejected => -10 as i16,
            MessageStatus::MTMSNOutOfRange => -11 as i16,
            MessageStatus::CertificateRejected => -12 as i16,
        }
    }

    /// Whether a signed wire code denotes a status: exactly `-12..=50`.
    pub open spec fn code_valid(status: i16) -> bool {
        -12 <= status <= 50
    }

    /// The status denoted by a valid wire code.
    pub open spec fn spec_decode(status: i16) -> MessageStatus {
        if status >= 0 {
            MessageStatus::SuccessfulQueueOrder(status as u8)
        } else if status == -1 {
            MessageStatus::InvalidIMEI
        } else if status == -2 {
            MessageStatus::UnknownIMEI
        } else if status == -3 {
            MessageStatus::PayloadOversized
        } else if status == -4 {
            MessageStatus::PayloadMissing
        } else if status == -5 {
            MessageStatus::MTQueueFull
        } else if status == -6 {
            MessageStatus::MTResourcesUnavailable
        } else if status == -7 {
            MessageStatus::ProtocolViolation
        } else if status == -8 {
            MessageStatus::RingAlertsDisabled
        } else if status == -9 {
            MessageStatus::SSDNotAttached
        } else if status == -10 {
            MessageStatus::SourceAddressRejected
        } else if status == -11 {
            MessageStatus::MTMSNOutOfRange
        } else {
            MessageStatus::CertificateRejected
        }
    }

    /// Decode a signed wire code: accepts exactly `-12..=50`.
    pub fn decode(status: i16) -> (r: Result<MessageStatus, Error>)
        ensures
            Self::code_valid(status) ==> r == Ok::<MessageStatus, Error>(
                Self::spec_decode(status),
            ),
            !Self::code_valid(status) ==> r == Err::<MessageStatus, Error>(
                Error::InvalidMessageStatus(status),
            ),
    {
        if 0 <= status && status <= 50 {
            return Ok(MessageStatus::SuccessfulQueueOrder(status as u8));
        }
        match status {
            -1 => Ok(MessageStatus::InvalidIMEI),
            -2 => Ok(MessageStatus::UnknownIMEI),
            -3 => Ok(MessageStatus::PayloadOversized),
            -4 => Ok(MessageStatus::PayloadMissing),
            -5 => Ok(MessageStatus::MTQueueFull),
            -6 => Ok(MessageStatus::MTResourcesUnavailable),
            -7 => Ok(MessageStatus::ProtocolViolation),
            -8 => Ok(MessageStatus::RingAlertsDisabled),
            -9 => Ok(MessageStatus::SSDNotAttached),
            -10 => Ok(MessageStatus::SourceAddressRejected),
            -11 => Ok(MessageStatus::MTMSNOutOfRange),
            -12 => Ok(MessageStatus::CertificateRejected),
            s => Err(Error::InvalidMessageStatus(s)),
        }
    }

    /// Parse a status from the first two bytes of `buf`, read as a
    /// big-endian `i16`.
    pub fn from_reader(buf: &[u8]) -> (r: Result<MessageStatus, Error>)
        ensures
            buf@.len() < 2 ==> r == Err::<MessageStatus, Error>(Error::IO),
            buf@.len() >= 2 && Self::code_valid(i16_of_wire(be2v(buf@[0], buf@[1]))) ==> r
                == Ok::<MessageStatus, Error>(Self::spec_decode(i16_of_wire(be2v(buf@[0], buf@[1])))),
            buf@.len() >= 2 && !Self::code_valid(i16_of_wire(be2v(buf@[0], buf@[1]))) ==> r
                == Err::<MessageStatus, Error>(
                Error::InvalidMessageStatus(i16_of_wire(be2v(buf@[0], buf@[1]))),
            ),
    {
        if buf.len() < 2 {
            return Err(Error::IO);
        }
        let code = read_u16(buf, 0);
        MessageStatus::decode(u16_to_i16(code))
    }

    /// Append the two-byte wire image of this status.
    pub fn write(&self, wtr: &mut Vec<u8>) -> (r: Result<usize, Error>)
        ensures
            final(wtr)@ == old(wtr)@ + be2(wire_of_i16(self.spec_code())),
            r == Ok::<usize, Error>(2),
    {
        let code: i16 = match self {
            MessageStatus::SuccessfulQueueOrder(n) => *n as i16,
            MessageStatus::InvalidIMEI => -1,
            MessageStatus::UnknownIMEI => -2,
            MessageStatus::PayloadOversized => -3,
            MessageStatus::PayloadMissing => -4,
            MessageStatus::MTQueueFull => -5,
            MessageStatus::MTResourcesUnavailable => -6,
            MessageStatus::ProtocolViolation => -7,
            MessageStatus::RingAlertsDisabled => -8,
            MessageStatus::SSDNotAttached => -9,
            MessageStatus::SourceAddressRejected => -10,
            MessageStatus::MTMSNOutOfRange => -11,
            MessageStatus::CertificateRejected => -12,
        };
        put_u16(wtr, i16_to_u16(code));
        Ok(2)
    }

    /// True if message delivery was confirmed.
    pub fn is_successful(&self) -> (r: bool)
        ensures
            r == (self is SuccessfulQueueOrder),
    {
        matches!(self, MessageStatus::SuccessfulQueueOrder(_))
    }

    /// The one-line description of each status.
    pub open spec fn spec_message(self) -> Seq<char> {
        match self {
            MessageStatus::SuccessfulQueueOrder(_) => "Success, queued for transmission"@,
            MessageStatus::InvalidIMEI => "Failed transmission, invalid IMEI"@,
            MessageStatus::UnknownIMEI => "Failed transmission, unknown IMEI"@,
            MessageStatus::PayloadOversized => "Failed transmission, payload oversized"@,
            MessageStatus::PayloadMissing => "Failed transmission, missing payload"@,
            MessageStatus::MTQueueFull => "Failed transmission, MT queue is full"@,
            MessageStatus::MTResourcesUnavailable => "Failed transmission, MT resources unavailable"@,
            MessageStatus::ProtocolViolation => "Failed transmission, protocol violation"@,
            MessageStatus::RingAlertsDisabled => "Failed transmission, Ring Alerts disabled"@,
            MessageStatus::SSDNotAttached => "Failed transmission, SSD not attached"@,
            MessageStatus::SourceAddressRejected => "Failed transmission, source address rejected"@,
            MessageStatus::MTMSNOutOfRange => "Failed transmission, MTMSN out of range"@,
            MessageStatus::CertificateRejected => "Failed transmission, certificate was rejected"@,
        }
    }

    /// A one-line description of the status.
    pub fn message(&self) -> (r: String)
        ensures
            r@ == self.spec_message(),
    {
        match self {
            MessageStatus::SuccessfulQueueOrder(_) => String::from_str(
                "Success, queued for transmission",
            ),
            MessageStatus::InvalidIMEI => String::from_str("Failed transmission, invalid IMEI"),
            MessageStatus::UnknownIMEI => String::from_str("Failed transmission, unknown IMEI"),
            MessageStatus::PayloadOversized => String::from_str(
                "Failed transmission, payload oversized",
            ),
            MessageStatus::PayloadMissing => String::from_str(
                "Failed transmission, missing payload",
            ),
            MessageStatus::MTQueueFull => String::from_str("Failed transmission, MT queue is full"),
            MessageStatus::MTResourcesUnavailable => String::from_str(
                "Failed transmission, MT resources unavailable",
            ),
            MessageStatus::ProtocolViolation => String::from_str(
                "Failed transmission, protocol violation",
            ),
            MessageStatus::RingAlertsDisabled => String::from_str(
                "Failed transmission, Ring Alerts disabled",
            ),
            MessageStatus::SSDNotAttached => String::from_str(
                "Failed transmission, SSD not attached",
            ),
            MessageStatus::SourceAddressRejected => String::from_str(
                "Failed transmission, source address rejected",
            ),
            MessageStatus::MTMSNOutOfRange => String::from_str(
                "Failed transmission, MTMSN out of range",
            ),
            MessageStatus::CertificateRejected => String::from_str(
                "Failed transmission, certificate was rejected",
            ),
        }
    }
}

/// Decoding the wire code of a well-formed status yields the status again.
pub proof fn lemma_message_status_roundtrip(m: MessageStatus)
    requires
        m.wf(),
    ensures
        MessageStatus::code_valid(m.spec_code()),
        MessageStatus::spec_decode(m.spec_code()) == m,
{
}

/// Re-encoding a decoded status yields the wire code again, for every valid
/// code.
pub proof fn lemma_message_status_reencode(status: i16)
    requires
        MessageStatus::code_valid(status),
    ensures
        MessageStatus::spec_decode(status).wf(),
        MessageStatus::spec_decode(status).spec_code() == status,
{
}

/// Mobile Terminated confirmation.
///
/// Identifier `0x44`, body length 25, total wire size 28 bytes.
#[derive(Clone, Copy, Debug, PartialEq, Eq)]
pub struct Confirmation {
    /// The id the client chose for the message (not the MTMSN).
    pub client_msg_id: u32,
    /// 15 ASCII numeric characters.
    pub imei: [u8; 15],
    /// Gateway-assigned reference; zero when processing failed.
    pub id_reference: u32,
    /// Order of the message in the modem's queue, or the failure reason.
    pub message_status: MessageStatus,
}

impl Confirmation {
    /// A confirmation is well formed when its status is.
    pub open spec fn wf(self) -> bool {
        self.message_status.wf()
    }

    /// The exact byte string this element puts on the wire.
    pub open spec fn wire(self) -> Seq<u8> {
        seq![0x44u8] + be2(25) + be4(self.client_msg_id) + self.imei@ + be4(self.id_reference)
            + be2(wire_of_i16(self.message_status.spec_code()))
    }

    /// Whether `b` begins with a well-formed MT confirmation element.
    pub open spec fn parses(b: Seq<u8>) -> bool {
        b.len() >= 28 && b[0] == 0x44 && be2v(b[1], b[2]) == 25 && MessageStatus::code_valid(
            i16_of_wire(be2v(b[26], b[27])),
        )
    }

    /// The error reported when `b` does not begin with a well-formed MT
    /// confirmation element.
    pub open spec fn parse_err(b: Seq<u8>) -> Error {
        if b.len() < 1 {
            Error::IO
        } else if b[0] != 0x44 {
            Error::WrongIEType(0x44, b[0])
        } else if b.len() < 3 {
            Error::IO
        } else if be2v(b[1], b[2]) != 25 {
            Error::InvalidLength(25, be2v(b[1], b[2]))
        } else if b.len() < 28 {
            Error::IO
        } else {
            Error::InvalidMessageStatus(i16_of_wire(be2v(b[26], b[27])))
        }
    }

    /// MT confirmation identifier.
    pub fn identifier(&self) -> (r: u8)
        ensures
            r == 0x44,
    {
        0x44
    }

    /// Body length: fixed for the confirmation.
    pub fn len(&self) -> (r: u16)
        ensures
            r == 25,
    {
        25
    }

    /// Total on-wire size: identifier, length field, body.
    pub fn total_size(&self) -> (r: usize)
        ensures
            r == 28,
    {
        28
    }

    /// Append the wire image of this element: identifier, length, body.
    pub fn write(&self, wtr: &mut Vec<u8>) -> (r: Result<usize, Error>)
        ensures
            final(wtr)@ == old(wtr)@ + self.wire(),
            r == Ok::<usize, Error>(28),
    {
        let ghost pre = wtr@;
        put_u8(wtr, 0x44);
        put_u16(wtr, 25);
        put_u32(wtr, self.client_msg_id);
        put_bytes(wtr, self.imei.as_slice());
        put_u32(wtr, self.id_reference);
        let _ = self.message_status.write(wtr);
        assert(wtr@ =~= pre + self.wire());
        Ok(28)
    }

    /// The wire image of this element as a fresh vector.
    pub fn to_vec(&self) -> (r: Vec<u8>)
        ensures
            r@ == self.wire(),
    {
        let mut buffer: Vec<u8> = Vec::new();
        let _ = self.write(&mut buffer);
        buffer
    }

    /// Whether the confirmation `c` is what decoding the start of `b`
    /// yields.
    pub open spec fn decoded(b: Seq<u8>, c: Confirmation) -> bool {
        &&& c.client_msg_id == be4v(b[3], b[4], b[5], b[6])
        &&& c.imei@ == b.subrange(7, 22)
        &&& c.id_reference == be4v(b[22], b[23], b[24], b[25])
        &&& c.message_status == MessageStatus::spec_decode(i16_of_wire(be2v(b[26], b[27])))
    }

    /// Parse an MT confirmation from the start of `buf`. Trailing bytes are
    /// ignored; exactly 28 bytes are read on success.
    pub fn from_reader(buf: &[u8]) -> (r: Result<Confirmation, Error>)
        ensures
            Self::parses(buf@) ==> r is Ok && Self::decoded(buf@, r->Ok_0) && r->Ok_0.wf(),
            !Self::parses(buf@) ==> r == Err::<Confirmation, Error>(Self::parse_err(buf@)),
    {
        if buf.len() < 1 {
            return Err(Error::IO);
        }
        if buf[0] != 0x44 {
            return Err(Error::WrongIEType(0x44, buf[0]));
        }
        if buf.len() < 3 {
            return Err(Error::IO);
        }
        let len = read_u16(buf, 1);
        if len != 25 {
            return Err(Error::InvalidLength(25, len));
        }
        if buf.len() < 28 {
            return Err(Error::IO);
        }
        let client_msg_id = read_u32(buf, 3);
        let imei = read_arr15(buf, 7);
        let id_reference = read_u32(buf, 22);
        let message_status = match MessageStatus::decode(u16_to_i16(read_u16(buf, 26))) {
            Ok(s) => s,
            Err(e) => {
                return Err(e);
            },
        };
        Ok(Confirmation { client_msg_id, imei, id_reference, message_status })
    }

    /// The `message_status` field.
    pub fn message_status(&self) -> (r: &MessageStatus)
        ensures
            r == self.message_status,
    {
        &self.message_status
    }

    /// The `imei` field.
    pub fn imei(&self) -> (r: [u8; 15])
        ensures
            r == self.imei,
    {
        self.imei
    }

    /// A builder with every field unset.
    pub fn builder() -> (r: ConfirmationBuilder)
        ensures
            r == ConfirmationBuilder::spec_default(),
    {
        ConfirmationBuilder::default()
    }
}

/// Builder for [`Confirmation`]: every field is required.
#[derive(Clone, Debug)]
pub struct ConfirmationBuilder {
    pub client_msg_id: Option<u32>,
    pub imei: Option<[u8; 15]>,
    pub id_reference: Option<u32>,
    pub message_status: Option<MessageStatus>,
}

impl ConfirmationBuilder {
    /// A builder with every field unset.
    pub open spec fn spec_default() -> ConfirmationBuilder {
        ConfirmationBuilder {
            client_msg_id: None,
            imei: None,
            id_reference: None,
            message_status: None,
        }
    }

    /// A builder with every field unset.
    pub fn default() -> (r: ConfirmationBuilder)
        ensures
            r == Self::spec_default(),
    {
        ConfirmationBuilder {
            client_msg_id: None,
            imei: None,
            id_reference: None,
            message_status: None,
        }
    }

    /// Set the client message id.
    pub fn client_msg_id(self, client_msg_id: u32) -> (r: ConfirmationBuilder)
        ensures
            r == (ConfirmationBuilder { client_msg_id: Some(client_msg_id), ..self }),
    {
        ConfirmationBuilder { client_msg_id: Some(client_msg_id), ..self }
    }

    /// Set the IMEI.
    pub fn imei(self, imei: [u8; 15]) -> (r: ConfirmationBuilder)
        ensures
            r == (ConfirmationBuilder { imei: Some(imei), ..self }),
    {
        ConfirmationBuilder { imei: Some(imei), ..self }
    }

    /// Set the id reference.
    pub fn id_reference(self, id_reference: u32) -> (r: ConfirmationBuilder)
        ensures
            r == (ConfirmationBuilder { id_reference: Some(id_reference), ..self }),
    {
        ConfirmationBuilder { id_reference: Some(id_reference), ..self }
    }

    /// Set the message status.
    pub fn message_status(self, message_status: MessageStatus) -> (r: ConfirmationBuilder)
        ensures
            r == (ConfirmationBuilder { message_status: Some(message_status), ..self }),
    {
        ConfirmationBuilder { message_status: Some(message_status), ..self }
    }

    /// Build the confirmation. Fails on the first unset field.
    pub fn build(self) -> (r: Result<Confirmation, Error>)
        ensures
            self.client_msg_id is None ==> r == Err::<Confirmation, Error>(
                Error::UninitializedField("client_msg_id"),
            ),
            self.client_msg_id is Some && self.imei is None ==> r == Err::<Confirmation, Error>(
                Error::UninitializedField("imei"),
            ),
            self.client_msg_id is Some && self.imei is Some && self.id_reference is None ==> r
                == Err::<Confirmation, Error>(Error::UninitializedField("id_reference")),
            self.client_msg_id is Some && self.imei is Some && self.id_reference is Some
                && self.message_status is None ==> r == Err::<Confirmation, Error>(
                Error::UninitializedField("message_status"),
            ),
            self.client_msg_id is Some && self.imei is Some && self.id_reference is Some
                && self.message_status is Some ==> r == Ok::<Confirmation, Error>(
                Confirmation {
                    client_msg_id: self.client_msg_id->0,
                    imei: self.imei->0,
                    id_reference: self.id_reference->0,
                    message_status: self.message_status->0,
                },
            ),
    {
        let client_msg_id = match self.client_msg_id {
            Some(v) => v,
            None => {
                return Err(Error::UninitializedField("client_msg_id"));
            },
        };
        let imei = match self.imei {
            Some(v) => v,
            None => {
                return Err(Error::UninitializedField("imei"));
            },
        };
        let id_reference = match self.id_reference {
            Some(v) => v,
            None => {
                return Err(Error::UninitializedField("id_reference"));
            },
        };
        let message_status = match self.message_status {
            Some(v) => v,
            None => {
                return Err(Error::UninitializedField("message_status"));
            },
        };
        Ok(Confirmation { client_msg_id, imei, id_reference, message_status })
    }
}

/// Round trip of the MT confirmation: its wire image parses, and the fields
/// read back from the wire image are the fields it was built from.
pub proof fn lemma_mt_confirmation_roundtrip(c: Confirmation)
    requires
        c.wf(),
    ensures
        Confirmation::parses(c.wire()),
        c.wire().len() == 28,
        Confirmation::decoded(c.wire(), c),
{
    crate::bytes::lemma_be2v_of_be2(25);
    crate::bytes::lemma_be4v_of_be4(c.client_msg_id);
    crate::bytes::lemma_be4v_of_be4(c.id_reference);
    crate::bytes::lemma_be2v_of_be2(wire_of_i16(c.message_status.spec_code()));
    crate::bytes::lemma_i16_wire_roundtrip(c.message_status.spec_code());
    lemma_message_status_roundtrip(c.message_status);
    assert(c.wire().subrange(7, 22) =~= c.imei@);
}

/// A decoded MT confirmation re-encodes to the very bytes it was decoded
/// from.
pub proof fn lemma_mt_confirmation_reencode(b: Seq<u8>, c: Confirmation)
    requires
        Confirmation::parses(b),
        Confirmation::decoded(b, c),
    ensures
        c.wire() == b.subrange(0, 28),
{
    crate::bytes::lemma_be2_of_be2v(b[1], b[2]);
    crate::bytes::lemma_be4_of_be4v(b[3], b[4], b[5], b[6]);
    crate::bytes::lemma_be4_of_be4v(b[22], b[23], b[24], b[25]);
    crate::bytes::lemma_be2_of_be2v(b[26], b[27]);
    crate::bytes::lemma_wire_i16_roundtrip(be2v(b[26], b[27]));
    lemma_message_status_reencode(i16_of_wire(be2v(b[26], b[27])));
    assert(c.wire() =~= b.subrange(0, 28));
}

} // verus!
