//! Iridium Short-Burst Data Direct-IP protocol codec.
//!
//! Encodes and decodes the two message families exchanged with the Iridium
//! Gateway: Mobile-Originated (MO) messages forwarded to a customer server,
//! and Mobile-Terminated (MT) messages submitted for delivery to a modem,
//! together with the Gateway's Confirmation reply.
//!
//! Every codec operation works on in-memory byte buffers and carries a
//! contract: encoders state the exact bytes they produce, decoders state on
//! which inputs they succeed, which value they return, and which error they
//! report otherwise. The round-trip laws relating them are proved alongside.

pub mod bytes;
pub mod error;
pub mod mo;
pub mod mt;
pub mod storage;

use vstd::prelude::*;

use crate::error::Error;

verus! {

/// A Direct-IP message of either direction. The direction is not stored on
/// the wire: it is read off the identifier of the first information element
/// after the envelope header.
#[derive(Debug)]
pub enum Message {
    MO(mo::MOMessage),
    MT(mt::MTMessage),
}

impl Message {
    /// The exact byte string this message puts on the wire.
    pub open spec fn wire(self) -> Seq<u8> {
        match self {
            Message::MO(m) => m.wire(),
            Message::MT(m) => m.wire(),
        }
    }

    /// Identify the direction of a message: `"MO"` or `"MT"`.
    pub fn message_type(&self) -> (r: String)
        ensures
            self is MO ==> r@ == "MO"@,
            self is MT ==> r@ == "MT"@,
    {
        match self {
            Message::MO(_) => String::from_str("MO"),
            Message::MT(_) => String::from_str("MT"),
        }
    }

    /// Parse a message from a buffer: first as MT, and, when the first
    /// information element is not one of the MT direction, again as MO.
    /// When both attempts fail, the MT error is surfaced unless the MT
    /// attempt failed on the element identifier, in which case the MO error
    /// is the one reported.
    pub fn from_reader(buf: &[u8]) -> (r: Result<Message, Error>)
        ensures
            mt::mt_parses(buf@) ==> r is Ok && r->Ok_0 is MT && mt::mt_decoded(
                buf@,
                r->Ok_0->MT_0@,
            ),
            !mt::mt_parses(buf@) && !(mt::mt_parse_err(buf@) is WrongIEType) ==> r
                == Err::<Message, Error>(mt::mt_parse_err(buf@)),
            !mt::mt_parses(buf@) && mt::mt_parse_err(buf@) is WrongIEType && mo::mo_parses(buf@)
                ==> r is Ok && r->Ok_0 is MO && mo::mo_decoded(buf@, r->Ok_0->MO_0@),
            !mt::mt_parses(buf@) && mt::mt_parse_err(buf@) is WrongIEType && !mo::mo_parses(buf@)
                ==> r == Err::<Message, Error>(mo::mo_parse_err(buf@)),
    {
        match mt::MTMessage::from_reader(buf) {
            Ok(msg) => Ok(Message::MT(msg)),
            Err(Error::WrongIEType(_, _)) => {
                match mo::MOMessage::from_reader(buf) {
                    Ok(msg) => Ok(Message::MO(msg)),
                    Err(e) => Err(e),
                }
            },
            Err(e) => Err(e),
        }
    }

    /// The IMEI of the message, from whichever header-carrying element is
    /// present.
    pub open spec fn imei_spec(self) -> Option<[u8; 15]> {
        match self {
            Message::MO(m) => match m@[0] {
                mo::InformationElementType::H(h) => Some(h.imei),
                _ => None,
            },
            Message::MT(m) => match m@[0] {
                mt::InformationElementType::H(h) => Some(h.imei),
                mt::InformationElementType::C(c) => Some(c.imei),
                mt::InformationElementType::P(_) => None,
            },
        }
    }

    /// The IMEI of the message, from whichever header-carrying element is
    /// present.
    pub fn imei(&self) -> (r: Option<[u8; 15]>)
        ensures
            r == self.imei_spec(),
    {
        match self {
            Message::MO(m) => m.imei(),
            Message::MT(m) => m.imei(),
        }
    }

    /// The wire image of the message as a fresh vector.
    pub fn to_vec(&self) -> (r: Vec<u8>)
        ensures
            r@ == self.wire(),
    {
        match self {
            Message::MO(m) => m.to_vec(),
            Message::MT(m) => m.to_vec(),
        }
    }
}

/// The direction of a Direct-IP buffer is decided by its first element
/// identifier: a buffer whose first element is an MT header can only decode
/// as MT, and one whose first element is an MO header can only decode as MO
/// (the MT attempt fails on the element identifier, which makes the decoder
/// retry it as MO).
pub proof fn lemma_direction_dispatch(b: Seq<u8>)
    requires
        b.len() >= 4,
        b[0] == 1,
    ensures
        b[3] == 0x41 ==> !mo::mo_parses(b),
        b[3] == 0x01 ==> !mt::mt_parses(b) && mt::mt_parse_err(b) is WrongIEType,
{
}

/// Whether a message is well formed: its envelope is.
pub open spec fn message_wf(m: Message) -> bool {
    match m {
        Message::MO(x) => x.wf(),
        Message::MT(x) => x.wf(),
    }
}

/// Round trip of the top-level message, value direction: the wire image of
/// every well-formed message parses back, through the direction dispatcher,
/// as a message of the same direction carrying the very same elements.
pub proof fn lemma_message_roundtrip(m: Message)
    requires
        message_wf(m),
    ensures
        m is MT ==> mt::mt_parses(m.wire()) && mt::mt_decoded(m.wire(), m->MT_0@),
        m is MO ==> !mt::mt_parses(m.wire()) && mt::mt_parse_err(m.wire()) is WrongIEType
            && mo::mo_parses(m.wire()) && mo::mo_decoded(m.wire(), m->MO_0@),
{
    match m {
        Message::MT(x) => {
            mt::lemma_mt_message_roundtrip(x@);
        },
        Message::MO(x) => {
            mo::lemma_mo_message_roundtrip(x@);
            lemma_direction_dispatch(m.wire());
        },
    }
}

/// A ready-made MT confirmation message: the Gateway's reply to a
/// submission, decoded from its 31-byte wire image.
pub fn sample() -> (r: Message)
    ensures
        r is MT,
        r->MT_0@.len() == 1,
        r->MT_0@[0] is C,
        r->MT_0@[0]->C_0.client_msg_id == 9999,
        r->MT_0@[0]->C_0.imei@ == seq![0u8, 1, 2, 3, 4, 5, 6, 7, 8, 9, 10, 11, 12, 13, 14],
        r->MT_0@[0]->C_0.id_reference == 0xFFFFFFFF,
        r->MT_0@[0]->C_0.message_status == mt::confirmation::MessageStatus::MTMSNOutOfRange,
{
    let buf: [u8; 31] = [
        0x01, 0x00, 0x1c, 0x44, 0x00, 0x19, 0x00, 0x00, 0x27, 0x0f, 0x00, 0x01, 0x02, 0x03, 0x04,
        0x05, 0x06, 0x07, 0x08, 0x09, 0x0a, 0x0b, 0x0c, 0x0d, 0x0e, 0xff, 0xff, 0xff, 0xff, 0xff,
        0xf5,
    ];
    proof {
        assert(mt::mt_parses(buf@)) by {
            let c = buf@.skip(3);
            assert(buf@[1] == 0x00 && buf@[2] == 0x1c);
            assert(crate::bytes::be2v(0x00, 0x1c) == 28);
            assert(c[0] == 0x44 && c[1] == 0x00 && c[2] == 0x19);
            assert(crate::bytes::be2v(0x00, 0x19) == 25);
            assert(c[26] == 0xff && c[27] == 0xf5);
            assert(crate::bytes::i16_of_wire(crate::bytes::be2v(0xff, 0xf5)) == -11i16);
            assert(mt::confirmation::Confirmation::parses(c));
        }
    }
    match mt::MTMessage::from_reader(buf.as_slice()) {
        Ok(msg) => Message::MT(msg),
        Err(_) => vstd::pervasive::unreached(),
    }
}

} // verus!
