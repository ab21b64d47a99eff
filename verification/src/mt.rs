//! Mobile Terminated messages: submissions sent by a client to the Gateway
//! and the Gateway's confirmation replies.
//!
//! Information elements of the MT direction:
//!
//! * `0x41` header
//! * `0x42` payload
//! * `0x44` confirmation
//!
//! Wire layout of an envelope: a version byte (always `1`), a big-endian
//! `u16` with the summed on-wire size of the information elements, then the
//! elements themselves. An MT envelope is either a submission — a header,
//! optionally followed by one payload — or a single confirmation.

pub mod confirmation;
pub mod header;
pub mod payload;

use vstd::prelude::*;
use vstd::slice::slice_subrange;

use crate::bytes::{be2, be2v, put_u16, put_u8, read_u16};
use crate::error::Error;
use confirmation::Confirmation;
use header::{Header, HeaderBuilder};
use payload::{Payload, PayloadBuilder};

verus! {

/// One information element of an MT message.
#[derive(Clone, Debug, PartialEq, Eq)]
pub enum InformationElementType {
    /// MT header, identifier `0x41`.
    H(Header),
    /// MT payload, identifier `0x42`.
    P(Payload),
    /// MT confirmation, identifier `0x44`.
    C(Confirmation),
}

impl InformationElementType {
    /// Whether the element respects its own bounds.
    pub open spec fn wf(self) -> bool {
        match self {
            InformationElementType::H(_) => true,
            InformationElementType::P(p) => p.wf(),
            InformationElementType::C(c) => c.wf(),
        }
    }

    /// The exact byte string this element puts on the wire.
    pub open spec fn wire(self) -> Seq<u8> {
        match self {
            InformationElementType::H(h) => h.wire(),
            InformationElementType::P(p) => p.wire(),
            InformationElementType::C(c) => c.wire(),
        }
    }

    /// Identifier byte of the element.
    pub fn identifier(&self) -> (r: u8)
        ensures
            r == self.wire()[0],
            self is H ==> r == 0x41,
            self is P ==> r == 0x42,
            self is C ==> r == 0x44,
    {
        match self {
            InformationElementType::H(element) => element.identifier(),
            InformationElementType::P(element) => element.identifier(),
            InformationElementType::C(element) => element.identifier(),
        }
    }

    /// Body length of the element.
    pub fn len(&self) -> (r: u16)
        requires
            self.wf(),
        ensures
            3 + r == self.wire().len(),
    {
        match self {
            InformationElementType::H(element) => element.len(),
            InformationElementType::P(element) => element.len(),
            InformationElementType::C(element) => element.len(),
        }
    }

    /// Total on-wire size of the element: identifier, length field, body.
    pub fn total_size(&self) -> (r: usize)
        requires
            self.wf(),
        ensures
            r == self.wire().len(),
    {
        match self {
            InformationElementType::H(element) => element.total_size(),
            InformationElementType::P(element) => element.total_size(),
            InformationElementType::C(element) => element.total_size(),
        }
    }

    /// Append the wire image of this element.
    pub fn write(&self, wtr: &mut Vec<u8>) -> (r: Result<usize, Error>)
        requires
            self.wf(),
        ensures
            final(wtr)@ == old(wtr)@ + self.wire(),
            r == Ok::<usize, Error>(self.wire().len() as usize),
    {
        match self {
            InformationElementType::H(element) => element.write(wtr),
            InformationElementType::P(element) => element.write(wtr),
            InformationElementType::C(element) => element.write(wtr),
        }
    }

    /// Whether `b` begins with a well-formed MT information element.
    pub open spec fn parses(b: Seq<u8>) -> bool {
        b.len() >= 1 && if b[0] == 0x41 {
            Header::parses(b)
        } else if b[0] == 0x42 {
            Payload::parses(b)
        } else if b[0] == 0x44 {
            Confirmation::parses(b)
        } else {
            false
        }
    }

    /// The error reported when `b` does not begin with a well-formed MT
    /// information element.
    pub open spec fn parse_err(b: Seq<u8>) -> Error {
        if b.len() < 1 {
            Error::IO
        } else if b[0] == 0x41 {
            Header::parse_err(b)
        } else if b[0] == 0x42 {
            Payload::parse_err(b)
        } else if b[0] == 0x44 {
            Confirmation::parse_err(b)
        } else {
            Error::WrongIEType(0x41, b[0])
        }
    }

    /// Whether the element `e` is what decoding the start of `b` yields.
    pub open spec fn decoded(b: Seq<u8>, e: InformationElementType) -> bool {
        match e {
            InformationElementType::H(h) => b[0] == 0x41 && Header::decoded(b, h),
            InformationElementType::P(p) => b[0] == 0x42 && Payload::decoded(b, p),
            InformationElementType::C(c) => b[0] == 0x44 && Confirmation::decoded(b, c),
        }
    }

    /// Parse one MT information element from the start of `buf`, dispatching
    /// on the identifier byte. Trailing bytes are ignored.
    pub fn from_reader(buf: &[u8]) -> (r: Result<InformationElementType, Error>)
        ensures
            Self::parses(buf@) ==> r is Ok && Self::decoded(buf@, r->Ok_0) && r->Ok_0.wf(),
            !Self::parses(buf@) ==> r == Err::<InformationElementType, Error>(
                Self::parse_err(buf@),
            ),
    {
        if buf.len() < 1 {
            return Err(Error::IO);
        }
        let iei = buf[0];
        if iei == 0x41 {
            match Header::from_reader(buf) {
                Ok(h) => Ok(InformationElementType::H(h)),
                Err(e) => Err(e),
            }
        } else if iei == 0x42 {
            match Payload::from_reader(buf) {
                Ok(p) => Ok(InformationElementType::P(p)),
                Err(e) => Err(e),
            }
        } else if iei == 0x44 {
            match Confirmation::from_reader(buf) {
                Ok(c) => Ok(InformationElementType::C(c)),
                Err(e) => Err(e),
            }
        } else {
            Err(Error::WrongIEType(0x41, iei))
        }
    }
}

/// The concatenated wire image of a sequence of information elements.
pub open spec fn body_wire(elems: Seq<InformationElementType>) -> Seq<u8>
    decreases elems.len(),
{
    if elems.len() == 0 {
        Seq::empty()
    } else {
        elems[0].wire() + body_wire(elems.drop_first())
    }
}

/// The summed on-wire size of a sequence of information elements.
pub open spec fn body_len(elems: Seq<InformationElementType>) -> int {
    body_wire(elems).len() as int
}

/// The full envelope image of a sequence of information elements: version
/// byte, overall length, elements.
pub open spec fn msg_wire(elems: Seq<InformationElementType>) -> Seq<u8> {
    seq![1u8] + be2(body_len(elems) as u16) + body_wire(elems)
}

/// The wire image of a concatenation is the concatenation of the wire
/// images.
pub proof fn lemma_body_wire_concat(a: Seq<InformationElementType>, b: Seq<InformationElementType>)
    ensures
        body_wire(a + b) == body_wire(a) + body_wire(b),
    decreases a.len(),
{
    if a.len() == 0 {
        assert(a + b =~= b);
        assert(body_wire(a) + body_wire(b) =~= body_wire(b));
    } else {
        assert((a + b).drop_first() =~= a.drop_first() + b);
        lemma_body_wire_concat(a.drop_first(), b);
        assert(body_wire(a + b) =~= body_wire(a) + body_wire(b));
    }
}

/// The valid compositions of an MT message: a submission (header, optionally
/// followed by one payload) or a single confirmation.
pub open spec fn mt_composition_ok(elems: Seq<InformationElementType>) -> bool {
    ||| (elems.len() == 1 && (elems[0] is H || elems[0] is C))
    ||| (elems.len() == 2 && elems[0] is H && elems[1] is P)
}

/// Whether `b` begins with a well-formed MT envelope.
pub open spec fn mt_parses(b: Seq<u8>) -> bool {
    &&& b.len() >= 3
    &&& b[0] == 1
    &&& {
        let budget = be2v(b[1], b[2]) as int;
        let c = b.skip(3);
        &&& budget > 0
        &&& b.len() >= 4
        &&& if b[3] == 0x41 {
            &&& Header::parses(c)
            &&& (budget == 24 || (budget > 24 && c.len() >= 25 && c[24] == 0x42
                && Payload::parses(c.skip(24)) && 24 + 3 + be2v(c[25], c[26]) == budget))
        } else if b[3] == 0x44 {
            &&& Confirmation::parses(c)
            &&& budget == 28
        } else {
            false
        }
    }
}

/// Whether `b` begins with a well-formed MT envelope whose header, if any,
/// carries no ignored flag bit, so that re-encoding reproduces the bytes.
pub open spec fn mt_canonical(b: Seq<u8>) -> bool {
    mt_parses(b) && (b[3] == 0x41 ==> Header::canonical(b.skip(3)))
}

/// The error reported when `b` does not begin with a well-formed MT
/// envelope. (Arbitrary where `b` is well formed.)
pub open spec fn mt_parse_err(b: Seq<u8>) -> Error {
    if b.len() < 1 {
        Error::IO
    } else if b[0] != 1 {
        Error::ProtocolVersion(b[0])
    } else if b.len() < 3 {
        Error::IO
    } else {
        let budget = be2v(b[1], b[2]) as int;
        let c = b.skip(3);
        if budget == 0 {
            Error::WrongIEType(0x41, 0)
        } else if b.len() < 4 {
            Error::IO
        } else if b[3] == 0x41 {
            if !Header::parses(c) {
                Header::parse_err(c)
            } else if budget < 24 {
                Error::LengthMismatch
            } else if budget == 24 {
                Error::IO
            } else if c.len() < 25 {
                Error::IO
            } else if c[24] != 0x42 {
                Error::WrongIEType(0x42, c[24])
            } else if !Payload::parses(c.skip(24)) {
                Payload::parse_err(c.skip(24))
            } else {
                let pt = 3 + be2v(c[25], c[26]) as int;
                if 24 + pt > budget {
                    Error::LengthMismatch
                } else if 24 + pt < budget {
                    if c.len() < 24 + pt + 1 {
                        Error::IO
                    } else {
                        Error::WrongIEType(0x42, c[24 + pt])
                    }
                } else {
                    Error::IO
                }
            }
        } else if b[3] == 0x44 {
            if !Confirmation::parses(c) {
                Confirmation::parse_err(c)
            } else if budget < 28 {
                Error::LengthMismatch
            } else if budget > 28 {
                if c.len() < 29 {
                    Error::IO
                } else {
                    Error::WrongIEType(0x42, c[28])
                }
            } else {
                Error::IO
            }
        } else {
            Error::WrongIEType(0x41, b[3])
        }
    }
}

/// Whether `elems` is what decoding the MT envelope at the start of `b`
/// yields. (Meaningful when `mt_parses(b)` holds.)
pub open spec fn mt_decoded(b: Seq<u8>, elems: Seq<InformationElementType>) -> bool {
    let budget = be2v(b[1], b[2]) as int;
    let c = b.skip(3);
    if b[3] == 0x41 {
        if budget == 24 {
            elems.len() == 1 && elems[0] is H && Header::decoded(c, elems[0]->H_0)
        } else {
            elems.len() == 2 && elems[0] is H && Header::decoded(c, elems[0]->H_0)
                && elems[1] is P && Payload::decoded(c.skip(24), elems[1]->P_0)
        }
    } else {
        elems.len() == 1 && elems[0] is C && Confirmation::decoded(c, elems[0]->C_0)
    }
}

/// A Mobile Terminated message: a well-composed, bounded sequence of MT
/// information elements.
#[derive(Debug)]
pub struct MTMessage {
    elements: Vec<InformationElementType>,
}

impl View for MTMessage {
    type V = Seq<InformationElementType>;

    closed spec fn view(&self) -> Seq<InformationElementType> {
        self.elements@
    }
}

impl MTMessage {
    /// Every MT message is well composed and all its elements respect
    /// their bounds.
    #[verifier::type_invariant]
    pub open spec fn wf(self) -> bool {
        mt_composition_ok(self@) && (forall|i: int| 0 <= i < self@.len() ==> self@[i].wf())
    }

    /// The exact byte string this message puts on the wire.
    pub open spec fn wire(self) -> Seq<u8> {
        msg_wire(self@)
    }

    /// Overall message length: the summed on-wire size of the elements.
    pub fn len(&self) -> (r: u16)
        ensures
            r == body_len(self@),
    {
        proof {
            use_type_invariant(&*self);
            lemma_mt_body_len_bound(self@);
        }
        let mut total: usize = 0;
        let n = self.elements.len();
        let mut i: usize = 0;
        while i < n
            invariant
                i <= n,
                n == self@.len(),
                mt_composition_ok(self@),
                forall|k: int| 0 <= k < self@.len() ==> self@[k].wf(),
                total == body_len(self@.take(i as int)),
                total <= body_len(self@),
                body_len(self@) <= 24 + 1893,
            decreases n - i,
        {
            proof {
                lemma_body_wire_take_step(self@, i as int);
                lemma_mt_element_wire_len(self@[i as int]);
                lemma_body_wire_concat(self@.take(i + 1), self@.skip(i + 1));
                assert(self@ =~= self@.take(i + 1) + self@.skip(i + 1));
            }
            total = total + self.elements[i].total_size();
            i = i + 1;
        }
        proof {
            assert(self@.take(n as int) =~= self@);
        }
        total as u16
    }

    /// Total on-wire size of the message: version byte, length field,
    /// elements.
    pub fn total_size(&self) -> (r: usize)
        ensures
            r == self.wire().len(),
    {
        proof {
            use_type_invariant(&*self);
            lemma_mt_body_len_bound(self@);
        }
        3 + self.len() as usize
    }

    /// Append the wire image of the message: version, overall length, then
    /// each element in stored order.
    pub fn write(&self, wtr: &mut Vec<u8>) -> (r: Result<usize, Error>)
        ensures
            final(wtr)@ == old(wtr)@ + self.wire(),
            r == Ok::<usize, Error>(self.wire().len() as usize),
    {
        proof {
            use_type_invariant(&*self);
            lemma_mt_body_len_bound(self@);
        }
        let ghost pre = wtr@;
        put_u8(wtr, 1);
        let length = self.len();
        put_u16(wtr, length);
        let n = self.elements.len();
        let mut i: usize = 0;
        let mut written: usize = 3;
        while i < n
            invariant
                i <= n,
                n == self@.len(),
                mt_composition_ok(self@),
                forall|k: int| 0 <= k < self@.len() ==> self@[k].wf(),
                wtr@ == pre + seq![1u8] + be2(body_len(self@) as u16) + body_wire(
                    self@.take(i as int),
                ),
                written == 3 + body_len(self@.take(i as int)),
                written <= 3 + body_len(self@),
                body_len(self@) <= 24 + 1893,
            decreases n - i,
        {
            proof {
                lemma_body_wire_take_step(self@, i as int);
                lemma_mt_element_wire_len(self@[i as int]);
                lemma_body_wire_concat(self@.take(i + 1), self@.skip(i + 1));
                assert(self@ =~= self@.take(i + 1) + self@.skip(i + 1));
            }
            let m = self.elements[i].write(wtr).unwrap();
            written = written + m;
            i = i + 1;
            assert(wtr@ =~= pre + seq![1u8] + be2(body_len(self@) as u16) + body_wire(
                self@.take(i as int),
            ));
        }
        proof {
            assert(self@.take(n as int) =~= self@);
            assert(wtr@ =~= pre + self.wire());
        }
        Ok(written)
    }

    /// The wire image of the message as a fresh vector.
    pub fn to_vec(&self) -> (r: Vec<u8>)
        ensures
            r@ == self.wire(),
    {
        let mut buffer: Vec<u8> = Vec::new();
        let _ = self.write(&mut buffer);
        buffer
    }

    /// Parse an MT envelope from the start of `buf`: version byte, overall
    /// length, then information elements up to exactly that length. Trailing
    /// bytes are ignored.
    pub fn from_reader(buf: &[u8]) -> (r: Result<MTMessage, Error>)
        ensures
            mt_parses(buf@) ==> r is Ok && mt_decoded(buf@, r->Ok_0@),
            !mt_parses(buf@) ==> r == Err::<MTMessage, Error>(mt_parse_err(buf@)),
    {
        if buf.len() < 1 {
            return Err(Error::IO);
        }
        if buf[0] != 1 {
            return Err(Error::ProtocolVersion(buf[0]));
        }
        if buf.len() < 3 {
            return Err(Error::IO);
        }
        let length = read_u16(buf, 1) as usize;
        if length == 0 {
            return Err(Error::WrongIEType(0x41, 0));
        }
        if buf.len() < 4 {
            return Err(Error::IO);
        }
        let c = slice_subrange(buf, 3, buf.len());
        proof {
            assert(c@ =~= buf@.skip(3));
        }
        let iei = buf[3];
        if iei == 0x41 {
            let h = match Header::from_reader(c) {
                Ok(h) => h,
                Err(e) => {
                    return Err(e);
                },
            };
            if length < 24 {
                return Err(Error::LengthMismatch);
            }
            if length == 24 {
                let mut elements: Vec<InformationElementType> = Vec::new();
                elements.push(InformationElementType::H(h));
                let m = MTMessage { elements };
                proof {
                    assert(m@ =~= seq![InformationElementType::H(h)]);
                }
                return Ok(m);
            }
            if c.len() < 25 {
                return Err(Error::IO);
            }
            if c[24] != 0x42 {
                return Err(Error::WrongIEType(0x42, c[24]));
            }
            let d = slice_subrange(c, 24, c.len());
            proof {
                assert(d@ =~= buf@.skip(3).skip(24));
            }
            let p = match Payload::from_reader(d) {
                Ok(p) => p,
                Err(e) => {
                    return Err(e);
                },
            };
            let pt = p.total_size();
            if 24 + pt > length {
                return Err(Error::LengthMismatch);
            }
            if 24 + pt < length {
                if c.len() < 24 + pt + 1 {
                    return Err(Error::IO);
                }
                return Err(Error::WrongIEType(0x42, c[24 + pt]));
            }
            let mut elements: Vec<InformationElementType> = Vec::new();
            elements.push(InformationElementType::H(h));
            elements.push(InformationElementType::P(p));
            let m = MTMessage { elements };
            proof {
                assert(m@ =~= seq![
                    InformationElementType::H(h),
                    InformationElementType::P(p),
                ]);
            }
            Ok(m)
        } else if iei == 0x44 {
            let cf = match Confirmation::from_reader(c) {
                Ok(cf) => cf,
                Err(e) => {
                    return Err(e);
                },
            };
            if length < 28 {
                return Err(Error::LengthMismatch);
            }
            if length > 28 {
                if c.len() < 29 {
                    return Err(Error::IO);
                }
                return Err(Error::WrongIEType(0x42, c[28]));
            }
            let mut elements: Vec<InformationElementType> = Vec::new();
            elements.push(InformationElementType::C(cf));
            let m = MTMessage { elements };
            proof {
                assert(m@ =~= seq![InformationElementType::C(cf)]);
            }
            Ok(m)
        } else {
            Err(Error::WrongIEType(0x41, iei))
        }
    }

    /// A builder for an MT submission.
    pub fn builder() -> (r: MTMessageBuilder)
        ensures
            r.header == HeaderBuilder::spec_default(),
            r.payload == (PayloadBuilder { payload: None::<Vec<u8>> }),
    {
        MTMessageBuilder::default()
    }

    /// The confirmation element, if the message carries one.
    pub fn confirmation(&self) -> (r: Option<&Confirmation>)
        ensures
            match r {
                Some(c) => self@[0] == InformationElementType::C(*c),
                None => forall|i: int| 0 <= i < self@.len() ==> !(self@[i] is C),
            },
    {
        proof {
            use_type_invariant(&*self);
        }
        match &self.elements[0] {
            InformationElementType::C(c) => Some(c),
            _ => None,
        }
    }

    /// The text of the confirmation's status, if the message carries a
    /// confirmation.
    pub fn confirmation_message(&self) -> (r: Option<String>)
        ensures
            r is Some <==> self@.len() > 0 && self@[0] is C,
            r is Some ==> r->0@ == self@[0]->C_0.message_status.spec_message(),
    {
        proof {
            use_type_invariant(&*self);
        }
        match self.confirmation() {
            Some(c) => Some(c.message_status().message()),
            None => None,
        }
    }

    /// The IMEI of the message: taken from the header of a submission, or
    /// from the confirmation of a reply.
    pub fn imei(&self) -> (r: Option<[u8; 15]>)
        ensures
            match self@[0] {
                InformationElementType::H(h) => r == Some(h.imei),
                InformationElementType::C(c) => r == Some(c.imei),
                InformationElementType::P(_) => r is None,
            },
    {
        proof {
            use_type_invariant(&*self);
        }
        match &self.elements[0] {
            InformationElementType::H(h) => Some(h.imei()),
            InformationElementType::C(c) => Some(c.imei()),
            InformationElementType::P(_) => None,
        }
    }
}

/// Builder for an MT submission: proxies onto the header and payload
/// builders and assembles `[header, payload]`.
pub struct MTMessageBuilder {
    pub header: HeaderBuilder,
    pub payload: PayloadBuilder,
}

impl MTMessageBuilder {
    /// A builder with every field unset.
    pub fn default() -> (r: MTMessageBuilder)
        ensures
            r.header == HeaderBuilder::spec_default(),
            r.payload == (PayloadBuilder { payload: None::<Vec<u8>> }),
    {
        MTMessageBuilder { header: HeaderBuilder::default(), payload: PayloadBuilder::default() }
    }

    /// Set the client message id.
    pub fn client_msg_id(self, client_msg_id: u32) -> (r: MTMessageBuilder)
        ensures
            r.header == (HeaderBuilder { client_msg_id: Some(client_msg_id), ..self.header }),
            r.payload == self.payload,
    {
        MTMessageBuilder { header: self.header.client_msg_id(client_msg_id), ..self }
    }

    /// Set the IMEI.
    pub fn imei(self, imei: [u8; 15]) -> (r: MTMessageBuilder)
        ensures
            r.header == (HeaderBuilder { imei: Some(imei), ..self.header }),
            r.payload == self.payload,
    {
        MTMessageBuilder { header: self.header.imei(imei), ..self }
    }

    /// Set the payload bytes.
    pub fn payload(self, payload: Vec<u8>) -> (r: MTMessageBuilder)
        ensures
            r.header == self.header,
            r.payload == (PayloadBuilder { payload: Some(payload) }),
    {
        MTMessageBuilder { payload: self.payload.payload(payload), ..self }
    }

    /// Set the disposition flags.
    pub fn disposition_flags(self, disposition_flags: header::DispositionFlags) -> (r:
        MTMessageBuilder)
        ensures
            r.header == (HeaderBuilder {
                disposition_flags: Some(disposition_flags),
                ..self.header
            }),
            r.payload == self.payload,
    {
        MTMessageBuilder { header: self.header.disposition_flags(disposition_flags), ..self }
    }

    /// Build the submission: exactly `[header, payload]`. Fails on the
    /// first unset required field or an oversized payload.
    pub fn build(self) -> (r: Result<MTMessage, Error>)
        ensures
            match r {
                Ok(m) => {
                    &&& self.header.client_msg_id is Some
                    &&& self.header.imei is Some
                    &&& self.payload.payload is Some
                    &&& self.payload.payload->0@.len() <= 1890
                    &&& m@.len() == 2
                    &&& m@[0] is H
                    &&& m@[0]->H_0.client_msg_id == self.header.client_msg_id->0
                    &&& m@[0]->H_0.imei == self.header.imei->0
                    &&& m@[0]->H_0.disposition_flags == (if self.header.disposition_flags
                        is Some {
                        self.header.disposition_flags->0
                    } else {
                        header::DispositionFlags {
                            flush_queue: false,
                            send_ring_alert: false,
                            update_location: false,
                            high_priority: false,
                            assign_mtmsn: false,
                        }
                    })
                    &&& m@[1] is P
                    &&& m@[1]->P_0.payload == self.payload.payload->0
                },
                Err(e) => {
                    &&& (self.header.client_msg_id is None ==> e == Error::UninitializedField(
                        "client_msg_id",
                    ))
                    &&& (self.header.client_msg_id is Some && self.header.imei is None ==> e
                        == Error::UninitializedField("imei"))
                    &&& (self.header.client_msg_id is Some && self.header.imei is Some
                        && self.payload.payload is None ==> e == Error::UninitializedField(
                        "payload",
                    ))
                    &&& (self.header.client_msg_id is Some && self.header.imei is Some
                        && self.payload.payload is Some ==> self.payload.payload->0@.len() > 1890
                        && e == Error::PayloadOversize(
                        self.payload.payload->0@.len() as usize,
                        1890,
                    ))
                },
            },
    {
        let header = match self.header.build() {
            Ok(h) => h,
            Err(e) => {
                return Err(e);
            },
        };
        let payload = match self.payload.build() {
            Ok(p) => p,
            Err(e) => {
                return Err(e);
            },
        };
        let mut elements: Vec<InformationElementType> = Vec::new();
        elements.push(InformationElementType::H(header));
        elements.push(InformationElementType::P(payload));
        let m = MTMessage { elements };
        proof {
            assert(m@ =~= seq![
                InformationElementType::H(header),
                InformationElementType::P(payload),
            ]);
        }
        Ok(m)
    }
}

/// Whether two MT elements are the same element: the same variant with the
/// same fields, payload bodies compared by content.
pub open spec fn ie_eq(a: InformationElementType, b: InformationElementType) -> bool {
    match (a, b) {
        (InformationElementType::H(x), InformationElementType::H(y)) => x == y,
        (InformationElementType::P(x), InformationElementType::P(y)) => x.payload@ == y.payload@,
        (InformationElementType::C(x), InformationElementType::C(y)) => x == y,
        _ => false,
    }
}

/// Whether two MT element sequences are the same, element by element.
pub open spec fn elements_eq(a: Seq<InformationElementType>, b: Seq<InformationElementType>) -> bool {
    a.len() == b.len() && (forall|i: int| 0 <= i < a.len() ==> ie_eq(a[i], b[i]))
}

/// Round trip of the MT envelope, value direction: the wire image of every
/// well-composed element sequence parses, and decodes back to that very
/// sequence. Together with [`lemma_mt_decoded_unique`] this pins the result
/// of decoding an encoded message down to every field.
pub proof fn lemma_mt_message_roundtrip(elems: Seq<InformationElementType>)
    requires
        mt_composition_ok(elems),
        forall|i: int| 0 <= i < elems.len() ==> elems[i].wf(),
    ensures
        mt_parses(msg_wire(elems)),
        mt_decoded(msg_wire(elems), elems),
        msg_wire(elems).len() == 3 + body_len(elems),
{
    let b = msg_wire(elems);
    let c = b.skip(3);
    lemma_mt_body_len_bound(elems);
    crate::bytes::lemma_be2v_of_be2(body_len(elems) as u16);
    assert(c =~= body_wire(elems));
    if elems.len() == 2 {
        let h = elems[0]->H_0;
        let p = elems[1]->P_0;
        assert(elems =~= seq![elems[0], elems[1]]);
        lemma_body_wire_two(elems[0], elems[1]);
        header::lemma_mt_header_roundtrip(h);
        payload::lemma_mt_payload_roundtrip(p);
        assert(c =~= h.wire() + p.wire());
        assert(c.subrange(7, 22) =~= h.wire().subrange(7, 22));
        assert(c.skip(24) =~= p.wire());
        assert(b[3] == c[0]);
    } else if elems[0] is H {
        let h = elems[0]->H_0;
        assert(elems =~= seq![elems[0]]);
        lemma_body_wire_one(elems[0]);
        header::lemma_mt_header_roundtrip(h);
        assert(c =~= h.wire());
        assert(b[3] == c[0]);
    } else {
        let cf = elems[0]->C_0;
        assert(elems =~= seq![elems[0]]);
        lemma_body_wire_one(elems[0]);
        confirmation::lemma_mt_confirmation_roundtrip(cf);
        assert(c =~= cf.wire());
        assert(b[3] == c[0]);
    }
}

/// Decoding is unambiguous: two element sequences decoded from the same MT
/// envelope are the same sequence.
pub proof fn lemma_mt_decoded_unique(
    b: Seq<u8>,
    e1: Seq<InformationElementType>,
    e2: Seq<InformationElementType>,
)
    requires
        mt_parses(b),
        mt_decoded(b, e1),
        mt_decoded(b, e2),
    ensures
        elements_eq(e1, e2),
{
    let budget = be2v(b[1], b[2]) as int;
    let c = b.skip(3);
    if b[3] == 0x41 {
        let h1 = e1[0]->H_0;
        let h2 = e2[0]->H_0;
        assert(h1.imei@ =~= h2.imei@);
        assert(h1.imei =~= h2.imei);
        if budget != 24 {
            assert(ie_eq(e1[1], e2[1]));
        }
    } else {
        let c1 = e1[0]->C_0;
        let c2 = e2[0]->C_0;
        assert(c1.imei@ =~= c2.imei@);
        assert(c1.imei =~= c2.imei);
    }
}

/// Round trip of the MT envelope, byte direction: re-encoding a decoded
/// envelope reproduces exactly the bytes that were consumed, for every
/// canonical input (one whose header flags carry no ignored bit).
#[verifier::rlimit(100)]
pub proof fn lemma_mt_message_reencode(b: Seq<u8>, elems: Seq<InformationElementType>)
    requires
        mt_canonical(b),
        mt_decoded(b, elems),
    ensures
        msg_wire(elems) == b.subrange(0, 3 + be2v(b[1], b[2])),
{
    let budget = be2v(b[1], b[2]) as int;
    let c = b.skip(3);
    crate::bytes::lemma_be2_of_be2v(b[1], b[2]);
    if b[3] == 0x41 {
        let h = elems[0]->H_0;
        header::lemma_mt_header_reencode(c, h);
        if budget == 24 {
            assert(elems =~= seq![elems[0]]);
            lemma_body_wire_one(elems[0]);
            assert(body_wire(elems) =~= c.subrange(0, 24));
            assert(msg_wire(elems) =~= b.subrange(0, 3 + budget));
        } else {
            let p = elems[1]->P_0;
            payload::lemma_mt_payload_reencode(c.skip(24), p);
            assert(elems =~= seq![elems[0], elems[1]]);
            lemma_body_wire_two(elems[0], elems[1]);
            let pt = 3 + be2v(c[25], c[26]) as int;
            assert(c.skip(24)[1] == c[25] && c.skip(24)[2] == c[26]);
            assert(p.wire() == c.skip(24).subrange(0, pt));
            assert(body_wire(elems) =~= c.subrange(0, budget));
            assert(msg_wire(elems) =~= b.subrange(0, 3 + budget));
        }
    } else {
        let cf = elems[0]->C_0;
        confirmation::lemma_mt_confirmation_reencode(c, cf);
        assert(elems =~= seq![elems[0]]);
        lemma_body_wire_one(elems[0]);
        assert(body_wire(elems) =~= c.subrange(0, 28));
        assert(msg_wire(elems) =~= b.subrange(0, 3 + budget));
    }
}

/// Length consistency: in every encoded MT message, the second and third
/// bytes, read as a big-endian `u16`, are the summed on-wire size of the
/// elements that follow.
pub proof fn lemma_mt_length_consistency(elems: Seq<InformationElementType>)
    requires
        mt_composition_ok(elems),
        forall|i: int| 0 <= i < elems.len() ==> elems[i].wf(),
    ensures
        be2v(msg_wire(elems)[1], msg_wire(elems)[2]) == body_len(elems),
        msg_wire(elems).skip(3) == body_wire(elems),
{
    lemma_mt_body_len_bound(elems);
    crate::bytes::lemma_be2v_of_be2(body_len(elems) as u16);
    assert(msg_wire(elems).skip(3) =~= body_wire(elems));
}

/// The on-wire size of each MT element: 24 for a header, 28 for a
/// confirmation, `3 + n` for a payload of `n` bytes.
pub proof fn lemma_mt_element_wire_len(e: InformationElementType)
    ensures
        e is H ==> e.wire().len() == 24,
        e is P ==> e.wire().len() == 3 + e->P_0.payload@.len(),
        e is C ==> e.wire().len() == 28,
        e.wire().len() >= 3,
{
}

/// The body image of a single element is that element's wire image.
pub proof fn lemma_body_wire_one(e: InformationElementType)
    ensures
        body_wire(seq![e]) == e.wire(),
{
    assert(seq![e].drop_first() =~= Seq::<InformationElementType>::empty());
    assert(body_wire(Seq::<InformationElementType>::empty()) == Seq::<u8>::empty());
    assert(body_wire(seq![e]) == e.wire() + body_wire(seq![e].drop_first()));
    assert(e.wire() + Seq::<u8>::empty() =~= e.wire());
}

/// The body image of a pair of elements is the concatenation of their wire
/// images.
pub proof fn lemma_body_wire_two(e0: InformationElementType, e1: InformationElementType)
    ensures
        body_wire(seq![e0, e1]) == e0.wire() + e1.wire(),
{
    assert(seq![e0, e1].drop_first() =~= seq![e1]);
    lemma_body_wire_one(e1);
    assert(body_wire(seq![e0, e1]) == e0.wire() + body_wire(seq![e0, e1].drop_first()));
}

/// A well-composed MT body never exceeds the length of a header plus a
/// maximal payload.
pub proof fn lemma_mt_body_len_bound(elems: Seq<InformationElementType>)
    requires
        mt_composition_ok(elems),
        forall|i: int| 0 <= i < elems.len() ==> elems[i].wf(),
    ensures
        3 <= body_len(elems) <= 24 + 1893,
{
    if elems.len() == 1 {
        assert(elems =~= seq![elems[0]]);
        lemma_body_wire_one(elems[0]);
        lemma_mt_element_wire_len(elems[0]);
    } else {
        assert(elems =~= seq![elems[0], elems[1]]);
        lemma_body_wire_two(elems[0], elems[1]);
        lemma_mt_element_wire_len(elems[0]);
        lemma_mt_element_wire_len(elems[1]);
    }
}

/// Appending one element extends the body image by that element's wire
/// image.
pub proof fn lemma_body_wire_take_step(s: Seq<InformationElementType>, i: int)
    requires
        0 <= i < s.len(),
    ensures
        body_wire(s.take(i + 1)) == body_wire(s.take(i)) + s[i].wire(),
{
    assert(s.take(i + 1) =~= s.take(i) + seq![s[i]]);
    lemma_body_wire_concat(s.take(i), seq![s[i]]);
    lemma_body_wire_one(s[i]);
}

} // verus!
