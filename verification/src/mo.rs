//! Mobile Originated messages: messages emitted by a modem and forwarded by
//! the Gateway to a customer server.
//!
//! Information elements of the MO direction:
//!
//! * `0x01` header
//! * `0x02` payload
//! * `0x03` location
//!
//! Wire layout of an envelope: a version byte (always `1`), a big-endian
//! `u16` with the summed on-wire size of the information elements, then the
//! elements themselves. An MO envelope is a header, followed by at most one
//! payload and at most one location, in either order.

pub mod header;
pub mod location;
pub mod payload;

use vstd::prelude::*;
use vstd::slice::slice_subrange;

use crate::bytes::{be2, be2v, put_u16, put_u8, read_u16};
use crate::error::Error;
use header::Header;
use location::Location;
use payload::Payload;

verus! {

/// One information element of an MO message.
#[derive(Clone, Debug, PartialEq, Eq)]
pub enum InformationElementType {
    /// MO header, identifier `0x01`.
    H(Header),
    /// MO location, identifier `0x03`.
    L(Location),
    /// MO payload, identifier `0x02`.
    P(Payload),
}

impl InformationElementType {
    /// Whether the element respects its own bounds.
    pub open spec fn wf(self) -> bool {
        match self {
            InformationElementType::H(_) => true,
            InformationElementType::L(_) => true,
            InformationElementType::P(p) => p.wf(),
        }
    }

    /// The exact byte string this element puts on the wire.
    pub open spec fn wire(self) -> Seq<u8> {
        match self {
            InformationElementType::H(h) => h.wire(),
            InformationElementType::L(l) => l.wire(),
            InformationElementType::P(p) => p.wire(),
        }
    }

    /// Identifier byte of the element.
    pub fn identifier(&self) -> (r: u8)
        ensures
            r == self.wire()[0],
            self is H ==> r == 0x01,
            self is P ==> r == 0x02,
            self is L ==> r == 0x03,
    {
        match self {
            InformationElementType::H(element) => element.identifier(),
            InformationElementType::L(element) => element.identifier(),
            InformationElementType::P(element) => element.identifier(),
        }
    }

    /// Body length of the element.
    pub fn len(&self) -> (r: u16)
        requires
            self.wf(),
        ensures
            3 + r == self.wire().len(),
    {
        match self {
            InformationElementType::H(element) => element.len(),
            InformationElementType::L(element) => element.len(),
            InformationElementType::P(element) => element.len(),
        }
    }

    /// Total on-wire size of the element: identifier, length field, body.
    pub fn total_size(&self) -> (r: usize)
        requires
            self.wf(),
        ensures
            r == self.wire().len(),
    {
        match self {
            InformationElementType::H(element) => element.total_size(),
            InformationElementType::L(element) => element.total_size(),
            InformationElementType::P(element) => element.total_size(),
        }
    }

    /// Append the wire image of this element.
    pub fn write(&self, wtr: &mut Vec<u8>) -> (r: Result<usize, Error>)
        requires
            self.wf(),
        ensures
            final(wtr)@ == old(wtr)@ + self.wire(),
            r == Ok::<usize, Error>(self.wire().len() as usize),
    {
        match self {
            InformationElementType::H(element) => element.write(wtr),
            InformationElementType::L(element) => element.write(wtr),
            InformationElementType::P(element) => element.write(wtr),
        }
    }

    /// Whether `b` begins with a well-formed MO information element.
    pub open spec fn parses(b: Seq<u8>) -> bool {
        b.len() >= 1 && if b[0] == 0x01 {
            Header::parses(b)
        } else if b[0] == 0x02 {
            Payload::parses(b)
        } else if b[0] == 0x03 {
            Location::parses(b)
        } else {
            false
        }
    }

    /// The error reported when `b` does not begin with a well-formed MO
    /// information element.
    pub open spec fn parse_err(b: Seq<u8>) -> Error {
        if b.len() < 1 {
            Error::IO
        } else if b[0] == 0x01 {
            Header::parse_err(b)
        } else if b[0] == 0x02 {
            Payload::parse_err(b)
        } else if b[0] == 0x03 {
            Location::parse_err(b)
        } else {
            Error::WrongIEType(0x01, b[0])
        }
    }

    /// Whether the element `e` is what decoding the start of `b` yields.
    pub open spec fn decoded(b: Seq<u8>, e: InformationElementType) -> bool {
        match e {
            InformationElementType::H(h) => b[0] == 0x01 && Header::decoded(b, h),
            InformationElementType::P(p) => b[0] == 0x02 && Payload::decoded(b, p),
            InformationElementType::L(l) => b[0] == 0x03 && Location::decoded(b, l),
        }
    }

    /// Parse one MO information element from the start of `buf`, dispatching
    /// on the identifier byte. Trailing bytes are ignored.
    pub fn from_reader(buf: &[u8]) -> (r: Result<InformationElementType, Error>)
        ensures
            Self::parses(buf@) ==> r is Ok && Self::decoded(buf@, r->Ok_0) && r->Ok_0.wf(),
            !Self::parses(buf@) ==> r == Err::<InformationElementType, Error>(
                Self::parse_err(buf@),
            ),
    {
        if buf.len() < 1 {
            return Err(Error::IO);
        }
        let iei = buf[0];
        if iei == 0x01 {
            match Header::from_reader(buf) {
                Ok(h) => Ok(InformationElementType::H(h)),
                Err(e) => Err(e),
            }
        } else if iei == 0x02 {
            match Payload::from_reader(buf) {
                Ok(p) => Ok(InformationElementType::P(p)),
                Err(e) => Err(e),
            }
        } else if iei == 0x03 {
            match Location::from_reader(buf) {
                Ok(l) => Ok(InformationElementType::L(l)),
                Err(e) => Err(e),
            }
        } else {
            Err(Error::WrongIEType(0x01, iei))
        }
    }
}

/// The concatenated wire image of a sequence of information elements.
pub open spec fn body_wire(elems: Seq<InformationElementType>) -> Seq<u8>
    decreases elems.len(),
{
    if elems.len() == 0 {
        Seq::empty()
    } else {
        elems[0].wire() + body_wire(elems.drop_first())
    }
}

/// The summed on-wire size of a sequence of information elements.
pub open spec fn body_len(elems: Seq<InformationElementType>) -> int {
    body_wire(elems).len() as int
}

/// The full envelope image of a sequence of information elements: version
/// byte, overall length, elements.
pub open spec fn msg_wire(elems: Seq<InformationElementType>) -> Seq<u8> {
    seq![1u8] + be2(body_len(elems) as u16) + body_wire(elems)
}

/// The wire image of a concatenation is the concatenation of the wire
/// images.
pub proof fn lemma_body_wire_concat(a: Seq<InformationElementType>, b: Seq<InformationElementType>)
    ensures
        body_wire(a + b) == body_wire(a) + body_wire(b),
    decreases a.len(),
{
    if a.len() == 0 {
        assert(a + b =~= b);
        assert(body_wire(a) + body_wire(b) =~= body_wire(b));
    } else {
        assert((a + b).drop_first() =~= a.drop_first() + b);
        lemma_body_wire_concat(a.drop_first(), b);
        assert(body_wire(a + b) =~= body_wire(a) + body_wire(b));
    }
}

/// The body image of a single element is that element's wire image.
pub proof fn lemma_body_wire_one(e: InformationElementType)
    ensures
        body_wire(seq![e]) == e.wire(),
{
    assert(seq![e].drop_first() =~= Seq::<InformationElementType>::empty());
    assert(body_wire(Seq::<InformationElementType>::empty()) == Seq::<u8>::empty());
    assert(body_wire(seq![e]) == e.wire() + body_wire(seq![e].drop_first()));
    assert(e.wire() + Seq::<u8>::empty() =~= e.wire());
}

/// The body image of a pair of elements is the concatenation of their wire
/// images.
pub proof fn lemma_body_wire_two(e0: InformationElementType, e1: InformationElementType)
    ensures
        body_wire(seq![e0, e1]) == e0.wire() + e1.wire(),
{
    assert(seq![e0, e1].drop_first() =~= seq![e1]);
    lemma_body_wire_one(e1);
    assert(body_wire(seq![e0, e1]) == e0.wire() + body_wire(seq![e0, e1].drop_first()));
}

/// The body image of a triple of elements is the concatenation of their
/// wire images.
pub proof fn lemma_body_wire_three(
    e0: InformationElementType,
    e1: InformationElementType,
    e2: InformationElementType,
)
    ensures
        body_wire(seq![e0, e1, e2]) == e0.wire() + e1.wire() + e2.wire(),
{
    assert(seq![e0, e1, e2].drop_first() =~= seq![e1, e2]);
    lemma_body_wire_two(e1, e2);
    assert(body_wire(seq![e0, e1, e2]) == e0.wire() + body_wire(seq![e0, e1, e2].drop_first()));
    assert(e0.wire() + (e1.wire() + e2.wire()) =~= e0.wire() + e1.wire() + e2.wire());
}

/// The valid compositions of an MO message: a header, followed by at most
/// one payload and at most one location, in either order.
pub open spec fn mo_composition_ok(elems: Seq<InformationElementType>) -> bool {
    ||| (elems.len() == 1 && elems[0] is H)
    ||| (elems.len() == 2 && elems[0] is H && (elems[1] is P || elems[1] is L))
    ||| (elems.len() == 3 && elems[0] is H && ((elems[1] is P && elems[2] is L) || (elems[1] is L
        && elems[2] is P)))
}

/// Whether `b` begins with a well-formed MO envelope.
pub open spec fn mo_parses(b: Seq<u8>) -> bool {
    &&& b.len() >= 3
    &&& b[0] == 1
    &&& {
        let budget = be2v(b[1], b[2]) as int;
        let c = b.skip(3);
        &&& budget > 0
        &&& b.len() >= 4
        &&& b[3] == 0x01
        &&& Header::parses(c)
        &&& budget >= 31
        &&& (budget == 31 || {
            &&& c.len() >= 32
            &&& if c[31] == 0x02 {
                &&& Payload::parses(c.skip(31))
                &&& {
                    let pt = 3 + be2v(c[32], c[33]) as int;
                    &&& 31 + pt <= budget
                    &&& (31 + pt == budget || {
                        &&& c.len() >= 31 + pt + 1
                        &&& c[31 + pt] == 0x03
                        &&& Location::parses(c.skip(31 + pt))
                        &&& 31 + pt + 14 == budget
                    })
                }
            } else if c[31] == 0x03 {
                &&& Location::parses(c.skip(31))
                &&& 45 <= budget
                &&& (budget == 45 || {
                    &&& c.len() >= 46
                    &&& c[45] == 0x02
                    &&& Payload::parses(c.skip(45))
                    &&& 45 + 3 + be2v(c[46], c[47]) == budget
                })
            } else {
                false
            }
        })
    }
}

/// Whether `b` begins with a well-formed MO envelope whose location, if
/// any, carries no ignored orientation bit, so that re-encoding reproduces
/// the bytes.
pub open spec fn mo_canonical(b: Seq<u8>) -> bool {
    &&& mo_parses(b)
    &&& {
        let budget = be2v(b[1], b[2]) as int;
        let c = b.skip(3);
        budget > 31 ==> if c[31] == 0x02 {
            let pt = 3 + be2v(c[32], c[33]) as int;
            31 + pt < budget ==> c[31 + pt + 3] < 4
        } else {
            c[34] < 4
        }
    }
}

/// The error reported when `b` does not begin with a well-formed MO
/// envelope. (Arbitrary where `b` is well formed.)
pub open spec fn mo_parse_err(b: Seq<u8>) -> Error {
    if b.len() < 1 {
        Error::IO
    } else if b[0] != 1 {
        Error::ProtocolVersion(b[0])
    } else if b.len() < 3 {
        Error::IO
    } else {
        let budget = be2v(b[1], b[2]) as int;
        let c = b.skip(3);
        if budget == 0 {
            Error::WrongIEType(0x01, 0)
        } else if b.len() < 4 {
            Error::IO
        } else if b[3] != 0x01 {
            Error::WrongIEType(0x01, b[3])
        } else if !Header::parses(c) {
            Header::parse_err(c)
        } else if budget < 31 {
            Error::LengthMismatch
        } else if budget == 31 {
            Error::IO
        } else if c.len() < 32 {
            Error::IO
        } else if c[31] == 0x02 {
            if !Payload::parses(c.skip(31)) {
                Payload::parse_err(c.skip(31))
            } else {
                let pt = 3 + be2v(c[32], c[33]) as int;
                if 31 + pt > budget {
                    Error::LengthMismatch
                } else if 31 + pt == budget {
                    Error::IO
                } else if c.len() < 31 + pt + 1 {
                    Error::IO
                } else if c[31 + pt] != 0x03 {
                    Error::WrongIEType(0x03, c[31 + pt])
                } else if !Location::parses(c.skip(31 + pt)) {
                    Location::parse_err(c.skip(31 + pt))
                } else if 31 + pt + 14 > budget {
                    Error::LengthMismatch
                } else if 31 + pt + 14 < budget {
                    if c.len() < 31 + pt + 15 {
                        Error::IO
                    } else {
                        Error::WrongIEType(0x02, c[31 + pt + 14])
                    }
                } else {
                    Error::IO
                }
            }
        } else if c[31] == 0x03 {
            if !Location::parses(c.skip(31)) {
                Location::parse_err(c.skip(31))
            } else if 45 > budget {
                Error::LengthMismatch
            } else if 45 == budget {
                Error::IO
            } else if c.len() < 46 {
                Error::IO
            } else if c[45] != 0x02 {
                Error::WrongIEType(0x02, c[45])
            } else if !Payload::parses(c.skip(45)) {
                Payload::parse_err(c.skip(45))
            } else {
                let pt = 3 + be2v(c[46], c[47]) as int;
                if 45 + pt > budget {
                    Error::LengthMismatch
                } else if 45 + pt < budget {
                    if c.len() < 45 + pt + 1 {
                        Error::IO
                    } else {
                        Error::WrongIEType(0x02, c[45 + pt])
                    }
                } else {
                    Error::IO
                }
            }
        } else {
            Error::WrongIEType(0x02, c[31])
        }
    }
}

/// Whether `elems` is what decoding the MO envelope at the start of `b`
/// yields. (Meaningful when `mo_parses(b)` holds.)
pub open spec fn mo_decoded(b: Seq<u8>, elems: Seq<InformationElementType>) -> bool {
    let budget = be2v(b[1], b[2]) as int;
    let c = b.skip(3);
    &&& elems.len() >= 1
    &&& elems[0] is H
    &&& Header::decoded(c, elems[0]->H_0)
    &&& if budget == 31 {
        elems.len() == 1
    } else if c[31] == 0x02 {
        let pt = 3 + be2v(c[32], c[33]) as int;
        &&& elems.len() >= 2
        &&& elems[1] is P
        &&& Payload::decoded(c.skip(31), elems[1]->P_0)
        &&& if 31 + pt == budget {
            elems.len() == 2
        } else {
            &&& elems.len() == 3
            &&& elems[2] is L
            &&& Location::decoded(c.skip(31 + pt), elems[2]->L_0)
        }
    } else {
        &&& elems.len() >= 2
        &&& elems[1] is L
        &&& Location::decoded(c.skip(31), elems[1]->L_0)
        &&& if budget == 45 {
            elems.len() == 2
        } else {
            &&& elems.len() == 3
            &&& elems[2] is P
            &&& Payload::decoded(c.skip(45), elems[2]->P_0)
        }
    }
}

/// A Mobile Originated message: a well-composed, bounded sequence of MO
/// information elements.
#[derive(Debug)]
pub struct MOMessage {
    elements: Vec<InformationElementType>,
}

impl View for MOMessage {
    type V = Seq<InformationElementType>;

    closed spec fn view(&self) -> Seq<InformationElementType> {
        self.elements@
    }
}

impl MOMessage {
    /// Every MO message is well composed and all its elements respect
    /// their bounds.
    #[verifier::type_invariant]
    pub open spec fn wf(self) -> bool {
        mo_composition_ok(self@) && (forall|i: int| 0 <= i < self@.len() ==> self@[i].wf())
    }

    /// The exact byte string this message puts on the wire.
    pub open spec fn wire(self) -> Seq<u8> {
        msg_wire(self@)
    }

    /// Overall message length: the summed on-wire size of the elements.
    pub fn len(&self) -> (r: u16)
        ensures
            r == body_len(self@),
    {
        proof {
            use_type_invariant(&*self);
            lemma_mo_body_len_bound(self@);
        }
        let mut total: usize = 0;
        let n = self.elements.len();
        let mut i: usize = 0;
        while i < n
            invariant
                i <= n,
                n == self@.len(),
                mo_composition_ok(self@),
                forall|k: int| 0 <= k < self@.len() ==> self@[k].wf(),
                total == body_len(self@.take(i as int)),
                total <= body_len(self@),
                body_len(self@) <= 31 + 1963 + 14,
            decreases n - i,
        {
            proof {
                lemma_body_wire_take_step(self@, i as int);
                lemma_mo_element_wire_len(self@[i as int]);
                lemma_body_wire_concat(self@.take(i + 1), self@.skip(i + 1));
                assert(self@ =~= self@.take(i + 1) + self@.skip(i + 1));
            }
            total = total + self.elements[i].total_size();
            i = i + 1;
        }
        proof {
            assert(self@.take(n as int) =~= self@);
        }
        total as u16
    }

    /// Total on-wire size of the message: version byte, length field,
    /// elements.
    pub fn total_size(&self) -> (r: usize)
        ensures
            r == self.wire().len(),
    {
        proof {
            use_type_invariant(&*self);
            lemma_mo_body_len_bound(self@);
        }
        3 + self.len() as usize
    }

    /// Append the wire image of the message: version, overall length, then
    /// each element in stored order.
    pub fn write(&self, wtr: &mut Vec<u8>) -> (r: Result<usize, Error>)
        ensures
            final(wtr)@ == old(wtr)@ + self.wire(),
            r == Ok::<usize, Error>(self.wire().len() as usize),
    {
        proof {
            use_type_invariant(&*self);
            lemma_mo_body_len_bound(self@);
        }
        let ghost pre = wtr@;
        put_u8(wtr, 1);
        let length = self.len();
        put_u16(wtr, length);
        let n = self.elements.len();
        let mut i: usize = 0;
        let mut written: usize = 3;
        while i < n
            invariant
                i <= n,
                n == self@.len(),
                mo_composition_ok(self@),
                forall|k: int| 0 <= k < self@.len() ==> self@[k].wf(),
                wtr@ == pre + seq![1u8] + be2(body_len(self@) as u16) + body_wire(
                    self@.take(i as int),
                ),
                written == 3 + body_len(self@.take(i as int)),
                written <= 3 + body_len(self@),
                body_len(self@) <= 31 + 1963 + 14,
            decreases n - i,
        {
            proof {
                lemma_body_wire_take_step(self@, i as int);
                lemma_mo_element_wire_len(self@[i as int]);
                lemma_body_wire_concat(self@.take(i + 1), self@.skip(i + 1));
                assert(self@ =~= self@.take(i + 1) + self@.skip(i + 1));
            }
            let m = self.elements[i].write(wtr).unwrap();
            written = written + m;
            i = i + 1;
            assert(wtr@ =~= pre + seq![1u8] + be2(body_len(self@) as u16) + body_wire(
                self@.take(i as int),
            ));
        }
        proof {
            assert(self@.take(n as int) =~= self@);
            assert(wtr@ =~= pre + self.wire());
        }
        Ok(written)
    }

    /// The wire image of the message as a fresh vector.
    pub fn to_vec(&self) -> (r: Vec<u8>)
        ensures
            r@ == self.wire(),
    {
        let mut buffer: Vec<u8> = Vec::new();
        let _ = self.write(&mut buffer);
        buffer
    }

    /// Parse an MO envelope from the start of `buf`: version byte, overall
    /// length, then information elements up to exactly that length. Trailing
    /// bytes are ignored.
    pub fn from_reader(buf: &[u8]) -> (r: Result<MOMessage, Error>)
        ensures
            mo_parses(buf@) ==> r is Ok && mo_decoded(buf@, r->Ok_0@),
            !mo_parses(buf@) ==> r == Err::<MOMessage, Error>(mo_parse_err(buf@)),
    {
        if buf.len() < 1 {
            return Err(Error::IO);
        }
        if buf[0] != 1 {
            return Err(Error::ProtocolVersion(buf[0]));
        }
        if buf.len() < 3 {
            return Err(Error::IO);
        }
        let length = read_u16(buf, 1) as usize;
        if length == 0 {
            return Err(Error::WrongIEType(0x01, 0));
        }
        if buf.len() < 4 {
            return Err(Error::IO);
        }
        if buf[3] != 0x01 {
            return Err(Error::WrongIEType(0x01, buf[3]));
        }
        let c = slice_subrange(buf, 3, buf.len());
        proof {
            assert(c@ =~= buf@.skip(3));
        }
        let h = match Header::from_reader(c) {
            Ok(h) => h,
            Err(e) => {
                return Err(e);
            },
        };
        if length < 31 {
            return Err(Error::LengthMismatch);
        }
        if length == 31 {
            let mut elements: Vec<InformationElementType> = Vec::new();
            elements.push(InformationElementType::H(h));
            let m = MOMessage { elements };
            proof {
                assert(m@ =~= seq![InformationElementType::H(h)]);
            }
            return Ok(m);
        }
        if c.len() < 32 {
            return Err(Error::IO);
        }
        if c[31] == 0x02 {
            let d = slice_subrange(c, 31, c.len());
            proof {
                assert(d@ =~= buf@.skip(3).skip(31));
            }
            let p = match Payload::from_reader(d) {
                Ok(p) => p,
                Err(e) => {
                    return Err(e);
                },
            };
            let pt = p.total_size();
            if 31 + pt > length {
                return Err(Error::LengthMismatch);
            }
            if 31 + pt == length {
                let mut elements: Vec<InformationElementType> = Vec::new();
                elements.push(InformationElementType::H(h));
                elements.push(InformationElementType::P(p));
                let m = MOMessage { elements };
                proof {
                    assert(m@ =~= seq![
                        InformationElementType::H(h),
                        InformationElementType::P(p),
                    ]);
                }
                return Ok(m);
            }
            if c.len() < 31 + pt + 1 {
                return Err(Error::IO);
            }
            if c[31 + pt] != 0x03 {
                return Err(Error::WrongIEType(0x03, c[31 + pt]));
            }
            let e = slice_subrange(c, 31 + pt, c.len());
            proof {
                assert(e@ =~= buf@.skip(3).skip(31 + pt as int));
            }
            let l = match Location::from_reader(e) {
                Ok(l) => l,
                Err(e) => {
                    return Err(e);
                },
            };
            if 31 + pt + 14 > length {
                return Err(Error::LengthMismatch);
            }
            if 31 + pt + 14 < length {
                if c.len() < 31 + pt + 15 {
                    return Err(Error::IO);
                }
                return Err(Error::WrongIEType(0x02, c[31 + pt + 14]));
            }
            let mut elements: Vec<InformationElementType> = Vec::new();
            elements.push(InformationElementType::H(h));
            elements.push(InformationElementType::P(p));
            elements.push(InformationElementType::L(l));
            let m = MOMessage { elements };
            proof {
                assert(m@ =~= seq![
                    InformationElementType::H(h),
                    InformationElementType::P(p),
                    InformationElementType::L(l),
                ]);
            }
            Ok(m)
        } else if c[31] == 0x03 {
            let d = slice_subrange(c, 31, c.len());
            proof {
                assert(d@ =~= buf@.skip(3).skip(31));
            }
            let l = match Location::from_reader(d) {
                Ok(l) => l,
                Err(e) => {
                    return Err(e);
                },
            };
            if 45 > length {
                return Err(Error::LengthMismatch);
            }
            if 45 == length {
                let mut elements: Vec<InformationElementType> = Vec::new();
                elements.push(InformationElementType::H(h));
                elements.push(InformationElementType::L(l));
                let m = MOMessage { elements };
                proof {
                    assert(m@ =~= seq![
                        InformationElementType::H(h),
                        InformationElementType::L(l),
                    ]);
                }
                return Ok(m);
            }
            if c.len() < 46 {
                return Err(Error::IO);
            }
            if c[45] != 0x02 {
                return Err(Error::WrongIEType(0x02, c[45]));
            }
            let e = slice_subrange(c, 45, c.len());
            proof {
                assert(e@ =~= buf@.skip(3).skip(45));
            }
            let p = match Payload::from_reader(e) {
                Ok(p) => p,
                Err(e) => {
                    return Err(e);
                },
            };
            let pt = p.total_size();
            if 45 + pt > length {
                return Err(Error::LengthMismatch);
            }
            if 45 + pt < length {
                if c.len() < 45 + pt + 1 {
                    return Err(Error::IO);
                }
                return Err(Error::WrongIEType(0x02, c[45 + pt]));
            }
            let mut elements: Vec<InformationElementType> = Vec::new();
            elements.push(InformationElementType::H(h));
            elements.push(InformationElementType::L(l));
            elements.push(InformationElementType::P(p));
            let m = MOMessage { elements };
            proof {
                assert(m@ =~= seq![
                    InformationElementType::H(h),
                    InformationElementType::L(l),
                    InformationElementType::P(p),
                ]);
            }
            Ok(m)
        } else {
            Err(Error::WrongIEType(0x02, c[31]))
        }
    }

    /// The header element of the message.
    pub fn header(&self) -> (r: Option<&Header>)
        ensures
            match r {
                Some(h) => self@[0] == InformationElementType::H(*h),
                None => forall|i: int| 0 <= i < self@.len() ==> !(self@[i] is H),
            },
    {
        proof {
            use_type_invariant(&*self);
        }
        match &self.elements[0] {
            InformationElementType::H(h) => Some(h),
            _ => None,
        }
    }

    /// The IMEI of the message, taken from its header.
    pub fn imei(&self) -> (r: Option<[u8; 15]>)
        ensures
            match self@[0] {
                InformationElementType::H(h) => r == Some(h.imei),
                _ => r is None,
            },
    {
        proof {
            use_type_invariant(&*self);
        }
        match self.header() {
            Some(h) => Some(h.imei()),
            None => None,
        }
    }
}

/// Whether two MO elements are the same element: the same variant with the
/// same fields, payload bodies compared by content.
pub open spec fn ie_eq(a: InformationElementType, b: InformationElementType) -> bool {
    match (a, b) {
        (InformationElementType::H(x), InformationElementType::H(y)) => x == y,
        (InformationElementType::P(x), InformationElementType::P(y)) => x.payload@ == y.payload@,
        (InformationElementType::L(x), InformationElementType::L(y)) => x == y,
        _ => false,
    }
}

/// Whether two MO element sequences are the same, element by element.
pub open spec fn elements_eq(a: Seq<InformationElementType>, b: Seq<InformationElementType>) -> bool {
    a.len() == b.len() && (forall|i: int| 0 <= i < a.len() ==> ie_eq(a[i], b[i]))
}

/// Round trip of the MO envelope, value direction: the wire image of every
/// well-composed element sequence parses, and decodes back to that very
/// sequence. Together with [`lemma_mo_decoded_unique`] this pins the result
/// of decoding an encoded message down to every field.
#[verifier::rlimit(100)]
pub proof fn lemma_mo_message_roundtrip(elems: Seq<InformationElementType>)
    requires
        mo_composition_ok(elems),
        forall|i: int| 0 <= i < elems.len() ==> elems[i].wf(),
    ensures
        mo_parses(msg_wire(elems)),
        mo_decoded(msg_wire(elems), elems),
        msg_wire(elems).len() == 3 + body_len(elems),
{
    let b = msg_wire(elems);
    let c = b.skip(3);
    let h = elems[0]->H_0;
    lemma_mo_body_len_bound(elems);
    crate::bytes::lemma_be2v_of_be2(body_len(elems) as u16);
    assert(c =~= body_wire(elems));
    header::lemma_mo_header_roundtrip(h);
    if elems.len() == 1 {
        assert(elems =~= seq![elems[0]]);
        lemma_body_wire_one(elems[0]);
        assert(c =~= h.wire());
        assert(b[3] == c[0]);
        assert(c.subrange(7, 22) =~= h.wire().subrange(7, 22));
    } else if elems.len() == 2 {
        assert(elems =~= seq![elems[0], elems[1]]);
        lemma_body_wire_two(elems[0], elems[1]);
        assert(c =~= h.wire() + elems[1].wire());
        assert(b[3] == c[0]);
        assert(c.subrange(7, 22) =~= h.wire().subrange(7, 22));
        assert(c.skip(31) =~= elems[1].wire());
        if elems[1] is P {
            let p = elems[1]->P_0;
            payload::lemma_mo_payload_roundtrip(p);
        } else {
            let l = elems[1]->L_0;
            location::lemma_mo_location_roundtrip(l);
        }
    } else {
        assert(elems =~= seq![elems[0], elems[1], elems[2]]);
        lemma_body_wire_three(elems[0], elems[1], elems[2]);
        assert(c =~= h.wire() + elems[1].wire() + elems[2].wire());
        assert(b[3] == c[0]);
        assert(c.subrange(7, 22) =~= h.wire().subrange(7, 22));
        if elems[1] is P {
            let p = elems[1]->P_0;
            let l = elems[2]->L_0;
            payload::lemma_mo_payload_roundtrip(p);
            location::lemma_mo_location_roundtrip(l);
            let pt = 3 + p.payload@.len() as int;
            assert(c.skip(31) =~= p.wire() + l.wire());
            assert(c.skip(31 + pt) =~= l.wire());
            assert(c[32] == p.wire()[1] && c[33] == p.wire()[2]);
            assert(c.skip(31).subrange(3, pt) =~= p.wire().subrange(3, pt));
        } else {
            let l = elems[1]->L_0;
            let p = elems[2]->P_0;
            location::lemma_mo_location_roundtrip(l);
            payload::lemma_mo_payload_roundtrip(p);
            assert(c.skip(31) =~= l.wire() + p.wire());
            assert(c.skip(45) =~= p.wire());
            assert(c[46] == p.wire()[1] && c[47] == p.wire()[2]);
        }
    }
}

/// Decoding is unambiguous: two element sequences decoded from the same MO
/// envelope are the same sequence.
pub proof fn lemma_mo_decoded_unique(
    b: Seq<u8>,
    e1: Seq<InformationElementType>,
    e2: Seq<InformationElementType>,
)
    requires
        mo_parses(b),
        mo_decoded(b, e1),
        mo_decoded(b, e2),
    ensures
        elements_eq(e1, e2),
{
    let h1 = e1[0]->H_0;
    let h2 = e2[0]->H_0;
    assert(h1.imei@ =~= h2.imei@);
    assert(h1.imei =~= h2.imei);
    assert(forall|i: int| 1 <= i < e1.len() ==> ie_eq(e1[i], e2[i]));
}

/// Round trip of the MO envelope, byte direction: re-encoding a decoded
/// envelope reproduces exactly the bytes that were consumed, for every
/// canonical input (one whose location, if any, carries no ignored
/// orientation bit).
#[verifier::rlimit(100)]
pub proof fn lemma_mo_message_reencode(b: Seq<u8>, elems: Seq<InformationElementType>)
    requires
        mo_canonical(b),
        mo_decoded(b, elems),
    ensures
        msg_wire(elems) == b.subrange(0, 3 + be2v(b[1], b[2])),
{
    let budget = be2v(b[1], b[2]) as int;
    let c = b.skip(3);
    let h = elems[0]->H_0;
    crate::bytes::lemma_be2_of_be2v(b[1], b[2]);
    header::lemma_mo_header_reencode(c, h);
    if budget == 31 {
        assert(elems =~= seq![elems[0]]);
        lemma_body_wire_one(elems[0]);
        assert(body_wire(elems) =~= c.subrange(0, 31));
        assert(msg_wire(elems) =~= b.subrange(0, 3 + budget));
    } else if c[31] == 0x02 {
        let p = elems[1]->P_0;
        let pt = 3 + be2v(c[32], c[33]) as int;
        assert(c.skip(31)[1] == c[32] && c.skip(31)[2] == c[33]);
        payload::lemma_mo_payload_reencode(c.skip(31), p);
        if 31 + pt == budget {
            assert(elems =~= seq![elems[0], elems[1]]);
            lemma_body_wire_two(elems[0], elems[1]);
            assert(p.wire() == c.skip(31).subrange(0, pt));
            assert(body_wire(elems) =~= c.subrange(0, budget));
            assert(msg_wire(elems) =~= b.subrange(0, 3 + budget));
        } else {
            let l = elems[2]->L_0;
            location::lemma_mo_location_reencode(c.skip(31 + pt), l);
            assert(elems =~= seq![elems[0], elems[1], elems[2]]);
            lemma_body_wire_three(elems[0], elems[1], elems[2]);
            assert(p.wire() == c.skip(31).subrange(0, pt));
            assert(l.wire() == c.skip(31 + pt).subrange(0, 14));
            assert(body_wire(elems) =~= c.subrange(0, budget));
            assert(msg_wire(elems) =~= b.subrange(0, 3 + budget));
        }
    } else {
        let l = elems[1]->L_0;
        location::lemma_mo_location_reencode(c.skip(31), l);
        if budget == 45 {
            assert(elems =~= seq![elems[0], elems[1]]);
            lemma_body_wire_two(elems[0], elems[1]);
            assert(l.wire() == c.skip(31).subrange(0, 14));
            assert(body_wire(elems) =~= c.subrange(0, budget));
            assert(msg_wire(elems) =~= b.subrange(0, 3 + budget));
        } else {
            let p = elems[2]->P_0;
            let pt = 3 + be2v(c[46], c[47]) as int;
            assert(c.skip(45)[1] == c[46] && c.skip(45)[2] == c[47]);
            payload::lemma_mo_payload_reencode(c.skip(45), p);
            assert(elems =~= seq![elems[0], elems[1], elems[2]]);
            lemma_body_wire_three(elems[0], elems[1], elems[2]);
            assert(l.wire() == c.skip(31).subrange(0, 14));
            assert(p.wire() == c.skip(45).subrange(0, pt));
            assert(body_wire(elems) =~= c.subrange(0, budget));
            assert(msg_wire(elems) =~= b.subrange(0, 3 + budget));
        }
    }
}

/// Length consistency: in every encoded MO message, the second and third
/// bytes, read as a big-endian `u16`, are the summed on-wire size of the
/// elements that follow.
pub proof fn lemma_mo_length_consistency(elems: Seq<InformationElementType>)
    requires
        mo_composition_ok(elems),
        forall|i: int| 0 <= i < elems.len() ==> elems[i].wf(),
    ensures
        be2v(msg_wire(elems)[1], msg_wire(elems)[2]) == body_len(elems),
        msg_wire(elems).skip(3) == body_wire(elems),
{
    lemma_mo_body_len_bound(elems);
    crate::bytes::lemma_be2v_of_be2(body_len(elems) as u16);
    assert(msg_wire(elems).skip(3) =~= body_wire(elems));
}

/// The on-wire size of each MO element: 31 for a header, 14 for a location,
/// `3 + n` for a payload of `n` bytes.
pub proof fn lemma_mo_element_wire_len(e: InformationElementType)
    ensures
        e is H ==> e.wire().len() == 31,
        e is L ==> e.wire().len() == 14,
        e is P ==> e.wire().len() == 3 + e->P_0.payload@.len(),
        e.wire().len() >= 3,
{
}

/// A well-composed MO body never exceeds the length of a header, a maximal
/// payload and a location.
pub proof fn lemma_mo_body_len_bound(elems: Seq<InformationElementType>)
    requires
        mo_composition_ok(elems),
        forall|i: int| 0 <= i < elems.len() ==> elems[i].wf(),
    ensures
        3 <= body_len(elems) <= 31 + 1963 + 14,
{
    if elems.len() == 1 {
        assert(elems =~= seq![elems[0]]);
        lemma_body_wire_one(elems[0]);
        lemma_mo_element_wire_len(elems[0]);
    } else if elems.len() == 2 {
        assert(elems =~= seq![elems[0], elems[1]]);
        lemma_body_wire_two(elems[0], elems[1]);
        lemma_mo_element_wire_len(elems[0]);
        lemma_mo_element_wire_len(elems[1]);
    } else {
        assert(elems =~= seq![elems[0], elems[1], elems[2]]);
        lemma_body_wire_three(elems[0], elems[1], elems[2]);
        lemma_mo_element_wire_len(elems[0]);
        lemma_mo_element_wire_len(elems[1]);
        lemma_mo_element_wire_len(elems[2]);
    }
}

/// Appending one element extends the body image by that element's wire
/// image.
pub proof fn lemma_body_wire_take_step(s: Seq<InformationElementType>, i: int)
    requires
        0 <= i < s.len(),
    ensures
        body_wire(s.take(i + 1)) == body_wire(s.take(i)) + s[i].wire(),
{
    assert(s.take(i + 1) =~= s.take(i) + seq![s[i]]);
    lemma_body_wire_concat(s.take(i), seq![s[i]]);
    lemma_body_wire_one(s[i]);
}

} // verus!
