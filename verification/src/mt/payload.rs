//! Mobile Terminated payload element.
//!
//! Identifier `0x42`, variable body of 0 to 1890 raw bytes.

use vstd::prelude::*;
use vstd::slice::{slice_subrange, slice_to_vec};

use crate::bytes::{be2, be2v, put_bytes, put_u16, put_u8, read_u16};
use crate::error::Error;

verus! {

/// Maximum accepted MT payload length defined by the Direct-IP protocol.
pub const MAX_PAYLOAD_LEN: usize = 1890;

/// Mobile Terminated payload: raw bytes handed to the destination modem.
#[derive(Clone, Debug, PartialEq, Eq)]
pub struct Payload {
    pub payload: Vec<u8>,
}

impl Payload {
    /// Whether the payload respects the protocol maximum.
    pub open spec fn wf(self) -> bool {
        self.payload@.len() <= 1890
    }

    /// The exact byte string this element puts on the wire.
    pub open spec fn wire(self) -> Seq<u8> {
        seq![0x42u8] + be2(self.payload@.len() as u16) + self.payload@
    }

    /// Whether `b` begins with a well-formed MT payload element.
    pub open spec fn parses(b: Seq<u8>) -> bool {
        b.len() >= 3 && b[0] == 0x42 && be2v(b[1], b[2]) <= 1890 && b.len() >= 3 + be2v(b[1], b[2])
    }

    /// The error reported when `b` does not begin with a well-formed MT
    /// payload element.
    pub open spec fn parse_err(b: Seq<u8>) -> Error {
        if b.len() < 1 {
            Error::IO
        } else if b[0] != 0x42 {
            Error::WrongIEType(0x42, b[0])
        } else if b.len() < 3 {
            Error::IO
        } else if be2v(b[1], b[2]) > 1890 {
            Error::PayloadOversize(be2v(b[1], b[2]) as usize, 1890)
        } else {
            Error::IO
        }
    }

    /// MT payload identifier.
    pub fn identifier(&self) -> (r: u8)
        ensures
            r == 0x42,
    {
        0x42
    }

    /// Body length in bytes.
    pub fn len(&self) -> (r: u16)
        requires
            self.wf(),
        ensures
            r == self.payload@.len(),
    {
        self.payload.len() as u16
    }

    /// Total on-wire size: identifier, length field, body.
    pub fn total_size(&self) -> (r: usize)
        requires
            self.wf(),
        ensures
            r == 3 + self.payload@.len(),
    {
        3 + self.payload.len()
    }

    /// Append the wire image of this element; rejects an oversized payload
    /// and then writes nothing.
    pub fn write(&self, wtr: &mut Vec<u8>) -> (r: Result<usize, Error>)
        ensures
            self.wf() ==> final(wtr)@ == old(wtr)@ + self.wire() && r == Ok::<usize, Error>(
                (3 + self.payload@.len()) as usize,
            ),
            !self.wf() ==> final(wtr)@ == old(wtr)@ && r == Err::<usize, Error>(
                Error::PayloadOversize(self.payload@.len() as usize, 1890),
            ),
    {
        if self.payload.len() > MAX_PAYLOAD_LEN {
            return Err(Error::PayloadOversize(self.payload.len(), MAX_PAYLOAD_LEN));
        }
        let ghost pre = wtr@;
        put_u8(wtr, 0x42);
        put_u16(wtr, self.payload.len() as u16);
        put_bytes(wtr, self.payload.as_slice());
        assert(wtr@ =~= pre + self.wire());
        Ok(3 + self.payload.len())
    }

    /// The wire image of this element as a fresh vector.
    pub fn to_vec(&self) -> (r: Vec<u8>)
        requires
            self.wf(),
        ensures
            r@ == self.wire(),
    {
        let mut buffer: Vec<u8> = Vec::new();
        let _ = self.write(&mut buffer);
        buffer
    }

    /// Whether the payload `p` is what decoding the start of `b` yields.
    pub open spec fn decoded(b: Seq<u8>, p: Payload) -> bool {
        p.payload@ == b.subrange(3, 3 + be2v(b[1], b[2]))
    }

    /// Parse an MT payload from the start of `buf`. Trailing bytes are
    /// ignored; exactly `3 + declared length` bytes are read on success.
    pub fn from_reader(buf: &[u8]) -> (r: Result<Payload, Error>)
        ensures
            Self::parses(buf@) ==> r is Ok && Self::decoded(buf@, r->Ok_0) && r->Ok_0.wf(),
            !Self::parses(buf@) ==> r == Err::<Payload, Error>(Self::parse_err(buf@)),
    {
        if buf.len() < 1 {
            return Err(Error::IO);
        }
        if buf[0] != 0x42 {
            return Err(Error::WrongIEType(0x42, buf[0]));
        }
        if buf.len() < 3 {
            return Err(Error::IO);
        }
        let n = read_u16(buf, 1);
        if n > MAX_PAYLOAD_LEN as u16 {
            return Err(Error::PayloadOversize(n as usize, MAX_PAYLOAD_LEN));
        }
        if buf.len() < 3 + n as usize {
            return Err(Error::IO);
        }
        let body = slice_subrange(buf, 3, 3 + n as usize);
        Ok(Payload { payload: slice_to_vec(body) })
    }

    /// A builder with the payload unset.
    pub fn builder() -> (r: PayloadBuilder)
        ensures
            r == (PayloadBuilder { payload: None::<Vec<u8>> }),
    {
        PayloadBuilder { payload: None }
    }
}

/// Builder for [`Payload`]: the payload bytes are required and must not
/// exceed the protocol maximum.
#[derive(Clone, Debug)]
pub struct PayloadBuilder {
    pub payload: Option<Vec<u8>>,
}

impl PayloadBuilder {
    /// A builder with the payload unset.
    pub fn default() -> (r: PayloadBuilder)
        ensures
            r == (PayloadBuilder { payload: None::<Vec<u8>> }),
    {
        PayloadBuilder { payload: None }
    }

    /// Set the payload bytes.
    pub fn payload(self, payload: Vec<u8>) -> (r: PayloadBuilder)
        ensures
            r == (PayloadBuilder { payload: Some(payload) }),
    {
        PayloadBuilder { payload: Some(payload) }
    }

    /// Build the payload element: rejects an unset or oversized payload.
    pub fn build(self) -> (r: Result<Payload, Error>)
        ensures
            self.payload is None ==> r == Err::<Payload, Error>(
                Error::UninitializedField("payload"),
            ),
            self.payload is Some && self.payload->0@.len() > 1890 ==> r == Err::<Payload, Error>(
                Error::PayloadOversize(self.payload->0@.len() as usize, 1890),
            ),
            self.payload is Some && self.payload->0@.len() <= 1890 ==> r == Ok::<Payload, Error>(
                Payload { payload: self.payload->0 },
            ) && r->Ok_0.wf(),
    {
        match self.payload {
            None => Err(Error::UninitializedField("payload")),
            Some(payload) => {
                if payload.len() > MAX_PAYLOAD_LEN {
                    Err(Error::PayloadOversize(payload.len(), MAX_PAYLOAD_LEN))
                } else {
                    Ok(Payload { payload })
                }
            },
        }
    }
}

/// Round trip of the MT payload: the wire image of a well-formed payload
/// parses, and the body read back is the payload it was built from.
pub proof fn lemma_mt_payload_roundtrip(p: Payload)
    requires
        p.wf(),
    ensures
        Payload::parses(p.wire()),
        p.wire().len() == 3 + p.payload@.len(),
        be2v(p.wire()[1], p.wire()[2]) == p.payload@.len(),
        Payload::decoded(p.wire(), p),
{
    crate::bytes::lemma_be2v_of_be2(p.payload@.len() as u16);
    assert(p.wire().subrange(3, 3 + p.payload@.len() as int) =~= p.payload@);
}

/// A decoded MT payload re-encodes to the very bytes it was decoded from.
pub proof fn lemma_mt_payload_reencode(b: Seq<u8>, p: Payload)
    requires
        Payload::parses(b),
        Payload::decoded(b, p),
    ensures
        p.wire() == b.subrange(0, 3 + be2v(b[1], b[2])),
{
    crate::bytes::lemma_be2_of_be2v(b[1], b[2]);
    assert(p.wire() =~= b.subrange(0, 3 + be2v(b[1], b[2])));
}

} // verus!
