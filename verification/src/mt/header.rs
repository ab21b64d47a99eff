//! Mobile Terminated header element.
//!
//! The MT header is the information element that opens a client submission.
//! Identifier `0x41`, fixed body of 21 bytes: a 4-byte client message id, the
//! 15-byte IMEI, and a 2-byte field of disposition flags.

use vstd::prelude::*;

use crate::bytes::{be2, be2v, be4, be4v, put_u16, put_u32, put_u8, put_bytes, read_arr15, read_u16, read_u32};
use crate::error::Error;

verus! {

/// Disposition flags of an MT submission.
///
/// Five independent booleans packed into a big-endian `u16`:
/// `flush_queue` (bit 0), `send_ring_alert` (bit 1), `update_location`
/// (bit 3), `high_priority` (bit 4), `assign_mtmsn` (bit 5). Bit 2 is
/// reserved: it is always emitted as zero and ignored on decode, as are
/// bits 6 and above.
#[derive(Clone, Copy, Debug, PartialEq, Eq)]
pub struct DispositionFlags {
    pub flush_queue: bool,
    pub send_ring_alert: bool,
    pub update_location: bool,
    pub high_priority: bool,
    pub assign_mtmsn: bool,
}

/// 1 for a set flag, 0 for a clear one.
pub open spec fn bit(b: bool) -> u16 {
    if b {
        1
    } else {
        0
    }
}

impl DispositionFlags {
    /// The `u16` wire image of the flags. At most `0x3B`, so every
    /// reserved bit is zero.
    pub open spec fn spec_encode(self) -> u16 {
        (32 * bit(self.assign_mtmsn) + 16 * bit(self.high_priority) + 8 * bit(
            self.update_location,
        ) + 2 * bit(self.send_ring_alert) + bit(self.flush_queue)) as u16
    }

    /// The flags denoted by a `u16` wire field; bit 2 and bits 6 and
    /// above are ignored.
    pub open spec fn spec_decode(code: u16) -> DispositionFlags {
        DispositionFlags {
            flush_queue: code % 2 == 1,
            send_ring_alert: (code / 2) % 2 == 1,
            update_location: (code / 8) % 2 == 1,
            high_priority: (code / 16) % 2 == 1,
            assign_mtmsn: (code / 32) % 2 == 1,
        }
    }

    /// Decode a `u16` into a `DispositionFlags`.
    pub fn decode(code: u16) -> (r: DispositionFlags)
        ensures
            r == Self::spec_decode(code),
    {
        DispositionFlags {
            flush_queue: code % 2 == 1,
            send_ring_alert: (code / 2) % 2 == 1,
            update_location: (code / 8) % 2 == 1,
            high_priority: (code / 16) % 2 == 1,
            assign_mtmsn: (code / 32) % 2 == 1,
        }
    }

    /// Encode the flags into a `u16`.
    pub fn encode(&self) -> (r: u16)
        ensures
            r == self.spec_encode(),
    {
        let a: u16 = if self.assign_mtmsn {
            32
        } else {
            0
        };
        let h: u16 = if self.high_priority {
            16
        } else {
            0
        };
        let u: u16 = if self.update_location {
            8
        } else {
            0
        };
        let s: u16 = if self.send_ring_alert {
            2
        } else {
            0
        };
        let f: u16 = if self.flush_queue {
            1
        } else {
            0
        };
        a + h + u + s + f
    }

    /// Parse a `DispositionFlags` from the first two bytes of `buf`.
    pub fn from_reader(buf: &[u8]) -> (r: Result<DispositionFlags, Error>)
        ensures
            buf@.len() >= 2 ==> r == Ok::<DispositionFlags, Error>(
                Self::spec_decode(be2v(buf@[0], buf@[1])),
            ),
            buf@.len() < 2 ==> r == Err::<DispositionFlags, Error>(Error::IO),
    {
        if buf.len() < 2 {
            return Err(Error::IO);
        }
        let code = read_u16(buf, 0);
        Ok(DispositionFlags::decode(code))
    }
}

impl Default for DispositionFlags {
    /// All flags off.
    fn default() -> (r: DispositionFlags)
        ensures
            r == (DispositionFlags {
                flush_queue: false,
                send_ring_alert: false,
                update_location: false,
                high_priority: false,
                assign_mtmsn: false,
            }),
    {
        DispositionFlags {
            flush_queue: false,
            send_ring_alert: false,
            update_location: false,
            high_priority: false,
            assign_mtmsn: false,
        }
    }
}

/// Mobile Terminated header.
///
/// Identifier `0x41`, body length 21, total wire size 24 bytes.
///
/// * `client_msg_id`: 4-byte id chosen by the client; echoed in the
///   confirmation, and taken as the MTMSN when `assign_mtmsn` is set.
/// * `imei`: 15 ASCII decimal bytes identifying the destination modem.
/// * `disposition_flags`: see [`DispositionFlags`].
#[derive(Clone, Copy, Debug, PartialEq, Eq)]
pub struct Header {
    pub client_msg_id: u32,
    pub imei: [u8; 15],
    pub disposition_flags: DispositionFlags,
}

impl Header {
    /// MT header identifier.
    pub fn identifier(&self) -> (r: u8)
        ensures
            r == 0x41,
    {
        0x41
    }

    /// Body length: fixed for the header, kept for consistency with the
    /// variable-size elements.
    pub fn len(&self) -> (r: u16)
        ensures
            r == 21,
    {
        21
    }

    /// Total on-wire size: identifier, length field, body.
    pub fn total_size(&self) -> (r: usize)
        ensures
            r == 24,
    {
        24
    }

    /// The exact byte string this header puts on the wire.
    pub open spec fn wire(self) -> Seq<u8> {
        seq![0x41u8] + be2(21) + be4(self.client_msg_id) + self.imei@ + be2(
            self.disposition_flags.spec_encode(),
        )
    }

    /// Whether `b` begins with a well-formed MT header element.
    pub open spec fn parses(b: Seq<u8>) -> bool {
        b.len() >= 24 && b[0] == 0x41 && be2v(b[1], b[2]) == 21
    }

    /// Whether `b` begins with an MT header whose flags field carries no
    /// ignored bit, so that decoding and re-encoding reproduces the bytes.
    pub open spec fn canonical(b: Seq<u8>) -> bool {
        Self::parses(b) && be2v(b[22], b[23]) < 64 && (be2v(b[22], b[23]) / 4) % 2 == 0
    }

    /// The error reported when `b` does not begin with a well-formed MT
    /// header element.
    pub open spec fn parse_err(b: Seq<u8>) -> Error {
        if b.len() < 1 {
            Error::IO
        } else if b[0] != 0x41 {
            Error::WrongIEType(0x41, b[0])
        } else if b.len() < 3 {
            Error::IO
        } else if be2v(b[1], b[2]) != 21 {
            Error::InvalidLength(21, be2v(b[1], b[2]))
        } else {
            Error::IO
        }
    }

    /// Append the wire image of this header: identifier, length, body.
    pub fn write(&self, wtr: &mut Vec<u8>) -> (r: Result<usize, Error>)
        ensures
            final(wtr)@ == old(wtr)@ + self.wire(),
            r == Ok::<usize, Error>(24),
    {
        let ghost pre = wtr@;
        put_u8(wtr, 0x41);
        put_u16(wtr, 21);
        put_u32(wtr, self.client_msg_id);
        put_bytes(wtr, self.imei.as_slice());
        put_u16(wtr, self.disposition_flags.encode());
        assert(wtr@ =~= pre + self.wire());
        Ok(24)
    }

    /// The wire image of this header as a fresh vector.
    pub fn to_vec(&self) -> (r: Vec<u8>)
        ensures
            r@ == self.wire(),
    {
        let mut buffer: Vec<u8> = Vec::new();
        let _ = self.write(&mut buffer);
        buffer
    }

    /// Whether the header `h` is what decoding the start of `b` yields.
    pub open spec fn decoded(b: Seq<u8>, h: Header) -> bool {
        &&& h.client_msg_id == be4v(b[3], b[4], b[5], b[6])
        &&& h.imei@ == b.subrange(7, 22)
        &&& h.disposition_flags == DispositionFlags::spec_decode(be2v(b[22], b[23]))
    }

    /// Parse an MT header from the start of `buf`. Trailing bytes are
    /// ignored; exactly 24 bytes are read on success.
    pub fn from_reader(buf: &[u8]) -> (r: Result<Header, Error>)
        ensures
            Self::parses(buf@) ==> r is Ok && Self::decoded(buf@, r->Ok_0),
            !Self::parses(buf@) ==> r == Err::<Header, Error>(Self::parse_err(buf@)),
    {
        if buf.len() < 1 {
            return Err(Error::IO);
        }
        let iei = buf[0];
        if iei != 0x41 {
            return Err(Error::WrongIEType(0x41, iei));
        }
        if buf.len() < 3 {
            return Err(Error::IO);
        }
        let len = read_u16(buf, 1);
        if len != 21 {
            return Err(Error::InvalidLength(21, len));
        }
        if buf.len() < 24 {
            return Err(Error::IO);
        }
        let client_msg_id = read_u32(buf, 3);
        let imei = read_arr15(buf, 7);
        let code = read_u16(buf, 22);
        Ok(Header { client_msg_id, imei, disposition_flags: DispositionFlags::decode(code) })
    }

    /// The `client_msg_id` field.
    pub fn client_msg_id(&self) -> (r: u32)
        ensures
            r == self.client_msg_id,
    {
        self.client_msg_id
    }

    /// The `imei` field.
    pub fn imei(&self) -> (r: [u8; 15])
        ensures
            r == self.imei,
    {
        self.imei
    }

    /// The `disposition_flags` field.
    pub fn disposition_flags(&self) -> (r: DispositionFlags)
        ensures
            r == self.disposition_flags,
    {
        self.disposition_flags
    }

    /// A builder with every field unset.
    pub fn builder() -> (r: HeaderBuilder)
        ensures
            r == HeaderBuilder::spec_default(),
    {
        HeaderBuilder::default()
    }
}

/// Builder for [`Header`]: `client_msg_id` and `imei` are required,
/// `disposition_flags` defaults to all-off.
#[derive(Clone, Debug)]
pub struct HeaderBuilder {
    pub client_msg_id: Option<u32>,
    pub imei: Option<[u8; 15]>,
    pub disposition_flags: Option<DispositionFlags>,
}

impl HeaderBuilder {
    /// A builder with every field unset.
    pub open spec fn spec_default() -> HeaderBuilder {
        HeaderBuilder { client_msg_id: None, imei: None, disposition_flags: None }
    }

    /// A builder with every field unset.
    pub fn default() -> (r: HeaderBuilder)
        ensures
            r == Self::spec_default(),
    {
        HeaderBuilder { client_msg_id: None, imei: None, disposition_flags: None }
    }

    /// Set the client message id.
    pub fn client_msg_id(self, client_msg_id: u32) -> (r: HeaderBuilder)
        ensures
            r == (HeaderBuilder { client_msg_id: Some(client_msg_id), ..self }),
    {
        HeaderBuilder { client_msg_id: Some(client_msg_id), ..self }
    }

    /// Set the IMEI.
    pub fn imei(self, imei: [u8; 15]) -> (r: HeaderBuilder)
        ensures
            r == (HeaderBuilder { imei: Some(imei), ..self }),
    {
        HeaderBuilder { imei: Some(imei), ..self }
    }

    /// Set the disposition flags.
    pub fn disposition_flags(self, disposition_flags: DispositionFlags) -> (r: HeaderBuilder)
        ensures
            r == (HeaderBuilder { disposition_flags: Some(disposition_flags), ..self }),
    {
        HeaderBuilder { disposition_flags: Some(disposition_flags), ..self }
    }

    /// Build the header. Fails on the first unset required field.
    pub fn build(self) -> (r: Result<Header, Error>)
        ensures
            self.client_msg_id is None ==> r == Err::<Header, Error>(
                Error::UninitializedField("client_msg_id"),
            ),
            self.client_msg_id is Some && self.imei is None ==> r == Err::<Header, Error>(
                Error::UninitializedField("imei"),
            ),
            self.client_msg_id is Some && self.imei is Some ==> r == Ok::<Header, Error>(
                Header {
                    client_msg_id: self.client_msg_id->0,
                    imei: self.imei->0,
                    disposition_flags: if self.disposition_flags is Some {
                        self.disposition_flags->0
                    } else {
                        DispositionFlags {
                            flush_queue: false,
                            send_ring_alert: false,
                            update_location: false,
                            high_priority: false,
                            assign_mtmsn: false,
                        }
                    },
                },
            ),
    {
        let client_msg_id = match self.client_msg_id {
            Some(v) => v,
            None => {
                return Err(Error::UninitializedField("client_msg_id"));
            },
        };
        let imei = match self.imei {
            Some(v) => v,
            None => {
                return Err(Error::UninitializedField("imei"));
            },
        };
        let disposition_flags = match self.disposition_flags {
            Some(v) => v,
            None => DispositionFlags {
                flush_queue: false,
                send_ring_alert: false,
                update_location: false,
                high_priority: false,
                assign_mtmsn: false,
            },
        };
        Ok(Header { client_msg_id, imei, disposition_flags })
    }
}

/// Round trip of the MT header: its wire image parses, and the fields read
/// back from the wire image are the fields it was built from.
pub proof fn lemma_mt_header_roundtrip(h: Header)
    ensures
        Header::parses(h.wire()),
        Header::canonical(h.wire()),
        h.wire().len() == 24,
        Header::decoded(h.wire(), h),
{
    crate::bytes::lemma_be2v_of_be2(21);
    crate::bytes::lemma_be4v_of_be4(h.client_msg_id);
    crate::bytes::lemma_be2v_of_be2(h.disposition_flags.spec_encode());
    lemma_flags_decode_encode(h.disposition_flags);
    assert(h.wire().subrange(7, 22) =~= h.imei@);
}

/// A decoded MT header re-encodes to the very bytes it was decoded from,
/// provided the flags field carried no ignored bit.
pub proof fn lemma_mt_header_reencode(b: Seq<u8>, h: Header)
    requires
        Header::canonical(b),
        Header::decoded(b, h),
    ensures
        h.wire() == b.subrange(0, 24),
{
    crate::bytes::lemma_be2_of_be2v(b[1], b[2]);
    crate::bytes::lemma_be4_of_be4v(b[3], b[4], b[5], b[6]);
    crate::bytes::lemma_be2_of_be2v(b[22], b[23]);
    lemma_flags_encode_decode(be2v(b[22], b[23]));
    assert(h.wire() =~= b.subrange(0, 24));
}

/// Decoding the encoding of any flag combination yields the flags again.
pub proof fn lemma_flags_decode_encode(f: DispositionFlags)
    ensures
        DispositionFlags::spec_decode(f.spec_encode()) == f,
{
}

/// Encoding the decoding of any nominal wire code (no reserved bit, no
/// high bits) yields the code again: the round trip of the 32 nominal
/// combinations.
pub proof fn lemma_flags_encode_decode(code: u16)
    requires
        code < 64,
        (code / 4) % 2 == 0,
    ensures
        DispositionFlags::spec_decode(code).spec_encode() == code,
{
}

/// Decoding ignores the reserved bit: setting bit 2 of a wire code does
/// not change the decoded flags.
pub proof fn lemma_flags_reserved_bit_ignored(code: u16)
    requires
        (code / 4) % 2 == 0,
        code + 4 <= u16::MAX,
    ensures
        DispositionFlags::spec_decode((code + 4) as u16) == DispositionFlags::spec_decode(code),
{
}

} // verus!
