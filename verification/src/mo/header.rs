//! Mobile Originated header element.
//!
//! The MO header is the information element that opens a message forwarded
//! by the Gateway to a customer server. Identifier `0x01`, fixed body of 28
//! bytes: the call data record id, the 15-byte IMEI, a session status byte,
//! the two message sequence numbers, and the session time as UNIX seconds.

use vstd::prelude::*;

use crate::bytes::{be2, be2v, be4, be4v, put_bytes, put_u16, put_u32, put_u8, read_arr15, read_u16, read_u32};
use crate::error::Error;

verus! {

/// Status of the completed MO session, with its non-contiguous wire codes:
/// `Success=0, MTTooLarge=1, BadLocation=2, Timeout=10, MOTooLarge=12,
/// RFLoss=13, SSDAnomaly=14, SSDProhibited=15`. Every other code is
/// invalid.
#[derive(Clone, Copy, Debug, PartialEq, Eq)]
pub enum SessionStatus {
    Success,
    MTTooLarge,
    BadLocation,
    Timeout,
    MOTooLarge,
    RFLoss,
    SSDAnomaly,
    SSDProhibited,
}

impl SessionStatus {
    /// The wire code of this status.
    pub open spec fn spec_code(self) -> u8 {
        match self {
            SessionStatus::Success => 0,
            SessionStatus::MTTooLarge => 1,
            SessionStatus::BadLocation => 2,
            SessionStatus::Timeout => 10,
            SessionStatus::MOTooLarge => 12,
            SessionStatus::RFLoss => 13,
            SessionStatus::SSDAnomaly => 14,
            SessionStatus::SSDProhibited => 15,
        }
    }

    /// Whether a wire code denotes a status: exactly
    /// `{0, 1, 2, 10, 12, 13, 14, 15}`.
    pub open spec fn code_valid(status: u8) -> bool {
        status == 0 || status == 1 || status == 2 || status == 10 || status == 12 || status == 13
            || status == 14 || status == 15
    }

    /// The status denoted by a valid wire code.
    pub open spec fn spec_decode(status: u8) -> SessionStatus {
        if status == 0 {
            SessionStatus::Success
        } else if status == 1 {
            SessionStatus::MTTooLarge
        } else if status == 2 {
            SessionStatus::BadLocation
        } else if status == 10 {
            SessionStatus::Timeout
        } else if status == 12 {
            SessionStatus::MOTooLarge
        } else if status == 13 {
            SessionStatus::RFLoss
        } else if status == 14 {
            SessionStatus::SSDAnomaly
        } else {
            SessionStatus::SSDProhibited
        }
    }

    /// Decode a wire code: accepts exactly `{0, 1, 2, 10, 12, 13, 14, 15}`.
    pub fn decode(status: &u8) -> (r: Result<SessionStatus, Error>)
        ensures
            Self::code_valid(*status) ==> r == Ok::<SessionStatus, Error>(
                Self::spec_decode(*status),
            ),
            !Self::code_valid(*status) ==> r == Err::<SessionStatus, Error>(
                Error::InvalidSessionStatus(*status),
            ),
    {
        match status {
            0 => Ok(SessionStatus::Success),
            1 => Ok(SessionStatus::MTTooLarge),
            2 => Ok(SessionStatus::BadLocation),
            10 => Ok(SessionStatus::Timeout),
            12 => Ok(SessionStatus::MOTooLarge),
            13 => Ok(SessionStatus::RFLoss),
            14 => Ok(SessionStatus::SSDAnomaly),
            15 => Ok(SessionStatus::SSDProhibited),
            s => Err(Error::InvalidSessionStatus(*s)),
        }
    }

    /// Parse a status from the first byte of `buf`.
    pub fn from_reader(buf: &[u8]) -> (r: Result<SessionStatus, Error>)
        ensures
            buf@.len() < 1 ==> r == Err::<SessionStatus, Error>(Error::IO),
            buf@.len() >= 1 && Self::code_valid(buf@[0]) ==> r == Ok::<SessionStatus, Error>(
                Self::spec_decode(buf@[0]),
            ),
            buf@.len() >= 1 && !Self::code_valid(buf@[0]) ==> r == Err::<SessionStatus, Error>(
                Error::InvalidSessionStatus(buf@[0]),
            ),
    {
        if buf.len() < 1 {
            return Err(Error::IO);
        }
        let status = buf[0];
        SessionStatus::decode(&status)
    }

    /// Encode this status into its wire code.
    pub fn encode(&self) -> (r: u8)
        ensures
            r == self.spec_code(),
    {
        match self {
            SessionStatus::Success => 0,
            SessionStatus::MTTooLarge => 1,
            SessionStatus::BadLocation => 2,
            SessionStatus::Timeout => 10,
            SessionStatus::MOTooLarge => 12,
            SessionStatus::RFLoss => 13,
            SessionStatus::SSDAnomaly => 14,
            SessionStatus::SSDProhibited => 15,
        }
    }

    /// Append the one-byte wire image of this status.
    pub fn write(&self, wtr: &mut Vec<u8>) -> (r: Result<usize, Error>)
        ensures
            final(wtr)@ == old(wtr)@.push(self.spec_code()),
            r == Ok::<usize, Error>(1),
    {
        put_u8(wtr, self.encode());
        Ok(1)
    }

    /// The one-line description of each status.
    pub open spec fn spec_message(self) -> Seq<char> {
        match self {
            SessionStatus::Success => "Session completed successfully"@,
            SessionStatus::MTTooLarge => "MO transfer success, but MT message is too large"@,
            SessionStatus::BadLocation => "MO transfer success, but bad location"@,
            SessionStatus::Timeout => "Session timed out before completion"@,
            SessionStatus::MOTooLarge => "MO message too large"@,
            SessionStatus::RFLoss => "Lost connection during session"@,
            SessionStatus::SSDAnomaly => "Device protocol anomaly"@,
            SessionStatus::SSDProhibited => "Device prohibited from accessing the Gateway"@,
        }
    }

    /// A one-line description of the status.
    pub fn message(&self) -> (r: String)
        ensures
            r@ == self.spec_message(),
    {
        match self {
            SessionStatus::Success => String::from_str("Session completed successfully"),
            SessionStatus::MTTooLarge => String::from_str(
                "MO transfer success, but MT message is too large",
            ),
            SessionStatus::BadLocation => String::from_str("MO transfer success, but bad location"),
            SessionStatus::Timeout => String::from_str("Session timed out before completion"),
            SessionStatus::MOTooLarge => String::from_str("MO message too large"),
            SessionStatus::RFLoss => String::from_str("Lost connection during session"),
            SessionStatus::SSDAnomaly => String::from_str("Device protocol anomaly"),
            SessionStatus::SSDProhibited => String::from_str(
                "Device prohibited from accessing the Gateway",
            ),
        }
    }
}

/// Decoding the wire code of any status yields the status again, and every
/// valid code re-encodes to itself: the session-status round trip.
pub proof fn lemma_session_status_roundtrip(s: SessionStatus)
    ensures
        SessionStatus::code_valid(s.spec_code()),
        SessionStatus::spec_decode(s.spec_code()) == s,
{
}

/// Re-encoding a decoded status yields the wire code again, for every valid
/// code.
pub proof fn lemma_session_status_reencode(status: u8)
    requires
        SessionStatus::code_valid(status),
    ensures
        SessionStatus::spec_decode(status).spec_code() == status,
{
}

/// Mobile Originated header.
///
/// Identifier `0x01`, body length 28, total wire size 31 bytes.
///
/// * `cdr_uid`: unique id of the call data record of this session.
/// * `imei`: 15 ASCII decimal bytes identifying the originating modem.
/// * `session_status`: see [`SessionStatus`].
/// * `momsn` / `mtmsn`: the modem's and the Gateway's sequence numbers.
/// * `time_of_session`: UTC session time, in seconds since the UNIX epoch.
#[derive(Clone, Copy, Debug, PartialEq, Eq)]
pub struct Header {
    pub cdr_uid: u32,
    pub imei: [u8; 15],
    pub session_status: SessionStatus,
    pub momsn: u16,
    pub mtmsn: u16,
    pub time_of_session: u32,
}

impl Header {
    /// MO header identifier.
    pub fn identifier(&self) -> (r: u8)
        ensures
            r == 0x01,
    {
        0x01
    }

    /// Body length: fixed for the header.
    pub fn len(&self) -> (r: u16)
        ensures
            r == 28,
    {
        28
    }

    /// Total on-wire size: identifier, length field, body.
    pub fn total_size(&self) -> (r: usize)
        ensures
            r == 31,
    {
        31
    }

    /// The exact byte string this header puts on the wire.
    pub open spec fn wire(self) -> Seq<u8> {
        seq![0x01u8] + be2(28) + be4(self.cdr_uid) + self.imei@ + seq![
            self.session_status.spec_code(),
        ] + be2(self.momsn) + be2(self.mtmsn) + be4(self.time_of_session)
    }

    /// Whether `b` begins with a well-formed MO header element.
    pub open spec fn parses(b: Seq<u8>) -> bool {
        b.len() >= 31 && b[0] == 0x01 && be2v(b[1], b[2]) == 28 && SessionStatus::code_valid(b[22])
    }

    /// The error reported when `b` does not begin with a well-formed MO
    /// header element.
    pub open spec fn parse_err(b: Seq<u8>) -> Error {
        if b.len() < 1 {
            Error::IO
        } else if b[0] != 0x01 {
            Error::WrongIEType(0x01, b[0])
        } else if b.len() < 3 {
            Error::IO
        } else if be2v(b[1], b[2]) != 28 {
            Error::InvalidLength(28, be2v(b[1], b[2]))
        } else if b.len() < 31 {
            Error::IO
        } else {
            Error::InvalidSessionStatus(b[22])
        }
    }

    /// Whether the header `h` is what decoding the start of `b` yields.
    pub open spec fn decoded(b: Seq<u8>, h: Header) -> bool {
        &&& h.cdr_uid == be4v(b[3], b[4], b[5], b[6])
        &&& h.imei@ == b.subrange(7, 22)
        &&& h.session_status == SessionStatus::spec_decode(b[22])
        &&& h.momsn == be2v(b[23], b[24])
        &&& h.mtmsn == be2v(b[25], b[26])
        &&& h.time_of_session == be4v(b[27], b[28], b[29], b[30])
    }

    /// Append the wire image of this header: identifier, length, body.
    pub fn write(&self, wtr: &mut Vec<u8>) -> (r: Result<usize, Error>)
        ensures
            final(wtr)@ == old(wtr)@ + self.wire(),
            r == Ok::<usize, Error>(31),
    {
        let ghost pre = wtr@;
        put_u8(wtr, 0x01);
        put_u16(wtr, 28);
        put_u32(wtr, self.cdr_uid);
        put_bytes(wtr, self.imei.as_slice());
        let _ = self.session_status.write(wtr);
        put_u16(wtr, self.momsn);
        put_u16(wtr, self.mtmsn);
        put_u32(wtr, self.time_of_session);
        assert(wtr@ =~= pre + self.wire());
        Ok(31)
    }

    /// The wire image of this header as a fresh vector.
    pub fn to_vec(&self) -> (r: Vec<u8>)
        ensures
            r@ == self.wire(),
    {
        let mut buffer: Vec<u8> = Vec::new();
        let _ = self.write(&mut buffer);
        buffer
    }

    /// Parse an MO header from the start of `buf`. Trailing bytes are
    /// ignored; exactly 31 bytes are read on success.
    pub fn from_reader(buf: &[u8]) -> (r: Result<Header, Error>)
        ensures
            Self::parses(buf@) ==> r is Ok && Self::decoded(buf@, r->Ok_0),
            !Self::parses(buf@) ==> r == Err::<Header, Error>(Self::parse_err(buf@)),
    {
        if buf.len() < 1 {
            return Err(Error::IO);
        }
        if buf[0] != 0x01 {
            return Err(Error::WrongIEType(0x01, buf[0]));
        }
        if buf.len() < 3 {
            return Err(Error::IO);
        }
        let len = read_u16(buf, 1);
        if len != 28 {
            return Err(Error::InvalidLength(28, len));
        }
        if buf.len() < 31 {
            return Err(Error::IO);
        }
        let cdr_uid = read_u32(buf, 3);
        let imei = read_arr15(buf, 7);
        let status_code = buf[22];
        let session_status = match SessionStatus::decode(&status_code) {
            Ok(s) => s,
            Err(e) => {
                return Err(e);
            },
        };
        let momsn = read_u16(buf, 23);
        let mtmsn = read_u16(buf, 25);
        let time_of_session = read_u32(buf, 27);
        Ok(Header { cdr_uid, imei, session_status, momsn, mtmsn, time_of_session })
    }

    /// The `imei` field.
    pub fn imei(&self) -> (r: [u8; 15])
        ensures
            r == self.imei,
    {
        self.imei
    }

    /// A builder with every field unset.
    pub fn builder() -> (r: HeaderBuilder)
        ensures
            r == HeaderBuilder::spec_default(),
    {
        HeaderBuilder::default()
    }
}

/// Builder for [`Header`]: every field is required.
#[derive(Clone, Debug)]
pub struct HeaderBuilder {
    pub cdr_uid: Option<u32>,
    pub imei: Option<[u8; 15]>,
    pub session_status: Option<SessionStatus>,
    pub momsn: Option<u16>,
    pub mtmsn: Option<u16>,
    pub time_of_session: Option<u32>,
}

impl HeaderBuilder {
    /// A builder with every field unset.
    pub open spec fn spec_default() -> HeaderBuilder {
        HeaderBuilder {
            cdr_uid: None,
            imei: None,
            session_status: None,
            momsn: None,
            mtmsn: None,
            time_of_session: None,
        }
    }

    /// A builder with every field unset.
    pub fn default() -> (r: HeaderBuilder)
        ensures
            r == Self::spec_default(),
    {
        HeaderBuilder {
            cdr_uid: None,
            imei: None,
            session_status: None,
            momsn: None,
            mtmsn: None,
            time_of_session: None,
        }
    }

    /// Set the call data record id.
    pub fn cdr_uid(self, cdr_uid: u32) -> (r: HeaderBuilder)
        ensures
            r == (HeaderBuilder { cdr_uid: Some(cdr_uid), ..self }),
    {
        HeaderBuilder { cdr_uid: Some(cdr_uid), ..self }
    }

    /// Set the IMEI.
    pub fn imei(self, imei: [u8; 15]) -> (r: HeaderBuilder)
        ensures
            r == (HeaderBuilder { imei: Some(imei), ..self }),
    {
        HeaderBuilder { imei: Some(imei), ..self }
    }

    /// Set the session status.
    pub fn session_status(self, session_status: SessionStatus) -> (r: HeaderBuilder)
        ensures
            r == (HeaderBuilder { session_status: Some(session_status), ..self }),
    {
        HeaderBuilder { session_status: Some(session_status), ..self }
    }

    /// Set the MO message sequence number.
    pub fn momsn(self, momsn: u16) -> (r: HeaderBuilder)
        ensures
            r == (HeaderBuilder { momsn: Some(momsn), ..self }),
    {
        HeaderBuilder { momsn: Some(momsn), ..self }
    }

    /// Set the MT message sequence number.
    pub fn mtmsn(self, mtmsn: u16) -> (r: HeaderBuilder)
        ensures
            r == (HeaderBuilder { mtmsn: Some(mtmsn), ..self }),
    {
        HeaderBuilder { mtmsn: Some(mtmsn), ..self }
    }

    /// Set the session time, in seconds since the UNIX epoch.
    pub fn time_of_session(self, time_of_session: u32) -> (r: HeaderBuilder)
        ensures
            r == (HeaderBuilder { time_of_session: Some(time_of_session), ..self }),
    {
        HeaderBuilder { time_of_session: Some(time_of_session), ..self }
    }

    /// Build the header. Fails on the first unset field.
    pub fn build(self) -> (r: Result<Header, Error>)
        ensures
            self.cdr_uid is None ==> r == Err::<Header, Error>(
                Error::UninitializedField("cdr_uid"),
            ),
            self.cdr_uid is Some && self.imei is None ==> r == Err::<Header, Error>(
                Error::UninitializedField("imei"),
            ),
            self.cdr_uid is Some && self.imei is Some && self.session_status is None ==> r
                == Err::<Header, Error>(Error::UninitializedField("session_status")),
            self.cdr_uid is Some && self.imei is Some && self.session_status is Some
                && self.momsn is None ==> r == Err::<Header, Error>(
                Error::UninitializedField("momsn"),
            ),
            self.cdr_uid is Some && self.imei is Some && self.session_status is Some
                && self.momsn is Some && self.mtmsn is None ==> r == Err::<Header, Error>(
                Error::UninitializedField("mtmsn"),
            ),
            self.cdr_uid is Some && self.imei is Some && self.session_status is Some
                && self.momsn is Some && self.mtmsn is Some && self.time_of_session is None ==> r
                == Err::<Header, Error>(Error::UninitializedField("time_of_session")),
            self.cdr_uid is Some && self.imei is Some && self.session_status is Some
                && self.momsn is Some && self.mtmsn is Some && self.time_of_session is Some ==> r
                == Ok::<Header, Error>(
                Header {
                    cdr_uid: self.cdr_uid->0,
                    imei: self.imei->0,
                    session_status: self.session_status->0,
                    momsn: self.momsn->0,
                    mtmsn: self.mtmsn->0,
                    time_of_session: self.time_of_session->0,
                },
            ),
    {
        let cdr_uid = match self.cdr_uid {
            Some(v) => v,
            None => {
                return Err(Error::UninitializedField("cdr_uid"));
            },
        };
        let imei = match self.imei {
            Some(v) => v,
            None => {
                return Err(Error::UninitializedField("imei"));
            },
        };
        let session_status = match self.session_status {
            Some(v) => v,
            None => {
                return Err(Error::UninitializedField("session_status"));
            },
        };
        let momsn = match self.momsn {
            Some(v) => v,
            None => {
                return Err(Error::UninitializedField("momsn"));
            },
        };
        let mtmsn = match self.mtmsn {
            Some(v) => v,
            None => {
                return Err(Error::UninitializedField("mtmsn"));
            },
        };
        let time_of_session = match self.time_of_session {
            Some(v) => v,
            None => {
                return Err(Error::UninitializedField("time_of_session"));
            },
        };
        Ok(Header { cdr_uid, imei, session_status, momsn, mtmsn, time_of_session })
    }
}

/// Round trip of the MO header: its wire image parses, and the fields read
/// back from the wire image are the fields it was built from.
pub proof fn lemma_mo_header_roundtrip(h: Header)
    ensures
        Header::parses(h.wire()),
        h.wire().len() == 31,
        Header::decoded(h.wire(), h),
{
    crate::bytes::lemma_be2v_of_be2(28);
    crate::bytes::lemma_be4v_of_be4(h.cdr_uid);
    crate::bytes::lemma_be2v_of_be2(h.momsn);
    crate::bytes::lemma_be2v_of_be2(h.mtmsn);
    crate::bytes::lemma_be4v_of_be4(h.time_of_session);
    lemma_session_status_roundtrip(h.session_status);
    assert(h.wire().subrange(7, 22) =~= h.imei@);
}

/// A decoded MO header re-encodes to the very bytes it was decoded from.
pub proof fn lemma_mo_header_reencode(b: Seq<u8>, h: Header)
    requires
        Header::parses(b),
        Header::decoded(b, h),
    ensures
        h.wire() == b.subrange(0, 31),
{
    crate::bytes::lemma_be2_of_be2v(b[1], b[2]);
    crate::bytes::lemma_be4_of_be4v(b[3], b[4], b[5], b[6]);
    crate::bytes::lemma_be2_of_be2v(b[23], b[24]);
    crate::bytes::lemma_be2_of_be2v(b[25], b[26]);
    crate::bytes::lemma_be4_of_be4v(b[27], b[28], b[29], b[30]);
    lemma_session_status_reencode(b[22]);
    assert(h.wire() =~= b.subrange(0, 31));
}

} // verus!
