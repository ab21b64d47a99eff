//! Mobile Originated location element.
//!
//! Identifier `0x03`, fixed body of 11 bytes: a 7-byte coordinate followed
//! by the 4-byte circular-error-probable radius in meters.

use vstd::prelude::*;

use crate::bytes::{be2, be2v, be4, be4v, put_bytes, put_u16, put_u32, put_u8, read_u16, read_u32};
use crate::error::Error;

verus! {

/// The quadrant of a coordinate, i.e. the signs of its two axes: the low two
/// bits of the leading coordinate byte. `NE = 0`, `NW = 1`, `SE = 2`,
/// `SW = 3`; higher bits are ignored on decode and emitted as zero.
#[derive(Clone, Copy, Debug, PartialEq, Eq)]
pub enum Orientation {
    NE,
    NW,
    SE,
    SW,
}

impl Orientation {
    /// The wire code of this quadrant.
    pub open spec fn spec_code(self) -> u8 {
        match self {
            Orientation::NE => 0,
            Orientation::NW => 1,
            Orientation::SE => 2,
            Orientation::SW => 3,
        }
    }

    /// The quadrant denoted by a byte; only the low two bits count.
    pub open spec fn spec_decode(code: u8) -> Orientation {
        if code % 4 == 0 {
            Orientation::NE
        } else if code % 4 == 1 {
            Orientation::NW
        } else if code % 4 == 2 {
            Orientation::SE
        } else {
            Orientation::SW
        }
    }

    /// Decode a quadrant from a byte. Only the low two bits are used; all
    /// other bits are ignored.
    pub fn decode(orientation: &u8) -> (r: Result<Orientation, Error>)
        ensures
            r == Ok::<Orientation, Error>(Self::spec_decode(*orientation)),
    {
        let code = *orientation % 4;
        if code == 0 {
            Ok(Orientation::NE)
        } else if code == 1 {
            Ok(Orientation::NW)
        } else if code == 2 {
            Ok(Orientation::SE)
        } else {
            Ok(Orientation::SW)
        }
    }

    /// Encode this quadrant into its wire code.
    pub fn encode(&self) -> (r: u8)
        ensures
            r == self.spec_code(),
    {
        match self {
            Orientation::NE => 0,
            Orientation::NW => 1,
            Orientation::SE => 2,
            Orientation::SW => 3,
        }
    }
}

/// Decoding the wire code of any quadrant yields the quadrant again, and
/// every nominal code re-encodes to itself.
pub proof fn lemma_orientation_roundtrip(o: Orientation)
    ensures
        Orientation::spec_decode(o.spec_code()) == o,
{
}

/// Re-encoding a decoded quadrant yields the code again, for every nominal
/// code (one with no ignored high bits).
pub proof fn lemma_orientation_reencode(code: u8)
    requires
        code < 4,
    ensures
        Orientation::spec_decode(code).spec_code() == code,
{
}

/// A geolocation coordinate in the 7-byte wire model: a quadrant giving the
/// sign of each axis, then for each axis the whole degrees and the
/// thousandths of minutes of the fractional part.
///
/// A latitude of `d + m/60000` degrees (with `d` whole degrees and `m`
/// thousandths of minutes) is valid when it is at most 90 degrees; a
/// longitude when it is at most 180 degrees.
#[derive(Clone, Copy, Debug, PartialEq, Eq)]
pub struct Coordinate {
    pub orientation: Orientation,
    pub lat_deg: u8,
    pub lat_min: u16,
    pub lon_deg: u8,
    pub lon_min: u16,
}

impl Coordinate {
    /// The exact 7-byte string this coordinate puts on the wire.
    pub open spec fn wire(self) -> Seq<u8> {
        seq![self.orientation.spec_code(), self.lat_deg] + be2(self.lat_min) + seq![self.lon_deg]
            + be2(self.lon_min)
    }

    /// Whether the coordinate `c` is what decoding the first 7 bytes of `b`
    /// yields.
    pub open spec fn decoded(b: Seq<u8>, c: Coordinate) -> bool {
        &&& c.orientation == Orientation::spec_decode(b[0])
        &&& c.lat_deg == b[1]
        &&& c.lat_min == be2v(b[2], b[3])
        &&& c.lon_deg == b[4]
        &&& c.lon_min == be2v(b[5], b[6])
    }

    /// Decode a coordinate from the first 7 bytes of `buffer`.
    pub fn decode(buffer: &[u8]) -> (r: Coordinate)
        requires
            buffer@.len() >= 7,
        ensures
            Self::decoded(buffer@, r),
    {
        let orientation = Orientation::decode(&buffer[0]).unwrap();
        Coordinate {
            orientation,
            lat_deg: buffer[1],
            lat_min: read_u16(buffer, 2),
            lon_deg: buffer[4],
            lon_min: read_u16(buffer, 5),
        }
    }

    /// Parse a coordinate from the first 7 bytes of `buf`.
    pub fn from_reader(buf: &[u8]) -> (r: Result<Coordinate, Error>)
        ensures
            buf@.len() < 7 ==> r == Err::<Coordinate, Error>(Error::IO),
            buf@.len() >= 7 ==> r is Ok && Self::decoded(buf@, r->Ok_0),
    {
        if buf.len() < 7 {
            return Err(Error::IO);
        }
        Ok(Coordinate::decode(buf))
    }

    /// Encode this coordinate into its 7 wire bytes.
    pub fn encode(&self) -> (r: [u8; 7])
        ensures
            r@ == self.wire(),
    {
        let lat = self.lat_min;
        let lon = self.lon_min;
        let r: [u8; 7] = [
            self.orientation.encode(),
            self.lat_deg,
            (lat / 256) as u8,
            (lat % 256) as u8,
            self.lon_deg,
            (lon / 256) as u8,
            (lon % 256) as u8,
        ];
        assert(r@ =~= self.wire());
        r
    }
}

/// Round trip of the coordinate: decoding its wire image yields the
/// coordinate again.
pub proof fn lemma_coordinate_roundtrip(c: Coordinate)
    ensures
        c.wire().len() == 7,
        Coordinate::decoded(c.wire(), c),
{
    crate::bytes::lemma_be2v_of_be2(c.lat_min);
    crate::bytes::lemma_be2v_of_be2(c.lon_min);
    lemma_orientation_roundtrip(c.orientation);
}

/// A decoded coordinate re-encodes to the very bytes it was decoded from,
/// provided the leading byte carries no ignored bit.
pub proof fn lemma_coordinate_reencode(b: Seq<u8>, c: Coordinate)
    requires
        b.len() >= 7,
        b[0] < 4,
        Coordinate::decoded(b, c),
    ensures
        c.wire() == b.subrange(0, 7),
{
    lemma_orientation_reencode(b[0]);
    crate::bytes::lemma_be2_of_be2v(b[2], b[3]);
    crate::bytes::lemma_be2_of_be2v(b[5], b[6]);
    assert(c.wire() =~= b.subrange(0, 7));
}

/// Mobile Originated location.
///
/// Identifier `0x03`, body length 11, total wire size 14 bytes.
#[derive(Clone, Copy, Debug, PartialEq, Eq)]
pub struct Location {
    pub coordinate: Coordinate,
    /// Circular-error-probable radius of the reported location, in meters.
    pub cep_radius: u32,
}

impl Location {
    /// MO location identifier.
    pub fn identifier(&self) -> (r: u8)
        ensures
            r == 0x03,
    {
        0x03
    }

    /// Body length: fixed for the location.
    pub fn len(&self) -> (r: u16)
        ensures
            r == 11,
    {
        11
    }

    /// Total on-wire size: identifier, length field, body.
    pub fn total_size(&self) -> (r: usize)
        ensures
            r == 14,
    {
        14
    }

    /// The exact byte string this element puts on the wire.
    pub open spec fn wire(self) -> Seq<u8> {
        seq![0x03u8] + be2(11) + self.coordinate.wire() + be4(self.cep_radius)
    }

    /// Whether `b` begins with a well-formed MO location element.
    pub open spec fn parses(b: Seq<u8>) -> bool {
        b.len() >= 14 && b[0] == 0x03 && be2v(b[1], b[2]) == 11
    }

    /// Whether `b` begins with an MO location whose orientation byte
    /// carries no ignored bit, so that re-encoding reproduces the bytes.
    pub open spec fn canonical(b: Seq<u8>) -> bool {
        Self::parses(b) && b[3] < 4
    }

    /// The error reported when `b` does not begin with a well-formed MO
    /// location element.
    pub open spec fn parse_err(b: Seq<u8>) -> Error {
        if b.len() < 1 {
            Error::IO
        } else if b[0] != 0x03 {
            Error::WrongIEType(0x03, b[0])
        } else if b.len() < 3 {
            Error::IO
        } else if be2v(b[1], b[2]) != 11 {
            Error::InvalidLength(11, be2v(b[1], b[2]))
        } else {
            Error::IO
        }
    }

    /// Whether the location `l` is what decoding the start of `b` yields.
    pub open spec fn decoded(b: Seq<u8>, l: Location) -> bool {
        &&& Coordinate::decoded(b.skip(3), l.coordinate)
        &&& l.cep_radius == be4v(b[10], b[11], b[12], b[13])
    }

    /// Append the wire image of this element: identifier, length, body.
    pub fn write(&self, wtr: &mut Vec<u8>) -> (r: Result<usize, Error>)
        ensures
            final(wtr)@ == old(wtr)@ + self.wire(),
            r == Ok::<usize, Error>(14),
    {
        let ghost pre = wtr@;
        put_u8(wtr, 0x03);
        put_u16(wtr, 11);
        let coord = self.coordinate.encode();
        put_bytes(wtr, coord.as_slice());
        put_u32(wtr, self.cep_radius);
        assert(wtr@ =~= pre + self.wire());
        Ok(14)
    }

    /// The wire image of this element as a fresh vector.
    pub fn to_vec(&self) -> (r: Vec<u8>)
        ensures
            r@ == self.wire(),
    {
        let mut buffer: Vec<u8> = Vec::new();
        let _ = self.write(&mut buffer);
        buffer
    }

    /// Parse an MO location from the start of `buf`. Trailing bytes are
    /// ignored; exactly 14 bytes are read on success.
    pub fn from_reader(buf: &[u8]) -> (r: Result<Location, Error>)
        ensures
            Self::parses(buf@) ==> r is Ok && Self::decoded(buf@, r->Ok_0),
            !Self::parses(buf@) ==> r == Err::<Location, Error>(Self::parse_err(buf@)),
    {
        if buf.len() < 1 {
            return Err(Error::IO);
        }
        if buf[0] != 0x03 {
            return Err(Error::WrongIEType(0x03, buf[0]));
        }
        if buf.len() < 3 {
            return Err(Error::IO);
        }
        let len = read_u16(buf, 1);
        if len != 11 {
            return Err(Error::InvalidLength(11, len));
        }
        if buf.len() < 14 {
            return Err(Error::IO);
        }
        let coordinate = {
            let c = vstd::slice::slice_subrange(buf, 3, buf.len());
            proof {
                assert(c@ =~= buf@.skip(3));
            }
            Coordinate::decode(c)
        };
        let cep_radius = read_u32(buf, 10);
        Ok(Location { coordinate, cep_radius })
    }
}

/// Round trip of the MO location: its wire image parses, and the fields
/// read back from the wire image are the fields it was built from.
pub proof fn lemma_mo_location_roundtrip(l: Location)
    ensures
        Location::parses(l.wire()),
        Location::canonical(l.wire()),
        l.wire().len() == 14,
        Location::decoded(l.wire(), l),
{
    crate::bytes::lemma_be2v_of_be2(11);
    crate::bytes::lemma_be4v_of_be4(l.cep_radius);
    lemma_coordinate_roundtrip(l.coordinate);
    assert(l.wire().skip(3).subrange(0, 7) =~= l.coordinate.wire().subrange(0, 7));
    assert(Coordinate::decoded(l.wire().skip(3), l.coordinate));
}

/// A decoded MO location re-encodes to the very bytes it was decoded from,
/// provided the orientation byte carried no ignored bit.
pub proof fn lemma_mo_location_reencode(b: Seq<u8>, l: Location)
    requires
        Location::canonical(b),
        Location::decoded(b, l),
    ensures
        l.wire() == b.subrange(0, 14),
{
    crate::bytes::lemma_be2_of_be2v(b[1], b[2]);
    crate::bytes::lemma_be4_of_be4v(b[10], b[11], b[12], b[13]);
    lemma_coordinate_reencode(b.skip(3), l.coordinate);
    assert(b.skip(3).subrange(0, 7) =~= b.subrange(3, 10));
    assert(l.wire() =~= b.subrange(0, 14));
}

} // verus!
