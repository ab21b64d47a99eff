use directip::error::Error;
use directip::mo::location::{Coordinate, Location, Orientation};

#[test]
fn location_roundtrip_decode_encode() {
    for o in [0, 1, 2, 3] {
        assert_eq!(o, Orientation::decode(&o).unwrap().encode())
    }
}

#[test]
fn orientation_high_bits_ignored() {
    assert_eq!(Orientation::decode(&0b0000_0001), Orientation::decode(&0b1111_0101));
    assert_eq!(Orientation::decode(&0xfc).unwrap(), Orientation::NE);
}

#[test]
fn encode() {
    // 15.0 degrees north, 38.0 degrees west.
    let c = Coordinate {
        orientation: Orientation::NW,
        lat_deg: 15,
        lat_min: 0,
        lon_deg: 38,
        lon_min: 0,
    };
    let buf = [0x01, 0x0f, 0x00, 0x00, 0x26, 0x00, 0x00];
    assert_eq!(buf, c.encode())
}

#[test]
fn coordinate_roundtrip_decode_encode() {
    let buf = [0x01, 0x0f, 0x00, 0x00, 0x26, 0x00, 0x00];
    assert_eq!(buf, Coordinate::decode(&buf).encode())
}

#[test]
fn coordinate_minutes() {
    // 10 degrees and 30000 thousandths of minutes = 10.5 degrees south-east.
    let c = Coordinate {
        orientation: Orientation::SE,
        lat_deg: 10,
        lat_min: 30000,
        lon_deg: 0,
        lon_min: 59999,
    };
    let encoded = c.encode();
    assert_eq!(encoded, [0x02, 0x0a, 0x75, 0x30, 0x00, 0xea, 0x5f]);
    assert_eq!(Coordinate::decode(&encoded), c);
}

#[test]
fn location_decode() {
    let buffer = [
        0x03, 0x00, 0x0b, 0x01, 0x21, 0x28, 0x47, 0x76, 0x7f, 0x06, 0x00, 0x01, 0x00, 0x00,
    ];
    let location = Location::from_reader(&buffer).unwrap();
    assert_eq!(location.len(), 11);
    assert_eq!(location.cep_radius, 65536);
}

#[test]
fn location_roundtrip_write_n_read() {
    let location = Location {
        coordinate: Coordinate {
            orientation: Orientation::SW,
            lat_deg: 33,
            lat_min: 10311,
            lon_deg: 118,
            lon_min: 32518,
        },
        cep_radius: 1500,
    };
    assert_eq!(location, Location::from_reader(location.to_vec().as_slice()).unwrap());
    assert_eq!(location.to_vec().len(), 14);
}

#[test]
fn location_wrong_length() {
    let buffer = [0x03, 0x00, 0x0c, 0x00];
    assert_eq!(Location::from_reader(&buffer), Err(Error::InvalidLength(11, 12)));
}
