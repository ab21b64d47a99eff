use directip::error::Error;
use directip::mt::payload::{Payload, PayloadBuilder, MAX_PAYLOAD_LEN};

#[test]
fn payload_write() {
    let ie = Payload { payload: "Hello World!".into() };
    let v = ie.to_vec();
    assert_eq!(
        v,
        [0x42, 0x00, 0x0c, 0x48, 0x65, 0x6c, 0x6c, 0x6f, 0x20, 0x57, 0x6f, 0x72, 0x6c, 0x64, 0x21,]
    )
}

#[test]
// Even if the buffer is longer than required, reads the payload with
// the correct size.
// note: buffer size limited by a u8
fn payload_read_exact() {
    let mut msg = [0u8; 255];
    msg[0] = 0x42;
    for i in 0..252 {
        msg[2] = i;
        let payload = Payload::from_reader(&msg[..]).unwrap();
        assert!(payload.len() == i.into());
        assert!(payload.to_vec().len() - 3 == i.into());
    }
}

#[test]
/// Build Payload without defining fields
fn build_default() {
    let payload = PayloadBuilder::default().build();
    match payload {
        Err(Error::UninitializedField(_)) => (),
        _ => panic!(),
    }
}

#[test]
/// Build Payload defining a payload
fn payload_build() {
    let payload = PayloadBuilder::default().payload(vec![4, 2]).build().unwrap();
    assert_eq!(payload.to_vec(), [0x42, 0x00, 0x02, 0x04, 0x02]);
}

#[test]
/// The builder should fail with an oversized payload
fn build_oversized() {
    let p = vec![0; MAX_PAYLOAD_LEN + 1];
    let e = PayloadBuilder::default().payload(p).build().unwrap_err();
    assert_eq!(e, Error::PayloadOversize(1891, 1890));
}

#[test]
/// The decoder rejects a declared length above the maximum
fn read_oversized_declared_length() {
    // 1891 = 0x0763
    let buf = [0x42, 0x07, 0x63, 0x00];
    assert_eq!(Payload::from_reader(&buf), Err(Error::PayloadOversize(1891, 1890)));
}
