use directip::mt::header::DispositionFlags;

#[test]
fn decode_all_false() {
    let ans = DispositionFlags {
        flush_queue: false,
        send_ring_alert: false,
        update_location: false,
        high_priority: false,
        assign_mtmsn: false,
    };
    assert_eq!(ans, DispositionFlags::decode(0));
}

#[test]
fn decode_flush_queue() {
    let ans = DispositionFlags {
        flush_queue: true,
        send_ring_alert: false,
        update_location: false,
        high_priority: false,
        assign_mtmsn: false,
    };
    assert_eq!(ans, DispositionFlags::decode(1));
}

#[test]
fn decode_send_ring_alert() {
    let ans = DispositionFlags {
        flush_queue: false,
        send_ring_alert: true,
        update_location: false,
        high_priority: false,
        assign_mtmsn: false,
    };
    assert_eq!(ans, DispositionFlags::decode(2));
}

#[test]
fn decode_update_location() {
    let ans = DispositionFlags {
        flush_queue: false,
        send_ring_alert: false,
        update_location: true,
        high_priority: false,
        assign_mtmsn: false,
    };
    assert_eq!(ans, DispositionFlags::decode(8));
}

#[test]
fn decode_all_true() {
    let ans = DispositionFlags {
        flush_queue: true,
        send_ring_alert: true,
        update_location: true,
        high_priority: true,
        assign_mtmsn: true,
    };
    assert_eq!(ans, DispositionFlags::decode(59));
}

#[test]
fn encode_all_false() {
    let flags = DispositionFlags {
        flush_queue: false,
        send_ring_alert: false,
        update_location: false,
        high_priority: false,
        assign_mtmsn: false,
    };
    assert_eq!(flags.encode(), 0);
}

#[test]
fn encode_flush_queue() {
    let flags = DispositionFlags {
        flush_queue: true,
        send_ring_alert: false,
        update_location: false,
        high_priority: false,
        assign_mtmsn: false,
    };
    assert_eq!(flags.encode(), 1);
}

#[test]
fn encode_send_ring_alert() {
    let flags = DispositionFlags {
        flush_queue: false,
        send_ring_alert: true,
        update_location: false,
        high_priority: false,
        assign_mtmsn: false,
    };
    assert_eq!(flags.encode(), 2);
}

#[test]
fn encode_update_location() {
    let flags = DispositionFlags {
        flush_queue: false,
        send_ring_alert: false,
        update_location: true,
        high_priority: false,
        assign_mtmsn: false,
    };
    assert_eq!(flags.encode(), 8);
}

#[test]
fn encode_high_priority() {
    let flags = DispositionFlags {
        flush_queue: false,
        send_ring_alert: false,
        update_location: false,
        high_priority: true,
        assign_mtmsn: false,
    };
    assert_eq!(flags.encode(), 16);
}

#[test]
fn encode_assign_mtmsn() {
    let flags = DispositionFlags {
        flush_queue: false,
        send_ring_alert: false,
        update_location: false,
        high_priority: false,
        assign_mtmsn: true,
    };
    assert_eq!(flags.encode(), 32);
}

#[test]
fn encode_all_true() {
    let flags = DispositionFlags {
        flush_queue: true,
        send_ring_alert: true,
        update_location: true,
        high_priority: true,
        assign_mtmsn: true,
    };
    assert_eq!(flags.encode(), 59);
}

#[test]
fn roundtrip_decode_encode() {
    let combinations = vec![
        1, 2, 3, 8, 9, 10, 11, 16, 17, 18, 19, 24, 25, 26, 27, 32, 33, 34, 35, 40, 41, 42, 43, 48,
        49, 50, 51, 56, 57, 58, 59,
    ];
    for i in combinations {
        assert_eq!(i, DispositionFlags::decode(i).encode())
    }
}

#[test]
fn read() {
    let buffer = [0x00, 0x01].as_slice();
    let flags = DispositionFlags::from_reader(buffer).unwrap();
    assert!(flags.flush_queue);
}

#[test]
fn reserved_bit_ignored() {
    // Bit 2 is reserved: it does not change what is decoded.
    for code in [0u16, 1, 2, 9, 27, 59] {
        assert_eq!(DispositionFlags::decode(code), DispositionFlags::decode(code | 4));
    }
    // Bits 6 and above are ignored too.
    assert_eq!(DispositionFlags::decode(0), DispositionFlags::decode(0xFFC0));
}
