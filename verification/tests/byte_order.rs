use nvme_bdev::byte_order::{
    u16_from_bytes, u16_to_bytes, u32_to_bytes, u64_from_bytes, u64_to_bytes, ByteOrder,
    ORDER_PROBE,
};

#[test]
fn u16_in_both_orders() {
    assert_eq!(u16_to_bytes(ByteOrder::Little, 0x0102), [0x02, 0x01]);
    assert_eq!(u16_to_bytes(ByteOrder::Big, 0x0102), [0x01, 0x02]);
    assert_eq!(u16_to_bytes(ByteOrder::Little, 0), [0, 0]);
    assert_eq!(u16_to_bytes(ByteOrder::Big, u16::MAX), [0xff, 0xff]);
}

#[test]
fn u32_in_both_orders() {
    assert_eq!(u32_to_bytes(ByteOrder::Little, 0x0102_0304), [4, 3, 2, 1]);
    assert_eq!(u32_to_bytes(ByteOrder::Big, 0x0102_0304), [1, 2, 3, 4]);
    assert_eq!(u32_to_bytes(ByteOrder::Little, u32::MAX), [0xff; 4]);
    assert_eq!(u32_to_bytes(ByteOrder::Little, 0x8000_0000), [0, 0, 0, 0x80]);
}

#[test]
fn u64_in_both_orders() {
    assert_eq!(
        u64_to_bytes(ByteOrder::Little, 0x0102_0304_0506_0708),
        [8, 7, 6, 5, 4, 3, 2, 1]
    );
    assert_eq!(
        u64_to_bytes(ByteOrder::Big, 0x0102_0304_0506_0708),
        [1, 2, 3, 4, 5, 6, 7, 8]
    );
    assert_eq!(u64_to_bytes(ByteOrder::Big, u64::MAX), [0xff; 8]);
}

#[test]
fn encodings_agree_with_std() {
    for x in [0u32, 1, 0xff, 0x100, 0xdead_beef, u32::MAX] {
        assert_eq!(u32_to_bytes(ByteOrder::Little, x), x.to_le_bytes());
        assert_eq!(u32_to_bytes(ByteOrder::Big, x), x.to_be_bytes());
    }
    for x in [0u64, 1, 0x1_0000_0000, 0xdead_beef_cafe_f00d, u64::MAX] {
        assert_eq!(u64_to_bytes(ByteOrder::Little, x), x.to_le_bytes());
        assert_eq!(u64_to_bytes(ByteOrder::Big, x), x.to_be_bytes());
    }
    for x in [0u16, 1, 0x1234, u16::MAX] {
        assert_eq!(u16_to_bytes(ByteOrder::Little, x), x.to_le_bytes());
        assert_eq!(u16_to_bytes(ByteOrder::Big, x), x.to_be_bytes());
    }
}

#[test]
fn decodes_at_an_offset() {
    let bytes = [0xaa, 0x34, 0x12, 0xbb, 1, 2, 3, 4, 5, 6, 7, 8, 0xcc];
    assert_eq!(u16_from_bytes(ByteOrder::Little, &bytes, 1), 0x1234);
    assert_eq!(u16_from_bytes(ByteOrder::Big, &bytes, 1), 0x3412);
    assert_eq!(
        u64_from_bytes(ByteOrder::Little, &bytes, 4),
        0x0807_0605_0403_0201
    );
    assert_eq!(u64_from_bytes(ByteOrder::Big, &bytes, 4), 0x0102_0304_0506_0708);
}

#[test]
fn decoding_undoes_encoding() {
    for order in [ByteOrder::Little, ByteOrder::Big] {
        for x in [0u64, 1, 0xff, 0x0102_0304_0506_0708, u64::MAX] {
            assert_eq!(u64_from_bytes(order, &u64_to_bytes(order, x), 0), x);
        }
        for x in [0u16, 1, 0xff, 0x0102, u16::MAX] {
            assert_eq!(u16_from_bytes(order, &u16_to_bytes(order, x), 0), x);
        }
    }
}

#[test]
fn probe_tells_the_orders_apart() {
    assert_eq!(ByteOrder::from_probe([0x02, 0x01]), Some(ByteOrder::Little));
    assert_eq!(ByteOrder::from_probe([0x01, 0x02]), Some(ByteOrder::Big));
    assert_eq!(ByteOrder::from_probe([0x01, 0x01]), None);
    assert_eq!(ByteOrder::from_probe([0, 0]), None);
    assert_eq!(
        ByteOrder::from_probe(u16_to_bytes(ByteOrder::Little, ORDER_PROBE)),
        Some(ByteOrder::Little)
    );
    assert_eq!(
        ByteOrder::from_probe(u16_to_bytes(ByteOrder::Big, ORDER_PROBE)),
        Some(ByteOrder::Big)
    );
}

#[test]
fn native_order_is_the_machines() {
    let expected = if 1u16.to_ne_bytes() == [1, 0] {
        ByteOrder::Little
    } else {
        ByteOrder::Big
    };
    assert_eq!(ByteOrder::native(), expected);
    assert_eq!(
        u32_to_bytes(ByteOrder::native(), 0x0102_0304),
        0x0102_0304u32.to_ne_bytes()
    );
}
