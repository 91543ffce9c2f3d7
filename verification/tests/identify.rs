use nvme_bdev::byte_order::ByteOrder;
use nvme_bdev::device::NvmeBlockDeviceHandle;
use nvme_bdev::error::{DeviceError, IdentifyFault};
use nvme_bdev::identify::{
    nvme_id_ns, nvme_lbaf, NVME_ID_NS_FLBAS, NVME_ID_NS_LBAF, NVME_ID_NS_LEN, NVME_ID_NS_NSZE,
    NVME_LBAF_COUNT,
};

fn response(nsze: u64, flbas: u8, entry: usize, ds: u8) -> [u8; 4096] {
    let mut bytes = [0u8; 4096];
    bytes[..8].copy_from_slice(&nsze.to_le_bytes());
    bytes[26] = flbas;
    bytes[128 + 4 * entry + 2] = ds;
    bytes
}

#[test]
fn layout_constants() {
    assert_eq!(NVME_ID_NS_LEN, 4096);
    assert_eq!(NVME_LBAF_COUNT, 16);
    assert_eq!(NVME_ID_NS_NSZE, 0);
    assert_eq!(NVME_ID_NS_FLBAS, 26);
    assert_eq!(NVME_ID_NS_LBAF, 128);
}

#[test]
fn entry_two_with_exponent_twelve_is_4096() {
    let bytes = response(0x10_0000, 2, 2, 12);
    let ns = nvme_id_ns::from_bytes(ByteOrder::Little, &bytes);
    assert_eq!(ns.flbas, 2);
    assert_eq!(ns.selected_format().ds, 12);
    let handle = NvmeBlockDeviceHandle::from_identify(3, 1, &ns).unwrap();
    assert_eq!(handle.logical_block_size(), 4096);
    assert_eq!(handle.block_shift(), 12);
    assert_eq!(handle.size(), 0x10_0000);
    assert_eq!(handle.fd(), 3);
    assert_eq!(handle.namespace_id(), 1);
}

#[test]
fn parses_every_table_entry() {
    let mut bytes = [0u8; 4096];
    for k in 0..16usize {
        let at = 128 + 4 * k;
        bytes[at] = k as u8;
        bytes[at + 1] = 0x80 + k as u8;
        bytes[at + 2] = 9 + k as u8;
        bytes[at + 3] = (k % 4) as u8;
    }
    bytes[127] = 0xee;
    bytes[192] = 0xee;
    let ns = nvme_id_ns::from_bytes(ByteOrder::Little, &bytes);
    for k in 0..16usize {
        assert_eq!(
            ns.lbaf[k],
            nvme_lbaf {
                ms: 0x8000 + 0x100 * k as u16 + k as u16,
                ds: 9 + k as u8,
                rp: (k % 4) as u8
            }
        );
    }
    let ns = nvme_id_ns::from_bytes(ByteOrder::Big, &bytes);
    for k in 0..16usize {
        assert_eq!(ns.lbaf[k].ms, 0x100 * k as u16 + 0x80 + k as u16);
        assert_eq!(ns.lbaf[k].ds, 9 + k as u8);
    }
}

#[test]
fn size_is_read_in_the_given_order() {
    let mut bytes = [0u8; 4096];
    bytes[..8].copy_from_slice(&[1, 2, 3, 4, 5, 6, 7, 8]);
    assert_eq!(
        nvme_id_ns::from_bytes(ByteOrder::Little, &bytes).nsze,
        0x0807_0605_0403_0201
    );
    assert_eq!(
        nvme_id_ns::from_bytes(ByteOrder::Big, &bytes).nsze,
        0x0102_0304_0506_0708
    );
}

#[test]
fn only_the_low_four_bits_select() {
    let bytes = response(1, 0xf3, 3, 9);
    let ns = nvme_id_ns::from_bytes(ByteOrder::Little, &bytes);
    assert_eq!(ns.flbas, 0xf3);
    assert_eq!(ns.selected_format().ds, 9);
    let handle = NvmeBlockDeviceHandle::from_identify(0, 1, &ns).unwrap();
    assert_eq!(handle.logical_block_size(), 512);
    let bytes = response(1, 0x0f, 15, 10);
    let ns = nvme_id_ns::from_bytes(ByteOrder::Little, &bytes);
    let handle = NvmeBlockDeviceHandle::from_identify(0, 1, &ns).unwrap();
    assert_eq!(handle.logical_block_size(), 1024);
}

#[test]
fn block_size_must_fit_the_machine() {
    let fits = response(1, 0, 0, (usize::BITS - 1) as u8);
    let ns = nvme_id_ns::from_bytes(ByteOrder::Little, &fits);
    let handle = NvmeBlockDeviceHandle::from_identify(0, 1, &ns).unwrap();
    assert_eq!(handle.logical_block_size(), 1usize << (usize::BITS - 1));
    for ds in [usize::BITS as u8, 200, 255] {
        let bytes = response(1, 0, 0, ds);
        let ns = nvme_id_ns::from_bytes(ByteOrder::Little, &bytes);
        assert_eq!(
            NvmeBlockDeviceHandle::from_identify(0, 1, &ns).unwrap_err(),
            DeviceError::IdentifyFailed(IdentifyFault::Geometry)
        );
    }
}

#[test]
fn exponent_zero_is_one_byte_blocks() {
    let ns = nvme_id_ns::from_bytes(ByteOrder::Little, &[0u8; 4096]);
    let handle = NvmeBlockDeviceHandle::from_identify(0, 0, &ns).unwrap();
    assert_eq!(handle.logical_block_size(), 1);
    assert_eq!(handle.size(), 0);
}
