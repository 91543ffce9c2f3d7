use nvme_bdev::byte_order::ByteOrder;
use nvme_bdev::command::nvme_passthru_cmd;
use nvme_bdev::device::NvmeBlockDevice;
use nvme_bdev::error::{DeviceError, IdentifyFault};
use nvme_bdev::open::{OpenAction, OpenState};

const RESPONSE_ADDR: u64 = 0x7f12_3456_7000;

fn identify_data(blocks: u64, selected: u8, ds: u8) -> [u8; 4096] {
    let mut bytes = [0u8; 4096];
    bytes[..8].copy_from_slice(&blocks.to_le_bytes());
    bytes[26] = selected;
    bytes[128 + 4 * (selected & 0x0f) as usize + 2] = ds;
    bytes
}

#[test]
fn open_discovers_the_namespace() {
    let blank = [0u8; 4096];
    let state = NvmeBlockDevice::open(None, RESPONSE_ADDR);
    assert_eq!(state.action(), OpenAction::OpenFile);
    assert!(state.finish().is_none());

    let state = NvmeBlockDevice::open(None, RESPONSE_ADDR).step(Ok(4), ByteOrder::Little, &blank);
    assert_eq!(state.action(), OpenAction::QueryNamespaceId { fd: 4 });

    let state = state.step(Ok(1), ByteOrder::Little, &blank);
    assert_eq!(
        state.action(),
        OpenAction::Identify {
            fd: 4,
            command: nvme_passthru_cmd::identify_namespace(1, RESPONSE_ADDR),
        }
    );

    let data = identify_data(0x20_0000, 2, 12);
    let state = state.step(Ok(0), ByteOrder::Little, &data);
    assert_eq!(state.action(), OpenAction::Finish);
    let device = state.finish().unwrap().unwrap();
    assert_eq!(device.logical_block_size(), 4096);
    assert_eq!(device.size(), 0x20_0000);
    assert_eq!(device.handle().fd(), 4);
    assert_eq!(device.handle().namespace_id(), 1);
}

#[test]
fn open_with_a_given_namespace_skips_the_query() {
    let blank = [0u8; 4096];
    let state = NvmeBlockDevice::open(Some(9), RESPONSE_ADDR);
    assert_eq!(state.action(), OpenAction::OpenFile);
    let state = state.step(Ok(11), ByteOrder::Little, &blank);
    match state.action() {
        OpenAction::Identify { fd, command } => {
            assert_eq!(fd, 11);
            assert_eq!(command.opcode, 0x06);
            assert_eq!(command.nsid, 9);
            assert_eq!(command.addr, RESPONSE_ADDR);
            assert_eq!(command.data_len, 4096);
        }
        other => panic!("{:?}", other),
    }
    let data = identify_data(77, 0, 9);
    let device = state
        .step(Ok(0), ByteOrder::Little, &data)
        .finish()
        .unwrap()
        .unwrap();
    assert_eq!(device.logical_block_size(), 512);
    assert_eq!(device.size(), 77);
    assert_eq!(device.handle().namespace_id(), 9);
    assert_eq!(device.handle().fd(), 11);
}

#[test]
fn failed_open_is_open_failed() {
    let blank = [0u8; 4096];
    let state = NvmeBlockDevice::open(None, RESPONSE_ADDR).step(Err(2), ByteOrder::Little, &blank);
    assert_eq!(state.action(), OpenAction::Finish);
    assert_eq!(
        state.finish().unwrap().unwrap_err(),
        DeviceError::OpenFailed(2)
    );
    let state =
        NvmeBlockDevice::open(Some(1), RESPONSE_ADDR).step(Err(13), ByteOrder::Little, &blank);
    assert_eq!(
        state.finish().unwrap().unwrap_err(),
        DeviceError::OpenFailed(13)
    );
}

#[test]
fn failed_namespace_query_is_identify_failed() {
    let blank = [0u8; 4096];
    let state = NvmeBlockDevice::open(None, RESPONSE_ADDR)
        .step(Ok(4), ByteOrder::Little, &blank)
        .step(Err(25), ByteOrder::Little, &blank);
    assert_eq!(state.action(), OpenAction::Finish);
    assert_eq!(
        state.finish().unwrap().unwrap_err(),
        DeviceError::IdentifyFailed(IdentifyFault::Request(25))
    );
}

#[test]
fn failed_identify_is_identify_failed() {
    let data = identify_data(77, 0, 9);
    let state = NvmeBlockDevice::open(Some(1), RESPONSE_ADDR)
        .step(Ok(4), ByteOrder::Little, &data)
        .step(Err(22), ByteOrder::Little, &data);
    assert_eq!(
        state.finish().unwrap().unwrap_err(),
        DeviceError::IdentifyFailed(IdentifyFault::Request(22))
    );
}

#[test]
fn malformed_geometry_is_identify_failed() {
    let data = identify_data(77, 3, 64);
    let state = NvmeBlockDevice::open(Some(1), RESPONSE_ADDR)
        .step(Ok(4), ByteOrder::Little, &data)
        .step(Ok(0), ByteOrder::Little, &data);
    assert_eq!(
        state.finish().unwrap().unwrap_err(),
        DeviceError::IdentifyFailed(IdentifyFault::Geometry)
    );
}

#[test]
fn identify_status_is_not_looked_at() {
    let data = identify_data(5, 1, 12);
    let device = NvmeBlockDevice::open(Some(1), RESPONSE_ADDR)
        .step(Ok(4), ByteOrder::Little, &data)
        .step(Ok(0x4002), ByteOrder::Little, &data)
        .finish()
        .unwrap()
        .unwrap();
    assert_eq!(device.logical_block_size(), 4096);
    assert_eq!(device.size(), 5);
}

#[test]
fn ended_states_stay() {
    let data = identify_data(5, 1, 12);
    let ready = NvmeBlockDevice::open(Some(1), RESPONSE_ADDR)
        .step(Ok(4), ByteOrder::Little, &data)
        .step(Ok(0), ByteOrder::Little, &data);
    let still = ready.step(Err(5), ByteOrder::Little, &data);
    assert_eq!(still.action(), OpenAction::Finish);
    let device = still.finish().unwrap().unwrap();
    assert_eq!(device.handle().fd(), 4);

    let failed = NvmeBlockDevice::open(None, RESPONSE_ADDR).step(Err(2), ByteOrder::Little, &data);
    let still = failed.step(Ok(4), ByteOrder::Little, &data);
    assert_eq!(
        still.finish().unwrap().unwrap_err(),
        DeviceError::OpenFailed(2)
    );
}

#[test]
fn unfinished_states_have_no_end() {
    let blank = [0u8; 4096];
    assert!(matches!(
        NvmeBlockDevice::open(None, 0),
        OpenState::Opening {
            namespace_id: None,
            response_addr: 0
        }
    ));
    let querying = NvmeBlockDevice::open(None, 0).step(Ok(4), ByteOrder::Little, &blank);
    assert!(matches!(
        querying,
        OpenState::QueryingNamespace {
            fd: 4,
            response_addr: 0
        }
    ));
    assert!(querying.finish().is_none());
    let identifying = NvmeBlockDevice::open(Some(3), 0).step(Ok(4), ByteOrder::Little, &blank);
    assert!(matches!(
        identifying,
        OpenState::Identifying {
            fd: 4,
            nsid: 3,
            response_addr: 0
        }
    ));
    assert!(identifying.finish().is_none());
}

#[test]
fn identify_data_is_read_in_the_given_order() {
    let mut data = identify_data(0, 0, 9);
    data[..8].copy_from_slice(&0x1234u64.to_be_bytes());
    let device = NvmeBlockDevice::open(Some(1), RESPONSE_ADDR)
        .step(Ok(4), ByteOrder::Big, &data)
        .step(Ok(0), ByteOrder::Big, &data)
        .finish()
        .unwrap()
        .unwrap();
    assert_eq!(device.size(), 0x1234);
}
