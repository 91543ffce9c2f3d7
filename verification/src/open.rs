//! Opening a device: the sequence of outside operations and what follows
//! from each outcome.
//!
//! The caller performs the operations. After each one it hands the outcome
//! to [`OpenState::step`] and asks [`OpenState::action`] what to do next.

use crate::byte_order::ByteOrder;
use crate::command::nvme_passthru_cmd;
use crate::device::{spec_identified, HandleView, NvmeBlockDevice, NvmeBlockDeviceHandle};
use crate::error::{DeviceError, IdentifyFault};
use crate::identify::{nvme_id_ns, spec_parse};
use vstd::prelude::*;

verus! {

/// How far opening a device has come.
#[derive(Debug)]
pub enum OpenState {
    /// The device file is being opened.
    Opening { namespace_id: Option<u32>, response_addr: u64 },
    /// The driver is being asked for the namespace id.
    QueryingNamespace { fd: i32, response_addr: u64 },
    /// The identify command is with the driver.
    Identifying { fd: i32, nsid: u32, response_addr: u64 },
    /// The device is open.
    Ready(NvmeBlockDevice),
    /// Opening has failed.
    Failed(DeviceError),
}

/// What an [`OpenState`] stands for.
pub enum OpenStateView {
    Opening { namespace_id: Option<u32>, response_addr: u64 },
    QueryingNamespace { fd: i32, response_addr: u64 },
    Identifying { fd: i32, nsid: u32, response_addr: u64 },
    Ready(HandleView),
    Failed(DeviceError),
}

/// The outside operation that a state waits for.
#[derive(Clone, Copy, Debug, PartialEq, Eq, Structural)]
pub enum OpenAction {
    /// Open the device file; the outcome is its file descriptor.
    OpenFile,
    /// Issue the control request that returns the namespace id.
    QueryNamespaceId { fd: i32 },
    /// Issue the control request that carries `command`; the outcome is the
    /// driver's status.
    Identify { fd: i32, command: nvme_passthru_cmd },
    /// Nothing: opening has ended.
    Finish,
}

impl View for OpenState {
    type V = OpenStateView;

    open spec fn view(&self) -> OpenStateView {
        match *self {
            OpenState::Opening { namespace_id, response_addr } => OpenStateView::Opening {
                namespace_id,
                response_addr,
            },
            OpenState::QueryingNamespace { fd, response_addr } => OpenStateView::QueryingNamespace {
                fd,
                response_addr,
            },
            OpenState::Identifying { fd, nsid, response_addr } => OpenStateView::Identifying {
                fd,
                nsid,
                response_addr,
            },
            OpenState::Ready(device) => OpenStateView::Ready(device.spec_handle()@),
            OpenState::Failed(error) => OpenStateView::Failed(error),
        }
    }
}

impl OpenStateView {
    /// The operation that the state waits for.
    pub open spec fn action(self) -> OpenAction {
        match self {
            OpenStateView::Opening { .. } => OpenAction::OpenFile,
            OpenStateView::QueryingNamespace { fd, .. } => OpenAction::QueryNamespaceId { fd },
            OpenStateView::Identifying { fd, nsid, response_addr } => OpenAction::Identify {
                fd,
                command: nvme_passthru_cmd::spec_identify_namespace(nsid, response_addr),
            },
            OpenStateView::Ready(_) => OpenAction::Finish,
            OpenStateView::Failed(_) => OpenAction::Finish,
        }
    }

    /// The state after the awaited operation has ended with `outcome`, a
    /// result code or an errno, and, for the identify command, has left
    /// `response` in the response buffer.
    ///
    /// A failed open ends in `OpenFailed`, a failed control request in
    /// `IdentifyFailed`. An opened file leads to the identify command
    /// directly where the namespace id was given, else by way of the query
    /// for it, whose result code is the id. The status of the identify
    /// command is not looked at. Nothing is retried, and a state that has
    /// ended stays as it is.
    pub open spec fn step(
        self,
        outcome: Result<i32, u32>,
        order: ByteOrder,
        response: Seq<u8>,
    ) -> Self {
        match self {
            OpenStateView::Opening { namespace_id, response_addr } => match outcome {
                Err(errno) => OpenStateView::Failed(DeviceError::OpenFailed(errno)),
                Ok(fd) => match namespace_id {
                    Some(nsid) => OpenStateView::Identifying { fd, nsid, response_addr },
                    None => OpenStateView::QueryingNamespace { fd, response_addr },
                },
            },
            OpenStateView::QueryingNamespace { fd, response_addr } => match outcome {
                Err(errno) => OpenStateView::Failed(
                    DeviceError::IdentifyFailed(IdentifyFault::Request(errno)),
                ),
                Ok(code) => OpenStateView::Identifying { fd, nsid: code as u32, response_addr },
            },
            OpenStateView::Identifying { fd, nsid, .. } => match outcome {
                Err(errno) => OpenStateView::Failed(
                    DeviceError::IdentifyFailed(IdentifyFault::Request(errno)),
                ),
                Ok(_) => match spec_identified(fd, nsid, spec_parse(order, response)) {
                    Ok(handle) => OpenStateView::Ready(handle),
                    Err(error) => OpenStateView::Failed(error),
                },
            },
            OpenStateView::Ready(handle) => OpenStateView::Ready(handle),
            OpenStateView::Failed(error) => OpenStateView::Failed(error),
        }
    }
}

impl OpenState {
    /// The operation that the state waits for.
    pub fn action(&self) -> (action: OpenAction)
        ensures
            action == self@.action(),
    {
        match self {
            OpenState::Opening { .. } => OpenAction::OpenFile,
            OpenState::QueryingNamespace { fd, .. } => OpenAction::QueryNamespaceId { fd: *fd },
            OpenState::Identifying { fd, nsid, response_addr } => OpenAction::Identify {
                fd: *fd,
                command: nvme_passthru_cmd::identify_namespace(*nsid, *response_addr),
            },
            OpenState::Ready(_) => OpenAction::Finish,
            OpenState::Failed(_) => OpenAction::Finish,
        }
    }

    /// Takes the outcome of the awaited operation. `response` is the
    /// response buffer, which only the outcome of the identify command
    /// reads, its integers in byte order `order`.
    pub fn step(self, outcome: Result<i32, u32>, order: ByteOrder, response: &[u8; 4096]) -> (next:
        OpenState)
        ensures
            next@ == self@.step(outcome, order, response@),
    {
        match self {
            OpenState::Opening { namespace_id, response_addr } => match outcome {
                Err(errno) => OpenState::Failed(DeviceError::OpenFailed(errno)),
                Ok(fd) => match namespace_id {
                    Some(nsid) => OpenState::Identifying { fd, nsid, response_addr },
                    None => OpenState::QueryingNamespace { fd, response_addr },
                },
            },
            OpenState::QueryingNamespace { fd, response_addr } => match outcome {
                Err(errno) => OpenState::Failed(
                    DeviceError::IdentifyFailed(IdentifyFault::Request(errno)),
                ),
                Ok(code) => OpenState::Identifying {
                    fd,
                    nsid: #[verifier::truncate]
                    (code as u32),
                    response_addr,
                },
            },
            OpenState::Identifying { fd, nsid, .. } => match outcome {
                Err(errno) => OpenState::Failed(
                    DeviceError::IdentifyFailed(IdentifyFault::Request(errno)),
                ),
                Ok(_) => {
                    let ns = nvme_id_ns::from_bytes(order, response);
                    match NvmeBlockDeviceHandle::from_identify(fd, nsid, &ns) {
                        Ok(handle) => OpenState::Ready(NvmeBlockDevice::new(handle)),
                        Err(error) => OpenState::Failed(error),
                    }
                },
            },
            OpenState::Ready(device) => OpenState::Ready(device),
            OpenState::Failed(error) => OpenState::Failed(error),
        }
    }

    /// The device or the error that opening has ended with, if it has ended.
    pub fn finish(self) -> (end: Option<Result<NvmeBlockDevice, DeviceError>>)
        ensures
            match self {
                OpenState::Ready(device) => end == Some(Ok::<NvmeBlockDevice, DeviceError>(device)),
                OpenState::Failed(error) => end == Some(Err::<NvmeBlockDevice, DeviceError>(error)),
                _ => end.is_none(),
            },
    {
        match self {
            OpenState::Ready(device) => Some(Ok(device)),
            OpenState::Failed(error) => Some(Err(error)),
            _ => None,
        }
    }
}

impl NvmeBlockDevice {
    /// Begins opening a device whose identify data structure the driver is
    /// to write to the 4096 bytes at `response_addr`. Where `namespace_id`
    /// is given, the driver is not asked for it.
    pub fn open(namespace_id: Option<u32>, response_addr: u64) -> (state: OpenState)
        ensures
            state@ == (OpenStateView::Opening { namespace_id, response_addr }),
    {
        OpenState::Opening { namespace_id, response_addr }
    }
}

} // verus!
