//! The device, its shareable handle, and the queues that turn
//! transfers into commands.

use crate::byte_order::ByteOrder;
use crate::command::{nvme_uring_cmd, NVME_OPCODE_READ, NVME_OPCODE_WRITE, NVME_URING_CMD_IO};
use crate::error::{DeviceError, IdentifyFault, RequestFault};
use crate::identify::{nvme_id_ns, IdentifyView};
use crate::ring::{uring_cmd80, uring_cmd80_entry};
use vstd::arithmetic::power2::pow2;
use vstd::prelude::*;

verus! {

/// What a handle stands for.
pub struct HandleView {
    /// The open file descriptor of the namespace.
    pub fd: i32,
    /// The namespace id.
    pub nsid: u32,
    /// The logical block size as a power of two.
    pub block_shift: nat,
    /// The number of logical blocks.
    pub size: nat,
}

/// The record of an identified namespace. It never changes, so any number of
/// queues may hold a copy.
#[derive(Clone, Copy, Debug)]
pub struct NvmeBlockDeviceHandle {
    fd: i32,
    nsid: u32,
    block_shift: u32,
    size: usize,
}

impl View for NvmeBlockDeviceHandle {
    type V = HandleView;

    closed spec fn view(&self) -> HandleView {
        HandleView {
            fd: self.fd,
            nsid: self.nsid,
            block_shift: self.block_shift as nat,
            size: self.size as nat,
        }
    }
}

/// The handle that an identify data structure describes, or why there is
/// none: the block size of the format in use must fit a `usize`. The block
/// count is the device's, reduced to the range of `usize` where that is
/// narrower than 64 bits.
pub open spec fn spec_identified(fd: i32, nsid: u32, ns: IdentifyView) -> Result<
    HandleView,
    DeviceError,
> {
    let format = ns.selected_format();
    if format.ds < usize::BITS {
        Ok(HandleView { fd, nsid, block_shift: format.ds as nat, size: (ns.nsze as usize) as nat })
    } else {
        Err(DeviceError::IdentifyFailed(IdentifyFault::Geometry))
    }
}

impl NvmeBlockDeviceHandle {
    /// The block size fits a `usize`. This holds of every handle that the
    /// program holds.
    #[verifier::type_invariant]
    pub open spec fn wf(self) -> bool {
        self@.block_shift < usize::BITS
    }

    /// The logical block size in bytes.
    pub open spec fn spec_logical_block_size(self) -> nat {
        pow2(self@.block_shift)
    }

    /// The size of the namespace in logical blocks.
    pub open spec fn spec_size(self) -> nat {
        self@.size
    }

    /// The handle for the namespace `nsid` behind `fd` whose identify data
    /// structure is `ns`.
    pub fn from_identify(fd: i32, nsid: u32, ns: &nvme_id_ns) -> (handle: Result<Self, DeviceError>)
        ensures
            match spec_identified(fd, nsid, ns@) {
                Ok(view) => handle matches Ok(h) && h@ == view && h.wf(),
                Err(e) => handle == Err::<Self, DeviceError>(e),
            },
    {
        let format = ns.selected_format();
        if (format.ds as u32) < usize::BITS {
            Ok(
                NvmeBlockDeviceHandle {
                    fd,
                    nsid,
                    block_shift: format.ds as u32,
                    size: #[verifier::truncate]
                    (ns.nsze as usize),
                },
            )
        } else {
            Err(DeviceError::IdentifyFailed(IdentifyFault::Geometry))
        }
    }

    /// The open file descriptor of the namespace.
    pub fn fd(&self) -> (fd: i32)
        ensures
            fd == self@.fd,
    {
        self.fd
    }

    /// The namespace id.
    pub fn namespace_id(&self) -> (nsid: u32)
        ensures
            nsid == self@.nsid,
    {
        self.nsid
    }

    /// The logical block size as a power of two.
    pub fn block_shift(&self) -> (shift: u32)
        ensures
            shift == self@.block_shift,
    {
        self.block_shift
    }

    /// The logical block size in bytes.
    pub fn logical_block_size(&self) -> (bytes: usize)
        ensures
            bytes == self.spec_logical_block_size(),
    {
        proof {
            use_type_invariant(self);
            vstd::bits::lemma_usize_pow2_no_overflow(self.block_shift as nat);
            vstd::bits::lemma_usize_shl_is_mul(1usize, self.block_shift as usize);
        }
        1usize << (self.block_shift as usize)
    }

    /// The size of the namespace in logical blocks.
    pub fn size(&self) -> (blocks: usize)
        ensures
            blocks == self.spec_size(),
    {
        self.size
    }

    /// A queue on this device.
    pub fn create_queue(&self) -> (queue: NvmeBlockDeviceQueue)
        ensures
            queue.spec_handle() == *self,
    {
        NvmeBlockDeviceQueue { handle: *self }
    }
}

/// An identified namespace.
#[derive(Debug)]
pub struct NvmeBlockDevice {
    handle: NvmeBlockDeviceHandle,
}

impl NvmeBlockDevice {
    /// The device's handle.
    pub closed spec fn spec_handle(self) -> NvmeBlockDeviceHandle {
        self.handle
    }

    /// The device with the given handle.
    pub fn new(handle: NvmeBlockDeviceHandle) -> (device: Self)
        ensures
            device.spec_handle() == handle,
    {
        NvmeBlockDevice { handle }
    }

    /// The device's handle.
    pub fn handle<'a>(&'a self) -> (handle: &'a NvmeBlockDeviceHandle)
        ensures
            *handle == self.spec_handle(),
    {
        &self.handle
    }

    /// The logical block size in bytes.
    pub fn logical_block_size(&self) -> (bytes: usize)
        ensures
            bytes == self.spec_handle().spec_logical_block_size(),
    {
        self.handle.logical_block_size()
    }

    /// The size of the namespace in logical blocks.
    pub fn size(&self) -> (blocks: usize)
        ensures
            blocks == self.spec_handle().spec_size(),
    {
        self.handle.size()
    }

    /// A queue on this device.
    pub fn create_queue(&self) -> (queue: NvmeBlockDeviceQueue)
        ensures
            queue.spec_handle() == self.spec_handle(),
    {
        self.handle.create_queue()
    }
}

/// Why a transfer of `len` bytes at byte `offset` cannot be made with blocks
/// of `2^block_shift` bytes, if it cannot: it must move at least one block,
/// start and end on a block boundary, and fit the command's length field.
pub open spec fn spec_request_fault(block_shift: nat, len: usize, offset: u64) -> Option<
    RequestFault,
> {
    if len == 0 {
        Some(RequestFault::ZeroLength)
    } else if len as nat % pow2(block_shift) != 0 || offset as nat % pow2(block_shift) != 0 {
        Some(RequestFault::Misaligned)
    } else if len > u32::MAX {
        Some(RequestFault::TooLong)
    } else {
        None
    }
}

/// The command that moves the `len` bytes at `addr` to or from byte `offset`
/// of the namespace: the starting block is the offset, the block count the
/// length, each divided by the block size.
pub open spec fn spec_transfer(
    device: HandleView,
    opcode: u8,
    addr: u64,
    len: usize,
    offset: u64,
) -> Result<nvme_uring_cmd, DeviceError> {
    match spec_request_fault(device.block_shift, len, offset) {
        Some(fault) => Err(DeviceError::InvalidRequest(fault)),
        None => Ok(
            nvme_uring_cmd::spec_read_write(
                opcode,
                device.nsid,
                (offset as nat / pow2(device.block_shift)) as u64,
                (len as nat / pow2(device.block_shift)) as u32,
                addr,
                len as u32,
            ),
        ),
    }
}

/// What a transfer of `len` bytes has come to when the ring reports
/// `result` for it: a negative result is an errno, negated; any other
/// result means that all `len` bytes were moved.
pub open spec fn spec_completion(len: usize, result: i32) -> Result<usize, DeviceError> {
    if result < 0 {
        Err(DeviceError::IoFailed((-result) as u32))
    } else {
        Ok(len)
    }
}

/// The binding of a device handle to one submission ring. The ring itself
/// stays with the caller; a queue is neither copied nor shared.
#[derive(Debug)]
pub struct NvmeBlockDeviceQueue {
    handle: NvmeBlockDeviceHandle,
}

impl NvmeBlockDeviceQueue {
    /// The handle of the queue's device.
    pub closed spec fn spec_handle(self) -> NvmeBlockDeviceHandle {
        self.handle
    }

    /// The handle of the queue's device.
    pub fn handle<'a>(&'a self) -> (handle: &'a NvmeBlockDeviceHandle)
        ensures
            *handle == self.spec_handle(),
    {
        &self.handle
    }

    /// The logical block size in bytes.
    pub fn logical_block_size(&self) -> (bytes: usize)
        ensures
            bytes == self.spec_handle().spec_logical_block_size(),
    {
        self.handle.logical_block_size()
    }

    /// The size of the namespace in logical blocks.
    pub fn size(&self) -> (blocks: usize)
        ensures
            blocks == self.spec_handle().spec_size(),
    {
        self.handle.size()
    }

    /// Builds the command of a transfer, or turns the transfer down.
    fn transfer(&self, opcode: u8, addr: u64, len: usize, offset: u64) -> (cmd: Result<
        nvme_uring_cmd,
        DeviceError,
    >)
        ensures
            cmd == spec_transfer(self.spec_handle()@, opcode, addr, len, offset),
    {
        if len == 0 {
            return Err(DeviceError::InvalidRequest(RequestFault::ZeroLength));
        }
        let shift = self.handle.block_shift;
        let block_size = self.handle.logical_block_size();
        let ghost bs = pow2(shift as nat);
        proof {
            use_type_invariant(&self.handle);
            vstd::arithmetic::power2::lemma_pow2_pos(shift as nat);
        }
        if len % block_size != 0 || offset % (block_size as u64) != 0 {
            return Err(DeviceError::InvalidRequest(RequestFault::Misaligned));
        }
        if len > u32::MAX as usize {
            return Err(DeviceError::InvalidRequest(RequestFault::TooLong));
        }
        proof {
            vstd::bits::lemma_usize_shr_is_div(len, shift as usize);
            vstd::bits::lemma_u64_shr_is_div(offset, shift as u64);
            assert(len as nat / bs >= 1 && len as nat / bs <= len) by (nonlinear_arith)
                requires
                    bs > 0,
                    len > 0,
                    len as nat % bs == 0,
            ;
        }
        let block_count = (len >> (shift as usize)) as u32;
        let starting_block = offset >> (shift as u64);
        Ok(
            nvme_uring_cmd::read_write(
                opcode,
                self.handle.nsid,
                starting_block,
                block_count,
                addr,
                len as u32,
            ),
        )
    }

    /// The command that reads `len` bytes from byte `offset` of the
    /// namespace into the buffer at `addr`.
    pub fn read_command(&self, addr: u64, len: usize, offset: u64) -> (cmd: Result<
        nvme_uring_cmd,
        DeviceError,
    >)
        ensures
            cmd == spec_transfer(self.spec_handle()@, NVME_OPCODE_READ, addr, len, offset),
    {
        self.transfer(NVME_OPCODE_READ, addr, len, offset)
    }

    /// The command that writes the `len` bytes of the buffer at `addr` to
    /// byte `offset` of the namespace.
    pub fn write_command(&self, addr: u64, len: usize, offset: u64) -> (cmd: Result<
        nvme_uring_cmd,
        DeviceError,
    >)
        ensures
            cmd == spec_transfer(self.spec_handle()@, NVME_OPCODE_WRITE, addr, len, offset),
    {
        self.transfer(NVME_OPCODE_WRITE, addr, len, offset)
    }

    /// The ring entry that hands `cmd` to the driver of this queue's device.
    pub fn submission(&self, cmd: &nvme_uring_cmd, order: ByteOrder) -> (entry:
        io_uring::squeue::Entry128)
        ensures
            entry == uring_cmd80_entry(
                self.spec_handle()@.fd,
                NVME_URING_CMD_IO,
                cmd.spec_bytes(order),
            ),
    {
        uring_cmd80(self.handle.fd, NVME_URING_CMD_IO, cmd.to_bytes(order))
    }

    /// Prepares the read of `len` bytes from byte `offset` of the namespace
    /// into the buffer at `addr`: the ring entry to submit, unless the
    /// transfer is turned down. The buffer must stay where it is until the
    /// ring reports the entry's completion, which [`Self::completion`]
    /// interprets.
    pub fn read_at(&self, addr: u64, len: usize, offset: u64, order: ByteOrder) -> (entry: Result<
        io_uring::squeue::Entry128,
        DeviceError,
    >)
        ensures
            match spec_transfer(self.spec_handle()@, NVME_OPCODE_READ, addr, len, offset) {
                Ok(cmd) => entry matches Ok(e) && e == uring_cmd80_entry(
                    self.spec_handle()@.fd,
                    NVME_URING_CMD_IO,
                    cmd.spec_bytes(order),
                ),
                Err(error) => entry matches Err(e) && e == error,
            },
    {
        match self.read_command(addr, len, offset) {
            Ok(cmd) => Ok(self.submission(&cmd, order)),
            Err(error) => Err(error),
        }
    }

    /// Prepares the write of the `len` bytes of the buffer at `addr` to byte
    /// `offset` of the namespace: the ring entry to submit, unless the
    /// transfer is turned down. The buffer must stay where it is until the
    /// ring reports the entry's completion, which [`Self::completion`]
    /// interprets.
    pub fn write_at(&self, addr: u64, len: usize, offset: u64, order: ByteOrder) -> (entry: Result<
        io_uring::squeue::Entry128,
        DeviceError,
    >)
        ensures
            match spec_transfer(self.spec_handle()@, NVME_OPCODE_WRITE, addr, len, offset) {
                Ok(cmd) => entry matches Ok(e) && e == uring_cmd80_entry(
                    self.spec_handle()@.fd,
                    NVME_URING_CMD_IO,
                    cmd.spec_bytes(order),
                ),
                Err(error) => entry matches Err(e) && e == error,
            },
    {
        match self.write_command(addr, len, offset) {
            Ok(cmd) => Ok(self.submission(&cmd, order)),
            Err(error) => Err(error),
        }
    }

    /// Interprets the result that the ring reports for a transfer of `len`
    /// bytes.
    pub fn completion(len: usize, result: i32) -> (done: Result<usize, DeviceError>)
        ensures
            done == spec_completion(len, result),
    {
        if result < 0 {
            Err(DeviceError::IoFailed((-(result as i64)) as u32))
        } else {
            Ok(len)
        }
    }
}

/// Queues made from one handle see the handle's geometry, and so the same
/// geometry; and the command that a queue builds for a transfer depends on
/// the transfer and on the handle alone, whatever other queues do.
pub proof fn lemma_queues_share_geometry(
    handle: NvmeBlockDeviceHandle,
    first: NvmeBlockDeviceQueue,
    second: NvmeBlockDeviceQueue,
)
    requires
        first.spec_handle() == handle,
        second.spec_handle() == handle,
    ensures
        first.spec_handle().spec_logical_block_size() == handle.spec_logical_block_size(),
        second.spec_handle().spec_logical_block_size() == handle.spec_logical_block_size(),
        first.spec_handle().spec_size() == handle.spec_size(),
        second.spec_handle().spec_size() == handle.spec_size(),
        forall|opcode: u8, addr: u64, len: usize, offset: u64|
            spec_transfer(first.spec_handle()@, opcode, addr, len, offset) == spec_transfer(
                second.spec_handle()@,
                opcode,
                addr,
                len,
                offset,
            ),
{
}

/// A command that is built addresses exactly the bytes that were asked for:
/// its starting block, put together from its two halves, times the block
/// size is the offset; its block count, one more than stored, times the
/// block size is the length; and its byte length is the length.
pub proof fn lemma_transfer_covers_request(
    device: HandleView,
    opcode: u8,
    addr: u64,
    len: usize,
    offset: u64,
)
    requires
        device.block_shift < usize::BITS,
        spec_transfer(device, opcode, addr, len, offset) is Ok,
    ensures
        ({
            let cmd = spec_transfer(device, opcode, addr, len, offset)->Ok_0;
            &&& cmd.opcode == opcode
            &&& cmd.nsid == device.nsid
            &&& cmd.addr == addr
            &&& cmd.data_len == len
            &&& (cmd.cdw10 + 0x1_0000_0000 * cmd.cdw11) * pow2(device.block_shift) == offset
            &&& (cmd.cdw12 + 1) * pow2(device.block_shift) == len
        }),
{
    let bs = pow2(device.block_shift);
    vstd::arithmetic::power2::lemma_pow2_pos(device.block_shift);
    let blocks = len as nat / bs;
    let start = offset as nat / bs;
    assert(blocks * bs == len && start * bs == offset && 1 <= blocks <= len && start <= offset)
        by (nonlinear_arith)
        requires
            bs > 0,
            len > 0,
            len as nat % bs == 0,
            offset as nat % bs == 0,
            blocks == len as nat / bs,
            start == offset as nat / bs,
    ;
}

/// A read and a write of the same bytes address the same blocks: both are
/// turned down for the same reason, or their commands differ in the opcode
/// alone. So what a write has stored is what a read of the same offset and
/// length asks the device for.
pub proof fn lemma_read_addresses_what_write_did(
    device: HandleView,
    addr: u64,
    len: usize,
    offset: u64,
)
    ensures
        match spec_transfer(device, NVME_OPCODE_WRITE, addr, len, offset) {
            Ok(write) => spec_transfer(device, NVME_OPCODE_READ, addr, len, offset) == Ok::<
                nvme_uring_cmd,
                DeviceError,
            >(nvme_uring_cmd { opcode: NVME_OPCODE_READ, ..write }),
            Err(error) => spec_transfer(device, NVME_OPCODE_READ, addr, len, offset) == Err::<
                nvme_uring_cmd,
                DeviceError,
            >(error),
        },
{
}

} // verus!
