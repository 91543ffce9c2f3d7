//! The command structures that the NVMe driver takes, and their layout in
//! memory.

use crate::byte_order::{
    u16_bytes, u16_to_bytes, u32_bytes, u32_to_bytes, u64_bytes, u64_to_bytes, ByteOrder,
};
use vstd::prelude::*;

verus! {

/// Opcode of the flush command.
pub const NVME_OPCODE_FLUSH: u8 = 0x00;

/// Opcode of the write command.
pub const NVME_OPCODE_WRITE: u8 = 0x01;

/// Opcode of the read command.
pub const NVME_OPCODE_READ: u8 = 0x02;

/// Opcode of the administrative identify command.
pub const NVME_ADMIN_OPCODE_IDENTIFY: u8 = 0x06;

/// Identify report selector: the namespace data structure.
pub const NVME_IDENTIFY_CNS_NS: u32 = 0x00;

/// Command set identifier of the NVM command set.
pub const NVME_CSI_NVM: u32 = 0;

/// Position of the command set identifier in the identify command's
/// second command-specific word.
pub const NVME_IDENTIFY_CSI_SHIFT: u32 = 24;

/// Size in bytes of either command structure.
pub const NVME_CMD_LEN: usize = 72;

/// Size in bytes of the command area of a ring entry.
pub const URING_CMD_LEN: usize = 80;

/// Size in bytes of the identify data structure.
pub const NVME_IDENTIFY_DATA_LEN: u32 = 4096;

/// `n` zero bytes.
pub open spec fn zeros(n: nat) -> Seq<u8> {
    Seq::new(n, |i: int| 0u8)
}

/// Copies `field` into `out` at `at` and returns the position after it.
fn put<const N: usize, const M: usize>(out: &mut [u8; N], at: usize, field: [u8; M]) -> (end:
    usize)
    requires
        at + M <= N,
    ensures
        end == at + M,
        forall|j: int| 0 <= j < at ==> final(out)@[j] == old(out)@[j],
        forall|j: int| at <= j < end ==> final(out)@[j] == field@[j - at],
        forall|j: int| end <= j < N ==> final(out)@[j] == old(out)@[j],
{
    let mut i: usize = 0;
    while i < M
        invariant
            i <= M,
            at + M <= N,
            forall|j: int| 0 <= j < at ==> out@[j] == old(out)@[j],
            forall|j: int| at <= j < at + i ==> out@[j] == field@[j - at],
            forall|j: int| at + i <= j < N ==> out@[j] == old(out)@[j],
        decreases M - i,
    {
        out[at + i] = field[i];
        i += 1;
    }
    at + M
}

/// A data-path command as it is handed to the driver through a ring entry.
#[allow(non_camel_case_types)]
#[derive(Clone, Copy, Debug, PartialEq, Eq, Structural)]
pub struct nvme_uring_cmd {
    pub opcode: u8,
    pub flags: u8,
    pub rsvd1: u16,
    pub nsid: u32,
    pub cdw2: u32,
    pub cdw3: u32,
    pub metadata: u64,
    pub addr: u64,
    pub metadata_len: u32,
    pub data_len: u32,
    pub cdw10: u32,
    pub cdw11: u32,
    pub cdw12: u32,
    pub cdw13: u32,
    pub cdw14: u32,
    pub cdw15: u32,
    pub timeout_ms: u32,
    pub rsvd2: u32,
}

impl nvme_uring_cmd {
    /// The command with every field zero.
    pub open spec fn spec_zeroed() -> Self {
        nvme_uring_cmd {
            opcode: 0,
            flags: 0,
            rsvd1: 0,
            nsid: 0,
            cdw2: 0,
            cdw3: 0,
            metadata: 0,
            addr: 0,
            metadata_len: 0,
            data_len: 0,
            cdw10: 0,
            cdw11: 0,
            cdw12: 0,
            cdw13: 0,
            cdw14: 0,
            cdw15: 0,
            timeout_ms: 0,
            rsvd2: 0,
        }
    }

    /// The command with every field zero.
    pub fn zeroed() -> (cmd: Self)
        ensures
            cmd == Self::spec_zeroed(),
    {
        nvme_uring_cmd {
            opcode: 0,
            flags: 0,
            rsvd1: 0,
            nsid: 0,
            cdw2: 0,
            cdw3: 0,
            metadata: 0,
            addr: 0,
            metadata_len: 0,
            data_len: 0,
            cdw10: 0,
            cdw11: 0,
            cdw12: 0,
            cdw13: 0,
            cdw14: 0,
            cdw15: 0,
            timeout_ms: 0,
            rsvd2: 0,
        }
    }

    /// The command that transfers `block_count` logical blocks, starting
    /// with block `starting_block`, between namespace `nsid` and the
    /// `data_len` bytes at `addr`. The count is stored less one, the
    /// starting block as its low and high halves; whatever the command does
    /// not use is zero.
    pub open spec fn spec_read_write(
        opcode: u8,
        nsid: u32,
        starting_block: u64,
        block_count: u32,
        addr: u64,
        data_len: u32,
    ) -> Self {
        nvme_uring_cmd {
            opcode,
            nsid,
            addr,
            data_len,
            cdw10: (starting_block % 0x1_0000_0000) as u32,
            cdw11: (starting_block / 0x1_0000_0000) as u32,
            cdw12: (block_count - 1) as u32,
            ..Self::spec_zeroed()
        }
    }

    /// Builds the transfer command. A transfer of no block has no encoding.
    pub fn read_write(
        opcode: u8,
        nsid: u32,
        starting_block: u64,
        block_count: u32,
        addr: u64,
        data_len: u32,
    ) -> (cmd: Self)
        requires
            block_count >= 1,
        ensures
            cmd == Self::spec_read_write(opcode, nsid, starting_block, block_count, addr, data_len),
    {
        let mut cmd = Self::zeroed();
        cmd.opcode = opcode;
        cmd.nsid = nsid;
        cmd.addr = addr;
        cmd.data_len = data_len;
        cmd.cdw10 = (starting_block % 0x1_0000_0000) as u32;
        cmd.cdw11 = (starting_block / 0x1_0000_0000) as u32;
        cmd.cdw12 = block_count - 1;
        cmd
    }

    /// The control-request command with the same fields: the two
    /// structures differ only in that the last word is reserved here.
    pub open spec fn spec_as_passthru(self) -> nvme_passthru_cmd {
        nvme_passthru_cmd {
            opcode: self.opcode,
            flags: self.flags,
            rsvd1: self.rsvd1,
            nsid: self.nsid,
            cdw2: self.cdw2,
            cdw3: self.cdw3,
            metadata: self.metadata,
            addr: self.addr,
            metadata_len: self.metadata_len,
            data_len: self.data_len,
            cdw10: self.cdw10,
            cdw11: self.cdw11,
            cdw12: self.cdw12,
            cdw13: self.cdw13,
            cdw14: self.cdw14,
            cdw15: self.cdw15,
            timeout_ms: self.timeout_ms,
            result: self.rsvd2,
        }
    }

    /// The control-request command with the same fields.
    pub fn as_passthru(&self) -> (cmd: nvme_passthru_cmd)
        ensures
            cmd == self.spec_as_passthru(),
    {
        nvme_passthru_cmd {
            opcode: self.opcode,
            flags: self.flags,
            rsvd1: self.rsvd1,
            nsid: self.nsid,
            cdw2: self.cdw2,
            cdw3: self.cdw3,
            metadata: self.metadata,
            addr: self.addr,
            metadata_len: self.metadata_len,
            data_len: self.data_len,
            cdw10: self.cdw10,
            cdw11: self.cdw11,
            cdw12: self.cdw12,
            cdw13: self.cdw13,
            cdw14: self.cdw14,
            cdw15: self.cdw15,
            timeout_ms: self.timeout_ms,
            result: self.rsvd2,
        }
    }

    /// The 80-byte command area of a ring entry: the structure's 72 bytes,
    /// then zeros.
    pub open spec fn spec_bytes(self, order: ByteOrder) -> Seq<u8> {
        self.spec_as_passthru().spec_bytes(order) + zeros(8)
    }

    /// Lays the command out as the command area of a ring entry.
    pub fn to_bytes(&self, order: ByteOrder) -> (out: [u8; 80])
        ensures
            out@ == self.spec_bytes(order),
    {
        let mut out = [0u8; 80];
        let _ = put(&mut out, 0, self.as_passthru().to_bytes(order));
        assert(out@ =~= self.spec_bytes(order));
        out
    }
}

/// An administrative command as it is handed to the driver through a
/// control request.
#[allow(non_camel_case_types)]
#[derive(Clone, Copy, Debug, PartialEq, Eq, Structural)]
pub struct nvme_passthru_cmd {
    pub opcode: u8,
    pub flags: u8,
    pub rsvd1: u16,
    pub nsid: u32,
    pub cdw2: u32,
    pub cdw3: u32,
    pub metadata: u64,
    pub addr: u64,
    pub metadata_len: u32,
    pub data_len: u32,
    pub cdw10: u32,
    pub cdw11: u32,
    pub cdw12: u32,
    pub cdw13: u32,
    pub cdw14: u32,
    pub cdw15: u32,
    pub timeout_ms: u32,
    pub result: u32,
}

impl nvme_passthru_cmd {
    /// The command with every field zero.
    pub open spec fn spec_zeroed() -> Self {
        nvme_passthru_cmd {
            opcode: 0,
            flags: 0,
            rsvd1: 0,
            nsid: 0,
            cdw2: 0,
            cdw3: 0,
            metadata: 0,
            addr: 0,
            metadata_len: 0,
            data_len: 0,
            cdw10: 0,
            cdw11: 0,
            cdw12: 0,
            cdw13: 0,
            cdw14: 0,
            cdw15: 0,
            timeout_ms: 0,
            result: 0,
        }
    }

    /// The command with every field zero.
    pub fn zeroed() -> (cmd: Self)
        ensures
            cmd == Self::spec_zeroed(),
    {
        nvme_passthru_cmd {
            opcode: 0,
            flags: 0,
            rsvd1: 0,
            nsid: 0,
            cdw2: 0,
            cdw3: 0,
            metadata: 0,
            addr: 0,
            metadata_len: 0,
            data_len: 0,
            cdw10: 0,
            cdw11: 0,
            cdw12: 0,
            cdw13: 0,
            cdw14: 0,
            cdw15: 0,
            timeout_ms: 0,
            result: 0,
        }
    }

    /// The identify command that asks for the data structure of namespace
    /// `nsid` under the NVM command set, to be written to the
    /// [`NVME_IDENTIFY_DATA_LEN`] bytes at `addr`.
    pub open spec fn spec_identify_namespace(nsid: u32, addr: u64) -> Self {
        nvme_passthru_cmd {
            opcode: NVME_ADMIN_OPCODE_IDENTIFY,
            nsid,
            addr,
            data_len: NVME_IDENTIFY_DATA_LEN,
            cdw10: NVME_IDENTIFY_CNS_NS,
            cdw11: 0,
            ..Self::spec_zeroed()
        }
    }

    /// Builds the identify-namespace command.
    pub fn identify_namespace(nsid: u32, addr: u64) -> (cmd: Self)
        ensures
            cmd == Self::spec_identify_namespace(nsid, addr),
    {
        assert(NVME_CSI_NVM << NVME_IDENTIFY_CSI_SHIFT == 0) by (bit_vector);
        let mut cmd = Self::zeroed();
        cmd.opcode = NVME_ADMIN_OPCODE_IDENTIFY;
        cmd.nsid = nsid;
        cmd.addr = addr;
        cmd.data_len = NVME_IDENTIFY_DATA_LEN;
        cmd.cdw10 = NVME_IDENTIFY_CNS_NS;
        cmd.cdw11 = NVME_CSI_NVM << NVME_IDENTIFY_CSI_SHIFT;
        cmd
    }

    /// The byte at offset `i` of the structure: the fields follow one
    /// another without gaps, each integer in the given byte order.
    pub open spec fn spec_byte(self, order: ByteOrder, i: int) -> u8 {
        if i < 1 {
            self.opcode
        } else if i < 2 {
            self.flags
        } else if i < 4 {
            u16_bytes(order, self.rsvd1)[i - 2]
        } else if i < 8 {
            u32_bytes(order, self.nsid)[i - 4]
        } else if i < 12 {
            u32_bytes(order, self.cdw2)[i - 8]
        } else if i < 16 {
            u32_bytes(order, self.cdw3)[i - 12]
        } else if i < 24 {
            u64_bytes(order, self.metadata)[i - 16]
        } else if i < 32 {
            u64_bytes(order, self.addr)[i - 24]
        } else if i < 36 {
            u32_bytes(order, self.metadata_len)[i - 32]
        } else if i < 40 {
            u32_bytes(order, self.data_len)[i - 36]
        } else if i < 44 {
            u32_bytes(order, self.cdw10)[i - 40]
        } else if i < 48 {
            u32_bytes(order, self.cdw11)[i - 44]
        } else if i < 52 {
            u32_bytes(order, self.cdw12)[i - 48]
        } else if i < 56 {
            u32_bytes(order, self.cdw13)[i - 52]
        } else if i < 60 {
            u32_bytes(order, self.cdw14)[i - 56]
        } else if i < 64 {
            u32_bytes(order, self.cdw15)[i - 60]
        } else if i < 68 {
            u32_bytes(order, self.timeout_ms)[i - 64]
        } else {
            u32_bytes(order, self.result)[i - 68]
        }
    }

    /// The structure's 72 bytes as the driver reads them.
    pub open spec fn spec_bytes(self, order: ByteOrder) -> Seq<u8> {
        Seq::new(72, |i: int| self.spec_byte(order, i))
    }

    /// Lays the command out as the driver reads it.
    pub fn to_bytes(&self, order: ByteOrder) -> (out: [u8; 72])
        ensures
            out@ == self.spec_bytes(order),
    {
        let mut out = [0u8; 72];
        let at = put(&mut out, 0, [self.opcode, self.flags]);
        let at = put(&mut out, at, u16_to_bytes(order, self.rsvd1));
        let at = put(&mut out, at, u32_to_bytes(order, self.nsid));
        let at = put(&mut out, at, u32_to_bytes(order, self.cdw2));
        let at = put(&mut out, at, u32_to_bytes(order, self.cdw3));
        let at = put(&mut out, at, u64_to_bytes(order, self.metadata));
        let at = put(&mut out, at, u64_to_bytes(order, self.addr));
        let at = put(&mut out, at, u32_to_bytes(order, self.metadata_len));
        let at = put(&mut out, at, u32_to_bytes(order, self.data_len));
        let at = put(&mut out, at, u32_to_bytes(order, self.cdw10));
        let at = put(&mut out, at, u32_to_bytes(order, self.cdw11));
        let at = put(&mut out, at, u32_to_bytes(order, self.cdw12));
        let at = put(&mut out, at, u32_to_bytes(order, self.cdw13));
        let at = put(&mut out, at, u32_to_bytes(order, self.cdw14));
        let at = put(&mut out, at, u32_to_bytes(order, self.cdw15));
        let at = put(&mut out, at, u32_to_bytes(order, self.timeout_ms));
        let _ = put(&mut out, at, u32_to_bytes(order, self.result));
        assert(out@ =~= self.spec_bytes(order));
        out
    }
}

/// Where the fields of a transfer command lie in the command area of a ring
/// entry: the opcode in byte 0, the namespace id in bytes 4 to 7, the
/// buffer address in bytes 24 to 31, the byte length in bytes 36 to 39, the
/// low half of the starting block in bytes 40 to 43, its high half in bytes
/// 44 to 47, the block count less one in bytes 48 to 51, and zero in every
/// other byte.
pub proof fn lemma_read_write_layout(
    order: ByteOrder,
    opcode: u8,
    nsid: u32,
    starting_block: u64,
    block_count: u32,
    addr: u64,
    data_len: u32,
)
    requires
        block_count >= 1,
    ensures
        ({
            let bytes = nvme_uring_cmd::spec_read_write(
                opcode,
                nsid,
                starting_block,
                block_count,
                addr,
                data_len,
            ).spec_bytes(order);
            &&& bytes.len() == 80
            &&& bytes[0] == opcode
            &&& bytes.subrange(4, 8) == u32_bytes(order, nsid)
            &&& bytes.subrange(24, 32) == u64_bytes(order, addr)
            &&& bytes.subrange(36, 40) == u32_bytes(order, data_len)
            &&& bytes.subrange(40, 44) == u32_bytes(
                order,
                (starting_block % 0x1_0000_0000) as u32,
            )
            &&& bytes.subrange(44, 48) == u32_bytes(
                order,
                (starting_block / 0x1_0000_0000) as u32,
            )
            &&& bytes.subrange(48, 52) == u32_bytes(order, (block_count - 1) as u32)
            &&& forall|i: int|
                1 <= i < 4 || 8 <= i < 24 || 32 <= i < 36 || 52 <= i < 80 ==> bytes[i] == 0
        }),
{
    let cmd = nvme_uring_cmd::spec_read_write(
        opcode,
        nsid,
        starting_block,
        block_count,
        addr,
        data_len,
    );
    let bytes = cmd.spec_bytes(order);
    lemma_zero_bytes(order);
    assert(bytes.subrange(4, 8) =~= u32_bytes(order, nsid));
    assert(bytes.subrange(24, 32) =~= u64_bytes(order, addr));
    assert(bytes.subrange(36, 40) =~= u32_bytes(order, data_len));
    assert(bytes.subrange(40, 44) =~= u32_bytes(order, cmd.cdw10));
    assert(bytes.subrange(44, 48) =~= u32_bytes(order, cmd.cdw11));
    assert(bytes.subrange(48, 52) =~= u32_bytes(order, cmd.cdw12));
}

/// Zero is all zero bytes in either byte order.
proof fn lemma_zero_bytes(order: ByteOrder)
    ensures
        u16_bytes(order, 0) == zeros(2),
        u32_bytes(order, 0) == zeros(4),
        u64_bytes(order, 0) == zeros(8),
{
    assert(u16_bytes(order, 0) =~= zeros(2));
    assert(u32_bytes(order, 0) =~= zeros(4));
    assert(u64_bytes(order, 0) =~= zeros(8));
}

/// The request code of a control request of type `ty` and number `nr` that
/// passes `size` bytes both ways, in the layout that Linux uses on x86, Arm
/// and RISC-V: the direction (read and write) in the top two bits, then 14
/// bits of size, the type and the number. A size too wide for its field
/// loses its upper bits.
pub open spec fn spec_request_code_readwrite(ty: u8, nr: u8, size: usize) -> int {
    0xC000_0000 + (size % 0x4000) * 0x1_0000 + ty * 0x100 + nr
}

/// Computes the request code of a read-and-write control request.
pub fn request_code_readwrite(ty: u8, nr: u8, size: usize) -> (code: u32)
    ensures
        code == spec_request_code_readwrite(ty, nr, size),
{
    0xC000_0000u32 + ((size % 0x4000) as u32) * 0x1_0000 + (ty as u32) * 0x100 + nr as u32
}

/// The type byte of every NVMe control request, the letter N.
pub const NVME_IOCTL_TYPE: u8 = 0x4E;

/// The number of the control request that carries a data-path command.
pub const NVME_URING_CMD_IO_NR: u8 = 0x80;

/// The command code under which a ring entry carries a data-path command.
pub const NVME_URING_CMD_IO: u32 = 0xC048_4E80;

/// [`NVME_URING_CMD_IO`] is the read-and-write request code of number 0x80 for
/// a structure of [`NVME_CMD_LEN`] bytes.
pub proof fn lemma_uring_cmd_io_code()
    ensures
        NVME_URING_CMD_IO == spec_request_code_readwrite(
            NVME_IOCTL_TYPE,
            NVME_URING_CMD_IO_NR,
            NVME_CMD_LEN,
        ),
{
}

} // verus!
