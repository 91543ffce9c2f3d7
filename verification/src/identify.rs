//! The identify data structure of a namespace, as far as the geometry needs
//! it.

use crate::byte_order::{u16_from_bytes, u16_value, u64_from_bytes, u64_value, ByteOrder};
use vstd::prelude::*;

verus! {

/// Size in bytes of the identify data structure.
pub const NVME_ID_NS_LEN: usize = 4096;

/// Number of entries in the table of LBA formats.
pub const NVME_LBAF_COUNT: usize = 16;

/// Offset of the namespace size, in logical blocks.
pub const NVME_ID_NS_NSZE: usize = 0;

/// Offset of the byte whose low four bits select the LBA format in use.
pub const NVME_ID_NS_FLBAS: usize = 26;

/// Offset of the table of LBA formats.
pub const NVME_ID_NS_LBAF: usize = 128;

/// One LBA format: metadata size, data size as a power of two, and relative
/// performance.
#[allow(non_camel_case_types)]
#[derive(Clone, Copy, Debug, PartialEq, Eq, Structural)]
pub struct nvme_lbaf {
    pub ms: u16,
    pub ds: u8,
    pub rp: u8,
}

/// The fields of the identify data structure that give the geometry.
#[allow(non_camel_case_types)]
#[derive(Clone, Copy, Debug)]
pub struct nvme_id_ns {
    pub nsze: u64,
    pub flbas: u8,
    pub lbaf: [nvme_lbaf; 16],
}

/// What an identify data structure says of the geometry.
pub struct IdentifyView {
    /// The namespace size in logical blocks.
    pub nsze: u64,
    /// The byte whose low four bits select the LBA format in use.
    pub flbas: u8,
    /// The table of LBA formats.
    pub lbaf: Seq<nvme_lbaf>,
}

impl View for nvme_id_ns {
    type V = IdentifyView;

    open spec fn view(&self) -> IdentifyView {
        IdentifyView { nsze: self.nsze, flbas: self.flbas, lbaf: self.lbaf@ }
    }
}

/// Entry `k` of the table of LBA formats in an identify data structure:
/// four bytes, the metadata size in the first two, then the data size and
/// the relative performance.
pub open spec fn spec_lbaf_at(order: ByteOrder, bytes: Seq<u8>, k: int) -> nvme_lbaf {
    let at = NVME_ID_NS_LBAF + 4 * k;
    nvme_lbaf {
        ms: u16_value(order, bytes.subrange(at, at + 2)),
        ds: bytes[at + 2],
        rp: bytes[at + 3],
    }
}

/// The geometry fields of the identify data structure `bytes`, each at its
/// offset.
pub open spec fn spec_parse(order: ByteOrder, bytes: Seq<u8>) -> IdentifyView {
    IdentifyView {
        nsze: u64_value(order, bytes.subrange(NVME_ID_NS_NSZE as int, NVME_ID_NS_NSZE + 8)),
        flbas: bytes[NVME_ID_NS_FLBAS as int],
        lbaf: Seq::new(NVME_LBAF_COUNT as nat, |k: int| spec_lbaf_at(order, bytes, k)),
    }
}

impl IdentifyView {
    /// The LBA format in use: the entry that the low four bits of `flbas`
    /// select.
    pub open spec fn selected_format(self) -> nvme_lbaf {
        self.lbaf[(self.flbas % 16) as int]
    }
}

impl nvme_id_ns {
    /// Reads the geometry fields out of an identify data structure.
    pub fn from_bytes(order: ByteOrder, bytes: &[u8; 4096]) -> (ns: Self)
        ensures
            ns@ == spec_parse(order, bytes@),
    {
        let raw = bytes.as_slice();
        let nsze = u64_from_bytes(order, raw, NVME_ID_NS_NSZE);
        let flbas = raw[NVME_ID_NS_FLBAS];
        let mut lbaf = [nvme_lbaf { ms: 0, ds: 0, rp: 0 };16];
        let mut k: usize = 0;
        while k < NVME_LBAF_COUNT
            invariant
                k <= NVME_LBAF_COUNT,
                raw@ == bytes@,
                raw.len() == 4096,
                forall|j: int| 0 <= j < k ==> lbaf@[j] == spec_lbaf_at(order, bytes@, j),
            decreases NVME_LBAF_COUNT - k,
        {
            let at = NVME_ID_NS_LBAF + 4 * k;
            lbaf[k] = nvme_lbaf {
                ms: u16_from_bytes(order, raw, at),
                ds: raw[at + 2],
                rp: raw[at + 3],
            };
            k += 1;
        }
        assert(lbaf@ =~= spec_parse(order, bytes@).lbaf);
        nvme_id_ns { nsze, flbas, lbaf }
    }

    /// The LBA format in use.
    pub fn selected_format(&self) -> (format: nvme_lbaf)
        ensures
            format == self@.selected_format(),
    {
        self.lbaf[(self.flbas % 16) as usize]
    }
}

} // verus!
