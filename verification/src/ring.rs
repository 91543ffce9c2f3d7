//! Submission ring entries that carry a driver command.

use vstd::prelude::*;

verus! {

#[verifier::external_type_specification]
#[verifier::external_body]
pub struct ExEntry128(io_uring::squeue::Entry128);

/// The ring entry that `io_uring::opcode::UringCmd80` builds for the file
/// descriptor `fd`, the command code `cmd_op` and the 80 bytes `cmd`.
pub uninterp spec fn uring_cmd80_entry(
    fd: i32,
    cmd_op: u32,
    cmd: Seq<u8>,
) -> io_uring::squeue::Entry128;

/// Builds a ring entry with `io_uring::opcode::UringCmd80`: `new` with the
/// plain file descriptor and the command code, `cmd` with the command area,
/// then `build`. The entry depends on these three values alone; no fixed
/// buffer is set.
#[verifier::external_body]
pub(crate) fn uring_cmd80(fd: i32, cmd_op: u32, cmd: [u8; 80]) -> (entry:
    io_uring::squeue::Entry128)
    ensures
        entry == uring_cmd80_entry(fd, cmd_op, cmd@),
{
    io_uring::opcode::UringCmd80::new(io_uring::types::Fd(fd), cmd_op).cmd(cmd).build()
}

} // verus!
