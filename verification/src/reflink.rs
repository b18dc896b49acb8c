//! The clone request to the kernel, and what its return comes to.

use crate::error::{CopyError, CopyErrorView, OsError};
use vstd::prelude::*;

verus! {

/// The request number of `FICLONE`.
pub const FICLONE: u32 = 0x40049409;

/// The generic Linux encoding of an ioctl that writes `size` bytes to the
/// kernel: direction in the two top bits, then the size of the argument,
/// the type (magic) byte of the driver and the number of the command.
pub open spec fn ioc_write(magic: u8, number: u8, size: u16) -> u32 {
    (1u32 << 30) | ((size as u32) << 16) | ((magic as u32) << 8) | (number as u32)
}

/// `FICLONE` is command 9 of magic `0x94`, and writes one C `int` (a file
/// descriptor, four bytes).
pub proof fn lemma_ficlone_encoding()
    ensures
        FICLONE == ioc_write(0x94, 9, 4),
{
    assert((1u32 << 30) | ((4u16 as u32) << 16) | ((0x94u8 as u32) << 8) | (9u8 as u32)
        == 0x40049409u32) by (bit_vector);
}

/// The request to hand to `ioctl` on the destination descriptor, with the
/// source descriptor as its argument.
pub fn clone_request() -> (request: u32)
    ensures
        request == FICLONE,
        request == ioc_write(0x94, 9, 4),
{
    proof {
        lemma_ficlone_encoding();
    }
    FICLONE
}

/// What the return of the clone ioctl comes to. Zero is success. Any other
/// status is an `IoctlError` that carries the operating system's error as
/// it was captured right after the call, untranslated.
pub fn clone_outcome(status: i32, last_error: OsError) -> (outcome: Result<(), CopyError>)
    ensures
        status == 0 ==> outcome is Ok,
        status != 0 ==> outcome is Err && outcome->Err_0@ == CopyErrorView::IoctlError(
            last_error@,
        ),
{
    if status == 0 {
        Ok(())
    } else {
        Err(CopyError::IoctlError(last_error))
    }
}

} // verus!
