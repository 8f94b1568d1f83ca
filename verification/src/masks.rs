//! The event-category bit values of the kernel's change-notification
//! queue, shared by watch registration and by the record predicates.
use vstd::prelude::*;

verus! {

/// A file was read.
pub const IN_ACCESS: u32 = 0x0000_0001;
/// A file was written to.
pub const IN_MODIFY: u32 = 0x0000_0002;
/// Metadata (permissions, timestamps, ...) changed.
pub const IN_ATTRIB: u32 = 0x0000_0004;
/// A file opened for writing was closed.
pub const IN_CLOSE_WRITE: u32 = 0x0000_0008;
/// A file not opened for writing was closed.
pub const IN_CLOSE_NOWRITE: u32 = 0x0000_0010;
/// A file was opened.
pub const IN_OPEN: u32 = 0x0000_0020;
/// A file was moved out of a watched directory.
pub const IN_MOVED_FROM: u32 = 0x0000_0040;
/// A file was moved into a watched directory.
pub const IN_MOVED_TO: u32 = 0x0000_0080;
/// A file or directory was created in a watched directory.
pub const IN_CREATE: u32 = 0x0000_0100;
/// A file or directory was deleted from a watched directory.
pub const IN_DELETE: u32 = 0x0000_0200;
/// The watched path itself was deleted.
pub const IN_DELETE_SELF: u32 = 0x0000_0400;
/// The watched path itself was moved.
pub const IN_MOVE_SELF: u32 = 0x0000_0800;
/// The filesystem holding the watched path was unmounted.
pub const IN_UNMOUNT: u32 = 0x0000_2000;
/// The kernel's event queue overflowed.
pub const IN_Q_OVERFLOW: u32 = 0x0000_4000;
/// The watch was removed by the kernel.
pub const IN_IGNORED: u32 = 0x0000_8000;
/// Union group: any close, write or not.
pub const IN_CLOSE: u32 = IN_CLOSE_WRITE | IN_CLOSE_NOWRITE;
/// Union group: any move, out of or into.
pub const IN_MOVE: u32 = IN_MOVED_FROM | IN_MOVED_TO;
/// The subject of the event is a directory.
pub const IN_ISDIR: u32 = 0x4000_0000;

/// The test every record predicate performs: is one of `bits` set in `mask`?
pub open spec fn has_bits(mask: u32, bits: u32) -> bool {
    mask & bits != 0
}

/// The any-close group holds exactly when one of its two members holds:
/// testing against `IN_CLOSE` is the logical OR of the two finer tests.
pub proof fn lemma_close_union(mask: u32)
    ensures
        has_bits(mask, IN_CLOSE) <==> (has_bits(mask, IN_CLOSE_WRITE) || has_bits(
            mask,
            IN_CLOSE_NOWRITE,
        )),
{
    assert(IN_CLOSE == (0x8u32 | 0x10u32) && IN_CLOSE_WRITE == 0x8u32 && IN_CLOSE_NOWRITE
        == 0x10u32);
    assert((0x8u32 | 0x10u32) == 0x18u32) by (bit_vector);
    assert((mask & 0x18u32 != 0) <==> ((mask & 0x8u32 != 0) || (mask & 0x10u32 != 0)))
        by (bit_vector);
}

/// The any-move group holds exactly when one of its two members holds:
/// testing against `IN_MOVE` is the logical OR of the two finer tests.
pub proof fn lemma_move_union(mask: u32)
    ensures
        has_bits(mask, IN_MOVE) <==> (has_bits(mask, IN_MOVED_FROM) || has_bits(
            mask,
            IN_MOVED_TO,
        )),
{
    assert(IN_MOVE == (0x40u32 | 0x80u32) && IN_MOVED_FROM == 0x40u32 && IN_MOVED_TO
        == 0x80u32);
    assert((0x40u32 | 0x80u32) == 0xc0u32) by (bit_vector);
    assert((mask & 0xc0u32 != 0) <==> ((mask & 0x40u32 != 0) || (mask & 0x80u32 != 0)))
        by (bit_vector);
}

} // verus!

