//! A diagnostic for stacks: a region of memory that is to serve as a stack is painted with a
//! known value before use, and what is left of the paint afterwards tells how deep the stack
//! grew.
//!
//! A stack grows downwards from the end of its region, so the paint survives at the start of
//! the region. The functions work on a region they are handed and read nothing of the
//! machine: the address of the region, the stack pointer and the order of the paint value's
//! bytes in memory are given to them.
use vstd::prelude::*;

verus! {

/// The value that unused stack is painted with.
pub const STACK_PAINT_VALUE: u32 = 0xDEADBEEF;

/// How many words below the stack pointer are left unpainted.
pub const SAFETY_MARGIN_WORDS: usize = 64;

/// How many bytes of a region of `size` bytes at address `stack_start` are painted while the
/// stack pointer is `current_sp`: where the stack pointer lies in the region, all bytes below
/// it but for the safety margin; else the whole region.
pub open spec fn paint_count_of(size: int, stack_start: int, current_sp: int) -> int {
    if current_sp > stack_start && current_sp - stack_start < size {
        current_sp - stack_start - 64 * 4
    } else {
        size
    }
}

/// How the bytes of a region tell how much of it was used.
#[derive(Clone, Copy, PartialEq, Eq, Debug, Structural)]
pub struct StackUsage {
    /// The number of bytes from the first one that lost its paint to the end of the region.
    pub used_bytes: usize,
    /// The number of bytes at the start of the region that still hold the paint.
    pub unused_bytes: usize,
}

/// Paints the start of the region `mem` with the bytes of the paint value, over and over,
/// as far as `paint_count_of` says, and leaves the rest as it is.
///
/// The stack pointer must not lie in the region with less than the safety margin below it.
pub fn paint_stack_mem<const SIZE: usize>(
    mem: &mut [u8; SIZE],
    bytes: [u8; 4],
    stack_start: usize,
    current_sp: usize,
)
    requires
        paint_count_of(SIZE as int, stack_start as int, current_sp as int) >= 0,
    ensures
        forall|i: int|
            0 <= i < SIZE ==> #[trigger] final(mem)@[i] == if i < paint_count_of(
                SIZE as int,
                stack_start as int,
                current_sp as int,
            ) {
                bytes@[i % 4]
            } else {
                old(mem)@[i]
            },
{
    let count = if current_sp > stack_start && current_sp - stack_start < SIZE {
        current_sp - stack_start - SAFETY_MARGIN_WORDS * 4
    } else {
        SIZE
    };

    for i in 0..count
        invariant
            count <= SIZE,
            forall|j: int|
                0 <= j < SIZE ==> #[trigger] mem@[j] == if j < i {
                    bytes@[j % 4]
                } else {
                    old(mem)@[j]
                },
    {
        mem[i] = bytes[i % 4];
    }
}

/// Whether `usage` is how the region `mem` tells its use: the unused bytes are those before
/// the first byte that differs from the byte of the paint value that belongs there, and the
/// used bytes are the rest.
pub open spec fn is_usage_of(usage: StackUsage, mem: Seq<u8>, bytes: Seq<u8>) -> bool {
    &&& usage.unused_bytes <= mem.len()
    &&& forall|i: int| 0 <= i < usage.unused_bytes ==> #[trigger] mem[i] == bytes[i % 4]
    &&& usage.unused_bytes < mem.len() ==> mem[usage.unused_bytes as int]
        != bytes[usage.unused_bytes as int % 4]
    &&& usage.used_bytes == mem.len() - usage.unused_bytes
}

/// Counts the bytes at the start of the region `mem` that still hold the paint: the count
/// ends at the first byte that differs from the byte of the paint value that belongs there.
pub fn measure_stack_mem_usage<const SIZE: usize>(mem: &[u8; SIZE], bytes: [u8; 4]) -> (usage:
    StackUsage)
    ensures
        is_usage_of(usage, mem@, bytes@),
{
    let mut unused_bytes: usize = 0;

    while unused_bytes < SIZE && mem[unused_bytes] == bytes[unused_bytes % 4]
        invariant
            unused_bytes <= SIZE,
            forall|j: int| 0 <= j < unused_bytes ==> #[trigger] mem@[j] == bytes@[j % 4],
        decreases SIZE - unused_bytes,
    {
        unused_bytes = unused_bytes + 1;
    }

    let used_bytes = SIZE - unused_bytes;
    StackUsage { used_bytes, unused_bytes }
}

/// A region tells its use in one way only.
pub proof fn lemma_usage_is_unique(first: StackUsage, second: StackUsage, mem: Seq<u8>, bytes: Seq<u8>)
    requires
        is_usage_of(first, mem, bytes),
        is_usage_of(second, mem, bytes),
    ensures
        first == second,
{
    if first.unused_bytes < second.unused_bytes {
        assert(mem[first.unused_bytes as int] == bytes[first.unused_bytes as int % 4]);
    }
    if second.unused_bytes < first.unused_bytes {
        assert(mem[second.unused_bytes as int] == bytes[second.unused_bytes as int % 4]);
    }
}

/// A region that was painted up to `count` and not written since is unused at least up to
/// there: all of it, where all of it was painted.
pub proof fn lemma_paint_is_measured(usage: StackUsage, mem: Seq<u8>, bytes: Seq<u8>, count: int)
    requires
        0 <= count <= mem.len(),
        forall|i: int| 0 <= i < count ==> #[trigger] mem[i] == bytes[i % 4],
        is_usage_of(usage, mem, bytes),
    ensures
        usage.unused_bytes >= count,
        count == mem.len() ==> usage.unused_bytes == mem.len() && usage.used_bytes == 0,
{
    if usage.unused_bytes < count {
        assert(mem[usage.unused_bytes as int] == bytes[usage.unused_bytes as int % 4]);
    }
}

} // verus!
