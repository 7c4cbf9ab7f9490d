//! The page of code that accepts the low megabyte of memory.
//!
//! Firmware that runs without a paravisor expects the first megabyte to be
//! validated. The page holds, behind the address to continue at, a loop that
//! validates page after page and then jumps to that address.

use vstd::prelude::*;

verus! {

/// The size of the page.
pub const PAGE_SIZE: usize = 4096;

/// Where the breakpoint stands, behind the address to continue at.
pub const BREAK_OFFSET: usize = 8;

/// Where the code starts.
pub const ENTRY_OFFSET: usize = 9;

/// `igvm_defs::PAGE_SIZE_4K`: the size of a page.
#[verifier::external_body]
fn page_size_4k() -> (r: u64)
    ensures
        r == 4096,
{
    igvm_defs::PAGE_SIZE_4K
}

/// The eight bytes of `value`, lowest first.
pub open spec fn le_bytes(value: u64) -> Seq<u8> {
    Seq::new(8, |i: int| ((value >> ((8 * i) as u64)) & 0xff) as u8)
}

/// The code of the page, from the breakpoint on.
pub open spec fn code() -> Seq<u8> {
    seq![
        // Break: int3
        0xCCu8,
        // mov esi, 01000h
        0xBE,
        0x00,
        0x10,
        0x00,
        0x00,
        // mov ebx, 0100000h
        0xBB,
        0x00,
        0x00,
        0x10,
        0x00,
        // xor ecx, ecx
        0x33,
        0xC9,
        // mov edx, 1
        0xBA,
        0x01,
        0x00,
        0x00,
        0x00,
        // L1: mov eax, esi
        0x8B,
        0xC6,
        // pvalidate
        0xF2,
        0x0F,
        0x01,
        0xFF,
        // jc Break
        0x72,
        0xE6,
        // test rax, rax
        0x48,
        0x85,
        0xC0,
        // jnz Break
        0x75,
        0xE1,
        // add esi, 01000h
        0x81,
        0xC6,
        0x00,
        0x10,
        0x00,
        0x00,
        // cmp esi, ebx
        0x3B,
        0xF3,
        // jb L1
        0x72,
        0xE9,
        // jmp [0]
        0xFF,
        0x25,
        0xC9,
        0xFF,
        0xFF,
        0xFF,
    ]
}

/// The page that continues at `rip` once the low megabyte is accepted: the
/// address, the code, and zeros to the end of the page.
pub open spec fn trampoline_page(rip: u64) -> Seq<u8> {
    le_bytes(rip) + code() + Seq::new((PAGE_SIZE - 55) as nat, |i: int| 0u8)
}

/// Writes `instruction` into `page` at `at` and returns where it ends.
fn copy_instr(page: &mut Vec<u8>, at: usize, instruction: &[u8]) -> (end: usize)
    requires
        at + instruction@.len() <= old(page)@.len(),
    ensures
        end == at + instruction@.len(),
        final(page)@.len() == old(page)@.len(),
        forall|i: int|
            0 <= i < old(page)@.len() ==> #[trigger] final(page)@[i] == if at <= i < end {
                instruction@[i - at]
            } else {
                old(page)@[i]
            },
{
    let total = page.len();
    let mut k: usize = 0;
    while k < instruction.len()
        invariant
            k <= instruction@.len(),
            at + instruction@.len() <= total,
            page@.len() == total,
            total == old(page)@.len(),
            forall|i: int|
                0 <= i < page@.len() ==> #[trigger] page@[i] == if at <= i < at + k {
                    instruction@[i - at]
                } else {
                    old(page)@[i]
                },
        decreases instruction@.len() - k,
    {
        page[at + k] = instruction[k];
        k += 1;
    }
    at + instruction.len()
}

/// The displacement of a short jump from the byte before `next` to
/// `target`.
fn short_jump(target: usize, next: usize) -> (r: u8)
    requires
        target < 256,
        next < 256,
    ensures
        r == if target >= next {
            (target - next) as u8
        } else {
            (256 + target - next) as u8
        },
{
    (target as u8).wrapping_sub(next as u8)
}

/// The eight bytes of `value`, lowest first.
pub fn u64_le_bytes(value: u64) -> (r: [u8; 8])
    ensures
        r@ == le_bytes(value),
{
    let r = [
        (value & 0xff) as u8,
        ((value >> 8) & 0xff) as u8,
        ((value >> 16) & 0xff) as u8,
        ((value >> 24) & 0xff) as u8,
        ((value >> 32) & 0xff) as u8,
        ((value >> 40) & 0xff) as u8,
        ((value >> 48) & 0xff) as u8,
        ((value >> 56) & 0xff) as u8,
    ];
    proof {
        assert(value >> 0 == value) by (bit_vector);
    }
    r
}

/// Builds the page that accepts the low megabyte and then continues at
/// `rip`. The processor is to start at [`ENTRY_OFFSET`] in the page.
pub fn build_trampoline(rip: u64) -> (page: Vec<u8>)
    ensures
        page@ == trampoline_page(rip),
{
    let size = page_size_4k() as usize;
    let mut page: Vec<u8> = Vec::new();
    let mut n: usize = 0;
    while n < size
        invariant
            size == PAGE_SIZE,
            n <= size,
            page@.len() == n,
            forall|i: int| 0 <= i < n ==> #[trigger] page@[i] == 0u8,
        decreases size - n,
    {
        page.push(0);
        n += 1;
    }
    // Since this page is discarded immediately after it executes, it can be
    // placed anywhere in memory.
    let address = u64_le_bytes(rip);
    copy_instr(&mut page, 0, address.as_slice());

    // Place a breakpoint at the front of the page to force a triple fault in
    // case of early failure.
    let break_offset = BREAK_OFFSET;
    page[break_offset] = 0xCC;
    let mut byte_offset = break_offset + 1;

    // mov esi, 01000h
    byte_offset = copy_instr(&mut page, byte_offset, [0xBE, 0x00, 0x10, 0x00, 0x00].as_slice());
    // mov ebx, 0100000h
    byte_offset = copy_instr(&mut page, byte_offset, [0xBB, 0x00, 0x00, 0x10, 0x00].as_slice());
    // xor ecx, ecx
    byte_offset = copy_instr(&mut page, byte_offset, [0x33, 0xC9].as_slice());
    // mov edx, 1
    byte_offset = copy_instr(&mut page, byte_offset, [0xBA, 0x01, 0x00, 0x00, 0x00].as_slice());
    // L1:
    let jump_offset = byte_offset;
    // mov eax, esi
    byte_offset = copy_instr(&mut page, byte_offset, [0x8B, 0xC6].as_slice());
    // pvalidate
    byte_offset = copy_instr(&mut page, byte_offset, [0xF2, 0x0F, 0x01, 0xFF].as_slice());
    // jc Break
    byte_offset = copy_instr(&mut page, byte_offset, [0x72].as_slice());
    byte_offset += 1;
    page[byte_offset - 1] = short_jump(break_offset, byte_offset);
    // test rax, rax
    byte_offset = copy_instr(&mut page, byte_offset, [0x48, 0x85, 0xC0].as_slice());
    // jnz Break
    byte_offset = copy_instr(&mut page, byte_offset, [0x75].as_slice());
    byte_offset += 1;
    page[byte_offset - 1] = short_jump(break_offset, byte_offset);
    // add esi, 01000h
    byte_offset = copy_instr(
        &mut page,
        byte_offset,
        [0x81, 0xC6, 0x00, 0x10, 0x00, 0x00].as_slice(),
    );
    // cmp esi, ebx
    byte_offset = copy_instr(&mut page, byte_offset, [0x3B, 0xF3].as_slice());
    // jb L1
    byte_offset = copy_instr(&mut page, byte_offset, [0x72].as_slice());
    byte_offset += 1;
    page[byte_offset - 1] = short_jump(jump_offset, byte_offset);
    // jmp [0]
    byte_offset = copy_instr(&mut page, byte_offset, [0xFF, 0x25].as_slice());
    let relative_offset: u32 = 0u32.wrapping_sub(byte_offset as u32 + 4);
    let relative = [
        (relative_offset & 0xff) as u8,
        ((relative_offset >> 8) & 0xff) as u8,
        ((relative_offset >> 16) & 0xff) as u8,
        ((relative_offset >> 24) & 0xff) as u8,
    ];
    copy_instr(&mut page, byte_offset, relative.as_slice());
    proof {
        assert(relative@ =~= seq![0xC9u8, 0xFF, 0xFF, 0xFF]) by {
            assert(0xFFFF_FFC9u32 & 0xff == 0xC9) by (bit_vector);
            assert((0xFFFF_FFC9u32 >> 8) & 0xff == 0xFF) by (bit_vector);
            assert((0xFFFF_FFC9u32 >> 16) & 0xff == 0xFF) by (bit_vector);
            assert((0xFFFF_FFC9u32 >> 24) & 0xff == 0xFF) by (bit_vector);
        }
    }
    page
}

} // verus!
