//! Address-space planning: the fixed memory regions that the guest's own
//! startup code expects (static data, then the stack, then the heap).
use vstd::prelude::*;

verus! {

/// Size of the guest stack, in bytes.
pub const TOTAL_STACK: u32 = 5_242_880;

/// Distance from the static bump to the dynamic-top slot, as used by the
/// standalone helpers `dynamictop_ptr` and friends.
pub const DYNAMICTOP_PTR_DIFF: u32 = 1088;

/// Size of the static data region that the toolchain reserves.
pub const STATIC_BUMP: u32 = 215_536;

/// The address globals begin at: static memory starts here.
pub const GLOBAL_BASE: u32 = 1024;

/// Start of the static region.
pub const STATIC_BASE: u32 = GLOBAL_BASE;

/// Every region boundary is a multiple of this many bytes.
pub const ALIGNMENT: u32 = 16;

/// Bytes reserved at the top of static data for double-precision conversions.
pub const TEMP_DOUBLE_SIZE: u32 = 16;

/// `p` rounded up to the next multiple of `ALIGNMENT`.
pub open spec fn align_up(p: int) -> int {
    ((p + 15) / 16) * 16
}

pub proof fn lemma_align_up(p: int)
    requires
        p >= 0,
    ensures
        align_up(p) % 16 == 0,
        p <= align_up(p) < p + 16,
        p % 16 == 0 ==> align_up(p) == p,
{
}

/// Rounds `ptr` up to the next multiple of sixteen.
pub fn align_memory(ptr: u32) -> (r: u32)
    requires
        ptr as int + 15 <= u32::MAX,
    ensures
        r == align_up(ptr as int),
        r % 16 == 0,
        ptr <= r < ptr + 16,
{
    let t: u32 = ptr + 15;
    let r: u32 = t - t % 16;
    assert(r == align_up(ptr as int));
    r
}

/// Bump-allocates `size` bytes at `*static_top` and returns their address;
/// the top moves past them, rounded up to the alignment.
pub fn static_alloc(static_top: &mut u32, size: u32) -> (r: u32)
    requires
        *old(static_top) as int + size as int + 15 <= u32::MAX,
    ensures
        r == *old(static_top),
        *final(static_top) == align_up(*old(static_top) + size),
{
    let old_top: u32 = *static_top;
    *static_top = align_memory(old_top + size);
    old_top
}

/// The dynamic-top slot for a given static bump: `static_bump + DYNAMICTOP_PTR_DIFF`.
pub fn dynamictop_ptr(static_bump: u32) -> (r: u32)
    requires
        static_bump as int + DYNAMICTOP_PTR_DIFF <= u32::MAX,
    ensures
        r == static_bump + DYNAMICTOP_PTR_DIFF,
{
    static_bump + DYNAMICTOP_PTR_DIFF
}

/// The stack top for a given static bump: just past the dynamic-top slot, aligned.
pub fn stacktop(static_bump: u32) -> (r: u32)
    requires
        static_bump as int + DYNAMICTOP_PTR_DIFF + 4 + 15 <= u32::MAX,
    ensures
        r == align_up(static_bump + DYNAMICTOP_PTR_DIFF + 4),
{
    align_memory(dynamictop_ptr(static_bump) + 4)
}

/// The stack limit for a given static bump: `TOTAL_STACK` bytes above the stack top.
pub fn stack_max(static_bump: u32) -> (r: u32)
    requires
        static_bump as int + DYNAMICTOP_PTR_DIFF + 4 + 15 + TOTAL_STACK <= u32::MAX,
    ensures
        r == align_up(static_bump + DYNAMICTOP_PTR_DIFF + 4) + TOTAL_STACK,
{
    stacktop(static_bump) + TOTAL_STACK
}

/// The heap base for a given static bump: the stack limit, aligned.
pub fn dynamic_base(static_bump: u32) -> (r: u32)
    requires
        static_bump as int + DYNAMICTOP_PTR_DIFF + 4 + 15 + TOTAL_STACK + 15 <= u32::MAX,
    ensures
        r == align_up(align_up(static_bump + DYNAMICTOP_PTR_DIFF + 4) + TOTAL_STACK),
{
    align_memory(stack_max(static_bump))
}

/// The fixed memory regions of one instance. Computed once, read-only after.
#[derive(Clone, Copy, Debug, PartialEq, Eq, Structural)]
pub struct AddressLayout {
    pub global_base: u32,
    pub static_base: u32,
    pub static_top: u32,
    pub memory_base: u32,
    pub table_base: u32,
    pub temp_double_ptr: u32,
    pub dynamictop_ptr: u32,
    pub stacktop: u32,
    pub stack_max: u32,
    pub dynamic_base: u32,
}

/// Whether every region of the layout for `static_data_size` fits in a 32-bit address.
pub open spec fn layout_fits(static_data_size: int) -> bool {
    STATIC_BASE + static_data_size + TEMP_DOUBLE_SIZE + 4 + 15 + TOTAL_STACK + 15 <= u32::MAX
}

/// The layout for a static data region of `static_data_size` bytes.
pub open spec fn layout_of(static_data_size: int) -> AddressLayout {
    let temp_double_ptr = STATIC_BASE + static_data_size;
    let dynamictop_ptr = temp_double_ptr + TEMP_DOUBLE_SIZE;
    let static_top = align_up(dynamictop_ptr + 4);
    let stacktop = align_up(static_top);
    let stack_max = stacktop + TOTAL_STACK;
    let dynamic_base = align_up(stack_max);
    AddressLayout {
        global_base: GLOBAL_BASE,
        static_base: STATIC_BASE,
        static_top: static_top as u32,
        memory_base: STATIC_BASE,
        table_base: 0,
        temp_double_ptr: temp_double_ptr as u32,
        dynamictop_ptr: dynamictop_ptr as u32,
        stacktop: stacktop as u32,
        stack_max: stack_max as u32,
        dynamic_base: dynamic_base as u32,
    }
}

/// Plans the address space for a static data region of `static_data_size` bytes:
/// the static data, a scratch slot for double conversions, the dynamic-top slot,
/// the stack, and the start of the heap, each boundary aligned.
pub fn layout(static_data_size: u32) -> (r: AddressLayout)
    requires
        layout_fits(static_data_size as int),
    ensures
        r == layout_of(static_data_size as int),
{
    let mut static_top: u32 = STATIC_BASE + static_data_size;
    let temp_double_ptr: u32 = static_top;
    static_top = static_top + TEMP_DOUBLE_SIZE;
    let dynamictop_ptr: u32 = static_alloc(&mut static_top, 4);
    let stacktop: u32 = align_memory(static_top);
    let stack_max: u32 = stacktop + TOTAL_STACK;
    let dynamic_base: u32 = align_memory(stack_max);
    AddressLayout {
        global_base: GLOBAL_BASE,
        static_base: STATIC_BASE,
        static_top,
        memory_base: STATIC_BASE,
        table_base: 0,
        temp_double_ptr,
        dynamictop_ptr,
        stacktop,
        stack_max,
        dynamic_base,
    }
}

/// Planning is deterministic: equal static sizes give identical layouts.
pub proof fn lemma_layout_deterministic(a: int, b: int)
    requires
        a == b,
    ensures
        layout_of(a) == layout_of(b),
{
}

/// Where the static size is a multiple of the alignment, every address of the
/// layout is a multiple of it.
pub proof fn lemma_layout_aligned(static_data_size: int)
    requires
        static_data_size >= 0,
        layout_fits(static_data_size),
        static_data_size % 16 == 0,
    ensures
        ({
            let l = layout_of(static_data_size);
            &&& l.global_base % 16 == 0
            &&& l.static_base % 16 == 0
            &&& l.static_top % 16 == 0
            &&& l.memory_base % 16 == 0
            &&& l.table_base % 16 == 0
            &&& l.temp_double_ptr % 16 == 0
            &&& l.dynamictop_ptr % 16 == 0
            &&& l.stacktop % 16 == 0
            &&& l.stack_max % 16 == 0
            &&& l.dynamic_base % 16 == 0
        }),
{
    let t = STATIC_BASE + static_data_size + TEMP_DOUBLE_SIZE;
    lemma_align_up(t + 4);
    lemma_align_up(align_up(t + 4));
    lemma_align_up(align_up(align_up(t + 4)) + TOTAL_STACK);
}

/// The regions are ordered: static data, then the stack, then the heap. The
/// heap starts exactly at the stack limit, which is already aligned.
pub proof fn lemma_layout_ordered(static_data_size: int)
    requires
        static_data_size >= 0,
        layout_fits(static_data_size),
    ensures
        ({
            let l = layout_of(static_data_size);
            &&& l.static_base <= l.temp_double_ptr
            &&& l.temp_double_ptr < l.dynamictop_ptr
            &&& l.dynamictop_ptr < l.stacktop
            &&& l.stacktop < l.stack_max
            &&& l.stack_max <= l.dynamic_base
            &&& l.dynamic_base == l.stack_max
        }),
{
    let t = STATIC_BASE + static_data_size + TEMP_DOUBLE_SIZE;
    lemma_align_up(t + 4);
    lemma_align_up(align_up(t + 4));
    lemma_align_up(align_up(align_up(t + 4)) + TOTAL_STACK);
}

} // verus!
