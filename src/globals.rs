//! Sandbox bootstrap: the guest memory and table sized from the module's
//! declared bounds, the planned layout, and the heap start seeded into memory.
use crate::layout::{layout, layout_of, AddressLayout, STATIC_BUMP};
use vstd::prelude::*;
use wasmer_runtime_core::error::CreationError;
use wasmer_runtime_core::memory::Memory;
use wasmer_runtime_core::table::Table;
use wasmer_runtime_core::types::{ElementType, MemoryDescriptor, TableDescriptor};
use wasmer_runtime_core::units::Pages;

verus! {

#[verifier::external_type_specification]
#[verifier::external_body]
pub struct ExMemory(Memory);

#[verifier::external_type_specification]
#[verifier::external_body]
pub struct ExTable(Table);

#[verifier::external_type_specification]
#[verifier::external_body]
pub struct ExCreationError(CreationError);

/// The 32-bit words that a guest memory currently holds.
pub uninterp spec fn memory_words(m: Memory) -> Seq<u32>;

/// Whether a guest memory was created as shared between threads.
pub uninterp spec fn memory_shared(m: Memory) -> bool;

/// The (minimum, maximum) element bounds that a table was created with.
pub uninterp spec fn table_limits(t: Table) -> (u32, Option<u32>);

/// Bytes in one page of guest memory.
pub const PAGE_SIZE: u64 = 65536;

/// 32-bit words in one page of guest memory.
pub const WORDS_PER_PAGE: u64 = 16384;

/// The largest number of pages a guest memory may have.
pub const MAX_PAGES: u32 = 65536;

/// The words of a fresh memory of `pages` pages: all zero.
pub open spec fn zeroed_words(pages: int) -> Seq<u32> {
    Seq::new((pages * WORDS_PER_PAGE) as nat, |i: int| 0u32)
}

/// Relies on wasmer_runtime_core::memory::Memory::new with an unshared
/// descriptor: it refuses a maximum below the minimum; otherwise, when the
/// host can reserve the pages, the memory holds `minimum` pages of zeros
/// (anonymous mappings start zeroed).
#[verifier::external_body]
fn create_memory(minimum: u32, maximum: Option<u32>) -> (r: Result<Memory, CreationError>)
    requires
        minimum <= MAX_PAGES,
        maximum.is_some() ==> maximum.unwrap() <= MAX_PAGES,
    ensures
        maximum.is_some() && maximum.unwrap() < minimum ==> r.is_err(),
        r.is_ok() ==> memory_words(r.unwrap()) == zeroed_words(minimum as int),
        r.is_ok() ==> !memory_shared(r.unwrap()),
{
    Memory::new(MemoryDescriptor { minimum: Pages(minimum), maximum: maximum.map(Pages), shared: false })
}

/// Relies on wasmer_runtime_core::table::Table::new for a table of functions:
/// it refuses exactly a maximum below the minimum, and keeps the bounds it was
/// given.
#[verifier::external_body]
fn create_table(minimum: u32, maximum: Option<u32>) -> (r: Result<Table, CreationError>)
    ensures
        r.is_ok() <==> !(maximum.is_some() && maximum.unwrap() < minimum),
        r.is_ok() ==> table_limits(r.unwrap()) == (minimum, maximum),
{
    Table::new(TableDescriptor { element: ElementType::Anyfunc, minimum, maximum })
}

/// Relies on wasmer_runtime_core::memory::Memory::descriptor: the shared flag
/// the memory was created with.
#[verifier::external_body]
fn is_shared(memory: &Memory) -> (r: bool)
    ensures
        r == memory_shared(*memory),
{
    memory.descriptor().shared
}

/// Relies on wasmer_runtime_core::memory::Memory::view on an unshared memory:
/// stores `value` in the 32-bit word at `index` and returns true, or returns
/// false and stores nothing when the memory holds no such word.
#[verifier::external_body]
fn store_word(memory: &mut Memory, index: usize, value: u32) -> (r: bool)
    requires
        !memory_shared(*old(memory)),
    ensures
        r == (index < memory_words(*old(memory)).len()),
        r ==> memory_words(*final(memory)) == memory_words(*old(memory)).update(index as int, value),
        !r ==> memory_words(*final(memory)) == memory_words(*old(memory)),
        memory_shared(*final(memory)) == memory_shared(*old(memory)),
{
    match memory.view::<u32>().get(index) {
        Some(cell) => {
            cell.set(value);
            true
        },
        None => false,
    }
}

/// Fatal errors of setting up the sandbox.
#[derive(Debug)]
pub enum BootstrapError {
    /// The declared memory maximum is below its minimum.
    InvalidMemoryBounds,
    /// A declared memory bound exceeds the largest number of pages.
    MemoryLimitExceeded,
    /// The declared table maximum is below its minimum.
    InvalidTableBounds,
    /// The memory primitive could not provide the declared memory.
    MemoryCreation(CreationError),
    /// The table primitive could not provide the declared table.
    TableCreation(CreationError),
    /// The memory is too small to hold the dynamic-top slot.
    MemoryTooSmall,
    /// The memory is shared between threads, which this sandbox never uses.
    SharedMemory,
}

/// The numeric values that the guest reads once at startup.
#[derive(Clone, Copy, Debug, PartialEq, Eq, Structural)]
pub struct EmscriptenGlobalsData {
    pub abort: u64,
    pub layout: AddressLayout,
}

impl EmscriptenGlobalsData {
    /// The values for the toolchain's static data size, with the abort flag clear.
    pub fn new() -> (r: EmscriptenGlobalsData)
        ensures
            r.abort == 0,
            r.layout == layout_of(STATIC_BUMP as int),
    {
        EmscriptenGlobalsData { abort: 0, layout: layout(STATIC_BUMP) }
    }
}

/// The 32-bit word that seeds the heap: its index in memory (the word at the
/// dynamic-top slot) and its value (the heap base).
pub fn heap_seed(globals: &EmscriptenGlobalsData) -> (r: (usize, u32))
    ensures
        r.0 == globals.layout.dynamictop_ptr / 4,
        r.1 == globals.layout.dynamic_base,
{
    ((globals.layout.dynamictop_ptr / 4) as usize, globals.layout.dynamic_base)
}

/// Writes the heap base into guest memory at the dynamic-top slot, so that the
/// guest can read where its heap starts. Only that word changes; a shared
/// memory, or one that has no such word, is refused and left as it was.
pub fn emscripten_set_up_memory(memory: &mut Memory, globals: &EmscriptenGlobalsData) -> (r: Result<(), BootstrapError>)
    ensures
        r matches Err(BootstrapError::SharedMemory) <==> memory_shared(*old(memory)),
        r matches Err(BootstrapError::MemoryTooSmall) <==> !memory_shared(*old(memory))
            && globals.layout.dynamictop_ptr / 4 >= memory_words(*old(memory)).len(),
        r.is_ok() <==> !memory_shared(*old(memory)) && globals.layout.dynamictop_ptr / 4 < memory_words(
            *old(memory),
        ).len(),
        r.is_ok() ==> memory_words(*final(memory)) == memory_words(*old(memory)).update(
            (globals.layout.dynamictop_ptr / 4) as int,
            globals.layout.dynamic_base,
        ),
        r.is_err() ==> memory_words(*final(memory)) == memory_words(*old(memory)),
        memory_shared(*final(memory)) == memory_shared(*old(memory)),
{
    if is_shared(memory) {
        return Err(BootstrapError::SharedMemory);
    }
    let (index, value) = heap_seed(globals);
    if store_word(memory, index, value) {
        Ok(())
    } else {
        Err(BootstrapError::MemoryTooSmall)
    }
}

/// The numeric globals of the primary namespace, as (symbol, value) pairs:
/// the stack and heap boundaries, the base offsets, the abort flag and the
/// scratch pointer, each as the 32-bit integer the guest reads.
pub fn env_globals(data: &EmscriptenGlobalsData) -> (r: Vec<(&'static str, i32)>)
    ensures
        r@ == seq![
            ("STACKTOP", data.layout.stacktop as i32),
            ("STACK_MAX", data.layout.stack_max as i32),
            ("DYNAMICTOP_PTR", data.layout.dynamictop_ptr as i32),
            ("tableBase", data.layout.table_base as i32),
            ("__table_base", data.layout.table_base as i32),
            ("ABORT", data.abort as i32),
            ("memoryBase", data.layout.memory_base as i32),
            ("__memory_base", data.layout.memory_base as i32),
            ("tempDoublePtr", data.layout.temp_double_ptr as i32),
        ],
{
    let l = data.layout;
    let r: Vec<(&'static str, i32)> = vec![
        ("STACKTOP", l.stacktop as i32),
        ("STACK_MAX", l.stack_max as i32),
        ("DYNAMICTOP_PTR", l.dynamictop_ptr as i32),
        ("tableBase", l.table_base as i32),
        ("__table_base", l.table_base as i32),
        ("ABORT", data.abort as i32),
        ("memoryBase", l.memory_base as i32),
        ("__memory_base", l.memory_base as i32),
        ("tempDoublePtr", l.temp_double_ptr as i32),
    ];
    assert(r@ =~= seq![
        ("STACKTOP", l.stacktop as i32),
        ("STACK_MAX", l.stack_max as i32),
        ("DYNAMICTOP_PTR", l.dynamictop_ptr as i32),
        ("tableBase", l.table_base as i32),
        ("__table_base", l.table_base as i32),
        ("ABORT", data.abort as i32),
        ("memoryBase", l.memory_base as i32),
        ("__memory_base", l.memory_base as i32),
        ("tempDoublePtr", l.temp_double_ptr as i32),
    ]);
    r
}

/// Whether `pages` pages of memory hold the 32-bit dynamic-top slot of `layout`.
pub open spec fn holds_seed(pages: int, layout: AddressLayout) -> bool {
    pages * PAGE_SIZE >= layout.dynamictop_ptr + 4
}

/// Whether a memory of `pages` pages holds the word that seeds the heap.
pub fn memory_holds_seed(pages: u32, globals: &EmscriptenGlobalsData) -> (r: bool)
    ensures
        r == holds_seed(pages as int, globals.layout),
{
    (pages as u64) * PAGE_SIZE >= globals.layout.dynamictop_ptr as u64 + 4
}

/// The memory, the table and the startup values of one instance.
pub struct EmscriptenGlobals {
    pub data: EmscriptenGlobalsData,
    pub memory: Memory,
    pub table: Table,
    pub memory_min: u32,
    pub memory_max: Option<u32>,
}

impl EmscriptenGlobals {
    /// Creates the guest memory and table within the declared bounds (in pages
    /// and in elements), plans the layout and seeds the heap base into memory.
    /// Inverted or oversized bounds, and a minimum memory that cannot hold the
    /// dynamic-top slot, are refused before anything is created; past those
    /// checks only the host's refusal to reserve the memory makes it fail.
    pub fn new(memory_min: u32, memory_max: Option<u32>, table_min: u32, table_max: Option<u32>) -> (r: Result<EmscriptenGlobals, BootstrapError>)
        ensures
            r matches Err(BootstrapError::InvalidMemoryBounds) <==> memory_bounds_inverted(memory_min, memory_max),
            r matches Err(BootstrapError::MemoryLimitExceeded) <==> !memory_bounds_inverted(memory_min, memory_max)
                && memory_bounds_too_large(memory_min, memory_max),
            r matches Err(BootstrapError::InvalidTableBounds) <==> !memory_bounds_inverted(memory_min, memory_max)
                && !memory_bounds_too_large(memory_min, memory_max) && table_bounds_inverted(table_min, table_max),
            r matches Err(BootstrapError::MemoryTooSmall) <==> !memory_bounds_inverted(memory_min, memory_max)
                && !memory_bounds_too_large(memory_min, memory_max) && !table_bounds_inverted(table_min, table_max)
                && !holds_seed(memory_min as int, layout_of(STATIC_BUMP as int)),
            !(r matches Err(BootstrapError::TableCreation(_))),
            !(r matches Err(BootstrapError::SharedMemory)),
            r.is_ok() ==> r.unwrap().memory_min == memory_min && r.unwrap().memory_max == memory_max
                && r.unwrap().data.abort == 0 && r.unwrap().data.layout == layout_of(STATIC_BUMP as int),
            r.is_ok() ==> memory_words(r.unwrap().memory) == zeroed_words(memory_min as int).update(
                (layout_of(STATIC_BUMP as int).dynamictop_ptr / 4) as int,
                layout_of(STATIC_BUMP as int).dynamic_base,
            ),
            r.is_ok() ==> !memory_shared(r.unwrap().memory),
            r.is_ok() ==> table_limits(r.unwrap().table) == (table_min, table_max),
    {
        match memory_max {
            Some(max) => {
                if max < memory_min {
                    return Err(BootstrapError::InvalidMemoryBounds);
                }
                if max > MAX_PAGES {
                    return Err(BootstrapError::MemoryLimitExceeded);
                }
            },
            None => {},
        }
        if memory_min > MAX_PAGES {
            return Err(BootstrapError::MemoryLimitExceeded);
        }
        match table_max {
            Some(max) => {
                if max < table_min {
                    return Err(BootstrapError::InvalidTableBounds);
                }
            },
            None => {},
        }
        let data = EmscriptenGlobalsData::new();
        if !memory_holds_seed(memory_min, &data) {
            return Err(BootstrapError::MemoryTooSmall);
        }
        let mut memory = match create_memory(memory_min, memory_max) {
            Ok(m) => m,
            Err(e) => {
                return Err(BootstrapError::MemoryCreation(e));
            },
        };
        let table = match create_table(table_min, table_max) {
            Ok(t) => t,
            Err(e) => {
                return Err(BootstrapError::TableCreation(e));
            },
        };
        let ghost dtp = data.layout.dynamictop_ptr;
        assert(dtp == 216576);
        assert(dtp / 4 < memory_words(memory).len()) by (nonlinear_arith)
            requires
                dtp == 216576,
                memory_words(memory).len() == memory_min as int * WORDS_PER_PAGE,
                memory_min as int * PAGE_SIZE >= dtp + 4,
        ;
        match emscripten_set_up_memory(&mut memory, &data) {
            Ok(()) => {},
            Err(e) => {
                return Err(e);
            },
        }
        Ok(EmscriptenGlobals { data, memory, table, memory_min, memory_max })
    }
}

/// Whether the declared memory maximum is below its minimum.
pub open spec fn memory_bounds_inverted(min: u32, max: Option<u32>) -> bool {
    max.is_some() && max.unwrap() < min
}

/// Whether a declared memory bound exceeds the largest number of pages.
pub open spec fn memory_bounds_too_large(min: u32, max: Option<u32>) -> bool {
    min > MAX_PAGES || (max.is_some() && max.unwrap() > MAX_PAGES)
}

/// Whether the declared table maximum is below its minimum.
pub open spec fn table_bounds_inverted(min: u32, max: Option<u32>) -> bool {
    max.is_some() && max.unwrap() < min
}

} // verus!
