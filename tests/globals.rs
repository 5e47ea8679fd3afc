use emscripten_env::globals::{
    emscripten_set_up_memory, env_globals, heap_seed, memory_holds_seed, BootstrapError,
    EmscriptenGlobals, EmscriptenGlobalsData,
};
use emscripten_env::layout::{layout, STATIC_BUMP};
use wasmer_runtime_core::memory::Memory;
use wasmer_runtime_core::types::MemoryDescriptor;
use wasmer_runtime_core::units::Pages;

#[test]
fn globals_data_uses_toolchain_layout() {
    let d = EmscriptenGlobalsData::new();
    assert_eq!(d.abort, 0);
    assert_eq!(d.layout, layout(STATIC_BUMP));
    assert_eq!(heap_seed(&d), (216_576 / 4, 5_459_472));
}

#[test]
fn env_globals_values() {
    let d = EmscriptenGlobalsData::new();
    let g = env_globals(&d);
    assert_eq!(
        g,
        vec![
            ("STACKTOP", 216_592),
            ("STACK_MAX", 5_459_472),
            ("DYNAMICTOP_PTR", 216_576),
            ("tableBase", 0),
            ("__table_base", 0),
            ("ABORT", 0),
            ("memoryBase", 1024),
            ("__memory_base", 1024),
            ("tempDoublePtr", 216_560),
        ]
    );
}

#[test]
fn bootstrap_seeds_heap_base() {
    let g = EmscriptenGlobals::new(256, None, 10, None).unwrap();
    assert_eq!(g.memory_min, 256);
    assert_eq!(g.memory_max, None);
    let l = g.data.layout;
    let view = g.memory.view::<u32>();
    assert_eq!(view[(l.dynamictop_ptr / 4) as usize].get(), l.dynamic_base);
    assert_eq!(view[(l.dynamictop_ptr / 4) as usize].get(), 5_459_472);
}

#[test]
fn bootstrap_refuses_inverted_bounds() {
    assert!(matches!(
        EmscriptenGlobals::new(10, Some(5), 1, None),
        Err(BootstrapError::InvalidMemoryBounds)
    ));
    assert!(matches!(
        EmscriptenGlobals::new(256, None, 10, Some(3)),
        Err(BootstrapError::InvalidTableBounds)
    ));
}

#[test]
fn bootstrap_refuses_memory_too_small() {
    assert!(matches!(
        EmscriptenGlobals::new(1, None, 1, None),
        Err(BootstrapError::MemoryTooSmall)
    ));
    let m = Memory::new(MemoryDescriptor { minimum: Pages(1), maximum: None, shared: false }).unwrap();
    let d = EmscriptenGlobalsData::new();
    let mut m = m;
    assert!(matches!(emscripten_set_up_memory(&mut m, &d), Err(BootstrapError::MemoryTooSmall)));
    assert!(m.view::<u32>().iter().all(|c| c.get() == 0));
}

#[test]
fn memory_size_needed_for_seed() {
    let d = EmscriptenGlobalsData::new();
    assert!(!memory_holds_seed(0, &d));
    assert!(!memory_holds_seed(3, &d));
    assert!(memory_holds_seed(4, &d));
    assert!(matches!(
        EmscriptenGlobals::new(3, None, 1, None),
        Err(BootstrapError::MemoryTooSmall)
    ));
    let g = EmscriptenGlobals::new(4, None, 1, None).unwrap();
    let view = g.memory.view::<u32>();
    assert_eq!(view[216_576 / 4].get(), 5_459_472);
}

#[test]
fn bootstrap_refuses_oversized_memory() {
    assert!(matches!(
        EmscriptenGlobals::new(100_000, Some(100_000), 0, None),
        Err(BootstrapError::MemoryLimitExceeded)
    ));
    assert!(matches!(
        EmscriptenGlobals::new(70_000, None, 0, None),
        Err(BootstrapError::MemoryLimitExceeded)
    ));
    assert!(matches!(
        EmscriptenGlobals::new(4, Some(65_537), 0, None),
        Err(BootstrapError::MemoryLimitExceeded)
    ));
}

#[test]
fn bootstrap_memory_zero_but_seed_and_table_bounds() {
    let g = EmscriptenGlobals::new(4, None, 7, Some(9)).unwrap();
    assert_eq!(g.table.descriptor().minimum, 7);
    assert_eq!(g.table.descriptor().maximum, Some(9));
    assert!(!g.memory.descriptor().shared);
    assert_eq!(g.memory.size(), Pages(4));
    let view = g.memory.view::<u32>();
    assert_eq!(view.len(), 4 * 16_384);
    for (i, cell) in view.iter().enumerate() {
        if i == 216_576 / 4 {
            assert_eq!(cell.get(), 5_459_472);
        } else {
            assert_eq!(cell.get(), 0);
        }
    }
}

#[test]
fn set_up_memory_writes_only_the_seed_word() {
    let mut m = Memory::new(MemoryDescriptor { minimum: Pages(5), maximum: None, shared: false }).unwrap();
    m.view::<u32>()[10].set(77);
    let d = EmscriptenGlobalsData::new();
    assert!(emscripten_set_up_memory(&mut m, &d).is_ok());
    let view = m.view::<u32>();
    assert_eq!(view[216_576 / 4].get(), 5_459_472);
    assert_eq!(view[10].get(), 77);
    assert_eq!(view[216_576 / 4 + 1].get(), 0);
}

#[test]
fn set_up_memory_refuses_shared_memory() {
    let mut m = Memory::new(MemoryDescriptor { minimum: Pages(5), maximum: Some(Pages(5)), shared: true }).unwrap();
    let d = EmscriptenGlobalsData::new();
    assert!(matches!(emscripten_set_up_memory(&mut m, &d), Err(BootstrapError::SharedMemory)));
}
