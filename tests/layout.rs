use emscripten_env::layout::{
    align_memory, dynamic_base, dynamictop_ptr, layout, stack_max, stacktop, static_alloc,
    AddressLayout, STATIC_BUMP,
};

fn fields(l: &AddressLayout) -> Vec<u32> {
    vec![
        l.global_base,
        l.static_base,
        l.static_top,
        l.memory_base,
        l.table_base,
        l.temp_double_ptr,
        l.dynamictop_ptr,
        l.stacktop,
        l.stack_max,
        l.dynamic_base,
    ]
}

#[test]
fn align_memory_rounds_up_to_sixteen() {
    assert_eq!(align_memory(0), 0);
    assert_eq!(align_memory(1), 16);
    assert_eq!(align_memory(15), 16);
    assert_eq!(align_memory(16), 16);
    assert_eq!(align_memory(17), 32);
    assert_eq!(align_memory(u32::MAX - 15), u32::MAX - 15);
}

#[test]
fn static_alloc_bumps_and_aligns() {
    let mut top: u32 = 100;
    assert_eq!(static_alloc(&mut top, 4), 100);
    assert_eq!(top, 112);
    assert_eq!(static_alloc(&mut top, 16), 112);
    assert_eq!(top, 128);
}

#[test]
fn standalone_helpers_exact_values() {
    assert_eq!(dynamictop_ptr(0), 1088);
    assert_eq!(stacktop(0), 1104);
    assert_eq!(stack_max(0), 1104 + 5_242_880);
    assert_eq!(dynamic_base(0), 1104 + 5_242_880);
    assert_eq!(dynamictop_ptr(STATIC_BUMP), 216_624);
    assert_eq!(stacktop(STATIC_BUMP), 216_640);
    assert_eq!(stack_max(1), 1104 + 5_242_880);
    assert_eq!(dynamic_base(3), 1104 + 5_242_880);
}

#[test]
fn layout_of_toolchain_static_size() {
    let l = layout(STATIC_BUMP);
    assert_eq!(l.global_base, 1024);
    assert_eq!(l.static_base, 1024);
    assert_eq!(l.memory_base, 1024);
    assert_eq!(l.table_base, 0);
    assert_eq!(l.temp_double_ptr, 216_560);
    assert_eq!(l.dynamictop_ptr, 216_576);
    assert_eq!(l.static_top, 216_592);
    assert_eq!(l.stacktop, 216_592);
    assert_eq!(l.stack_max, 5_459_472);
    assert_eq!(l.dynamic_base, 5_459_472);
}

#[test]
fn layout_is_deterministic() {
    for x in [0u32, 1, 16, 4095, STATIC_BUMP] {
        assert_eq!(layout(x), layout(x));
    }
}

#[test]
fn layout_fields_aligned_for_aligned_static_size() {
    for x in [0u32, 16, 4096, STATIC_BUMP] {
        for f in fields(&layout(x)) {
            assert_eq!(f % 16, 0);
        }
    }
}

#[test]
fn layout_unaligned_static_size_leaves_scratch_unaligned() {
    let l = layout(1);
    assert_eq!(l.temp_double_ptr, 1025);
    assert_eq!(l.dynamictop_ptr, 1041);
    assert_eq!(l.stacktop % 16, 0);
    assert_eq!(l.dynamic_base % 16, 0);
}

#[test]
fn layout_regions_ordered() {
    for x in [0u32, 1, 7, 16, 1000, STATIC_BUMP] {
        let l = layout(x);
        assert!(l.static_base <= l.temp_double_ptr);
        assert!(l.temp_double_ptr < l.dynamictop_ptr);
        assert!(l.dynamictop_ptr < l.stacktop);
        assert!(l.stacktop < l.stack_max);
        assert_eq!(l.dynamic_base, l.stack_max);
    }
}

#[test]
fn layout_largest_size_fits() {
    let x = u32::MAX - 1024 - 16 - 4 - 15 - 5_242_880 - 15;
    let l = layout(x);
    assert!(l.stack_max < l.dynamic_base || l.stack_max == l.dynamic_base);
    assert_eq!(l.dynamic_base % 16, 0);
}
