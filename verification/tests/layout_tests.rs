use sbpf_conformance::context::{ExecutionContext, InputRegion, SbpfVersion};
use sbpf_conformance::layout::{
    build_memory_layout, HEAP_MAX, MM_HEAP_START, MM_INPUT_START, MM_RODATA_START, MM_STACK_START,
    STACK_FRAME_SIZE, STACK_SIZE,
};
use sbpf_conformance::vec_rtrim_zeros;

fn base_ctx() -> ExecutionContext {
    ExecutionContext {
        rodata: vec![0x95, 0, 0, 0, 0, 0, 0, 0],
        entry_pc: 0,
        call_whitelist: vec![],
        sbpf_version: SbpfVersion::V0,
        heap_max: 4096,
        regs: [0; 12],
        input_regions: vec![],
        cu_avail: 1000,
        direct_mapping: false,
        stack_prefix: vec![],
        heap_prefix: vec![],
    }
}

#[test]
fn heap_size_clamped_to_hard_ceiling() {
    let mut ctx = base_ctx();
    ctx.heap_max = u32::MAX;
    let l = build_memory_layout(&ctx, true).unwrap();
    assert_eq!(l.regions[2].bytes.len(), HEAP_MAX as usize);
    // A request below the ceiling is honored exactly.
    ctx.heap_max = 1234;
    let l = build_memory_layout(&ctx, true).unwrap();
    assert_eq!(l.regions[2].bytes.len(), 1234);
}

#[test]
fn fixed_region_bases_and_permissions() {
    let ctx = base_ctx();
    let l = build_memory_layout(&ctx, true).unwrap();
    assert_eq!(l.regions.len(), 3);
    assert_eq!(l.regions[0].vaddr, MM_RODATA_START);
    assert!(!l.regions[0].is_writable);
    assert_eq!(l.regions[0].bytes, ctx.rodata);
    assert_eq!(l.regions[1].vaddr, MM_STACK_START);
    assert!(l.regions[1].is_writable);
    assert_eq!(l.regions[1].bytes.len(), STACK_SIZE);
    assert_eq!(l.regions[1].gap_size, STACK_FRAME_SIZE);
    assert_eq!(l.regions[2].vaddr, MM_HEAP_START);
    assert!(l.regions[2].is_writable);
    // Without gaps the stack is contiguous.
    let l = build_memory_layout(&ctx, false).unwrap();
    assert_eq!(l.regions[1].gap_size, 0);
}

#[test]
fn prefixes_overlay_zero_initialized_windows() {
    let mut ctx = base_ctx();
    ctx.stack_prefix = vec![1, 2, 3];
    ctx.heap_prefix = vec![9, 8];
    let l = build_memory_layout(&ctx, true).unwrap();
    assert_eq!(&l.regions[1].bytes[..4], &[1, 2, 3, 0]);
    assert!(l.regions[1].bytes[3..].iter().all(|b| *b == 0));
    assert_eq!(&l.regions[2].bytes[..3], &[9, 8, 0]);
}

#[test]
fn input_regions_appended_in_order_with_permissions() {
    let mut ctx = base_ctx();
    ctx.input_regions = vec![
        InputRegion { offset: 0, is_writable: false, content: vec![1, 2] },
        InputRegion { offset: 16, is_writable: true, content: vec![3] },
    ];
    let l = build_memory_layout(&ctx, true).unwrap();
    assert_eq!(l.regions.len(), 5);
    assert_eq!(l.regions[3].vaddr, MM_INPUT_START);
    assert!(!l.regions[3].is_writable);
    assert_eq!(l.regions[3].bytes, vec![1, 2]);
    assert_eq!(l.regions[4].vaddr, MM_INPUT_START + 16);
    assert!(l.regions[4].is_writable);
}

#[test]
fn overlapping_input_regions_fail_construction() {
    let mut ctx = base_ctx();
    ctx.input_regions = vec![
        InputRegion { offset: 0, is_writable: true, content: vec![0; 32] },
        InputRegion { offset: 16, is_writable: true, content: vec![0; 8] },
    ];
    assert!(build_memory_layout(&ctx, true).is_none());
}

#[test]
fn rtrim_zeros_drops_only_the_zero_suffix() {
    assert_eq!(vec_rtrim_zeros(&[1, 2, 0, 3, 0, 0]), vec![1, 2, 0, 3]);
    assert_eq!(vec_rtrim_zeros(&[0, 0, 0]), Vec::<u8>::new());
    assert_eq!(vec_rtrim_zeros(&[]), Vec::<u8>::new());
    assert_eq!(vec_rtrim_zeros(&[7]), vec![7]);
}

#[test]
fn stack_trim_round_trip() {
    // Stack content with only a zero suffix: trimming then zero-padding
    // back to the region size reproduces it.
    let mut stack = vec![0u8; STACK_SIZE];
    stack[0] = 0xaa;
    stack[100] = 0xbb;
    let trimmed = vec_rtrim_zeros(&stack);
    let mut rebuilt = trimmed.clone();
    rebuilt.resize(STACK_SIZE, 0);
    assert_eq!(rebuilt, stack);
}
