use vlam::arch::{Stack, STACK_ALIGNMENT};
use vlam::context::MIN_ALIGN;
use vlam::scoping::{check_function_qualifiers, QualifierError};
use vlam::{VLACtx, VLArray};

const TOP: usize = 0x4000_0000;

fn fresh_ctx() -> VLACtx {
    assert_eq!(TOP % MIN_ALIGN, 0);
    VLACtx::init(Stack::new(TOP))
}

#[test]
fn stack_primitives() {
    let mut stack = Stack::new(4096);
    assert_eq!(stack.read_sp(), 4096);
    let origin = stack.reserve(160);
    assert_eq!(origin, 4096 - 160);
    assert_eq!(stack.read_sp(), 4096 - 160);
    stack.write_sp(4096);
    assert_eq!(stack.read_sp(), 4096);
    assert_eq!(STACK_ALIGNMENT, 16);
}

#[test]
fn zeroed_buffer_is_all_zero() {
    let mut ctx = fresh_ctx();
    for n in [0usize, 1, 15, 16, 17, 100] {
        let buf: VLArray<u8> = ctx.zeroed_buffer(n);
        assert_eq!(buf.len(), n);
        for i in 0..n {
            assert_eq!(*buf.get(i), 0u8);
        }
    }
}

#[test]
fn stack_pointer_round_trip() {
    let stack = Stack::new(TOP);
    let sp_before_creation = stack.read_sp();
    let mut ctx = VLACtx::init(stack);
    let _a: VLArray<u8> = ctx.zeroed_buffer(7);
    let _b: VLArray<u32> = ctx.array_from_clone(9u32, 33);
    let _c: VLArray<u16> = ctx.array_from_cloneable_slice(&[1u16, 2, 3]);
    let _d: VLArray<u64> = ctx.array_from_exact_size_iterator((0u64..100).collect());
    assert!(ctx.stack_pointer() < sp_before_creation);
    let stack = ctx.destroy();
    assert_eq!(stack.read_sp(), sp_before_creation);
}

#[test]
fn round_trip_with_no_allocations() {
    let mut v = Vec::new();
    for _ in 0..3 {
        let ctx = fresh_ctx();
        v.push(ctx.saved_pointer());
        let stack = ctx.destroy();
        assert_eq!(stack.read_sp(), TOP);
    }
    assert_eq!(v, vec![TOP, TOP, TOP]);
}

#[test]
fn every_allocation_is_aligned() {
    let mut ctx = fresh_ctx();
    for n in [1usize, 2, 3, 5, 17, 31, 100] {
        let buf: VLArray<u8> = ctx.zeroed_buffer(n);
        assert_eq!(buf.start_address() % MIN_ALIGN, 0);
    }
    let buf = ctx.array_from_clone(1u8, 7);
    assert_eq!(buf.start_address() % MIN_ALIGN, 0);
    let buf = ctx.array_from_cloneable_slice(&[1u32, 2, 3]);
    assert_eq!(buf.start_address() % MIN_ALIGN, 0);
    let buf = ctx.array_from_exact_size_iterator(vec![1u64, 2, 3]);
    assert_eq!(buf.start_address() % MIN_ALIGN, 0);
}

#[test]
fn clones_are_independent() {
    let mut ctx = fresh_ctx();
    let mut buf: VLArray<u32> = ctx.array_from_clone(7u32, 5);
    assert_eq!(buf.len(), 5);
    for i in 0..5 {
        assert_eq!(*buf.get(i), 7u32);
    }
    buf.set(2, 99);
    assert_eq!(*buf.get(2), 99);
    for i in [0usize, 1, 3, 4] {
        assert_eq!(*buf.get(i), 7u32);
    }
}

#[test]
fn clone_of_heap_values_is_independent() {
    let mut ctx = fresh_ctx();
    let mut buf: VLArray<Vec<u8>> = ctx.array_from_clone(vec![1u8, 2], 3);
    buf.set(0, vec![9u8]);
    assert_eq!(buf.get(0).as_slice(), &[9u8]);
    assert_eq!(buf.get(1).as_slice(), &[1u8, 2]);
    assert_eq!(buf.get(2).as_slice(), &[1u8, 2]);
}

#[test]
fn buffer_from_slice_matches_source() {
    let mut ctx = fresh_ctx();
    let values = [10u16, 20, 30, 40];
    let buf = ctx.array_from_cloneable_slice(&values);
    assert_eq!(buf.len(), values.len());
    assert_eq!(buf.as_slice(), &values);
    // empty source
    let empty: [u16; 0] = [];
    let buf = ctx.array_from_cloneable_slice(&empty);
    assert_eq!(buf.len(), 0);
}

#[test]
fn exact_size_iterator_consumes_all_items() {
    let mut ctx = fresh_ctx();
    let items: Vec<u32> = (0u32..255).collect();
    assert_eq!(items.len(), 255);
    let buf = ctx.array_from_exact_size_iterator(items);
    assert_eq!(buf.len(), 255);
    for i in 0..255usize {
        assert_eq!(*buf.get(i), i as u32);
    }
}

#[test]
fn nested_buffers_are_independent() {
    let mut ctx = fresh_ctx();
    let mut first: VLArray<u8> = ctx.zeroed_buffer(16);
    let mut second: VLArray<u8> = ctx.zeroed_buffer(16);
    // regions nest in reservation order and never overlap
    assert_eq!(first.start_address(), TOP - 16);
    assert_eq!(second.start_address(), TOP - 32);
    assert!(second.start_address() + 16 <= first.start_address());
    // a write through one buffer is not observable through the other
    for i in 0..16 {
        first.set(i, 0xAA);
    }
    for i in 0..16 {
        assert_eq!(*second.get(i), 0u8);
    }
    second.set(3, 0x55);
    assert_eq!(*first.get(3), 0xAA);
}

#[test]
fn fill_then_double_scenario() {
    let mut ctx = fresh_ctx();
    let mut buffer: VLArray<u8> = ctx.zeroed_buffer(16);
    for i in 0..16 {
        buffer.set(i, (i & 0xFF) as u8);
    }
    for item in buffer.as_mut_slice() {
        *item *= 2;
    }
    let expected: Vec<u8> = (0..16).map(|i| (2 * i) as u8).collect();
    assert_eq!(buffer.as_slice(), expected.as_slice());
}

#[test]
fn qualifier_checks() {
    assert_eq!(check_function_qualifiers(false, false), Ok(()));
    assert_eq!(
        check_function_qualifiers(true, false),
        Err(QualifierError::AsyncFunction)
    );
    assert_eq!(
        check_function_qualifiers(false, true),
        Err(QualifierError::CompileTimeEvaluable)
    );
    assert_eq!(
        check_function_qualifiers(true, true),
        Err(QualifierError::AsyncFunction)
    );
    assert_eq!(
        QualifierError::AsyncFunction.diagnostic(),
        "not supported in an async fn"
    );
    assert_eq!(
        QualifierError::CompileTimeEvaluable.diagnostic(),
        "not supported in a const fn"
    );
}
