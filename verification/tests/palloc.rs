use timescale_extension_utils::backend::Backend;
use timescale_extension_utils::datum::ToDatum;
use timescale_extension_utils::guard::{JumpTarget, PanicHook};
use timescale_extension_utils::palloc::{
    in_context, memory_context_switch_to, MemoryContext, MemoryContextGuard, OutOfMemory,
    PallocAllocator, PallocCall, Pox,
};

fn context(addr: usize) -> MemoryContext {
    MemoryContext::from_raw(addr).unwrap()
}

#[test]
fn a_null_address_is_no_context() {
    assert_eq!(MemoryContext::from_raw(0), None);
    assert_eq!(MemoryContext::from_raw(0x1000).map(|c| c.as_raw()), Some(0x1000));
}

#[test]
fn the_backend_starts_in_the_top_context() {
    let backend = Backend::new(context(0x1000));
    assert_eq!(backend.current_context, context(0x1000));
    assert_eq!(backend.exception_stack, JumpTarget(0));
    assert_eq!(backend.panic_hook, PanicHook::Standard);
}

#[test]
fn switching_returns_the_old_context() {
    let mut backend = Backend::new(context(0x1000));
    let old = memory_context_switch_to(&mut backend, context(0x2000));
    assert_eq!(old, context(0x1000));
    assert_eq!(backend.current_context, context(0x2000));
    assert_eq!(backend.exception_stack, JumpTarget(0));
}

#[test]
fn a_guard_puts_its_context_back() {
    let mut backend = Backend::new(context(0x1000));
    let guard = MemoryContextGuard(memory_context_switch_to(&mut backend, context(0x2000)));
    assert_eq!(backend.current_context, context(0x2000));
    guard.restore(&mut backend);
    assert_eq!(backend.current_context, context(0x1000));
}

#[test]
fn the_body_runs_in_the_given_context() {
    let mut backend = Backend::new(context(0x1000));
    let seen = in_context(&mut backend, context(0x2000), |b| b.current_context);
    assert_eq!(seen, context(0x2000));
    assert_eq!(backend.current_context, context(0x1000));
}

#[test]
fn nested_switches_unwind_in_order() {
    let mut backend = Backend::new(context(0x1000));
    let seen = in_context(&mut backend, context(0x2000), |b| {
        let inner = in_context(b, context(0x3000), |c| {
            let innermost = in_context(c, context(0x4000), |d| d.current_context);
            (innermost, c.current_context)
        });
        (inner, b.current_context)
    });
    assert_eq!(
        seen,
        ((context(0x4000), context(0x3000)), context(0x2000))
    );
    assert_eq!(backend.current_context, context(0x1000));
}

#[test]
fn a_failing_body_still_restores_the_context() {
    let mut backend = Backend::new(context(0x1000));
    let result: Result<u8, &str> = in_context(&mut backend, context(0x2000), |b| {
        let inner: Result<u8, &str> = in_context(b, context(0x3000), |_| Err("inner"));
        assert_eq!(b.current_context, context(0x2000));
        inner?;
        Ok(1)
    });
    assert_eq!(result, Err("inner"));
    assert_eq!(backend.current_context, context(0x1000));
}

#[test]
fn a_body_that_switches_away_is_undone() {
    let mut backend = Backend::new(context(0x1000));
    in_context(&mut backend, context(0x2000), |b| {
        memory_context_switch_to(b, context(0x5000));
    });
    assert_eq!(backend.current_context, context(0x1000));
}

#[test]
fn allocations_go_to_the_current_context() {
    let mut backend = Backend::new(context(0x1000));
    let allocator = PallocAllocator;
    assert_eq!(
        allocator.allocate(&backend, 64),
        PallocCall::MemoryContextAlloc { context: context(0x1000), size: 64 }
    );
    assert_eq!(
        allocator.allocate_zeroed(&backend, 16),
        PallocCall::MemoryContextAllocZero { context: context(0x1000), size: 16 }
    );
    let inside = in_context(&mut backend, context(0x2000), |b| {
        (PallocAllocator.allocate(b, 8), PallocAllocator.allocate_zeroed(b, 0))
    });
    assert_eq!(
        inside,
        (
            PallocCall::MemoryContextAlloc { context: context(0x2000), size: 8 },
            PallocCall::MemoryContextAllocZero { context: context(0x2000), size: 0 },
        )
    );
    assert_eq!(
        allocator.allocate(&backend, 8),
        PallocCall::MemoryContextAlloc { context: context(0x1000), size: 8 }
    );
}

#[test]
fn freeing_and_resizing_name_no_context() {
    let allocator = PallocAllocator;
    assert_eq!(allocator.deallocate(0xbeef), PallocCall::Pfree { pointer: 0xbeef });
    assert_eq!(
        allocator.reallocate(0xbeef, 128),
        PallocCall::Repalloc { pointer: 0xbeef, size: 128 }
    );
}

#[test]
fn a_null_block_is_out_of_memory() {
    let allocator = PallocAllocator;
    assert_eq!(allocator.granted(0), Err(OutOfMemory));
    assert_eq!(allocator.granted(0x7000), Ok(0x7000));
}

#[test]
fn a_pox_is_never_null() {
    assert_eq!(Pox::<u64>::from_raw(0), None);
    let pox = Pox::<u64>::from_raw(0x8000).unwrap();
    assert_eq!(pox.into_raw(), 0x8000);
    assert_eq!(Pox::<u64>::from_raw_unchecked(0x9000).into_raw(), 0x9000);
}

#[test]
fn a_pox_travels_as_its_address() {
    let pox = Pox::<u64>::from_raw(0x8000).unwrap();
    assert_eq!(pox.to_datum(), 0x8000);
    let back = Pox::<u64>::from_raw(0x8000usize).unwrap();
    assert_eq!(back, Pox::<u64>::from_raw_unchecked(0x8000));
}
