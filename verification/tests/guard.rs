use timescale_extension_utils::backend::Backend;
use timescale_extension_utils::elog::{ErrorReport, Level};
use timescale_extension_utils::guard::{
    guard_pg, handle_pg_unwind, handle_unwind, pg_try_re_throw, Failure, Fatal, Flow, JumpTarget,
    PGError, PanicHook, Unwind,
};
use timescale_extension_utils::palloc::MemoryContext;

fn backend() -> Backend {
    let mut backend = Backend::new(MemoryContext::from_raw(0x1000).unwrap());
    backend.exception_stack = JumpTarget(0x10);
    backend
}

#[test]
fn the_work_runs_with_the_local_target() {
    let mut backend = backend();
    let seen = guard_pg(&mut backend, JumpTarget(0x20), |b| Flow::Returned(b.exception_stack));
    assert_eq!(seen, Ok(JumpTarget(0x20)));
    assert_eq!(backend.exception_stack, JumpTarget(0x10));
    assert_eq!(backend.panic_hook, PanicHook::Standard);
}

#[test]
fn a_jump_becomes_a_server_failure() {
    let mut backend = backend();
    let result: Result<u8, Failure> = guard_pg(&mut backend, JumpTarget(0x20), |_| Flow::Jumped);
    assert_eq!(result, Err(Failure::Server(PGError)));
    assert_eq!(backend.exception_stack, JumpTarget(0x10));
    assert_eq!(backend.panic_hook, PanicHook::Selective);
}

#[test]
fn a_panic_passes_the_guard_unchanged() {
    let mut backend = backend();
    let result: Result<u8, Failure> = guard_pg(&mut backend, JumpTarget(0x20), |_| {
        Flow::Panicked(Failure::Message("boom".to_string()))
    });
    assert_eq!(result, Err(Failure::Message("boom".to_string())));
    assert_eq!(backend.exception_stack, JumpTarget(0x10));
    assert_eq!(backend.panic_hook, PanicHook::Standard);
}

#[test]
fn nested_guards_restore_on_normal_exit() {
    let mut backend = backend();
    let result = guard_pg(&mut backend, JumpTarget(0x20), |b| {
        let inner = guard_pg(b, JumpTarget(0x30), |c| {
            let innermost = guard_pg(c, JumpTarget(0x40), |d| Flow::Returned(d.exception_stack));
            Flow::Returned((innermost, c.exception_stack))
        });
        Flow::Returned((inner, b.exception_stack))
    });
    assert_eq!(
        result,
        Ok((Ok((Ok(JumpTarget(0x40)), JumpTarget(0x30))), JumpTarget(0x20)))
    );
    assert_eq!(backend.exception_stack, JumpTarget(0x10));
}

#[test]
fn nested_guards_restore_on_jumped_exit() {
    let mut backend = backend();
    let result: Result<u8, Failure> = guard_pg(&mut backend, JumpTarget(0x20), |b| {
        let inner: Result<u8, Failure> = guard_pg(b, JumpTarget(0x30), |_| Flow::Jumped);
        assert_eq!(b.exception_stack, JumpTarget(0x20));
        match inner {
            Ok(value) => Flow::Returned(value),
            Err(failure) => Flow::Panicked(failure),
        }
    });
    assert_eq!(result, Err(Failure::Server(PGError)));
    assert_eq!(backend.exception_stack, JumpTarget(0x10));
}

#[test]
fn a_jump_in_the_outer_work_restores_too() {
    let mut backend = backend();
    let result: Result<u8, Failure> = guard_pg(&mut backend, JumpTarget(0x20), |b| {
        let inner = guard_pg(b, JumpTarget(0x30), |_| Flow::Returned(1u8));
        assert_eq!(inner, Ok(1));
        Flow::Jumped
    });
    assert_eq!(result, Err(Failure::Server(PGError)));
    assert_eq!(backend.exception_stack, JumpTarget(0x10));
}

#[test]
fn work_that_leaves_a_target_behind_is_undone() {
    let mut backend = backend();
    let result = guard_pg(&mut backend, JumpTarget(0x20), |b| {
        b.exception_stack = JumpTarget(0x99);
        Flow::Returned(())
    });
    assert_eq!(result, Ok(()));
    assert_eq!(backend.exception_stack, JumpTarget(0x10));
}

#[test]
fn the_hook_is_installed_once() {
    let mut backend = backend();
    assert_eq!(handle_pg_unwind(&mut backend), Failure::Server(PGError));
    assert_eq!(backend.panic_hook, PanicHook::Selective);
    let after_first = backend;
    assert_eq!(handle_pg_unwind(&mut backend), Failure::Server(PGError));
    assert_eq!(backend, after_first);
}

#[test]
fn the_selective_hook_is_silent_on_server_errors_only() {
    let server = Failure::Server(PGError);
    let message = Failure::Message("x".to_string());
    assert!(PanicHook::Standard.prints(&server));
    assert!(PanicHook::Standard.prints(&message));
    assert!(PanicHook::Standard.prints(&Failure::Opaque));
    assert!(!PanicHook::Selective.prints(&server));
    assert!(PanicHook::Selective.prints(&message));
    assert!(PanicHook::Selective.prints(&Failure::Opaque));
}

#[test]
fn a_server_failure_is_thrown_again() {
    assert_eq!(handle_unwind(Failure::Server(PGError)), Unwind::ReThrow);
    assert_eq!(PGError.re_throw(), Unwind::ReThrow);
}

#[test]
fn a_panic_is_reported_with_its_message() {
    assert_eq!(
        handle_unwind(Failure::Message("x".to_string())),
        Unwind::Report(ErrorReport {
            level: Level::Error,
            message: "internal panic: x".to_string(),
        })
    );
    assert_eq!(
        handle_unwind(Failure::Message(String::new())),
        Unwind::Report(ErrorReport {
            level: Level::Error,
            message: "internal panic: ".to_string(),
        })
    );
}

#[test]
fn a_panic_without_text_is_reported_plainly() {
    assert_eq!(
        handle_unwind(Failure::Opaque),
        Unwind::Report(ErrorReport {
            level: Level::Error,
            message: "internal panic".to_string(),
        })
    );
}

#[test]
fn a_server_that_returns_is_fatal() {
    assert_eq!(Unwind::ReThrow.returned(), Fatal::Abort);
    let report = Unwind::Report(ErrorReport {
        level: Level::Error,
        message: "internal panic".to_string(),
    });
    assert_eq!(report.returned(), Fatal::Bug);
}

#[test]
fn try_re_throw_returns_what_the_work_returns() {
    let mut backend = backend();
    let flow = pg_try_re_throw(
        &mut backend,
        JumpTarget(0x20),
        |b| Flow::Returned(b.exception_stack),
        |b| b.panic_hook = PanicHook::Selective,
    );
    assert_eq!(flow, Flow::Returned(JumpTarget(0x20)));
    assert_eq!(backend.exception_stack, JumpTarget(0x10));
    assert_eq!(backend.panic_hook, PanicHook::Standard);
}

#[test]
fn try_re_throw_cleans_up_and_jumps_on() {
    let mut backend = backend();
    let other = MemoryContext::from_raw(0x2000).unwrap();
    let flow: Flow<u8> = pg_try_re_throw(
        &mut backend,
        JumpTarget(0x20),
        |_| Flow::Jumped,
        |b| {
            assert_eq!(b.exception_stack, JumpTarget(0x10));
            b.current_context = other;
        },
    );
    assert_eq!(flow, Flow::Jumped);
    assert_eq!(backend.exception_stack, JumpTarget(0x10));
    assert_eq!(backend.current_context, other);
    assert_eq!(backend.panic_hook, PanicHook::Standard);
}

#[test]
fn try_re_throw_restores_after_a_careless_cleanup() {
    let mut backend = backend();
    let flow: Flow<u8> = pg_try_re_throw(
        &mut backend,
        JumpTarget(0x20),
        |_| Flow::Jumped,
        |b| b.exception_stack = JumpTarget(0x77),
    );
    assert_eq!(flow, Flow::Jumped);
    assert_eq!(backend.exception_stack, JumpTarget(0x10));
}

#[test]
fn try_re_throw_skips_cleanup_on_a_panic() {
    let mut backend = backend();
    let flow: Flow<u8> = pg_try_re_throw(
        &mut backend,
        JumpTarget(0x20),
        |_| Flow::Panicked(Failure::Opaque),
        |b| b.panic_hook = PanicHook::Selective,
    );
    assert_eq!(flow, Flow::Panicked(Failure::Opaque));
    assert_eq!(backend.exception_stack, JumpTarget(0x10));
    assert_eq!(backend.panic_hook, PanicHook::Standard);
}

#[test]
fn a_re_thrown_jump_lands_at_the_outer_guard() {
    let mut backend = backend();
    let result: Result<u8, Failure> = guard_pg(&mut backend, JumpTarget(0x20), |b| {
        pg_try_re_throw(b, JumpTarget(0x30), |_| Flow::Jumped, |_| {})
    });
    assert_eq!(result, Err(Failure::Server(PGError)));
    assert_eq!(backend.exception_stack, JumpTarget(0x10));
    assert_eq!(backend.panic_hook, PanicHook::Selective);
}
