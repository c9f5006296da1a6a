//! The barrier between Rust's unwinding and the server's `longjmp`.
//!
//! The server raises an error by jumping to the innermost installed jump
//! target, past every stack frame in between. Rust code must never be jumped
//! over, so each piece of work that may make the server raise runs under a
//! guard: the guard installs a target of its own, and an error that lands
//! there goes on as a Rust failure that carries [`PGError`]. At the outer
//! edge, [`handle_unwind`] turns a failure back into the server's terms.
//!
//! Control flow that the machine performs by jumping or unwinding is a value
//! here: a piece of work returns a [`Flow`], which says how it ended.
//!
//! Where the compiled bridge installs or restores a jump target, and where
//! it hands an error back to the server, it places a compiler fence, since
//! the compiler does not see the jump. Nothing in this module can be
//! reordered across those points: the state is changed in program order.
use vstd::prelude::*;
use vstd::string::StringExecFns;
use crate::backend::Backend;
use crate::elog::ErrorReport;
use crate::elog::ErrorReportView;
use crate::elog::Level;

verus! {

/// Where control lands when the server raises an error: the address of a
/// jump buffer, or 0 while none is installed.
#[derive(Clone, Copy, Debug, PartialEq, Eq)]
pub struct JumpTarget(pub usize);

/// The panic hook that is in place.
#[derive(Clone, Copy, Debug, PartialEq, Eq, Structural)]
pub enum PanicHook {
    /// The hook of the standard library: every panic is printed.
    Standard,
    /// The hook that leaves errors of the server to the server's own log and
    /// prints every other panic as the standard hook does.
    Selective,
}

/// Marks a failure that began as an error of the server. Such a failure must
/// reach the server again as the error it was.
#[must_use]
#[derive(Clone, Copy, Debug, PartialEq, Eq, Structural)]
pub struct PGError;

/// What a panic carries.
#[derive(Debug, PartialEq, Eq)]
pub enum Failure {
    /// An error of the server that a guard caught.
    Server(PGError),
    /// A panic with a message.
    Message(String),
    /// A panic whose payload is not text.
    Opaque,
}

/// A [`Failure`] with its message as a sequence of characters.
pub ghost enum FailureView {
    Server,
    Message(Seq<char>),
    Opaque,
}

impl View for Failure {
    type V = FailureView;

    open spec fn view(&self) -> FailureView {
        match self {
            Failure::Server(_) => FailureView::Server,
            Failure::Message(text) => FailureView::Message(text@),
            Failure::Opaque => FailureView::Opaque,
        }
    }
}

/// How a piece of work ended.
#[derive(Debug, PartialEq, Eq)]
pub enum Flow<R> {
    /// It ran to its end.
    Returned(R),
    /// The server raised an error: control left for the innermost jump
    /// target.
    Jumped,
    /// Rust code panicked.
    Panicked(Failure),
}

/// The way out to the server for a call that cannot return a value.
#[derive(Debug, PartialEq, Eq)]
pub enum Unwind {
    /// Raise the server's pending error again.
    ReThrow,
    /// Report a new error.
    Report(ErrorReport),
}

/// An [`Unwind`] with its message as a sequence of characters.
pub ghost enum UnwindView {
    ReThrow,
    Report(ErrorReportView),
}

impl View for Unwind {
    type V = UnwindView;

    open spec fn view(&self) -> UnwindView {
        match self {
            Unwind::ReThrow => UnwindView::ReThrow,
            Unwind::Report(report) => UnwindView::Report(report@),
        }
    }
}

/// What is left to do when the server returns from an [`Unwind`], which it
/// must not.
#[derive(Clone, Copy, Debug, PartialEq, Eq, Structural)]
pub enum Fatal {
    /// The server and the bridge disagree on the pending error: stop the
    /// process at once.
    Abort,
    /// The report did not raise: a defect of the bridge, to panic on.
    Bug,
}

impl Unwind {
    /// What the process does if the server comes back from this way out.
    pub fn returned(&self) -> (fatal: Fatal)
        ensures
            fatal == match self@ {
                UnwindView::ReThrow => Fatal::Abort,
                UnwindView::Report(_) => Fatal::Bug,
            },
    {
        match self {
            Unwind::ReThrow => Fatal::Abort,
            Unwind::Report(_) => Fatal::Bug,
        }
    }
}

impl PGError {
    /// The way out for an error of the server: it is raised again, as it is.
    pub fn re_throw(&self) -> (unwind: Unwind)
        ensures
            unwind@ == UnwindView::ReThrow,
    {
        Unwind::ReThrow
    }
}

impl PanicHook {
    /// Whether the hook prints a diagnostic for a panic with this payload.
    pub open spec fn spec_prints(self, failure: FailureView) -> bool {
        match self {
            PanicHook::Standard => true,
            PanicHook::Selective => !(failure is Server),
        }
    }

    pub fn prints(&self, failure: &Failure) -> (printed: bool)
        ensures
            printed == self.spec_prints(failure@),
    {
        match self {
            PanicHook::Standard => true,
            PanicHook::Selective => match failure {
                Failure::Server(_) => false,
                _ => true,
            },
        }
    }
}

/// The text that is reported for a panic that did not begin in the server.
pub open spec fn panic_text(failure: FailureView) -> Seq<char> {
    match failure {
        FailureView::Message(text) => "internal panic: "@ + text,
        _ => "internal panic"@,
    }
}

/// The way out for a failure: an error of the server is raised again, and
/// anything else becomes a new report at level `Error`.
pub open spec fn spec_handle_unwind(failure: FailureView) -> UnwindView {
    match failure {
        FailureView::Server => UnwindView::ReThrow,
        _ => UnwindView::Report(
            ErrorReportView { level: Level::Error, message: panic_text(failure) },
        ),
    }
}

/// Decides how a failure that reached the edge of a call leaves for the
/// server. Either way the call does not return to its caller.
pub fn handle_unwind(err: Failure) -> (unwind: Unwind)
    ensures
        unwind@ == spec_handle_unwind(err@),
{
    match err {
        Failure::Server(marker) => marker.re_throw(),
        Failure::Message(text) => {
            let mut message = String::from_str("internal panic: ");
            message.append(text.as_str());
            Unwind::Report(ErrorReport { level: Level::Error, message })
        },
        Failure::Opaque => Unwind::Report(
            ErrorReport { level: Level::Error, message: String::from_str("internal panic") },
        ),
    }
}

/// The state after a jump has been caught: the selective panic hook is in
/// place. Installing it a second time changes nothing.
pub open spec fn spec_handle_pg_unwind(backend: Backend) -> Backend {
    backend.with_hook(PanicHook::Selective)
}

/// Turns a caught jump into a Rust failure. The first time this happens the
/// selective panic hook is installed, so that the error, which the server
/// logs itself, is not printed a second time by Rust.
pub fn handle_pg_unwind(backend: &mut Backend) -> (failure: Failure)
    ensures
        failure == Failure::Server(PGError),
        *final(backend) == spec_handle_pg_unwind(*old(backend)),
        !final(backend).panic_hook.spec_prints(failure@),
{
    match backend.panic_hook {
        PanicHook::Standard => {
            backend.panic_hook = PanicHook::Selective;
        },
        PanicHook::Selective => {},
    }
    Failure::Server(PGError)
}

/// What a guard hands on for each way that its work can end.
pub open spec fn guard_result<R>(flow: Flow<R>) -> Result<R, Failure> {
    match flow {
        Flow::Returned(value) => Ok(value),
        Flow::Jumped => Err(Failure::Server(PGError)),
        Flow::Panicked(failure) => Err(failure),
    }
}

/// The state that a guard leaves: that of its work, with the jump target
/// that the guard found in place again and, after a jump, the selective
/// panic hook.
pub open spec fn guard_backend<R>(flow: Flow<R>, after: Backend, saved: JumpTarget) -> Backend {
    let restored = after.with_target(saved);
    if flow is Jumped {
        spec_handle_pg_unwind(restored)
    } else {
        restored
    }
}

/// Runs `f` with `local` installed as the innermost jump target.
///
/// If the server raises an error while `f` runs, the error lands here and
/// goes on as the failure `Failure::Server`; it never passes a frame of
/// Rust code as a jump. However `f` ends, the jump target that was in place
/// before the call is in place after it, so guards nest.
pub fn guard_pg<R, F>(backend: &mut Backend, local: JumpTarget, f: F) -> (result: Result<
    R,
    Failure,
>) where F: FnOnce(&mut Backend) -> Flow<R>
    requires
        forall|b: &mut Backend| *b == old(backend).with_target(local) ==> f.requires((b,)),
    ensures
        final(backend).exception_stack == old(backend).exception_stack,
        exists|b: &mut Backend, flow: Flow<R>|
            {
                &&& *b == old(backend).with_target(local)
                &&& #[trigger] f.ensures((b,), flow)
                &&& result == guard_result(flow)
                &&& *final(backend) == guard_backend(
                    flow,
                    *final(b),
                    old(backend).exception_stack,
                )
            },
{
    let original_exception_stack = backend.exception_stack;
    backend.exception_stack = local;
    let flow = f(backend);
    backend.exception_stack = original_exception_stack;
    match flow {
        Flow::Returned(value) => Ok(value),
        Flow::Jumped => Err(handle_pg_unwind(backend)),
        Flow::Panicked(failure) => Err(failure),
    }
}

/// Runs `f` with `local` installed as the innermost jump target, and
/// `pre_re_throw` if the server raises an error while `f` runs. The error is
/// then raised again for the next jump target out, so it leaves this function
/// as the jump it came as.
///
/// `pre_re_throw` runs with the jump target that was in place before the
/// call. Whatever it leaves there, and however `f` ended, that target is in
/// place again after the call.
pub fn pg_try_re_throw<R, F, G>(
    backend: &mut Backend,
    local: JumpTarget,
    f: F,
    pre_re_throw: G,
) -> (flow: Flow<R>) where F: FnOnce(&mut Backend) -> Flow<R>, G: FnOnce(&mut Backend)
    requires
        forall|b: &mut Backend| *b == old(backend).with_target(local) ==> f.requires((b,)),
        forall|b: &mut Backend|
            b.exception_stack == old(backend).exception_stack ==> pre_re_throw.requires((b,)),
    ensures
        final(backend).exception_stack == old(backend).exception_stack,
        exists|b: &mut Backend|
            {
                &&& *b == old(backend).with_target(local)
                &&& #[trigger] f.ensures((b,), flow)
                &&& if flow is Jumped {
                    exists|c: &mut Backend|
                        {
                            &&& *c == final(b).with_target(old(backend).exception_stack)
                            &&& #[trigger] pre_re_throw.ensures((c,), ())
                            &&& *final(backend) == final(c).with_target(
                                old(backend).exception_stack,
                            )
                        }
                } else {
                    *final(backend) == final(b).with_target(old(backend).exception_stack)
                }
            },
{
    let original_exception_stack = backend.exception_stack;
    backend.exception_stack = local;
    let flow = f(backend);
    backend.exception_stack = original_exception_stack;
    match flow {
        Flow::Jumped => {
            pre_re_throw(backend);
            backend.exception_stack = original_exception_stack;
            Flow::Jumped
        },
        ended => ended,
    }
}

} // verus!
