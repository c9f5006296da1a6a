//! The process-wide state of the server that the bridge reads and writes.
//!
//! The server keeps this state in globals of its own. Here it is a value that
//! is handed along, so that every function says in its contract what it does
//! to it.
use vstd::prelude::*;
use crate::guard::JumpTarget;
use crate::guard::PanicHook;
use crate::palloc::MemoryContext;

verus! {

/// What the bridge knows of the server process it runs in.
#[derive(Clone, Copy, Debug, PartialEq, Eq)]
pub struct Backend {
    /// The memory context that the next allocation is served from.
    pub current_context: MemoryContext,
    /// The innermost jump target: where control lands when the server
    /// raises an error.
    pub exception_stack: JumpTarget,
    /// The panic hook that is in place.
    pub panic_hook: PanicHook,
}

impl Backend {
    /// The state at process start: allocations go to the top-level context,
    /// no jump target is installed and the panic hook is the standard one.
    pub fn new(top_context: MemoryContext) -> (backend: Backend)
        ensures
            backend == (Backend {
                current_context: top_context,
                exception_stack: JumpTarget(0),
                panic_hook: PanicHook::Standard,
            }),
    {
        Backend {
            current_context: top_context,
            exception_stack: JumpTarget(0),
            panic_hook: PanicHook::Standard,
        }
    }

    /// This state with `context` as the current memory context.
    pub open spec fn with_context(self, context: MemoryContext) -> Backend {
        Backend { current_context: context, ..self }
    }

    /// This state with `target` as the innermost jump target.
    pub open spec fn with_target(self, target: JumpTarget) -> Backend {
        Backend { exception_stack: target, ..self }
    }

    /// This state with `hook` as the panic hook.
    pub open spec fn with_hook(self, hook: PanicHook) -> Backend {
        Backend { panic_hook: hook, ..self }
    }
}

} // verus!
