//! Memory that belongs to the server's memory contexts.
//!
//! The server reclaims a memory context as a whole, also when an error cuts a
//! statement short and no destructor runs. So every allocation of Rust code is
//! served from the context that is current in the [`Backend`], and nothing
//! here frees memory by ownership.
//!
//! The current context is always a context of the server: at process start
//! the top-level one, later whatever [`in_context`] installs for the time of
//! a closure.
use core::marker::PhantomData;
use vstd::prelude::*;
use crate::backend::Backend;
use crate::datum::Datum;
use crate::datum::FromDatum;
use crate::datum::ToDatum;

verus! {

/// The handle of one of the server's memory contexts. It is never null.
#[derive(Clone, Copy, Debug, PartialEq, Eq)]
pub struct MemoryContext {
    addr: usize,
}

impl MemoryContext {
    #[verifier::type_invariant]
    spec fn non_null(self) -> bool {
        self.addr != 0
    }

    /// The address that the server knows the context by.
    pub closed spec fn addr(self) -> usize {
        self.addr
    }

    /// The handle for the address that the server gave; `None` for null.
    pub fn from_raw(addr: usize) -> (context: Option<MemoryContext>)
        ensures
            addr == 0 <==> context is None,
            context matches Some(c) ==> c.addr() == addr,
    {
        if addr == 0 {
            None
        } else {
            Some(MemoryContext { addr })
        }
    }

    /// The address to hand to the server for this context.
    pub fn as_raw(&self) -> (addr: usize)
        ensures
            addr == self.addr(),
            addr != 0,
    {
        proof {
            use_type_invariant(self);
        }
        self.addr
    }

    /// Two handles for one address are the same handle.
    pub proof fn lemma_addr_is_injective(a: MemoryContext, b: MemoryContext)
        requires
            a.addr() == b.addr(),
        ensures
            a == b,
    {
    }
}

/// Makes `context` the current one and returns the one it replaces.
///
/// Prefer [`in_context`], which also puts the old context back.
pub fn memory_context_switch_to(backend: &mut Backend, context: MemoryContext) -> (old_context:
    MemoryContext)
    ensures
        old_context == old(backend).current_context,
        *final(backend) == old(backend).with_context(context),
{
    let old_context = backend.current_context;
    backend.current_context = context;
    old_context
}

/// Holds the memory context that was current before a switch, to put it back.
#[derive(Debug, PartialEq, Eq)]
pub struct MemoryContextGuard(pub MemoryContext);

impl MemoryContextGuard {
    /// Ends the switch: the held context is current again.
    pub fn restore(self, backend: &mut Backend)
        ensures
            *final(backend) == old(backend).with_context(self.0),
    {
        backend.current_context = self.0;
    }
}

/// Runs `f` with `context` as the current memory context, and makes the
/// context that was current before current again, however `f` ended: a
/// failure inside `f` is part of what `f` returns.
///
/// Calls nest: each puts back what it found.
pub fn in_context<T, F>(backend: &mut Backend, context: MemoryContext, f: F) -> (result: T) where
    F: FnOnce(&mut Backend) -> T,

    requires
        forall|b: &mut Backend| *b == old(backend).with_context(context) ==> f.requires((b,)),
    ensures
        final(backend).current_context == old(backend).current_context,
        exists|b: &mut Backend|
            {
                &&& *b == old(backend).with_context(context)
                &&& #[trigger] f.ensures((b,), result)
                &&& *final(backend) == final(b).with_context(old(backend).current_context)
            },
{
    let guard = MemoryContextGuard(memory_context_switch_to(backend, context));
    let result = f(backend);
    guard.restore(backend);
    result
}

/// A call of one of the server's memory primitives.
#[derive(Clone, Copy, Debug, PartialEq, Eq)]
pub enum PallocCall {
    /// `MemoryContextAlloc`: `size` bytes from `context`.
    MemoryContextAlloc { context: MemoryContext, size: usize },
    /// `MemoryContextAllocZero`: `size` zeroed bytes from `context`.
    MemoryContextAllocZero { context: MemoryContext, size: usize },
    /// `repalloc`: the block at `pointer` resized to `size` bytes, in place or
    /// by copying, within the context that owns it.
    Repalloc { pointer: usize, size: usize },
    /// `pfree`: the block at `pointer` given back to the context that owns
    /// it. The server finds that context from the pointer.
    Pfree { pointer: usize },
}

/// The server has no memory left for a request.
///
/// Rust code does not check every allocation, so this must not reach it as a
/// null pointer: the process leaves the matter to the server's own handling
/// of exhausted memory, and does not go on.
#[derive(Clone, Copy, Debug, PartialEq, Eq, Structural)]
pub struct OutOfMemory;

/// The allocator that serves Rust's allocations from the server's memory
/// contexts. It decides which primitive of the server answers a request; the
/// call itself is made where the server is linked.
#[derive(Clone, Copy, Debug, PartialEq, Eq, Structural)]
pub struct PallocAllocator;

impl PallocAllocator {
    /// A request for `size` bytes goes to the current memory context.
    pub fn allocate(&self, backend: &Backend, size: usize) -> (call: PallocCall)
        ensures
            call == (PallocCall::MemoryContextAlloc { context: backend.current_context, size }),
    {
        PallocCall::MemoryContextAlloc { context: backend.current_context, size }
    }

    /// A block is given back through `pfree`, whatever context is current.
    pub fn deallocate(&self, pointer: usize) -> (call: PallocCall)
        ensures
            call == (PallocCall::Pfree { pointer }),
    {
        PallocCall::Pfree { pointer }
    }

    /// A request for `size` zeroed bytes goes to the current memory context.
    pub fn allocate_zeroed(&self, backend: &Backend, size: usize) -> (call: PallocCall)
        ensures
            call == (PallocCall::MemoryContextAllocZero {
                context: backend.current_context,
                size,
            }),
    {
        PallocCall::MemoryContextAllocZero { context: backend.current_context, size }
    }

    /// A block is resized through `repalloc`, whatever context is current.
    pub fn reallocate(&self, pointer: usize, new_size: usize) -> (call: PallocCall)
        ensures
            call == (PallocCall::Repalloc { pointer, size: new_size }),
    {
        PallocCall::Repalloc { pointer, size: new_size }
    }

    /// Reads the server's answer to an allocation: the address of the block,
    /// which is not null, or `OutOfMemory` where the server returned null.
    pub fn granted(&self, pointer: usize) -> (block: Result<usize, OutOfMemory>)
        ensures
            block == if pointer == 0 {
                Err::<usize, OutOfMemory>(OutOfMemory)
            } else {
                Ok::<usize, OutOfMemory>(pointer)
            },
    {
        if pointer == 0 {
            Err(OutOfMemory)
        } else {
            Ok(pointer)
        }
    }
}

/// The handle of a value that lives in a memory context of the server.
///
/// It stands where a `Box` would, but owns nothing: the value is reclaimed
/// with its context, never by dropping the handle. This makes it fit for
/// state that the server keeps between the calls of an aggregate.
#[derive(Debug, PartialEq, Eq)]
pub struct Pox<T> {
    addr: usize,
    marker: PhantomData<T>,
}

impl<T> Pox<T> {
    #[verifier::type_invariant]
    spec fn non_null(self) -> bool {
        self.addr != 0
    }

    /// The address of the value.
    pub closed spec fn addr(self) -> usize {
        self.addr
    }

    /// The handle for the value at `ptr`; `None` for null.
    pub fn from_raw(ptr: usize) -> (pox: Option<Self>)
        ensures
            ptr == 0 <==> pox is None,
            pox matches Some(p) ==> p.addr() == ptr,
    {
        if ptr == 0 {
            None
        } else {
            Some(Pox { addr: ptr, marker: PhantomData })
        }
    }

    /// The handle for the value at `ptr`, which the caller knows not to be
    /// null.
    pub fn from_raw_unchecked(ptr: usize) -> (pox: Self)
        requires
            ptr != 0,
        ensures
            pox.addr() == ptr,
    {
        Pox { addr: ptr, marker: PhantomData }
    }

    /// The address of the value, for code that reads or writes it there.
    pub fn as_raw(&self) -> (ptr: usize)
        ensures
            ptr == self.addr(),
            ptr != 0,
    {
        proof {
            use_type_invariant(self);
        }
        self.addr
    }

    /// Gives up the handle for the address of the value.
    pub fn into_raw(self) -> (ptr: usize)
        ensures
            ptr == self.addr(),
            ptr != 0,
    {
        proof {
            use_type_invariant(&self);
        }
        self.addr
    }

    /// Two handles for one address are the same handle.
    pub proof fn lemma_addr_is_injective(a: Self, b: Self)
        requires
            a.addr() == b.addr(),
        ensures
            a == b,
    {
    }
}

impl<T> ToDatum for Pox<T> {
    /// The address of the value, as a datum.
    open spec fn spec_to_datum(self) -> Datum {
        self.addr() as Datum
    }

    fn to_datum(self) -> (datum: Datum) {
        self.into_raw() as Datum
    }
}

/// Reading the state of an aggregate back from the datum of a handle gives
/// that handle.
pub proof fn lemma_pox_round_trip<T>(pox: Pox<T>)
    ensures
        usize::spec_from_datum(pox.spec_to_datum()) == pox.addr(),
{
}

} // verus!
