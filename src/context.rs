//! Contexts and the discipline of the thread's current-context stack.
//!
//! The driver keeps, per thread, a stack of contexts whose top is the target
//! of every context-scoped call. `ContextStack` mirrors that stack: each
//! acquisition pushes, each release checks the handle that the driver popped
//! against the one that was pushed and pops the mirror in turn.
use vstd::prelude::*;

verus! {

/// A violation of the context-stack discipline. Each one is fatal to the
/// operation that met it: the driver's thread-local state can no longer be
/// trusted.
#[derive(Debug, Clone, Copy, PartialEq, Eq, Structural)]
pub enum ContextFault {
    /// The driver handed back a null context on creation.
    NullContext,
    /// The driver popped no context at all.
    NoCurrentContext,
    /// The driver popped another context than the one expected.
    PopMismatch { expected: usize, popped: usize },
    /// A guard was released while another guard acquired after it was alive.
    OutOfOrder,
}

/// An owning handle of one native context, given by its non-null address.
#[derive(Debug, PartialEq, Eq, Structural)]
pub struct Context {
    handle: usize,
}

impl View for Context {
    type V = usize;

    closed spec fn view(&self) -> usize {
        self.handle
    }
}

/// What creating a context comes to, given the handle the driver created and
/// the handle it popped right after, so that creation leaves nothing current.
pub open spec fn creation_outcome(created: usize, popped: usize) -> Result<usize, ContextFault> {
    if created == 0 {
        Err(ContextFault::NullContext)
    } else if popped == 0 {
        Err(ContextFault::NoCurrentContext)
    } else if popped != created {
        Err(ContextFault::PopMismatch { expected: created, popped })
    } else {
        Ok(created)
    }
}

impl Context {
    /// A context's handle is never null.
    #[verifier::type_invariant]
    spec fn non_null(&self) -> bool {
        self.handle != 0
    }

    /// Takes ownership of the context that the driver created on top of the
    /// thread's stack (`created`) once it has been popped off again (`popped`).
    pub fn create(created: usize, popped: usize) -> (r: Result<Context, ContextFault>)
        ensures
            r is Ok <==> creation_outcome(created, popped) is Ok,
            r is Ok ==> creation_outcome(created, popped) == Ok::<usize, ContextFault>(r->Ok_0@),
            r is Err ==> creation_outcome(created, popped) == Err::<usize, ContextFault>(
                r->Err_0,
            ),
    {
        if created == 0 {
            Err(ContextFault::NullContext)
        } else if popped == 0 {
            Err(ContextFault::NoCurrentContext)
        } else if popped != created {
            Err(ContextFault::PopMismatch { expected: created, popped })
        } else {
            Ok(Context { handle: created })
        }
    }

    /// The native handle of this context.
    pub fn handle(&self) -> (r: usize)
        ensures
            r == self@,
            r != 0,
    {
        proof {
            use_type_invariant(self);
        }
        self.handle
    }
}

/// A mirror of one thread's current-context stack, bottom first.
#[derive(Debug)]
pub struct ContextStack {
    entries: Vec<usize>,
}

impl View for ContextStack {
    type V = Seq<usize>;

    closed spec fn view(&self) -> Seq<usize> {
        self.entries@
    }
}

impl ContextStack {
    /// The stack of a thread on which no context is current.
    pub fn new() -> (r: ContextStack)
        ensures
            r@ == Seq::<usize>::empty(),
    {
        ContextStack { entries: Vec::new() }
    }

    /// The number of contexts on the stack.
    pub fn depth(&self) -> (r: usize)
        ensures
            r == self@.len(),
    {
        self.entries.len()
    }

    /// The current context, if any.
    pub fn current(&self) -> (r: Option<usize>)
        ensures
            self@.len() == 0 ==> r is None,
            self@.len() > 0 ==> r == Some(self@.last()),
    {
        let n = self.entries.len();
        if n == 0 {
            None
        } else {
            Some(self.entries[n - 1])
        }
    }
}

/// A scoped token: while it is alive, its context is the current one.
#[derive(Debug)]
pub struct ContextGuard {
    handle: usize,
    depth: usize,
}

/// The stack after a guard of `handle` is acquired on `s`.
pub open spec fn acquired(s: Seq<usize>, handle: usize) -> Seq<usize> {
    s.push(handle)
}

/// What releasing a guard comes to: the guard was made for `handle` when the
/// stack was `depth` deep, the stack is now `s`, and the driver popped `popped`.
/// The result is the outcome and the stack afterwards.
pub open spec fn released(s: Seq<usize>, handle: usize, depth: nat, popped: usize) -> (
    Result<(), ContextFault>,
    Seq<usize>,
) {
    if popped == 0 {
        (Err(ContextFault::NoCurrentContext), s)
    } else if popped != handle {
        (Err(ContextFault::PopMismatch { expected: handle, popped }), s)
    } else if s.len() != depth + 1 || s.last() != handle {
        (Err(ContextFault::OutOfOrder), s)
    } else {
        (Ok(()), s.drop_last())
    }
}

impl ContextGuard {
    /// Makes `ctx` current: the caller pushes it on the driver's stack, and
    /// the mirror records it.
    pub fn guard_context(stack: &mut ContextStack, ctx: &Context) -> (g: ContextGuard)
        requires
            old(stack)@.len() < usize::MAX,
        ensures
            final(stack)@ == acquired(old(stack)@, ctx@),
            g.handle() == ctx@,
            g.handle() != 0,
            g.depth() == old(stack)@.len(),
    {
        proof {
            use_type_invariant(ctx);
        }
        let depth = stack.entries.len();
        stack.entries.push(ctx.handle);
        ContextGuard { handle: ctx.handle, depth }
    }

    /// The handle of the guarded context.
    pub closed spec fn handle(&self) -> usize {
        self.handle
    }

    /// The depth of the stack before the guard was acquired.
    pub closed spec fn depth(&self) -> nat {
        self.depth as nat
    }

    /// The handle of the guarded context.
    pub fn context_handle(&self) -> (r: usize)
        ensures
            r == self.handle(),
    {
        self.handle
    }

    /// Ends the guard, given the handle that the driver popped (zero when
    /// it popped nothing). The mirror is popped only when the release is in
    /// order and the driver popped the guarded context.
    pub fn release(self, stack: &mut ContextStack, popped: usize) -> (r: Result<(), ContextFault>)
        ensures
            (r, final(stack)@) == released(old(stack)@, self.handle(), self.depth(), popped),
    {
        if popped == 0 {
            return Err(ContextFault::NoCurrentContext);
        }
        if popped != self.handle {
            return Err(ContextFault::PopMismatch { expected: self.handle, popped });
        }
        let n = stack.entries.len();
        if n == 0 || n - 1 != self.depth || stack.entries[n - 1] != self.handle {
            return Err(ContextFault::OutOfOrder);
        }
        stack.entries.pop();
        Ok(())
    }
}

/// Acquiring a guard and releasing it, with the driver popping the context
/// that was pushed, leaves the thread's stack exactly as it was.
pub proof fn lemma_guard_round_trip(s: Seq<usize>, handle: usize)
    requires
        handle != 0,
    ensures
        released(acquired(s, handle), handle, s.len(), handle) == (Ok::<(), ContextFault>(()), s),
{
    assert(acquired(s, handle).drop_last() =~= s);
}

} // verus!
