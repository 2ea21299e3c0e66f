use vstd::prelude::*;

use crate::span::SpanContext;

verus! {

/// The ambient trace context of one task: a stack of attached contexts,
/// of which the innermost is current.
///
/// Attaching hands back a token; detaching with that token restores
/// exactly the state from before the attach. The host of the request
/// loop attaches the request's context before driving the inner handler
/// and detaches on every exit path — success, failure, or early return —
/// so an attach window is scope-bound, like a guard object.
pub struct AmbientStack {
    pub stack: Vec<SpanContext>,
}

impl AmbientStack {
    /// A task starts with no ambient context.
    pub fn new() -> (r: Self)
        ensures
            r.stack@ == Seq::<SpanContext>::empty(),
    {
        AmbientStack { stack: Vec::new() }
    }

    /// The context instrumentation performed right now would parent to,
    /// if any: the innermost attached one.
    pub fn current(&self) -> (r: Option<SpanContext>)
        ensures
            r == if self.stack@.len() == 0 {
                None::<SpanContext>
            } else {
                Some(self.stack@.last())
            },
    {
        if self.stack.len() == 0 {
            None
        } else {
            Some(self.stack[self.stack.len() - 1])
        }
    }

    /// Make `cx` the ambient context. The returned token names this
    /// attach window and must be handed back to `detach`.
    pub fn attach(&mut self, cx: SpanContext) -> (token: usize)
        ensures
            final(self).stack@ == old(self).stack@.push(cx),
            token == old(self).stack@.len(),
    {
        let token: usize = self.stack.len();
        self.stack.push(cx);
        token
    }

    /// Close the attach window named by `token`: the ambient state is
    /// exactly what it was before the matching `attach`, whatever
    /// happened in between at this depth.
    pub fn detach(&mut self, token: usize)
        requires
            old(self).stack@.len() == token + 1,
        ensures
            final(self).stack@ == old(self).stack@.drop_last(),
    {
        self.stack.pop();
    }
}

/// Law: an attach window is balanced. Detaching what attach pushed
/// restores the stack from before the attach.
pub proof fn lemma_attach_detach_balanced(stack: Seq<SpanContext>, cx: SpanContext)
    ensures
        stack.push(cx).drop_last() == stack,
{
    assert(stack.push(cx).drop_last() =~= stack);
}

} // verus!
