//! The call/data stack: a LIFO sequence of 16-bit cell values, grown and
//! shrunk from one end only. It holds explicitly pushed data and the
//! return addresses of `call`/`ret`; it is unbounded in principle.

use vstd::prelude::*;

verus! {

/// LIFO stack of cell values. The view is the sequence of values from the
/// bottom to the top; the top is the last element.
pub struct Stack {
    items: Vec<u16>,
}

impl View for Stack {
    type V = Seq<u16>;

    closed spec fn view(&self) -> Seq<u16> {
        self.items@
    }
}

impl Stack {
    /// An empty stack.
    pub fn new() -> (s: Stack)
        ensures
            s@ == Seq::<u16>::empty(),
    {
        Stack { items: Vec::new() }
    }

    /// Current depth of the stack.
    pub fn len(&self) -> (n: usize)
        ensures
            n == self@.len(),
    {
        self.items.len()
    }

    /// Pushes `v` on top of the stack.
    pub fn push(&mut self, v: u16)
        ensures
            final(self)@ == old(self)@.push(v),
    {
        self.items.push(v);
    }

    /// Pops the top of the stack: the last pushed value that is still
    /// present, or nothing if the stack is empty.
    pub fn pop(&mut self) -> (r: Option<u16>)
        ensures
            old(self)@.len() == 0 ==> r is None && final(self)@ == old(self)@,
            old(self)@.len() > 0 ==> r == Some(old(self)@.last())
                && final(self)@ == old(self)@.drop_last(),
    {
        self.items.pop()
    }
}

/// Round-trip law: pushing `v` and immediately popping yields `v` back and
/// leaves the stack exactly as it was, depth included, for every stack
/// contents `s` and every value `v`.
pub proof fn lemma_push_pop_roundtrip(s: Seq<u16>, v: u16)
    ensures
        s.push(v).len() > 0,
        s.push(v).last() == v,
        s.push(v).drop_last() == s,
{
    assert(s.push(v).drop_last() =~= s);
}

} // verus!
