use vstd::prelude::*;

verus! {

/// The host's record of the interpreter's protection stack: the handles
/// that are protected from the collector, oldest first. Handles are opaque
/// identifiers of interpreter values.
pub struct ProtectStack {
    handles: Vec<u64>,
}

impl View for ProtectStack {
    type V = Seq<u64>;

    closed spec fn view(&self) -> Seq<u64> {
        self.handles@
    }
}

impl ProtectStack {
    /// An empty stack.
    pub fn new() -> (r: ProtectStack)
        ensures
            r@ == Seq::<u64>::empty(),
    {
        ProtectStack { handles: Vec::new() }
    }

    /// How many handles are protected.
    pub fn depth(&self) -> (r: usize)
        ensures
            r == self@.len(),
    {
        self.handles.len()
    }

    /// Protects `h`: it goes on top of the stack.
    pub fn protect(&mut self, h: u64)
        requires
            old(self)@.len() < usize::MAX,
        ensures
            final(self)@ == old(self)@.push(h),
    {
        self.handles.push(h);
    }

    /// Releases the `n` most recently protected handles, newest first.
    pub fn unprotect(&mut self, n: usize)
        requires
            n <= old(self)@.len(),
        ensures
            final(self)@ == old(self)@.subrange(0, old(self)@.len() - n),
    {
        let target: usize = self.handles.len() - n;
        while self.handles.len() > target
            invariant
                target <= self.handles@.len() <= old(self)@.len(),
                target == old(self)@.len() - n,
                self.handles@ == old(self)@.subrange(0, self.handles@.len() as int),
            decreases self.handles@.len(),
        {
            self.handles.pop();
        }
    }
}

} // verus!
