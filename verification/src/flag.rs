//! Message flags, as carried by envelopes and by flag-mutation operations.

use vstd::prelude::*;

verus! {

/// One standard message flag.
#[derive(Clone, Copy, Debug, PartialEq, Eq, Structural)]
pub enum Flag {
    Seen,
    Answered,
    Flagged,
    Deleted,
    Draft,
}

/// A set of message flags.
#[derive(Clone, Debug, Default)]
pub struct Flags {
    pub flags: Vec<Flag>,
}

impl Flags {
    /// Does the set hold `f`?
    pub open spec fn spec_contains(self, f: Flag) -> bool {
        self.flags@.contains(f)
    }

    /// The empty flag set.
    pub fn new() -> (r: Flags)
        ensures
            r.flags@ =~= Seq::<Flag>::empty(),
    {
        Flags { flags: Vec::new() }
    }

    /// Add `f` to the set.
    pub fn push(&mut self, f: Flag)
        ensures
            final(self).flags@ == old(self).flags@.push(f),
    {
        self.flags.push(f);
    }

    /// Executable membership test.
    pub fn contains(&self, f: Flag) -> (r: bool)
        ensures
            r == self.spec_contains(f),
    {
        let mut i: usize = 0;
        while i < self.flags.len()
            invariant
                i <= self.flags@.len(),
                forall|j: int| 0 <= j < i ==> self.flags@[j] != f,
            decreases self.flags@.len() - i,
        {
            if self.flags[i] == f {
                assert(self.flags@[i as int] == f);
                return true;
            }
            i = i + 1;
        }
        false
    }
}

} // verus!
