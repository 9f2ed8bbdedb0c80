//! The capability registry: which (operation, backend kind) pairs have an
//! implementation compiled into this build.
//!
//! Compile-time absence of a protocol implementation is represented as the
//! absence of its registry entries, so build-time and runtime
//! unavailability share one observable state: an empty capability slot.

use vstd::prelude::*;

use crate::kind::{op_supports, supports, BackendKind, Operation};

verus! {

/// The set of (operation, kind) pairs for which a capability
/// implementation exists in this build.
#[derive(Clone, Debug)]
pub struct CapabilityRegistry {
    entries: Vec<(Operation, BackendKind)>,
}

impl CapabilityRegistry {
    /// Is an implementation of `op` over `kind` registered?
    pub closed spec fn spec_has(self, op: Operation, kind: BackendKind) -> bool {
        exists|i: int| 0 <= i < self.entries@.len() && self.entries@[i] == (op, kind)
    }

    /// A registry with no implementation at all: the build where every
    /// protocol is compiled out.
    pub fn new() -> (r: CapabilityRegistry)
        ensures
            forall|op: Operation, kind: BackendKind| !r.spec_has(op, kind),
    {
        CapabilityRegistry { entries: Vec::new() }
    }

    /// Record that an implementation of `op` over `kind` is compiled in.
    pub fn register(&mut self, op: Operation, kind: BackendKind)
        ensures
            forall|o: Operation, k: BackendKind|
                #[trigger] final(self).spec_has(o, k)
                    == (old(self).spec_has(o, k) || (o, k) == (op, kind)),
    {
        self.entries.push((op, kind));
        proof {
            assert forall|o: Operation, k: BackendKind|
                #[trigger] self.spec_has(o, k)
                    == (old(self).spec_has(o, k) || (o, k) == (op, kind)) by {
                if old(self).spec_has(o, k) {
                    let i = choose|i: int|
                        0 <= i < old(self).entries@.len() && old(self).entries@[i] == (o, k);
                    assert(self.entries@[i] == (o, k));
                }
                if (o, k) == (op, kind) {
                    assert(self.entries@[self.entries@.len() - 1] == (o, k));
                }
            }
        }
    }

    /// Record every capability of `kind` that the support matrix allows:
    /// the effect of compiling that protocol's implementation in.
    pub fn register_kind(&mut self, kind: BackendKind)
        ensures
            forall|o: Operation, k: BackendKind|
                #[trigger] final(self).spec_has(o, k)
                    == (old(self).spec_has(o, k) || (k == kind && op_supports(o, k))),
    {
        match kind {
            BackendKind::Imap => {
                self.register(Operation::GetMessages, kind);
                self.register(Operation::PeekMessages, kind);
                self.register(Operation::AddMessage, kind);
                self.register(Operation::DeleteFolder, kind);
                self.register(Operation::AddFlags, kind);
                self.register(Operation::RemoveFlags, kind);
                self.register(Operation::SetFlags, kind);
            }
            BackendKind::Maildir | BackendKind::MaildirForSync => {
                self.register(Operation::PeekMessages, kind);
                self.register(Operation::AddMessage, kind);
                self.register(Operation::DeleteFolder, kind);
                self.register(Operation::AddFlags, kind);
                self.register(Operation::RemoveFlags, kind);
                self.register(Operation::SetFlags, kind);
            }
            BackendKind::Smtp | BackendKind::Sendmail => {
                self.register(Operation::SendMessage, kind);
            }
        }
        proof {
            assert forall|o: Operation, k: BackendKind|
                #[trigger] self.spec_has(o, k)
                    == (old(self).spec_has(o, k) || (k == kind && op_supports(o, k))) by {
                match o {
                    Operation::GetMessages => {}
                    Operation::PeekMessages => {}
                    Operation::AddMessage => {}
                    Operation::SendMessage => {}
                    Operation::DeleteFolder => {}
                    Operation::AddFlags => {}
                    Operation::RemoveFlags => {}
                    Operation::SetFlags => {}
                }
            }
        }
    }

    /// Executable membership test.
    pub fn has(&self, op: Operation, kind: BackendKind) -> (r: bool)
        ensures
            r == self.spec_has(op, kind),
    {
        let mut i: usize = 0;
        while i < self.entries.len()
            invariant
                i <= self.entries@.len(),
                forall|j: int| 0 <= j < i ==> self.entries@[j] != (op, kind),
            decreases self.entries@.len() - i,
        {
            let (o, k) = self.entries[i];
            if o == op && k == kind {
                assert(self.entries@[i as int] == (op, kind));
                return true;
            }
            i = i + 1;
        }
        false
    }
}

} // verus!
