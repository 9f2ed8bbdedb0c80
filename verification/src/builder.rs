//! The backend builder: from an account configuration and a set of
//! requested operations, determine which backend kinds must be
//! materialized, collect exactly one context per such kind, and assemble
//! the backend facade.
//!
//! Context construction itself may open connections or directories, so it
//! belongs to the surrounding application: the builder names the next kind
//! whose context is still missing, the application constructs it (or
//! aborts the whole assembly with `BackendError::context_failure`), hands
//! it over, and finally asks for the backend.

use vstd::prelude::*;
use vstd::string::StringExecFns;

use crate::backend::{Backend, Capability};
use crate::config::AccountConfig;
use crate::context::{Context, ContextPool};
use crate::error::BackendError;
use crate::kind::{op_supports, supports, BackendKind, Operation};
use crate::registry::CapabilityRegistry;

verus! {

/// The operations a command registered for the backend under assembly.
#[derive(Clone, Copy, Debug, PartialEq, Eq, Structural)]
pub struct RequestSet {
    pub get_messages: bool,
    pub peek_messages: bool,
    pub add_message: bool,
    pub send_message: bool,
    pub delete_folder: bool,
    pub add_flags: bool,
    pub remove_flags: bool,
    pub set_flags: bool,
}

impl RequestSet {
    /// Is `op` requested?
    pub open spec fn spec_contains(self, op: Operation) -> bool {
        match op {
            Operation::GetMessages => self.get_messages,
            Operation::PeekMessages => self.peek_messages,
            Operation::AddMessage => self.add_message,
            Operation::SendMessage => self.send_message,
            Operation::DeleteFolder => self.delete_folder,
            Operation::AddFlags => self.add_flags,
            Operation::RemoveFlags => self.remove_flags,
            Operation::SetFlags => self.set_flags,
        }
    }

    /// No operation requested.
    pub fn none() -> (r: RequestSet)
        ensures
            forall|op: Operation| !r.spec_contains(op),
    {
        RequestSet {
            get_messages: false,
            peek_messages: false,
            add_message: false,
            send_message: false,
            delete_folder: false,
            add_flags: false,
            remove_flags: false,
            set_flags: false,
        }
    }

    /// Executable membership test.
    pub fn contains(&self, op: Operation) -> (r: bool)
        ensures
            r == self.spec_contains(op),
    {
        match op {
            Operation::GetMessages => self.get_messages,
            Operation::PeekMessages => self.peek_messages,
            Operation::AddMessage => self.add_message,
            Operation::SendMessage => self.send_message,
            Operation::DeleteFolder => self.delete_folder,
            Operation::AddFlags => self.add_flags,
            Operation::RemoveFlags => self.remove_flags,
            Operation::SetFlags => self.set_flags,
        }
    }
}

/// A backend assembly in progress.
pub struct BackendBuilder {
    pub config: AccountConfig,
    pub requests: RequestSet,
    pub pool: ContextPool,
}

impl BackendBuilder {
    /// Would `op`, as requested, be served by `kind`? True when the
    /// operation is registered, the account configures `kind` for it, the
    /// support matrix allows the pairing, and an implementation of it is
    /// compiled in.
    pub open spec fn spec_op_needs(
        self,
        reg: CapabilityRegistry,
        op: Operation,
        kind: BackendKind,
    ) -> bool {
        &&& self.requests.spec_contains(op)
        &&& self.config.spec_configured_kind(op) == Some(kind)
        &&& op_supports(op, kind)
        &&& reg.spec_has(op, kind)
    }

    /// Must a context of `kind` be materialized for this assembly?
    pub open spec fn spec_needs(self, reg: CapabilityRegistry, kind: BackendKind) -> bool {
        exists|op: Operation| self.spec_op_needs(reg, op, kind)
    }

    /// Every needed context is in the pool: the assembly may conclude.
    pub open spec fn spec_complete(self, reg: CapabilityRegistry) -> bool {
        forall|k: BackendKind| #[trigger] self.spec_needs(reg, k) ==> self.pool.spec_has(k)
    }

    /// The first kind, in a fixed order, that is needed but has no
    /// context yet.
    pub open spec fn spec_next_missing(self, reg: CapabilityRegistry) -> Option<BackendKind> {
        if self.spec_needs(reg, BackendKind::Imap) && !self.pool.spec_has(BackendKind::Imap) {
            Some(BackendKind::Imap)
        } else if self.spec_needs(reg, BackendKind::Maildir) && !self.pool.spec_has(
            BackendKind::Maildir,
        ) {
            Some(BackendKind::Maildir)
        } else if self.spec_needs(reg, BackendKind::MaildirForSync) && !self.pool.spec_has(
            BackendKind::MaildirForSync,
        ) {
            Some(BackendKind::MaildirForSync)
        } else if self.spec_needs(reg, BackendKind::Smtp) && !self.pool.spec_has(
            BackendKind::Smtp,
        ) {
            Some(BackendKind::Smtp)
        } else if self.spec_needs(reg, BackendKind::Sendmail) && !self.pool.spec_has(
            BackendKind::Sendmail,
        ) {
            Some(BackendKind::Sendmail)
        } else {
            None
        }
    }

    /// The capability that assembly binds for `op`: present exactly when
    /// the operation is requested, configured, supported, compiled in,
    /// and its kind's context was materialized.
    pub open spec fn spec_slot_for(self, reg: CapabilityRegistry, op: Operation) -> Option<
        Capability,
    > {
        match self.config.spec_configured_kind(op) {
            Some(k) => if self.requests.spec_contains(op) && op_supports(op, k) && reg.spec_has(
                op,
                k,
            ) {
                match self.pool.spec_get(k) {
                    Some(ctx) => Some(Capability { kind: k, handle: ctx.handle }),
                    None => None,
                }
            } else {
                None
            },
            None => None,
        }
    }

    /// A fresh assembly for one account: nothing requested, nothing
    /// constructed.
    pub fn new(config: AccountConfig) -> (r: BackendBuilder)
        ensures
            r.config == config,
            forall|op: Operation| !r.requests.spec_contains(op),
            forall|k: BackendKind| r.pool.spec_get(k) is None,
    {
        BackendBuilder { config, requests: RequestSet::none(), pool: ContextPool::new() }
    }

    /// Register `op`: the command invoking this assembly will call it.
    pub fn register(&mut self, op: Operation)
        ensures
            final(self).config == old(self).config,
            final(self).pool == old(self).pool,
            forall|o: Operation|
                final(self).requests.spec_contains(o) == (old(self).requests.spec_contains(o) || o
                    == op),
    {
        match op {
            Operation::GetMessages => self.requests.get_messages = true,
            Operation::PeekMessages => self.requests.peek_messages = true,
            Operation::AddMessage => self.requests.add_message = true,
            Operation::SendMessage => self.requests.send_message = true,
            Operation::DeleteFolder => self.requests.delete_folder = true,
            Operation::AddFlags => self.requests.add_flags = true,
            Operation::RemoveFlags => self.requests.remove_flags = true,
            Operation::SetFlags => self.requests.set_flags = true,
        }
    }

    /// Executable form of `spec_op_needs`.
    fn op_needs(&self, reg: &CapabilityRegistry, op: Operation, kind: BackendKind) -> (r: bool)
        ensures
            r == self.spec_op_needs(*reg, op, kind),
    {
        if !self.requests.contains(op) {
            return false;
        }
        match self.config.configured_kind(op) {
            Some(k) => k == kind && supports(op, kind) && reg.has(op, kind),
            None => false,
        }
    }

    /// Executable form of `spec_needs`.
    pub fn needs_kind(&self, reg: &CapabilityRegistry, kind: BackendKind) -> (r: bool)
        ensures
            r == self.spec_needs(*reg, kind),
    {
        let r = self.op_needs(reg, Operation::GetMessages, kind) || self.op_needs(
            reg,
            Operation::PeekMessages,
            kind,
        ) || self.op_needs(reg, Operation::AddMessage, kind) || self.op_needs(
            reg,
            Operation::SendMessage,
            kind,
        ) || self.op_needs(reg, Operation::DeleteFolder, kind) || self.op_needs(
            reg,
            Operation::AddFlags,
            kind,
        ) || self.op_needs(reg, Operation::RemoveFlags, kind) || self.op_needs(
            reg,
            Operation::SetFlags,
            kind,
        );
        proof {
            if !r {
                assert forall|op: Operation| !self.spec_op_needs(*reg, op, kind) by {
                    match op {
                        Operation::GetMessages => {}
                        Operation::PeekMessages => {}
                        Operation::AddMessage => {}
                        Operation::SendMessage => {}
                        Operation::DeleteFolder => {}
                        Operation::AddFlags => {}
                        Operation::RemoveFlags => {}
                        Operation::SetFlags => {}
                    }
                }
            }
        }
        r
    }

    /// The next context the application must construct, or `None` when
    /// the assembly is complete. A kind is never named once its context
    /// is in the pool, and an unneeded kind is never named at all.
    pub fn next_missing_kind(&self, reg: &CapabilityRegistry) -> (r: Option<BackendKind>)
        ensures
            r == self.spec_next_missing(*reg),
    {
        if self.needs_kind(reg, BackendKind::Imap) && !self.pool.has(BackendKind::Imap) {
            Some(BackendKind::Imap)
        } else if self.needs_kind(reg, BackendKind::Maildir) && !self.pool.has(
            BackendKind::Maildir,
        ) {
            Some(BackendKind::Maildir)
        } else if self.needs_kind(reg, BackendKind::MaildirForSync) && !self.pool.has(
            BackendKind::MaildirForSync,
        ) {
            Some(BackendKind::MaildirForSync)
        } else if self.needs_kind(reg, BackendKind::Smtp) && !self.pool.has(BackendKind::Smtp) {
            Some(BackendKind::Smtp)
        } else if self.needs_kind(reg, BackendKind::Sendmail) && !self.pool.has(
            BackendKind::Sendmail,
        ) {
            Some(BackendKind::Sendmail)
        } else {
            None
        }
    }

    /// Hand over the context constructed for `ctx.kind`. Each kind's
    /// context is constructed, and supplied, at most once per assembly.
    pub fn supply_context(&mut self, ctx: Context)
        requires
            old(self).pool.spec_get(ctx.kind) is None,
        ensures
            final(self).config == old(self).config,
            final(self).requests == old(self).requests,
            forall|k: BackendKind|
                final(self).pool.spec_get(k) == (if k == ctx.kind {
                    Some(ctx)
                } else {
                    old(self).pool.spec_get(k)
                }),
    {
        self.pool.insert(ctx);
    }

    /// The capability bound for `op`, if all of its conditions hold.
    fn make_slot(&self, reg: &CapabilityRegistry, op: Operation) -> (r: Option<Capability>)
        ensures
            r == self.spec_slot_for(*reg, op),
    {
        if !self.requests.contains(op) {
            return None;
        }
        let k = match self.config.configured_kind(op) {
            Some(k) => k,
            None => {
                return None;
            }
        };
        if !supports(op, k) {
            return None;
        }
        if !reg.has(op, k) {
            return None;
        }
        match self.pool.get(k) {
            Some(ctx) => Some(Capability { kind: k, handle: ctx.handle }),
            None => None,
        }
    }

    /// Conclude the assembly. Succeeds exactly when every needed context
    /// was supplied; the backend then binds, for every operation, the
    /// capability its conditions allow. A missing context aborts the
    /// whole assembly: no partial backend exists.
    pub fn try_build(self, reg: &CapabilityRegistry) -> (r: Result<Backend, BackendError>)
        ensures
            r is Ok <==> self.spec_complete(*reg),
            r matches Ok(b) ==> assembled(b, self, *reg) && b.wf(),
            r matches Err(e) ==> (e matches BackendError::ContextFailure { kind, reason }
                && self.spec_next_missing(*reg) == Some(kind) && reason@
                == missing_context_reason()),
    {
        match self.next_missing_kind(reg) {
            Some(k) => {
                proof {
                    assert(self.spec_needs(*reg, k) && !self.pool.spec_has(k));
                    assert(!self.spec_complete(*reg));
                }
                Err(BackendError::context_failure(k, missing_context_text()))
            }
            None => {
                let b = Backend {
                    config: self.config,
                    pool: self.pool,
                    get_messages: self.make_slot(reg, Operation::GetMessages),
                    peek_messages: self.make_slot(reg, Operation::PeekMessages),
                    add_message: self.make_slot(reg, Operation::AddMessage),
                    send_message: self.make_slot(reg, Operation::SendMessage),
                    delete_folder: self.make_slot(reg, Operation::DeleteFolder),
                    add_flags: self.make_slot(reg, Operation::AddFlags),
                    remove_flags: self.make_slot(reg, Operation::RemoveFlags),
                    set_flags: self.make_slot(reg, Operation::SetFlags),
                };
                proof {
                    assert forall|op: Operation| #[trigger] b.spec_slot(op) == self.spec_slot_for(
                        *reg,
                        op,
                    ) by {
                        match op {
                            Operation::GetMessages => {}
                            Operation::PeekMessages => {}
                            Operation::AddMessage => {}
                            Operation::SendMessage => {}
                            Operation::DeleteFolder => {}
                            Operation::AddFlags => {}
                            Operation::RemoveFlags => {}
                            Operation::SetFlags => {}
                        }
                    }
                    assert(self.spec_complete(*reg)) by {
                        assert forall|k: BackendKind|
                            #[trigger] self.spec_needs(*reg, k) implies self.pool.spec_has(k) by {
                            match k {
                                BackendKind::Imap => {}
                                BackendKind::Maildir => {}
                                BackendKind::MaildirForSync => {}
                                BackendKind::Smtp => {}
                                BackendKind::Sendmail => {}
                            }
                        }
                    }
                    assert forall|op: Operation| (#[trigger] b.spec_slot(op)) is Some implies {
                        let c = b.spec_slot(op)->Some_0;
                        &&& b.config.spec_configured_kind(op) == Some(c.kind)
                        &&& op_supports(op, c.kind)
                        &&& (b.pool.spec_get(c.kind) matches Some(ctx) && ctx.handle == c.handle)
                    } by {
                        let c = b.spec_slot(op)->Some_0;
                        assert(self.spec_slot_for(*reg, op) == Some(c));
                    }
                    assert(b.wf());
                }
                Ok(b)
            }
        }
    }
}

/// The reason recorded when an assembly concludes while a needed context
/// was never supplied.
pub open spec fn missing_context_reason() -> Seq<char> {
    "context was never constructed"@
}

/// Executable form of `missing_context_reason`.
fn missing_context_text() -> (r: String)
    ensures
        r@ == missing_context_reason(),
{
    String::from_str("context was never constructed")
}

/// `b` is the backend that concluding `builder` against `reg` yields: the
/// same account view, the pool the assembly materialized, and for every
/// operation exactly the capability its conditions allow.
pub open spec fn assembled(b: Backend, builder: BackendBuilder, reg: CapabilityRegistry) -> bool {
    &&& b.config == builder.config
    &&& b.pool == builder.pool
    &&& forall|op: Operation| #[trigger] b.spec_slot(op) == builder.spec_slot_for(reg, op)
}

/// A backend kind that no requested operation resolves to is never named
/// for construction: no context of that kind is ever materialized for the
/// assembly.
pub proof fn lemma_unneeded_kind_never_materialized(
    builder: BackendBuilder,
    reg: CapabilityRegistry,
    kind: BackendKind,
)
    requires
        forall|op: Operation| !builder.spec_op_needs(reg, op, kind),
    ensures
        !builder.spec_needs(reg, kind),
        builder.spec_next_missing(reg) != Some(kind),
{
}

/// A kind whose context is already in the pool is never named for
/// construction again: together with the precondition of
/// `supply_context`, at most one context per kind is constructed per
/// assembly, however many operations share that kind.
pub proof fn lemma_present_kind_never_requested(
    builder: BackendBuilder,
    reg: CapabilityRegistry,
    kind: BackendKind,
)
    requires
        builder.pool.spec_has(kind),
    ensures
        builder.spec_next_missing(reg) != Some(kind),
{
}

/// Two operations whose capabilities share a kind are bound to one and
/// the same context: the single context of that kind the assembly
/// constructed.
pub proof fn lemma_shared_kind_shared_context(
    b: Backend,
    builder: BackendBuilder,
    reg: CapabilityRegistry,
    op1: Operation,
    op2: Operation,
)
    requires
        assembled(b, builder, reg),
        b.spec_slot(op1) is Some,
        b.spec_slot(op2) is Some,
        b.spec_slot(op1)->Some_0.kind == b.spec_slot(op2)->Some_0.kind,
    ensures
        b.spec_slot(op1)->Some_0.handle == b.spec_slot(op2)->Some_0.handle,
{
    assert(b.spec_slot(op1) == builder.spec_slot_for(reg, op1));
    assert(b.spec_slot(op2) == builder.spec_slot_for(reg, op2));
}

/// Uniformity of unavailability: an operation whose account configures no
/// kind, and an operation whose configured kind has no compiled-in
/// implementation, end in the same observable state — an empty slot, and
/// so the same `CapabilityUnavailable` answer when invoked.
pub proof fn lemma_unavailability_uniform(
    b1: Backend,
    builder1: BackendBuilder,
    reg1: CapabilityRegistry,
    b2: Backend,
    builder2: BackendBuilder,
    reg2: CapabilityRegistry,
    op: Operation,
)
    requires
        assembled(b1, builder1, reg1),
        builder1.config.spec_configured_kind(op) is None,
        assembled(b2, builder2, reg2),
        builder2.config.spec_configured_kind(op) is Some,
        !reg2.spec_has(op, builder2.config.spec_configured_kind(op)->Some_0),
    ensures
        b1.spec_slot(op) is None,
        b2.spec_slot(op) is None,
{
    assert(b1.spec_slot(op) == builder1.spec_slot_for(reg1, op));
    assert(b2.spec_slot(op) == builder2.spec_slot_for(reg2, op));
}

} // verus!
