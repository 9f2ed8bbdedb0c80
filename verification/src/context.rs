//! The context pool: at most one constructed context per backend kind,
//! owned by a single backend assembly.
//!
//! A context stands for a connection, an open directory or a client
//! resolved by the surrounding application; the engine never looks inside
//! one. The `handle` field identifies the concrete resource to whoever
//! constructed it.

use vstd::prelude::*;

use crate::kind::BackendKind;

verus! {

/// A constructed context for one backend kind.
#[derive(Clone, Copy, Debug, PartialEq, Eq, Structural)]
pub struct Context {
    pub kind: BackendKind,
    pub handle: usize,
}

/// At most one context per backend kind.
#[derive(Clone, Copy, Debug)]
pub struct ContextPool {
    imap: Option<Context>,
    maildir: Option<Context>,
    maildir_for_sync: Option<Context>,
    smtp: Option<Context>,
    sendmail: Option<Context>,
}

impl ContextPool {
    /// The context stored for `kind`, if one was constructed.
    pub closed spec fn spec_get(self, kind: BackendKind) -> Option<Context> {
        match kind {
            BackendKind::Imap => self.imap,
            BackendKind::Maildir => self.maildir,
            BackendKind::MaildirForSync => self.maildir_for_sync,
            BackendKind::Smtp => self.smtp,
            BackendKind::Sendmail => self.sendmail,
        }
    }

    /// Does the pool hold a context for `kind`?
    pub open spec fn spec_has(self, kind: BackendKind) -> bool {
        self.spec_get(kind) is Some
    }

    /// The pool of a fresh assembly: nothing constructed yet.
    pub fn new() -> (r: ContextPool)
        ensures
            forall|k: BackendKind| r.spec_get(k) is None,
    {
        ContextPool { imap: None, maildir: None, maildir_for_sync: None, smtp: None, sendmail: None }
    }

    /// Executable lookup.
    pub fn get(&self, kind: BackendKind) -> (r: Option<Context>)
        ensures
            r == self.spec_get(kind),
    {
        match kind {
            BackendKind::Imap => self.imap,
            BackendKind::Maildir => self.maildir,
            BackendKind::MaildirForSync => self.maildir_for_sync,
            BackendKind::Smtp => self.smtp,
            BackendKind::Sendmail => self.sendmail,
        }
    }

    /// Executable occupancy test.
    pub fn has(&self, kind: BackendKind) -> (r: bool)
        ensures
            r == self.spec_has(kind),
    {
        self.get(kind).is_some()
    }

    /// Store the context constructed for `ctx.kind`.
    ///
    /// Construction happens at most once per kind per assembly, so a
    /// context may not already be present for that kind.
    pub fn insert(&mut self, ctx: Context)
        requires
            old(self).spec_get(ctx.kind) is None,
        ensures
            forall|k: BackendKind|
                final(self).spec_get(k) == (if k == ctx.kind {
                    Some(ctx)
                } else {
                    old(self).spec_get(k)
                }),
    {
        match ctx.kind {
            BackendKind::Imap => self.imap = Some(ctx),
            BackendKind::Maildir => self.maildir = Some(ctx),
            BackendKind::MaildirForSync => self.maildir_for_sync = Some(ctx),
            BackendKind::Smtp => self.smtp = Some(ctx),
            BackendKind::Sendmail => self.sendmail = Some(ctx),
        }
    }
}

} // verus!
