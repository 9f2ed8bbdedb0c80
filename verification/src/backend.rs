//! The assembled backend: an immutable facade with one capability slot per
//! operation. Each facade method checks its slot and either produces the
//! delegation for the bound implementation, with the caller's arguments
//! forwarded unmodified, or fails with `CapabilityUnavailable`.
//!
//! The facade is a pure dispatch layer: performing a delegation, and
//! returning the underlying implementation's result verbatim, is the
//! caller's part.

use vstd::prelude::*;

use crate::config::AccountConfig;
use crate::context::ContextPool;
use crate::error::BackendError;
use crate::flag::Flags;
use crate::kind::{op_supports, BackendKind, Operation};

verus! {

/// A bound implementation of one operation: the kind whose implementation
/// serves it and the handle of the context it is bound to.
#[derive(Clone, Copy, Debug, PartialEq, Eq, Structural)]
pub struct Capability {
    pub kind: BackendKind,
    pub handle: usize,
}

/// One operation together with the arguments it was invoked with.
#[derive(Clone, Debug)]
pub enum Action {
    GetMessages { folder: String, ids: Vec<String> },
    PeekMessages { folder: String, ids: Vec<String> },
    AddMessage { folder: String, raw: Vec<u8> },
    SendMessage { raw: Vec<u8> },
    DeleteFolder { folder: String },
    AddFlags { folder: String, ids: Vec<String>, flags: Flags },
    RemoveFlags { folder: String, ids: Vec<String>, flags: Flags },
    SetFlags { folder: String, ids: Vec<String>, flags: Flags },
}

/// A dispatched call: which context to run which action against. The
/// facade produces delegations; whoever owns the real resources performs
/// them and reports the implementation's result verbatim.
#[derive(Clone, Debug)]
pub struct Delegation {
    pub kind: BackendKind,
    pub handle: usize,
    pub action: Action,
}

/// The backend facade. Logically immutable once assembled; it owns the
/// context pool of its assembly and one optional capability per operation.
/// An empty slot is the only way unavailability is represented.
#[derive(Clone, Copy, Debug)]
pub struct Backend {
    pub config: AccountConfig,
    pub pool: ContextPool,
    pub get_messages: Option<Capability>,
    pub peek_messages: Option<Capability>,
    pub add_message: Option<Capability>,
    pub send_message: Option<Capability>,
    pub delete_folder: Option<Capability>,
    pub add_flags: Option<Capability>,
    pub remove_flags: Option<Capability>,
    pub set_flags: Option<Capability>,
}

impl Backend {
    /// The capability slot of `op`.
    pub open spec fn spec_slot(self, op: Operation) -> Option<Capability> {
        match op {
            Operation::GetMessages => self.get_messages,
            Operation::PeekMessages => self.peek_messages,
            Operation::AddMessage => self.add_message,
            Operation::SendMessage => self.send_message,
            Operation::DeleteFolder => self.delete_folder,
            Operation::AddFlags => self.add_flags,
            Operation::RemoveFlags => self.remove_flags,
            Operation::SetFlags => self.set_flags,
        }
    }

    /// Well-formedness: no cross-wiring. A populated slot's kind is the
    /// configured kind of its operation, lies in the operation's support
    /// set, and is bound to the context this backend's pool holds for it.
    pub open spec fn wf(self) -> bool {
        forall|op: Operation| (#[trigger] self.spec_slot(op)) is Some ==> {
            let c = self.spec_slot(op)->Some_0;
            &&& self.config.spec_configured_kind(op) == Some(c.kind)
            &&& op_supports(op, c.kind)
            &&& (self.pool.spec_get(c.kind) matches Some(ctx) && ctx.handle == c.handle)
        }
    }

    /// The error every facade method reports for an empty slot.
    pub open spec fn spec_unavailable(self, op: Operation) -> BackendError {
        BackendError::CapabilityUnavailable {
            operation: op,
            configured: self.config.spec_configured_kind(op),
        }
    }

    /// Check the slot of `op`: the bound capability, or the unavailability
    /// error carrying the configured kind, if any.
    pub fn dispatch(&self, op: Operation) -> (r: Result<Capability, BackendError>)
        ensures
            r == match self.spec_slot(op) {
                Some(c) => Ok::<Capability, BackendError>(c),
                None => Err::<Capability, BackendError>(self.spec_unavailable(op)),
            },
    {
        let slot = match op {
            Operation::GetMessages => self.get_messages,
            Operation::PeekMessages => self.peek_messages,
            Operation::AddMessage => self.add_message,
            Operation::SendMessage => self.send_message,
            Operation::DeleteFolder => self.delete_folder,
            Operation::AddFlags => self.add_flags,
            Operation::RemoveFlags => self.remove_flags,
            Operation::SetFlags => self.set_flags,
        };
        match slot {
            Some(c) => Ok(c),
            None => Err(
                BackendError::CapabilityUnavailable {
                    operation: op,
                    configured: self.config.configured_kind(op),
                },
            ),
        }
    }

    /// Fetch messages and mark them seen.
    pub fn get_messages(&self, folder: String, ids: Vec<String>) -> (r: Result<
        Delegation,
        BackendError,
    >)
        ensures
            r == match self.spec_slot(Operation::GetMessages) {
                Some(c) => Ok::<Delegation, BackendError>(
                    Delegation {
                        kind: c.kind,
                        handle: c.handle,
                        action: Action::GetMessages { folder, ids },
                    },
                ),
                None => Err::<Delegation, BackendError>(
                    self.spec_unavailable(Operation::GetMessages),
                ),
            },
    {
        match self.dispatch(Operation::GetMessages) {
            Ok(c) => Ok(
                Delegation {
                    kind: c.kind,
                    handle: c.handle,
                    action: Action::GetMessages { folder, ids },
                },
            ),
            Err(e) => Err(e),
        }
    }

    /// Fetch messages without touching their seen-state.
    pub fn peek_messages(&self, folder: String, ids: Vec<String>) -> (r: Result<
        Delegation,
        BackendError,
    >)
        ensures
            r == match self.spec_slot(Operation::PeekMessages) {
                Some(c) => Ok::<Delegation, BackendError>(
                    Delegation {
                        kind: c.kind,
                        handle: c.handle,
                        action: Action::PeekMessages { folder, ids },
                    },
                ),
                None => Err::<Delegation, BackendError>(
                    self.spec_unavailable(Operation::PeekMessages),
                ),
            },
    {
        match self.dispatch(Operation::PeekMessages) {
            Ok(c) => Ok(
                Delegation {
                    kind: c.kind,
                    handle: c.handle,
                    action: Action::PeekMessages { folder, ids },
                },
            ),
            Err(e) => Err(e),
        }
    }

    /// Add a raw message to a folder.
    pub fn add_message(&self, folder: String, raw: Vec<u8>) -> (r: Result<Delegation, BackendError>)
        ensures
            r == match self.spec_slot(Operation::AddMessage) {
                Some(c) => Ok::<Delegation, BackendError>(
                    Delegation {
                        kind: c.kind,
                        handle: c.handle,
                        action: Action::AddMessage { folder, raw },
                    },
                ),
                None => Err::<Delegation, BackendError>(
                    self.spec_unavailable(Operation::AddMessage),
                ),
            },
    {
        match self.dispatch(Operation::AddMessage) {
            Ok(c) => Ok(
                Delegation { kind: c.kind, handle: c.handle, action: Action::AddMessage { folder, raw } },
            ),
            Err(e) => Err(e),
        }
    }

    /// Send a raw message through the configured transport.
    pub fn send_message(&self, raw: Vec<u8>) -> (r: Result<Delegation, BackendError>)
        ensures
            r == match self.spec_slot(Operation::SendMessage) {
                Some(c) => Ok::<Delegation, BackendError>(
                    Delegation { kind: c.kind, handle: c.handle, action: Action::SendMessage { raw } },
                ),
                None => Err::<Delegation, BackendError>(
                    self.spec_unavailable(Operation::SendMessage),
                ),
            },
    {
        match self.dispatch(Operation::SendMessage) {
            Ok(c) => Ok(
                Delegation { kind: c.kind, handle: c.handle, action: Action::SendMessage { raw } },
            ),
            Err(e) => Err(e),
        }
    }

    /// Delete a folder and everything in it.
    pub fn delete_folder(&self, folder: String) -> (r: Result<Delegation, BackendError>)
        ensures
            r == match self.spec_slot(Operation::DeleteFolder) {
                Some(c) => Ok::<Delegation, BackendError>(
                    Delegation { kind: c.kind, handle: c.handle, action: Action::DeleteFolder { folder } },
                ),
                None => Err::<Delegation, BackendError>(
                    self.spec_unavailable(Operation::DeleteFolder),
                ),
            },
    {
        match self.dispatch(Operation::DeleteFolder) {
            Ok(c) => Ok(
                Delegation { kind: c.kind, handle: c.handle, action: Action::DeleteFolder { folder } },
            ),
            Err(e) => Err(e),
        }
    }

    /// Add flags to messages.
    pub fn add_flags(&self, folder: String, ids: Vec<String>, flags: Flags) -> (r: Result<
        Delegation,
        BackendError,
    >)
        ensures
            r == match self.spec_slot(Operation::AddFlags) {
                Some(c) => Ok::<Delegation, BackendError>(
                    Delegation {
                        kind: c.kind,
                        handle: c.handle,
                        action: Action::AddFlags { folder, ids, flags },
                    },
                ),
                None => Err::<Delegation, BackendError>(self.spec_unavailable(Operation::AddFlags)),
            },
    {
        match self.dispatch(Operation::AddFlags) {
            Ok(c) => Ok(
                Delegation {
                    kind: c.kind,
                    handle: c.handle,
                    action: Action::AddFlags { folder, ids, flags },
                },
            ),
            Err(e) => Err(e),
        }
    }

    /// Remove flags from messages.
    pub fn remove_flags(&self, folder: String, ids: Vec<String>, flags: Flags) -> (r: Result<
        Delegation,
        BackendError,
    >)
        ensures
            r == match self.spec_slot(Operation::RemoveFlags) {
                Some(c) => Ok::<Delegation, BackendError>(
                    Delegation {
                        kind: c.kind,
                        handle: c.handle,
                        action: Action::RemoveFlags { folder, ids, flags },
                    },
                ),
                None => Err::<Delegation, BackendError>(
                    self.spec_unavailable(Operation::RemoveFlags),
                ),
            },
    {
        match self.dispatch(Operation::RemoveFlags) {
            Ok(c) => Ok(
                Delegation {
                    kind: c.kind,
                    handle: c.handle,
                    action: Action::RemoveFlags { folder, ids, flags },
                },
            ),
            Err(e) => Err(e),
        }
    }

    /// Replace the flags of messages.
    pub fn set_flags(&self, folder: String, ids: Vec<String>, flags: Flags) -> (r: Result<
        Delegation,
        BackendError,
    >)
        ensures
            r == match self.spec_slot(Operation::SetFlags) {
                Some(c) => Ok::<Delegation, BackendError>(
                    Delegation {
                        kind: c.kind,
                        handle: c.handle,
                        action: Action::SetFlags { folder, ids, flags },
                    },
                ),
                None => Err::<Delegation, BackendError>(self.spec_unavailable(Operation::SetFlags)),
            },
    {
        match self.dispatch(Operation::SetFlags) {
            Ok(c) => Ok(
                Delegation {
                    kind: c.kind,
                    handle: c.handle,
                    action: Action::SetFlags { folder, ids, flags },
                },
            ),
            Err(e) => Err(e),
        }
    }
}

/// The two-step sequence of a send with an optional saved copy: the send
/// is delegated first, the copy — when the command registered the add
/// capability for it — second. The two steps may be served by different
/// kinds. A failure of the second step never retracts the first: the
/// sequence is not transactional.
#[derive(Clone, Debug)]
pub struct SendPlan {
    pub send: Delegation,
    pub save_copy: Option<Delegation>,
}

impl SendPlan {
    /// The delegations of the plan, in execution order.
    pub open spec fn steps(self) -> Seq<Delegation> {
        match self.save_copy {
            Some(d) => seq![self.send, d],
            None => seq![self.send],
        }
    }
}

/// The send delegation always comes first in a plan's steps; the saved
/// copy, when present, strictly after it.
pub proof fn lemma_send_precedes_save_copy(plan: SendPlan)
    ensures
        plan.steps().len() >= 1,
        plan.steps()[0] == plan.send,
        plan.save_copy matches Some(d) ==> plan.steps() =~= seq![plan.send, d],
        plan.save_copy is None ==> plan.steps() =~= seq![plan.send],
{
}

/// An exact copy of a raw message.
fn clone_bytes(v: &Vec<u8>) -> (r: Vec<u8>)
    ensures
        r@ == v@,
{
    let r = v.clone();
    proof {
        assert(r@ =~= v@);
    }
    r
}

impl Backend {
    /// Dispatch a send, together with the saved-copy step the assembly
    /// wired for it: the copy delegation is present exactly when the add
    /// capability was registered and bound — the command registers it only
    /// when the account asks for a copy of sent messages. Both steps
    /// forward `raw` unmodified; the copy targets `sent_folder`.
    pub fn send_with_save_copy(&self, raw: Vec<u8>, sent_folder: String) -> (r: Result<
        SendPlan,
        BackendError,
    >)
        ensures
            self.spec_slot(Operation::SendMessage) is None ==> r == Err::<SendPlan, BackendError>(
                self.spec_unavailable(Operation::SendMessage),
            ),
            self.spec_slot(Operation::SendMessage) matches Some(c) ==> (r matches Ok(plan) && {
                &&& plan.send.kind == c.kind
                &&& plan.send.handle == c.handle
                &&& (plan.send.action matches Action::SendMessage { raw: sent } && sent@ == raw@)
                &&& match self.spec_slot(Operation::AddMessage) {
                    Some(a) => plan.save_copy matches Some(d) && d.kind == a.kind && d.handle
                        == a.handle && (d.action matches Action::AddMessage { folder, raw: copied }
                        && folder == sent_folder && copied@ == raw@),
                    None => plan.save_copy is None,
                }
            }),
    {
        let send_cap = match self.dispatch(Operation::SendMessage) {
            Ok(c) => c,
            Err(e) => {
                return Err(e);
            }
        };
        let save_copy = match self.dispatch(Operation::AddMessage) {
            Ok(a) => Some(
                Delegation {
                    kind: a.kind,
                    handle: a.handle,
                    action: Action::AddMessage { folder: sent_folder, raw: clone_bytes(&raw) },
                },
            ),
            Err(_) => None,
        };
        Ok(
            SendPlan {
                send: Delegation {
                    kind: send_cap.kind,
                    handle: send_cap.handle,
                    action: Action::SendMessage { raw },
                },
                save_copy,
            },
        )
    }
}

/// An operation invoked on a backend whose account configures no kind for
/// it always reports `CapabilityUnavailable`: the slot of an unconfigured
/// operation is empty in every well-formed backend, and `dispatch` turns
/// an empty slot into that error, never into a panic or a silent no-op.
pub proof fn lemma_unconfigured_always_unavailable(b: Backend, op: Operation)
    requires
        b.wf(),
        b.config.spec_configured_kind(op) is None,
    ensures
        b.spec_slot(op) is None,
        (b.spec_unavailable(op) matches BackendError::CapabilityUnavailable {
            operation,
            configured,
        } && operation == op && configured is None),
{
    assert(b.spec_slot(op) is None) by {
        if b.spec_slot(op) is Some {
            assert(b.config.spec_configured_kind(op) is Some);
        }
    }
}

} // verus!
