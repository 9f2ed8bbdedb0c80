//! The template commands: save a compiled template to a folder, or send
//! it and optionally save a copy of the sent message.
//!
//! Template-to-MIME compilation, standard-input reading and result
//! reporting happen in the surrounding application; the commands decide
//! what to assemble and how the send/save-copy outcome is classified.

use vstd::prelude::*;

use crate::builder::BackendBuilder;
use crate::config::AccountConfig;
use crate::kind::{BackendKind, Operation};
use crate::registry::CapabilityRegistry;

verus! {

/// Save a template, once compiled into a MIME message, to a folder.
#[derive(Clone, Debug)]
pub struct TemplateSaveCommand {
    pub folder: String,
    pub template: String,
    pub account: Option<String>,
}

impl TemplateSaveCommand {
    /// The assembly this command needs: the add-message capability,
    /// nothing else.
    pub fn prepare(&self, config: AccountConfig) -> (b: BackendBuilder)
        ensures
            b.config == config,
            forall|op: Operation| b.requests.spec_contains(op) == (op == Operation::AddMessage),
            forall|k: BackendKind| b.pool.spec_get(k) is None,
    {
        let mut b = BackendBuilder::new(config);
        b.register(Operation::AddMessage);
        b
    }
}

/// Send a template, once compiled into a MIME message, and save a copy
/// of it to the sent folder when the account asks for one.
#[derive(Clone, Debug)]
pub struct TemplateSendCommand {
    pub template: String,
    pub account: Option<String>,
}

impl TemplateSendCommand {
    /// The assembly this command needs: the send capability, and the
    /// add-message capability only when the account both asks to save a
    /// copy of sent messages and configures a kind to add with. The
    /// conditioning happens here, at registration: with copies disabled
    /// the add capability is never requested, so no store context is
    /// materialized for it.
    pub fn prepare(&self, config: AccountConfig) -> (b: BackendBuilder)
        ensures
            b.config == config,
            forall|op: Operation|
                b.requests.spec_contains(op) == (op == Operation::SendMessage || (op
                    == Operation::AddMessage && config.save_copy_sent_message
                    && config.add_message_kind is Some)),
            forall|k: BackendKind| b.pool.spec_get(k) is None,
    {
        let mut b = BackendBuilder::new(config);
        b.register(Operation::SendMessage);
        if config.should_save_copy_sent_message() && config.configured_kind(
            Operation::AddMessage,
        ).is_some() {
            b.register(Operation::AddMessage);
        }
        b
    }
}

/// The failure of a send command, keeping the failing step apart: a
/// failed send is not a failed copy, and a failed copy does not retract
/// the send that already succeeded.
#[derive(Clone, Debug)]
pub enum SendError {
    /// The send step itself failed; nothing was sent.
    Send { reason: String },
    /// The message was sent, but saving the copy failed.
    SaveCopy { reason: String },
}

/// Combine the outcomes of the two steps of a send plan into the
/// command's result. The save-copy step runs only after a successful
/// send, so a send failure comes with no save outcome.
pub fn classify_send_outcome(send: Result<(), String>, save_copy: Option<Result<(), String>>) -> (r:
    Result<(), SendError>)
    requires
        send is Err ==> save_copy is None,
    ensures
        send matches Err(e) ==> r == Err::<(), SendError>(SendError::Send { reason: e }),
        (send is Ok && (save_copy is None || (save_copy matches Some(s) && s is Ok))) ==> r
            is Ok,
        send is Ok ==> (save_copy matches Some(Err(e)) ==> r == Err::<(), SendError>(
            SendError::SaveCopy { reason: e },
        )),
        r matches Err(SendError::SaveCopy { reason }) ==> send is Ok,
{
    match send {
        Err(e) => Err(SendError::Send { reason: e }),
        Ok(u) => match save_copy {
            Some(Err(e)) => Err(SendError::SaveCopy { reason: e }),
            Some(Ok(u2)) => Ok(()),
            None => Ok(()),
        },
    }
}

/// With the saved copy disabled — or with no kind configured to add the
/// copy — the send command requests nothing but the send itself, and no
/// store context is ever materialized for its assembly: stores cannot
/// serve a send.
pub proof fn lemma_disabled_copy_needs_no_store(
    b: BackendBuilder,
    reg: CapabilityRegistry,
    config: AccountConfig,
)
    requires
        b.config == config,
        forall|op: Operation|
            b.requests.spec_contains(op) == (op == Operation::SendMessage || (op
                == Operation::AddMessage && config.save_copy_sent_message
                && config.add_message_kind is Some)),
        !config.save_copy_sent_message || config.add_message_kind is None,
    ensures
        !b.spec_needs(reg, BackendKind::Imap),
        !b.spec_needs(reg, BackendKind::Maildir),
        !b.spec_needs(reg, BackendKind::MaildirForSync),
{
    assert forall|op: Operation, k: BackendKind|
        crate::kind::is_store(k) implies !b.spec_op_needs(reg, op, k) by {
        if b.requests.spec_contains(op) {
            assert(op == Operation::SendMessage);
        }
    }
}

} // verus!
