//! The per-account view that the engine consumes: which backend kind, if
//! any, is configured to serve each operation, and the account settings
//! that condition optional capability registration.

use vstd::prelude::*;

use crate::kind::{BackendKind, Operation};

verus! {

/// Per-account configuration as the composition engine sees it.
///
/// A field holding `None` means the account does not configure any backend
/// for that operation; the operation will then be unavailable on every
/// backend assembled for the account.
#[derive(Clone, Copy, Debug)]
pub struct AccountConfig {
    pub get_messages_kind: Option<BackendKind>,
    pub peek_messages_kind: Option<BackendKind>,
    pub add_message_kind: Option<BackendKind>,
    pub send_message_kind: Option<BackendKind>,
    pub delete_folder_kind: Option<BackendKind>,
    pub add_flags_kind: Option<BackendKind>,
    pub remove_flags_kind: Option<BackendKind>,
    pub set_flags_kind: Option<BackendKind>,
    /// After a successful send, should a copy of the sent message be added
    /// to the sent folder?
    pub save_copy_sent_message: bool,
}

impl AccountConfig {
    /// The backend kind configured to serve `op`, if any.
    pub open spec fn spec_configured_kind(self, op: Operation) -> Option<BackendKind> {
        match op {
            Operation::GetMessages => self.get_messages_kind,
            Operation::PeekMessages => self.peek_messages_kind,
            Operation::AddMessage => self.add_message_kind,
            Operation::SendMessage => self.send_message_kind,
            Operation::DeleteFolder => self.delete_folder_kind,
            Operation::AddFlags => self.add_flags_kind,
            Operation::RemoveFlags => self.remove_flags_kind,
            Operation::SetFlags => self.set_flags_kind,
        }
    }

    /// Executable lookup of the configured kind for `op`.
    pub fn configured_kind(&self, op: Operation) -> (r: Option<BackendKind>)
        ensures
            r == self.spec_configured_kind(op),
    {
        match op {
            Operation::GetMessages => self.get_messages_kind,
            Operation::PeekMessages => self.peek_messages_kind,
            Operation::AddMessage => self.add_message_kind,
            Operation::SendMessage => self.send_message_kind,
            Operation::DeleteFolder => self.delete_folder_kind,
            Operation::AddFlags => self.add_flags_kind,
            Operation::RemoveFlags => self.remove_flags_kind,
            Operation::SetFlags => self.set_flags_kind,
        }
    }

    /// Whether a copy of a sent message should be saved to the sent folder.
    pub fn should_save_copy_sent_message(&self) -> (r: bool)
        ensures
            r == self.save_copy_sent_message,
    {
        self.save_copy_sent_message
    }

    /// An account that configures no backend for any operation.
    pub fn empty() -> (r: AccountConfig)
        ensures
            forall|op: Operation| r.spec_configured_kind(op) is None,
            !r.save_copy_sent_message,
    {
        AccountConfig {
            get_messages_kind: None,
            peek_messages_kind: None,
            add_message_kind: None,
            send_message_kind: None,
            delete_folder_kind: None,
            add_flags_kind: None,
            remove_flags_kind: None,
            set_flags_kind: None,
            save_copy_sent_message: false,
        }
    }
}

} // verus!
