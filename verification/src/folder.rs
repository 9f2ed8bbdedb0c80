//! The folder deletion command: its backend assembly and its delegation.
//!
//! Confirmation prompting, account resolution from the configuration file
//! and result reporting happen in the surrounding application; the command
//! itself only decides what to assemble and what to dispatch.

use vstd::prelude::*;

use crate::backend::{Action, Backend, Delegation};
use crate::builder::BackendBuilder;
use crate::config::AccountConfig;
use crate::error::BackendError;
use crate::kind::Operation;

verus! {

/// Delete a folder, and every message in it, on the account's store.
#[derive(Clone, Debug)]
pub struct FolderDeleteCommand {
    pub folder: String,
    pub account: Option<String>,
}

impl FolderDeleteCommand {
    /// The assembly this command needs: the delete-folder capability,
    /// nothing else.
    pub fn prepare(&self, config: AccountConfig) -> (b: BackendBuilder)
        ensures
            b.config == config,
            forall|op: Operation| b.requests.spec_contains(op) == (op == Operation::DeleteFolder),
            forall|k: crate::kind::BackendKind| b.pool.spec_get(k) is None,
    {
        let mut b = BackendBuilder::new(config);
        b.register(Operation::DeleteFolder);
        b
    }

    /// The delegation deleting this command's folder, or the
    /// unavailability error.
    pub fn delegate(&self, backend: &Backend) -> (r: Result<Delegation, BackendError>)
        ensures
            r == match backend.spec_slot(Operation::DeleteFolder) {
                Some(c) => Ok::<Delegation, BackendError>(
                    Delegation {
                        kind: c.kind,
                        handle: c.handle,
                        action: Action::DeleteFolder { folder: self.folder },
                    },
                ),
                None => Err::<Delegation, BackendError>(
                    backend.spec_unavailable(Operation::DeleteFolder),
                ),
            },
    {
        backend.delete_folder(self.folder.clone())
    }
}

} // verus!
