//! Protocol identities and abstract operations, with the static support
//! matrix saying which kinds can serve which operation.

use vstd::prelude::*;

verus! {

/// Identity of a concrete protocol implementation.
#[derive(Clone, Copy, Debug, PartialEq, Eq, Structural)]
pub enum BackendKind {
    Imap,
    Maildir,
    MaildirForSync,
    Smtp,
    Sendmail,
}

/// One abstract email action a command may need.
#[derive(Clone, Copy, Debug, PartialEq, Eq, Structural)]
pub enum Operation {
    GetMessages,
    PeekMessages,
    AddMessage,
    SendMessage,
    DeleteFolder,
    AddFlags,
    RemoveFlags,
    SetFlags,
}

/// A message store: a kind that holds folders, messages and flags, as
/// opposed to a pure transport.
pub open spec fn is_store(kind: BackendKind) -> bool {
    kind == BackendKind::Imap || kind == BackendKind::Maildir
        || kind == BackendKind::MaildirForSync
}

/// The static support matrix: which kinds can serve an operation.
///
/// Sending goes through a transport (SMTP or a local sendmail); fetching
/// whole messages with their seen-state update is an IMAP capability;
/// every other operation works on any message store.
pub open spec fn op_supports(op: Operation, kind: BackendKind) -> bool {
    match op {
        Operation::SendMessage => kind == BackendKind::Smtp || kind == BackendKind::Sendmail,
        Operation::GetMessages => kind == BackendKind::Imap,
        _ => is_store(kind),
    }
}

/// Every operation, in a fixed order.
pub fn all_operations() -> (r: Vec<Operation>)
    ensures
        r@ =~= seq![
            Operation::GetMessages,
            Operation::PeekMessages,
            Operation::AddMessage,
            Operation::SendMessage,
            Operation::DeleteFolder,
            Operation::AddFlags,
            Operation::RemoveFlags,
            Operation::SetFlags,
        ],
{
    let mut r: Vec<Operation> = Vec::new();
    r.push(Operation::GetMessages);
    r.push(Operation::PeekMessages);
    r.push(Operation::AddMessage);
    r.push(Operation::SendMessage);
    r.push(Operation::DeleteFolder);
    r.push(Operation::AddFlags);
    r.push(Operation::RemoveFlags);
    r.push(Operation::SetFlags);
    r
}

/// Every backend kind, in a fixed order.
pub fn all_kinds() -> (r: Vec<BackendKind>)
    ensures
        r@ =~= seq![
            BackendKind::Imap,
            BackendKind::Maildir,
            BackendKind::MaildirForSync,
            BackendKind::Smtp,
            BackendKind::Sendmail,
        ],
{
    let mut r: Vec<BackendKind> = Vec::new();
    r.push(BackendKind::Imap);
    r.push(BackendKind::Maildir);
    r.push(BackendKind::MaildirForSync);
    r.push(BackendKind::Smtp);
    r.push(BackendKind::Sendmail);
    r
}

/// Executable check of the support matrix.
pub fn supports(op: Operation, kind: BackendKind) -> (b: bool)
    ensures
        b == op_supports(op, kind),
{
    match op {
        Operation::SendMessage => matches!(kind, BackendKind::Smtp | BackendKind::Sendmail),
        Operation::GetMessages => matches!(kind, BackendKind::Imap),
        _ => matches!(
            kind,
            BackendKind::Imap | BackendKind::Maildir | BackendKind::MaildirForSync
        ),
    }
}

} // verus!
