//! The static support matrix and the capability registry.

use himalaya::kind::{all_kinds, all_operations, supports, BackendKind, Operation};
use himalaya::registry::CapabilityRegistry;

#[test]
fn send_is_served_by_transports_only() {
    for kind in all_kinds() {
        let expected =
            matches!(kind, BackendKind::Smtp | BackendKind::Sendmail);
        assert_eq!(supports(Operation::SendMessage, kind), expected);
    }
}

#[test]
fn get_is_served_by_imap_only() {
    for kind in all_kinds() {
        assert_eq!(
            supports(Operation::GetMessages, kind),
            matches!(kind, BackendKind::Imap)
        );
    }
}

#[test]
fn store_operations_are_served_by_stores() {
    let stores =
        [BackendKind::Imap, BackendKind::Maildir, BackendKind::MaildirForSync];
    for op in [
        Operation::PeekMessages,
        Operation::AddMessage,
        Operation::DeleteFolder,
        Operation::AddFlags,
        Operation::RemoveFlags,
        Operation::SetFlags,
    ] {
        for kind in all_kinds() {
            assert_eq!(supports(op, kind), stores.contains(&kind));
        }
    }
}

#[test]
fn empty_registry_has_nothing() {
    let reg = CapabilityRegistry::new();
    for op in all_operations() {
        for kind in all_kinds() {
            assert!(!reg.has(op, kind));
        }
    }
}

#[test]
fn registering_a_kind_compiles_its_supported_capabilities_in() {
    let mut reg = CapabilityRegistry::new();
    reg.register_kind(BackendKind::Maildir);
    for op in all_operations() {
        for kind in all_kinds() {
            let expected = kind == BackendKind::Maildir && supports(op, kind);
            assert_eq!(reg.has(op, kind), expected);
        }
    }
}

#[test]
fn registering_one_pair_adds_only_it() {
    let mut reg = CapabilityRegistry::new();
    reg.register(Operation::DeleteFolder, BackendKind::Imap);
    assert!(reg.has(Operation::DeleteFolder, BackendKind::Imap));
    assert!(!reg.has(Operation::DeleteFolder, BackendKind::Maildir));
    assert!(!reg.has(Operation::AddFlags, BackendKind::Imap));
}
