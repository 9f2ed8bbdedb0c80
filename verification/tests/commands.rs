//! The commands driven against stubbed backends: download, template save
//! and send, folder delete.

use himalaya::attachment::{
    download_report, resolve_filename, tally_attachments, Attachment, AttachmentDownloadCommand,
    DownloadReport,
};
use himalaya::backend::Action;
use himalaya::builder::BackendBuilder;
use himalaya::config::AccountConfig;
use himalaya::context::Context;
use himalaya::error::BackendError;
use himalaya::flag::Flag;
use himalaya::folder::FolderDeleteCommand;
use himalaya::kind::{BackendKind, Operation};
use himalaya::registry::CapabilityRegistry;
use himalaya::template::{classify_send_outcome, SendError, TemplateSendCommand};

fn drive_assembly(builder: &mut BackendBuilder, reg: &CapabilityRegistry) -> Vec<BackendKind> {
    let mut constructed = Vec::new();
    let mut next_handle: usize = 1;
    while let Some(kind) = builder.next_missing_kind(reg) {
        constructed.push(kind);
        builder.supply_context(Context { kind, handle: next_handle });
        next_handle += 1;
    }
    constructed
}

fn all_kinds_registry() -> CapabilityRegistry {
    let mut reg = CapabilityRegistry::new();
    reg.register_kind(BackendKind::Imap);
    reg.register_kind(BackendKind::Maildir);
    reg.register_kind(BackendKind::MaildirForSync);
    reg.register_kind(BackendKind::Smtp);
    reg.register_kind(BackendKind::Sendmail);
    reg
}

#[test]
fn download_on_imap_account_delegates_get() {
    // Account with only the get kind configured: get_messages delegates
    // to the IMAP implementation; add_message is unavailable with no
    // configured kind.
    let mut config = AccountConfig::empty();
    config.get_messages_kind = Some(BackendKind::Imap);
    let reg = all_kinds_registry();
    let cmd = AttachmentDownloadCommand {
        folder: "INBOX".to_string(),
        ids: vec!["12".to_string()],
        account: None,
    };
    let mut builder = cmd.prepare(config);
    let constructed = drive_assembly(&mut builder, &reg);
    assert_eq!(constructed, vec![BackendKind::Imap]);
    let backend = builder.try_build(&reg).unwrap();

    let plan = cmd.fetch_plan(&backend).unwrap();
    assert_eq!(plan.fetch.kind, BackendKind::Imap);
    assert!(plan.mark_seen.is_none());
    match plan.fetch.action {
        Action::GetMessages { folder, ids } => {
            assert_eq!(folder, "INBOX");
            assert_eq!(ids, vec!["12".to_string()]);
        }
        _ => panic!("wrong action"),
    }

    let err = backend
        .add_message("Sent".to_string(), b"raw".to_vec())
        .unwrap_err();
    assert!(matches!(
        err,
        BackendError::CapabilityUnavailable { operation: Operation::AddMessage, configured: None }
    ));
}

#[test]
fn download_on_maildir_account_peeks_then_marks_seen() {
    // On a store account the command registers peek and add-flags; the
    // fetch plan peeks and then marks the messages seen, sharing one
    // Maildir context.
    let mut config = AccountConfig::empty();
    config.get_messages_kind = Some(BackendKind::Maildir);
    config.peek_messages_kind = Some(BackendKind::Maildir);
    config.add_flags_kind = Some(BackendKind::Maildir);
    let reg = all_kinds_registry();
    let cmd = AttachmentDownloadCommand {
        folder: "INBOX".to_string(),
        ids: vec!["3".to_string(), "4".to_string()],
        account: None,
    };
    let mut builder = cmd.prepare(config);
    let constructed = drive_assembly(&mut builder, &reg);
    assert_eq!(constructed, vec![BackendKind::Maildir]);
    let backend = builder.try_build(&reg).unwrap();

    let plan = cmd.fetch_plan(&backend).unwrap();
    assert_eq!(plan.fetch.kind, BackendKind::Maildir);
    match &plan.fetch.action {
        Action::PeekMessages { folder, ids } => {
            assert_eq!(folder, "INBOX");
            assert_eq!(ids.len(), 2);
        }
        _ => panic!("wrong action"),
    }
    let mark = plan.mark_seen.expect("flag update expected");
    assert_eq!(mark.handle, plan.fetch.handle);
    match mark.action {
        Action::AddFlags { folder, ids, flags } => {
            assert_eq!(folder, "INBOX");
            assert_eq!(ids, vec!["3".to_string(), "4".to_string()]);
            assert!(flags.contains(Flag::Seen));
            assert_eq!(flags.flags.len(), 1);
        }
        _ => panic!("wrong action"),
    }
}

#[test]
fn send_then_save_copy_in_order() {
    // Send via SMTP with a Maildir saved copy: the recorded sequence
    // shows the send before the copy.
    let mut config = AccountConfig::empty();
    config.send_message_kind = Some(BackendKind::Smtp);
    config.add_message_kind = Some(BackendKind::Maildir);
    config.save_copy_sent_message = true;
    let reg = all_kinds_registry();
    let cmd = TemplateSendCommand { template: "Hello".to_string(), account: None };
    let mut builder = cmd.prepare(config);
    let constructed = drive_assembly(&mut builder, &reg);
    assert_eq!(constructed, vec![BackendKind::Maildir, BackendKind::Smtp]);
    let backend = builder.try_build(&reg).unwrap();

    let plan = backend
        .send_with_save_copy(b"mime message".to_vec(), "Sent".to_string())
        .unwrap();
    let mut sequence = Vec::new();
    match &plan.send.action {
        Action::SendMessage { raw } => {
            assert_eq!(raw.as_slice(), b"mime message");
            sequence.push("send");
        }
        _ => panic!("wrong action"),
    }
    assert_eq!(plan.send.kind, BackendKind::Smtp);
    let save = plan.save_copy.expect("saved copy expected");
    match &save.action {
        Action::AddMessage { folder, raw } => {
            assert_eq!(folder, "Sent");
            assert_eq!(raw.as_slice(), b"mime message");
            sequence.push("add");
        }
        _ => panic!("wrong action"),
    }
    assert_eq!(save.kind, BackendKind::Maildir);
    assert_eq!(sequence, vec!["send", "add"]);
}

#[test]
fn save_copy_disabled_constructs_no_store_context() {
    // With the saved copy disabled, the add capability is never
    // requested and the Maildir context is never constructed.
    let mut config = AccountConfig::empty();
    config.send_message_kind = Some(BackendKind::Smtp);
    config.add_message_kind = Some(BackendKind::Maildir);
    config.save_copy_sent_message = false;
    let reg = all_kinds_registry();
    let cmd = TemplateSendCommand { template: "Hello".to_string(), account: None };
    let mut builder = cmd.prepare(config);
    let constructed = drive_assembly(&mut builder, &reg);
    assert_eq!(constructed, vec![BackendKind::Smtp]);
    let backend = builder.try_build(&reg).unwrap();
    let plan = backend
        .send_with_save_copy(b"mime message".to_vec(), "Sent".to_string())
        .unwrap();
    assert!(plan.save_copy.is_none());
}

#[test]
fn save_copy_failure_is_distinct_and_send_stands() {
    // The sent-folder is missing: the send succeeded, the copy failed;
    // the error names the copy step, and the send is not retracted.
    let send_outcome: Result<(), String> = Ok(());
    let save_outcome = Some(Err("cannot open folder Sent".to_string()));
    let r = classify_send_outcome(send_outcome, save_outcome);
    match r.unwrap_err() {
        SendError::SaveCopy { reason } => assert_eq!(reason, "cannot open folder Sent"),
        SendError::Send { .. } => panic!("a save-copy failure must not read as a send failure"),
    }
}

#[test]
fn send_failure_is_distinct_from_save_copy_failure() {
    let r = classify_send_outcome(Err("smtp refused".to_string()), None);
    match r.unwrap_err() {
        SendError::Send { reason } => assert_eq!(reason, "smtp refused"),
        SendError::SaveCopy { .. } => panic!("a send failure must not read as a copy failure"),
    }
}

#[test]
fn successful_send_with_successful_copy_is_ok() {
    assert!(classify_send_outcome(Ok(()), Some(Ok(()))).is_ok());
    assert!(classify_send_outcome(Ok(()), None).is_ok());
}

#[test]
fn delete_folder_not_compiled_is_unavailable() {
    // delete_folder_kind is configured but the Maildir implementation is
    // absent from the build: invoking the command's delegation reports
    // CapabilityUnavailable, not an assembly error.
    let mut config = AccountConfig::empty();
    config.delete_folder_kind = Some(BackendKind::Maildir);
    let reg = CapabilityRegistry::new();
    let cmd = FolderDeleteCommand { folder: "Archive".to_string(), account: None };
    let mut builder = cmd.prepare(config);
    let constructed = drive_assembly(&mut builder, &reg);
    assert!(constructed.is_empty());
    let backend = builder.try_build(&reg).unwrap();
    let err = cmd.delegate(&backend).unwrap_err();
    assert!(matches!(
        err,
        BackendError::CapabilityUnavailable {
            operation: Operation::DeleteFolder,
            configured: Some(BackendKind::Maildir),
        }
    ));
}

#[test]
fn delete_folder_delegates_on_maildir_account() {
    let mut config = AccountConfig::empty();
    config.delete_folder_kind = Some(BackendKind::Maildir);
    let reg = all_kinds_registry();
    let cmd = FolderDeleteCommand { folder: "Archive".to_string(), account: None };
    let mut builder = cmd.prepare(config);
    drive_assembly(&mut builder, &reg);
    let backend = builder.try_build(&reg).unwrap();
    let delegation = cmd.delegate(&backend).unwrap();
    assert_eq!(delegation.kind, BackendKind::Maildir);
    match delegation.action {
        Action::DeleteFolder { folder } => assert_eq!(folder, "Archive"),
        _ => panic!("wrong action"),
    }
}

#[test]
fn attachment_tally_counts_messages_and_attachments() {
    let att = |name: &str| Attachment { filename: Some(name.to_string()), body: vec![1, 2, 3] };
    let msgs = vec![
        vec![],
        vec![att("a.pdf")],
        vec![att("b.png"), att("c.txt")],
    ];
    let (messages, attachments) = tally_attachments(&msgs);
    assert_eq!(messages, 2);
    assert_eq!(attachments, 3);
}

#[test]
fn download_report_matches_counts() {
    assert_eq!(download_report(0, 0), DownloadReport::NoAttachments);
    assert_eq!(download_report(1, 1), DownloadReport::SingleAttachment);
    assert_eq!(
        download_report(2, 3),
        DownloadReport::ManyAttachments { attachments: 3, messages: 2 }
    );
}

#[test]
fn declared_filename_is_kept() {
    let att = Attachment { filename: Some("report.pdf".to_string()), body: vec![0] };
    assert_eq!(resolve_filename(&att), "report.pdf");
}

#[test]
fn missing_filename_gets_generated_identifier() {
    let att = Attachment { filename: None, body: vec![0] };
    let name = resolve_filename(&att);
    assert_eq!(name.chars().count(), 36);
    assert_eq!(name.chars().filter(|c| *c == '-').count(), 4);
}

#[test]
fn attachment_tally_of_no_messages_is_zero() {
    let msgs: Vec<Vec<Attachment>> = vec![];
    assert_eq!(tally_attachments(&msgs), (0, 0));
    let only_empty: Vec<Vec<Attachment>> = vec![vec![], vec![]];
    assert_eq!(tally_attachments(&only_empty), (0, 0));
}
