//! The attachment download command: which capabilities it assembles, how
//! messages are fetched, and what is counted and reported once their
//! attachments are in hand.
//!
//! Reading the configuration file, performing the delegations and writing
//! attachment bodies to disk happen in the surrounding application.

use vstd::prelude::*;

use crate::backend::{Action, Backend, Delegation};
use crate::builder::BackendBuilder;
use crate::config::AccountConfig;
use crate::error::BackendError;
use crate::flag::{Flag, Flags};
use crate::kind::{BackendKind, Operation};

verus! {

/// Download every attachment of the given messages to the downloads
/// directory.
#[derive(Clone, Debug)]
pub struct AttachmentDownloadCommand {
    pub folder: String,
    pub ids: Vec<String>,
    pub account: Option<String>,
}

/// The attachment subcommands.
#[derive(Clone, Debug)]
pub enum AttachmentSubcommand {
    Download(AttachmentDownloadCommand),
}

/// One attachment of a fetched message: its declared file name, if the
/// message carries one, and its body.
#[derive(Clone, Debug)]
pub struct Attachment {
    pub filename: Option<String>,
    pub body: Vec<u8>,
}

/// How the download command fetches messages: through the get capability
/// where one is bound, else by peeking and then marking the messages
/// seen, matching what a get would have done to their flags.
#[derive(Clone, Debug)]
pub struct FetchPlan {
    pub fetch: Delegation,
    pub mark_seen: Option<Delegation>,
}

/// The operations the download command registers, given the kind the
/// account configures for getting messages: an IMAP get directly; on a
/// message store, a peek together with the flag update that makes the
/// fetch behave as a get.
pub open spec fn spec_download_requests(config: AccountConfig, op: Operation) -> bool {
    match config.get_messages_kind {
        Some(BackendKind::Imap) => op == Operation::GetMessages,
        Some(BackendKind::Maildir) | Some(BackendKind::MaildirForSync) => op
            == Operation::PeekMessages || op == Operation::AddFlags,
        _ => false,
    }
}

/// The flag set a fetch marks messages with.
fn seen_flags() -> (r: Flags)
    ensures
        r.flags@ =~= seq![Flag::Seen],
{
    let mut r = Flags::new();
    r.push(Flag::Seen);
    r
}

/// An exact copy of a message id list.
fn clone_ids(v: &Vec<String>) -> (r: Vec<String>)
    ensures
        r@ == v@,
{
    let r = v.clone();
    proof {
        assert forall|i: int| 0 <= i < v@.len() implies r@[i] == v@[i] by {
            assert(cloned::<String>(v@[i], r@[i]));
        }
        assert(r@ =~= v@);
    }
    r
}

impl AttachmentDownloadCommand {
    /// The assembly this command needs, resolved from the kind the
    /// account configures for getting messages.
    pub fn prepare(&self, config: AccountConfig) -> (b: BackendBuilder)
        ensures
            b.config == config,
            forall|op: Operation| b.requests.spec_contains(op) == spec_download_requests(
                config,
                op,
            ),
            forall|k: BackendKind| b.pool.spec_get(k) is None,
    {
        let mut b = BackendBuilder::new(config);
        match config.get_messages_kind {
            Some(BackendKind::Imap) => {
                b.register(Operation::GetMessages);
            }
            Some(BackendKind::Maildir) | Some(BackendKind::MaildirForSync) => {
                b.register(Operation::PeekMessages);
                b.register(Operation::AddFlags);
            }
            _ => {}
        }
        b
    }

    /// How this command's messages are fetched on `backend`: the get
    /// delegation where the get capability is bound; else the peek
    /// delegation, together with the seen-flag update where the add-flags
    /// capability is bound; else the get operation's unavailability.
    pub fn fetch_plan(&self, backend: &Backend) -> (r: Result<FetchPlan, BackendError>)
        ensures
            backend.spec_slot(Operation::GetMessages) matches Some(c) ==> (r matches Ok(p) && {
                &&& p.fetch.kind == c.kind
                &&& p.fetch.handle == c.handle
                &&& (p.fetch.action matches Action::GetMessages { folder, ids } && folder
                    == self.folder && ids@ == self.ids@)
                &&& p.mark_seen is None
            }),
            backend.spec_slot(Operation::GetMessages) is None ==> (backend.spec_slot(
                Operation::PeekMessages,
            ) matches Some(c) ==> (r matches Ok(p) && {
                &&& p.fetch.kind == c.kind
                &&& p.fetch.handle == c.handle
                &&& (p.fetch.action matches Action::PeekMessages { folder, ids } && folder
                    == self.folder && ids@ == self.ids@)
                &&& match backend.spec_slot(Operation::AddFlags) {
                    Some(f) => p.mark_seen matches Some(d) && d.kind == f.kind && d.handle
                        == f.handle && (d.action matches Action::AddFlags { folder, ids, flags }
                        && folder == self.folder && ids@ == self.ids@ && flags.flags@ =~= seq![
                            Flag::Seen,
                        ]),
                    None => p.mark_seen is None,
                }
            })),
            (backend.spec_slot(Operation::GetMessages) is None && backend.spec_slot(
                Operation::PeekMessages,
            ) is None) ==> r == Err::<FetchPlan, BackendError>(
                backend.spec_unavailable(Operation::GetMessages),
            ),
    {
        match backend.dispatch(Operation::GetMessages) {
            Ok(c) => Ok(
                FetchPlan {
                    fetch: Delegation {
                        kind: c.kind,
                        handle: c.handle,
                        action: Action::GetMessages {
                            folder: self.folder.clone(),
                            ids: clone_ids(&self.ids),
                        },
                    },
                    mark_seen: None,
                },
            ),
            Err(unavailable) => match backend.dispatch(Operation::PeekMessages) {
                Ok(c) => {
                    let mark_seen = match backend.dispatch(Operation::AddFlags) {
                        Ok(f) => Some(
                            Delegation {
                                kind: f.kind,
                                handle: f.handle,
                                action: Action::AddFlags {
                                    folder: self.folder.clone(),
                                    ids: clone_ids(&self.ids),
                                    flags: seen_flags(),
                                },
                            },
                        ),
                        Err(_) => None,
                    };
                    Ok(
                        FetchPlan {
                            fetch: Delegation {
                                kind: c.kind,
                                handle: c.handle,
                                action: Action::PeekMessages {
                                    folder: self.folder.clone(),
                                    ids: clone_ids(&self.ids),
                                },
                            },
                            mark_seen,
                        },
                    )
                }
                Err(_) => Err(unavailable),
            },
        }
    }
}

/// The total number of attachments over a list of fetched messages.
pub open spec fn spec_attachment_total(msgs: Seq<Vec<Attachment>>) -> int
    decreases msgs.len(),
{
    if msgs.len() == 0 {
        0
    } else {
        msgs.first()@.len() + spec_attachment_total(msgs.drop_first())
    }
}

/// The number of messages carrying at least one attachment.
pub open spec fn spec_messages_with_attachments(msgs: Seq<Vec<Attachment>>) -> int
    decreases msgs.len(),
{
    if msgs.len() == 0 {
        0
    } else {
        (if msgs.first()@.len() > 0 {
            1int
        } else {
            0int
        }) + spec_messages_with_attachments(msgs.drop_first())
    }
}

/// Both counts are sums of non-negative terms.
pub proof fn lemma_counts_nonneg(msgs: Seq<Vec<Attachment>>)
    ensures
        spec_attachment_total(msgs) >= 0,
        spec_messages_with_attachments(msgs) >= 0,
        spec_messages_with_attachments(msgs) <= msgs.len(),
    decreases msgs.len(),
{
    if msgs.len() > 0 {
        lemma_counts_nonneg(msgs.drop_first());
    }
}

/// Count, over the attachments of each fetched message, how many
/// messages carry any and how many attachments there are in all, in the
/// order the messages were fetched.
pub fn tally_attachments(msgs: &Vec<Vec<Attachment>>) -> (r: (usize, usize))
    requires
        spec_attachment_total(msgs@) <= usize::MAX,
    ensures
        r.0 == spec_messages_with_attachments(msgs@),
        r.1 == spec_attachment_total(msgs@),
{
    let mut with_attachments: usize = 0;
    let mut total: usize = 0;
    let mut i: usize = 0;
    proof {
        assert(msgs@.skip(0) =~= msgs@);
    }
    while i < msgs.len()
        invariant
            i <= msgs@.len(),
            spec_attachment_total(msgs@) <= usize::MAX,
            spec_attachment_total(msgs@) == total + spec_attachment_total(msgs@.skip(i as int)),
            spec_messages_with_attachments(msgs@) == with_attachments
                + spec_messages_with_attachments(msgs@.skip(i as int)),
            with_attachments <= i,
        decreases msgs@.len() - i,
    {
        proof {
            assert(msgs@.skip(i as int).first() == msgs@[i as int]);
            assert(msgs@.skip(i as int).drop_first() =~= msgs@.skip(i + 1));
            lemma_counts_nonneg(msgs@.skip(i + 1));
        }
        let n = msgs[i].len();
        if n > 0 {
            with_attachments = with_attachments + 1;
        }
        total = total + n;
        i = i + 1;
    }
    proof {
        assert(msgs@.skip(msgs@.len() as int) =~= Seq::<Vec<Attachment>>::empty());
    }
    (with_attachments, total)
}

/// What the command reports once every attachment was handled.
#[derive(Clone, Copy, Debug, PartialEq, Eq, Structural)]
pub enum DownloadReport {
    /// No attachment was found in any fetched message.
    NoAttachments,
    /// Exactly one attachment was downloaded.
    SingleAttachment,
    /// Several attachments were downloaded, over this many messages.
    ManyAttachments { attachments: usize, messages: usize },
}

/// The report for the two counts of `tally_attachments`.
pub fn download_report(messages: usize, attachments: usize) -> (r: DownloadReport)
    ensures
        attachments == 0 ==> r == DownloadReport::NoAttachments,
        attachments == 1 ==> r == DownloadReport::SingleAttachment,
        attachments >= 2 ==> r == (DownloadReport::ManyAttachments { attachments, messages }),
{
    if attachments == 0 {
        DownloadReport::NoAttachments
    } else if attachments == 1 {
        DownloadReport::SingleAttachment
    } else {
        DownloadReport::ManyAttachments { attachments, messages }
    }
}

/// Relies on `uuid::Uuid::new_v4` and its `Display` form: a fresh random
/// identifier, rendered as the 36-character hyphenated string. The value
/// is random, so nothing is assumed of it beyond its length.
#[verifier::external_body]
fn generated_name() -> (r: String)
    ensures
        r@.len() == 36,
{
    uuid::Uuid::new_v4().to_string()
}

/// The file name an attachment is saved under: its declared name, or a
/// freshly generated identifier where the message declares none.
pub fn resolve_filename(att: &Attachment) -> (r: String)
    ensures
        att.filename matches Some(n) ==> r == n,
        att.filename is None ==> r@.len() == 36,
{
    match &att.filename {
        Some(n) => n.clone(),
        None => generated_name(),
    }
}

} // verus!
