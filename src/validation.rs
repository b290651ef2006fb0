//! The rule that decides whether an update may supersede a record. The
//! permission is always read from the predecessor held by the store, never
//! from the incoming page.

use vstd::prelude::*;

use crate::page::{AgentKey, Element, ElementView, HeaderHash, UpdatePermission, WikiPage, WikiPageView};
use crate::store::{resolved, RecordStore};

verus! {

/// The outcome of validating an update.
#[derive(Clone, Debug, PartialEq, Eq)]
pub enum Verdict {
    Accept,
    /// The update is refused; the reason is shown to the submitter.
    Reject(String),
}

pub enum VerdictView {
    Accept,
    Reject(Seq<char>),
}

impl View for Verdict {
    type V = VerdictView;

    open spec fn view(&self) -> VerdictView {
        match self {
            Verdict::Accept => VerdictView::Accept,
            Verdict::Reject(reason) => VerdictView::Reject(reason@),
        }
    }
}

/// A proposed update: the page to append, the address of the record it
/// supersedes, and the agent that submits it.
#[derive(Clone, Debug)]
pub struct UpdateOperation {
    pub new_record: WikiPage,
    pub target_address: HeaderHash,
    pub submitting_author: AgentKey,
}

pub struct UpdateOperationView {
    pub new_record: WikiPageView,
    pub target_address: HeaderHash,
    pub submitting_author: Seq<u8>,
}

impl View for UpdateOperation {
    type V = UpdateOperationView;

    open spec fn view(&self) -> UpdateOperationView {
        UpdateOperationView {
            new_record: self.new_record@,
            target_address: self.target_address,
            submitting_author: self.submitting_author@,
        }
    }
}

/// Reason given when the predecessor cannot be resolved.
pub open spec fn not_found_reason() -> Seq<char> {
    "predecessor record not found"@
}

/// Reason given when someone other than the author edits a locked record.
pub open spec fn author_only_reason() -> Seq<char> {
    "only the author can edit this record"@
}

/// The verdict on an update by `submitter` whose predecessor, as the store
/// resolved it, is `predecessor`.
pub open spec fn decision(predecessor: Option<ElementView>, submitter: Seq<u8>) -> VerdictView {
    match predecessor {
        None => VerdictView::Reject(not_found_reason()),
        Some(p) => match p.entry.permission {
            UpdatePermission::AuthorOnly => if submitter == p.author {
                VerdictView::Accept
            } else {
                VerdictView::Reject(author_only_reason())
            },
            UpdatePermission::Others => VerdictView::Accept,
        },
    }
}

/// The verdict on `op` against the records currently visible in the store.
pub open spec fn update_verdict(
    records: Map<HeaderHash, ElementView>,
    op: UpdateOperationView,
) -> VerdictView {
    decision(resolved(records, op.target_address), op.submitting_author)
}

pub open spec fn predecessor_view(predecessor: Option<&Element>) -> Option<ElementView> {
    match predecessor {
        Some(e) => Some(e@),
        None => None,
    }
}

/// Decides an update by `submitting_author` given its resolved predecessor.
pub fn decide_update(predecessor: Option<&Element>, submitting_author: &AgentKey) -> (v: Verdict)
    ensures
        v@ == decision(predecessor_view(predecessor), submitting_author@),
{
    match predecessor {
        None => Verdict::Reject(String::from_str("predecessor record not found")),
        Some(p) => match p.entry.permission {
            UpdatePermission::AuthorOnly => {
                if submitting_author.same_as(&p.author) {
                    Verdict::Accept
                } else {
                    Verdict::Reject(String::from_str("only the author can edit this record"))
                }
            },
            UpdatePermission::Others => Verdict::Accept,
        },
    }
}

/// Validates an update against the store: resolves the record at the target
/// address and decides from its permission and author.
pub fn validate_update_entry_wiki_page(store: &RecordStore, op: &UpdateOperation) -> (v: Verdict)
    requires
        store.wf(),
    ensures
        v@ == update_verdict(store@, op@),
{
    let predecessor = store.resolve(&op.target_address);
    decide_update(predecessor, &op.submitting_author)
}

/// A locked record can only be superseded by its author: any other agent's
/// update is rejected with the author-only reason.
pub proof fn lemma_author_only_rejects_other_agents(
    records: Map<HeaderHash, ElementView>,
    op: UpdateOperationView,
)
    requires
        records.dom().contains(op.target_address),
        records[op.target_address].entry.permission == UpdatePermission::AuthorOnly,
        op.submitting_author != records[op.target_address].author,
    ensures
        update_verdict(records, op) == VerdictView::Reject(author_only_reason()),
{
}

/// The author of a locked record may always supersede it.
pub proof fn lemma_author_only_accepts_author(
    records: Map<HeaderHash, ElementView>,
    op: UpdateOperationView,
)
    requires
        records.dom().contains(op.target_address),
        records[op.target_address].entry.permission == UpdatePermission::AuthorOnly,
        op.submitting_author == records[op.target_address].author,
    ensures
        update_verdict(records, op) == VerdictView::Accept,
{
}

/// An open record may be superseded by any agent.
pub proof fn lemma_others_accepts_anyone(records: Map<HeaderHash, ElementView>, op: UpdateOperationView)
    requires
        records.dom().contains(op.target_address),
        records[op.target_address].entry.permission == UpdatePermission::Others,
    ensures
        update_verdict(records, op) == VerdictView::Accept,
{
}

/// An update whose target the store cannot resolve is rejected with the
/// not-found reason, whatever else it holds.
pub proof fn lemma_unresolved_target_rejected(
    records: Map<HeaderHash, ElementView>,
    op: UpdateOperationView,
)
    requires
        !records.dom().contains(op.target_address),
    ensures
        update_verdict(records, op) == VerdictView::Reject(not_found_reason()),
{
}

/// Validation is a pure function of the record resolved at the target and of
/// the submitting agent: two validations that see the same predecessor and
/// the same submitter reach the same verdict, whatever pages they propose and
/// whatever else the stores hold. In particular validating the same update
/// twice against an unchanged store gives the same verdict.
pub proof fn lemma_verdict_depends_on_predecessor_and_submitter(
    records1: Map<HeaderHash, ElementView>,
    records2: Map<HeaderHash, ElementView>,
    op1: UpdateOperationView,
    op2: UpdateOperationView,
)
    requires
        op1.target_address == op2.target_address,
        op1.submitting_author == op2.submitting_author,
        resolved(records1, op1.target_address) == resolved(records2, op2.target_address),
    ensures
        update_verdict(records1, op1) == update_verdict(records2, op2),
{
}

} // verus!
