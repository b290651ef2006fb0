//! The entry points that append pages: creating a page, and updating one
//! after the update has been validated.

use vstd::prelude::*;

use crate::page::{AgentKey, HeaderHash, WikiPage};
use crate::store::{appended_record, RecordStore, StorageFailure};
use crate::validation::{update_verdict, validate_update_entry_wiki_page, UpdateOperation, Verdict, VerdictView};

verus! {

/// Why an append did not happen.
#[derive(Clone, Debug, PartialEq, Eq)]
pub enum ZomeError {
    /// Validation refused the update; the reason is the verdict's.
    Rejected(String),
    /// The store could not append.
    Storage(StorageFailure),
}

/// A request to update the page at `address_to_update` with `wiki_page`.
#[derive(Clone, Debug)]
pub struct UpdateWikiPage {
    pub wiki_page: WikiPage,
    pub address_to_update: HeaderHash,
}

/// Appends a new page, with no predecessor, authored by `author`. No
/// validation applies: the page's permission is stored as given.
pub fn add_wiki_page(store: &mut RecordStore, input: WikiPage, author: AgentKey) -> (r: Result<
    HeaderHash,
    ZomeError,
>)
    requires
        old(store).wf(),
    ensures
        final(store).wf(),
        old(store).is_full() <==> r is Err,
        match r {
            Ok(address) => {
                &&& final(store).len() == old(store).len() + 1
                &&& address.position == old(store).len()
                &&& !old(store)@.dom().contains(address)
                &&& final(store)@ == old(store)@.insert(
                    address,
                    appended_record(address, author@, input@, None),
                )
            },
            Err(e) => {
                &&& e == ZomeError::Storage(StorageFailure)
                &&& final(store)@ == old(store)@
                &&& final(store).len() == old(store).len()
            },
        },
{
    match store.append(input, author, None) {
        Ok(address) => Ok(address),
        Err(e) => Err(ZomeError::Storage(e)),
    }
}

/// Validates an update by `author` and, if it is accepted, appends the new
/// page as the successor of the target record. A rejected update appends
/// nothing and hands back the verdict's reason.
pub fn update_wiki_page(store: &mut RecordStore, input: UpdateWikiPage, author: AgentKey) -> (r:
    Result<HeaderHash, ZomeError>)
    requires
        old(store).wf(),
    ensures
        final(store).wf(),
        ({
            let op = crate::validation::UpdateOperationView {
                new_record: input.wiki_page@,
                target_address: input.address_to_update,
                submitting_author: author@,
            };
            match update_verdict(old(store)@, op) {
                VerdictView::Reject(reason) => {
                    &&& r matches Err(ZomeError::Rejected(s)) && s@ == reason
                    &&& final(store)@ == old(store)@
                    &&& final(store).len() == old(store).len()
                },
                VerdictView::Accept => match r {
                    Ok(address) => {
                        &&& !old(store).is_full()
                        &&& final(store).len() == old(store).len() + 1
                        &&& address.position == old(store).len()
                        &&& !old(store)@.dom().contains(address)
                        &&& final(store)@ == old(store)@.insert(
                            address,
                            appended_record(
                                address,
                                author@,
                                input.wiki_page@,
                                Some(input.address_to_update),
                            ),
                        )
                    },
                    Err(e) => {
                        &&& old(store).is_full()
                        &&& e == ZomeError::Storage(StorageFailure)
                        &&& final(store)@ == old(store)@
                        &&& final(store).len() == old(store).len()
                    },
                },
            }
        }),
{
    let op = UpdateOperation {
        new_record: input.wiki_page,
        target_address: input.address_to_update,
        submitting_author: author,
    };
    match validate_update_entry_wiki_page(store, &op) {
        Verdict::Reject(reason) => Err(ZomeError::Rejected(reason)),
        Verdict::Accept => match store.append(
            op.new_record,
            op.submitting_author,
            Some(op.target_address),
        ) {
            Ok(address) => Ok(address),
            Err(e) => Err(ZomeError::Storage(e)),
        },
    }
}

} // verus!
