//! An in-memory record store: an append-only chain of records, each kept
//! under the address that the store minted for it.

use vstd::prelude::*;

use crate::page::{AgentKey, Element, ElementView, HeaderHash, WikiPage};

verus! {

/// What the store holds at `address`, if anything.
pub open spec fn resolved(records: Map<HeaderHash, ElementView>, address: HeaderHash) -> Option<
    ElementView,
> {
    if records.dom().contains(address) {
        Some(records[address])
    } else {
        None
    }
}

/// The record that an append of `entry` by `author` adds under `address`.
pub open spec fn appended_record(
    address: HeaderHash,
    author: Seq<u8>,
    entry: crate::page::WikiPageView,
    replaces: Option<HeaderHash>,
) -> ElementView {
    ElementView { address, author, entry, replaces }
}

/// Appending never disturbs history: every address that resolved before an
/// append of a record under a fresh address resolves to the same record after.
pub proof fn lemma_append_keeps_history(
    records: Map<HeaderHash, ElementView>,
    address: HeaderHash,
    record: ElementView,
    earlier: HeaderHash,
)
    requires
        !records.dom().contains(address),
        records.dom().contains(earlier),
    ensures
        resolved(records.insert(address, record), earlier) == resolved(records, earlier),
{
}

/// The store's failure: it has no fresh address left to mint.
#[derive(Clone, Copy, Debug, PartialEq, Eq, Structural)]
pub struct StorageFailure;

/// Records in the order they were appended; the record at position `i` has
/// the address `i`.
pub struct RecordStore {
    records: Vec<Element>,
}

impl View for RecordStore {
    type V = Map<HeaderHash, ElementView>;

    closed spec fn view(&self) -> Map<HeaderHash, ElementView> {
        Map::new(
            |a: HeaderHash| a.position < self.records@.len(),
            |a: HeaderHash| self.records@[a.position as int]@,
        )
    }
}

impl RecordStore {
    /// The store is well formed: each record sits at the position that its
    /// address names.
    pub closed spec fn wf(&self) -> bool {
        forall|i: int|
            0 <= i < self.records@.len() ==> #[trigger] self.records@[i].address.position == i
    }

    /// How many records have been appended.
    pub closed spec fn len(&self) -> nat {
        self.records@.len()
    }

    /// Whether every address has been minted, so that nothing more can be
    /// appended.
    pub open spec fn is_full(&self) -> bool {
        self.len() >= u64::MAX
    }

    /// An empty store.
    pub fn new() -> (r: RecordStore)
        ensures
            r.wf(),
            r@ == Map::<HeaderHash, ElementView>::empty(),
            r.len() == 0,
    {
        let r = RecordStore { records: Vec::new() };
        assert(r@ =~= Map::<HeaderHash, ElementView>::empty());
        r
    }

    /// The record kept at `address`, with its metadata, or `None` where the
    /// store has never minted that address.
    pub fn resolve(&self, address: &HeaderHash) -> (r: Option<&Element>)
        requires
            self.wf(),
        ensures
            match r {
                Some(e) => resolved(self@, *address) == Some(e@),
                None => resolved(self@, *address) is None,
            },
            r matches Some(e) ==> e.address == *address,
    {
        if address.position < self.records.len() as u64 {
            assert(self.records@[address.position as int].address.position == address.position);
            Some(&self.records[address.position as usize])
        } else {
            None
        }
    }

    /// Appends a record and returns the fresh address it is kept under.
    /// Records already in the store are left as they were.
    pub fn append(&mut self, entry: WikiPage, author: AgentKey, replaces: Option<HeaderHash>) -> (r:
        Result<HeaderHash, StorageFailure>)
        requires
            old(self).wf(),
        ensures
            final(self).wf(),
            old(self).is_full() <==> r is Err,
            match r {
                Ok(address) => {
                    &&& final(self).len() == old(self).len() + 1
                    &&& address.position == old(self).len()
                    &&& !old(self)@.dom().contains(address)
                    &&& final(self)@ == old(self)@.insert(
                        address,
                        appended_record(address, author@, entry@, replaces),
                    )
                },
                Err(_) => final(self)@ == old(self)@ && final(self).len() == old(self).len(),
            },
    {
        let n = self.records.len();
        if n as u64 >= u64::MAX {
            return Err(StorageFailure);
        }
        let address = HeaderHash { position: n as u64 };
        let ghost before = self@;
        self.records.push(Element { address, author, entry, replaces });
        proof {
            assert(self@ =~= before.insert(address, appended_record(address, author@, entry@, replaces)));
        }
        Ok(address)
    }
}

} // verus!
