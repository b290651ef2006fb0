//! The data that the chain holds: pages, their edit permission, and the
//! identities and addresses that the store attaches to them.

use vstd::prelude::*;

verus! {

/// Who may supersede a page: set by the page's author when the page is
/// appended, and read from the predecessor whenever an update is checked.
#[derive(Clone, Copy, Debug, PartialEq, Eq, Structural)]
pub enum UpdatePermission {
    /// Only the agent that appended the page may update it.
    AuthorOnly,
    /// Any agent may update the page.
    Others,
}

/// The public key that identifies an agent.
#[derive(Clone, Debug)]
pub struct AgentKey {
    pub bytes: Vec<u8>,
}

impl View for AgentKey {
    type V = Seq<u8>;

    open spec fn view(&self) -> Seq<u8> {
        self.bytes@
    }
}

impl AgentKey {
    pub fn new(bytes: Vec<u8>) -> (r: AgentKey)
        ensures
            r@ == bytes@,
    {
        AgentKey { bytes }
    }

    /// Whether the two keys hold the same bytes.
    pub fn same_as(&self, other: &AgentKey) -> (r: bool)
        ensures
            r == (self@ == other@),
    {
        let n = self.bytes.len();
        if n != other.bytes.len() {
            return false;
        }
        let mut i: usize = 0;
        while i < n
            invariant
                n == self@.len(),
                n == other@.len(),
                0 <= i <= n,
                forall|j: int| 0 <= j < i ==> self@[j] == other@[j],
            decreases n - i,
        {
            if self.bytes[i] != other.bytes[i] {
                return false;
            }
            i = i + 1;
        }
        assert(self@ =~= other@);
        true
    }
}

impl PartialEq for AgentKey {
    fn eq(&self, other: &AgentKey) -> (r: bool) {
        self.same_as(other)
    }
}

impl vstd::std_specs::cmp::PartialEqSpecImpl for AgentKey {
    open spec fn obeys_eq_spec() -> bool {
        true
    }

    open spec fn eq_spec(&self, other: &AgentKey) -> bool {
        self@ == other@
    }
}

impl Eq for AgentKey {
}

/// The content of a page and the permission that governs its successors.
#[derive(Clone, Debug)]
pub struct WikiPage {
    pub content: String,
    pub permission: UpdatePermission,
}

pub struct WikiPageView {
    pub content: Seq<char>,
    pub permission: UpdatePermission,
}

impl View for WikiPage {
    type V = WikiPageView;

    open spec fn view(&self) -> WikiPageView {
        WikiPageView { content: self.content@, permission: self.permission }
    }
}

/// The address under which the store keeps a record. Addresses are minted
/// by the store on append and never reused.
#[derive(Clone, Copy, Debug, PartialEq, Eq, Structural, Hash)]
pub struct HeaderHash {
    pub position: u64,
}

/// A record as the store hands it out: the page together with the metadata
/// that the store attached when it was appended.
#[derive(Clone, Debug)]
pub struct Element {
    pub address: HeaderHash,
    /// The agent that appended the record.
    pub author: AgentKey,
    pub entry: WikiPage,
    /// The record that this one supersedes, if it was appended as an update.
    pub replaces: Option<HeaderHash>,
}

pub struct ElementView {
    pub address: HeaderHash,
    pub author: Seq<u8>,
    pub entry: WikiPageView,
    pub replaces: Option<HeaderHash>,
}

impl View for Element {
    type V = ElementView;

    open spec fn view(&self) -> ElementView {
        ElementView {
            address: self.address,
            author: self.author@,
            entry: self.entry@,
            replaces: self.replaces,
        }
    }
}

} // verus!
