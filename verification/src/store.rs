//! The paste store.
//!
//! The backing document collection offers two operations: insert a paste, and
//! find a paste by identifier. `MemStore` is an in-memory store with exactly
//! that interface and a verified contract over its sequence of entries; it
//! serves as the substitute store for tests and states the model the backing
//! collection is used under. Inserting never checks uniqueness — two inserts
//! under one identifier leave two entries — and a lookup among duplicates
//! returns the earliest entry.

use vstd::prelude::*;
use crate::handlers::{decide_upload, render_fetch, UploadDecision};
use crate::idgen::{is_id_string, ID_LENGTH};
use crate::pages::{fetch_page, not_found_page, page_contains};
use crate::paste::Paste;

verus! {

/// The lookup result among the entries from position `k` on: the content of
/// the earliest entry at or after `k` whose identifier matches, if any.
pub open spec fn lookup_from(
    entries: Seq<(Seq<char>, Seq<char>)>,
    id: Seq<char>,
    k: int,
) -> Option<Seq<char>>
    decreases entries.len() - k,
{
    if k < 0 || k >= entries.len() {
        Option::None
    } else if entries[k].0 == id {
        Option::Some(entries[k].1)
    } else {
        lookup_from(entries, id, k + 1)
    }
}

/// The lookup result for an identifier: the content of the earliest entry
/// whose identifier matches, or nothing when no entry matches.
pub open spec fn lookup(entries: Seq<(Seq<char>, Seq<char>)>, id: Seq<char>) -> Option<Seq<char>> {
    lookup_from(entries, id, 0)
}

/// An in-memory paste store: insert and find-by-identifier over a growing
/// sequence of pastes.
pub struct MemStore {
    pastes: Vec<Paste>,
}

impl View for MemStore {
    type V = Seq<(Seq<char>, Seq<char>)>;

    /// The store as a sequence of (identifier, content) entries, in insertion
    /// order.
    closed spec fn view(&self) -> Seq<(Seq<char>, Seq<char>)> {
        self.pastes@.map_values(|p: Paste| p.entry())
    }
}

impl MemStore {
    /// Create an empty store.
    pub fn new() -> (s: Self)
        ensures
            s@ == Seq::<(Seq<char>, Seq<char>)>::empty(),
    {
        let s = MemStore { pastes: Vec::new() };
        proof {
            assert(s@ =~= Seq::<(Seq<char>, Seq<char>)>::empty());
        }
        s
    }

    /// Write a new document. No uniqueness is enforced: inserting twice under
    /// one identifier leaves two entries.
    pub fn insert(&mut self, paste: Paste)
        ensures
            final(self)@ == old(self)@.push(paste.entry()),
    {
        let ghost e = paste.entry();
        self.pastes.push(paste);
        proof {
            assert(self@ =~= old(self)@.push(e));
        }
    }

    /// Find the paste stored under an identifier: the earliest matching entry,
    /// or nothing when no entry matches.
    pub fn find_by_id<'a>(&'a self, id: &String) -> (r: Option<&'a Paste>)
        ensures
            match r {
                Option::Some(p) => lookup(self@, id@) == Option::Some(p.content@) && p.id@ == id@,
                Option::None => lookup(self@, id@) is None,
            },
    {
        let n = self.pastes.len();
        let mut i: usize = 0;
        while i < n
            invariant
                i <= n,
                n == self.pastes.len(),
                lookup(self@, id@) == lookup_from(self@, id@, i as int),
            decreases n - i,
        {
            let p = &self.pastes[i];
            if p.id == *id {
                return Option::Some(p);
            }
            i = i + 1;
        }
        Option::None
    }

    /// The whole upload workflow against this store: validate the content,
    /// and either store it under a fresh random identifier (returned) or
    /// reject it, leaving the store untouched.
    pub fn upload(&mut self, content: String) -> (r: Option<String>)
        ensures
            match r {
                Option::Some(id) => {
                    &&& content@.len() >= 2
                    &&& is_id_string(id@, ID_LENGTH as int)
                    &&& final(self)@ == old(self)@.push((id@, content@))
                },
                Option::None => content@.len() <= 1 && final(self)@ == old(self)@,
            },
    {
        match decide_upload(content) {
            UploadDecision::Store(paste) => {
                let id = paste.id.clone();
                self.insert(paste);
                Option::Some(id)
            },
            UploadDecision::Reject => Option::None,
        }
    }

    /// The whole fetch workflow against this store: look the identifier up
    /// and render the paste view, or the not-found page when nothing is
    /// stored under it.
    pub fn fetch(&self, id: &String) -> (r: String)
        ensures
            r@ == fetch_page(lookup(self@, id@)),
    {
        render_fetch(self.find_by_id(id))
    }
}

/// An identifier that matches no entry from position `k` on looks up to
/// nothing from there.
proof fn lemma_lookup_from_absent(entries: Seq<(Seq<char>, Seq<char>)>, id: Seq<char>, k: int)
    requires
        forall|i: int| k <= i < entries.len() ==> (#[trigger] entries[i]).0 != id,
    ensures
        lookup_from(entries, id, k) is None,
    decreases entries.len() - k,
{
    if 0 <= k < entries.len() {
        lemma_lookup_from_absent(entries, id, k + 1);
    }
}

/// Fetching an identifier that was never uploaded renders the not-found
/// page — a page, not an error.
pub proof fn lemma_fetch_absent(entries: Seq<(Seq<char>, Seq<char>)>, id: Seq<char>)
    requires
        forall|i: int| 0 <= i < entries.len() ==> (#[trigger] entries[i]).0 != id,
    ensures
        lookup(entries, id) is None,
        fetch_page(lookup(entries, id)) == not_found_page(),
{
    lemma_lookup_from_absent(entries, id, 0);
}

/// Appending an entry whose identifier matches no entry from position `k` on
/// makes lookups from `k` find exactly that entry.
proof fn lemma_lookup_from_push(
    entries: Seq<(Seq<char>, Seq<char>)>,
    id: Seq<char>,
    content: Seq<char>,
    k: int,
)
    requires
        0 <= k <= entries.len(),
        forall|i: int| k <= i < entries.len() ==> (#[trigger] entries[i]).0 != id,
    ensures
        lookup_from(entries.push((id, content)), id, k) == Option::Some(content),
    decreases entries.len() - k,
{
    let pushed = entries.push((id, content));
    if k < entries.len() {
        assert(pushed[k] == entries[k]);
        lemma_lookup_from_push(entries, id, content, k + 1);
    } else {
        assert(pushed[k] == (id, content));
    }
}

/// Storing a paste under a fresh identifier and then fetching that identifier
/// yields exactly the stored content, rendered on a page that contains it
/// verbatim.
pub proof fn lemma_upload_round_trip(
    entries: Seq<(Seq<char>, Seq<char>)>,
    id: Seq<char>,
    content: Seq<char>,
)
    requires
        forall|i: int| 0 <= i < entries.len() ==> (#[trigger] entries[i]).0 != id,
    ensures
        lookup(entries.push((id, content)), id) == Option::Some(content),
        page_contains(fetch_page(lookup(entries.push((id, content)), id)), content),
{
    lemma_lookup_from_push(entries, id, content, 0);
    crate::pages::lemma_paste_page_contains(content);
}

/// Fetching an identifier any number of times from an unchanged store renders
/// identical pages: the page is a function of the store's entries alone.
pub proof fn lemma_repeated_fetch_identical(
    entries: Seq<(Seq<char>, Seq<char>)>,
    id: Seq<char>,
    first: Option<Seq<char>>,
    second: Option<Seq<char>>,
)
    requires
        first == lookup(entries, id),
        second == lookup(entries, id),
    ensures
        fetch_page(first) == fetch_page(second),
{
}

} // verus!
