//! The one stored entity: a paste.

use vstd::prelude::*;
use crate::idgen::{is_id_string, ID_LENGTH};

verus! {

/// A stored text document keyed by a randomly generated public identifier.
///
/// The identifier is generated server-side and never supplied by the client;
/// a paste is immutable once created.
pub struct Paste {
    /// The public identifier the paste is fetched under.
    pub id: String,
    /// The stored text.
    pub content: String,
}

impl Paste {
    /// The paste as a pair of character sequences: identifier, then content.
    pub open spec fn entry(self) -> (Seq<char>, Seq<char>) {
        (self.id@, self.content@)
    }

    /// A well-formed paste: the identifier has the fixed length and is
    /// alphanumeric, and the content passed upload validation (at least two
    /// characters).
    pub open spec fn wf(self) -> bool {
        &&& is_id_string(self.id@, ID_LENGTH as int)
        &&& self.content@.len() >= 2
    }
}

} // verus!
