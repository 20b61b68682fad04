//! Request handling: the decision each HTTP endpoint makes, separated from
//! the transport that carries it.
//!
//! The upload endpoint validates the submitted content and, when it is
//! acceptable, produces the paste to store and the JSON body to answer with.
//! The fetch endpoint renders the outcome of a store lookup. The functions
//! here take and return plain values; the server and the database driver
//! around them only move those values.

use vstd::prelude::*;
use crate::idgen::{generate_id, is_id_string, ID_LENGTH};
use crate::pages::{fetch_page, render_not_found_page, render_paste_page};
use crate::paste::Paste;

verus! {

/// What the upload endpoint decided for one request.
pub enum UploadDecision {
    /// The content passed validation: store this paste, then answer
    /// HTTP 200 with a JSON body naming its identifier.
    Store(Paste),
    /// The content was too short: answer HTTP 400 and store nothing.
    Reject,
}

/// Decide an upload request. Content of at most one character is rejected;
/// anything longer is accepted and wrapped in a paste under a fresh random
/// identifier of `ID_LENGTH` characters.
pub fn decide_upload(content: String) -> (r: UploadDecision)
    ensures
        content@.len() <= 1 <==> r is Reject,
        r matches UploadDecision::Store(paste) ==> {
            &&& paste.content@ == content@
            &&& is_id_string(paste.id@, ID_LENGTH as int)
            &&& paste.wf()
        },
{
    if content.as_str().unicode_len() > 1 {
        let id = generate_id(ID_LENGTH);
        UploadDecision::Store(Paste { id, content })
    } else {
        UploadDecision::Reject
    }
}

/// The JSON body returned on a successful upload, for a given identifier.
pub open spec fn id_json_body(id: Seq<char>) -> Seq<char> {
    "{\"id\":\""@ + id + "\"}"@
}

/// Build the JSON body for a successful upload. Generated identifiers are
/// alphanumeric, so embedding one needs no JSON escaping.
pub fn upload_response_body(id: &str) -> (r: String)
    ensures
        r@ == id_json_body(id@),
{
    let mut out = String::from_str("{\"id\":\"");
    out.append(id);
    out.append("\"}");
    out
}

/// Render the page for a fetch request, given what the store lookup found.
pub fn render_fetch(found: Option<&Paste>) -> (r: String)
    ensures
        r@ == fetch_page(
            match found {
                Option::Some(p) => Option::Some(p.content@),
                Option::None => Option::None,
            },
        ),
{
    match found {
        Option::Some(p) => render_paste_page(p.content.as_str()),
        Option::None => render_not_found_page(),
    }
}

} // verus!
