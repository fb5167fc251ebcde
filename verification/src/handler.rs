//! What the resource-handler layer computes: mapping the failure
//! taxonomy to wire status codes, and building the self-referential
//! locator for a freshly created entity. The handler's wire plumbing
//! itself stays outside the library; the server's externally reachable
//! address is injected here as explicit configuration rather than read
//! from ambient process state.

use vstd::prelude::*;

use crate::model::RepoError;
use crate::text::dec_str;
use crate::text::u32_to_dec;
use vstd::string::StringExecFns;

verus! {

/// The wire status for a failure: an absent row is 404, every
/// storage-level fault is 500. The two kinds never blur.
pub fn error_status(error: &RepoError) -> (s: u16)
    ensures
        *error == RepoError::NotFound ==> s == 404,
        *error == RepoError::StorageError ==> s == 500,
{
    match error {
        RepoError::NotFound => 404,
        RepoError::StorageError => 500,
    }
}

/// The locator of a created burger: the server's address and port,
/// then the resource path carrying the assigned identifier.
pub fn created_location(host: &str, port: &str, id: i32) -> (r: String)
    requires
        0 <= id,
    ensures
        r@ == host@ + ":"@ + port@ + "/burgers/"@ + dec_str(id as nat),
{
    let digits = u32_to_dec(id as u32);
    let r = String::from_str(host).concat(":").concat(port).concat("/burgers/").concat(
        digits.as_str(),
    );
    r
}

} // verus!
