//! Resolving the request's credential: the external authentication
//! collaborator validates the bearer credential and hands over the
//! identity it resolved, or nothing; an absent or invalid credential
//! short-circuits as unauthorized before any data access.
use vstd::prelude::*;

use crate::error::Error;
use crate::identifiers::UserUuid;

verus! {

/// The identity the credential resolved to, or unauthorized when the
/// credential was absent or invalid.
pub fn resolve_identity(identity: Option<UserUuid>) -> (r: Result<UserUuid, Error>)
    ensures
        identity matches Some(u) ==> r == Ok::<UserUuid, Error>(u),
        identity is None ==> r == Err::<UserUuid, Error>(Error::Unauthorized),
{
    match identity {
        Some(u) => Ok(u),
        None => Err(Error::Unauthorized),
    }
}

} // verus!
