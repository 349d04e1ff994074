//! The check of a route as a list of ids: the ids a caller must hold.

use vstd::prelude::*;

use crate::types::flags::UDbId;
use crate::types::error::ServiceError;

verus! {

/// A check that holds the ids a caller of a route must have.
#[derive(Debug)]
pub struct RWAuth(Vec<UDbId>);

impl RWAuth {
    /// The ids a caller must hold.
    pub closed spec fn spec_ids(&self) -> Seq<UDbId> {
        self.0@
    }

    /// The check against the ids `auth`.
    pub fn new(auth: Vec<UDbId>) -> (r: Self)
        ensures
            r.spec_ids() == auth@,
    {
        RWAuth(auth)
    }

    /// Checks the session of the request: it passes.
    pub fn check_session(&self, _session: &actix_session::Session) -> (r: Result<(), ServiceError>)
        ensures
            r is Ok,
    {
        Ok(())
    }

    /// Checks the token of the request: it passes.
    pub fn check_token(&self) -> (r: Result<(), ServiceError>)
        ensures
            r is Ok,
    {
        Ok(())
    }
}

} // verus!
