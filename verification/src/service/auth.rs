//! Who a request runs as: the checks a route makes before it runs its
//! templates.

use vstd::prelude::*;

use crate::types::flags::{UDbId, IDbNo};
use crate::types::error::ServiceError;

verus! {

/// `actix_session::Session`, the session of a request, carried through as it is.
#[verifier::external_type_specification]
#[verifier::external_body]
pub struct ExSession(actix_session::Session);

/// The check a route makes on its caller: against the server's records or a client token.
#[derive(Debug)]
pub enum RWAuth {
    Server(RWAuthServer),
    Client(RWJWTClient),
}

/// A check against the server's records: a kind of check and the ids it checks against.
#[derive(Debug)]
pub struct RWAuthServer {
    _mode: IDbNo,
    _item: Vec<UDbId>,
}

/// A check of a client token, by its header.
#[derive(Debug)]
pub struct RWJWTClient {
    _head: String,
}

impl RWJWTClient {
    /// The token header.
    pub closed spec fn spec_head(&self) -> Seq<char> {
        self._head@
    }
}

impl RWAuth {
    pub const AUTH_TYPE_NONE: IDbNo = 0;
    pub const AUTH_TYPE_GROUP: IDbNo = 1;
    pub const AUTH_TYPE_MEMBER: IDbNo = 2;
    pub const AUTH_TYPE_CUSTOM: IDbNo = 3;

    /// The check for a route whose callers must hold one of the ids `_auth`:
    /// a client token check with an empty header, whatever the ids.
    pub fn new(_auth: Vec<UDbId>) -> (r: Self)
        ensures
            r matches RWAuth::Client(c) && c.spec_head() == Seq::<char>::empty(),
    {
        RWAuth::Client(RWJWTClient { _head: String::new() })
    }

    /// The ids the session of the request holds: none, and the check passes.
    pub fn check_session(&self, _session: &actix_session::Session) -> (r: Result<Vec<UDbId>, ServiceError>)
        ensures
            r matches Ok(ids) && ids@.len() == 0,
    {
        Ok(Vec::new())
    }

    /// The ids the token of the request holds: none, and the check passes.
    pub fn check_token(&self) -> (r: Result<Vec<UDbId>, ServiceError>)
        ensures
            r matches Ok(ids) && ids@.len() == 0,
    {
        Ok(Vec::new())
    }
}

} // verus!
