use vstd::prelude::*;

use crate::types::flags::{UDbId, IDbNo};

verus! {

/// Who may run an action: a kind of check and the ids it checks against.
#[derive(Debug)]
pub struct Auth {
    mode: IDbNo,
    item: Vec<UDbId>,
}

impl Auth {
    pub const AUTH_TYPE_NONE: IDbNo = 0;
    pub const AUTH_TYPE_GROUP: IDbNo = 1;
    pub const AUTH_TYPE_MEMBER: IDbNo = 2;
    pub const AUTH_TYPE_CUSTOM: IDbNo = 3;

    /// The kind of check.
    pub closed spec fn spec_mode(&self) -> IDbNo {
        self.mode
    }

    /// The ids the check is made against.
    pub closed spec fn spec_item(&self) -> Seq<UDbId> {
        self.item@
    }

    /// An authorisation setting of kind `mode` over the ids `item`.
    pub fn new(mode: IDbNo, item: Vec<UDbId>) -> (r: Self)
        ensures
            r.spec_mode() == mode,
            r.spec_item() == item@,
    {
        Auth { mode: mode, item: item }
    }

    /// The kind of check.
    pub fn mode(&self) -> (r: IDbNo)
        ensures
            r == self.spec_mode(),
    {
        self.mode
    }

    /// The ids the check is made against.
    pub fn item(&self) -> (r: &Vec<UDbId>)
        ensures
            r@ == self.spec_item(),
    {
        &self.item
    }
}

} // verus!
