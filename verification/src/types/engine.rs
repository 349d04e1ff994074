use vstd::prelude::*;

use crate::types::flags::IDbNo;

verus! {

/// The kind of engine a template names: a template engine (zero or less) or a module (above zero).
#[derive(Clone, Copy, PartialEq, Eq, Structural, Debug)]
pub struct Engine(IDbNo);

impl Engine {
    pub const ENGINE_TYPE_MODULE: IDbNo = 0;
    pub const ENGINE_TYPE_V8: IDbNo = -1;
    pub const ENGINE_TYPE_HTTP: IDbNo = -2;
    pub const ENGINE_TYPE_HANDLEBARS: IDbNo = -3;

    pub const ENGINE_MODULE_CONTENT: IDbNo = 1;
    pub const ENGINE_MODULE_MEMBER: IDbNo = 2;
    pub const ENGINE_MODULE_AUTH: IDbNo = 3;
    pub const ENGINE_MODULE_PAGE: IDbNo = 4;
    pub const ENGINE_MODULE_ACTION: IDbNo = 5;
    pub const ENGINE_MODULE_TEMPLATE: IDbNo = 6;

    /// The number this engine is stored as.
    pub closed spec fn spec_number(self) -> IDbNo {
        self.0
    }

    /// The engine stored as `number`.
    pub fn from_number(number: IDbNo) -> (r: Engine)
        ensures
            r.spec_number() == number,
    {
        Engine(number)
    }

    /// The number this engine is stored as.
    pub fn number(self) -> (r: IDbNo)
        ensures
            r == self.spec_number(),
    {
        self.0
    }
}

} // verus!
