use vstd::prelude::*;

use crate::module::db::config::ModuleDBConfig;

verus! {

/// A search condition over the columns of a table.
#[derive(Debug)]
#[allow(non_camel_case_types)]
pub enum ModuleDBSearch {
    OR(Vec<ModuleDBSearch>),
    AND(Vec<ModuleDBSearch>),
    NOT(Vec<ModuleDBSearch>),
    IN((String, String)),
    EQUAL((String, String)),
    GREATER((String, String)),
    GREATER_EQ((String, String)),
    LESSER((String, String)),
    LESSER_EQ((String, String)),
    LIKE((String, String)),
}

/// A search condition for one table, which writes the WHERE part of a query.
pub struct ModuleDBSearchBuilder(ModuleDBConfig, ModuleDBSearch);

impl ModuleDBSearchBuilder {
    /// The table and the condition of this builder.
    pub closed spec fn spec_parts(&self) -> (ModuleDBConfig, ModuleDBSearch) {
        (self.0, self.1)
    }

    /// The WHERE part that this builder writes; conditions are not written yet, so it is empty.
    pub open spec fn spec_where(&self) -> Seq<char> {
        Seq::empty()
    }

    /// A builder for `search` over the table of `config`.
    pub fn new(config: ModuleDBConfig, search: ModuleDBSearch) -> (r: Self)
        ensures
            r.spec_parts() == (config, search),
    {
        ModuleDBSearchBuilder(config, search)
    }

    /// The WHERE part of a query (empty: conditions are not written yet).
    pub fn to_where(&self) -> (r: String)
        ensures
            r@ == self.spec_where(),
    {
        String::new()
    }
}

} // verus!
