use vstd::prelude::*;

use crate::module::db::config::ModuleDBConfig;

verus! {

/// The order of the rows of a list.
#[derive(Debug)]
pub enum ModuleDBOrder {
    DESC(String),
    ASC(String),
    ARRAY(Vec<ModuleDBOrder>),
}

/// The page of rows that a list returns.
#[derive(Debug)]
pub enum ModuleDBPager {
    LIMIT(u64),
    OFFSET(u64),
    ARRAY(Vec<ModuleDBPager>),
}

/// An order and a page for one table, which writes the ORDER BY and LIMIT part of a query.
pub struct ModuleDBOrderBuilder(ModuleDBConfig, ModuleDBOrder, ModuleDBPager);

impl ModuleDBOrderBuilder {
    /// The table, the order and the page of this builder.
    pub closed spec fn spec_parts(&self) -> (ModuleDBConfig, ModuleDBOrder, ModuleDBPager) {
        (self.0, self.1, self.2)
    }

    /// The part that this builder writes; orders and pages are not written yet, so it is empty.
    pub open spec fn spec_where(&self) -> Seq<char> {
        Seq::empty()
    }

    /// A builder for `order` and `limit` over the table of `config`.
    pub fn new(config: ModuleDBConfig, order: ModuleDBOrder, limit: ModuleDBPager) -> (r: Self)
        ensures
            r.spec_parts() == (config, order, limit),
    {
        ModuleDBOrderBuilder(config, order, limit)
    }

    /// The ORDER BY and LIMIT part of a query (empty: they are not written yet).
    pub fn to_where(&self) -> (r: String)
        ensures
            r@ == self.spec_where(),
    {
        String::new()
    }
}

} // verus!
