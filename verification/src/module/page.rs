use vstd::prelude::*;

use crate::types::flags::{UDbId, UDbFlg};
use crate::module::db::config::{ModuleDBType, ModuleDBConfig, ModuleDBMeta};
use crate::module::columns::{column, column_views, known_table};

verus! {

/// A page: a path of the site, under a parent page.
#[derive(Debug)]
pub struct Page {
    pub id: UDbId,
    pub mode: UDbFlg,
    /// The parent page.
    pub page: UDbId,
    /// The path pattern of the page.
    pub path: String,
    /// The names of the parameters that the path pattern extracts.
    pub param: Vec<String>,
}

/// The columns of the page table.
pub open spec fn page_columns() -> Seq<(Seq<char>, ModuleDBType)> {
    seq![
        ("id"@, ModuleDBType::BIG_INT),
        ("mode"@, ModuleDBType::BIG_INT),
        ("page"@, ModuleDBType::BIG_INT),
        ("path"@, ModuleDBType::TEXT),
        ("param"@, ModuleDBType::ARRAY(Box::new(ModuleDBType::TEXT))),
    ]
}

impl ModuleDBMeta for Page {
    /// The table `t_page`, keyed by `id`.
    fn config() -> (r: ModuleDBConfig)
        ensures
            r.spec_table_name() == "t_page"@,
            r.spec_primary_key() == "id"@,
            column_views(r.spec_columns()) == page_columns(),
    {
        proof {
            reveal_strlit("t_page");
            reveal_strlit("id");
        }
        let mut columns: Vec<(String, ModuleDBType)> = Vec::new();
        columns.push(column("id", ModuleDBType::BIG_INT));
        columns.push(column("mode", ModuleDBType::BIG_INT));
        columns.push(column("page", ModuleDBType::BIG_INT));
        columns.push(column("path", ModuleDBType::TEXT));
        columns.push(column("param", ModuleDBType::ARRAY(Box::new(ModuleDBType::TEXT))));
        assert(column_views(columns@) =~= page_columns());
        proof {
            reveal_strlit("id");
            reveal_strlit("mode");
            reveal_strlit("page");
            reveal_strlit("path");
            reveal_strlit("param");
            assert("mode"@.len() != "id"@.len());
            assert("page"@.len() != "id"@.len());
            assert("page"@[0] != "mode"@[0]);
            assert("path"@.len() != "id"@.len());
            assert("path"@[0] != "mode"@[0]);
            assert("path"@[2] != "page"@[2]);
            assert("param"@.len() != "id"@.len());
            assert("param"@.len() != "mode"@.len());
            assert("param"@.len() != "page"@.len());
            assert("param"@.len() != "path"@.len());
            assert forall|i: int, j: int| 0 <= i < j < columns@.len() implies
                #[trigger] columns@[i].0@ != #[trigger] columns@[j].0@ by {
                assert(columns@[i].0@ == page_columns()[i].0);
                assert(columns@[j].0@ == page_columns()[j].0);
            }
        }
        let r = known_table("t_page", "id", columns);
        assert(column_views(r.spec_columns()) =~= page_columns());
        r
    }
}

} // verus!
