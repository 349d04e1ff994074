use vstd::prelude::*;

use crate::types::flags::{UDbId, UDbFlg, IDbNo};
use crate::module::db::config::{ModuleDBType, ModuleDBConfig, ModuleDBMeta};
use crate::module::columns::{column, column_views, known_table};

verus! {

/// A template: a unit of work run by an engine, with its path and options.
#[derive(Debug)]
pub struct Template {
    pub id: UDbId,
    pub mode: UDbFlg,
    pub subject: String,
    /// The engine that runs the template.
    pub engine: IDbNo,
    /// What the engine runs (a module feature, a value kind, a file).
    pub path: String,
    /// Named options of the template.
    pub option: Vec<(String, String)>,
}

/// The columns of the template table.
pub open spec fn template_columns() -> Seq<(Seq<char>, ModuleDBType)> {
    seq![
        ("id"@, ModuleDBType::BIG_SERIAL),
        ("mode"@, ModuleDBType::BIG_INT),
        ("subject"@, ModuleDBType::TEXT),
        ("engine"@, ModuleDBType::BIG_INT),
        ("path"@, ModuleDBType::TEXT),
        ("option"@, ModuleDBType::OBJECT),
    ]
}

impl ModuleDBMeta for Template {
    /// The table `t_template`, keyed by `id`.
    fn config() -> (r: ModuleDBConfig)
        ensures
            r.spec_table_name() == "t_template"@,
            r.spec_primary_key() == "id"@,
            column_views(r.spec_columns()) == template_columns(),
    {
        proof {
            reveal_strlit("t_template");
            reveal_strlit("id");
        }
        let mut columns: Vec<(String, ModuleDBType)> = Vec::new();
        columns.push(column("id", ModuleDBType::BIG_SERIAL));
        columns.push(column("mode", ModuleDBType::BIG_INT));
        columns.push(column("subject", ModuleDBType::TEXT));
        columns.push(column("engine", ModuleDBType::BIG_INT));
        columns.push(column("path", ModuleDBType::TEXT));
        columns.push(column("option", ModuleDBType::OBJECT));
        assert(column_views(columns@) =~= template_columns());
        proof {
            reveal_strlit("id");
            reveal_strlit("mode");
            reveal_strlit("subject");
            reveal_strlit("engine");
            reveal_strlit("path");
            reveal_strlit("option");
            assert("mode"@.len() != "id"@.len());
            assert("subject"@.len() != "id"@.len());
            assert("subject"@.len() != "mode"@.len());
            assert("engine"@.len() != "id"@.len());
            assert("engine"@.len() != "mode"@.len());
            assert("engine"@.len() != "subject"@.len());
            assert("path"@.len() != "id"@.len());
            assert("path"@[0] != "mode"@[0]);
            assert("path"@.len() != "subject"@.len());
            assert("path"@.len() != "engine"@.len());
            assert("option"@.len() != "id"@.len());
            assert("option"@.len() != "mode"@.len());
            assert("option"@.len() != "subject"@.len());
            assert("option"@[0] != "engine"@[0]);
            assert("option"@.len() != "path"@.len());
            assert forall|i: int, j: int| 0 <= i < j < columns@.len() implies
                #[trigger] columns@[i].0@ != #[trigger] columns@[j].0@ by {
                assert(columns@[i].0@ == template_columns()[i].0);
                assert(columns@[j].0@ == template_columns()[j].0);
            }
        }
        let r = known_table("t_template", "id", columns);
        assert(column_views(r.spec_columns()) =~= template_columns());
        r
    }
}

} // verus!
