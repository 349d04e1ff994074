use vstd::prelude::*;

use crate::types::flags::{UDbId, UDbFlg};
use crate::module::db::config::{ModuleDBType, ModuleDBConfig, ModuleDBMeta};
use crate::module::columns::{column, column_views, known_table};
use crate::module::sub::template_tree::TemplateTree;

verus! {

/// An action of a page: what requests it answers and which templates it runs.
#[derive(Debug)]
pub struct Action {
    pub id: UDbId,
    pub mode: UDbFlg,
    /// The page this action belongs to.
    pub page: UDbId,
    /// The templates the action runs.
    pub template: TemplateTree,
    /// The methods the action answers, as flags.
    pub method: UDbFlg,
    /// The origins allowed to call the action; one starting with `*` allows every origin ending with the rest.
    pub origin: Vec<String>,
    /// The content types the action accepts.
    pub content: Vec<String>,
    /// The formats the action answers in, as flags.
    pub format: UDbFlg,
    /// The ids that authorise a caller.
    pub auth: Vec<UDbId>,
}

/// The columns of the action table.
pub open spec fn action_columns() -> Seq<(Seq<char>, ModuleDBType)> {
    seq![
        ("id"@, ModuleDBType::BIG_SERIAL),
        ("mode"@, ModuleDBType::BIG_INT),
        ("page"@, ModuleDBType::BIG_INT),
        ("template"@, ModuleDBType::OBJECT),
        ("method"@, ModuleDBType::BIG_INT),
        ("origin"@, ModuleDBType::ARRAY(Box::new(ModuleDBType::TEXT))),
        ("content"@, ModuleDBType::ARRAY(Box::new(ModuleDBType::TEXT))),
        ("format"@, ModuleDBType::BIG_INT),
        ("auth"@, ModuleDBType::ARRAY(Box::new(ModuleDBType::BIG_INT))),
    ]
}

impl ModuleDBMeta for Action {
    /// The table `t_action`, keyed by `id`.
    fn config() -> (r: ModuleDBConfig)
        ensures
            r.spec_table_name() == "t_action"@,
            r.spec_primary_key() == "id"@,
            column_views(r.spec_columns()) == action_columns(),
    {
        proof {
            reveal_strlit("t_action");
            reveal_strlit("id");
        }
        let mut columns: Vec<(String, ModuleDBType)> = Vec::new();
        columns.push(column("id", ModuleDBType::BIG_SERIAL));
        columns.push(column("mode", ModuleDBType::BIG_INT));
        columns.push(column("page", ModuleDBType::BIG_INT));
        columns.push(column("template", ModuleDBType::OBJECT));
        columns.push(column("method", ModuleDBType::BIG_INT));
        columns.push(column("origin", ModuleDBType::ARRAY(Box::new(ModuleDBType::TEXT))));
        columns.push(column("content", ModuleDBType::ARRAY(Box::new(ModuleDBType::TEXT))));
        columns.push(column("format", ModuleDBType::BIG_INT));
        columns.push(column("auth", ModuleDBType::ARRAY(Box::new(ModuleDBType::BIG_INT))));
        assert(column_views(columns@) =~= action_columns());
        proof {
            reveal_strlit("id");
            reveal_strlit("mode");
            reveal_strlit("page");
            reveal_strlit("template");
            reveal_strlit("method");
            reveal_strlit("origin");
            reveal_strlit("content");
            reveal_strlit("format");
            reveal_strlit("auth");
            assert("mode"@.len() != "id"@.len());
            assert("page"@.len() != "id"@.len());
            assert("page"@[0] != "mode"@[0]);
            assert("template"@.len() != "id"@.len());
            assert("template"@.len() != "mode"@.len());
            assert("template"@.len() != "page"@.len());
            assert("method"@.len() != "id"@.len());
            assert("method"@.len() != "mode"@.len());
            assert("method"@.len() != "page"@.len());
            assert("method"@.len() != "template"@.len());
            assert("origin"@.len() != "id"@.len());
            assert("origin"@.len() != "mode"@.len());
            assert("origin"@.len() != "page"@.len());
            assert("origin"@.len() != "template"@.len());
            assert("origin"@[0] != "method"@[0]);
            assert("content"@.len() != "id"@.len());
            assert("content"@.len() != "mode"@.len());
            assert("content"@.len() != "page"@.len());
            assert("content"@.len() != "template"@.len());
            assert("content"@.len() != "method"@.len());
            assert("content"@.len() != "origin"@.len());
            assert("format"@.len() != "id"@.len());
            assert("format"@.len() != "mode"@.len());
            assert("format"@.len() != "page"@.len());
            assert("format"@.len() != "template"@.len());
            assert("format"@[0] != "method"@[0]);
            assert("format"@[0] != "origin"@[0]);
            assert("format"@.len() != "content"@.len());
            assert("auth"@.len() != "id"@.len());
            assert("auth"@[0] != "mode"@[0]);
            assert("auth"@[0] != "page"@[0]);
            assert("auth"@.len() != "template"@.len());
            assert("auth"@.len() != "method"@.len());
            assert("auth"@.len() != "origin"@.len());
            assert("auth"@.len() != "content"@.len());
            assert("auth"@.len() != "format"@.len());
            assert forall|i: int, j: int| 0 <= i < j < columns@.len() implies
                #[trigger] columns@[i].0@ != #[trigger] columns@[j].0@ by {
                assert(columns@[i].0@ == action_columns()[i].0);
                assert(columns@[j].0@ == action_columns()[j].0);
            }
        }
        let r = known_table("t_action", "id", columns);
        assert(column_views(r.spec_columns()) =~= action_columns());
        r
    }
}

/// A template that an action of the older schema runs, with the templates
/// that replace and validate it.
#[derive(Debug, Clone, Copy, PartialEq, Eq, Structural)]
pub struct ChildTemplate {
    id: UDbId,
    method: Option<UDbFlg>,
    replace: Option<UDbId>,
    validate: Option<UDbId>,
}

impl ChildTemplate {
    /// The template.
    pub closed spec fn spec_id(&self) -> UDbId {
        self.id
    }

    /// The methods the template answers, when restricted.
    pub closed spec fn spec_method(&self) -> Option<UDbFlg> {
        self.method
    }

    /// The template that replaces it, if any.
    pub closed spec fn spec_replace(&self) -> Option<UDbId> {
        self.replace
    }

    /// The template that validates it, if any.
    pub closed spec fn spec_validate(&self) -> Option<UDbId> {
        self.validate
    }

    /// A template `id` with its methods and its replacing and validating templates.
    pub fn new(id: UDbId, method: Option<UDbFlg>, replace: Option<UDbId>, validate: Option<UDbId>) -> (r: Self)
        ensures
            r.spec_id() == id,
            r.spec_method() == method,
            r.spec_replace() == replace,
            r.spec_validate() == validate,
    {
        ChildTemplate { id, method, replace, validate }
    }

    /// The template ids: the template itself, then the replacing and the validating one when set.
    pub fn id_list(&self) -> (r: Vec<UDbId>)
        ensures
            r@ == seq![self.spec_id()]
                + (match self.spec_replace() { Some(x) => seq![x], None => Seq::empty() })
                + (match self.spec_validate() { Some(x) => seq![x], None => Seq::empty() }),
    {
        let mut ids: Vec<UDbId> = Vec::new();
        ids.push(self.id);
        if let Some(replace) = self.replace {
            ids.push(replace);
        }
        if let Some(validate) = self.validate {
            ids.push(validate);
        }
        assert(ids@ =~= seq![self.id]
            + (match self.replace { Some(x) => seq![x], None => Seq::empty() })
            + (match self.validate { Some(x) => seq![x], None => Seq::empty() }));
        ids
    }
}

} // verus!
