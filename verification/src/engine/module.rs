use vstd::prelude::*;

use crate::json::{JsonValue, JsonNode};
use crate::text::str_equal;
use crate::types::error::{ServiceError, ServerError, db_access_error, db_access_failure};
use crate::module::db::{ModuleDBSearch, ModuleDBOrder, ModuleDBPager};
use crate::engine::{EngineValue, EngineModule, EngineModuleWrap};

verus! {

/// The module engine for records of type `T`.
pub struct EngineModuleInner<T>(Option<T>);

/// The database work that a module template asks for.
#[derive(Debug)]
pub enum ModuleOperation {
    /// Read the record that the search selects.
    Detail(ModuleDBSearch),
    /// List the records that the search selects, in the order and page given.
    List(ModuleDBSearch, ModuleDBOrder, ModuleDBPager),
    /// Insert the value as a new record.
    Insert(JsonValue),
    /// Update the record that the value names.
    Update(JsonValue),
    /// Update every record that the values name, all or none.
    BulkUpsert(Vec<JsonValue>),
}

/// What a bulk update does after one of its updates.
#[derive(Debug, Clone, Copy, PartialEq, Eq, Structural)]
pub enum BulkStep {
    /// Go on with the next value (or commit after the last).
    Next,
    /// Roll the transaction back and answer with a database error.
    Rollback,
}

/// The error of a template that is not given the value it needs.
pub open spec fn routing_error() -> ServiceError {
    ServiceError::HTTPRequestInternalServerError(ServerError::TemplateRoutingError)
}

/// The error of a template given a value of the wrong kind.
pub open spec fn type_error() -> ServiceError {
    ServiceError::HTTPRequestInternalServerError(ServerError::TemplateTypeError)
}

/// The error of a template whose feature the engine does not know.
pub open spec fn module_error() -> ServiceError {
    ServiceError::HTTPRequestInternalServerError(ServerError::TemplateModuleError)
}

/// The work a module template with feature `path` asks for, given the first
/// value handed to it: the feature decides which value kind it needs; no value
/// is a routing error, a value of another kind a type error, and an unknown
/// feature a module error.
pub open spec fn operation_of(path: Seq<char>, first: Option<EngineValue>) -> Result<ModuleOperation, ServiceError> {
    if path == "Detail"@ {
        match first {
            None => Err(routing_error()),
            Some(EngineValue::SearchDetail(search)) => Ok(ModuleOperation::Detail(search)),
            Some(_) => Err(type_error()),
        }
    } else if path == "List"@ {
        match first {
            None => Err(routing_error()),
            Some(EngineValue::SearchList((search, order, pager))) => Ok(ModuleOperation::List(search, order, pager)),
            Some(_) => Err(type_error()),
        }
    } else if path == "Insert"@ {
        match first {
            None => Err(routing_error()),
            Some(EngineValue::Upsert(value)) => Ok(ModuleOperation::Insert(value)),
            Some(_) => Err(type_error()),
        }
    } else if path == "Update"@ {
        match first {
            None => Err(routing_error()),
            Some(EngineValue::Upsert(value)) => Ok(ModuleOperation::Update(value)),
            Some(_) => Err(type_error()),
        }
    } else if path == "BulkUpsert"@ {
        match first {
            None => Err(routing_error()),
            Some(EngineValue::Upsert(value)) => match value.node {
                JsonNode::Array(items) => Ok(ModuleOperation::BulkUpsert(items)),
                _ => Err(type_error()),
            },
            Some(_) => Err(type_error()),
        }
    } else {
        Err(module_error())
    }
}

/// The records wrapped as engine values, in order.
pub open spec fn wrap_all<T: EngineModuleWrap>(items: Seq<T>) -> Seq<EngineModule> {
    items.map_values(|t: T| t.spec_wrap())
}

impl<T: EngineModuleWrap> EngineModuleInner<T> {
    pub const ENGINE_FEATURE_DETAIL: &'static str = "Detail";
    pub const ENGINE_FEATURE_LIST: &'static str = "List";
    pub const ENGINE_FEATURE_INSERT: &'static str = "Insert";
    pub const ENGINE_FEATURE_UPDATE: &'static str = "Update";
    pub const ENGINE_FEATURE_BULKUPSERT: &'static str = "BulkUpsert";

    /// The record the engine holds: none, as the engine reads and writes
    /// records in the database and keeps none of its own.
    pub closed spec fn spec_record(&self) -> Option<T> {
        self.0
    }

    /// The module engine for records of type `T`.
    pub fn new() -> (r: Self)
        ensures
            r.spec_record() is None,
    {
        EngineModuleInner(None)
    }

    /// The database work that a template with feature `path` asks for, given
    /// the first of the values handed to it.
    pub fn plan(&self, path: &str, first: Option<EngineValue>) -> (r: Result<ModuleOperation, ServiceError>)
        ensures
            r == operation_of(path@, first),
    {
        if str_equal(path, "Detail") {
            match first {
                None => Err(ServiceError::from(ServerError::TemplateRoutingError)),
                Some(EngineValue::SearchDetail(search)) => Ok(ModuleOperation::Detail(search)),
                Some(_) => Err(ServiceError::from(ServerError::TemplateTypeError)),
            }
        } else if str_equal(path, "List") {
            match first {
                None => Err(ServiceError::from(ServerError::TemplateRoutingError)),
                Some(EngineValue::SearchList((search, order, pager))) => Ok(ModuleOperation::List(search, order, pager)),
                Some(_) => Err(ServiceError::from(ServerError::TemplateTypeError)),
            }
        } else if str_equal(path, "Insert") {
            match first {
                None => Err(ServiceError::from(ServerError::TemplateRoutingError)),
                Some(EngineValue::Upsert(value)) => Ok(ModuleOperation::Insert(value)),
                Some(_) => Err(ServiceError::from(ServerError::TemplateTypeError)),
            }
        } else if str_equal(path, "Update") {
            match first {
                None => Err(ServiceError::from(ServerError::TemplateRoutingError)),
                Some(EngineValue::Upsert(value)) => Ok(ModuleOperation::Update(value)),
                Some(_) => Err(ServiceError::from(ServerError::TemplateTypeError)),
            }
        } else if str_equal(path, "BulkUpsert") {
            match first {
                None => Err(ServiceError::from(ServerError::TemplateRoutingError)),
                Some(EngineValue::Upsert(value)) => match value.node {
                    JsonNode::Array(items) => Ok(ModuleOperation::BulkUpsert(items)),
                    _ => Err(ServiceError::from(ServerError::TemplateTypeError)),
                },
                Some(_) => Err(ServiceError::from(ServerError::TemplateTypeError)),
            }
        } else {
            Err(ServiceError::from(ServerError::TemplateModuleError))
        }
    }

    /// The answer of a detail read: the record found succeeds, no record
    /// fails with no value, and a database failure is a database error.
    pub fn finish_detail(found: Result<Option<T>, ()>) -> (r: Result<(bool, EngineValue), ServiceError>)
        ensures
            match found {
                Ok(Some(s)) => r == Ok::<(bool, EngineValue), ServiceError>((true, EngineValue::Module(s.spec_wrap()))),
                Ok(None) => r == Ok::<(bool, EngineValue), ServiceError>((false, EngineValue::Empty)),
                Err(_) => r == Err::<(bool, EngineValue), ServiceError>(db_access_error()),
            },
    {
        match found {
            Ok(Some(s)) => Ok((true, EngineValue::Module(s.wrap_engine_module()))),
            Ok(None) => Ok((false, EngineValue::Empty)),
            Err(_) => Err(db_access_failure()),
        }
    }

    /// The answer of a list read: the records found, in order, or a database error.
    pub fn finish_list(found: Result<Vec<T>, ()>) -> (r: Result<(bool, EngineValue), ServiceError>)
        ensures
            match found {
                Ok(items) => r matches Ok((true, EngineValue::ModuleArray(v))) && v@ == wrap_all(items@),
                Err(_) => r == Err::<(bool, EngineValue), ServiceError>(db_access_error()),
            },
    {
        match found {
            Ok(items) => {
                let ghost all = items@;
                let mut rest = items;
                let mut out: Vec<EngineModule> = Vec::new();
                while rest.len() > 0
                    invariant
                        out@.len() + rest@.len() == all.len(),
                        rest@ == all.skip(out@.len() as int),
                        out@ == wrap_all(all.take(out@.len() as int)),
                    decreases rest@.len(),
                {
                    let ghost k = out@.len() as int;
                    let x = rest.remove(0);
                    assert(x == all[k]);
                    out.push(x.wrap_engine_module());
                    assert(all.take(k + 1) =~= all.take(k).push(all[k]));
                    assert(wrap_all(all.take(k + 1)) =~= wrap_all(all.take(k)).push(all[k].spec_wrap()));
                    assert(rest@ =~= all.skip(k + 1));
                }
                assert(all.take(all.len() as int) =~= all);
                Ok((true, EngineValue::ModuleArray(out)))
            },
            Err(_) => Err(db_access_failure()),
        }
    }

    /// The answer of an insert or an update: the record written, or a database error.
    pub fn finish_one(written: Result<T, ()>) -> (r: Result<(bool, EngineValue), ServiceError>)
        ensures
            match written {
                Ok(s) => r == Ok::<(bool, EngineValue), ServiceError>((true, EngineValue::Module(s.spec_wrap()))),
                Err(_) => r == Err::<(bool, EngineValue), ServiceError>(db_access_error()),
            },
    {
        match written {
            Ok(s) => Ok((true, EngineValue::Module(s.wrap_engine_module()))),
            Err(_) => Err(db_access_failure()),
        }
    }

    /// One update of a bulk update: a written record is kept and the update
    /// goes on; a failure rolls everything back.
    pub fn bulk_step(done: &mut Vec<EngineModule>, written: Result<T, ()>) -> (r: BulkStep)
        ensures
            match written {
                Ok(s) => r == BulkStep::Next && final(done)@ == old(done)@.push(s.spec_wrap()),
                Err(_) => r == BulkStep::Rollback && final(done)@ == old(done)@,
            },
    {
        match written {
            Ok(s) => {
                done.push(s.wrap_engine_module());
                BulkStep::Next
            },
            Err(_) => BulkStep::Rollback,
        }
    }

    /// The answer of a bulk update: after a commit, every record written; after a rollback, a database error.
    pub fn finish_bulk(done: Vec<EngineModule>, step: BulkStep) -> (r: Result<(bool, EngineValue), ServiceError>)
        ensures
            match step {
                BulkStep::Next => r matches Ok((true, EngineValue::ModuleArray(v))) && v@ == done@,
                BulkStep::Rollback => r == Err::<(bool, EngineValue), ServiceError>(db_access_error()),
            },
    {
        match step {
            BulkStep::Next => Ok((true, EngineValue::ModuleArray(done))),
            BulkStep::Rollback => Err(db_access_failure()),
        }
    }
}

/// The Insert feature, handed a value to write, always plans the insert of
/// exactly that value, whatever members it has; and an insert is planned only
/// by the Insert feature, of the value it was handed.
pub proof fn lemma_insert_plans_insert_of_value(path: Seq<char>, first: Option<EngineValue>, x: JsonValue)
    ensures
        operation_of(path, first) == Ok::<ModuleOperation, ServiceError>(ModuleOperation::Insert(x))
            <==> (path == "Insert"@ && first == Some(EngineValue::Upsert(x))),
{
    reveal_strlit("Detail");
    reveal_strlit("List");
    reveal_strlit("Insert");
    reveal_strlit("Update");
    reveal_strlit("BulkUpsert");
    assert("Insert"@[0] != "Detail"@[0]);
    assert("Insert"@.len() != "List"@.len());
}

/// The Update feature, handed a value to write, always plans the update of
/// exactly that value; and an update is planned only by the Update feature,
/// of the value it was handed. So Insert and Update never stand for each other.
pub proof fn lemma_update_plans_update_of_value(path: Seq<char>, first: Option<EngineValue>, x: JsonValue)
    ensures
        operation_of(path, first) == Ok::<ModuleOperation, ServiceError>(ModuleOperation::Update(x))
            <==> (path == "Update"@ && first == Some(EngineValue::Upsert(x))),
{
    reveal_strlit("Detail");
    reveal_strlit("List");
    reveal_strlit("Insert");
    reveal_strlit("Update");
    reveal_strlit("BulkUpsert");
    assert("Update"@[0] != "Detail"@[0]);
    assert("Update"@.len() != "List"@.len());
    assert("Update"@[0] != "Insert"@[0]);
}

} // verus!
