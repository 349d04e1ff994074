use vstd::prelude::*;

use crate::json::{JsonValue, JsonNode};
use crate::text::str_equal;
use crate::types::error::{ServiceError, ServerError};
use crate::module::Template;
use crate::engine::EngineValue;

verus! {

/// The request engine, which turns the request into a value for the next template.
pub struct EngineRequest();

/// The kinds of value that the request engine reads from the request data.
#[derive(Debug, Clone, Copy, PartialEq, Eq, Structural)]
pub enum RequestTarget {
    SearchDetail,
    SearchList,
    Module,
    ModuleArray,
    ServiceError,
    ServerError,
}

/// What the request engine does for a template.
#[derive(Debug)]
pub enum RequestStep {
    /// Answer at once: whether the template succeeded, and its value.
    Done(bool, EngineValue),
    /// Read a value of this kind from the request data (which is `data`).
    Read(RequestTarget, JsonValue),
    /// Fail the template with this error.
    Fail(ServiceError),
}

/// The request data the engine reads from: JSON `null`.
pub open spec fn request_data(v: JsonValue) -> bool {
    v.node is Null && v.text@ == "null"@
}

/// What the request engine does for a template whose path is `path`, with request data `data`.
pub open spec fn request_step_of(path: Seq<char>, data: JsonValue, r: RequestStep) -> bool {
    if path == "Any"@ {
        r matches RequestStep::Done(true, EngineValue::Any(v)) && v == data
    } else if path == "SearchDetail"@ {
        r matches RequestStep::Read(RequestTarget::SearchDetail, v) && v == data
    } else if path == "SearchList"@ {
        r matches RequestStep::Read(RequestTarget::SearchList, v) && v == data
    } else if path == "Upsert"@ {
        r matches RequestStep::Done(true, EngineValue::Upsert(v)) && v == data
    } else if path == "Module"@ {
        r matches RequestStep::Read(RequestTarget::Module, v) && v == data
    } else if path == "ModuleArray"@ {
        r matches RequestStep::Read(RequestTarget::ModuleArray, v) && v == data
    } else if path == "ServiceError"@ {
        r matches RequestStep::Read(RequestTarget::ServiceError, v) && v == data
    } else if path == "ServerError"@ {
        r matches RequestStep::Read(RequestTarget::ServerError, v) && v == data
    } else if path == "None"@ {
        r matches RequestStep::Done(true, EngineValue::Empty)
    } else {
        r matches RequestStep::Fail(e) && e == ServiceError::HTTPRequestInternalServerError(ServerError::TemplateModuleError)
    }
}

/// Whether `r` is what the request engine does for a template whose path is
/// `path`: the answer for that path, carrying the request data.
pub open spec fn request_step_result(path: Seq<char>, r: RequestStep) -> bool {
    exists|data: JsonValue| #[trigger] request_data(data) && request_step_of(path, data, r)
}

/// Whether two answers of the request engine are the same: the same kind,
/// flag, target or error, and where they carry a JSON value, the request data
/// in both (the JSON null, its text the same characters).
pub open spec fn same_step(a: RequestStep, b: RequestStep) -> bool {
    match (a, b) {
        (RequestStep::Done(s1, v1), RequestStep::Done(s2, v2)) => s1 == s2 && match (v1, v2) {
            (EngineValue::Any(x), EngineValue::Any(y)) => request_data(x) && request_data(y),
            (EngineValue::Upsert(x), EngineValue::Upsert(y)) => request_data(x) && request_data(y),
            (EngineValue::Empty, EngineValue::Empty) => true,
            _ => false,
        },
        (RequestStep::Read(t1, x), RequestStep::Read(t2, y)) => t1 == t2 && request_data(x) && request_data(y),
        (RequestStep::Fail(e1), RequestStep::Fail(e2)) => e1 == e2,
        _ => false,
    }
}

/// The request engine answers two templates with the same path in the same
/// way: it reads nothing but the template's path.
pub proof fn lemma_request_step_same_path(path: Seq<char>, r1: RequestStep, r2: RequestStep)
    requires
        request_step_result(path, r1),
        request_step_result(path, r2),
    ensures
        same_step(r1, r2),
{
    let d1 = choose|data: JsonValue| #[trigger] request_data(data) && request_step_of(path, data, r1);
    let d2 = choose|data: JsonValue| #[trigger] request_data(data) && request_step_of(path, data, r2);
}

/// The result of the request engine for the kind of value it read: a value
/// read succeeds with it, a value that could not be read fails with no value.
pub open spec fn read_result_of(target: RequestTarget, read: Option<EngineValue>) -> (bool, EngineValue) {
    match read {
        Some(v) => (true, v),
        None => (false, EngineValue::Empty),
    }
}

/// The request data: JSON `null`.
fn null_data() -> (r: JsonValue)
    ensures
        request_data(r),
{
    JsonValue { node: JsonNode::Null, text: String::from_str("null") }
}

impl EngineRequest {
    /// The request engine.
    pub fn new() -> (r: Self) {
        EngineRequest()
    }

    /// What the engine does for `template`: by the template's path it answers
    /// with the request data, asks for it to be read as a value of some kind,
    /// or fails for a path it does not know.
    pub fn step(&self, template: &Template) -> (r: RequestStep)
        ensures
            request_step_result(template.path@, r),
    {
        let value = null_data();
        let ghost data = value;
        let p = template.path.as_str();
        if str_equal(p, EngineValue::ENGINE_TYPE_ANY) {
            RequestStep::Done(true, EngineValue::Any(value))
        } else if str_equal(p, EngineValue::ENGINE_TYPE_SEARCHDETAIL) {
            RequestStep::Read(RequestTarget::SearchDetail, value)
        } else if str_equal(p, EngineValue::ENGINE_TYPE_SEARCHLIST) {
            RequestStep::Read(RequestTarget::SearchList, value)
        } else if str_equal(p, EngineValue::ENGINE_TYPE_UPSERT) {
            RequestStep::Done(true, EngineValue::Upsert(value))
        } else if str_equal(p, EngineValue::ENGINE_TYPE_MODULE) {
            RequestStep::Read(RequestTarget::Module, value)
        } else if str_equal(p, EngineValue::ENGINE_TYPE_MODULEARRAY) {
            RequestStep::Read(RequestTarget::ModuleArray, value)
        } else if str_equal(p, EngineValue::ENGINE_TYPE_SERVICEERROR) {
            RequestStep::Read(RequestTarget::ServiceError, value)
        } else if str_equal(p, EngineValue::ENGINE_TYPE_SERVERERROR) {
            RequestStep::Read(RequestTarget::ServerError, value)
        } else if str_equal(p, EngineValue::ENGINE_TYPE_NONE) {
            RequestStep::Done(true, EngineValue::Empty)
        } else {
            RequestStep::Fail(ServiceError::from(ServerError::TemplateModuleError))
        }
    }

    /// The result once the request data was read as a value of kind `target`
    /// (`None` when it could not be read as one).
    pub fn finish_read(&self, target: RequestTarget, read: Option<EngineValue>) -> (r: (bool, EngineValue))
        ensures
            r == read_result_of(target, read),
    {
        match read {
            Some(v) => (true, v),
            None => (false, EngineValue::Empty),
        }
    }
}

} // verus!
