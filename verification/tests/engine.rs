use r_webservice::json::{JsonValue, JsonNode};
use r_webservice::module::{Page, Action, Template};
use r_webservice::module::db::search::ModuleDBSearch;
use r_webservice::module::db::order::{ModuleDBOrder, ModuleDBPager};
use r_webservice::engine::{EngineValue, EngineModule, EngineTarget};
use r_webservice::engine::module::{EngineModuleInner, ModuleOperation, BulkStep};
use r_webservice::engine::request::{EngineRequest, RequestStep, RequestTarget};
use r_webservice::types::error::{ServiceError, ServerError};

fn null() -> JsonValue {
    JsonValue { node: JsonNode::Null, text: "null".to_string() }
}

fn integer(n: i64) -> JsonValue {
    JsonValue { node: JsonNode::Integer(n), text: n.to_string() }
}

fn array(items: Vec<JsonValue>) -> JsonValue {
    let text = format!("[{}]", items.iter().map(|v| v.text.clone()).collect::<Vec<_>>().join(","));
    JsonValue { node: JsonNode::Array(items), text }
}

fn page(id: i64) -> Page {
    Page { id, mode: 0, page: 0, path: "/p".to_string(), param: vec![] }
}

fn template(engine: i64, path: &str) -> Template {
    Template { id: 1, mode: 0, subject: String::new(), engine, path: path.to_string(), option: vec![] }
}

fn internal(e: ServerError) -> ServiceError {
    ServiceError::HTTPRequestInternalServerError(e)
}

fn search() -> ModuleDBSearch {
    ModuleDBSearch::EQUAL(("id".to_string(), "1".to_string()))
}

#[test]
fn module_engine_plans_by_feature() {
    let e = EngineModuleInner::<Page>::new();
    assert!(matches!(e.plan("Detail", Some(EngineValue::SearchDetail(search()))), Ok(ModuleOperation::Detail(_))));
    let list = EngineValue::SearchList((search(), ModuleDBOrder::DESC("id".to_string()), ModuleDBPager::OFFSET(5)));
    assert!(matches!(e.plan("List", Some(list)), Ok(ModuleOperation::List(_, _, ModuleDBPager::OFFSET(5)))));
    assert!(matches!(e.plan("Insert", Some(EngineValue::Upsert(integer(1)))), Ok(ModuleOperation::Insert(_))));
    assert!(matches!(e.plan("Update", Some(EngineValue::Upsert(integer(1)))), Ok(ModuleOperation::Update(_))));
    match e.plan("BulkUpsert", Some(EngineValue::Upsert(array(vec![integer(1), integer(2)])))) {
        Ok(ModuleOperation::BulkUpsert(items)) => assert_eq!(items.len(), 2),
        _ => panic!("expected a bulk upsert"),
    }
}

#[test]
fn module_engine_errors() {
    let e = EngineModuleInner::<Action>::new();
    assert_eq!(e.plan("Detail", None).err(), Some(internal(ServerError::TemplateRoutingError)));
    assert_eq!(e.plan("Detail", Some(EngineValue::Empty)).err(), Some(internal(ServerError::TemplateTypeError)));
    assert_eq!(e.plan("BulkUpsert", Some(EngineValue::Upsert(integer(1)))).err(), Some(internal(ServerError::TemplateTypeError)));
    assert_eq!(e.plan("Delete", Some(EngineValue::Upsert(integer(1)))).err(), Some(internal(ServerError::TemplateModuleError)));
}

#[test]
fn module_engine_answers() {
    match EngineModuleInner::<Page>::finish_detail(Ok(Some(page(3)))) {
        Ok((true, EngineValue::Module(EngineModule::Page(p)))) => assert_eq!(p.id, 3),
        _ => panic!("expected the page"),
    }
    assert!(matches!(EngineModuleInner::<Page>::finish_detail(Ok(None)), Ok((false, EngineValue::Empty))));
    assert_eq!(EngineModuleInner::<Page>::finish_detail(Err(())).err(), Some(internal(ServerError::DBAccessError)));
    match EngineModuleInner::<Page>::finish_list(Ok(vec![page(1), page(2)])) {
        Ok((true, EngineValue::ModuleArray(v))) => assert_eq!(v.len(), 2),
        _ => panic!("expected the list"),
    }
    assert_eq!(EngineModuleInner::<Page>::finish_list(Err(())).err(), Some(internal(ServerError::DBAccessError)));
    assert!(matches!(EngineModuleInner::<Page>::finish_one(Ok(page(1))), Ok((true, EngineValue::Module(_)))));
    assert_eq!(EngineModuleInner::<Page>::finish_one(Err(())).err(), Some(internal(ServerError::DBAccessError)));
}

#[test]
fn bulk_upsert_commits_or_rolls_back() {
    let mut done = Vec::new();
    assert_eq!(EngineModuleInner::<Page>::bulk_step(&mut done, Ok(page(1))), BulkStep::Next);
    assert_eq!(EngineModuleInner::<Page>::bulk_step(&mut done, Ok(page(2))), BulkStep::Next);
    assert_eq!(done.len(), 2);
    assert_eq!(EngineModuleInner::<Page>::bulk_step(&mut done, Err(())), BulkStep::Rollback);
    assert_eq!(done.len(), 2);
    assert_eq!(EngineModuleInner::<Page>::finish_bulk(done, BulkStep::Rollback).err(), Some(internal(ServerError::DBAccessError)));
    match EngineModuleInner::<Page>::finish_bulk(vec![], BulkStep::Next) {
        Ok((true, EngineValue::ModuleArray(v))) => assert!(v.is_empty()),
        _ => panic!("expected a commit"),
    }
}

#[test]
fn request_engine_steps() {
    let e = EngineRequest::new();
    assert!(matches!(e.step(&template(-1, "Any")), RequestStep::Done(true, EngineValue::Any(v)) if v.is_null() && v.text == "null"));
    assert!(matches!(e.step(&template(-1, "Upsert")), RequestStep::Done(true, EngineValue::Upsert(_))));
    assert!(matches!(e.step(&template(-1, "SearchDetail")), RequestStep::Read(RequestTarget::SearchDetail, _)));
    assert!(matches!(e.step(&template(-1, "SearchList")), RequestStep::Read(RequestTarget::SearchList, _)));
    assert!(matches!(e.step(&template(-1, "Module")), RequestStep::Read(RequestTarget::Module, _)));
    assert!(matches!(e.step(&template(-1, "ModuleArray")), RequestStep::Read(RequestTarget::ModuleArray, _)));
    assert!(matches!(e.step(&template(-1, "ServiceError")), RequestStep::Read(RequestTarget::ServiceError, _)));
    assert!(matches!(e.step(&template(-1, "ServerError")), RequestStep::Read(RequestTarget::ServerError, _)));
    assert!(matches!(e.step(&template(-1, "None")), RequestStep::Done(true, EngineValue::Empty)));
    assert!(matches!(e.step(&template(-1, "Nope")), RequestStep::Fail(ServiceError::HTTPRequestInternalServerError(ServerError::TemplateModuleError))));
}

#[test]
fn request_engine_reads() {
    let e = EngineRequest::new();
    assert!(matches!(e.finish_read(RequestTarget::Module, None), (false, EngineValue::Empty)));
    assert!(matches!(e.finish_read(RequestTarget::ServerError, Some(EngineValue::ServerError(ServerError::DBAccessError))), (true, EngineValue::ServerError(_))));
}

#[test]
fn engine_of_a_template() {
    assert_eq!(template(-1, "Any").engine_target(), Ok(EngineTarget::Request));
    assert_eq!(template(4, "Detail").engine_target(), Ok(EngineTarget::Page));
    assert_eq!(template(5, "Detail").engine_target(), Ok(EngineTarget::Action));
    assert_eq!(template(6, "Detail").engine_target(), Ok(EngineTarget::Template));
    assert_eq!(template(0, "Detail").engine_target(), Err(internal(ServerError::TemplateModuleError)));
    assert_eq!(template(-2, "Detail").engine_target(), Err(internal(ServerError::TemplateModuleError)));
}

#[test]
fn json_lookup() {
    let v = JsonValue {
        node: JsonNode::Object(vec![("a".to_string(), integer(1)), ("b".to_string(), null())]),
        text: "{\"a\":1,\"b\":null}".to_string(),
    };
    assert_eq!(v.get(&"a".to_string()).unwrap().text, "1");
    assert!(v.get(&"b".to_string()).unwrap().is_null());
    assert!(v.get(&"c".to_string()).is_none());
    assert!(integer(1).get(&"a".to_string()).is_none());
}

#[test]
fn request_engine_answers_by_path_alone() {
    let e = EngineRequest::new();
    let mut a = template(-1, "SearchList");
    a.id = 7;
    a.subject = "one".to_string();
    let b = template(-1, "SearchList");
    match (e.step(&a), e.step(&b)) {
        (RequestStep::Read(t1, d1), RequestStep::Read(t2, d2)) => {
            assert_eq!(t1, t2);
            assert_eq!(d1.text, d2.text);
        }
        _ => panic!("expected two reads"),
    }
}
