use r_webservice::json::{JsonValue, JsonNode};
use r_webservice::module::db::config::ModuleDBType;
use r_webservice::module::db::escape::{escape, ModuleDBEscape};
use r_webservice::types::error::{ServiceError, ServerError};

fn integer(n: i64) -> JsonValue {
    JsonValue { node: JsonNode::Integer(n), text: n.to_string() }
}

fn string(s: &str) -> JsonValue {
    JsonValue { node: JsonNode::String(s.to_string()), text: serde_json::to_string(s).unwrap() }
}

fn null() -> JsonValue {
    JsonValue { node: JsonNode::Null, text: "null".to_string() }
}

fn db_error() -> ServiceError {
    ServiceError::HTTPRequestInternalServerError(ServerError::DBAccessError)
}

#[test]
fn escape_doubles_quotes() {
    assert_eq!(escape("it's", "", ""), "'it''s'");
    assert_eq!(escape("a,b", "{", "}"), "'{a,b}'");
    assert_eq!(escape("", "", ""), "''");
}

#[test]
fn identifiers_pass_as_themselves() {
    assert_eq!("page_id".to_string().try_escape_to_string(()), Ok("page_id".to_string()));
    assert_eq!("A9_".to_string().try_escape_to_string(()), Ok("A9_".to_string()));
}

#[test]
fn non_identifiers_are_refused() {
    assert_eq!("id; DROP".to_string().try_escape_to_string(()), Err(db_error()));
    assert_eq!("".to_string().try_escape_to_string(()), Err(db_error()));
    assert_eq!("naïve".to_string().try_escape_to_string(()), Err(db_error()));
}

#[test]
fn integers_are_written_in_decimal() {
    assert_eq!(ModuleDBType::BIG_INT.try_escape_to_string(integer(-42)), Ok("-42".to_string()));
    assert_eq!(ModuleDBType::INT.try_escape_to_string(integer(i64::MIN)), Ok("-9223372036854775808".to_string()));
    assert_eq!(ModuleDBType::INT.try_escape_to_string(string("1")), Err(db_error()));
}

#[test]
fn text_is_quoted_with_quotes_doubled() {
    assert_eq!(ModuleDBType::TEXT.try_escape_to_string(string("O'Neil")), Ok("'O''Neil'".to_string()));
    assert_eq!(ModuleDBType::TEXT.try_escape_to_string(integer(1)), Err(db_error()));
}

#[test]
fn nullable_writes_null() {
    let ty = ModuleDBType::NULLABLE(Box::new(ModuleDBType::TEXT));
    assert_eq!(ty.try_escape_to_string(null()), Ok("Null".to_string()));
    let ty = ModuleDBType::NULLABLE(Box::new(ModuleDBType::TEXT));
    assert_eq!(ty.try_escape_to_string(string("x")), Ok("'x'".to_string()));
}

#[test]
fn arrays_are_written_as_array_literals() {
    let ty = ModuleDBType::ARRAY(Box::new(ModuleDBType::BIG_INT));
    let v = JsonValue { node: JsonNode::Array(vec![integer(1), integer(2)]), text: "[1,2]".to_string() };
    assert_eq!(ty.try_escape_to_string(v), Ok("'{1,2}'".to_string()));
    let ty = ModuleDBType::ARRAY(Box::new(ModuleDBType::TEXT));
    let v = JsonValue { node: JsonNode::Array(vec![string("a'b")]), text: "[\"a'b\"]".to_string() };
    assert_eq!(ty.try_escape_to_string(v), Ok("'{''a''''b''}'".to_string()));
}

#[test]
fn objects_are_written_as_their_json_text() {
    let v = JsonValue {
        node: JsonNode::Object(vec![("k".to_string(), string("it's"))]),
        text: "{\"k\":\"it's\"}".to_string(),
    };
    assert_eq!(ModuleDBType::OBJECT.try_escape_to_string(v), Ok("'{\"k\":\"it''s\"}'".to_string()));
}
