use r_webservice::json::{JsonValue, JsonNode};
use r_webservice::module::db::config::{ModuleDBType, ModuleDBConfig, ModuleDBMeta};
use r_webservice::module::db::search::{ModuleDBSearch, ModuleDBSearchBuilder};
use r_webservice::module::db::order::{ModuleDBOrder, ModuleDBPager, ModuleDBOrderBuilder};
use r_webservice::module::db::action::{select_sql, list_sql, insert_sql, update_sql, delete_sql};
use r_webservice::module::{Page, Action, Template};
use r_webservice::module::sub::PageAction;
use r_webservice::types::error::{ServiceError, ServerError};

fn integer(n: i64) -> JsonValue {
    JsonValue { node: JsonNode::Integer(n), text: n.to_string() }
}

fn string(s: &str) -> JsonValue {
    JsonValue { node: JsonNode::String(s.to_string()), text: serde_json::to_string(s).unwrap() }
}

fn object(members: Vec<(&str, JsonValue)>) -> JsonValue {
    let text = format!(
        "{{{}}}",
        members.iter().map(|(k, v)| format!("{}:{}", serde_json::to_string(k).unwrap(), v.text)).collect::<Vec<_>>().join(",")
    );
    JsonValue { node: JsonNode::Object(members.into_iter().map(|(k, v)| (k.to_string(), v)).collect()), text }
}

fn users() -> ModuleDBConfig {
    ModuleDBConfig::factory(
        "t_user".to_string(),
        "id".to_string(),
        vec![
            ("id".to_string(), ModuleDBType::BIG_SERIAL),
            ("name".to_string(), ModuleDBType::TEXT),
            ("age".to_string(), ModuleDBType::INT),
        ],
    ).unwrap()
}

fn db_error() -> ServiceError {
    ServiceError::HTTPRequestInternalServerError(ServerError::DBAccessError)
}

#[test]
fn factory_refuses_names_that_are_not_identifiers() {
    let made = ModuleDBConfig::factory("t user".to_string(), "id".to_string(), vec![]);
    assert_eq!(made.err(), Some(db_error()));
    let made = ModuleDBConfig::factory("t_user".to_string(), "id'".to_string(), vec![]);
    assert_eq!(made.err(), Some(db_error()));
}

#[test]
fn config_getters() {
    let c = users();
    assert_eq!(c.get_table_name(), "t_user");
    assert_eq!(c.get_primary_key(), "id");
    let cols = c.get_columns();
    assert_eq!(cols.len(), 3);
    assert_eq!(cols[1].0, "name");
}

#[test]
fn serial_columns_are_not_insertable() {
    assert!(!ModuleDBType::SERIAL.insartable());
    assert!(!ModuleDBType::BIG_SERIAL.insartable());
    assert!(ModuleDBType::TEXT.insartable());
    assert!(ModuleDBType::NULLABLE(Box::new(ModuleDBType::SERIAL)).insartable());
}

#[test]
fn record_tables() {
    let p = Page::config();
    assert_eq!(p.get_table_name(), "t_page");
    assert_eq!(p.get_primary_key(), "id");
    let a = Action::config();
    assert_eq!(a.get_table_name(), "t_action");
    assert_eq!(a.get_columns().len(), 9);
    let t = Template::config();
    assert_eq!(t.get_table_name(), "t_template");
    let names: Vec<String> = t.get_columns().into_iter().map(|c| c.0).collect();
    assert_eq!(names, vec!["id", "mode", "subject", "engine", "path", "option"]);
}

#[test]
fn select_and_list_statements() {
    let search = ModuleDBSearchBuilder::new(users(), ModuleDBSearch::EQUAL(("id".to_string(), "1".to_string())));
    assert_eq!(search.to_where(), "");
    assert_eq!(select_sql(&users(), &search), "SELECT * FROM t_user ");
    let order = ModuleDBOrderBuilder::new(users(), ModuleDBOrder::ASC("id".to_string()), ModuleDBPager::LIMIT(10));
    assert_eq!(order.to_where(), "");
    assert_eq!(list_sql(&users(), &search, &order), "SELECT * FROM t_user  ");
}

#[test]
fn insert_statement_skips_serial_columns() {
    let v = object(vec![("name", string("Ann's")), ("age", integer(30))]);
    assert_eq!(
        insert_sql(users(), &v),
        Some("INSERT INTO t_user(name,age) VALUES('Ann''s',30) RETURNING *".to_string())
    );
}

#[test]
fn insert_refuses_missing_or_ill_typed_values() {
    let v = object(vec![("name", string("Ann"))]);
    assert_eq!(insert_sql(users(), &v), None);
    let v = object(vec![("name", string("Ann")), ("age", string("30"))]);
    assert_eq!(insert_sql(users(), &v), None);
}

#[test]
fn insert_refuses_a_column_name_that_is_not_an_identifier() {
    let c = ModuleDBConfig::factory("t".to_string(), "id".to_string(), vec![("a b".to_string(), ModuleDBType::TEXT)]).unwrap();
    let v = object(vec![("a b", string("x"))]);
    assert_eq!(insert_sql(c, &v), None);
}

#[test]
fn update_statement_sets_the_other_columns() {
    let v = object(vec![("id", integer(7)), ("name", string("Bo")), ("age", integer(3))]);
    assert_eq!(
        update_sql(users(), &v),
        Some("UPDATE t_user SET name = 'Bo',age = 3 WHERE id = 7 RETURNING id as id".to_string())
    );
}

#[test]
fn update_without_a_primary_key_column_selects_false() {
    let c = ModuleDBConfig::factory(
        "t".to_string(),
        "key".to_string(),
        vec![("name".to_string(), ModuleDBType::TEXT)],
    ).unwrap();
    let v = object(vec![("name", string("x"))]);
    assert_eq!(update_sql(c, &v), Some("SELECT False".to_string()));
}

#[test]
fn update_refuses_a_missing_key() {
    let v = object(vec![("name", string("Bo")), ("age", integer(3))]);
    assert_eq!(update_sql(users(), &v), None);
}

#[test]
fn delete_statement_uses_the_primary_key() {
    let v = object(vec![("id", integer(12))]);
    assert_eq!(delete_sql(users(), &v), Some("DELETE FROM t_user WHERE id = 12 RETURNING *".to_string()));
    let v = object(vec![("name", string("x"))]);
    assert_eq!(delete_sql(users(), &v), None);
}

#[test]
fn page_action_query_joins_pages_and_actions() {
    let q = PageAction::get_sql_all();
    assert!(q.starts_with("SELECT\n            p.id as page_id,"));
    assert!(q.contains("t_page p join t_action a"));
    assert!(q.trim_end().ends_with("p.path ASC"));
}
