use std::collections::HashMap;
use r_webservice::json::{JsonValue, JsonNode};
use r_webservice::module::Template;
use r_webservice::module::sub::{TemplateTree, Auth};
use r_webservice::engine::EngineValue;
use r_webservice::service::cache::RWCache;
use r_webservice::service::index::{RWIndex, ResponseKind};
use r_webservice::types::error::{ServiceError, ServerError};

fn leaf(id: i64) -> TemplateTree {
    TemplateTree::new(Some(id), None, None, None)
}

fn template(id: i64) -> Template {
    Template { id, mode: 0, subject: "s".to_string(), engine: -1, path: "Any".to_string(), option: vec![] }
}

fn null() -> JsonValue {
    JsonValue { node: JsonNode::Null, text: "null".to_string() }
}

#[test]
fn cache_reads_back_what_was_written() {
    let mut cache = RWCache::new();
    cache.insert_auth(&1, Auth::new(1, vec![9]));
    cache.insert_auth(&2, Auth::new(2, vec![]));
    cache.insert_auth(&1, Auth::new(3, vec![8]));
    assert_eq!(cache.get_auth(&1).unwrap().mode(), 3);
    assert_eq!(cache.get_auth(&2).unwrap().mode(), 2);
    assert!(cache.get_auth(&3).is_none());
    cache.insert_tree(&5, leaf(50));
    assert_eq!(cache.get_tree(&5).unwrap().id(), Some(50));
    cache.insert_template(&7, template(7));
    assert_eq!(cache.get_template(&7).unwrap().path, "Any");
}

#[test]
fn cache_writes_chain() {
    let mut cache = RWCache::new();
    cache.insert_auth(&1, Auth::new(1, vec![])).insert_tree(&1, leaf(10)).insert_template(&10, template(10));
    assert!(cache.get_auth(&1).is_some());
    assert_eq!(cache.get_tree(&1).unwrap().id(), Some(10));
    assert_eq!(cache.get_template(&10).unwrap().id, 10);
}

#[test]
fn cache_setters_replace_everything() {
    let mut cache = RWCache::new();
    cache.insert_template(&1, template(1));
    let mut templates = HashMap::new();
    templates.insert(2, template(2));
    cache.set_template(templates);
    assert!(cache.get_template(&1).is_none());
    assert!(cache.get_template(&2).is_some());
    let mut trees = HashMap::new();
    trees.insert(4, leaf(40));
    cache.set_tree(trees);
    assert_eq!(cache.get_tree(&4).unwrap().id(), Some(40));
    let mut auths = HashMap::new();
    auths.insert(6, Auth::new(0, vec![]));
    cache.set_auth(auths);
    assert_eq!(cache.get_auth(&6).unwrap().mode(), 0);
}

#[test]
fn template_for_a_node() {
    let mut cache = RWCache::new();
    cache.insert_template(&1, template(1));
    assert_eq!(RWIndex::template_for(&cache, &leaf(1)).unwrap().unwrap().id, 1);
    assert!(RWIndex::template_for(&cache, &TemplateTree::new(None, None, None, None)).unwrap().is_none());
    assert_eq!(
        RWIndex::template_for(&cache, &leaf(2)).err(),
        Some(ServiceError::HTTPRequestInternalServerError(ServerError::TemplateRoutingError))
    );
}

#[test]
fn the_walk_follows_success_and_failure() {
    let tree = TemplateTree::new(Some(1), None, Some(Box::new(leaf(2))), Some(Box::new(leaf(3))));
    let mut response = Vec::new();
    let next = RWIndex::next_tree(&tree, Ok((true, EngineValue::Any(null()))), &mut response);
    assert_eq!(next.unwrap().id(), Some(2));
    let next = RWIndex::next_tree(&tree, Ok((false, EngineValue::Empty)), &mut response);
    assert_eq!(next.unwrap().id(), Some(3));
    let next = RWIndex::next_tree(&tree, Err(ServiceError::HTTPRequestNotFound), &mut response);
    assert_eq!(next.unwrap().id(), Some(3));
    assert_eq!(response.len(), 3);
    assert!(matches!(response[0], EngineValue::Any(_)));
    assert!(matches!(response[2], EngineValue::Empty));
    let last = leaf(9);
    let end = RWIndex::next_tree(&last, Ok((true, EngineValue::Empty)), &mut response);
    assert!(end.is_none());
}

#[test]
fn response_kinds() {
    let none: Vec<EngineValue> = Vec::new();
    assert_eq!(RWIndex::response_kind(&none, Some("application/json")), ResponseKind::NoContent);
    let one = vec![EngineValue::Empty];
    assert_eq!(RWIndex::response_kind(&one, Some("application/json")), ResponseKind::Json);
    assert_eq!(RWIndex::response_kind(&one, Some("text/JSON")), ResponseKind::Json);
    assert_eq!(RWIndex::response_kind(&one, Some("application/ld+json")), ResponseKind::AsAccepted);
    assert_eq!(RWIndex::response_kind(&one, Some("text/html")), ResponseKind::AsAccepted);
    assert_eq!(RWIndex::response_kind(&one, Some("no type")), ResponseKind::Html);
    assert_eq!(RWIndex::response_kind(&one, None), ResponseKind::Html);
}

#[test]
fn file_path_drops_leading_slashes() {
    assert_eq!(RWIndex::file_path("//static/a.css"), "static/a.css");
    assert_eq!(RWIndex::file_path("a/b"), "a/b");
    assert_eq!(RWIndex::file_path("///"), "");
}

#[test]
fn files_outside_the_served_directory_are_refused() {
    assert!(RWIndex::serves_file("/srv/www/static/a.css", "/srv/www", "/srv/www/static/a.css"));
    assert!(!RWIndex::serves_file("/etc/passwd", "/srv/www", "/srv/www/../../etc/passwd"));
    assert!(!RWIndex::serves_file("/srv/www/real.txt", "/srv/www", "/srv/www/link.txt"));
}

#[test]
fn the_visit_counter_counts() {
    assert_eq!(RWIndex::next_counter(None), 1);
    assert_eq!(RWIndex::next_counter(Some(41)), 42);
    assert_eq!(RWIndex::next_counter(Some(-1)), 0);
}
