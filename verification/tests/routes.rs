use std::collections::HashMap;
use r_webservice::module::{Page, Action, Template};
use r_webservice::module::sub::TemplateTree;
use r_webservice::service::routes::{RWRouter, RouteLoad};
use r_webservice::service::cache::RWCache;
use r_webservice::types::method::Method;

fn leaf(id: i64) -> TemplateTree {
    TemplateTree::new(Some(id), None, None, None)
}

fn page(id: i64, path: &str) -> Page {
    Page { id, mode: 0, page: 0, path: path.to_string(), param: vec![] }
}

fn action(id: i64, page: i64, method: i64, format: i64, origin: &[&str], content: &[&str], tree: TemplateTree) -> Action {
    Action {
        id,
        mode: 0,
        page,
        template: tree,
        method,
        origin: origin.iter().map(|s| s.to_string()).collect(),
        content: content.iter().map(|s| s.to_string()).collect(),
        format,
        auth: vec![id * 2],
    }
}

fn sample_actions() -> Vec<Action> {
    vec![
        action(10, 1, 1 | 2 | 4, 8, &["example.com", "*.example.org"], &["application/json", "not a type"], leaf(100)),
        action(11, 1, 0, 8, &["other.com"], &[], leaf(101)),
        action(12, 1, 2, 1, &["static.com"], &["*/*"], leaf(102)),
    ]
}

fn template(id: i64) -> Template {
    Template { id, mode: 0, subject: String::new(), engine: -1, path: "Any".to_string(), option: vec![] }
}

#[test]
fn plan_page_routes_each_action_with_a_method() {
    let mut cache = RWCache::new();
    let actions = sample_actions();
    let r = RWRouter::plan_page(&page(1, "/users"), &actions, &mut cache);
    assert_eq!(r.path, "/users");
    assert_eq!(r.routes.len(), 2);
    let a = &r.routes[0];
    assert_eq!((a.page_id, a.action_id), (1, 10));
    assert_eq!(a.methods, vec![Method::get(), Method::post()]);
    assert_eq!(a.content, vec![("application".to_string(), "json".to_string())]);
    assert_eq!(a.origin, vec!["example.com".to_string()]);
    assert_eq!(a.sub_origin, vec![".example.org".to_string()]);
    assert!(!a.is_static);
    let b = &r.routes[1];
    assert_eq!(b.action_id, 12);
    assert!(b.is_static);
    assert_eq!(b.content, vec![("*".to_string(), "*".to_string())]);
}

#[test]
fn plan_page_fills_the_cache() {
    let mut cache = RWCache::new();
    let actions = sample_actions();
    RWRouter::plan_page(&page(1, "/users"), &actions, &mut cache);
    let auth = cache.get_auth(&10).unwrap();
    assert_eq!(auth.mode(), 1);
    assert_eq!(auth.item(), &vec![20]);
    assert!(cache.get_auth(&11).is_none());
    assert!(cache.get_auth(&12).is_some());
    assert_eq!(cache.get_tree(&10).unwrap().id(), Some(100));
    assert!(cache.get_tree(&11).is_none());
    assert!(cache.get_tree(&12).is_none());
}

#[test]
fn preflight_collects_the_options_actions() {
    let mut cache = RWCache::new();
    let actions = sample_actions();
    let r = RWRouter::plan_page(&page(1, "/users"), &actions, &mut cache);
    let p = r.preflight.unwrap();
    assert_eq!(p.allow_method, 7);
    assert_eq!(p.allow_origin, vec!["example.com".to_string()]);
    assert_eq!(p.allow_sub_origin, vec![".example.org".to_string()]);
}

#[test]
fn no_preflight_without_options() {
    let mut cache = RWCache::new();
    let actions = vec![action(20, 2, 2, 8, &["a.com", "a.com"], &[], leaf(1))];
    let r = RWRouter::plan_page(&page(2, "/x"), &actions, &mut cache);
    assert!(r.preflight.is_none());
    assert_eq!(r.routes[0].origin, vec!["a.com".to_string(), "a.com".to_string()]);
}

#[test]
fn preflight_origins_are_kept_once() {
    let mut cache = RWCache::new();
    let actions = vec![
        action(20, 2, 3, 8, &["a.com", "*b.com"], &[], leaf(1)),
        action(21, 2, 5, 8, &["a.com", "*b.com", "c.com"], &[], leaf(2)),
    ];
    let r = RWRouter::plan_page(&page(2, "/x"), &actions, &mut cache);
    let p = r.preflight.unwrap();
    assert_eq!(p.allow_method, 7);
    assert_eq!(p.allow_origin, vec!["a.com".to_string(), "c.com".to_string()]);
    assert_eq!(p.allow_sub_origin, vec!["b.com".to_string()]);
}

#[test]
fn guard_admits_an_allowed_request() {
    let mut cache = RWCache::new();
    let actions = sample_actions();
    let r = RWRouter::plan_page(&page(1, "/users"), &actions, &mut cache);
    let a = &r.routes[0];
    assert!(a.admits("POST", Some("application/json; charset=utf-8"), None, None, Some("http://example.com")));
    assert!(a.admits("GET", None, None, Some("api.example.org"), None));
    assert!(a.admits("POST", None, Some("0"), Some("api.example.org"), None));
}

#[test]
fn guard_refuses_other_requests() {
    let mut cache = RWCache::new();
    let actions = sample_actions();
    let r = RWRouter::plan_page(&page(1, "/users"), &actions, &mut cache);
    let a = &r.routes[0];
    assert!(!a.admits("PUT", None, None, Some("api.example.org"), None));
    assert!(!a.admits("OPTIONS", None, None, Some("api.example.org"), None));
    assert!(!a.admits("POST", Some("text/plain"), None, Some("api.example.org"), None));
    assert!(!a.admits("POST", Some("not a type"), None, Some("api.example.org"), None));
    assert!(!a.admits("POST", None, Some("12"), Some("api.example.org"), None));
    assert!(!a.admits("POST", None, None, Some("api.example.org"), None));
    assert!(!a.admits("GET", None, None, Some("example.com"), None));
    assert!(!a.admits("GET", None, None, None, None));
    assert!(!a.admits("GET", None, None, None, Some("evil.com")));
}

#[test]
fn guard_content_wildcards() {
    let mut cache = RWCache::new();
    let actions = sample_actions();
    let r = RWRouter::plan_page(&page(1, "/users"), &actions, &mut cache);
    let b = &r.routes[1];
    assert!(!b.admits("POST", Some("text/plain"), None, None, Some("https://static.com")));
    let actions = vec![action(30, 3, 4, 8, &["*"], &["*/*", "text/*"], leaf(1))];
    let r = RWRouter::plan_page(&page(3, "/y"), &actions, &mut cache);
    assert!(r.routes[0].admits("POST", Some("image/png"), None, None, Some("anything")));
}

#[test]
fn preflight_answers() {
    let mut cache = RWCache::new();
    let actions = sample_actions();
    let r = RWRouter::plan_page(&page(1, "/users"), &actions, &mut cache);
    let p = r.preflight.unwrap();
    let ok = p.answer(Some("https://a.example.org"), Some("POST"));
    assert!(ok.accepted);
    assert!(ok.echo_origin);
    assert_eq!(ok.allow_methods, Some("GET,POST".to_string()));
    let exact = p.answer(Some("example.com"), Some("GET"));
    assert!(exact.accepted);
    let bad_origin = p.answer(Some("https://evil.com"), Some("POST"));
    assert!(!bad_origin.accepted);
    assert!(!bad_origin.echo_origin);
    assert_eq!(bad_origin.allow_methods, Some("GET,POST".to_string()));
    let bad_method = p.answer(Some("example.com"), Some("DELETE"));
    assert!(!bad_method.accepted);
    assert!(bad_method.echo_origin);
    assert_eq!(bad_method.allow_methods, None);
    let not_a_method = p.answer(Some("example.com"), Some("PO ST"));
    assert_eq!(not_a_method.allow_methods, None);
    assert!(!p.answer(Some("example.com"), Some("")).accepted);
    assert!(!p.answer(None, Some("POST")).accepted);
    assert!(!p.answer(Some("example.com"), None).accepted);
}

#[test]
fn preflight_extension_method_stands_for_get() {
    let mut cache = RWCache::new();
    let actions = sample_actions();
    let r = RWRouter::plan_page(&page(1, "/users"), &actions, &mut cache);
    let p = r.preflight.unwrap();
    assert!(p.answer(Some("example.com"), Some("BREW")).accepted);
}

#[test]
fn queries() {
    assert_eq!(RWRouter::page_query(), "SELECT * FROM t_page ORDER BY path DESC");
    assert_eq!(
        RWRouter::action_query(&vec![3, -1, 20]),
        Some("SELECT * FROM t_action WHERE page IN (3,-1,20) ORDER BY page ASC, method ASC".to_string())
    );
    assert_eq!(RWRouter::action_query(&vec![]), None);
    assert_eq!(
        RWRouter::template_query(&vec![7]),
        Some("SELECT * FROM t_template WHERE id IN (7) ORDER BY id ASC".to_string())
    );
    assert_eq!(RWRouter::template_query(&vec![]), None);
}

#[test]
fn route_load_groups_actions_by_page() {
    let mut load = RouteLoad::new();
    load.add_page(page(2, "/b"));
    load.add_page(page(1, "/a"));
    assert_eq!(load.page_ids, vec![2, 1]);
    for a in sample_actions() {
        load.add_action(a);
    }
    load.add_action(action(40, 2, 2, 8, &[], &[], TemplateTree::new(Some(7), None, Some(Box::new(leaf(8))), None)));
    assert_eq!(load.actions.get(&1).unwrap().iter().map(|a| a.id).collect::<Vec<_>>(), vec![10, 11, 12]);
    assert_eq!(load.actions.get(&2).unwrap().len(), 1);
    let mut ids = load.template_ids.clone();
    ids.sort();
    assert_eq!(ids, vec![7, 8, 100, 101, 102]);
}

#[test]
fn plan_routes_the_pages_with_actions() {
    let pages = vec![page(2, "/b"), page(1, "/a"), page(3, "/c")];
    let mut actions = HashMap::new();
    actions.insert(1, sample_actions());
    actions.insert(3, vec![action(30, 3, 2, 8, &["c.com"], &[], leaf(300))]);
    let mut templates = HashMap::new();
    templates.insert(100, template(100));
    let (routes, cache) = RWRouter::plan(&pages, &actions, templates);
    assert_eq!(routes.iter().map(|r| r.path.clone()).collect::<Vec<_>>(), vec!["/a", "/c"]);
    assert_eq!(routes[0].routes.len(), 2);
    assert!(routes[1].preflight.is_none());
    assert_eq!(cache.get_template(&100).unwrap().id, 100);
    assert_eq!(cache.get_tree(&30).unwrap().id(), Some(300));
    assert!(cache.get_auth(&11).is_none());
}

#[test]
fn planned_trees_refer_to_loaded_templates() {
    let mut load = RouteLoad::new();
    load.add_page(page(1, "/a"));
    let nested = TemplateTree::new(Some(7), None, Some(Box::new(leaf(8))), Some(Box::new(leaf(9))));
    load.add_action(action(50, 1, 2, 8, &["a.com"], &[], nested));
    load.add_action(action(51, 1, 2, 1, &["a.com"], &[], leaf(60)));
    let (_, cache) = RWRouter::plan(&load.pages, &load.actions, HashMap::new());
    let ids = cache.get_tree(&50).unwrap().id_list();
    for id in ids {
        assert!(load.template_ids.contains(&id));
    }
    assert!(cache.get_tree(&51).is_none());
}
