use std::collections::HashMap;
use std::collections::HashSet;
use r_webservice::module::sub::{TemplateTree, Auth};
use r_webservice::module::ChildTemplate;

fn leaf(id: i64) -> TemplateTree {
    TemplateTree::new(Some(id), None, None, None)
}

#[test]
fn tree_accessors() {
    let mut opts = HashMap::new();
    opts.insert(1, 10);
    let t = TemplateTree::new(Some(1), Some(opts), Some(Box::new(leaf(2))), Some(Box::new(leaf(3))));
    assert_eq!(t.id(), Some(1));
    assert_eq!(t.option().unwrap().get(&1), Some(&10));
    assert_eq!(t.success().unwrap().id(), Some(2));
    assert_eq!(t.fail().unwrap().id(), Some(3));
    assert!(leaf(4).success().is_none());
    assert!(leaf(4).fail().is_none());
}

#[test]
fn id_list_holds_every_template_once() {
    let mut opts = HashMap::new();
    opts.insert(1, 5);
    opts.insert(2, 2);
    let inner = TemplateTree::new(Some(5), None, Some(Box::new(leaf(2))), None);
    let t = TemplateTree::new(Some(2), Some(opts), Some(Box::new(inner)), Some(Box::new(leaf(9))));
    let ids = t.id_list();
    let set: HashSet<i64> = ids.iter().copied().collect();
    assert_eq!(ids.len(), set.len());
    assert_eq!(set, [2, 5, 9].into_iter().collect());
}

#[test]
fn a_tree_without_template_refers_to_nothing() {
    let t = TemplateTree::new(None, None, Some(Box::new(leaf(1))), None);
    assert!(t.id_list().is_empty());
}

#[test]
fn duplicate_keeps_the_tree() {
    let t = TemplateTree::new(Some(1), None, Some(Box::new(leaf(2))), Some(Box::new(leaf(3))));
    let d = t.duplicate();
    assert_eq!(d.id(), Some(1));
    assert_eq!(d.success().unwrap().id(), Some(2));
    assert_eq!(d.fail().unwrap().id(), Some(3));
    assert_eq!(d.id_list().len(), 3);
}

#[test]
fn auth_keeps_its_settings() {
    let a = Auth::new(Auth::AUTH_TYPE_GROUP, vec![3, 4]);
    assert_eq!(a.mode(), 1);
    assert_eq!(a.item(), &vec![3, 4]);
}

#[test]
fn child_template_ids() {
    assert_eq!(ChildTemplate::new(1, None, Some(2), Some(3)).id_list(), vec![1, 2, 3]);
    assert_eq!(ChildTemplate::new(1, Some(2), None, Some(3)).id_list(), vec![1, 3]);
    assert_eq!(ChildTemplate::new(4, None, None, None).id_list(), vec![4]);
}
