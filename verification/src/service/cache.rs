use vstd::prelude::*;

use std::collections::HashMap;

use crate::types::flags::UDbId;
use crate::module::Template;
use crate::module::sub::{Auth, TemplateTree};

verus! {

broadcast use vstd::std_specs::hash::group_hash_axioms;

/// What the service keeps in memory after routing: the auth settings and the
/// template trees of the actions, and the templates, each by id.
#[derive(Debug)]
pub struct RWCache {
    auth: HashMap<UDbId, Auth>,
    tree: HashMap<UDbId, TemplateTree>,
    template: HashMap<UDbId, Template>,
}

impl RWCache {
    /// The auth settings, by action id.
    pub closed spec fn spec_auth(&self) -> Map<UDbId, Auth> {
        self.auth@
    }

    /// The template trees, by action id.
    pub closed spec fn spec_tree(&self) -> Map<UDbId, TemplateTree> {
        self.tree@
    }

    /// The templates, by template id.
    pub closed spec fn spec_template(&self) -> Map<UDbId, Template> {
        self.template@
    }

    /// An empty cache.
    pub fn new() -> (r: Self)
        ensures
            r.spec_auth() == Map::<UDbId, Auth>::empty(),
            r.spec_tree() == Map::<UDbId, TemplateTree>::empty(),
            r.spec_template() == Map::<UDbId, Template>::empty(),
    {
        RWCache { auth: HashMap::new(), tree: HashMap::new(), template: HashMap::new() }
    }

    /// Keeps `auth` for the action `key`, in place of what was kept for it.
    pub fn insert_auth(&mut self, key: &UDbId, auth: Auth) -> (r: &mut Self)
        ensures
            r.spec_auth() == old(self).spec_auth().insert(*key, auth),
            r.spec_tree() == old(self).spec_tree(),
            r.spec_template() == old(self).spec_template(),
            *final(self) == *final(r),
    {
        self.auth.insert(*key, auth);
        self
    }

    /// Keeps `tree` for the action `key`, in place of what was kept for it.
    pub fn insert_tree(&mut self, key: &UDbId, tree: TemplateTree) -> (r: &mut Self)
        ensures
            r.spec_tree() == old(self).spec_tree().insert(*key, tree),
            r.spec_auth() == old(self).spec_auth(),
            r.spec_template() == old(self).spec_template(),
            *final(self) == *final(r),
    {
        self.tree.insert(*key, tree);
        self
    }

    /// Keeps `template` under the id `key`, in place of what was kept for it.
    pub fn insert_template(&mut self, key: &UDbId, template: Template) -> (r: &mut Self)
        ensures
            r.spec_template() == old(self).spec_template().insert(*key, template),
            r.spec_auth() == old(self).spec_auth(),
            r.spec_tree() == old(self).spec_tree(),
            *final(self) == *final(r),
    {
        self.template.insert(*key, template);
        self
    }

    /// Replaces every auth setting by those of `auth`.
    pub fn set_auth(&mut self, auth: HashMap<UDbId, Auth>) -> (r: &mut Self)
        ensures
            r.spec_auth() == auth@,
            r.spec_tree() == old(self).spec_tree(),
            r.spec_template() == old(self).spec_template(),
            *final(self) == *final(r),
    {
        self.auth = auth;
        self
    }

    /// Replaces every template tree by those of `tree`.
    pub fn set_tree(&mut self, tree: HashMap<UDbId, TemplateTree>) -> (r: &mut Self)
        ensures
            r.spec_tree() == tree@,
            r.spec_auth() == old(self).spec_auth(),
            r.spec_template() == old(self).spec_template(),
            *final(self) == *final(r),
    {
        self.tree = tree;
        self
    }

    /// Replaces every template by those of `template`.
    pub fn set_template(&mut self, template: HashMap<UDbId, Template>) -> (r: &mut Self)
        ensures
            r.spec_template() == template@,
            r.spec_auth() == old(self).spec_auth(),
            r.spec_tree() == old(self).spec_tree(),
            *final(self) == *final(r),
    {
        self.template = template;
        self
    }

    /// The auth setting kept for the action `id`, if any.
    pub fn get_auth(&self, id: &UDbId) -> (r: Option<&Auth>)
        ensures
            match r {
                Some(a) => self.spec_auth().contains_key(*id) && *a == self.spec_auth()[*id],
                None => !self.spec_auth().contains_key(*id),
            },
    {
        self.auth.get(id)
    }

    /// The template tree kept for the action `id`, if any.
    pub fn get_tree(&self, id: &UDbId) -> (r: Option<&TemplateTree>)
        ensures
            match r {
                Some(t) => self.spec_tree().contains_key(*id) && *t == self.spec_tree()[*id],
                None => !self.spec_tree().contains_key(*id),
            },
    {
        self.tree.get(id)
    }

    /// The template kept under the id `id`, if any.
    pub fn get_template(&self, id: &UDbId) -> (r: Option<&Template>)
        ensures
            match r {
                Some(t) => self.spec_template().contains_key(*id) && *t == self.spec_template()[*id],
                None => !self.spec_template().contains_key(*id),
            },
    {
        self.template.get(id)
    }
}

/// What is read back after a write: once `insert_auth`, `insert_tree` or
/// `insert_template` keeps a value under a key, the matching getter gives back
/// that value for that key, and for every other key what it gave before.
pub proof fn lemma_cache_read_after_write(
    c: RWCache,
    key: UDbId,
    other: UDbId,
    auth: Auth,
    tree: TemplateTree,
    template: Template,
)
    requires
        other != key,
    ensures
        c.spec_auth().insert(key, auth).contains_key(key),
        c.spec_auth().insert(key, auth)[key] == auth,
        c.spec_auth().insert(key, auth).contains_key(other) == c.spec_auth().contains_key(other),
        c.spec_auth().contains_key(other) ==> c.spec_auth().insert(key, auth)[other] == c.spec_auth()[other],
        c.spec_tree().insert(key, tree).contains_key(key),
        c.spec_tree().insert(key, tree)[key] == tree,
        c.spec_tree().insert(key, tree).contains_key(other) == c.spec_tree().contains_key(other),
        c.spec_tree().contains_key(other) ==> c.spec_tree().insert(key, tree)[other] == c.spec_tree()[other],
        c.spec_template().insert(key, template).contains_key(key),
        c.spec_template().insert(key, template)[key] == template,
        c.spec_template().insert(key, template).contains_key(other) == c.spec_template().contains_key(other),
        c.spec_template().contains_key(other) ==> c.spec_template().insert(key, template)[other] == c.spec_template()[other],
{
}

} // verus!
