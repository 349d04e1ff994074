use vstd::prelude::*;

use std::collections::HashMap;

use crate::types::flags::{UDbId, IDbNo};

verus! {

broadcast use vstd::std_specs::hash::group_hash_axioms;

/// The templates an action runs: a template, its options, and the trees to
/// go on with when it succeeds and when it fails.
#[derive(Debug)]
pub struct TemplateTree {
    id: Option<UDbId>,
    option: Option<HashMap<IDbNo, UDbId>>,
    success: Option<Box<TemplateTree>>,
    fail: Option<Box<TemplateTree>>,
}

/// The template ids that a tree refers to: none when the tree has no
/// template; else its template, the ids of its options and the ids of both
/// of its subtrees.
pub open spec fn tree_ids(t: TemplateTree) -> Set<UDbId>
    decreases t,
{
    match t.spec_id() {
        None => Set::empty(),
        Some(id) => {
            let own = match t.spec_option() {
                Some(m) => m.values(),
                None => Set::empty(),
            };
            let s = match t.spec_success() {
                Some(c) => tree_ids(c),
                None => Set::empty(),
            };
            let f = match t.spec_fail() {
                Some(c) => tree_ids(c),
                None => Set::empty(),
            };
            Set::empty().insert(id) + own + s + f
        },
    }
}

/// Whether two trees hold the same templates and options, node for node.
pub open spec fn same_tree(a: TemplateTree, b: TemplateTree) -> bool
    decreases a,
{
    &&& a.spec_id() == b.spec_id()
    &&& a.spec_option() == b.spec_option()
    &&& match (a.spec_success(), b.spec_success()) {
        (Some(x), Some(y)) => same_tree(x, y),
        (None, None) => true,
        _ => false,
    }
    &&& match (a.spec_fail(), b.spec_fail()) {
        (Some(x), Some(y)) => same_tree(x, y),
        (None, None) => true,
        _ => false,
    }
}

/// Trees that hold the same templates and options refer to the same template ids.
pub proof fn lemma_same_tree_ids(a: TemplateTree, b: TemplateTree)
    requires
        same_tree(a, b),
    ensures
        tree_ids(a) == tree_ids(b),
    decreases a,
{
    if let (Some(x), Some(y)) = (a.spec_success(), b.spec_success()) {
        lemma_same_tree_ids(x, y);
    }
    if let (Some(x), Some(y)) = (a.spec_fail(), b.spec_fail()) {
        lemma_same_tree_ids(x, y);
    }
}

/// Adds `x` to the ids in `v` unless it is there already.
fn push_unique(v: &mut Vec<UDbId>, x: UDbId)
    requires
        old(v)@.no_duplicates(),
    ensures
        final(v)@.no_duplicates(),
        final(v)@.to_set() == old(v)@.to_set().insert(x),
{
    let mut i: usize = 0;
    while i < v.len()
        invariant
            i <= v@.len(),
            v@ == old(v)@,
            v@.no_duplicates(),
            forall|k: int| 0 <= k < i ==> v@[k] != x,
        decreases v@.len() - i,
    {
        if v[i] == x {
            assert(v@.to_set().contains(x));
            assert(v@.to_set().insert(x) =~= v@.to_set());
            return;
        }
        i = i + 1;
    }
    let ghost before = v@;
    v.push(x);
    assert(v@.to_set() =~= before.to_set().insert(x)) by {
        assert forall|y: UDbId| v@.to_set().contains(y) implies before.to_set().insert(x).contains(y) by {
            let k = choose|k: int| 0 <= k < v@.len() && v@[k] == y;
            if k < before.len() {
                assert(before[k] == y);
            }
        }
        assert forall|y: UDbId| before.to_set().insert(x).contains(y) implies v@.to_set().contains(y) by {
            if y == x {
                assert(v@[before.len() as int] == x);
            } else {
                let k = choose|k: int| 0 <= k < before.len() && before[k] == y;
                assert(v@[k] == y);
            }
        }
    }
}

/// Adds every id of `xs` to `v` that is not there already.
fn push_all_unique(v: &mut Vec<UDbId>, xs: &Vec<UDbId>)
    requires
        old(v)@.no_duplicates(),
    ensures
        final(v)@.no_duplicates(),
        final(v)@.to_set() == old(v)@.to_set() + xs@.to_set(),
{
    let ghost start = v@.to_set();
    let mut i: usize = 0;
    while i < xs.len()
        invariant
            i <= xs@.len(),
            v@.no_duplicates(),
            v@.to_set() == start + xs@.take(i as int).to_set(),
        decreases xs@.len() - i,
    {
        push_unique(v, xs[i]);
        assert(xs@.take(i as int + 1).to_set() =~= xs@.take(i as int).to_set().insert(xs@[i as int])) by {
            assert(xs@.take(i as int + 1) =~= xs@.take(i as int).push(xs@[i as int]));
            xs@.take(i as int).lemma_push_to_set_commute(xs@[i as int]);
        }
        assert(v@.to_set() =~= start + xs@.take(i as int + 1).to_set());
        i = i + 1;
    }
    assert(xs@.take(xs@.len() as int) =~= xs@);
}

impl TemplateTree {
    /// The template of this node.
    pub closed spec fn spec_id(self) -> Option<UDbId> {
        self.id
    }

    /// The options of this node, from option number to template id.
    pub closed spec fn spec_option(self) -> Option<Map<IDbNo, UDbId>> {
        match self.option {
            Some(m) => Some(m@),
            None => None,
        }
    }

    /// The tree to go on with when this node's template succeeds.
    pub closed spec fn spec_success(self) -> Option<TemplateTree> {
        match self.success {
            Some(b) => Some(*b),
            None => None,
        }
    }

    /// The tree to go on with when this node's template fails.
    pub closed spec fn spec_fail(self) -> Option<TemplateTree> {
        match self.fail {
            Some(b) => Some(*b),
            None => None,
        }
    }

    /// A node with template `id`, options `option`, and the trees for success and failure.
    pub fn new(
        id: Option<UDbId>,
        option: Option<HashMap<IDbNo, UDbId>>,
        success: Option<Box<TemplateTree>>,
        fail: Option<Box<TemplateTree>>,
    ) -> (r: Self)
        ensures
            r.spec_id() == id,
            r.spec_option() == (match option { Some(m) => Some(m@), None => None::<Map<IDbNo, UDbId>> }),
            r.spec_success() == (match success { Some(b) => Some(*b), None => None::<TemplateTree> }),
            r.spec_fail() == (match fail { Some(b) => Some(*b), None => None::<TemplateTree> }),
    {
        TemplateTree { id, option, success, fail }
    }

    /// The template of this node.
    pub fn id(&self) -> (r: Option<UDbId>)
        ensures
            r == self.spec_id(),
    {
        self.id
    }

    /// A copy of the options of this node.
    pub fn option(&self) -> (r: Option<HashMap<IDbNo, UDbId>>)
        ensures
            match r {
                Some(m) => self.spec_option() == Some(m@),
                None => self.spec_option() is None,
            },
    {
        match &self.option {
            Some(m) => Some(m.clone()),
            None => None,
        }
    }

    /// The tree to go on with when this node's template succeeds.
    pub fn success(&self) -> (r: Option<&Self>)
        ensures
            match r {
                Some(t) => self.spec_success() == Some(*t),
                None => self.spec_success() is None,
            },
    {
        match &self.success {
            Some(s) => Some(&**s),
            None => None,
        }
    }

    /// The tree to go on with when this node's template fails.
    pub fn fail(&self) -> (r: Option<&Self>)
        ensures
            match r {
                Some(t) => self.spec_fail() == Some(*t),
                None => self.spec_fail() is None,
            },
    {
        match &self.fail {
            Some(s) => Some(&**s),
            None => None,
        }
    }

    /// A copy of this tree.
    pub fn duplicate(&self) -> (r: TemplateTree)
        ensures
            same_tree(r, *self),
        decreases self,
    {
        let option = match &self.option {
            Some(m) => Some(m.clone()),
            None => None,
        };
        let success = match &self.success {
            Some(c) => Some(Box::new(c.duplicate())),
            None => None,
        };
        let fail = match &self.fail {
            Some(c) => Some(Box::new(c.duplicate())),
            None => None,
        };
        TemplateTree { id: self.id, option, success, fail }
    }

    /// Every template id that this tree refers to, each once (in no promised order).
    pub fn id_list(&self) -> (r: Vec<UDbId>)
        ensures
            r@.no_duplicates(),
            r@.to_set() == tree_ids(*self),
        decreases self,
    {
        let mut ids: Vec<UDbId> = Vec::new();
        if let Some(id) = self.id {
            push_unique(&mut ids, id);
            assert(ids@.to_set() =~= Set::empty().insert(id));
            let ghost own = match self.spec_option() {
                Some(m) => m.values(),
                None => Set::empty(),
            };
            if let Some(map) = &self.option {
                let ghost start = ids@.to_set();
                let ghost mut seen: Seq<UDbId> = Seq::empty();
                let vals = map.values();
                proof {
                    assert(vstd::std_specs::iter::IteratorSpec::remaining(&vals).unref().to_set() == map@.values());
                }
                for v in it: vals
                    invariant
                        ids@.no_duplicates(),
                        seen == it.seq().take(it.index() as int).unref(),
                        it.index() == it.seq().len() ==> seen == it.seq().unref(),
                        it.seq().unref().to_set() == map@.values(),
                        ids@.to_set() == start + seen.to_set(),
                {
                    push_unique(&mut ids, *v);
                    proof {
                        assert(it.seq().take(it.index() as int + 1).unref() =~= seen.push(*v));
                        seen.lemma_push_to_set_commute(*v);
                        seen = seen.push(*v);
                        assert(it.seq().take(it.seq().len() as int) =~= it.seq());
                    }
                }
                assert(ids@.to_set() =~= Set::empty().insert(id) + own);
            } else {
                assert(ids@.to_set() =~= Set::empty().insert(id) + own);
            }
            let ghost s = match self.spec_success() {
                Some(c) => tree_ids(c),
                None => Set::empty(),
            };
            let ghost f = match self.spec_fail() {
                Some(c) => tree_ids(c),
                None => Set::empty(),
            };
            if let Some(child) = &self.success {
                let c = child.id_list();
                push_all_unique(&mut ids, &c);
            }
            assert(ids@.to_set() =~= Set::empty().insert(id) + own + s);
            if let Some(child) = &self.fail {
                let c = child.id_list();
                push_all_unique(&mut ids, &c);
            }
            assert(ids@.to_set() =~= Set::empty().insert(id) + own + s + f);
        } else {
            assert(ids@.to_set() =~= Set::<UDbId>::empty());
        }
        ids
    }
}

} // verus!
