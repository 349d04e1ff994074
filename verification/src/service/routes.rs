//! Routing: which routes a page gets from its actions, what the route guard
//! admits, how a preflight request is answered, and the queries that load
//! the records routing starts from.

use vstd::prelude::*;

use std::collections::HashMap;

use crate::text::{views_of, has_suffix, join_with, join_strings, integer_text, decimal_text, starts_with_char, rest_after_first, to_owned_string, str_equal, ends_with};
use crate::types::flags::{UDbId, UDbFlg, flag_has, selected_flags};
use crate::types::method::{Method, method_bits, method_flags, method_of_name, name_of_method};
use crate::types::data_format::{DataFormat, data_format_flags};
use crate::module::{Page, Action, Template};
use crate::module::sub::{Auth, TemplateTree};
use crate::module::sub::template_tree::{same_tree, tree_ids, lemma_same_tree_ids};
use crate::service::cache::RWCache;
use crate::service::media::{mime_parts, parse_mime, is_method_name};

verus! {

broadcast use vstd::std_specs::hash::group_hash_axioms;

/// The routing of the service, built once from the stored pages and actions.
pub struct RWRouter();

/// The origins of an action that are named exactly: those not starting with `*`, in order.
pub open spec fn exact_origins(origins: Seq<String>) -> Seq<Seq<char>>
    decreases origins.len(),
{
    if origins.len() == 0 {
        Seq::empty()
    } else {
        let rest = exact_origins(origins.drop_last());
        let o = origins.last()@;
        if o.len() > 0 && o[0] == '*' {
            rest
        } else {
            rest.push(o)
        }
    }
}

/// The domain suffixes of an action: the origins starting with `*`, without it, in order.
pub open spec fn sub_origins(origins: Seq<String>) -> Seq<Seq<char>>
    decreases origins.len(),
{
    if origins.len() == 0 {
        Seq::empty()
    } else {
        let rest = sub_origins(origins.drop_last());
        let o = origins.last()@;
        if o.len() > 0 && o[0] == '*' {
            rest.push(o.drop_first())
        } else {
            rest
        }
    }
}

/// The media types an action accepts: the type and subtype of each content
/// entry that parses as a media type, in order; the others are left out.
pub open spec fn parsed_contents(content: Seq<String>) -> Seq<(Seq<char>, Seq<char>)>
    decreases content.len(),
{
    if content.len() == 0 {
        Seq::empty()
    } else {
        let rest = parsed_contents(content.drop_last());
        match mime_parts(content.last()@) {
            Some(p) => rest.push(p),
            None => rest,
        }
    }
}

/// The views of a sequence of string pairs.
pub open spec fn pair_views(v: Seq<(String, String)>) -> Seq<(Seq<char>, Seq<char>)> {
    v.map_values(|p: (String, String)| (p.0@, p.1@))
}

/// The route of one action of a page.
#[derive(Debug)]
pub struct ActionRoute {
    pub page_id: UDbId,
    pub action_id: UDbId,
    /// The methods the route answers (OPTIONS is answered by the preflight route).
    pub methods: Vec<Method>,
    /// The media types the route accepts, as type and subtype.
    pub content: Vec<(String, String)>,
    /// The origins the route admits by name.
    pub origin: Vec<String>,
    /// The domain suffixes the route admits.
    pub sub_origin: Vec<String>,
    /// Whether the route serves static files.
    pub is_static: bool,
}

/// The methods an action's route answers: those of its flags but OPTIONS.
pub open spec fn route_method_bits(method: UDbFlg) -> Seq<i64> {
    selected_flags(method & !Method::METHOD_TYPE_OPTIONS, method_flags())
}

/// Whether `r` is the route of the action `a` of the page `page_id`.
pub open spec fn route_of(r: ActionRoute, page_id: UDbId, a: Action) -> bool {
    &&& r.page_id == page_id
    &&& r.action_id == a.id
    &&& method_bits(r.methods@) == route_method_bits(a.method)
    &&& pair_views(r.content@) == parsed_contents(a.content@)
    &&& views_of(r.origin@) == exact_origins(a.origin@)
    &&& views_of(r.sub_origin@) == sub_origins(a.origin@)
    &&& r.is_static == flag_has(a.format, DataFormat::DATA_FORMAT_STATIC)
}

/// Whether `x` is the auth setting kept for the action `a`: a group check over its ids.
pub open spec fn auth_for(x: Auth, a: Action) -> bool {
    x.spec_mode() == Auth::AUTH_TYPE_GROUP && x.spec_item() == a.auth@
}

/// Whether the cache `after` is `before` with the action `a` kept: an action
/// with a positive method keeps its auth setting, and its template tree unless
/// it serves static files; any other action leaves the cache as it was.
pub open spec fn keeps_action(before: RWCache, after: RWCache, a: Action) -> bool {
    &&& after.spec_template() == before.spec_template()
    &&& if a.method > 0 {
        &&& after.spec_auth().dom() == before.spec_auth().dom().insert(a.id)
        &&& auth_for(after.spec_auth()[a.id], a)
        &&& forall|k: UDbId| k != a.id && #[trigger] before.spec_auth().contains_key(k)
            ==> after.spec_auth()[k] == before.spec_auth()[k]
        &&& if flag_has(a.format, DataFormat::DATA_FORMAT_STATIC) {
            after.spec_tree() == before.spec_tree()
        } else {
            &&& after.spec_tree().dom() == before.spec_tree().dom().insert(a.id)
            &&& same_tree(after.spec_tree()[a.id], a.template)
            &&& forall|k: UDbId| k != a.id && #[trigger] before.spec_tree().contains_key(k)
                ==> after.spec_tree()[k] == before.spec_tree()[k]
        }
    } else {
        &&& after.spec_auth() == before.spec_auth()
        &&& after.spec_tree() == before.spec_tree()
    }
}

/// The last action of `actions` with a positive method and the id `id`.
pub open spec fn last_routed(actions: Seq<Action>, id: UDbId) -> Option<Action>
    decreases actions.len(),
{
    if actions.len() == 0 {
        None
    } else if actions.last().method > 0 && actions.last().id == id {
        Some(actions.last())
    } else {
        last_routed(actions.drop_last(), id)
    }
}

/// The last action of `actions` with a positive method, the id `id`, and a
/// format that is not static.
pub open spec fn last_tree_action(actions: Seq<Action>, id: UDbId) -> Option<Action>
    decreases actions.len(),
{
    if actions.len() == 0 {
        None
    } else if actions.last().method > 0 && actions.last().id == id
        && !flag_has(actions.last().format, DataFormat::DATA_FORMAT_STATIC) {
        Some(actions.last())
    } else {
        last_tree_action(actions.drop_last(), id)
    }
}

/// Whether the cache `after` is `before` with the actions kept one after the
/// other: the templates are as they were; under the id of a routed action
/// stands the auth setting of the last routed action with that id, and the
/// template tree of the last routed action with that id that does not serve
/// static files; every other entry is as it was.
pub open spec fn keeps_actions(before: RWCache, after: RWCache, actions: Seq<Action>) -> bool {
    &&& after.spec_template() == before.spec_template()
    &&& forall|k: UDbId| #[trigger] after.spec_auth().contains_key(k)
        <==> (before.spec_auth().contains_key(k) || last_routed(actions, k) is Some)
    &&& forall|k: UDbId| #[trigger] after.spec_auth().contains_key(k) ==> match last_routed(actions, k) {
        Some(a) => auth_for(after.spec_auth()[k], a),
        None => after.spec_auth()[k] == before.spec_auth()[k],
    }
    &&& forall|k: UDbId| #[trigger] after.spec_tree().contains_key(k)
        <==> (before.spec_tree().contains_key(k) || last_tree_action(actions, k) is Some)
    &&& forall|k: UDbId| #[trigger] after.spec_tree().contains_key(k) ==> match last_tree_action(actions, k) {
        Some(a) => same_tree(after.spec_tree()[k], a.template),
        None => after.spec_tree()[k] == before.spec_tree()[k],
    }
}

/// Keeping one more action after a run of them is keeping the longer run.
proof fn lemma_keeps_step(start: RWCache, before: RWCache, after: RWCache, actions: Seq<Action>)
    requires
        actions.len() > 0,
        keeps_actions(start, before, actions.drop_last()),
        keeps_action(before, after, actions.last()),
    ensures
        keeps_actions(start, after, actions),
{
    let a = actions.last();
    let prefix = actions.drop_last();
    assert forall|k: UDbId| #[trigger] after.spec_auth().contains_key(k)
        <==> (start.spec_auth().contains_key(k) || last_routed(actions, k) is Some) by {
        if a.method > 0 {
            assert(after.spec_auth().dom().contains(k) == before.spec_auth().dom().insert(a.id).contains(k));
        }
    }
    assert forall|k: UDbId| #[trigger] after.spec_auth().contains_key(k) implies match last_routed(actions, k) {
        Some(x) => auth_for(after.spec_auth()[k], x),
        None => after.spec_auth()[k] == start.spec_auth()[k],
    } by {
        if a.method > 0 {
            assert(after.spec_auth().dom().contains(k) == before.spec_auth().dom().insert(a.id).contains(k));
        }
    }
    assert forall|k: UDbId| #[trigger] after.spec_tree().contains_key(k)
        <==> (start.spec_tree().contains_key(k) || last_tree_action(actions, k) is Some) by {
        if a.method > 0 && !flag_has(a.format, DataFormat::DATA_FORMAT_STATIC) {
            assert(after.spec_tree().dom().contains(k) == before.spec_tree().dom().insert(a.id).contains(k));
        }
    }
    assert forall|k: UDbId| #[trigger] after.spec_tree().contains_key(k) implies match last_tree_action(actions, k) {
        Some(x) => same_tree(after.spec_tree()[k], x.template),
        None => after.spec_tree()[k] == start.spec_tree()[k],
    } by {
        if a.method > 0 && !flag_has(a.format, DataFormat::DATA_FORMAT_STATIC) {
            assert(after.spec_tree().dom().contains(k) == before.spec_tree().dom().insert(a.id).contains(k));
        }
    }
}

/// A copy of a list of ids.
fn copy_ids(v: &Vec<UDbId>) -> (r: Vec<UDbId>)
    ensures
        r@ == v@,
{
    let mut r: Vec<UDbId> = Vec::new();
    let mut i: usize = 0;
    while i < v.len()
        invariant
            i <= v@.len(),
            r@ == v@.take(i as int),
        decreases v@.len() - i,
    {
        r.push(v[i]);
        assert(v@.take(i as int + 1) =~= v@.take(i as int).push(v@[i as int]));
        i = i + 1;
    }
    assert(v@.take(v@.len() as int) =~= v@);
    r
}

/// The exact origins and the domain suffixes of a list of origins.
fn split_origins(origins: &Vec<String>) -> (r: (Vec<String>, Vec<String>))
    ensures
        views_of(r.0@) == exact_origins(origins@),
        views_of(r.1@) == sub_origins(origins@),
{
    let mut exact: Vec<String> = Vec::new();
    let mut sub: Vec<String> = Vec::new();
    let mut i: usize = 0;
    while i < origins.len()
        invariant
            i <= origins@.len(),
            views_of(exact@) == exact_origins(origins@.take(i as int)),
            views_of(sub@) == sub_origins(origins@.take(i as int)),
        decreases origins@.len() - i,
    {
        let o = origins[i].as_str();
        assert(origins@.take(i as int + 1).drop_last() =~= origins@.take(i as int));
        assert(origins@.take(i as int + 1).last() == origins@[i as int]);
        if starts_with_char(o, '*') {
            sub.push(rest_after_first(o));
            assert(views_of(sub@) =~= views_of(sub@.drop_last()).push(sub@.last()@));
        } else {
            exact.push(to_owned_string(o));
            assert(views_of(exact@) =~= views_of(exact@.drop_last()).push(exact@.last()@));
        }
        i = i + 1;
    }
    assert(origins@.take(origins@.len() as int) =~= origins@);
    (exact, sub)
}

/// The media types among the content entries, parsed.
fn parse_contents(content: &Vec<String>) -> (r: Vec<(String, String)>)
    ensures
        pair_views(r@) == parsed_contents(content@),
{
    let mut out: Vec<(String, String)> = Vec::new();
    let mut i: usize = 0;
    while i < content.len()
        invariant
            i <= content@.len(),
            pair_views(out@) == parsed_contents(content@.take(i as int)),
        decreases content@.len() - i,
    {
        assert(content@.take(i as int + 1).drop_last() =~= content@.take(i as int));
        assert(content@.take(i as int + 1).last() == content@[i as int]);
        match parse_mime(content[i].as_str()) {
            Some(p) => {
                out.push(p);
                assert(pair_views(out@) =~= pair_views(out@.drop_last()).push((out@.last().0@, out@.last().1@)));
            },
            None => {},
        }
        i = i + 1;
    }
    assert(content@.take(content@.len() as int) =~= content@);
    out
}

/// The preflight route of a page.
#[derive(Debug)]
pub struct PreflightRoute {
    /// The method flags of all the page's routed actions together.
    pub allow_method: UDbFlg,
    /// The origins a preflight request may come from, each once.
    pub allow_origin: Vec<String>,
    /// The domain suffixes a preflight request may come from, each once.
    pub allow_sub_origin: Vec<String>,
}

/// The routes of a page.
#[derive(Debug)]
pub struct PageRoutes {
    /// The path of the page.
    pub path: String,
    /// The routes of the page's actions with a positive method, in order.
    pub routes: Vec<ActionRoute>,
    /// The preflight route, where some routed action allows OPTIONS.
    pub preflight: Option<PreflightRoute>,
}

/// The actions that get a route: those with a positive method, in order.
pub open spec fn routed(actions: Seq<Action>) -> Seq<Action>
    decreases actions.len(),
{
    if actions.len() == 0 {
        Seq::empty()
    } else {
        let rest = routed(actions.drop_last());
        if actions.last().method > 0 {
            rest.push(actions.last())
        } else {
            rest
        }
    }
}

/// The method flags of the routed actions, or-ed together.
pub open spec fn allow_method_of(actions: Seq<Action>) -> UDbFlg
    decreases actions.len(),
{
    if actions.len() == 0 {
        0
    } else {
        let rest = allow_method_of(actions.drop_last());
        if actions.last().method > 0 {
            rest | actions.last().method
        } else {
            rest
        }
    }
}

/// Whether an action counts for the preflight: it is routed and allows OPTIONS.
pub open spec fn allows_preflight(a: Action) -> bool {
    a.method > 0 && flag_has(a.method, Method::METHOD_TYPE_OPTIONS)
}

/// The exact origins of the actions that count for the preflight.
pub open spec fn allow_origin_of(actions: Seq<Action>) -> Set<Seq<char>>
    decreases actions.len(),
{
    if actions.len() == 0 {
        Set::empty()
    } else {
        let rest = allow_origin_of(actions.drop_last());
        if allows_preflight(actions.last()) {
            rest + exact_origins(actions.last().origin@).to_set()
        } else {
            rest
        }
    }
}

/// The domain suffixes of the actions that count for the preflight.
pub open spec fn allow_sub_origin_of(actions: Seq<Action>) -> Set<Seq<char>>
    decreases actions.len(),
{
    if actions.len() == 0 {
        Set::empty()
    } else {
        let rest = allow_sub_origin_of(actions.drop_last());
        if allows_preflight(actions.last()) {
            rest + sub_origins(actions.last().origin@).to_set()
        } else {
            rest
        }
    }
}

/// Whether `r` is the preflight route of a page with the actions `actions`:
/// present exactly when the or-ed method flags allow OPTIONS, with those flags
/// and the origins and suffixes of the actions that allow OPTIONS, each once.
pub open spec fn preflight_of(r: Option<PreflightRoute>, actions: Seq<Action>) -> bool {
    match r {
        Some(p) => {
            &&& flag_has(allow_method_of(actions), Method::METHOD_TYPE_OPTIONS)
            &&& p.allow_method == allow_method_of(actions)
            &&& views_of(p.allow_origin@).no_duplicates()
            &&& views_of(p.allow_origin@).to_set() == allow_origin_of(actions)
            &&& views_of(p.allow_sub_origin@).no_duplicates()
            &&& views_of(p.allow_sub_origin@).to_set() == allow_sub_origin_of(actions)
        },
        None => !flag_has(allow_method_of(actions), Method::METHOD_TYPE_OPTIONS),
    }
}

/// Adds `s` to the strings of `v` unless one with the same text is there.
fn insert_text(v: &mut Vec<String>, s: &String)
    requires
        views_of(old(v)@).no_duplicates(),
    ensures
        views_of(final(v)@).no_duplicates(),
        views_of(final(v)@).to_set() == views_of(old(v)@).to_set().insert(s@),
{
    let ghost before = views_of(v@);
    let mut i: usize = 0;
    while i < v.len()
        invariant
            i <= v@.len(),
            v@ == old(v)@,
            before == views_of(v@),
            before.no_duplicates(),
            forall|k: int| 0 <= k < i ==> before[k] != s@,
        decreases v@.len() - i,
    {
        if str_equal(v[i].as_str(), s.as_str()) {
            assert(before[i as int] == s@);
            assert(before.to_set().insert(s@) =~= before.to_set());
            return;
        }
        i = i + 1;
    }
    v.push(s.clone());
    let ghost after = views_of(v@);
    assert(after =~= before.push(s@));
    assert(after.no_duplicates()) by {
        assert forall|a: int, b: int| 0 <= a < after.len() && 0 <= b < after.len() && a != b implies after[a] != after[b] by {
            if a < before.len() && b < before.len() {
            } else if a == before.len() {
                assert(after[b] == before[b]);
            } else {
                assert(after[a] == before[a]);
            }
        }
    }
    proof {
        before.lemma_push_to_set_commute(s@);
    }
}

/// Adds every string of `xs` to `v`, each text once.
fn insert_texts(v: &mut Vec<String>, xs: &Vec<String>)
    requires
        views_of(old(v)@).no_duplicates(),
    ensures
        views_of(final(v)@).no_duplicates(),
        views_of(final(v)@).to_set() == views_of(old(v)@).to_set() + views_of(xs@).to_set(),
{
    let ghost start = views_of(v@).to_set();
    let mut i: usize = 0;
    while i < xs.len()
        invariant
            i <= xs@.len(),
            views_of(v@).no_duplicates(),
            views_of(v@).to_set() == start + views_of(xs@.take(i as int)).to_set(),
        decreases xs@.len() - i,
    {
        insert_text(v, &xs[i]);
        assert(views_of(xs@.take(i as int + 1)) =~= views_of(xs@.take(i as int)).push(xs@[i as int]@));
        proof {
            views_of(xs@.take(i as int)).lemma_push_to_set_commute(xs@[i as int]@);
        }
        assert(views_of(v@).to_set() =~= start + views_of(xs@.take(i as int + 1)).to_set());
        i = i + 1;
    }
    assert(xs@.take(xs@.len() as int) =~= xs@);
}

/// Whether the accepted media type `x` covers the type `t` and subtype `s`
/// of a request (`*` covers any).
pub open spec fn content_accepts(x: (Seq<char>, Seq<char>), t: Seq<char>, s: Seq<char>) -> bool {
    (x.0 == "*"@ || x.0 == t) && (x.1 == "*"@ || x.1 == s)
}

/// Whether the host text `host` ends with `://` and the origin `o`.
pub open spec fn host_names_origin(host: Seq<char>, o: Seq<char>) -> bool {
    has_suffix(host, "://"@ + o)
}

/// Whether the host text `host` comes from an admitted origin: it ends with
/// `://` and one of the exact origins, or with one of the domain suffixes.
pub open spec fn origin_admits(origin: Seq<Seq<char>>, sub: Seq<Seq<char>>, host: Seq<char>) -> bool {
    ||| exists|i: int| 0 <= i < origin.len() && #[trigger] host_names_origin(host, origin[i])
    ||| exists|i: int| 0 <= i < sub.len() && has_suffix(host, #[trigger] sub[i])
}

/// Whether the guard of the route `r` admits a request with the method named
/// `method`, the given Content-Type and Content-Length header texts, and the
/// authority of its URI or else its Host header: the method is one the route
/// answers; a request other than GET has a content type that parses and that
/// an accepted media type covers, or no content type and a length of `0`; and
/// the authority (or the host, where there is no authority) comes from an
/// admitted origin.
pub open spec fn guard_admits(
    r: ActionRoute,
    method: Seq<char>,
    content_type: Option<Seq<char>>,
    content_length: Option<Seq<char>>,
    authority: Option<Seq<char>>,
    host: Option<Seq<char>>,
) -> bool {
    &&& method_bits(r.methods@).contains(method_of_name(method).0)
    &&& (method == "GET"@ || match content_type {
        Some(ct) => match mime_parts(ct) {
            Some(p) => exists|i: int| 0 <= i < r.content@.len()
                && content_accepts(#[trigger] pair_views(r.content@)[i], p.0, p.1),
            None => false,
        },
        None => match content_length {
            Some(l) => l == "0"@,
            None => false,
        },
    })
    &&& match authority {
        Some(a) => origin_admits(views_of(r.origin@), views_of(r.sub_origin@), a),
        None => match host {
            Some(h) => origin_admits(views_of(r.origin@), views_of(r.sub_origin@), h),
            None => false,
        },
    }
}

/// Whether `methods` holds a method with the bit `bit`.
fn has_method(methods: &Vec<Method>, bit: i64) -> (r: bool)
    ensures
        r == method_bits(methods@).contains(bit),
{
    let mut i: usize = 0;
    while i < methods.len()
        invariant
            i <= methods@.len(),
            forall|k: int| 0 <= k < i ==> methods@[k].0 != bit,
        decreases methods@.len() - i,
    {
        if methods[i].0 == bit {
            assert(method_bits(methods@)[i as int] == bit);
            return true;
        }
        i = i + 1;
    }
    proof {
        if method_bits(methods@).contains(bit) {
            let k = choose|k: int| 0 <= k < method_bits(methods@).len() && method_bits(methods@)[k] == bit;
            assert(methods@[k].0 == bit);
        }
    }
    false
}

/// Whether `host` comes from one of the exact origins or domain suffixes.
fn admits_host(origin: &Vec<String>, sub: &Vec<String>, host: &str) -> (r: bool)
    ensures
        r == origin_admits(views_of(origin@), views_of(sub@), host@),
{
    let ghost os = views_of(origin@);
    let ghost ss = views_of(sub@);
    let mut i: usize = 0;
    while i < origin.len()
        invariant
            i <= origin@.len(),
            os == views_of(origin@),
            forall|k: int| 0 <= k < i ==> !host_names_origin(host@, #[trigger] os[k]),
        decreases origin@.len() - i,
    {
        let mut full = String::from_str("://");
        full.append(origin[i].as_str());
        proof {
            reveal_strlit("://");
        }
        if ends_with(host, full.as_str()) {
            assert(host_names_origin(host@, os[i as int]));
            return true;
        }
        i = i + 1;
    }
    let mut j: usize = 0;
    while j < sub.len()
        invariant
            j <= sub@.len(),
            ss == views_of(sub@),
            forall|k: int| 0 <= k < j ==> !has_suffix(host@, #[trigger] ss[k]),
        decreases sub@.len() - j,
    {
        if ends_with(host, sub[j].as_str()) {
            assert(has_suffix(host@, ss[j as int]));
            return true;
        }
        j = j + 1;
    }
    false
}

/// Whether one of the accepted media types covers the type `t` and subtype `s`.
fn accepts_content(content: &Vec<(String, String)>, t: &String, s: &String) -> (r: bool)
    ensures
        r == exists|i: int| 0 <= i < content@.len()
            && content_accepts(#[trigger] pair_views(content@)[i], t@, s@),
{
    let ghost cs = pair_views(content@);
    let mut i: usize = 0;
    while i < content.len()
        invariant
            i <= content@.len(),
            cs == pair_views(content@),
            forall|k: int| 0 <= k < i ==> !content_accepts(#[trigger] cs[k], t@, s@),
        decreases content@.len() - i,
    {
        let x = &content[i];
        proof {
            reveal_strlit("*");
        }
        let type_ok = str_equal(x.0.as_str(), "*") || str_equal(x.0.as_str(), t.as_str());
        let sub_ok = str_equal(x.1.as_str(), "*") || str_equal(x.1.as_str(), s.as_str());
        if type_ok && sub_ok {
            assert(content_accepts(cs[i as int], t@, s@));
            return true;
        }
        i = i + 1;
    }
    false
}

impl ActionRoute {
    /// Whether the guard of this route admits a request with the method named
    /// `method`, the Content-Type and Content-Length header texts, and the
    /// authority of its URI or else its Host header.
    pub fn admits(
        &self,
        method: &str,
        content_type: Option<&str>,
        content_length: Option<&str>,
        authority: Option<&str>,
        host: Option<&str>,
    ) -> (r: bool)
        ensures
            r == guard_admits(
                *self,
                method@,
                match content_type { Some(c) => Some(c@), None => None },
                match content_length { Some(c) => Some(c@), None => None },
                match authority { Some(c) => Some(c@), None => None },
                match host { Some(c) => Some(c@), None => None },
            ),
    {
        let m = Method::from_http_name(method);
        if !has_method(&self.methods, m.0) {
            return false;
        }
        proof {
            reveal_strlit("GET");
            reveal_strlit("0");
        }
        let content_ok = if str_equal(method, "GET") {
            true
        } else {
            match content_type {
                Some(ct) => match parse_mime(ct) {
                    Some((t, s)) => accepts_content(&self.content, &t, &s),
                    None => false,
                },
                None => match content_length {
                    Some(l) => str_equal(l, "0"),
                    None => false,
                },
            }
        };
        if !content_ok {
            return false;
        }
        match authority {
            Some(a) => admits_host(&self.origin, &self.sub_origin, a),
            None => match host {
                Some(h) => admits_host(&self.origin, &self.sub_origin, h),
                None => false,
            },
        }
    }
}

/// How a preflight request is answered.
#[derive(Debug)]
pub struct PreflightAnswer {
    /// Whether the request is accepted (answered with no content) rather than refused.
    pub accepted: bool,
    /// Whether the answer repeats the request's Origin header.
    pub echo_origin: bool,
    /// The text of the Access-Control-Request-Method header of the answer, if it has one.
    pub allow_methods: Option<String>,
}

/// Whether a preflight request from the origin `origin` is from an allowed
/// origin: one of the exact origins, or one ending with a domain suffix.
pub open spec fn preflight_origin_ok(p: PreflightRoute, origin: Option<Seq<char>>) -> bool {
    match origin {
        Some(o) => views_of(p.allow_origin@).contains(o)
            || exists|i: int| 0 <= i < p.allow_sub_origin@.len()
                && has_suffix(o, #[trigger] views_of(p.allow_sub_origin@)[i]),
        None => false,
    }
}

/// Whether a preflight request for the method named `request_method` asks for
/// an allowed method: the name parses as an HTTP method, and the method it
/// stands for is one of the page's methods but OPTIONS.
pub open spec fn preflight_method_ok(p: PreflightRoute, request_method: Option<Seq<char>>) -> bool {
    match request_method {
        Some(m) => is_method_name(m) && route_method_bits(p.allow_method).contains(method_of_name(m).0),
        None => false,
    }
}

/// The names of the page's methods but OPTIONS, joined with commas.
pub open spec fn preflight_methods_text(allow_method: UDbFlg) -> Seq<char> {
    join_with(route_method_bits(allow_method).map_values(|b: i64| name_of_method(Method(b))), ","@)
}

/// The answer to a preflight request with the given Origin and
/// Access-Control-Request-Method header texts.
pub open spec fn preflight_answer_of(
    p: PreflightRoute,
    origin: Option<Seq<char>>,
    request_method: Option<Seq<char>>,
    r: PreflightAnswer,
) -> bool {
    &&& r.echo_origin == preflight_origin_ok(p, origin)
    &&& r.accepted == (preflight_origin_ok(p, origin) && preflight_method_ok(p, request_method))
    &&& match r.allow_methods {
        Some(t) => preflight_method_ok(p, request_method) && t@ == preflight_methods_text(p.allow_method),
        None => !preflight_method_ok(p, request_method),
    }
}

/// Whether `v` holds a string with the text of `s`.
fn contains_text(v: &Vec<String>, s: &str) -> (r: bool)
    ensures
        r == views_of(v@).contains(s@),
{
    let mut i: usize = 0;
    while i < v.len()
        invariant
            i <= v@.len(),
            forall|k: int| 0 <= k < i ==> v@[k]@ != s@,
        decreases v@.len() - i,
    {
        if str_equal(v[i].as_str(), s) {
            assert(views_of(v@)[i as int] == s@);
            return true;
        }
        i = i + 1;
    }
    proof {
        if views_of(v@).contains(s@) {
            let k = choose|k: int| 0 <= k < views_of(v@).len() && views_of(v@)[k] == s@;
            assert(v@[k]@ == s@);
        }
    }
    false
}

/// Whether `o` ends with one of the suffixes of `sub`.
fn ends_with_any(sub: &Vec<String>, o: &str) -> (r: bool)
    ensures
        r == exists|i: int| 0 <= i < sub@.len() && has_suffix(o@, #[trigger] views_of(sub@)[i]),
{
    let ghost ss = views_of(sub@);
    let mut j: usize = 0;
    while j < sub.len()
        invariant
            j <= sub@.len(),
            ss == views_of(sub@),
            forall|k: int| 0 <= k < j ==> !has_suffix(o@, #[trigger] ss[k]),
        decreases sub@.len() - j,
    {
        if ends_with(o, sub[j].as_str()) {
            assert(has_suffix(o@, ss[j as int]));
            return true;
        }
        j = j + 1;
    }
    false
}

impl PreflightRoute {
    /// How a preflight request with the given Origin and
    /// Access-Control-Request-Method header texts is answered.
    pub fn answer(&self, origin: Option<&str>, request_method: Option<&str>) -> (r: PreflightAnswer)
        ensures
            preflight_answer_of(
                *self,
                match origin { Some(c) => Some(c@), None => None },
                match request_method { Some(c) => Some(c@), None => None },
                r,
            ),
    {
        let origin_ok = match origin {
            Some(o) => {
                contains_text(&self.allow_origin, o) || ends_with_any(&self.allow_sub_origin, o)
            },
            None => false,
        };
        let allow_methods = match request_method {
            Some(m) => match crate::service::media::parse_http_method(m) {
                Some(name) => {
                    let methods = Method::from_flag(self.allow_method & !Method::METHOD_TYPE_OPTIONS);
                    let asked = Method::from_http_name(name.as_str());
                    if has_method(&methods, asked.0) {
                        let mut names: Vec<String> = Vec::new();
                        let ghost bits = route_method_bits(self.allow_method);
                        let ghost want = bits.map_values(|b: i64| name_of_method(Method(b)));
                        let mut i: usize = 0;
                        while i < methods.len()
                            invariant
                                i <= methods@.len(),
                                method_bits(methods@) == bits,
                                want == bits.map_values(|b: i64| name_of_method(Method(b))),
                                views_of(names@) == want.take(i as int),
                            decreases methods@.len() - i,
                        {
                            let name_i = methods[i].http_name();
                            assert(methods@[i as int] == Method(bits[i as int]));
                            assert(name_i@ == want[i as int]);
                            let ghost old_names = views_of(names@);
                            names.push(to_owned_string(name_i));
                            assert(views_of(names@) =~= old_names.push(name_i@));
                            assert(want.take(i as int + 1) =~= want.take(i as int).push(want[i as int]));
                            i = i + 1;
                        }
                        assert(want.take(methods@.len() as int) =~= want);
                        proof {
                            reveal_strlit(",");
                        }
                        Some(crate::text::join_strings(&names, ","))
                    } else {
                        None
                    }
                },
                None => None,
            },
            None => None,
        };
        let method_ok = allow_methods.is_some();
        PreflightAnswer {
            accepted: origin_ok && method_ok,
            echo_origin: origin_ok,
            allow_methods: allow_methods,
        }
    }
}

/// The decimal texts of `ids`, joined with commas.
pub open spec fn id_list_text(ids: Seq<UDbId>) -> Seq<char> {
    join_with(ids.map_values(|i: UDbId| decimal_text(i as int)), ","@)
}

/// The query for the actions of the pages `page_ids`, ordered by page and method.
pub open spec fn action_query_text(page_ids: Seq<UDbId>) -> Seq<char> {
    "SELECT * FROM t_action WHERE page IN ("@ + id_list_text(page_ids) + ") ORDER BY page ASC, method ASC"@
}

/// The query for the templates `ids`, ordered by id.
pub open spec fn template_query_text(ids: Seq<UDbId>) -> Seq<char> {
    "SELECT * FROM t_template WHERE id IN ("@ + id_list_text(ids) + ") ORDER BY id ASC"@
}

/// The decimal texts of `ids`, joined with commas.
fn id_list(ids: &Vec<UDbId>) -> (r: String)
    ensures
        r@ == id_list_text(ids@),
{
    let mut texts: Vec<String> = Vec::new();
    let ghost want = ids@.map_values(|i: UDbId| decimal_text(i as int));
    let mut i: usize = 0;
    while i < ids.len()
        invariant
            i <= ids@.len(),
            want == ids@.map_values(|i: UDbId| decimal_text(i as int)),
            views_of(texts@) == want.take(i as int),
        decreases ids@.len() - i,
    {
        let t = integer_text(ids[i]);
        let ghost before = views_of(texts@);
        texts.push(t);
        assert(views_of(texts@) =~= before.push(want[i as int]));
        assert(want.take(i as int + 1) =~= want.take(i as int).push(want[i as int]));
        i = i + 1;
    }
    assert(want.take(ids@.len() as int) =~= want);
    proof {
        reveal_strlit(",");
    }
    join_strings(&texts, ",")
}

/// The last routed action with id `id` of two runs one after the other is
/// that of the second run, or else that of the first.
proof fn lemma_last_routed_concat(a: Seq<Action>, b: Seq<Action>, id: UDbId)
    ensures
        last_routed(a + b, id) == (match last_routed(b, id) {
            Some(x) => Some(x),
            None => last_routed(a, id),
        }),
        last_tree_action(a + b, id) == (match last_tree_action(b, id) {
            Some(x) => Some(x),
            None => last_tree_action(a, id),
        }),
    decreases b.len(),
{
    if b.len() == 0 {
        assert(a + b =~= a);
    } else {
        assert((a + b).drop_last() =~= a + b.drop_last());
        assert((a + b).last() == b.last());
        lemma_last_routed_concat(a, b.drop_last(), id);
    }
}

/// Keeping two runs of actions one after the other is keeping them together.
proof fn lemma_keeps_concat(c0: RWCache, c1: RWCache, c2: RWCache, a: Seq<Action>, b: Seq<Action>)
    requires
        keeps_actions(c0, c1, a),
        keeps_actions(c1, c2, b),
    ensures
        keeps_actions(c0, c2, a + b),
{
    assert forall|k: UDbId| #[trigger] c2.spec_auth().contains_key(k)
        <==> (c0.spec_auth().contains_key(k) || last_routed(a + b, k) is Some) by {
        lemma_last_routed_concat(a, b, k);
        if last_routed(b, k) is None {
            assert(c1.spec_auth().contains_key(k) <==> (c0.spec_auth().contains_key(k) || last_routed(a, k) is Some));
        }
    }
    assert forall|k: UDbId| #[trigger] c2.spec_auth().contains_key(k) implies match last_routed(a + b, k) {
        Some(x) => auth_for(c2.spec_auth()[k], x),
        None => c2.spec_auth()[k] == c0.spec_auth()[k],
    } by {
        lemma_last_routed_concat(a, b, k);
        if last_routed(b, k) is None {
            assert(c1.spec_auth().contains_key(k));
        }
    }
    assert forall|k: UDbId| #[trigger] c2.spec_tree().contains_key(k)
        <==> (c0.spec_tree().contains_key(k) || last_tree_action(a + b, k) is Some) by {
        lemma_last_routed_concat(a, b, k);
        if last_tree_action(b, k) is None {
            assert(c1.spec_tree().contains_key(k) <==> (c0.spec_tree().contains_key(k) || last_tree_action(a, k) is Some));
        }
    }
    assert forall|k: UDbId| #[trigger] c2.spec_tree().contains_key(k) implies match last_tree_action(a + b, k) {
        Some(x) => same_tree(c2.spec_tree()[k], x.template),
        None => c2.spec_tree()[k] == c0.spec_tree()[k],
    } by {
        lemma_last_routed_concat(a, b, k);
        if last_tree_action(b, k) is None {
            assert(c1.spec_tree().contains_key(k));
        }
    }
}

/// Whether `r` holds the routes of `page` with the actions `actions`: one
/// route for each action with a positive method, in order, and the preflight
/// route where the or-ed method flags allow OPTIONS.
pub open spec fn page_routes_of(r: PageRoutes, page: Page, actions: Seq<Action>) -> bool {
    &&& r.path@ == page.path@
    &&& r.routes@.len() == routed(actions).len()
    &&& forall|i: int| 0 <= i < r.routes@.len() ==> route_of(#[trigger] r.routes@[i], page.id, routed(actions)[i])
    &&& preflight_of(r.preflight, actions)
}

/// The pages that have actions, in order.
pub open spec fn routed_pages(pages: Seq<Page>, actions: Map<UDbId, Vec<Action>>) -> Seq<Page>
    decreases pages.len(),
{
    if pages.len() == 0 {
        Seq::empty()
    } else {
        let rest = routed_pages(pages.drop_last(), actions);
        if actions.contains_key(pages.last().id) {
            rest.push(pages.last())
        } else {
            rest
        }
    }
}

/// The actions of the pages that have actions, page after page.
pub open spec fn actions_of_pages(pages: Seq<Page>, actions: Map<UDbId, Vec<Action>>) -> Seq<Action>
    decreases pages.len(),
{
    if pages.len() == 0 {
        Seq::empty()
    } else {
        let rest = actions_of_pages(pages.drop_last(), actions);
        if actions.contains_key(pages.last().id) {
            rest + actions[pages.last().id]@
        } else {
            rest
        }
    }
}

/// Whether the cache `c` is the one routing builds from the templates
/// `templates` and the actions `actions`, kept in order: it holds those
/// templates; an action id has an auth setting exactly when some action with
/// that id is routed, namely that of the last one; and a template tree exactly
/// when some action with that id is routed and not static, namely the tree of
/// the last one.
pub open spec fn cache_built(c: RWCache, templates: Map<UDbId, Template>, actions: Seq<Action>) -> bool {
    &&& c.spec_template() == templates
    &&& forall|k: UDbId| #[trigger] c.spec_auth().contains_key(k) <==> last_routed(actions, k) is Some
    &&& forall|k: UDbId| #[trigger] c.spec_auth().contains_key(k)
        ==> auth_for(c.spec_auth()[k], last_routed(actions, k)->0)
    &&& forall|k: UDbId| #[trigger] c.spec_tree().contains_key(k) <==> last_tree_action(actions, k) is Some
    &&& forall|k: UDbId| #[trigger] c.spec_tree().contains_key(k)
        ==> same_tree(c.spec_tree()[k], last_tree_action(actions, k)->0.template)
}

/// What routing loads before it plans: the pages in the order they were
/// read, their ids, the actions of each page, and the template ids that the
/// actions' trees refer to.
#[derive(Debug)]
pub struct RouteLoad {
    pub pages: Vec<Page>,
    pub page_ids: Vec<UDbId>,
    pub actions: HashMap<UDbId, Vec<Action>>,
    pub template_ids: Vec<UDbId>,
}

/// Whether a route load is consistent: each action is kept under its own
/// page, and every template id its tree refers to is among the template ids.
pub open spec fn route_load_wf(load: RouteLoad) -> bool {
    forall|k: UDbId, i: int| #![trigger load.actions@[k]@[i]]
        load.actions@.contains_key(k) && 0 <= i < load.actions@[k]@.len() ==> {
            &&& load.actions@[k]@[i].page == k
            &&& tree_ids(load.actions@[k]@[i].template).subset_of(load.template_ids@.to_set())
        }
}

impl RouteLoad {
    /// Nothing loaded yet.
    pub fn new() -> (r: Self)
        ensures
            r.pages@.len() == 0,
            r.page_ids@.len() == 0,
            r.actions@ == Map::<UDbId, Vec<Action>>::empty(),
            r.template_ids@.len() == 0,
            route_load_wf(r),
    {
        RouteLoad { pages: Vec::new(), page_ids: Vec::new(), actions: HashMap::new(), template_ids: Vec::new() }
    }

    /// Takes in a page read from the database.
    pub fn add_page(&mut self, p: Page)
        ensures
            final(self).pages@ == old(self).pages@.push(p),
            final(self).page_ids@ == old(self).page_ids@.push(p.id),
            final(self).actions@ == old(self).actions@,
            final(self).template_ids@ == old(self).template_ids@,
            route_load_wf(*old(self)) ==> route_load_wf(*final(self)),
    {
        self.page_ids.push(p.id);
        self.pages.push(p);
    }

    /// Takes in an action read from the database: it joins the actions of
    /// its page, and the ids its tree refers to join the template ids.
    pub fn add_action(&mut self, a: Action)
        ensures
            final(self).pages@ == old(self).pages@,
            final(self).page_ids@ == old(self).page_ids@,
            final(self).actions@.dom() == old(self).actions@.dom().insert(a.page),
            final(self).actions@[a.page]@ == (if old(self).actions@.contains_key(a.page) {
                old(self).actions@[a.page]@.push(a)
            } else {
                seq![a]
            }),
            forall|k: UDbId| k != a.page && #[trigger] old(self).actions@.contains_key(k)
                ==> final(self).actions@[k] == old(self).actions@[k],
            final(self).template_ids@.len() >= old(self).template_ids@.len(),
            final(self).template_ids@.take(old(self).template_ids@.len() as int) == old(self).template_ids@,
            final(self).template_ids@.skip(old(self).template_ids@.len() as int).no_duplicates(),
            final(self).template_ids@.skip(old(self).template_ids@.len() as int).to_set()
                == tree_ids(a.template),
            route_load_wf(*old(self)) ==> route_load_wf(*final(self)),
    {
        let ids = a.template.id_list();
        let ghost start = self.template_ids@;
        let mut i: usize = 0;
        while i < ids.len()
            invariant
                i <= ids@.len(),
                self.template_ids@ == start + ids@.take(i as int),
                self.pages@ == old(self).pages@,
                self.page_ids@ == old(self).page_ids@,
                self.actions@ == old(self).actions@,
            decreases ids@.len() - i,
        {
            self.template_ids.push(ids[i]);
            assert(ids@.take(i as int + 1) =~= ids@.take(i as int).push(ids@[i as int]));
            assert(self.template_ids@ =~= start + ids@.take(i as int + 1));
            i = i + 1;
        }
        assert(ids@.take(ids@.len() as int) =~= ids@);
        assert(self.template_ids@.take(start.len() as int) =~= start);
        assert(self.template_ids@.skip(start.len() as int) =~= ids@);
        let page = a.page;
        let list = match self.actions.remove(&page) {
            Some(l) => {
                let mut l = l;
                l.push(a);
                l
            },
            None => {
                let mut l: Vec<Action> = Vec::new();
                l.push(a);
                assert(l@ =~= seq![a]);
                l
            },
        };
        self.actions.insert(page, list);
        proof {
            let olds = old(self);
            if route_load_wf(*olds) {
                let all = self.template_ids@;
                let n = start.len() as int;
                assert(all.take(n) =~= start);
                assert forall|x: UDbId| start.to_set().contains(x) implies all.to_set().contains(x) by {
                    let j = choose|j: int| 0 <= j < start.len() && start[j] == x;
                    assert(all[j] == x);
                }
                assert forall|x: UDbId| tree_ids(a.template).contains(x) implies all.to_set().contains(x) by {
                    assert(all.skip(n).to_set().contains(x));
                    let j = choose|j: int| 0 <= j < all.skip(n).len() && all.skip(n)[j] == x;
                    assert(all[n + j] == x);
                }
                assert forall|k: UDbId, i: int| #![trigger self.actions@[k]@[i]]
                    self.actions@.contains_key(k) && 0 <= i < self.actions@[k]@.len() implies {
                        &&& self.actions@[k]@[i].page == k
                        &&& tree_ids(self.actions@[k]@[i].template).subset_of(all.to_set())
                    } by {
                    if k == a.page {
                        if olds.actions@.contains_key(k) && i < olds.actions@[k]@.len() {
                            assert(self.actions@[k]@[i] == olds.actions@[k]@[i]);
                        } else {
                            assert(self.actions@[k]@[i] == a);
                        }
                    } else {
                        assert(self.actions@[k] == olds.actions@[k]);
                        assert(self.actions@[k]@[i] == olds.actions@[k]@[i]);
                    }
                }
            }
        }
    }
}

impl RWRouter {
    /// The route of the action `a` of the page `page_id`, and what the cache
    /// keeps for it; `None`, with the cache unchanged, for an action whose
    /// method is not positive.
    pub fn plan_action(page_id: UDbId, a: &Action, cache: &mut RWCache) -> (r: Option<ActionRoute>)
        ensures
            keeps_action(*old(cache), *final(cache), *a),
            match r {
                Some(route) => a.method > 0 && route_of(route, page_id, *a),
                None => a.method <= 0,
            },
    {
        if a.method <= 0 {
            return None;
        }
        let methods = Method::from_flag(a.method & !Method::METHOD_TYPE_OPTIONS);
        let content = parse_contents(&a.content);
        let (origin, sub_origin) = split_origins(&a.origin);
        let formats = DataFormat::from_flag(a.format);
        let is_static = DataFormat::static_file().is_in(&formats);
        proof {
            crate::types::flags::lemma_selected_flags_contains(a.format, data_format_flags(), DataFormat::DATA_FORMAT_STATIC);
            assert(data_format_flags()[0] == DataFormat::DATA_FORMAT_STATIC);
        }
        cache.insert_auth(&a.id, Auth::new(Auth::AUTH_TYPE_GROUP, copy_ids(&a.auth)));
        if !is_static {
            cache.insert_tree(&a.id, a.template.duplicate());
        }
        Some(ActionRoute {
            page_id: page_id,
            action_id: a.id,
            methods: methods,
            content: content,
            origin: origin,
            sub_origin: sub_origin,
            is_static: is_static,
        })
    }

    /// The query for every page, the longest path first.
    pub fn page_query() -> (r: &'static str)
        ensures
            r@ == "SELECT * FROM t_page ORDER BY path DESC"@,
    {
        "SELECT * FROM t_page ORDER BY path DESC"
    }

    /// The query for the actions of the pages `page_ids`; `None` where there
    /// is no page, and nothing to ask for.
    pub fn action_query(page_ids: &Vec<UDbId>) -> (r: Option<String>)
        ensures
            match r {
                Some(q) => page_ids@.len() > 0 && q@ == action_query_text(page_ids@),
                None => page_ids@.len() == 0,
            },
    {
        if page_ids.len() == 0 {
            return None;
        }
        let mut q = String::from_str("SELECT * FROM t_action WHERE page IN (");
        let ids = id_list(page_ids);
        q.append(ids.as_str());
        q.append(") ORDER BY page ASC, method ASC");
        proof {
            reveal_strlit("SELECT * FROM t_action WHERE page IN (");
            reveal_strlit(") ORDER BY page ASC, method ASC");
        }
        assert(q@ =~= action_query_text(page_ids@));
        Some(q)
    }

    /// The query for the templates `ids`; `None` where there is no id, and
    /// nothing to ask for.
    pub fn template_query(ids: &Vec<UDbId>) -> (r: Option<String>)
        ensures
            match r {
                Some(q) => ids@.len() > 0 && q@ == template_query_text(ids@),
                None => ids@.len() == 0,
            },
    {
        if ids.len() == 0 {
            return None;
        }
        let mut q = String::from_str("SELECT * FROM t_template WHERE id IN (");
        let list = id_list(ids);
        q.append(list.as_str());
        q.append(") ORDER BY id ASC");
        proof {
            reveal_strlit("SELECT * FROM t_template WHERE id IN (");
            reveal_strlit(") ORDER BY id ASC");
        }
        assert(q@ =~= template_query_text(ids@));
        Some(q)
    }

    /// The routes of every page that has actions, in the order of `pages`,
    /// and the cache built from the templates and from the actions of those
    /// pages, kept in that order.
    pub fn plan(
        pages: &Vec<Page>,
        actions: &HashMap<UDbId, Vec<Action>>,
        templates: HashMap<UDbId, Template>,
    ) -> (r: (Vec<PageRoutes>, RWCache))
        ensures
            r.0@.len() == routed_pages(pages@, actions@).len(),
            forall|i: int| 0 <= i < r.0@.len() ==> page_routes_of(
                #[trigger] r.0@[i],
                routed_pages(pages@, actions@)[i],
                actions@[routed_pages(pages@, actions@)[i].id]@,
            ),
            cache_built(r.1, templates@, actions_of_pages(pages@, actions@)),
    {
        let ghost tmpl = templates@;
        let mut cache = RWCache::new();
        cache.set_template(templates);
        let ghost c0 = cache;
        let mut out: Vec<PageRoutes> = Vec::new();
        let mut i: usize = 0;
        assert(pages@.take(0) =~= Seq::<Page>::empty());
        while i < pages.len()
            invariant
                i <= pages@.len(),
                c0.spec_template() == tmpl,
                c0.spec_auth() == Map::<UDbId, Auth>::empty(),
                c0.spec_tree() == Map::<UDbId, TemplateTree>::empty(),
                out@.len() == routed_pages(pages@.take(i as int), actions@).len(),
                forall|k: int| 0 <= k < out@.len() ==> page_routes_of(
                    #[trigger] out@[k],
                    routed_pages(pages@.take(i as int), actions@)[k],
                    actions@[routed_pages(pages@.take(i as int), actions@)[k].id]@,
                ),
                keeps_actions(c0, cache, actions_of_pages(pages@.take(i as int), actions@)),
            decreases pages@.len() - i,
        {
            let ghost prefix = pages@.take(i as int);
            let ghost next = pages@.take(i as int + 1);
            assert(next.drop_last() =~= prefix);
            assert(next.last() == pages@[i as int]);
            let page = &pages[i];
            match actions.get(&page.id) {
                Some(acts) => {
                    let ghost before = cache;
                    let routes = RWRouter::plan_page(page, acts, &mut cache);
                    proof {
                        lemma_keeps_concat(c0, before, cache, actions_of_pages(prefix, actions@), acts@);
                    }
                    let ghost old_out = out@;
                    out.push(routes);
                    assert(routed_pages(next, actions@) == routed_pages(prefix, actions@).push(*page));
                    assert forall|k: int| 0 <= k < out@.len() implies page_routes_of(
                        #[trigger] out@[k],
                        routed_pages(next, actions@)[k],
                        actions@[routed_pages(next, actions@)[k].id]@,
                    ) by {
                        if k < old_out.len() {
                            assert(out@[k] == old_out[k]);
                        }
                    }
                },
                None => {},
            }
            i = i + 1;
        }
        assert(pages@.take(pages@.len() as int) =~= pages@);
        let ghost all = actions_of_pages(pages@, actions@);
        assert(cache_built(cache, tmpl, all)) by {
            assert forall|k: UDbId| #[trigger] cache.spec_auth().contains_key(k) implies
                auth_for(cache.spec_auth()[k], last_routed(all, k)->0) by {
                assert(!c0.spec_auth().contains_key(k));
            }
            assert forall|k: UDbId| #[trigger] cache.spec_tree().contains_key(k) implies
                same_tree(cache.spec_tree()[k], last_tree_action(all, k)->0.template) by {
                assert(!c0.spec_tree().contains_key(k));
            }
        }
        (out, cache)
    }

    /// The routes of `page`, given its actions, and the preflight route where
    /// some routed action allows OPTIONS; the cache keeps each action in turn.
    pub fn plan_page(page: &Page, actions: &Vec<Action>, cache: &mut RWCache) -> (r: PageRoutes)
        ensures
            page_routes_of(r, *page, actions@),
            keeps_actions(*old(cache), *final(cache), actions@),
    {
        let ghost start = *cache;
        let mut routes: Vec<ActionRoute> = Vec::new();
        let mut allow_method: UDbFlg = 0;
        let mut allow_origin: Vec<String> = Vec::new();
        let mut allow_sub_origin: Vec<String> = Vec::new();
        let mut i: usize = 0;
        assert(keeps_actions(start, *cache, actions@.take(0)));
        while i < actions.len()
            invariant
                i <= actions@.len(),
                routes@.len() == routed(actions@.take(i as int)).len(),
                forall|k: int| 0 <= k < routes@.len() ==> route_of(#[trigger] routes@[k], page.id, routed(actions@.take(i as int))[k]),
                allow_method == allow_method_of(actions@.take(i as int)),
                views_of(allow_origin@).no_duplicates(),
                views_of(allow_origin@).to_set() == allow_origin_of(actions@.take(i as int)),
                views_of(allow_sub_origin@).no_duplicates(),
                views_of(allow_sub_origin@).to_set() == allow_sub_origin_of(actions@.take(i as int)),
                keeps_actions(start, *cache, actions@.take(i as int)),
            decreases actions@.len() - i,
        {
            let ghost before = *cache;
            let ghost prefix = actions@.take(i as int);
            let ghost next = actions@.take(i as int + 1);
            assert(next.drop_last() =~= prefix);
            assert(next.last() == actions@[i as int]);
            let a = &actions[i];
            let planned = RWRouter::plan_action(page.id, a, cache);
            proof {
                lemma_keeps_step(start, before, *cache, next);
            }
            match planned {
                Some(route) => {
                    allow_method = allow_method | a.method;
                    if (a.method & Method::METHOD_TYPE_OPTIONS) > 0 {
                        insert_texts(&mut allow_origin, &route.origin);
                        insert_texts(&mut allow_sub_origin, &route.sub_origin);
                    }
                    let ghost old_routes = routes@;
                    routes.push(route);
                    assert(routed(next) == routed(prefix).push(*a));
                    assert forall|k: int| 0 <= k < routes@.len() implies route_of(#[trigger] routes@[k], page.id, routed(next)[k]) by {
                        if k < old_routes.len() {
                            assert(routes@[k] == old_routes[k]);
                        }
                    }
                },
                None => {},
            }
            i = i + 1;
        }
        assert(actions@.take(actions@.len() as int) =~= actions@);
        let preflight = if (allow_method & Method::METHOD_TYPE_OPTIONS) > 0 {
            Some(PreflightRoute {
                allow_method: allow_method,
                allow_origin: allow_origin,
                allow_sub_origin: allow_sub_origin,
            })
        } else {
            None
        };
        PageRoutes { path: page.path.clone(), routes: routes, preflight: preflight }
    }
}

} // verus!

verus! {

/// The methods of an action's route never include OPTIONS, whatever its flags.
pub proof fn lemma_route_methods_exclude_options(method: UDbFlg)
    ensures
        !route_method_bits(method).contains(Method::METHOD_TYPE_OPTIONS),
{
    crate::types::flags::lemma_selected_flags_contains(
        method & !Method::METHOD_TYPE_OPTIONS,
        method_flags(),
        Method::METHOD_TYPE_OPTIONS,
    );
    assert(((method & !1i64) & 1i64) == 0i64) by (bit_vector);
}

/// The guard of an action's route never admits an OPTIONS request: those go
/// to the page's preflight route alone.
pub proof fn lemma_guard_refuses_options(
    r: ActionRoute,
    page_id: UDbId,
    a: Action,
    content_type: Option<Seq<char>>,
    content_length: Option<Seq<char>>,
    authority: Option<Seq<char>>,
    host: Option<Seq<char>>,
)
    requires
        route_of(r, page_id, a),
    ensures
        !guard_admits(r, "OPTIONS"@, content_type, content_length, authority, host),
{
    lemma_route_methods_exclude_options(a.method);
    assert(method_of_name("OPTIONS"@).0 == Method::METHOD_TYPE_OPTIONS);
}

/// A page gets a preflight route exactly when one of its routed actions
/// allows OPTIONS.
pub proof fn lemma_preflight_iff_options(actions: Seq<Action>)
    ensures
        flag_has(allow_method_of(actions), Method::METHOD_TYPE_OPTIONS)
            <==> exists|i: int| 0 <= i < routed(actions).len()
                && #[trigger] flag_has(routed(actions)[i].method, Method::METHOD_TYPE_OPTIONS),
    decreases actions.len(),
{
    if actions.len() == 0 {
        assert((0i64 & 1i64) == 0i64) by (bit_vector);
    } else {
        let prefix = actions.drop_last();
        let a = actions.last();
        lemma_preflight_iff_options(prefix);
        let rest = allow_method_of(prefix);
        if a.method > 0 {
            let m = a.method;
            assert(((rest | m) & 1i64 > 0) == ((rest & 1i64 > 0) || (m & 1i64 > 0))) by (bit_vector);
            assert(allow_method_of(actions) == rest | m);
            assert(flag_has(allow_method_of(actions), Method::METHOD_TYPE_OPTIONS)
                == (flag_has(rest, Method::METHOD_TYPE_OPTIONS) || flag_has(m, Method::METHOD_TYPE_OPTIONS)));
            let rs = routed(prefix);
            assert(routed(actions) == rs.push(a));
            if flag_has(a.method, Method::METHOD_TYPE_OPTIONS) {
                assert(routed(actions)[rs.len() as int] == a);
            }
            if exists|i: int| 0 <= i < rs.len() && #[trigger] flag_has(rs[i].method, Method::METHOD_TYPE_OPTIONS) {
                let i = choose|i: int| 0 <= i < rs.len() && #[trigger] flag_has(rs[i].method, Method::METHOD_TYPE_OPTIONS);
                assert(routed(actions)[i] == rs[i]);
            }
            if exists|i: int| 0 <= i < routed(actions).len() && #[trigger] flag_has(routed(actions)[i].method, Method::METHOD_TYPE_OPTIONS) {
                let i = choose|i: int| 0 <= i < routed(actions).len() && #[trigger] flag_has(routed(actions)[i].method, Method::METHOD_TYPE_OPTIONS);
                if i < rs.len() {
                    assert(routed(actions)[i] == rs[i]);
                }
            }
        } else {
            assert(routed(actions) == routed(prefix));
            assert(allow_method_of(actions) == rest);
        }
    }
}

} // verus!

verus! {

/// The action that `last_tree_action` picks is one of the actions.
proof fn lemma_last_tree_action_in(actions: Seq<Action>, id: UDbId)
    ensures
        last_tree_action(actions, id) matches Some(a) ==> exists|j: int| 0 <= j < actions.len() && actions[j] == a,
    decreases actions.len(),
{
    if actions.len() > 0 {
        lemma_last_tree_action_in(actions.drop_last(), id);
        if let Some(a) = last_tree_action(actions, id) {
            if actions.last().method > 0 && actions.last().id == id
                && !flag_has(actions.last().format, DataFormat::DATA_FORMAT_STATIC) {
                assert(actions[actions.len() - 1] == a);
            } else {
                let j = choose|j: int| 0 <= j < actions.drop_last().len() && actions.drop_last()[j] == a;
                assert(actions[j] == a);
            }
        }
    }
}

/// Each action of the pages with actions is an action kept under some page.
proof fn lemma_actions_of_pages_from(pages: Seq<Page>, actions: Map<UDbId, Vec<Action>>, j: int)
    requires
        0 <= j < actions_of_pages(pages, actions).len(),
    ensures
        exists|k: UDbId, i: int| actions.contains_key(k) && 0 <= i < actions[k]@.len()
            && #[trigger] actions[k]@[i] == actions_of_pages(pages, actions)[j],
    decreases pages.len(),
{
    let rest = actions_of_pages(pages.drop_last(), actions);
    if j < rest.len() {
        lemma_actions_of_pages_from(pages.drop_last(), actions, j);
        if actions.contains_key(pages.last().id) {
            assert(actions_of_pages(pages, actions)[j] == rest[j]);
        }
    } else {
        let k = pages.last().id;
        assert(actions_of_pages(pages, actions) == rest + actions[k]@);
        assert(actions[k]@[j - rest.len()] == actions_of_pages(pages, actions)[j]);
    }
}

/// Every template a planned route can run was asked for: in a consistent
/// load, the ids that each template tree in the built cache refers to are
/// among the template ids the template query asks for.
pub proof fn lemma_planned_trees_were_loaded(load: RouteLoad, c: RWCache, templates: Map<UDbId, Template>)
    requires
        route_load_wf(load),
        cache_built(c, templates, actions_of_pages(load.pages@, load.actions@)),
    ensures
        forall|k: UDbId| #[trigger] c.spec_tree().contains_key(k)
            ==> tree_ids(c.spec_tree()[k]).subset_of(load.template_ids@.to_set()),
{
    let all = actions_of_pages(load.pages@, load.actions@);
    assert forall|k: UDbId| #[trigger] c.spec_tree().contains_key(k)
        implies tree_ids(c.spec_tree()[k]).subset_of(load.template_ids@.to_set()) by {
        let a = last_tree_action(all, k)->0;
        lemma_last_tree_action_in(all, k);
        let j = choose|j: int| 0 <= j < all.len() && all[j] == a;
        lemma_actions_of_pages_from(load.pages@, load.actions@, j);
        let (p, i) = choose|p: UDbId, i: int| load.actions@.contains_key(p) && 0 <= i < load.actions@[p]@.len()
            && #[trigger] load.actions@[p]@[i] == all[j];
        assert(load.actions@[p]@[i] == a);
        lemma_same_tree_ids(c.spec_tree()[k], a.template);
    }
}

} // verus!

verus! {

/// A guard admits a request other than GET that names a content type only
/// where the content type parses, and some media type the route accepts
/// covers both its type and its subtype (each equal, or `*`): an action that
/// accepts only `application/json` refuses `application/x-www-form-urlencoded`.
pub proof fn lemma_guard_checks_type_and_subtype(
    r: ActionRoute,
    method: Seq<char>,
    content_type: Seq<char>,
    content_length: Option<Seq<char>>,
    authority: Option<Seq<char>>,
    host: Option<Seq<char>>,
)
    requires
        guard_admits(r, method, Some(content_type), content_length, authority, host),
        method != "GET"@,
    ensures
        mime_parts(content_type) matches Some(p) && exists|i: int| 0 <= i < r.content@.len()
            && (#[trigger] r.content@[i].0@ == "*"@ || r.content@[i].0@ == p.0)
            && (r.content@[i].1@ == "*"@ || r.content@[i].1@ == p.1),
{
    let p = mime_parts(content_type)->0;
    let i = choose|i: int| 0 <= i < r.content@.len()
        && content_accepts(#[trigger] pair_views(r.content@)[i], p.0, p.1);
    assert(pair_views(r.content@)[i] == (r.content@[i].0@, r.content@[i].1@));
}

} // verus!
