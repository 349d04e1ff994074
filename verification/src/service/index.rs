//! Answering a request: the walk through an action's template tree, the
//! kind of response the last value is sent as, and the check that keeps a
//! static file inside the served directory.

use vstd::prelude::*;

use crate::text::{str_equal, starts_with, ends_with, has_prefix, has_suffix};
use crate::types::error::{ServiceError, ServerError};
use crate::module::Template;
use crate::module::sub::TemplateTree;
use crate::engine::EngineValue;
use crate::service::cache::RWCache;
use crate::service::media::{mime_parts, parse_mime};

verus! {

/// The request handler of the routes.
pub struct RWIndex();

/// How the last value of a request is sent.
#[derive(Debug, Clone, Copy, PartialEq, Eq, Structural)]
pub enum ResponseKind {
    /// No value: an empty answer.
    NoContent,
    /// The value as JSON.
    Json,
    /// An empty answer with the Accept header's text as its content type.
    AsAccepted,
    /// An empty HTML answer.
    Html,
}

/// How a request is answered, given whether a template gave a value and the
/// text of its Accept header: JSON where the accepted media type has the
/// subtype `json`; the accepted type where it parses otherwise; HTML where it
/// does not parse or there is no Accept header.
pub open spec fn response_kind_of(has_value: bool, accept: Option<Seq<char>>) -> ResponseKind {
    if !has_value {
        ResponseKind::NoContent
    } else {
        match accept {
            Some(a) => match mime_parts(a) {
                Some(p) => if p.1 == "json"@ {
                    ResponseKind::Json
                } else {
                    ResponseKind::AsAccepted
                },
                None => ResponseKind::Html,
            },
            None => ResponseKind::Html,
        }
    }
}

/// `s` without the slashes it starts with.
pub open spec fn without_leading_slashes(s: Seq<char>) -> Seq<char>
    decreases s.len(),
{
    if s.len() > 0 && s[0] == '/' {
        without_leading_slashes(s.drop_first())
    } else {
        s
    }
}

impl RWIndex {
    /// The template to run for the node `tree`: none where the node has no
    /// template (the walk ends), the cached template of its id, or a routing
    /// error where no template is cached under that id.
    pub fn template_for<'a>(cache: &'a RWCache, tree: &TemplateTree) -> (r: Result<Option<&'a Template>, ServiceError>)
        ensures
            match tree.spec_id() {
                None => r matches Ok(None),
                Some(id) => if cache.spec_template().contains_key(id) {
                    r matches Ok(Some(t)) && *t == cache.spec_template()[id]
                } else {
                    r == Err::<Option<&Template>, ServiceError>(
                        ServiceError::HTTPRequestInternalServerError(ServerError::TemplateRoutingError))
                },
            },
    {
        match tree.id() {
            None => Ok(None),
            Some(id) => match cache.get_template(&id) {
                Some(t) => Ok(Some(t)),
                None => Err(ServiceError::from(ServerError::TemplateRoutingError)),
            },
        }
    }

    /// Records what running the template of `tree` gave, and the node to go
    /// on with: a value is kept and the walk goes on with the success tree when
    /// the template succeeded, else with the failure tree; an error keeps an
    /// empty value and goes on with the failure tree.
    pub fn next_tree<'a>(
        tree: &'a TemplateTree,
        outcome: Result<(bool, EngineValue), ServiceError>,
        response: &mut Vec<EngineValue>,
    ) -> (r: Option<&'a TemplateTree>)
        ensures
            match outcome {
                Ok((status, v)) => final(response)@ == old(response)@.push(v) && if status {
                    match r {
                        Some(t) => tree.spec_success() == Some(*t),
                        None => tree.spec_success() is None,
                    }
                } else {
                    match r {
                        Some(t) => tree.spec_fail() == Some(*t),
                        None => tree.spec_fail() is None,
                    }
                },
                Err(_) => final(response)@ == old(response)@.push(EngineValue::Empty) && match r {
                    Some(t) => tree.spec_fail() == Some(*t),
                    None => tree.spec_fail() is None,
                },
            },
    {
        match outcome {
            Ok((status, value)) => {
                response.push(value);
                if status {
                    tree.success()
                } else {
                    tree.fail()
                }
            },
            Err(_) => {
                response.push(EngineValue::Empty);
                tree.fail()
            },
        }
    }

    /// How the request is answered, given the values its templates gave and
    /// the text of its Accept header.
    pub fn response_kind(response: &Vec<EngineValue>, accept: Option<&str>) -> (r: ResponseKind)
        ensures
            r == response_kind_of(response@.len() > 0, match accept { Some(a) => Some(a@), None => None }),
    {
        if response.len() == 0 {
            return ResponseKind::NoContent;
        }
        match accept {
            Some(a) => match parse_mime(a) {
                Some((_t, s)) => {
                    proof {
                        reveal_strlit("json");
                    }
                    if str_equal(s.as_str(), "json") {
                        ResponseKind::Json
                    } else {
                        ResponseKind::AsAccepted
                    }
                },
                None => ResponseKind::Html,
            },
            None => ResponseKind::Html,
        }
    }

    /// The next value of a session's visit counter: one more than it held,
    /// or 1 where it held none.
    pub fn next_counter(current: Option<i32>) -> (r: i32)
        requires
            current matches Some(c) ==> c < i32::MAX,
        ensures
            r == match current {
                Some(c) => c + 1,
                None => 1,
            },
    {
        match current {
            Some(c) => c + 1,
            None => 1,
        }
    }

    /// The request path without the slashes it starts with: the part that is
    /// looked up under the served directory.
    pub fn file_path(request_path: &str) -> (r: String)
        ensures
            r@ == without_leading_slashes(request_path@),
    {
        let n = request_path.unicode_len();
        let mut i: usize = 0;
        assert(request_path@.skip(0) =~= request_path@);
        while i < n && request_path.get_char(i) == '/'
            invariant
                n == request_path@.len(),
                i <= n,
                without_leading_slashes(request_path@) == without_leading_slashes(request_path@.skip(i as int)),
            decreases n - i,
        {
            assert(request_path@.skip(i as int).drop_first() =~= request_path@.skip(i as int + 1));
            i = i + 1;
        }
        let rest = request_path.substring_char(i, n);
        assert(rest@ =~= request_path@.skip(i as int));
        assert(i < n ==> request_path@.skip(i as int)[0] == request_path@[i as int]);
        String::from_str(rest)
    }

    /// Whether a file may be served: its canonical path lies under the
    /// canonical served directory and ends with the path that was asked for,
    /// so that no link or `..` leads out of the directory.
    pub fn serves_file(canonical: &str, home: &str, asked: &str) -> (r: bool)
        ensures
            r == (has_prefix(canonical@, home@) && has_suffix(canonical@, asked@)),
    {
        starts_with(canonical, home) && ends_with(canonical, asked)
    }
}

/// A request with a value is answered as JSON exactly when its Accept header
/// parses as a media type whose subtype is `json`; any other Accept header
/// that parses, `*/*` among them, is answered with the accepted type; without
/// an Accept header, or with one that does not parse, the answer is never JSON.
pub proof fn lemma_json_only_for_json_subtype(has_value: bool, a: Seq<char>)
    ensures
        response_kind_of(has_value, None) != ResponseKind::Json,
        mime_parts(a) is None ==> response_kind_of(has_value, Some(a)) != ResponseKind::Json,
        mime_parts(a) matches Some(p) ==> ((response_kind_of(has_value, Some(a)) == ResponseKind::Json)
            <==> (has_value && p.1 == "json"@)),
        mime_parts(a) matches Some(p) ==> (has_value && p.1 != "json"@
            ==> response_kind_of(has_value, Some(a)) == ResponseKind::AsAccepted),
        mime_parts(a) matches Some(p) ==> (has_value && p.1 == "*"@
            ==> response_kind_of(has_value, Some(a)) == ResponseKind::AsAccepted),
{
    reveal_strlit("json");
    reveal_strlit("*");
    assert("*"@.len() != "json"@.len());
}

} // verus!
