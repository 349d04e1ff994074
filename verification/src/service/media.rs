//! What the service reads from media types and HTTP method names, through
//! the `mime` crate and the `http` crate that actix-web re-exports.

use vstd::prelude::*;

verus! {

/// The type and subtype that `mime` parses from `text` (lower case, without
/// a `+suffix` or parameters), or `None` where `text` is no media type.
pub uninterp spec fn mime_parts(text: Seq<char>) -> Option<(Seq<char>, Seq<char>)>;

/// Parses `text` with `mime::Mime::from_str` and gives back the text of the
/// result's `type_()` and `subtype()`; `None` where the parse fails. The
/// contract names the outcome `mime_parts(text)`: the parse depends on the
/// text alone; which texts parse, and how, is left to that name.
#[verifier::external_body]
pub(crate) fn parse_mime(text: &str) -> (r: Option<(String, String)>)
    ensures
        match r {
            Some((t, s)) => mime_parts(text@) == Some((t@, s@)),
            None => mime_parts(text@) is None,
        },
{
    match <mime::Mime as std::str::FromStr>::from_str(text) {
        Ok(m) => Some((m.type_().as_str().to_string(), m.subtype().as_str().to_string())),
        Err(_) => None,
    }
}

/// The characters that `http::Method::from_bytes` accepts in a method name.
pub open spec fn is_method_char(c: char) -> bool {
    ||| c == '!'
    ||| c == '*'
    ||| c == '+'
    ||| c == '-'
    ||| c == '.'
    ||| ('0' <= c && c <= '9')
    ||| ('A' <= c && c <= 'Z')
    ||| c == '^'
    ||| c == '_'
    ||| c == '`'
    ||| ('a' <= c && c <= 'z')
    ||| c == '|'
    ||| c == '~'
}

/// Whether `http::Method::from_bytes` accepts `name`: it is not empty and
/// every character is one of the method characters.
pub open spec fn is_method_name(name: Seq<char>) -> bool {
    name.len() > 0 && forall|i: int| 0 <= i < name.len() ==> #[trigger] is_method_char(name[i])
}

/// Parses `name` with `http::Method::from_bytes` and gives back the parsed
/// method's `as_str()`. The crate's source accepts exactly the non-empty
/// names whose bytes are all method characters, and the parsed method's text
/// is the name itself (one of the standard methods or an extension that keeps
/// the bytes it was given).
#[verifier::external_body]
pub(crate) fn parse_http_method(name: &str) -> (r: Option<String>)
    ensures
        r is Some <==> is_method_name(name@),
        r matches Some(m) ==> m@ == name@,
{
    match actix_web::http::Method::from_bytes(name.as_bytes()) {
        Ok(m) => Some(m.as_str().to_string()),
        Err(_) => None,
    }
}

} // verus!
