use vstd::prelude::*;

use crate::json::{JsonValue, JsonNode};
use crate::text::{join_with, views_of, join_strings, integer_text, decimal_text, is_integer_text,
    lemma_decimal_is_integer_text};
use crate::types::error::{ServiceError, db_access_error, db_access_failure};
use crate::module::db::config::ModuleDBType;

verus! {

/// Writing a value of type `T` into SQL text, or refusing it.
pub trait ModuleDBEscape<T> {
    fn try_escape_to_string(&self, item: T) -> Result<String, ServiceError>;
}

/// Whether `c` may stand in an SQL identifier: an ASCII letter, an ASCII digit or `_`.
pub open spec fn is_identifier_char(c: char) -> bool {
    ('a' <= c && c <= 'z') || ('A' <= c && c <= 'Z') || ('0' <= c && c <= '9') || c == '_'
}

/// Whether `s` is an SQL identifier the service accepts: one or more identifier characters.
pub open spec fn is_sql_identifier(s: Seq<char>) -> bool {
    s.len() > 0 && forall|k: int| 0 <= k < s.len() ==> is_identifier_char(#[trigger] s[k])
}

/// The regular expression that an identifier must match.
pub const IDENTIFIER_PATTERN: &'static str = "^[a-zA-Z0-9_]+$";

/// What the regex crate answers when `haystack` is matched against the
/// regular expression `pattern`: `None` when the pattern does not compile.
pub uninterp spec fn regex_match_result(pattern: Seq<char>, haystack: Seq<char>) -> Option<bool>;

/// Compiles `pattern` with `regex::Regex::new` and, when it compiles, tests
/// `haystack` with `Regex::is_match`.
/// Claimed: the answer is a function of the two strings; for the pattern
/// `^[a-zA-Z0-9_]+$` (anchored at both ends of the haystack, one or more
/// characters of the ASCII class) the pattern compiles and matches exactly
/// the non-empty strings of ASCII letters, digits and `_`.
#[verifier::external_body]
fn regex_is_match(pattern: &str, haystack: &str) -> (r: Option<bool>)
    ensures
        r == regex_match_result(pattern@, haystack@),
        pattern@ == IDENTIFIER_PATTERN@ ==> r == Some(is_sql_identifier(haystack@)),
{
    match regex::Regex::new(pattern) {
        Ok(re) => Some(re.is_match(haystack)),
        Err(_) => None,
    }
}

/// A name is written into SQL as itself, when it is an identifier.
impl ModuleDBEscape<()> for String {
    fn try_escape_to_string(&self, item: ()) -> (r: Result<String, ServiceError>)
        ensures
            r is Ok <==> is_sql_identifier(self@),
            r matches Ok(s) ==> s@ == self@,
            r matches Err(e) ==> e == db_access_error(),
    {
        match regex_is_match(IDENTIFIER_PATTERN, self.as_str()) {
            Some(true) => Ok(self.clone()),
            _ => Err(db_access_failure()),
        }
    }
}

/// `s` with every `'` doubled.
pub open spec fn doubled_quotes(s: Seq<char>) -> Seq<char>
    decreases s.len(),
{
    if s.len() == 0 {
        Seq::empty()
    } else if s.last() == '\'' {
        doubled_quotes(s.drop_last()) + seq!['\'', '\'']
    } else {
        doubled_quotes(s.drop_last()).push(s.last())
    }
}

/// The SQL string literal of `s` between `prefix` and `suffix`: a quote, the
/// prefix, `s` with its quotes doubled, the suffix and a closing quote.
pub open spec fn sql_quoted(s: Seq<char>, prefix: Seq<char>, suffix: Seq<char>) -> Seq<char> {
    seq!['\''] + prefix + doubled_quotes(s) + suffix + seq!['\'']
}

/// Writes `item` as an SQL string literal, with `prefix` and `suffix` inside the quotes.
pub fn escape(item: &str, prefix: &str, suffix: &str) -> (r: String)
    ensures
        r@ == sql_quoted(item@, prefix@, suffix@),
{
    proof {
        reveal_strlit("'");
        reveal_strlit("''");
    }
    let mut r = String::new();
    r.append("'");
    r.append(prefix);
    let n = item.unicode_len();
    let ghost start = r@;
    let mut i: usize = 0;
    while i < n
        invariant
            n == item@.len(),
            i <= n,
            start == seq!['\''] + prefix@,
            r@ == start + doubled_quotes(item@.take(i as int)),
        decreases n - i,
    {
        let c = item.get_char(i);
        assert(item@.take(i as int + 1).drop_last() =~= item@.take(i as int));
        assert(item@.take(i as int + 1).last() == c);
        let ghost t = item@.take(i as int + 1);
        let ghost before = r@;
        if c == '\'' {
            proof { reveal_strlit("''"); }
            assert("''"@ =~= seq!['\'', '\'']);
            r.append("''");
            assert(r@ =~= before + seq!['\'', '\'']);
            assert(doubled_quotes(t) == doubled_quotes(t.drop_last()) + seq!['\'', '\'']);
        } else {
            let one = item.substring_char(i, i + 1);
            assert(one@ =~= seq![c]);
            r.append(one);
            assert(r@ =~= before.push(c));
            assert(doubled_quotes(t) == doubled_quotes(t.drop_last()).push(c));
        }
        assert(r@ =~= start + doubled_quotes(item@.take(i as int + 1)));
        i = i + 1;
    }
    assert(item@.take(n as int) =~= item@);
    r.append(suffix);
    r.append("'");
    r
}

/// The SQL text of `v` in a column of type `ty`, or `None` when the value does not fit the type.
pub open spec fn escaped_value(ty: ModuleDBType, v: JsonValue) -> Option<Seq<char>>
    decreases ty, 0int,
{
    match ty {
        ModuleDBType::ARRAY(inner) => match v.node {
            JsonNode::Array(items) => match escaped_items(*inner, items@) {
                Some(parts) => Some(sql_quoted(join_with(parts, ","@), "{"@, "}"@)),
                None => None,
            },
            _ => None,
        },
        ModuleDBType::NULLABLE(inner) => {
            if v.node is Null {
                Some("Null"@)
            } else {
                escaped_value(*inner, v)
            }
        },
        ModuleDBType::INT | ModuleDBType::BIG_INT | ModuleDBType::SERIAL | ModuleDBType::BIG_SERIAL => {
            match v.node {
                JsonNode::Integer(n) => Some(decimal_text(n as int)),
                _ => None,
            }
        },
        ModuleDBType::TEXT => match v.node {
            JsonNode::String(s) => Some(sql_quoted(s@, Seq::empty(), Seq::empty())),
            _ => None,
        },
        ModuleDBType::OBJECT => Some(sql_quoted(v.text@, Seq::empty(), Seq::empty())),
    }
}

/// The SQL texts of `items` in columns of type `ty`, or `None` when one of them does not fit.
pub open spec fn escaped_items(ty: ModuleDBType, items: Seq<JsonValue>) -> Option<Seq<Seq<char>>>
    decreases ty, items.len() + 1,
{
    if items.len() == 0 {
        Some(Seq::empty())
    } else {
        match escaped_items(ty, items.drop_last()) {
            Some(parts) => match escaped_value(ty, items.last()) {
                Some(p) => Some(parts.push(p)),
                None => None,
            },
            None => None,
        }
    }
}

impl ModuleDBType {
    /// The SQL text of `item` in a column of this type.
    pub(crate) fn escape_value(&self, item: &JsonValue) -> (r: Option<String>)
        ensures
            match (r, escaped_value(*self, *item)) {
                (Some(s), Some(t)) => s@ == t,
                (None, None) => true,
                _ => false,
            },
        decreases self,
    {
        proof {
            reveal_strlit("Null");
            reveal_strlit(",");
            reveal_strlit("{");
            reveal_strlit("}");
            reveal_strlit("");
        }
        match self {
            ModuleDBType::ARRAY(inner) => {
                match &item.node {
                    JsonNode::Array(items) => {
                        let mut parts: Vec<String> = Vec::new();
                        let mut k: usize = 0;
                        while k < items.len()
                            invariant
                                k <= items@.len(),
                                *self == ModuleDBType::ARRAY(*inner),
                                item.node == JsonNode::Array(*items),
                                escaped_items(**inner, items@.take(k as int)) == Some(views_of(parts@)),
                            decreases items@.len() - k,
                        {
                            assert(items@.take(k as int + 1).drop_last() =~= items@.take(k as int));
                            assert(items@.take(k as int + 1).last() == items@[k as int]);
                            match inner.escape_value(&items[k]) {
                                Some(s) => {
                                    let ghost before = parts@;
                                    parts.push(s);
                                    assert(views_of(parts@) =~= views_of(before).push(s@));
                                },
                                None => {
                                    proof {
                                        lemma_escaped_items_none_extends(**inner, items@, k as int + 1);
                                    }
                                    return None;
                                },
                            }
                            k = k + 1;
                        }
                        assert(items@.take(items@.len() as int) =~= items@);
                        let joined = join_strings(&parts, ",");
                        Some(escape(joined.as_str(), "{", "}"))
                    },
                    _ => None,
                }
            },
            ModuleDBType::NULLABLE(inner) => {
                if item.is_null() {
                    Some(String::from_str("Null"))
                } else {
                    inner.escape_value(item)
                }
            },
            ModuleDBType::INT | ModuleDBType::BIG_INT | ModuleDBType::SERIAL | ModuleDBType::BIG_SERIAL => {
                match &item.node {
                    JsonNode::Integer(n) => Some(integer_text(*n)),
                    _ => None,
                }
            },
            ModuleDBType::TEXT => {
                match &item.node {
                    JsonNode::String(s) => Some(escape(s.as_str(), "", "")),
                    _ => None,
                }
            },
            ModuleDBType::OBJECT => Some(escape(item.text.as_str(), "", "")),
        }
    }
}

/// When a prefix of the items does not fit the type, neither do all of them.
proof fn lemma_escaped_items_none_extends(ty: ModuleDBType, items: Seq<JsonValue>, k: int)
    requires
        0 <= k <= items.len(),
        escaped_items(ty, items.take(k)) is None,
    ensures
        escaped_items(ty, items) is None,
    decreases items.len() - k,
{
    if k < items.len() {
        assert(items.take(k + 1).drop_last() =~= items.take(k));
        lemma_escaped_items_none_extends(ty, items, k + 1);
    } else {
        assert(items.take(k) =~= items);
    }
}

/// A value is written into SQL according to the type of its column.
impl ModuleDBEscape<JsonValue> for ModuleDBType {
    fn try_escape_to_string(&self, item: JsonValue) -> (r: Result<String, ServiceError>)
        ensures
            r is Ok <==> escaped_value(*self, item) is Some,
            r matches Ok(s) ==> Some(s@) == escaped_value(*self, item),
            r matches Err(e) ==> e == db_access_error(),
    {
        match self.escape_value(&item) {
            Some(s) => Ok(s),
            None => Err(db_access_failure()),
        }
    }
}

} // verus!

verus! {

/// Whether every run of quotes in `s` has even length, so that each quote is
/// escaped by the quote next to it.
pub open spec fn quotes_paired(s: Seq<char>) -> bool
    decreases s.len(),
{
    if s.len() == 0 {
        true
    } else if s.last() != '\'' {
        quotes_paired(s.drop_last())
    } else {
        s.len() >= 2 && s[s.len() - 2] == '\'' && quotes_paired(s.subrange(0, s.len() - 2))
    }
}

/// Whether `s` is one complete SQL string literal: it opens and closes with a
/// quote, and every quote between them is doubled.
pub open spec fn is_sql_string_literal(s: Seq<char>) -> bool {
    &&& s.len() >= 2
    &&& s[0] == '\''
    &&& s.last() == '\''
    &&& quotes_paired(s.subrange(1, s.len() - 1))
}

/// Whether `s` can stand as one value in an SQL statement without changing
/// the statement around it: `Null`, an integer, or one string literal.
pub open spec fn is_safe_sql_value(s: Seq<char>) -> bool {
    s == "Null"@ || is_integer_text(s) || is_sql_string_literal(s)
}

/// Whether `s` holds no quote.
pub open spec fn has_no_quote(s: Seq<char>) -> bool {
    forall|k: int| 0 <= k < s.len() ==> #[trigger] s[k] != '\''
}

proof fn lemma_paired_concat(a: Seq<char>, b: Seq<char>)
    requires
        quotes_paired(a),
        quotes_paired(b),
    ensures
        quotes_paired(a + b),
    decreases b.len(),
{
    if b.len() == 0 {
        assert(a + b =~= a);
    } else if b.last() != '\'' {
        lemma_paired_concat(a, b.drop_last());
        assert((a + b).drop_last() =~= a + b.drop_last());
    } else {
        lemma_paired_concat(a, b.subrange(0, b.len() - 2));
        assert((a + b).subrange(0, (a + b).len() - 2) =~= a + b.subrange(0, b.len() - 2));
        assert((a + b)[(a + b).len() - 2] == b[b.len() - 2]);
    }
}

proof fn lemma_no_quote_paired(s: Seq<char>)
    requires
        has_no_quote(s),
    ensures
        quotes_paired(s),
    decreases s.len(),
{
    if s.len() > 0 {
        assert(s.last() == s[s.len() - 1]);
        assert(has_no_quote(s.drop_last()));
        lemma_no_quote_paired(s.drop_last());
    }
}

proof fn lemma_doubled_paired(s: Seq<char>)
    ensures
        quotes_paired(doubled_quotes(s)),
    decreases s.len(),
{
    if s.len() > 0 {
        lemma_doubled_paired(s.drop_last());
        let pair = seq!['\'', '\''];
        if s.last() == '\'' {
            assert(pair.subrange(0, 0) =~= Seq::<char>::empty());
            assert(quotes_paired(Seq::<char>::empty()));
            assert(pair.last() == '\'' && pair[0] == '\'');
            assert(quotes_paired(pair));
            lemma_paired_concat(doubled_quotes(s.drop_last()), pair);
        } else {
            let one = seq![s.last()];
            assert(one.drop_last() =~= Seq::<char>::empty());
            assert(quotes_paired(Seq::<char>::empty()));
            assert(one.last() == s.last());
            assert(quotes_paired(one));
            lemma_paired_concat(doubled_quotes(s.drop_last()), one);
            assert(doubled_quotes(s.drop_last()).push(s.last()) =~= doubled_quotes(s.drop_last()) + one);
        }
    }
}

proof fn lemma_quoted_is_literal(s: Seq<char>, prefix: Seq<char>, suffix: Seq<char>)
    requires
        has_no_quote(prefix),
        has_no_quote(suffix),
    ensures
        is_sql_string_literal(sql_quoted(s, prefix, suffix)),
{
    let q = sql_quoted(s, prefix, suffix);
    let inner = prefix + doubled_quotes(s) + suffix;
    assert(q.subrange(1, q.len() - 1) =~= inner);
    lemma_no_quote_paired(prefix);
    lemma_no_quote_paired(suffix);
    lemma_doubled_paired(s);
    lemma_paired_concat(prefix, doubled_quotes(s));
    lemma_paired_concat(prefix + doubled_quotes(s), suffix);
    assert(q[0] == '\'');
    assert(q.last() == '\'');
}

/// Every value that the service writes into SQL is safe there: whatever the
/// value and the column type, a written value is `Null`, an integer, or a
/// single string literal whose quotes are all doubled, so no value can end a
/// literal early and add SQL of its own.
pub proof fn lemma_escaped_value_is_safe(ty: ModuleDBType, v: JsonValue)
    ensures
        escaped_value(ty, v) matches Some(r) ==> is_safe_sql_value(r),
    decreases ty,
{
    let empty = Seq::<char>::empty();
    assert(has_no_quote(empty));
    match ty {
        ModuleDBType::ARRAY(inner) => {
            reveal_strlit("{");
            reveal_strlit("}");
            assert(has_no_quote("{"@));
            assert(has_no_quote("}"@));
            match v.node {
                JsonNode::Array(items) => {
                    if let Some(parts) = escaped_items(*inner, items@) {
                        lemma_quoted_is_literal(join_with(parts, ","@), "{"@, "}"@);
                    }
                },
                _ => {},
            }
        },
        ModuleDBType::NULLABLE(inner) => {
            lemma_escaped_value_is_safe(*inner, v);
        },
        ModuleDBType::INT | ModuleDBType::BIG_INT | ModuleDBType::SERIAL | ModuleDBType::BIG_SERIAL => {
            if let JsonNode::Integer(n) = v.node {
                lemma_decimal_is_integer_text(n as int);
            }
        },
        ModuleDBType::TEXT => {
            if let JsonNode::String(s) = v.node {
                lemma_quoted_is_literal(s@, empty, empty);
            }
        },
        ModuleDBType::OBJECT => {
            lemma_quoted_is_literal(v.text@, empty, empty);
        },
    }
}

/// An ARRAY column writes a JSON array, of any length, as one quoted array
/// literal: `'{`, the items' texts joined with `,`, then `}'`. In particular
/// an empty array is `'{}'` whatever the item type, never `Null`.
pub proof fn lemma_array_is_one_literal(inner: ModuleDBType, v: JsonValue)
    requires
        v.node is Array,
    ensures
        escaped_value(ModuleDBType::ARRAY(Box::new(inner)), v) matches Some(r) ==> {
            &&& r.len() >= 4
            &&& r[0] == '\''
            &&& r[1] == '{'
            &&& r[r.len() - 2] == '}'
            &&& r[r.len() - 1] == '\''
        },
        v.node->Array_0@.len() == 0 ==> escaped_value(ModuleDBType::ARRAY(Box::new(inner)), v)
            == Some("'{}'"@),
{
    reveal_strlit("{");
    reveal_strlit("}");
    reveal_strlit("'{}'");
    let items = v.node->Array_0@;
    if let Some(parts) = escaped_items(inner, items) {
        let d = doubled_quotes(join_with(parts, ","@));
        let r = sql_quoted(join_with(parts, ","@), "{"@, "}"@);
        assert(r =~= seq!['\'', '{'] + d + seq!['}', '\'']);
        assert(r[0] == '\'');
        assert(r[1] == '{');
        assert(r[r.len() - 2] == '}');
        assert(r[r.len() - 1] == '\'');
        if items.len() == 0 {
            assert(parts.len() == 0);
            assert(join_with(parts, ","@) == Seq::<char>::empty());
            assert(d =~= Seq::<char>::empty());
            assert(r =~= "'{}'"@);
        }
    }
}

/// A value is written as `Null` only when the column is NULLABLE and the
/// value is JSON null: no integer, string, object or array is ever `Null`.
pub proof fn lemma_null_only_for_nullable_null(ty: ModuleDBType, v: JsonValue)
    ensures
        escaped_value(ty, v) == Some("Null"@) ==> ty is NULLABLE && v.node is Null,
    decreases ty,
{
    reveal_strlit("Null");
    match ty {
        ModuleDBType::NULLABLE(inner) => {
            lemma_null_only_for_nullable_null(*inner, v);
        },
        ModuleDBType::INT | ModuleDBType::BIG_INT | ModuleDBType::SERIAL | ModuleDBType::BIG_SERIAL => {
            if let JsonNode::Integer(n) = v.node {
                lemma_decimal_is_integer_text(n as int);
                let t = decimal_text(n as int);
                if t == "Null"@ {
                    assert(t[0] == 'N');
                    assert(t[1] == 'u');
                }
            }
        },
        ModuleDBType::TEXT => {
            if let JsonNode::String(s) = v.node {
                assert(sql_quoted(s@, Seq::empty(), Seq::empty())[0] == '\'');
            }
        },
        ModuleDBType::OBJECT => {
            assert(sql_quoted(v.text@, Seq::empty(), Seq::empty())[0] == '\'');
        },
        ModuleDBType::ARRAY(inner) => {
            if let JsonNode::Array(items) = v.node {
                if let Some(parts) = escaped_items(*inner, items@) {
                    assert(sql_quoted(join_with(parts, ","@), "{"@, "}"@)[0] == '\'');
                }
            }
        },
    }
}

} // verus!
