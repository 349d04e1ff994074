//! The derive of `ModuleDBMeta`: from a struct's `#[meta(..)]` attributes to
//! the text of an implementation that describes its table.
//!
//! The derive reads the struct through a plain model of its tokens (each
//! token's kind, text and, for a group, the tokens inside), and writes the
//! implementation as text.

use vstd::prelude::*;

use crate::text::{str_equal, concat_all};

verus! {

/// The kinds of token in an attribute.
#[derive(Debug, Clone, Copy, PartialEq, Eq, Structural)]
pub enum TokenKind {
    Ident,
    Punct,
    Literal,
    Group,
}

/// A token of an attribute: its kind, its text as the token prints, and for
/// a group the tokens inside it.
#[derive(Debug)]
pub struct MetaToken {
    pub kind: TokenKind,
    pub text: String,
    pub inner: Vec<MetaToken>,
}

/// An attribute: the first segment of its path, where it has one, and the
/// tokens after the path.
#[derive(Debug)]
pub struct MetaAttribute {
    pub path: Option<String>,
    pub tokens: Vec<MetaToken>,
}

/// A field of the struct: its name, where it has one, and its attributes.
#[derive(Debug)]
pub struct MetaField {
    pub ident: Option<String>,
    pub attrs: Vec<MetaAttribute>,
}

/// The body of the item the derive is on.
#[derive(Debug)]
pub enum MetaData {
    /// A struct with named fields.
    NamedStruct(Vec<MetaField>),
    /// Anything else.
    Other,
}

/// The item the derive is on: its name, its attributes and its body.
#[derive(Debug)]
pub struct MetaInput {
    pub ident: String,
    pub attrs: Vec<MetaAttribute>,
    pub data: MetaData,
}

/// Why the derive fails.
#[derive(Debug, Clone, Copy, PartialEq, Eq, Structural)]
pub enum MetaError {
    /// A field has no `Type` option.
    TypeRequired,
    /// A field has no name.
    IdentRequired,
    /// The struct has no `table_name` or no `primary_key` option.
    TableNameRequired,
    /// The item is not a struct with named fields.
    NotSupported,
    /// The text of an option's value is not a token stream.
    NotTokens,
}

impl MetaError {
    /// The message the derive reports.
    pub fn message(&self) -> (r: &'static str)
        ensures
            r@ == meta_error_message(*self),
    {
        match self {
            MetaError::TypeRequired => "Type are required",
            MetaError::IdentRequired => "Ident are required",
            MetaError::TableNameRequired => "table_name are required",
            MetaError::NotSupported => "Not supported",
            MetaError::NotTokens => "option value is not a token stream",
        }
    }
}

/// The message of each error of the derive.
pub open spec fn meta_error_message(e: MetaError) -> Seq<char> {
    match e {
        MetaError::TypeRequired => "Type are required"@,
        MetaError::IdentRequired => "Ident are required"@,
        MetaError::TableNameRequired => "table_name are required"@,
        MetaError::NotSupported => "Not supported"@,
        MetaError::NotTokens => "option value is not a token stream"@,
    }
}

/// Parses `text` with `proc_macro2::TokenStream::from_str` and tells whether
/// it lexed. Nothing is stated of the answer: `proc_macro2` lexes with its
/// own lexer outside a procedural macro and hands the text to rustc's lexer
/// inside one, so one text may lex in one process and not in another.
#[verifier::external_body]
fn token_text_lexes(text: &str) -> (r: bool)
{
    <proc_macro2::TokenStream as std::str::FromStr>::from_str(text).is_ok()
}

/// The index of the first identifier among `tokens`, from `from` on.
pub open spec fn first_ident_from(tokens: Seq<MetaToken>, from: int) -> Option<int>
    decreases tokens.len() - from,
{
    if from < 0 || from >= tokens.len() {
        None
    } else if tokens[from].kind == TokenKind::Ident {
        Some(from)
    } else {
        first_ident_from(tokens, from + 1)
    }
}

/// The index of the first punctuation among `tokens`, from `from` on.
pub open spec fn first_punct_from(tokens: Seq<MetaToken>, from: int) -> Option<int>
    decreases tokens.len() - from,
{
    if from < 0 || from >= tokens.len() {
        None
    } else if tokens[from].kind == TokenKind::Punct {
        Some(from)
    } else {
        first_punct_from(tokens, from + 1)
    }
}

/// The texts of tokens, one after the other.
pub open spec fn token_texts(tokens: Seq<MetaToken>) -> Seq<Seq<char>> {
    tokens.map_values(|t: MetaToken| t.text@)
}

/// The option that the tokens of a group set: the first identifier is its
/// key, and the texts of all the tokens after the first punctuation that
/// follows it, joined, are its value; none where either is missing.
pub open spec fn group_option(tokens: Seq<MetaToken>) -> Option<(Seq<char>, Seq<char>)> {
    match first_ident_from(tokens, 0) {
        Some(k) => match first_punct_from(tokens, k + 1) {
            Some(p) => Some((tokens[k].text@, concat_all(token_texts(tokens.subrange(p + 1, tokens.len() as int))))),
            None => None,
        },
        None => None,
    }
}

/// The options that the groups among `tokens` set, in order.
pub open spec fn options_of_tokens(tokens: Seq<MetaToken>) -> Seq<(Seq<char>, Seq<char>)>
    decreases tokens.len(),
{
    if tokens.len() == 0 {
        Seq::empty()
    } else {
        let rest = options_of_tokens(tokens.drop_last());
        let t = tokens.last();
        if t.kind == TokenKind::Group {
            match group_option(t.inner@) {
                Some(o) => rest.push(o),
                None => rest,
            }
        } else {
            rest
        }
    }
}

/// The options that the attributes named `path` set, in order.
pub open spec fn options_of(attrs: Seq<MetaAttribute>, path: Seq<char>) -> Seq<(Seq<char>, Seq<char>)>
    decreases attrs.len(),
{
    if attrs.len() == 0 {
        Seq::empty()
    } else {
        let rest = options_of(attrs.drop_last(), path);
        let a = attrs.last();
        match a.path {
            Some(p) => if p@ == path {
                rest + options_of_tokens(a.tokens@)
            } else {
                rest
            },
            None => rest,
        }
    }
}

/// The value last set for `key` among `options`.
pub open spec fn option_value(options: Seq<(Seq<char>, Seq<char>)>, key: Seq<char>) -> Option<Seq<char>>
    decreases options.len(),
{
    if options.len() == 0 {
        None
    } else if options.last().0 == key {
        Some(options.last().1)
    } else {
        option_value(options.drop_last(), key)
    }
}

/// Whether the lexer accepted each of the first `n` option values, by the
/// answers `lexed` (one per value, in order).
pub open spec fn all_lexed(n: int, lexed: Seq<bool>) -> bool {
    n <= lexed.len() && forall|i: int| 0 <= i < n ==> #[trigger] lexed[i]
}

/// The views of a sequence of option pairs.
pub open spec fn option_views(v: Seq<(String, String)>) -> Seq<(Seq<char>, Seq<char>)> {
    v.map_values(|p: (String, String)| (p.0@, p.1@))
}

/// The joined texts of `tokens`.
fn join_token_texts(tokens: &Vec<MetaToken>, from: usize) -> (r: String)
    requires
        from <= tokens@.len(),
    ensures
        r@ == concat_all(token_texts(tokens@.subrange(from as int, tokens@.len() as int))),
{
    let mut r = String::new();
    let mut i: usize = from;
    while i < tokens.len()
        invariant
            from <= i <= tokens@.len(),
            r@ == concat_all(token_texts(tokens@.subrange(from as int, i as int))),
        decreases tokens@.len() - i,
    {
        let ghost before = token_texts(tokens@.subrange(from as int, i as int));
        r.append(tokens[i].text.as_str());
        assert(token_texts(tokens@.subrange(from as int, i as int + 1)) =~= before.push(tokens@[i as int].text@));
        assert(before.push(tokens@[i as int].text@).drop_last() =~= before);
        i = i + 1;
    }
    r
}

/// The option a group sets, where it sets one.
fn read_group(tokens: &Vec<MetaToken>) -> (r: Option<(String, String)>)
    ensures
        match r {
            Some(o) => group_option(tokens@) == Some((o.0@, o.1@)),
            None => group_option(tokens@) is None,
        },
{
    let mut k: usize = 0;
    while k < tokens.len() && tokens[k].kind != TokenKind::Ident
        invariant
            k <= tokens@.len(),
            first_ident_from(tokens@, 0) == first_ident_from(tokens@, k as int),
        decreases tokens@.len() - k,
    {
        k = k + 1;
    }
    if k == tokens.len() {
        return None;
    }
    let mut p: usize = k + 1;
    assert(first_ident_from(tokens@, k as int) == Some(k as int));
    while p < tokens.len() && tokens[p].kind != TokenKind::Punct
        invariant
            k < tokens@.len(),
            k + 1 <= p <= tokens@.len(),
            first_punct_from(tokens@, k + 1) == first_punct_from(tokens@, p as int),
        decreases tokens@.len() - p,
    {
        p = p + 1;
    }
    if p == tokens.len() {
        return None;
    }
    let key = tokens[k].text.clone();
    let value = join_token_texts(tokens, p + 1);
    Some((key, value))
}

/// The options that the attributes named `path` set, in order (a later one
/// overrides an earlier one with the same key).
pub fn attribute_options(attrs: &Vec<MetaAttribute>, path: &str) -> (r: Vec<(String, String)>)
    ensures
        option_views(r@) == options_of(attrs@, path@),
{
    let mut out: Vec<(String, String)> = Vec::new();
    let mut i: usize = 0;
    while i < attrs.len()
        invariant
            i <= attrs@.len(),
            option_views(out@) == options_of(attrs@.take(i as int), path@),
        decreases attrs@.len() - i,
    {
        let ghost prefix = attrs@.take(i as int);
        assert(attrs@.take(i as int + 1).drop_last() =~= prefix);
        assert(attrs@.take(i as int + 1).last() == attrs@[i as int]);
        let a = &attrs[i];
        let selected = match &a.path {
            Some(p) => str_equal(p.as_str(), path),
            None => false,
        };
        if selected {
            let tokens = &a.tokens;
            let ghost base = option_views(out@);
            let mut j: usize = 0;
            while j < tokens.len()
                invariant
                    j <= tokens@.len(),
                    i < attrs@.len(),
                    prefix == attrs@.take(i as int),
                    attrs@.take(i as int + 1).drop_last() == prefix,
                    attrs@.take(i as int + 1).last() == attrs@[i as int],
                    attrs@[i as int].path matches Some(p) && p@ == path@,
                    tokens@ == attrs@[i as int].tokens@,
                    base == options_of(prefix, path@),
                    option_views(out@) == base + options_of_tokens(tokens@.take(j as int)),
                        decreases tokens@.len() - j,
            {
                assert(tokens@.take(j as int + 1).drop_last() =~= tokens@.take(j as int));
                assert(tokens@.take(j as int + 1).last() == tokens@[j as int]);
                let t = &tokens[j];
                if t.kind == TokenKind::Group {
                    match read_group(&t.inner) {
                        Some(o) => {
                            let ghost before = option_views(out@);
                            out.push(o);
                            assert(option_views(out@) =~= before.push((out@.last().0@, out@.last().1@)));
                        },
                        None => {},
                    }
                }
                assert(option_views(out@) =~= base + options_of_tokens(tokens@.take(j as int + 1)));
                j = j + 1;
            }
            assert(tokens@.take(tokens@.len() as int) =~= tokens@);
        }
        assert(option_views(out@) =~= options_of(attrs@.take(i as int + 1), path@));
        i = i + 1;
    }
    assert(attrs@.take(attrs@.len() as int) =~= attrs@);
    out
}


/// The options that the attributes named `path` set, in order, given the
/// lexer's answer for each of their values in `lexed`; `None` where the lexer
/// refused one of them (or gave no answer for it).
pub fn options_from(attrs: &Vec<MetaAttribute>, path: &str, lexed: &Vec<bool>) -> (r: Option<Vec<(String, String)>>)
    ensures
        match r {
            Some(v) => all_lexed(options_of(attrs@, path@).len() as int, lexed@)
                && option_views(v@) == options_of(attrs@, path@),
            None => !all_lexed(options_of(attrs@, path@).len() as int, lexed@),
        },
{
    let options = attribute_options(attrs, path);
    if all_accepted(options.len(), lexed) {
        Some(options)
    } else {
        None
    }
}

/// Whether the first `n` answers of `lexed` are all acceptances.
fn all_accepted(n: usize, lexed: &Vec<bool>) -> (r: bool)
    ensures
        r == all_lexed(n as int, lexed@),
{
    if n > lexed.len() {
        return false;
    }
    let mut i: usize = 0;
    while i < n
        invariant
            i <= n <= lexed@.len(),
            forall|k: int| 0 <= k < i ==> #[trigger] lexed@[k],
        decreases n - i,
    {
        if !lexed[i] {
            return false;
        }
        i = i + 1;
    }
    true
}

/// The lexer's answer for each value of `options`, in order.
fn lex_values(options: &Vec<(String, String)>) -> (r: Vec<bool>)
    ensures
        r@.len() == options@.len(),
{
    let mut out: Vec<bool> = Vec::new();
    let mut i: usize = 0;
    while i < options.len()
        invariant
            i <= options@.len(),
            out@.len() == i,
        decreases options@.len() - i,
    {
        out.push(token_text_lexes(options[i].1.as_str()));
        i = i + 1;
    }
    out
}

/// The options that the attributes named `path` set, in order; `None` where
/// the lexer refused one of their values, which can only be so where there
/// is some option at all. Which values the lexer refuses is not stated (see
/// `token_text_lexes`); `options_from` gives the outcome for given answers.
pub fn derive_attribute_helper(attrs: &Vec<MetaAttribute>, path: &str) -> (r: Option<Vec<(String, String)>>)
    ensures
        match r {
            Some(v) => option_views(v@) == options_of(attrs@, path@),
            None => options_of(attrs@, path@).len() > 0,
        },
{
    let options = attribute_options(attrs, path);
    let lexed = lex_values(&options);
    let r = options_from(attrs, path, &lexed);
    proof {
        if r is None {
            let n = options_of(attrs@, path@).len() as int;
            if n == 0 {
                assert(all_lexed(n, lexed@));
            }
        }
    }
    r
}

/// The text of the column `ident` with the type `ty`, as an element of the
/// list of columns.
pub open spec fn column_text(ident: Seq<char>, ty: Seq<char>) -> Seq<char> {
    "(\""@ + ident + "\".to_string(), "@ + ty + "), "@
}

/// The text of the implementation of `ModuleDBMeta` for the struct `name`,
/// with the table name and primary key texts and the list of columns.
pub open spec fn impl_text(name: Seq<char>, table: Seq<char>, key: Seq<char>, columns: Seq<char>) -> Seq<char> {
    "impl crate::module::ModuleDBMeta for "@ + name
        + " { fn config() -> crate::module::ModuleDBConfig { let columns = vec!["@
        + columns + "]; crate::module::ModuleDBConfig::factory("@ + table + ".to_string(), "@ + key
        + ".to_string(), columns).unwrap() } }"@
}

/// The column of the field `f` with options `opts` after the columns `t`:
/// the field needs a name and a `Type` option.
pub open spec fn field_column(t: Seq<char>, f: MetaField, opts: Seq<(Seq<char>, Seq<char>)>) -> Result<Seq<char>, MetaError> {
    match f.ident {
        Some(id) => match option_value(opts, "Type"@) {
            Some(ty) => Ok(t + column_text(id@, ty)),
            None => Err(MetaError::TypeRequired),
        },
        None => Err(MetaError::IdentRequired),
    }
}

/// The lexer's answers for the options of field `i`, where there are any.
pub open spec fn lexed_at(lexed: Seq<Seq<bool>>, i: int) -> Seq<bool> {
    if 0 <= i < lexed.len() {
        lexed[i]
    } else {
        Seq::empty()
    }
}

/// The views of lists of answers.
pub open spec fn lexed_views(v: Seq<Vec<bool>>) -> Seq<Seq<bool>> {
    v.map_values(|x: Vec<bool>| x@)
}

/// The columns of the fields, field after field, given the lexer's answers
/// for each field's option values; or the error of the first field that
/// fails: a value of its options was refused, it has no name, or it has no
/// `Type` option.
pub open spec fn fields_text_with(fields: Seq<MetaField>, lexed: Seq<Seq<bool>>) -> Result<Seq<char>, MetaError>
    decreases fields.len(),
{
    if fields.len() == 0 {
        Ok(Seq::empty())
    } else {
        match fields_text_with(fields.drop_last(), lexed) {
            Err(e) => Err(e),
            Ok(t) => {
                let opts = options_of(fields.last().attrs@, "meta"@);
                if !all_lexed(opts.len() as int, lexed_at(lexed, fields.len() - 1)) {
                    Err(MetaError::NotTokens)
                } else {
                    field_column(t, fields.last(), opts)
                }
            },
        }
    }
}

/// The columns of the fields, field after field, or the error of the first
/// field without a name or without a `Type` option, where every option value
/// is taken as given.
pub open spec fn fields_text(fields: Seq<MetaField>) -> Result<Seq<char>, MetaError>
    decreases fields.len(),
{
    if fields.len() == 0 {
        Ok(Seq::empty())
    } else {
        match fields_text(fields.drop_last()) {
            Err(e) => Err(e),
            Ok(t) => field_column(t, fields.last(), options_of(fields.last().attrs@, "meta"@)),
        }
    }
}

/// What the derive gives for `input`, given the lexer's answers for the
/// struct's option values and for each field's: a refused value is an
/// error; else the implementation text for a struct with named fields whose
/// `meta` options name a table and a primary key and whose fields all have a
/// name and a `Type`; else the first error met.
pub open spec fn meta_derive_with(input: MetaInput, attrs_lexed: Seq<bool>, fields_lexed: Seq<Seq<bool>>) -> Result<Seq<char>, MetaError> {
    let attrs = options_of(input.attrs@, "meta"@);
    if !all_lexed(attrs.len() as int, attrs_lexed) {
        Err(MetaError::NotTokens)
    } else {
        match input.data {
            MetaData::NamedStruct(fields) => match (option_value(attrs, "table_name"@), option_value(attrs, "primary_key"@)) {
                (Some(table), Some(key)) => match fields_text_with(fields@, fields_lexed) {
                    Ok(c) => Ok(impl_text(input.ident@, table, key, c)),
                    Err(e) => Err(e),
                },
                _ => Err(MetaError::TableNameRequired),
            },
            MetaData::Other => Err(MetaError::NotSupported),
        }
    }
}

/// What the derive gives for `input` where every option value is taken as given.
pub open spec fn meta_derive(input: MetaInput) -> Result<Seq<char>, MetaError> {
    let attrs = options_of(input.attrs@, "meta"@);
    match input.data {
        MetaData::NamedStruct(fields) => match (option_value(attrs, "table_name"@), option_value(attrs, "primary_key"@)) {
            (Some(table), Some(key)) => match fields_text(fields@) {
                Ok(c) => Ok(impl_text(input.ident@, table, key, c)),
                Err(e) => Err(e),
            },
            _ => Err(MetaError::TableNameRequired),
        },
        MetaData::Other => Err(MetaError::NotSupported),
    }
}

/// Whether `input` sets any `meta` option, on the struct or on one of its fields.
pub open spec fn meta_has_option(input: MetaInput) -> bool {
    ||| options_of(input.attrs@, "meta"@).len() > 0
    ||| (input.data matches MetaData::NamedStruct(fields)
        && exists|i: int| 0 <= i < fields@.len() && #[trigger] options_of(fields@[i].attrs@, "meta"@).len() > 0)
}

/// The value last set for `key` among `options`.
fn find_option(options: &Vec<(String, String)>, key: &str) -> (r: Option<String>)
    ensures
        match r {
            Some(v) => option_value(option_views(options@), key@) == Some(v@),
            None => option_value(option_views(options@), key@) is None,
        },
{
    let ghost all = option_views(options@);
    let mut i: usize = options.len();
    assert(all.take(i as int) =~= all);
    while i > 0
        invariant
            i <= options@.len(),
            all == option_views(options@),
            option_value(all, key@) == option_value(all.take(i as int), key@),
        decreases i,
    {
        let ghost pre = all.take(i as int);
        assert(pre.drop_last() =~= all.take(i as int - 1));
        assert(pre.last() == all[i as int - 1]);
        if str_equal(options[i - 1].0.as_str(), key) {
            return Some(options[i - 1].1.clone());
        }
        i = i - 1;
    }
    None
}

/// The columns of the fields, or the error of the first field that fails,
/// given the lexer's answers for each field's option values.
fn fields_code(fields: &Vec<MetaField>, fields_lexed: &Vec<Vec<bool>>) -> (r: Result<String, MetaError>)
    ensures
        match r {
            Ok(t) => fields_text_with(fields@, lexed_views(fields_lexed@)) == Ok::<Seq<char>, MetaError>(t@),
            Err(e) => fields_text_with(fields@, lexed_views(fields_lexed@)) == Err::<Seq<char>, MetaError>(e),
        },
{
    let ghost lexed = lexed_views(fields_lexed@);
    let mut out = String::new();
    let mut i: usize = 0;
    while i < fields.len()
        invariant
            i <= fields@.len(),
            lexed == lexed_views(fields_lexed@),
            fields_text_with(fields@.take(i as int), lexed) == Ok::<Seq<char>, MetaError>(out@),
        decreases fields@.len() - i,
    {
        let ghost pre = fields@.take(i as int + 1);
        assert(pre.drop_last() =~= fields@.take(i as int));
        assert(pre.last() == fields@[i as int]);
        let f = &fields[i];
        proof {
            reveal_strlit("meta");
            reveal_strlit("Type");
            reveal_strlit("(\"");
            reveal_strlit("\".to_string(), ");
            reveal_strlit("), ");
        }
        let opts = attribute_options(&f.attrs, "meta");
        let accepted = if i < fields_lexed.len() {
            all_accepted(opts.len(), &fields_lexed[i])
        } else {
            opts.len() == 0
        };
        if !accepted {
            proof { lemma_fields_text_error(fields@, lexed, i as int + 1); }
            return Err(MetaError::NotTokens);
        }
        let ident = match &f.ident {
            Some(id) => id,
            None => {
                proof { lemma_fields_text_error(fields@, lexed, i as int + 1); }
                return Err(MetaError::IdentRequired);
            },
        };
        let ty = match find_option(&opts, "Type") {
            Some(t) => t,
            None => {
                proof { lemma_fields_text_error(fields@, lexed, i as int + 1); }
                return Err(MetaError::TypeRequired);
            },
        };
        out.append("(\"");
        out.append(ident.as_str());
        out.append("\".to_string(), ");
        out.append(ty.as_str());
        out.append("), ");
        assert(out@ =~= fields_text_with(fields@.take(i as int), lexed)->Ok_0 + column_text(ident@, ty@));
        i = i + 1;
    }
    assert(fields@.take(fields@.len() as int) =~= fields@);
    Ok(out)
}

/// An error among the first fields is the error of all of them.
proof fn lemma_fields_text_error(fields: Seq<MetaField>, lexed: Seq<Seq<bool>>, n: int)
    requires
        0 <= n <= fields.len(),
        fields_text_with(fields.take(n), lexed) is Err,
    ensures
        fields_text_with(fields, lexed) == fields_text_with(fields.take(n), lexed),
    decreases fields.len() - n,
{
    if n < fields.len() {
        assert(fields.take(n + 1).drop_last() =~= fields.take(n));
        lemma_fields_text_error(fields, lexed, n + 1);
    } else {
        assert(fields.take(n) =~= fields);
    }
}

/// Where the lexer gave one answer for each option value of each field, the
/// outcome is the one with every value taken as given, unless a value was
/// refused, and a value can only have been refused where there is one.
proof fn lemma_fields_lexed(fields: Seq<MetaField>, lexed: Seq<Seq<bool>>)
    requires
        lexed.len() >= fields.len(),
        forall|i: int| 0 <= i < fields.len()
            ==> #[trigger] lexed[i].len() == options_of(fields[i].attrs@, "meta"@).len(),
    ensures
        fields_text_with(fields, lexed) != Err::<Seq<char>, MetaError>(MetaError::NotTokens)
            ==> fields_text_with(fields, lexed) == fields_text(fields),
        fields_text_with(fields, lexed) == Err::<Seq<char>, MetaError>(MetaError::NotTokens)
            ==> exists|i: int| 0 <= i < fields.len() && #[trigger] options_of(fields[i].attrs@, "meta"@).len() > 0,
    decreases fields.len(),
{
    if fields.len() > 0 {
        let pre = fields.drop_last();
        let n = fields.len() - 1;
        assert forall|i: int| 0 <= i < pre.len() implies #[trigger] lexed[i].len() == options_of(pre[i].attrs@, "meta"@).len() by {
            assert(pre[i] == fields[i]);
        }
        lemma_fields_lexed(pre, lexed);
        if fields_text_with(pre, lexed) == Err::<Seq<char>, MetaError>(MetaError::NotTokens) {
            let i = choose|i: int| 0 <= i < pre.len() && #[trigger] options_of(pre[i].attrs@, "meta"@).len() > 0;
            assert(pre[i] == fields[i]);
        }
        let opts = options_of(fields.last().attrs@, "meta"@);
        assert(lexed[n].len() == opts.len());
        if fields_text_with(pre, lexed) is Ok && !all_lexed(opts.len() as int, lexed_at(lexed, n)) {
            assert(opts.len() > 0);
            assert(fields[n] == fields.last());
        }
    }
}

/// The derive of `ModuleDBMeta` for `input`, given the lexer's answers for
/// the struct's `meta` option values (`attrs_lexed`) and for each field's
/// (`fields_lexed`): the text of the implementation, or why there is none.
pub fn derive_db_meta_from(input: &MetaInput, attrs_lexed: &Vec<bool>, fields_lexed: &Vec<Vec<bool>>) -> (r: Result<String, MetaError>)
    ensures
        match r {
            Ok(t) => meta_derive_with(*input, attrs_lexed@, lexed_views(fields_lexed@)) == Ok::<Seq<char>, MetaError>(t@),
            Err(e) => meta_derive_with(*input, attrs_lexed@, lexed_views(fields_lexed@)) == Err::<Seq<char>, MetaError>(e),
        },
{
    proof {
        reveal_strlit("meta");
        reveal_strlit("table_name");
        reveal_strlit("primary_key");
        reveal_strlit("impl crate::module::ModuleDBMeta for ");
        reveal_strlit(" { fn config() -> crate::module::ModuleDBConfig { let columns = vec![");
        reveal_strlit("]; crate::module::ModuleDBConfig::factory(");
        reveal_strlit(".to_string(), ");
        reveal_strlit(".to_string(), columns).unwrap() } }");
    }
    let attributes = match options_from(&input.attrs, "meta", attrs_lexed) {
        Some(a) => a,
        None => return Err(MetaError::NotTokens),
    };
    match &input.data {
        MetaData::NamedStruct(fields) => {
            let table = find_option(&attributes, "table_name");
            let key = find_option(&attributes, "primary_key");
            match (table, key) {
                (Some(table), Some(key)) => {
                    let columns = fields_code(fields, fields_lexed)?;
                    let mut code = String::from_str("impl crate::module::ModuleDBMeta for ");
                    code.append(input.ident.as_str());
                    code.append(" { fn config() -> crate::module::ModuleDBConfig { let columns = vec![");
                    code.append(columns.as_str());
                    code.append("]; crate::module::ModuleDBConfig::factory(");
                    code.append(table.as_str());
                    code.append(".to_string(), ");
                    code.append(key.as_str());
                    code.append(".to_string(), columns).unwrap() } }");
                    assert(code@ =~= impl_text(input.ident@, table@, key@, columns@));
                    Ok(code)
                },
                _ => Err(MetaError::TableNameRequired),
            }
        },
        MetaData::Other => Err(MetaError::NotSupported),
    }
}

/// The derive of `ModuleDBMeta` for `input`, with each `meta` option value
/// put to the lexer. Which values the lexer refuses is not stated (see
/// `token_text_lexes`), so this says what holds whatever it answered: an
/// implementation text, or an error other than `NotTokens`, is the outcome
/// with every value taken as given; `NotTokens` comes only where some option
/// is set. `derive_db_meta_from` gives the outcome for given answers.
pub fn derive_db_meta_inner(input: &MetaInput) -> (r: Result<String, MetaError>)
    ensures
        match r {
            Ok(t) => meta_derive(*input) == Ok::<Seq<char>, MetaError>(t@),
            Err(e) => if e == MetaError::NotTokens {
                meta_has_option(*input)
            } else {
                meta_derive(*input) == Err::<Seq<char>, MetaError>(e)
            },
        },
{
    proof {
        reveal_strlit("meta");
    }
    let attrs_lexed = lex_values(&attribute_options(&input.attrs, "meta"));
    let mut fields_lexed: Vec<Vec<bool>> = Vec::new();
    if let MetaData::NamedStruct(fields) = &input.data {
        let mut i: usize = 0;
        while i < fields.len()
            invariant
                i <= fields@.len(),
                fields_lexed@.len() == i,
                forall|k: int| 0 <= k < i ==> #[trigger] fields_lexed@[k]@.len()
                    == options_of(fields@[k].attrs@, "meta"@).len(),
            decreases fields@.len() - i,
        {
            fields_lexed.push(lex_values(&attribute_options(&fields[i].attrs, "meta")));
            i = i + 1;
        }
        proof {
            let lexed = lexed_views(fields_lexed@);
            assert forall|k: int| 0 <= k < fields@.len()
                implies #[trigger] lexed[k].len() == options_of(fields@[k].attrs@, "meta"@).len() by {
                assert(lexed[k] == fields_lexed@[k]@);
            }
            lemma_fields_lexed(fields@, lexed);
        }
    }
    let r = derive_db_meta_from(input, &attrs_lexed, &fields_lexed);
    proof {
        let n = options_of(input.attrs@, "meta"@).len() as int;
        if n == 0 {
            assert(all_lexed(n, attrs_lexed@));
        }
    }
    r
}

} // verus!
