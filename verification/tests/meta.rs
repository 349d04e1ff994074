use r_webservice::meta::{
    MetaToken, MetaAttribute, MetaField, MetaData, MetaInput, MetaError, TokenKind,
    derive_db_meta_inner, derive_attribute_helper, derive_db_meta_from, attribute_options, options_from,
};
use r_webservice::module::{ModuleDBMeta, ModuleDBConfig, ModuleDBType};

fn token(kind: TokenKind, text: &str) -> MetaToken {
    MetaToken { kind, text: text.to_string(), inner: vec![] }
}

fn option(key: &str, value: Vec<MetaToken>) -> MetaAttribute {
    let mut inner = vec![token(TokenKind::Ident, key), token(TokenKind::Punct, "=")];
    inner.extend(value);
    let text = format!("({})", inner.iter().map(|t| t.text.clone()).collect::<Vec<_>>().join(" "));
    MetaAttribute {
        path: Some("meta".to_string()),
        tokens: vec![MetaToken { kind: TokenKind::Group, text, inner }],
    }
}

fn type_path(variant: &str) -> Vec<MetaToken> {
    vec![
        token(TokenKind::Ident, "ModuleDBType"),
        token(TokenKind::Punct, ":"),
        token(TokenKind::Punct, ":"),
        token(TokenKind::Ident, variant),
    ]
}

fn field(name: Option<&str>, attrs: Vec<MetaAttribute>) -> MetaField {
    MetaField { ident: name.map(|n| n.to_string()), attrs }
}

fn table_attrs() -> Vec<MetaAttribute> {
    vec![
        option("table_name", vec![token(TokenKind::Literal, "\"t_template\"")]),
        option("primary_key", vec![token(TokenKind::Literal, "\"id\"")]),
    ]
}

#[test]
fn derive_writes_the_implementation() {
    let input = MetaInput {
        ident: "Template".to_string(),
        attrs: table_attrs(),
        data: MetaData::NamedStruct(vec![
            field(Some("id"), vec![option("Type", type_path("BIG_SERIAL"))]),
            field(Some("path"), vec![option("Type", type_path("TEXT"))]),
        ]),
    };
    assert_eq!(
        derive_db_meta_inner(&input),
        Ok("impl crate::module::ModuleDBMeta for Template { fn config() -> crate::module::ModuleDBConfig { \
let columns = vec![(\"id\".to_string(), ModuleDBType::BIG_SERIAL), (\"path\".to_string(), ModuleDBType::TEXT), ]; \
crate::module::ModuleDBConfig::factory(\"t_template\".to_string(), \"id\".to_string(), columns).unwrap() } }"
            .to_string())
    );
}

#[test]
fn derive_errors() {
    let no_type = MetaInput {
        ident: "T".to_string(),
        attrs: table_attrs(),
        data: MetaData::NamedStruct(vec![field(Some("id"), vec![])]),
    };
    assert_eq!(derive_db_meta_inner(&no_type), Err(MetaError::TypeRequired));
    let no_name = MetaInput {
        ident: "T".to_string(),
        attrs: table_attrs(),
        data: MetaData::NamedStruct(vec![field(None, vec![option("Type", type_path("TEXT"))])]),
    };
    assert_eq!(derive_db_meta_inner(&no_name), Err(MetaError::IdentRequired));
    let no_key = MetaInput {
        ident: "T".to_string(),
        attrs: vec![option("table_name", vec![token(TokenKind::Literal, "\"t\"")])],
        data: MetaData::NamedStruct(vec![]),
    };
    assert_eq!(derive_db_meta_inner(&no_key), Err(MetaError::TableNameRequired));
    let tuple = MetaInput { ident: "T".to_string(), attrs: table_attrs(), data: MetaData::Other };
    assert_eq!(derive_db_meta_inner(&tuple), Err(MetaError::NotSupported));
    let bad = MetaInput {
        ident: "T".to_string(),
        attrs: vec![option("table_name", vec![token(TokenKind::Punct, ")")])],
        data: MetaData::NamedStruct(vec![]),
    };
    assert_eq!(derive_db_meta_inner(&bad), Err(MetaError::NotTokens));
}

#[test]
fn derive_error_messages() {
    assert_eq!(MetaError::TypeRequired.message(), "Type are required");
    assert_eq!(MetaError::IdentRequired.message(), "Ident are required");
    assert_eq!(MetaError::TableNameRequired.message(), "table_name are required");
    assert_eq!(MetaError::NotSupported.message(), "Not supported");
}

#[test]
fn attribute_options_in_order() {
    let mut attrs = table_attrs();
    attrs.push(MetaAttribute { path: Some("serde".to_string()), tokens: vec![] });
    attrs.push(option("table_name", vec![token(TokenKind::Literal, "\"t_other\"")]));
    let opts = derive_attribute_helper(&attrs, "meta").unwrap();
    assert_eq!(opts.len(), 3);
    assert_eq!(opts[0], ("table_name".to_string(), "\"t_template\"".to_string()));
    assert_eq!(opts[2], ("table_name".to_string(), "\"t_other\"".to_string()));
    assert!(derive_attribute_helper(&attrs, "serde").unwrap().is_empty());
}

#[test]
fn a_later_option_overrides() {
    let mut attrs = table_attrs();
    attrs.push(option("table_name", vec![token(TokenKind::Literal, "\"t_other\"")]));
    let input = MetaInput { ident: "T".to_string(), attrs, data: MetaData::NamedStruct(vec![]) };
    let code = derive_db_meta_inner(&input).unwrap();
    assert!(code.contains("factory(\"t_other\".to_string()"));
}

#[test]
fn options_need_a_key_and_a_separator() {
    let no_punct = MetaAttribute {
        path: Some("meta".to_string()),
        tokens: vec![MetaToken {
            kind: TokenKind::Group,
            text: "(flag)".to_string(),
            inner: vec![token(TokenKind::Ident, "flag")],
        }],
    };
    let skips_first = MetaAttribute {
        path: Some("meta".to_string()),
        tokens: vec![MetaToken {
            kind: TokenKind::Group,
            text: "(\"x\" key \"y\" = 1 2)".to_string(),
            inner: vec![
                token(TokenKind::Literal, "\"x\""),
                token(TokenKind::Ident, "key"),
                token(TokenKind::Literal, "\"y\""),
                token(TokenKind::Punct, "="),
                token(TokenKind::Literal, "1"),
                token(TokenKind::Literal, "2"),
            ],
        }],
    };
    let opts = derive_attribute_helper(&vec![no_punct, skips_first], "meta").unwrap();
    assert_eq!(opts, vec![("key".to_string(), "12".to_string())]);
}

struct Generated;

// What the derive writes for `Generated`, with `crate` standing for this library.
impl ModuleDBMeta for Generated {
    fn config() -> ModuleDBConfig {
        let columns = vec![("id".to_string(), ModuleDBType::BIG_SERIAL), ("path".to_string(), ModuleDBType::TEXT), ];
        ModuleDBConfig::factory("t_generated".to_string(), "id".to_string(), columns).unwrap()
    }
}

#[test]
fn generated_text_fits_the_library() {
    let c = Generated::config();
    assert_eq!(c.get_table_name(), "t_generated");
    assert_eq!(c.get_columns().len(), 2);
}

#[test]
fn options_follow_the_lexer_answers() {
    let attrs = table_attrs();
    assert_eq!(attribute_options(&attrs, "meta").len(), 2);
    assert_eq!(options_from(&attrs, "meta", &vec![true, true]).unwrap().len(), 2);
    assert!(options_from(&attrs, "meta", &vec![true, false]).is_none());
    assert!(options_from(&attrs, "meta", &vec![true]).is_none());
    assert_eq!(options_from(&attrs, "serde", &vec![]).unwrap().len(), 0);
}

#[test]
fn derive_follows_the_lexer_answers() {
    let input = MetaInput {
        ident: "T".to_string(),
        attrs: table_attrs(),
        data: MetaData::NamedStruct(vec![field(Some("id"), vec![option("Type", type_path("INT"))])]),
    };
    assert!(derive_db_meta_from(&input, &vec![true, true], &vec![vec![true]]).is_ok());
    assert_eq!(derive_db_meta_from(&input, &vec![true, false], &vec![vec![true]]), Err(MetaError::NotTokens));
    assert_eq!(derive_db_meta_from(&input, &vec![true, true], &vec![vec![false]]), Err(MetaError::NotTokens));
    assert_eq!(derive_db_meta_from(&input, &vec![true, true], &vec![]), Err(MetaError::NotTokens));
    let tuple = MetaInput { ident: "T".to_string(), attrs: table_attrs(), data: MetaData::Other };
    assert_eq!(derive_db_meta_from(&tuple, &vec![true, true], &vec![]), Err(MetaError::NotSupported));
    assert_eq!(derive_db_meta_from(&tuple, &vec![false, true], &vec![]), Err(MetaError::NotTokens));
}
