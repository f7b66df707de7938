use smartlink::TransformError;
use smartlink::emit::resolve_key;
use smartlink::extract::parse_arguments;
use smartlink::extract::parse_signature;
use smartlink::smartlink;
use smartlink::token::Delim;
use smartlink::token::Spacing;
use smartlink::token::Token;

fn ident(s: &str) -> Token {
    Token::Ident(s.to_string())
}

fn alone(c: char) -> Token {
    Token::Punct(c, Spacing::Alone)
}

fn joint(c: char) -> Token {
    Token::Punct(c, Spacing::Joint)
}

fn group(d: Delim, ts: Vec<Token>) -> Token {
    Token::Group(d, ts)
}

fn strlit(s: &str) -> Token {
    Token::Str(s.to_string())
}

fn abi_import_keyword() -> String {
    String::from("ext") + "ern"
}

/// `fn add(a: i32, b: i32) -> i32 { a + b }`
fn add_decl() -> Vec<Token> {
    vec![
        ident("fn"),
        ident("add"),
        group(
            Delim::Paren,
            vec![
                ident("a"),
                alone(':'),
                ident("i32"),
                alone(','),
                ident("b"),
                alone(':'),
                ident("i32"),
            ],
        ),
        joint('-'),
        alone('>'),
        ident("i32"),
        group(Delim::Brace, vec![ident("a"), alone('+'), ident("b")]),
    ]
}

fn export_marker(name: &str) -> Vec<Token> {
    vec![
        alone('#'),
        group(
            Delim::Bracket,
            vec![ident("export_name"), alone('='), strlit(name)],
        ),
    ]
}

fn link_attr(lib: &str) -> Vec<Token> {
    vec![
        alone('#'),
        group(
            Delim::Bracket,
            vec![
                ident("link"),
                group(
                    Delim::Paren,
                    vec![
                        ident("name"),
                        alone('='),
                        strlit(lib),
                        alone(','),
                        ident("kind"),
                        alone('='),
                        strlit("dylib"),
                    ],
                ),
            ],
        ),
    ]
}

#[test]
fn static_mode_keeps_body_and_marks_export() {
    let out = smartlink(&add_decl(), None).unwrap();
    let mut expected = export_marker("add");
    expected.extend(add_decl());
    assert_eq!(out, expected);
}

#[test]
fn dynamic_mode_replaces_body_with_import_and_call() {
    let out = smartlink(&add_decl(), Some("mathlib".to_string())).unwrap();

    // the signature is kept verbatim
    let decl = add_decl();
    let signature = &decl[..6];
    assert_eq!(&out[..6], signature);

    // the body is one brace group: link attribute, import block, one call
    assert_eq!(out.len(), 7);
    let mut body = link_attr("mathlib");
    body.push(ident(&abi_import_keyword()));
    body.push(strlit("Rust"));
    let mut import = vec![ident("fn"), ident("add")];
    import.extend_from_slice(&signature[2..]);
    import.push(alone(';'));
    body.push(group(Delim::Brace, import));
    body.push(ident("unsafe"));
    body.push(group(
        Delim::Brace,
        vec![
            ident("add"),
            group(
                Delim::Paren,
                vec![ident("a"), alone(','), ident("b"), alone(',')],
            ),
        ],
    ));
    assert_eq!(out[6], group(Delim::Brace, body));
}

#[test]
fn dynamic_mode_with_empty_library_name_is_still_dynamic() {
    let out = smartlink(&add_decl(), Some(String::new())).unwrap();
    // the body was replaced: the last token is a generated brace group, not
    // the original body
    let decl = add_decl();
    assert_eq!(&out[..6], &decl[..6]);
    assert_ne!(out[6], decl[6]);
    match &out[6] {
        Token::Group(Delim::Brace, body) => {
            assert_eq!(&body[..2], &link_attr("")[..]);
        },
        other => panic!("expected a brace group, got {:?}", other),
    }
}

/// `fn scale(self, factor: f64) { }` in dynamic mode forwards `self` first,
/// then `factor`.
#[test]
fn method_receiver_is_forwarded_first() {
    let decl = vec![
        ident("fn"),
        ident("scale"),
        group(
            Delim::Paren,
            vec![
                ident("self"),
                alone(','),
                ident("factor"),
                alone(':'),
                ident("f64"),
            ],
        ),
        group(Delim::Brace, vec![]),
    ];
    let out = smartlink(&decl, Some("geometry".to_string())).unwrap();
    let body = match &out[3] {
        Token::Group(Delim::Brace, body) => body,
        other => panic!("expected a brace group, got {:?}", other),
    };
    let call = match &body[6] {
        Token::Group(Delim::Brace, call) => call,
        other => panic!("expected a brace group, got {:?}", other),
    };
    assert_eq!(call[0], ident("scale"));
    assert_eq!(
        call[1],
        group(
            Delim::Paren,
            vec![ident("self"), alone(','), ident("factor"), alone(',')],
        ),
    );
}

/// A qualified type path's double colon never ends a parameter name: from
/// `x: module::Thing`, only `x` is extracted.
#[test]
fn qualified_type_path_does_not_add_parameter_names() {
    let list = vec![
        ident("x"),
        alone(':'),
        ident("module"),
        joint(':'),
        alone(':'),
        ident("Thing"),
    ];
    let names = parse_arguments(&list).unwrap();
    assert_eq!(names, vec!["x".to_string()]);
}

#[test]
fn qualified_path_then_second_parameter() {
    let list = vec![
        ident("x"),
        alone(':'),
        ident("module"),
        joint(':'),
        alone(':'),
        ident("Thing"),
        alone(','),
        ident("y"),
        alone(':'),
        ident("u8"),
    ];
    let names = parse_arguments(&list).unwrap();
    assert_eq!(names, vec!["x".to_string(), "y".to_string()]);
}

#[test]
fn wildcard_parameter_fails_in_both_modes() {
    let decl = vec![
        ident("fn"),
        ident("f"),
        group(Delim::Paren, vec![ident("_"), alone(':'), ident("i32")]),
        group(Delim::Brace, vec![]),
    ];
    assert_eq!(
        smartlink(&decl, None),
        Err(TransformError::UnnameableParameter)
    );
    assert_eq!(
        smartlink(&decl, Some("mathlib".to_string())),
        Err(TransformError::UnnameableParameter)
    );
}

#[test]
fn missing_fn_keyword_is_refused() {
    let decl = vec![
        ident("add"),
        group(Delim::Paren, vec![]),
        group(Delim::Brace, vec![]),
    ];
    assert_eq!(smartlink(&decl, None), Err(TransformError::Structure));
}

#[test]
fn missing_name_is_refused() {
    let decl = vec![ident("fn"), group(Delim::Brace, vec![])];
    assert_eq!(smartlink(&decl, None), Err(TransformError::Structure));
}

#[test]
fn missing_parameter_list_is_refused() {
    let decl = vec![ident("fn"), ident("f"), group(Delim::Brace, vec![])];
    assert_eq!(
        smartlink(&decl, Some("mathlib".to_string())),
        Err(TransformError::Structure)
    );
}

#[test]
fn signature_extraction_of_generic_function() {
    let decl = vec![
        ident("fn"),
        ident("max"),
        alone('<'),
        ident("T"),
        alone(':'),
        ident("Ord"),
        alone('>'),
        group(
            Delim::Paren,
            vec![
                ident("x"),
                alone(':'),
                ident("T"),
                alone(','),
                ident("y"),
                alone(':'),
                ident("T"),
            ],
        ),
        joint('-'),
        alone('>'),
        ident("T"),
        group(Delim::Brace, vec![]),
    ];
    let summary = parse_signature(&decl).unwrap();
    assert_eq!(summary.name, "max".to_string());
    assert_eq!(summary.parameters, vec!["x".to_string(), "y".to_string()]);
    assert_eq!(summary.split_index, 2);
    assert_eq!(summary.signature_tokens, decl[..11].to_vec());
}

#[test]
fn parenthesized_group_before_name_passes_through() {
    let decl = vec![
        ident("fn"),
        group(Delim::Paren, vec![ident("z")]),
        ident("g"),
        group(Delim::Paren, vec![ident("a"), alone(':'), ident("u8")]),
        group(Delim::Brace, vec![]),
    ];
    let summary = parse_signature(&decl).unwrap();
    assert_eq!(summary.name, "g".to_string());
    assert_eq!(summary.parameters, vec!["a".to_string()]);
    assert_eq!(summary.split_index, 3);
    assert_eq!(summary.signature_tokens, decl[..4].to_vec());
}

#[test]
fn receiver_alone_is_a_parameter() {
    let names = parse_arguments(&vec![ident("self")]).unwrap();
    assert_eq!(names, vec!["self".to_string()]);
}

#[test]
fn pending_candidate_without_colon_is_not_committed() {
    let list = vec![ident("lone")];
    let names = parse_arguments(&list).unwrap();
    assert_eq!(names, Vec::<String>::new());
}

#[test]
fn absent_argument_resolves_to_the_default_key() {
    let key = resolve_key(&vec![]).unwrap();
    assert_eq!(key, "SMARTLINK_NO_IMPL".to_string());
}

#[test]
fn single_identifier_argument_is_the_key() {
    let key = resolve_key(&vec![ident("MY_LIB_CONFIG")]).unwrap();
    assert_eq!(key, "MY_LIB_CONFIG".to_string());
}

#[test]
fn two_identifiers_are_a_usage_error() {
    let r = resolve_key(&vec![ident("a"), ident("b")]);
    assert_eq!(r, Err(TransformError::Usage));
}

#[test]
fn literal_argument_is_a_usage_error() {
    let r = resolve_key(&vec![Token::Literal("7".to_string())]);
    assert_eq!(r, Err(TransformError::Usage));
}
