//! End-to-end checks of the transformer on concrete token streams.

use pretty_env_log_test::logtest;
use pretty_env_log_test::parse::parse;
use pretty_env_log_test::record::{ParseErrorKind, Visibility};
use pretty_env_log_test::synth::synthesize;
use pretty_env_log_test::tokens::{Delim, Spacing, Token};

fn ident(text: &str, span: u32) -> Token {
    Token::Ident { text: text.to_string(), span }
}

fn punct(ch: char, spacing: Spacing, span: u32) -> Token {
    Token::Punct { ch, spacing, span }
}

fn group(delim: Delim, tokens: Vec<Token>, span: u32) -> Token {
    Token::Group { delim, tokens, span }
}

/// The nine tokens of the inserted initialization statement, all at `sp`.
fn init_stmt(sp: u32) -> Vec<Token> {
    vec![
        ident("let", sp),
        ident("_", sp),
        punct('=', Spacing::Alone, sp),
        ident("pretty_env_logger", sp),
        punct(':', Spacing::Joint, sp),
        punct(':', Spacing::Alone, sp),
        ident("try_init", sp),
        group(Delim::Paren, vec![], sp),
        punct(';', Spacing::Alone, sp),
    ]
}

/// Tokens of `pub fn check() -> Result<(), E> { assert!(true); }`.
fn sync_example() -> Vec<Token> {
    let body = vec![
        ident("assert", 20),
        punct('!', Spacing::Alone, 21),
        group(Delim::Paren, vec![ident("true", 22)], 23),
        punct(';', Spacing::Alone, 24),
    ];
    vec![
        ident("pub", 1),
        ident("fn", 2),
        ident("check", 3),
        group(Delim::Paren, vec![], 4),
        punct('-', Spacing::Joint, 5),
        punct('>', Spacing::Alone, 6),
        ident("Result", 7),
        punct('<', Spacing::Alone, 8),
        group(Delim::Paren, vec![], 9),
        punct(',', Spacing::Alone, 10),
        ident("E", 11),
        punct('>', Spacing::Alone, 12),
        group(Delim::Brace, body, 13),
    ]
}

#[test]
fn sync_example_output_shape() {
    let out = logtest(vec![], sync_example(), 99).expect("valid input must transform");
    // #[test] anchored at the call site
    assert_eq!(out[0], punct('#', Spacing::Alone, 99));
    assert_eq!(out[1], group(Delim::Bracket, vec![ident("test", 99)], 99));
    // pub fn check () -> Result<(), E>, pieces verbatim; `fn` at the body span
    assert_eq!(out[2], ident("pub", 1));
    assert_eq!(out[3], ident("fn", 13));
    assert_eq!(out[4], ident("check", 3));
    assert_eq!(out[5], group(Delim::Paren, vec![], 4));
    // the arrow clause, anchored at the type's span
    assert_eq!(out[6], punct('-', Spacing::Joint, 7));
    assert_eq!(out[7], punct('>', Spacing::Alone, 7));
    assert_eq!(&out[8..14], &sync_example()[6..12]);
    // the body: the initialization statement, then the original tokens
    let expected_body: Vec<Token> = init_stmt(13)
        .into_iter()
        .chain(vec![
            ident("assert", 20),
            punct('!', Spacing::Alone, 21),
            group(Delim::Paren, vec![ident("true", 22)], 23),
            punct(';', Spacing::Alone, 24),
        ])
        .collect();
    assert_eq!(out[14], group(Delim::Brace, expected_body, 13));
    assert_eq!(out.len(), 15);
}

/// Tokens of `pub async fn check_async() { foo().await; }`.
fn async_example() -> Vec<Token> {
    let body = vec![
        ident("foo", 30),
        group(Delim::Paren, vec![], 31),
        punct('.', Spacing::Alone, 32),
        ident("await", 33),
        punct(';', Spacing::Alone, 34),
    ];
    vec![
        ident("pub", 1),
        ident("async", 2),
        ident("fn", 3),
        ident("check_async", 4),
        group(Delim::Paren, vec![], 5),
        group(Delim::Brace, body, 6),
    ]
}

#[test]
fn async_example_output_shape() {
    let out = logtest(vec![], async_example(), 99).expect("valid input must transform");
    // #[tokio::test], every token anchored at the qualifier's span
    assert_eq!(out[0], punct('#', Spacing::Alone, 2));
    assert_eq!(
        out[1],
        group(
            Delim::Bracket,
            vec![
                ident("tokio", 2),
                punct(':', Spacing::Joint, 2),
                punct(':', Spacing::Alone, 2),
                ident("test", 2),
            ],
            2,
        )
    );
    // the qualifier preserved verbatim, no arrow clause
    assert_eq!(out[2], ident("pub", 1));
    assert_eq!(out[3], ident("async", 2));
    assert_eq!(out[4], ident("fn", 6));
    assert_eq!(out[5], ident("check_async", 4));
    assert_eq!(out[6], group(Delim::Paren, vec![], 5));
    // the body directly follows the parameter group
    let expected_body: Vec<Token> = init_stmt(6)
        .into_iter()
        .chain(vec![
            ident("foo", 30),
            group(Delim::Paren, vec![], 31),
            punct('.', Spacing::Alone, 32),
            ident("await", 33),
            punct(';', Spacing::Alone, 34),
        ])
        .collect();
    assert_eq!(out[7], group(Delim::Brace, expected_body, 6));
    assert_eq!(out.len(), 8);
}

#[test]
fn annotation_arguments_are_discarded() {
    let attr = vec![ident("verbose", 50), punct(',', Spacing::Alone, 51)];
    let with_attr = logtest(attr, sync_example(), 99).unwrap();
    let without = logtest(vec![], sync_example(), 99).unwrap();
    assert_eq!(with_attr, without);
}

#[test]
fn leading_annotations_are_dropped() {
    let mut input = vec![
        punct('#', Spacing::Alone, 40),
        group(Delim::Bracket, vec![ident("ignore", 41)], 42),
    ];
    input.extend(sync_example());
    let out = logtest(vec![], input, 99).unwrap();
    assert_eq!(out, logtest(vec![], sync_example(), 99).unwrap());
}

#[test]
fn scoped_visibility_is_kept_verbatim() {
    let input = vec![
        ident("pub", 1),
        group(Delim::Paren, vec![ident("crate", 2)], 3),
        ident("fn", 4),
        ident("t", 5),
        group(Delim::Paren, vec![], 6),
        group(Delim::Brace, vec![], 7),
    ];
    let rec = parse(input).unwrap();
    assert_eq!(
        rec.vis,
        Visibility::Scoped { span: 1, group: group(Delim::Paren, vec![ident("crate", 2)], 3) }
    );
    let out = synthesize(rec, 99);
    assert_eq!(out[2], ident("pub", 1));
    assert_eq!(out[3], group(Delim::Paren, vec![ident("crate", 2)], 3));
    assert_eq!(out[4], ident("fn", 7));
}

#[test]
fn malformed_return_type_clause_is_discarded() {
    // `fn f() -> { }`: the arrow is present but no type token follows it.
    let input = vec![
        ident("fn", 1),
        ident("f", 2),
        group(Delim::Paren, vec![], 3),
        punct('-', Spacing::Joint, 4),
        punct('>', Spacing::Alone, 5),
        group(Delim::Brace, vec![], 6),
    ];
    let rec = parse(input).unwrap();
    assert_eq!(rec.ret, None);
    let out = synthesize(rec, 99);
    // no arrow clause at all: the body follows the parameter group directly
    assert_eq!(out[3], ident("f", 2));
    assert_eq!(out[4], group(Delim::Paren, vec![], 3));
    assert_eq!(out[5], group(Delim::Brace, init_stmt(6), 6));
    assert_eq!(out.len(), 6);
}

#[test]
fn missing_body_is_rejected() {
    // `fn f()` with nothing after the parameter group
    let input = vec![ident("fn", 1), ident("f", 2), group(Delim::Paren, vec![], 3)];
    let e = logtest(vec![], input, 99).unwrap_err();
    assert_eq!(e.kind, ParseErrorKind::MissingBody);
    assert_eq!(e.span, None);
}

#[test]
fn missing_name_is_rejected() {
    // `fn (x) {}`
    let input = vec![
        ident("fn", 1),
        group(Delim::Paren, vec![ident("x", 2)], 3),
        group(Delim::Brace, vec![], 4),
    ];
    let e = logtest(vec![], input, 99).unwrap_err();
    assert_eq!(e.kind, ParseErrorKind::MissingName);
    assert_eq!(e.span, Some(3));
}

#[test]
fn missing_params_is_rejected() {
    // `fn f -> u8 {}`
    let input = vec![
        ident("fn", 1),
        ident("f", 2),
        punct('-', Spacing::Joint, 3),
        punct('>', Spacing::Alone, 4),
        ident("u8", 5),
        group(Delim::Brace, vec![], 6),
    ];
    let e = logtest(vec![], input, 99).unwrap_err();
    assert_eq!(e.kind, ParseErrorKind::MissingParams);
    assert_eq!(e.span, Some(3));
}

#[test]
fn missing_fn_keyword_is_rejected() {
    // `pub async x`
    let input = vec![ident("pub", 1), ident("async", 2), ident("x", 3)];
    let e = logtest(vec![], input, 99).unwrap_err();
    assert_eq!(e.kind, ParseErrorKind::MissingFnKeyword);
    assert_eq!(e.span, Some(3));
}

#[test]
fn trailing_tokens_are_rejected() {
    let mut input = async_example();
    input.push(ident("extra", 77));
    let e = logtest(vec![], input, 99).unwrap_err();
    assert_eq!(e.kind, ParseErrorKind::TrailingTokens);
    assert_eq!(e.span, Some(77));
}

#[test]
fn body_with_many_statements_is_preserved_in_order() {
    let body = || -> Vec<Token> {
        (0..12u32).map(|j| ident(&format!("s{}", j), 100 + j)).collect()
    };
    let input = vec![
        ident("fn", 1),
        ident("long", 2),
        group(Delim::Paren, vec![], 3),
        group(Delim::Brace, body(), 4),
    ];
    let out = logtest(vec![], input, 99).unwrap();
    match &out[5] {
        Token::Group { delim: Delim::Brace, tokens, span } => {
            assert_eq!(*span, 4);
            assert_eq!(&tokens[..9], &init_stmt(4)[..]);
            assert_eq!(&tokens[9..], &body()[..]);
        }
        other => panic!("expected a brace group, got {:?}", other),
    }
}

#[test]
fn empty_input_is_rejected() {
    let e = logtest(vec![], vec![], 99).unwrap_err();
    assert_eq!(e.kind, ParseErrorKind::MissingFnKeyword);
    assert_eq!(e.span, None);
}

#[test]
fn all_signature_pieces_combine() {
    // `pub async fn f() -> u8 { x }`
    let input = vec![
        ident("pub", 1),
        ident("async", 2),
        ident("fn", 3),
        ident("f", 4),
        group(Delim::Paren, vec![], 5),
        punct('-', Spacing::Joint, 6),
        punct('>', Spacing::Alone, 7),
        ident("u8", 8),
        group(Delim::Brace, vec![ident("x", 9)], 10),
    ];
    let out = logtest(vec![], input, 99).unwrap();
    assert_eq!(out[0], punct('#', Spacing::Alone, 2));
    assert_eq!(
        out[1],
        group(
            Delim::Bracket,
            vec![
                ident("tokio", 2),
                punct(':', Spacing::Joint, 2),
                punct(':', Spacing::Alone, 2),
                ident("test", 2),
            ],
            2,
        )
    );
    assert_eq!(out[2], ident("pub", 1));
    assert_eq!(out[3], ident("async", 2));
    assert_eq!(out[4], ident("fn", 10));
    assert_eq!(out[5], ident("f", 4));
    assert_eq!(out[6], group(Delim::Paren, vec![], 5));
    // the arrow clause is anchored at the type's span
    assert_eq!(out[7], punct('-', Spacing::Joint, 8));
    assert_eq!(out[8], punct('>', Spacing::Alone, 8));
    assert_eq!(out[9], ident("u8", 8));
    let expected_body: Vec<Token> =
        init_stmt(10).into_iter().chain(vec![ident("x", 9)]).collect();
    assert_eq!(out[10], group(Delim::Brace, expected_body, 10));
    assert_eq!(out.len(), 11);
}
