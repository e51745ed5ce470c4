//! The token model: the library's own representation of a token stream.
//!
//! A token is an identifier, a punctuation character, a delimited group, or a
//! literal. Each carries an opaque span identifier (a plain `u32`) that the
//! caller assigns; the library threads spans through so that diagnostics on
//! the emitted code can point at the original source positions.

use vstd::prelude::*;

verus! {

/// The delimiter of a group token.
#[derive(Clone, Copy, Debug, PartialEq, Eq, Structural)]
pub enum Delim {
    Paren,
    Brace,
    Bracket,
}

/// Whether a punctuation character is joined to the next token
/// (`:` followed immediately by `:`) or stands alone.
#[derive(Clone, Copy, Debug, PartialEq, Eq, Structural)]
pub enum Spacing {
    Alone,
    Joint,
}

/// One token. Group contents are an opaque token sequence: the transformer
/// re-emits them verbatim and never interprets their internal structure.
#[derive(Debug, PartialEq, Eq)]
pub enum Token {
    Ident { text: String, span: u32 },
    Punct { ch: char, spacing: Spacing, span: u32 },
    Group { delim: Delim, tokens: Vec<Token>, span: u32 },
    Literal { text: String, span: u32 },
}

impl Token {
    /// The span carried by this token.
    pub open spec fn spec_span(self) -> u32 {
        match self {
            Token::Ident { span, .. } => span,
            Token::Punct { span, .. } => span,
            Token::Group { span, .. } => span,
            Token::Literal { span, .. } => span,
        }
    }
}

/// The token is an identifier with the given text.
pub open spec fn is_ident(t: Token, text: Seq<char>) -> bool {
    &&& t is Ident
    &&& t->Ident_text@ == text
}

/// The token is a punctuation character `ch`.
pub open spec fn is_punct(t: Token, ch: char) -> bool {
    &&& t is Punct
    &&& t->Punct_ch == ch
}

/// The token is a group with the given delimiter.
pub open spec fn is_group_with(t: Token, delim: Delim) -> bool {
    &&& t is Group
    &&& t->Group_delim == delim
}

/// The token is a brace-delimited group: the shape of a body block.
pub open spec fn is_brace_group(t: Token) -> bool {
    is_group_with(t, Delim::Brace)
}

/// The contents of a group token.
pub open spec fn group_tokens(t: Token) -> Seq<Token>
    recommends
        t is Group,
{
    t->Group_tokens@
}

/// Exec check: is `t` an identifier spelled exactly `text`?
pub fn ident_is(t: &Token, text: &str) -> (r: bool)
    ensures
        r == is_ident(*t, text@),
{
    match t {
        Token::Ident { text: tx, .. } => {
            let owned: String = text.to_owned();
            *tx == owned
        },
        _ => false,
    }
}

/// Exec check: is `t` a punctuation character `ch`?
pub fn punct_is(t: &Token, ch: char) -> (r: bool)
    ensures
        r == is_punct(*t, ch),
{
    match t {
        Token::Punct { ch: c, .. } => *c == ch,
        _ => false,
    }
}

/// Exec check: is `t` a punctuation character `ch` joined to the next token?
pub fn punct_joint_is(t: &Token, ch: char) -> (r: bool)
    ensures
        r == (is_punct(*t, ch) && t->Punct_spacing == Spacing::Joint),
{
    match t {
        Token::Punct { ch: c, spacing, .. } => *c == ch && matches!(spacing, Spacing::Joint),
        _ => false,
    }
}

/// Exec check: is `t` a group with delimiter `delim`?
pub fn group_is(t: &Token, delim: Delim) -> (r: bool)
    ensures
        r == is_group_with(*t, delim),
{
    match t {
        Token::Group { delim: d, .. } => *d == delim,
        _ => false,
    }
}

/// Exec check: is `t` a group of any delimiter?
pub fn is_any_group(t: &Token) -> (r: bool)
    ensures
        r == (t is Group),
{
    match t {
        Token::Group { .. } => true,
        _ => false,
    }
}

/// Build an identifier token with the given text and span.
pub fn ident_tok(text: &str, span: u32) -> (t: Token)
    ensures
        is_ident(t, text@),
        t.spec_span() == span,
{
    Token::Ident { text: text.to_owned(), span }
}

/// Exec accessor for the token's span.
pub fn span_of(t: &Token) -> (r: u32)
    ensures
        r == t.spec_span(),
{
    match t {
        Token::Ident { span, .. } => *span,
        Token::Punct { span, .. } => *span,
        Token::Group { span, .. } => *span,
        Token::Literal { span, .. } => *span,
    }
}

} // verus!
