//! The code synthesizer: a total function from a parsed record to the token
//! sequence of the rewritten function item.
//!
//! The output shape, in order: the test-registration directive (chosen by the
//! concurrency qualifier); the visibility clause, verbatim; the qualifier,
//! re-emitted when present; the `fn` keyword; the name and the parameter
//! group, verbatim; the arrow clause, only when a return type was parsed; and
//! a body block whose first statement installs the logging backend and
//! discards the result, followed by every original body token unchanged.

use vstd::prelude::*;

verus! {

use crate::tokens::{
    Token, Delim, Spacing, is_ident, is_group_with, group_tokens, ident_tok, span_of,
};
use crate::record::{Visibility, FunctionRecord, RecordModel};

/// How many tokens the visibility clause re-emits.
pub open spec fn vis_token_count(v: Visibility) -> int {
    match v {
        Visibility::Private => 0,
        Visibility::Public { .. } => 1,
        Visibility::Scoped { .. } => 2,
    }
}

/// The directive stands at the head of `out`: `#[tokio::test]` anchored at
/// the qualifier's span for an asynchronous input, plain `#[test]` anchored
/// at the call site otherwise.
pub open spec fn directive_ok(out: Seq<Token>, asyncness: Option<u32>, call_site: u32) -> bool {
    match asyncness {
        Some(sp) => {
            &&& out[0] == (Token::Punct { ch: '#', spacing: Spacing::Alone, span: sp })
            &&& is_group_with(out[1], Delim::Bracket)
            &&& out[1].spec_span() == sp
            &&& group_tokens(out[1]).len() == 4
            &&& is_ident(group_tokens(out[1])[0], "tokio"@)
            &&& group_tokens(out[1])[0].spec_span() == sp
            &&& group_tokens(out[1])[1] == (Token::Punct {
                ch: ':',
                spacing: Spacing::Joint,
                span: sp,
            })
            &&& group_tokens(out[1])[2] == (Token::Punct {
                ch: ':',
                spacing: Spacing::Alone,
                span: sp,
            })
            &&& is_ident(group_tokens(out[1])[3], "test"@)
            &&& group_tokens(out[1])[3].spec_span() == sp
        },
        None => {
            &&& out[0] == (Token::Punct { ch: '#', spacing: Spacing::Alone, span: call_site })
            &&& is_group_with(out[1], Delim::Bracket)
            &&& out[1].spec_span() == call_site
            &&& group_tokens(out[1]).len() == 1
            &&& is_ident(group_tokens(out[1])[0], "test"@)
            &&& group_tokens(out[1])[0].spec_span() == call_site
        },
    }
}

/// The visibility clause stands verbatim at index `at` of `out`.
pub open spec fn vis_ok(out: Seq<Token>, v: Visibility, at: int) -> bool {
    match v {
        Visibility::Private => true,
        Visibility::Public { span } => is_ident(out[at], "pub"@) && out[at].spec_span() == span,
        Visibility::Scoped { span, group } => is_ident(out[at], "pub"@) && out[at].spec_span()
            == span && out[at + 1] == group,
    }
}

/// The inserted backend-initialization statement stands at the head of the
/// body contents `c`, every token anchored at the body's span `sp`:
/// `let _ = pretty_env_logger :: try_init ( ) ;`. The call's result is bound
/// to `_`, so success and already-installed are both discarded.
pub open spec fn init_stmt_ok(c: Seq<Token>, sp: u32) -> bool {
    &&& is_ident(c[0], "let"@) && c[0].spec_span() == sp
    &&& is_ident(c[1], "_"@) && c[1].spec_span() == sp
    &&& c[2] == (Token::Punct { ch: '=', spacing: Spacing::Alone, span: sp })
    &&& is_ident(c[3], "pretty_env_logger"@) && c[3].spec_span() == sp
    &&& c[4] == (Token::Punct { ch: ':', spacing: Spacing::Joint, span: sp })
    &&& c[5] == (Token::Punct { ch: ':', spacing: Spacing::Alone, span: sp })
    &&& is_ident(c[6], "try_init"@) && c[6].spec_span() == sp
    &&& is_group_with(c[7], Delim::Paren) && group_tokens(c[7]).len() == 0 && c[7].spec_span()
        == sp
    &&& c[8] == (Token::Punct { ch: ';', spacing: Spacing::Alone, span: sp })
}

/// The number of tokens of the inserted initialization statement.
pub open spec fn init_stmt_len() -> int {
    9
}

/// The position of the `fn` keyword in the output for record `m`.
pub open spec fn fn_pos(m: RecordModel) -> int {
    2 + vis_token_count(m.vis) + if m.asyncness is Some {
        1int
    } else {
        0int
    }
}

/// The position of the body block in the output for record `m`.
pub open spec fn body_pos(m: RecordModel) -> int {
    fn_pos(m) + 3 + match m.ret {
        Some(ts) => 2 + ts.len() as int,
        None => 0,
    }
}

/// The full description of the synthesizer's output `out` for record `m`:
/// every token of the output is pinned down, and every span it carries.
pub open spec fn synth_ok(m: RecordModel, call_site: u32, out: Seq<Token>) -> bool {
    let fnp = fn_pos(m);
    let bp = body_pos(m);
    let bsp = m.body.spec_span();
    &&& out.len() == bp + 1
    &&& directive_ok(out, m.asyncness, call_site)
    &&& vis_ok(out, m.vis, 2)
    &&& (m.asyncness matches Some(sp) ==> is_ident(out[fnp - 1], "async"@) && out[fnp
        - 1].spec_span() == sp)
    &&& is_ident(out[fnp], "fn"@) && out[fnp].spec_span() == bsp
    &&& out[fnp + 1] == m.name
    &&& out[fnp + 2] == m.params
    &&& (m.ret matches Some(ts) ==> {
        let rsp = ts[0].spec_span();
        &&& out[fnp + 3] == (Token::Punct { ch: '-', spacing: Spacing::Joint, span: rsp })
        &&& out[fnp + 4] == (Token::Punct { ch: '>', spacing: Spacing::Alone, span: rsp })
        &&& out.subrange(fnp + 5, bp) == ts
    })
    &&& is_group_with(out[bp], Delim::Brace) && out[bp].spec_span() == bsp
    &&& group_tokens(out[bp]).len() == init_stmt_len() + group_tokens(m.body).len()
    &&& init_stmt_ok(group_tokens(out[bp]), bsp)
    &&& group_tokens(out[bp]).subrange(init_stmt_len(), group_tokens(out[bp]).len() as int)
        == group_tokens(m.body)
}

/// Synthesize the rewritten function item from a parsed record. Total: all
/// failure is pushed upstream into the parser. `call_site` anchors the
/// tokens that stand for no input token in the synchronous directive.
#[verifier::rlimit(100)]
pub fn synthesize(rec: FunctionRecord, call_site: u32) -> (out: Vec<Token>)
    requires
        rec.model().wf(),
    ensures
        synth_ok(rec.model(), call_site, out@),
{
    let ghost m = rec.model();
    let FunctionRecord { vis, asyncness, name, params, ret, body } = rec;
    let mut out: Vec<Token> = Vec::new();

    // Step 1: the test-registration directive, chosen by the qualifier.
    match asyncness {
        Some(sp) => {
            out.push(Token::Punct { ch: '#', spacing: Spacing::Alone, span: sp });
            let mut dir: Vec<Token> = Vec::new();
            dir.push(ident_tok("tokio", sp));
            dir.push(Token::Punct { ch: ':', spacing: Spacing::Joint, span: sp });
            dir.push(Token::Punct { ch: ':', spacing: Spacing::Alone, span: sp });
            dir.push(ident_tok("test", sp));
            out.push(Token::Group { delim: Delim::Bracket, tokens: dir, span: sp });
        },
        None => {
            out.push(Token::Punct { ch: '#', spacing: Spacing::Alone, span: call_site });
            let mut dir: Vec<Token> = Vec::new();
            dir.push(ident_tok("test", call_site));
            out.push(Token::Group { delim: Delim::Bracket, tokens: dir, span: call_site });
        },
    }
    proof {
        assert(directive_ok(out@, m.asyncness, call_site));
    }

    // Step 2: the reconstructed signature.
    match vis {
        Visibility::Private => {},
        Visibility::Public { span } => {
            out.push(ident_tok("pub", span));
        },
        Visibility::Scoped { span, group } => {
            out.push(ident_tok("pub", span));
            out.push(group);
        },
    }
    if let Some(sp) = asyncness {
        out.push(ident_tok("async", sp));
    }
    let bsp = span_of(&body);
    out.push(ident_tok("fn", bsp));
    out.push(name);
    out.push(params);
    proof {
        assert(out@.len() == fn_pos(m) + 3);
    }
    match ret {
        Some(ts) => {
            let rsp = span_of(&ts[0]);
            out.push(Token::Punct { ch: '-', spacing: Spacing::Joint, span: rsp });
            out.push(Token::Punct { ch: '>', spacing: Spacing::Alone, span: rsp });
            let mut ty = ts;
            out.append(&mut ty);
            proof {
                assert(out@.subrange(fn_pos(m) + 5, body_pos(m)) =~= ts@);
            }
        },
        None => {},
    }

    // Step 3: the output body — the initialization statement, then every
    // original body token unchanged.
    let mut new_body: Vec<Token> = Vec::new();
    new_body.push(ident_tok("let", bsp));
    new_body.push(ident_tok("_", bsp));
    new_body.push(Token::Punct { ch: '=', spacing: Spacing::Alone, span: bsp });
    new_body.push(ident_tok("pretty_env_logger", bsp));
    new_body.push(Token::Punct { ch: ':', spacing: Spacing::Joint, span: bsp });
    new_body.push(Token::Punct { ch: ':', spacing: Spacing::Alone, span: bsp });
    new_body.push(ident_tok("try_init", bsp));
    new_body.push(Token::Group { delim: Delim::Paren, tokens: Vec::new(), span: bsp });
    new_body.push(Token::Punct { ch: ';', spacing: Spacing::Alone, span: bsp });
    proof {
        assert(init_stmt_ok(new_body@, bsp));
    }
    let mut orig = match body {
        Token::Group { tokens, .. } => tokens,
        _ => vstd::pervasive::unreached(),
    };
    new_body.append(&mut orig);
    proof {
        assert(new_body@.subrange(init_stmt_len(), new_body@.len() as int) =~= group_tokens(
            m.body,
        ));
    }
    out.push(Token::Group { delim: Delim::Brace, tokens: new_body, span: bsp });
    proof {
        assert(out@.len() == body_pos(m) + 1);
        assert(directive_ok(out@, m.asyncness, call_site));
        assert(vis_ok(out@, m.vis, 2));
        if m.ret is Some {
            let ts2 = m.ret.unwrap();
            assert(out@.subrange(fn_pos(m) + 5, body_pos(m)) =~= ts2);
        }
        let bt = group_tokens(out@[body_pos(m)]);
        assert(init_stmt_ok(bt, bsp));
        assert(bt.subrange(init_stmt_len(), bt.len() as int) =~= group_tokens(m.body));
        assert(synth_ok(m, call_site, out@));
    }
    out
}

} // verus!
