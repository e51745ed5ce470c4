//! The laws the transformer obeys, stated over the parser's and the
//! synthesizer's specifications and proved once for all inputs.

use vstd::prelude::*;

verus! {

use crate::tokens::{Token, is_ident, is_group_with, is_brace_group, group_tokens, Delim};
use crate::record::{RecordModel, ParseError, ParseErrorKind};
use crate::parse::{spec_parse, skip_attrs, arrow_at, ret_end, ret_clause, fn_kw_pos};
use crate::synth::{synth_ok, init_stmt_ok, init_stmt_len, fn_pos, body_pos, vis_token_count};

/// For every valid synchronous input — one the parser accepts with no
/// concurrency qualifier — the emitted directive is the plain synchronous
/// `#[test]` directive, and no qualifier stands in the emitted signature:
/// the `fn` keyword follows the visibility clause directly.
pub proof fn lemma_sync_directive(input: Seq<Token>, call_site: u32, m: RecordModel, out: Seq<
    Token,
>)
    requires
        spec_parse(input) == Ok::<RecordModel, ParseError>(m),
        m.asyncness is None,
        synth_ok(m, call_site, out),
    ensures
        is_group_with(out[1], Delim::Bracket),
        group_tokens(out[1]).len() == 1,
        is_ident(group_tokens(out[1])[0], "test"@),
        fn_pos(m) == 2 + vis_token_count(m.vis),
        is_ident(out[2 + vis_token_count(m.vis)], "fn"@),
{
}

/// For every valid asynchronous input — the concurrency qualifier present —
/// the emitted directive is the asynchronous-test-runner directive
/// `#[tokio::test]`, anchored at the qualifier's original span, and the
/// qualifier is preserved verbatim in the signature: an `async` identifier
/// carrying the input token's span stands directly before the `fn` keyword.
pub proof fn lemma_async_directive(input: Seq<Token>, call_site: u32, m: RecordModel, out: Seq<
    Token,
>)
    requires
        spec_parse(input) == Ok::<RecordModel, ParseError>(m),
        m.asyncness is Some,
        synth_ok(m, call_site, out),
    ensures
        ({
            let sp = m.asyncness.unwrap();
            let q = fn_kw_pos(input) - 1;
            &&& is_ident(input[q], "async"@)
            &&& sp == input[q].spec_span()
            &&& is_group_with(out[1], Delim::Bracket)
            &&& out[1].spec_span() == sp
            &&& group_tokens(out[1]).len() == 4
            &&& is_ident(group_tokens(out[1])[0], "tokio"@)
            &&& is_ident(group_tokens(out[1])[3], "test"@)
            &&& is_ident(out[fn_pos(m) - 1], "async"@)
            &&& out[fn_pos(m) - 1].spec_span() == sp
            &&& is_ident(out[fn_pos(m)], "fn"@)
        }),
{
}

/// For every input with a well-formed return-type clause, the output
/// signature contains an identical arrow clause: the arrow, anchored at the
/// type's span, followed by exactly the parsed type tokens.
pub proof fn lemma_ret_clause_kept(m: RecordModel, call_site: u32, out: Seq<Token>)
    requires
        m.ret is Some,
        synth_ok(m, call_site, out),
    ensures
        ({
            let ts = m.ret.unwrap();
            let fnp = fn_pos(m);
            &&& out[fnp + 3] is Punct && out[fnp + 3]->Punct_ch == '-'
            &&& out[fnp + 3].spec_span() == ts[0].spec_span()
            &&& out[fnp + 4] is Punct && out[fnp + 4]->Punct_ch == '>'
            &&& out.subrange(fnp + 5, body_pos(m)) == ts
        }),
{
}

/// For every accepted input whose arrow clause is well formed — the arrow
/// directly after the parameter group, followed by at least one token before
/// the body block — the parsed record carries exactly those type tokens.
pub proof fn lemma_ret_clause_parsed(input: Seq<Token>, m: RecordModel)
    requires
        spec_parse(input) == Ok::<RecordModel, ParseError>(m),
        arrow_at(input, fn_kw_pos(input) + 3),
        ret_end(input, fn_kw_pos(input) + 5) > fn_kw_pos(input) + 5,
    ensures
        m.ret == Some(
            input.subrange(fn_kw_pos(input) + 5, ret_end(input, fn_kw_pos(input) + 5)),
        ),
{
}

/// For every input with a malformed or absent return-type clause, the output
/// signature contains no arrow clause at all — never a partial one: the body
/// block follows the parameter group directly and ends the output.
pub proof fn lemma_ret_clause_absent(m: RecordModel, call_site: u32, out: Seq<Token>)
    requires
        m.ret is None,
        synth_ok(m, call_site, out),
    ensures
        out.len() == fn_pos(m) + 4,
        is_brace_group(out[fn_pos(m) + 3]),
{
}

/// Body preservation: the original body's token sequence appears unmodified,
/// in its original order, directly after the single inserted initialization
/// statement, and nothing else stands in the emitted body.
pub proof fn lemma_body_preserved(m: RecordModel, call_site: u32, out: Seq<Token>)
    requires
        synth_ok(m, call_site, out),
    ensures
        ({
            let bt = group_tokens(out[body_pos(m)]);
            let orig = group_tokens(m.body);
            &&& init_stmt_ok(bt, m.body.spec_span())
            &&& bt.len() == init_stmt_len() + orig.len()
            &&& forall|j: int|
                0 <= j < orig.len() ==> bt[init_stmt_len() + j] == #[trigger] orig[j]
        }),
{
    let bt = group_tokens(out[body_pos(m)]);
    let orig = group_tokens(m.body);
    assert forall|j: int| 0 <= j < orig.len() implies bt[init_stmt_len() + j]
        == #[trigger] orig[j] by {
        assert(bt.subrange(init_stmt_len(), bt.len() as int)[j] == bt[init_stmt_len() + j]);
    }
}

/// Whatever the parser accepts is complete: a parsed record's name, parameter
/// group and body block are the input's own tokens, standing in order, and
/// the record is well formed. Contrapositively, an input missing any of them
/// is rejected, and rejection produces no output tokens at all.
pub proof fn lemma_parse_ok_shape(input: Seq<Token>, m: RecordModel)
    requires
        spec_parse(input) == Ok::<RecordModel, ParseError>(m),
    ensures
        ({
            let f = fn_kw_pos(input);
            &&& is_ident(input[f], "fn"@)
            &&& m.name == input[f + 1] && m.name is Ident
            &&& m.params == input[f + 2] && m.params is Group
            &&& m.body == input[ret_clause(input, f + 3).1] && is_brace_group(m.body)
            &&& m.wf()
        }),
{
    let f = fn_kw_pos(input);
    lemma_skip_attrs_lb(input, 0);
    assert(0 <= f);
    let (ret, b) = ret_clause(input, f + 3);
    if ret is Some {
        assert(crate::parse::arrow_at(input, f + 3));
        lemma_ret_end_no_brace(input, f + 5);
    }
}

/// Skipping annotations never moves backwards.
proof fn lemma_skip_attrs_lb(s: Seq<Token>, i: int)
    ensures
        skip_attrs(s, i) >= i,
    decreases s.len() - i,
{
    if i + 2 <= s.len() && crate::tokens::is_punct(s[i], '#') && is_group_with(
        s[i + 1],
        Delim::Bracket,
    ) {
        lemma_skip_attrs_lb(s, i + 2);
    }
}

/// A function item missing its body block is rejected with the body-missing
/// diagnostic, anchored where the body was expected.
pub proof fn lemma_missing_body_rejected(input: Seq<Token>)
    requires
        ({
            let f = fn_kw_pos(input);
            let b = ret_clause(input, f + 3).1;
            &&& f < input.len() && is_ident(input[f], "fn"@)
            &&& f + 1 < input.len() && input[f + 1] is Ident
            &&& f + 2 < input.len() && input[f + 2] is Group
            &&& !(b < input.len() && is_brace_group(input[b]))
        }),
    ensures
        spec_parse(input) matches Err(e) && e.kind == ParseErrorKind::MissingBody,
{
}

/// A function item missing its name is rejected with the name-missing
/// diagnostic.
pub proof fn lemma_missing_name_rejected(input: Seq<Token>)
    requires
        ({
            let f = fn_kw_pos(input);
            &&& f < input.len() && is_ident(input[f], "fn"@)
            &&& !(f + 1 < input.len() && input[f + 1] is Ident)
        }),
    ensures
        spec_parse(input) matches Err(e) && e.kind == ParseErrorKind::MissingName,
{
}

/// A function item missing its parameter group is rejected with the
/// parameters-missing diagnostic.
pub proof fn lemma_missing_params_rejected(input: Seq<Token>)
    requires
        ({
            let f = fn_kw_pos(input);
            &&& f < input.len() && is_ident(input[f], "fn"@)
            &&& f + 1 < input.len() && input[f + 1] is Ident
            &&& !(f + 2 < input.len() && input[f + 2] is Group)
        }),
    ensures
        spec_parse(input) matches Err(e) && e.kind == ParseErrorKind::MissingParams,
{
}

/// No token between `f` and the first brace group is a brace group: the
/// return-type scan stops at the first body-shaped token.
proof fn lemma_ret_end_no_brace(s: Seq<Token>, i: int)
    requires
        0 <= i <= s.len(),
    ensures
        i <= crate::parse::ret_end(s, i) <= s.len(),
        forall|j: int|
            i <= j < crate::parse::ret_end(s, i) ==> !is_brace_group(#[trigger] s[j]),
    decreases s.len() - i,
{
    if i < s.len() && !is_brace_group(s[i]) {
        lemma_ret_end_no_brace(s, i + 1);
    }
}

} // verus!
