//! The signature parser: one strict left-to-right, non-backtracking pass over
//! the token stream of a function item.
//!
//! The grammar, in consumption order: leading outer annotations (`#`
//! followed by a bracket group, repeated) are discarded; an optional
//! visibility clause (`pub`, optionally followed directly by a parenthesized
//! restriction); an optional concurrency qualifier (`async`); the required
//! `fn` keyword; the required name; the required parameter group, kept
//! opaque; a best-effort arrow-return clause (`->` followed by the tokens up
//! to the body block — discarded silently when the type is empty); and the
//! required brace-delimited body block, which must end the input.

use vstd::prelude::*;

verus! {

use crate::tokens::{
    Token, Delim, Spacing, is_ident, is_punct, is_group_with, is_brace_group, ident_is, punct_is,
    punct_joint_is, group_is, is_any_group, span_of,
};
use crate::record::{Visibility, FunctionRecord, RecordModel, ParseError, ParseErrorKind};

/// The index just past the leading outer annotations that start at `i`:
/// every `#` token followed directly by a bracket group is skipped.
pub open spec fn skip_attrs(s: Seq<Token>, i: int) -> int
    decreases s.len() - i,
{
    if i + 2 <= s.len() && is_punct(s[i], '#') && is_group_with(s[i + 1], Delim::Bracket) {
        skip_attrs(s, i + 2)
    } else {
        i
    }
}

/// How many tokens the visibility clause at `i` spans: two for a scoped
/// `pub (...)`, one for a bare `pub`, none otherwise.
pub open spec fn vis_len(s: Seq<Token>, i: int) -> int {
    if i < s.len() && is_ident(s[i], "pub"@) {
        if i + 1 < s.len() && is_group_with(s[i + 1], Delim::Paren) {
            2
        } else {
            1
        }
    } else {
        0
    }
}

/// The visibility clause at `i`, verbatim.
pub open spec fn vis_at(s: Seq<Token>, i: int) -> Visibility {
    if i < s.len() && is_ident(s[i], "pub"@) {
        if i + 1 < s.len() && is_group_with(s[i + 1], Delim::Paren) {
            Visibility::Scoped { span: s[i].spec_span(), group: s[i + 1] }
        } else {
            Visibility::Public { span: s[i].spec_span() }
        }
    } else {
        Visibility::Private
    }
}

/// The span of the concurrency qualifier at `i`, when one stands there.
pub open spec fn async_at(s: Seq<Token>, i: int) -> Option<u32> {
    if i < s.len() && is_ident(s[i], "async"@) {
        Some(s[i].spec_span())
    } else {
        None
    }
}

/// An arrow `->` stands at `i`: a joint `-` followed directly by `>`.
pub open spec fn arrow_at(s: Seq<Token>, i: int) -> bool {
    &&& i + 2 <= s.len()
    &&& is_punct(s[i], '-')
    &&& s[i]->Punct_spacing == Spacing::Joint
    &&& is_punct(s[i + 1], '>')
}

/// The index of the first brace group at or after `i` (or the end of the
/// input): the return-type tokens run from `i` up to this index.
pub open spec fn ret_end(s: Seq<Token>, i: int) -> int
    decreases s.len() - i,
{
    if i < s.len() && !is_brace_group(s[i]) {
        ret_end(s, i + 1)
    } else {
        i
    }
}

/// The best-effort return-type clause starting at `k`: the clause tokens (or
/// `None`) and the index where the body block is expected. An absent arrow,
/// or an arrow followed directly by the body block, yields no clause and no
/// error.
pub open spec fn ret_clause(s: Seq<Token>, k: int) -> (Option<Seq<Token>>, int) {
    if arrow_at(s, k) {
        let e = ret_end(s, k + 2);
        if e > k + 2 {
            (Some(s.subrange(k + 2, e)), e)
        } else {
            (None, k + 2)
        }
    } else {
        (None, k)
    }
}

/// The span of the token at `i`, or `None` past the end of the input.
pub open spec fn span_opt(s: Seq<Token>, i: int) -> Option<u32> {
    if 0 <= i < s.len() {
        Some(s[i].spec_span())
    } else {
        None
    }
}

/// The position where the `fn` keyword is expected: past the leading
/// annotations, the visibility clause and the concurrency qualifier.
pub open spec fn fn_kw_pos(s: Seq<Token>) -> int {
    let a = skip_attrs(s, 0);
    let v = a + vis_len(s, a);
    if async_at(s, v) is Some {
        v + 1
    } else {
        v
    }
}

/// What the parser returns on the token sequence `s`: the full mathematical
/// description of one left-to-right consumption of the input.
pub open spec fn spec_parse(s: Seq<Token>) -> Result<RecordModel, ParseError> {
    let a = skip_attrs(s, 0);
    let v = a + vis_len(s, a);
    let asyncness = async_at(s, v);
    let f = fn_kw_pos(s);
    if !(f < s.len() && is_ident(s[f], "fn"@)) {
        Err(ParseError { kind: ParseErrorKind::MissingFnKeyword, span: span_opt(s, f) })
    } else if !(f + 1 < s.len() && s[f + 1] is Ident) {
        Err(ParseError { kind: ParseErrorKind::MissingName, span: span_opt(s, f + 1) })
    } else if !(f + 2 < s.len() && s[f + 2] is Group) {
        Err(ParseError { kind: ParseErrorKind::MissingParams, span: span_opt(s, f + 2) })
    } else {
        let (ret, b) = ret_clause(s, f + 3);
        if !(b < s.len() && is_brace_group(s[b])) {
            Err(ParseError { kind: ParseErrorKind::MissingBody, span: span_opt(s, b) })
        } else if b + 1 != s.len() {
            Err(ParseError { kind: ParseErrorKind::TrailingTokens, span: span_opt(s, b + 1) })
        } else {
            Ok(
                RecordModel {
                    vis: vis_at(s, a),
                    asyncness,
                    name: s[f + 1],
                    params: s[f + 2],
                    ret,
                    body: s[b],
                },
            )
        }
    }
}

/// Parse one function item. The result is exactly what `spec_parse` says of
/// the input, and a parsed record is well formed.
#[verifier::rlimit(100)]
pub fn parse(toks: Vec<Token>) -> (r: Result<FunctionRecord, ParseError>)
    ensures
        (r matches Ok(rec) ==> spec_parse(toks@) == Ok::<RecordModel, ParseError>(rec.model())),
        (r matches Ok(rec) ==> rec.model().wf()),
        (r matches Err(e) ==> spec_parse(toks@) == Err::<RecordModel, ParseError>(e)),
{
    let ghost s = toks@;
    let ghost n = toks@.len() as int;
    let mut rest = toks;
    let ghost mut i: int = 0;

    // Stage 1: consume and discard the leading outer annotations.
    loop
        invariant
            0 <= i <= n,
            n == s.len(),
            rest@ == s.subrange(i, n),
            skip_attrs(s, 0) == skip_attrs(s, i),
        ensures
            0 <= i <= n,
            rest@ == s.subrange(i, n),
            i == skip_attrs(s, 0),
        decreases n - i,
    {
        if rest.len() >= 2 && punct_is(&rest[0], '#') && group_is(&rest[1], Delim::Bracket) {
            assert(rest@[0] == s[i] && rest@[1] == s[i + 1]);
            let _ = rest.remove(0);
            let _ = rest.remove(0);
            proof {
                i = i + 2;
                assert(rest@ =~= s.subrange(i, n));
            }
        } else {
            proof {
                assert(rest@.len() >= 2 ==> rest@[0] == s[i] && rest@[1] == s[i + 1]);
                assert(skip_attrs(s, i) == i);
            }
            break;
        }
    }
    let ghost a = i;

    // Stage 2: the visibility clause; its absence denotes default visibility.
    let vis: Visibility;
    if rest.len() > 0 && ident_is(&rest[0], "pub") {
        assert(rest@[0] == s[i]);
        let pub_tok = rest.remove(0);
        let sp = span_of(&pub_tok);
        if rest.len() > 0 && group_is(&rest[0], Delim::Paren) {
            assert(rest@[0] == s[i + 1]);
            let g = rest.remove(0);
            vis = Visibility::Scoped { span: sp, group: g };
            proof {
                i = i + 2;
                assert(rest@ =~= s.subrange(i, n));
            }
        } else {
            assert(rest@.len() > 0 ==> rest@[0] == s[i + 1]);
            vis = Visibility::Public { span: sp };
            proof {
                i = i + 1;
                assert(rest@ =~= s.subrange(i, n));
            }
        }
    } else {
        assert(rest@.len() > 0 ==> rest@[0] == s[i]);
        vis = Visibility::Private;
    }
    proof {
        assert(vis == vis_at(s, a));
        assert(i == a + vis_len(s, a));
    }
    let ghost v = i;

    // Stage 3: the optional concurrency qualifier.
    let asyncness: Option<u32>;
    if rest.len() > 0 && ident_is(&rest[0], "async") {
        assert(rest@[0] == s[i]);
        let t = rest.remove(0);
        asyncness = Some(span_of(&t));
        proof {
            i = i + 1;
            assert(rest@ =~= s.subrange(i, n));
        }
    } else {
        assert(rest@.len() > 0 ==> rest@[0] == s[i]);
        asyncness = None;
    }
    proof {
        assert(asyncness == async_at(s, v));
    }
    let ghost f = i;

    // Stage 4: the function-introducer keyword; its absence is a hard error.
    if !(rest.len() > 0 && ident_is(&rest[0], "fn")) {
        let sp = if rest.len() > 0 {
            Some(span_of(&rest[0]))
        } else {
            None
        };
        proof {
            assert(rest@.len() > 0 ==> rest@[0] == s[i]);
            assert(sp == span_opt(s, f));
        }
        return Err(ParseError { kind: ParseErrorKind::MissingFnKeyword, span: sp });
    }
    assert(rest@[0] == s[i]);
    let _ = rest.remove(0);
    proof {
        i = i + 1;
        assert(rest@ =~= s.subrange(i, n));
    }

    // Stage 5: the identifier naming the function.
    let has_name = rest.len() > 0 && (match &rest[0] {
        Token::Ident { .. } => true,
        _ => false,
    });
    if !has_name {
        let sp = if rest.len() > 0 {
            Some(span_of(&rest[0]))
        } else {
            None
        };
        proof {
            assert(rest@.len() > 0 ==> rest@[0] == s[i]);
            assert(sp == span_opt(s, f + 1));
        }
        return Err(ParseError { kind: ParseErrorKind::MissingName, span: sp });
    }
    assert(rest@[0] == s[i]);
    let name = rest.remove(0);
    proof {
        i = i + 1;
        assert(rest@ =~= s.subrange(i, n));
    }

    // Stage 6: the parameter group, consumed verbatim and never interpreted.
    if !(rest.len() > 0 && is_any_group(&rest[0])) {
        let sp = if rest.len() > 0 {
            Some(span_of(&rest[0]))
        } else {
            None
        };
        proof {
            assert(rest@.len() > 0 ==> rest@[0] == s[i]);
            assert(sp == span_opt(s, f + 2));
        }
        return Err(ParseError { kind: ParseErrorKind::MissingParams, span: sp });
    }
    assert(rest@[0] == s[i]);
    let params = rest.remove(0);
    proof {
        i = i + 1;
        assert(rest@ =~= s.subrange(i, n));
    }
    let ghost k = i;

    // Stage 7: the best-effort arrow-return clause.
    let mut ret: Option<Vec<Token>> = None;
    let arrow_here = rest.len() >= 2 && punct_joint_is(&rest[0], '-') && punct_is(&rest[1], '>');
    proof {
        assert(rest@.len() >= 2 ==> rest@[0] == s[i] && rest@[1] == s[i + 1]);
        assert(arrow_here == arrow_at(s, k));
    }
    if arrow_here {
        let _ = rest.remove(0);
        let _ = rest.remove(0);
        proof {
            i = i + 2;
            assert(rest@ =~= s.subrange(i, n));
        }
        let ghost t0 = i;
        let mut ty: Vec<Token> = Vec::new();
        loop
            invariant
                0 <= t0 <= i <= n,
                n == s.len(),
                rest@ == s.subrange(i, n),
                ty@ == s.subrange(t0, i),
                ret_end(s, t0) == ret_end(s, i),
                forall|j: int| 0 <= j < ty@.len() ==> !is_brace_group(#[trigger] ty@[j]),
            ensures
                0 <= t0 <= i <= n,
                rest@ == s.subrange(i, n),
                ty@ == s.subrange(t0, i),
                i == ret_end(s, t0),
                forall|j: int| 0 <= j < ty@.len() ==> !is_brace_group(#[trigger] ty@[j]),
            decreases n - i,
        {
            if rest.len() > 0 && !group_is(&rest[0], Delim::Brace) {
                assert(rest@[0] == s[i]);
                let t = rest.remove(0);
                ty.push(t);
                proof {
                    i = i + 1;
                    assert(rest@ =~= s.subrange(i, n));
                    assert(ty@ =~= s.subrange(t0, i));
                }
            } else {
                proof {
                    assert(rest@.len() > 0 ==> rest@[0] == s[i]);
                    assert(ret_end(s, i) == i);
                }
                break;
            }
        }
        if ty.len() > 0 {
            ret = Some(ty);
        }
        proof {
            let (rspec, b) = ret_clause(s, k);
            assert(b == i);
            assert(match ret {
                Some(tv) => rspec == Some(tv@),
                None => rspec is None,
            });
        }
    }
    proof {
        let (rspec, b) = ret_clause(s, k);
        assert(b == i);
    }

    // Stage 8: the brace-delimited body block, which must end the input.
    if !(rest.len() > 0 && group_is(&rest[0], Delim::Brace)) {
        let sp = if rest.len() > 0 {
            Some(span_of(&rest[0]))
        } else {
            None
        };
        proof {
            assert(rest@.len() > 0 ==> rest@[0] == s[i]);
            assert(sp == span_opt(s, i));
        }
        return Err(ParseError { kind: ParseErrorKind::MissingBody, span: sp });
    }
    assert(rest@[0] == s[i]);
    let body = rest.remove(0);
    proof {
        i = i + 1;
        assert(rest@ =~= s.subrange(i, n));
    }
    if rest.len() > 0 {
        assert(rest@[0] == s[i]);
        let sp = Some(span_of(&rest[0]));
        proof {
            assert(sp == span_opt(s, i));
        }
        return Err(ParseError { kind: ParseErrorKind::TrailingTokens, span: sp });
    }
    assert(i == n);

    let rec = FunctionRecord { vis, asyncness, name, params, ret, body };
    proof {
        assert(spec_parse(s) == Ok::<RecordModel, ParseError>(rec.model()));
        assert(rec.model().wf());
    }
    Ok(rec)
}

} // verus!
