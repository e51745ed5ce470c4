//! The structured record that the signature parser produces and the code
//! synthesizer consumes, together with its ghost-level model.

use vstd::prelude::*;

verus! {

use crate::tokens::{Token, Delim, is_brace_group};

/// The visibility clause of the parsed function, copied verbatim from the
/// input and never validated.
#[derive(Debug, PartialEq, Eq)]
pub enum Visibility {
    /// No visibility clause: default (private) visibility.
    Private,
    /// A bare `pub`; `span` is the span of the `pub` token.
    Public { span: u32 },
    /// `pub` followed directly by a parenthesized restriction, kept verbatim.
    Scoped { span: u32, group: Token },
}

/// One parsed function item. Ephemeral: it lives for a single transformation
/// call, and the synthesizer trusts it exactly as the parser produced it.
#[derive(Debug, PartialEq, Eq)]
pub struct FunctionRecord {
    pub vis: Visibility,
    /// The span of the concurrency qualifier when one was present.
    pub asyncness: Option<u32>,
    /// The identifier naming the function.
    pub name: Token,
    /// The parameter group, an opaque span re-emitted verbatim.
    pub params: Token,
    /// The return-type tokens, present only when an arrow clause parsed.
    pub ret: Option<Vec<Token>>,
    /// The brace-delimited body block.
    pub body: Token,
}

/// The ghost model of a record: the same fields with the return-type vector
/// abstracted to a token sequence.
pub struct RecordModel {
    pub vis: Visibility,
    pub asyncness: Option<u32>,
    pub name: Token,
    pub params: Token,
    pub ret: Option<Seq<Token>>,
    pub body: Token,
}

impl FunctionRecord {
    pub open spec fn model(self) -> RecordModel {
        RecordModel {
            vis: self.vis,
            asyncness: self.asyncness,
            name: self.name,
            params: self.params,
            ret: match self.ret {
                Some(v) => Some(v@),
                None => None,
            },
            body: self.body,
        }
    }
}

impl RecordModel {
    /// Well-formedness: exactly the shape the parser guarantees.
    pub open spec fn wf(self) -> bool {
        &&& self.name is Ident
        &&& self.params is Group
        &&& is_brace_group(self.body)
        &&& (self.ret matches Some(ts) ==> ts.len() > 0 && (forall|j: int|
            0 <= j < ts.len() ==> !is_brace_group(#[trigger] ts[j])))
        &&& (self.vis matches Visibility::Scoped { group, .. } ==> group is Group
            && group->Group_delim == Delim::Paren)
    }
}

/// Why a parse was rejected.
#[derive(Clone, Copy, Debug, PartialEq, Eq)]
pub enum ParseErrorKind {
    /// The function-introducer keyword was not found.
    MissingFnKeyword,
    /// No identifier names the function.
    MissingName,
    /// No parameter group follows the name.
    MissingParams,
    /// No brace-delimited body block was found.
    MissingBody,
    /// Tokens remain after the body block.
    TrailingTokens,
}

/// A hard parse failure: the signature is malformed. Carries the span of the
/// token where parsing diverged from expectation, or `None` when the input
/// ended before that point.
#[derive(Clone, Copy, Debug, PartialEq, Eq)]
pub struct ParseError {
    pub kind: ParseErrorKind,
    pub span: Option<u32>,
}

} // verus!
