//! A compile-time source transformer for test functions: it parses the token
//! form of one function item and re-emits it with a test-registration
//! directive and an idempotent logger-initialization statement at the head of
//! the body.

pub mod tokens;
pub mod record;
pub mod parse;
pub mod synth;
pub mod laws;

use vstd::prelude::*;

verus! {

use crate::tokens::Token;
use crate::record::{RecordModel, ParseError};
use crate::parse::{parse, spec_parse};
use crate::synth::{synthesize, synth_ok};

/// Transform one function item: parse its token sequence into a structured
/// record, then synthesize the rewritten item. The annotation-argument
/// stream `attr` is accepted and discarded, reserved for configuration.
/// `call_site` anchors the tokens that derive from no input token.
///
/// On a malformed signature no output is produced: the error carries the
/// span where parsing diverged, for a compiler-level diagnostic.
pub fn logtest(attr: Vec<Token>, item: Vec<Token>, call_site: u32) -> (r: Result<
    Vec<Token>,
    ParseError,
>)
    ensures
        (r is Ok) == (spec_parse(item@) is Ok),
        (r matches Ok(out) ==> spec_parse(item@) matches Ok(m) && synth_ok(m, call_site, out@)),
        (r matches Err(e) ==> spec_parse(item@) == Err::<RecordModel, ParseError>(e)),
{
    let _ = attr;
    match parse(item) {
        Ok(rec) => Ok(synthesize(rec, call_site)),
        Err(e) => Err(e),
    }
}

} // verus!
