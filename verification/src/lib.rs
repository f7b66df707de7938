//! A compile-time function-declaration rewriter.
//!
//! Given the token-level form of a function declaration and the result of an
//! external configuration lookup, the library either re-emits the declaration
//! tagged so its symbol stays visible under its own name (static mode), or
//! replaces its body with a single call into a named dynamic library through a
//! foreign-function import (dynamic mode).

use vstd::prelude::*;

pub mod emit;
pub mod extract;
pub mod token;

use crate::emit::dynamic_output;
use crate::emit::emit_dynamic;
use crate::emit::emit_static;
use crate::emit::static_output;
use crate::extract::SummaryModel;
use crate::extract::extract;
use crate::extract::parse_signature;
use crate::token::Token;
use crate::token::toks_of;

verus! {

/// Why a transformation was refused. Every failure is final: the
/// transformation either yields a whole declaration or one of these.
#[derive(Clone, Copy, PartialEq, Eq, Debug, Structural)]
pub enum TransformError {
    /// The transformation argument is present but not a single plain
    /// identifier.
    Usage,
    /// The declaration lacks a function keyword, a name, or a parameter list
    /// before its body.
    Structure,
    /// A parameter is named with the wildcard placeholder and cannot be
    /// forwarded by name.
    UnnameableParameter,
}

/// Transform one function declaration.
///
/// `config` is the ambient configuration lookup's outcome for the
/// declaration's key (see [`emit::resolve_key`]): absent selects static mode,
/// present selects dynamic mode with the value as the dynamic-library name —
/// an empty value is a valid name and still selects dynamic mode.
///
/// In static mode the declaration is returned unchanged, body included,
/// behind an export-visibility marker carrying the function's own name. In
/// dynamic mode the original body is discarded and the output holds exactly
/// one call to the function's own symbol, imported from the configured
/// library, with the parameters forwarded in their original order. A
/// declaration the extractor refuses is answered with that error and no
/// output, in either mode.
pub fn smartlink(item: &Vec<Token>, config: Option<String>) -> (r: Result<
    Vec<Token>,
    TransformError,
>)
    ensures
        (match r {
            Ok(out) => extract(toks_of(item@)) matches Ok(s) && (match config {
                Some(lib) => toks_of(out@) == dynamic_output(s, lib@),
                None => toks_of(out@) == static_output(s.name, toks_of(item@)),
            }),
            Err(e) => extract(toks_of(item@)) == Err::<SummaryModel, TransformError>(e),
        }),
{
    let summary = match parse_signature(item) {
        Ok(s) => s,
        Err(e) => {
            return Err(e);
        },
    };
    match config {
        Some(lib) => Ok(emit_dynamic(&summary, &lib)),
        None => Ok(emit_static(&summary.name, item)),
    }
}

} // verus!
