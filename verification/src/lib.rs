//! A declaration-to-declaration newtype generator.
//!
//! Given a `type Name = Wrapped;` style declaration together with a small
//! configuration, the library produces the ordered set of output declarations
//! that make up a single-field wrapper type: capability-derivation attributes,
//! a storage-representation attribute, the struct itself, and the optional
//! implementation blocks (dereference bridge, constructor, display, and the
//! mandatory newtype trait conformance).
//!
//! The host language's tokenizer and the final code emission are external
//! collaborators; the library works on its own structured model of the
//! declaration and states exactly which blocks come out for which inputs.

pub mod assemble;
pub mod config;
pub mod decl;
pub mod diag;
pub mod generics;
pub mod model;
pub mod output;
pub mod sql;

use vstd::prelude::*;
use crate::assemble::{assemble, blocks_result_view, spec_assemble};
use crate::config::{AttrToken, AttrTokenV, parse_attrs, spec_parse_attrs, tokens_view};
use crate::decl::{DeclToken, DeclTokenV, decl_tokens_view, parse_decl, spec_parse_decl};
use crate::model::GenErrorV;
use crate::output::{OutputBlock, OutputBlockV};

verus! {

/// What one whole generation request yields: the configuration is parsed
/// first, then the declaration, then the set is assembled; the first failure
/// is the result, and there is no partial output.
pub open spec fn spec_newtype(
    attr_tokens: Seq<AttrTokenV>,
    decl_tokens: Seq<DeclTokenV>,
) -> Result<Seq<OutputBlockV>, GenErrorV> {
    match spec_parse_attrs(attr_tokens) {
        Result::Ok(c) => match spec_parse_decl(decl_tokens) {
            Result::Ok(d) => spec_assemble(c, d),
            Result::Err(e) => Result::Err(e),
        },
        Result::Err(e) => Result::Err(e),
    }
}

/// Run one generation request: parse the attribute tokens and the subject
/// declaration, then compose the complete ordered output declaration set.
pub fn newtype(attr_tokens: &Vec<AttrToken>, decl_tokens: &Vec<DeclToken>) -> (r: Result<
    Vec<OutputBlock>,
    crate::model::GenError,
>)
    ensures
        blocks_result_view(r) == spec_newtype(
            tokens_view(attr_tokens@),
            decl_tokens_view(decl_tokens@),
        ),
{
    let attrs = match parse_attrs(attr_tokens) {
        Result::Ok(a) => a,
        Result::Err(e) => {
            return Result::Err(e);
        },
    };
    let declaration = match parse_decl(decl_tokens) {
        Result::Ok(d) => d,
        Result::Err(e) => {
            return Result::Err(e);
        },
    };
    assemble(&attrs, &declaration)
}

} // verus!
