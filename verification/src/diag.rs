//! The entry point's error surfacing.
//!
//! The caller substitutes a diagnostic in place of generated output whenever
//! a generation request fails: the diagnostic carries the error kind and a
//! human-readable message naming the offending key where one exists.

use vstd::prelude::*;
use vstd::string::StringExecFns;
use crate::config::AttrToken;
use crate::decl::DeclToken;
use crate::model::{GenError, GenErrorV};
use crate::output::OutputBlock;
use crate::output::blocks_view;

verus! {

/// A compiler diagnostic: the error kind together with its rendered message.
#[derive(Clone, Debug, PartialEq, Eq)]
pub struct Diagnostic {
    pub kind: GenError,
    pub message: String,
}

/// The message rendered for each error kind.
pub open spec fn spec_message(e: GenErrorV) -> Seq<char> {
    match e {
        GenErrorV::UnrecognizedOption { key } => "unrecognized option: "@ + key,
        GenErrorV::MalformedOption { key } => "malformed option: "@ + key,
        GenErrorV::MalformedDeclaration =>
            "declaration must take the shape `[visibility] type Name = WrappedType;`"@,
        GenErrorV::UnsupportedSqlBindingTarget =>
            "sql binding requires a plain named wrapped type"@,
    }
}

/// Render the diagnostic for one error.
pub fn diagnostic_for(e: GenError) -> (dg: Diagnostic)
    ensures
        dg.kind@ == e@,
        dg.message@ == spec_message(e@),
{
    let message: String = match &e {
        GenError::UnrecognizedOption { key } => {
            let mut m = String::from_str("unrecognized option: ");
            m.append(key.as_str());
            m
        },
        GenError::MalformedOption { key } => {
            let mut m = String::from_str("malformed option: ");
            m.append(key.as_str());
            m
        },
        GenError::MalformedDeclaration => String::from_str(
            "declaration must take the shape `[visibility] type Name = WrappedType;`",
        ),
        GenError::UnsupportedSqlBindingTarget => String::from_str(
            "sql binding requires a plain named wrapped type",
        ),
    };
    Diagnostic { kind: e, message }
}

/// Run one generation request and surface any failure as a diagnostic, as
/// the entry point hands it to the host compiler.
pub fn generate(attr_tokens: &Vec<AttrToken>, decl_tokens: &Vec<DeclToken>) -> (r: Result<
    Vec<OutputBlock>,
    Diagnostic,
>)
    ensures
        (crate::spec_newtype(
            crate::config::tokens_view(attr_tokens@),
            crate::decl::decl_tokens_view(decl_tokens@),
        ) matches Result::Ok(bs) ==> (r matches Result::Ok(out) && blocks_view(out@) == bs)),
        (crate::spec_newtype(
            crate::config::tokens_view(attr_tokens@),
            crate::decl::decl_tokens_view(decl_tokens@),
        ) matches Result::Err(e) ==> (r matches Result::Err(dg) && dg.kind@ == e && dg.message@
            == spec_message(e))),
{
    match crate::newtype(attr_tokens, decl_tokens) {
        Result::Ok(blocks) => Result::Ok(blocks),
        Result::Err(e) => Result::Err(diagnostic_for(e)),
    }
}

} // verus!
