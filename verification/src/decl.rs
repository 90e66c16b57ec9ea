//! The declaration parser.
//!
//! The subject declaration must take the shape
//! `[visibility] type <Name> = <WrappedType> ;`. The external tokenizer hands
//! the library a token sequence; this parser checks the shape and produces
//! the [`Declaration`] record, or fails with
//! [`GenError::MalformedDeclaration`].

use vstd::prelude::*;
use crate::model::{Declaration, DeclarationV, GenError, GenErrorV, TypeExpr, TypeExprV};
use crate::model::{Visibility, VisibilityV, clone_type_expr, clone_visibility};

verus! {

/// One token of the subject declaration, as the external tokenizer hands it
/// over. Type and visibility payloads arrive already structured.
#[derive(Clone, Debug, PartialEq, Eq)]
pub enum DeclToken {
    /// An explicit visibility marker.
    VisibilityToken { vis: Visibility },
    /// The `type` keyword.
    TypeKeyword,
    /// A structured type reference.
    TypeToken { ty: TypeExpr },
    /// The `=` sign.
    EqualsToken,
    /// The terminating `;`.
    SemicolonToken,
}

/// The mathematical value of a [`DeclToken`].
pub enum DeclTokenV {
    VisibilityToken { vis: VisibilityV },
    TypeKeyword,
    TypeToken { ty: TypeExprV },
    EqualsToken,
    SemicolonToken,
}

impl View for DeclToken {
    type V = DeclTokenV;

    open spec fn view(&self) -> DeclTokenV {
        match self {
            DeclToken::VisibilityToken { vis } => DeclTokenV::VisibilityToken { vis: vis@ },
            DeclToken::TypeKeyword => DeclTokenV::TypeKeyword,
            DeclToken::TypeToken { ty } => DeclTokenV::TypeToken { ty: ty@ },
            DeclToken::EqualsToken => DeclTokenV::EqualsToken,
            DeclToken::SemicolonToken => DeclTokenV::SemicolonToken,
        }
    }
}

/// The views of a sequence of declaration tokens.
pub open spec fn decl_tokens_view(v: Seq<DeclToken>) -> Seq<DeclTokenV> {
    v.map_values(|t: DeclToken| t@)
}

/// Whether a token sequence has the visibility-less shape
/// `type <Name> = <WrappedType> ;`.
pub open spec fn bare_shape(s: Seq<DeclTokenV>) -> bool {
    &&& s.len() == 5
    &&& s[0] is TypeKeyword
    &&& s[1] is TypeToken
    &&& s[2] is EqualsToken
    &&& s[3] is TypeToken
    &&& s[4] is SemicolonToken
}

/// What parsing a declaration token sequence yields: the declaration record,
/// with the visibility defaulting to private when no marker leads, or the
/// malformed-declaration error when the shape does not match.
pub open spec fn spec_parse_decl(s: Seq<DeclTokenV>) -> Result<DeclarationV, GenErrorV> {
    if bare_shape(s) {
        Result::Ok(
            DeclarationV {
                visibility: VisibilityV::Private,
                name: s[1]->TypeToken_ty,
                wrapped: s[3]->TypeToken_ty,
            },
        )
    } else if s.len() == 6 && s[0] is VisibilityToken && bare_shape(s.drop_first()) {
        Result::Ok(
            DeclarationV {
                visibility: s[0]->VisibilityToken_vis,
                name: s[2]->TypeToken_ty,
                wrapped: s[4]->TypeToken_ty,
            },
        )
    } else {
        Result::Err(GenErrorV::MalformedDeclaration)
    }
}

/// The view of a declaration parse result.
pub open spec fn decl_result_view(r: Result<Declaration, GenError>) -> Result<
    DeclarationV,
    GenErrorV,
> {
    match r {
        Result::Ok(d) => Result::Ok(d@),
        Result::Err(e) => Result::Err(e@),
    }
}

/// Whether a token is the `type` keyword.
fn is_type_keyword(t: &DeclToken) -> (r: bool)
    ensures
        r == (t@ is TypeKeyword),
{
    match t {
        DeclToken::TypeKeyword => true,
        _ => false,
    }
}

/// Whether a token is the `=` sign.
fn is_equals(t: &DeclToken) -> (r: bool)
    ensures
        r == (t@ is EqualsToken),
{
    match t {
        DeclToken::EqualsToken => true,
        _ => false,
    }
}

/// Whether a token is the terminating `;`.
fn is_semicolon(t: &DeclToken) -> (r: bool)
    ensures
        r == (t@ is SemicolonToken),
{
    match t {
        DeclToken::SemicolonToken => true,
        _ => false,
    }
}

/// Parse the five-token tail `type <Name> = <WrappedType> ;` starting at
/// `from`, pairing it with the given visibility.
fn parse_bare(tokens: &Vec<DeclToken>, from: usize, visibility: Visibility) -> (r: Result<
    Declaration,
    GenError,
>)
    requires
        from + 5 == tokens@.len(),
    ensures
        bare_shape(decl_tokens_view(tokens@).skip(from as int)) ==> (r matches Result::Ok(d)
            && d@.visibility == visibility@
            && d@.name == decl_tokens_view(tokens@).skip(from as int)[1]->TypeToken_ty
            && d@.wrapped == decl_tokens_view(tokens@).skip(from as int)[3]->TypeToken_ty),
        !bare_shape(decl_tokens_view(tokens@).skip(from as int)) ==> (r matches Result::Err(e)
            && e@ == GenErrorV::MalformedDeclaration),
{
    // Learn the length as a machine integer, so the index arithmetic below
    // is known not to overflow.
    let _n: usize = tokens.len();
    if !is_type_keyword(&tokens[from]) {
        return Result::Err(GenError::MalformedDeclaration);
    }
    let name = match &tokens[from + 1] {
        DeclToken::TypeToken { ty } => clone_type_expr(ty),
        _ => {
            return Result::Err(GenError::MalformedDeclaration);
        },
    };
    if !is_equals(&tokens[from + 2]) {
        return Result::Err(GenError::MalformedDeclaration);
    }
    let wrapped = match &tokens[from + 3] {
        DeclToken::TypeToken { ty } => clone_type_expr(ty),
        _ => {
            return Result::Err(GenError::MalformedDeclaration);
        },
    };
    if !is_semicolon(&tokens[from + 4]) {
        return Result::Err(GenError::MalformedDeclaration);
    }
    Result::Ok(Declaration { visibility, name, wrapped })
}

/// Parse the subject declaration's token sequence into the declaration
/// record; every sequence outside the required shape is rejected as
/// malformed.
pub fn parse_decl(tokens: &Vec<DeclToken>) -> (r: Result<Declaration, GenError>)
    ensures
        decl_result_view(r) == spec_parse_decl(decl_tokens_view(tokens@)),
{
    let ghost all = decl_tokens_view(tokens@);
    if tokens.len() == 5 {
        proof {
            assert(all.skip(0) =~= all);
        }
        parse_bare(tokens, 0, Visibility::Private)
    } else if tokens.len() == 6 {
        let vis = match &tokens[0] {
            DeclToken::VisibilityToken { vis } => clone_visibility(vis),
            _ => {
                return Result::Err(GenError::MalformedDeclaration);
            },
        };
        proof {
            assert(all.skip(1) =~= all.drop_first());
            assert(!bare_shape(all));
        }
        parse_bare(tokens, 1, vis)
    } else {
        Result::Err(GenError::MalformedDeclaration)
    }
}

} // verus!
