//! The structured model of a generation request.
//!
//! The host language's own tokenizer and type parser are external
//! collaborators: they hand the library already-structured values of the
//! types below. Everything the generator's decisions read is held here as
//! plain values, so the decision logic can match exhaustively.

use vstd::prelude::*;
use vstd::string::StringExecFns;

verus! {

/// Equality of two string slices, decided through owned copies.
pub fn str_eq_str(a: &str, b: &str) -> (r: bool)
    ensures
        r == (a@ == b@),
{
    let a_owned = String::from_str(a);
    let b_owned = String::from_str(b);
    a_owned == b_owned
}

/// The kind of a generic argument in instantiation position.
#[derive(Clone, Copy, Debug, PartialEq, Eq, Structural)]
pub enum ArgKind {
    ConstKind,
    TypeKind,
    LifetimeKind,
}

/// One generic argument as a caller would supply it, carrying its kind and
/// its opaque source text.
#[derive(Clone, Debug, PartialEq, Eq)]
pub struct GenericArg {
    pub kind: ArgKind,
    pub text: String,
}

/// The mathematical value of a [`GenericArg`].
pub struct GenericArgV {
    pub kind: ArgKind,
    pub text: Seq<char>,
}

impl View for GenericArg {
    type V = GenericArgV;

    open spec fn view(&self) -> GenericArgV {
        GenericArgV { kind: self.kind, text: self.text@ }
    }
}

/// The views of a sequence of path segments.
pub open spec fn strings_view(v: Seq<String>) -> Seq<Seq<char>> {
    v.map_values(|s: String| s@)
}

/// The views of a sequence of generic arguments.
pub open spec fn args_view(v: Seq<GenericArg>) -> Seq<GenericArgV> {
    v.map_values(|a: GenericArg| a@)
}

/// A structural type reference. Only named paths and their generic arguments
/// are ever inspected; the payloads of the other variants are carried as
/// opaque source text for the emission backend.
#[derive(Clone, Debug, PartialEq, Eq)]
pub enum TypeExpr {
    /// A plain path such as `u8` or `uuid::Uuid`, as its segments.
    NamedPath { segments: Vec<String> },
    /// A path carrying angle-bracketed generic arguments, such as
    /// `Cow<'a, str>`; the arguments are kept in order of appearance.
    Parameterized { segments: Vec<String>, args: Vec<GenericArg> },
    /// A tuple type, each element as opaque source text.
    Tuple { elements: Vec<String> },
    /// A reference type, its referent as opaque source text.
    Reference { target: String },
    /// Any other shape of type, as opaque source text.
    Other { text: String },
}

/// The mathematical value of a [`TypeExpr`].
pub enum TypeExprV {
    NamedPath { segments: Seq<Seq<char>> },
    Parameterized { segments: Seq<Seq<char>>, args: Seq<GenericArgV> },
    Tuple { elements: Seq<Seq<char>> },
    Reference { target: Seq<char> },
    Other { text: Seq<char> },
}

impl View for TypeExpr {
    type V = TypeExprV;

    open spec fn view(&self) -> TypeExprV {
        match self {
            TypeExpr::NamedPath { segments } => TypeExprV::NamedPath {
                segments: strings_view(segments@),
            },
            TypeExpr::Parameterized { segments, args } => TypeExprV::Parameterized {
                segments: strings_view(segments@),
                args: args_view(args@),
            },
            TypeExpr::Tuple { elements } => TypeExprV::Tuple {
                elements: strings_view(elements@),
            },
            TypeExpr::Reference { target } => TypeExprV::Reference { target: target@ },
            TypeExpr::Other { text } => TypeExprV::Other { text: text@ },
        }
    }
}

/// The scope marker of the subject declaration, carried through opaquely.
#[derive(Clone, Debug, PartialEq, Eq)]
pub enum Visibility {
    Private,
    ModuleScoped,
    Public,
    ScopedToPath { path: String },
}

/// The mathematical value of a [`Visibility`].
pub enum VisibilityV {
    Private,
    ModuleScoped,
    Public,
    ScopedToPath { path: Seq<char> },
}

impl View for Visibility {
    type V = VisibilityV;

    open spec fn view(&self) -> VisibilityV {
        match self {
            Visibility::Private => VisibilityV::Private,
            Visibility::ModuleScoped => VisibilityV::ModuleScoped,
            Visibility::Public => VisibilityV::Public,
            Visibility::ScopedToPath { path } => VisibilityV::ScopedToPath { path: path@ },
        }
    }
}

/// The subject being wrapped: its visibility, its (possibly parameterized)
/// name, and the wrapped type.
#[derive(Clone, Debug, PartialEq, Eq)]
pub struct Declaration {
    pub visibility: Visibility,
    pub name: TypeExpr,
    pub wrapped: TypeExpr,
}

/// The mathematical value of a [`Declaration`].
pub struct DeclarationV {
    pub visibility: VisibilityV,
    pub name: TypeExprV,
    pub wrapped: TypeExprV,
}

impl View for Declaration {
    type V = DeclarationV;

    open spec fn view(&self) -> DeclarationV {
        DeclarationV { visibility: self.visibility@, name: self.name@, wrapped: self.wrapped@ }
    }
}

/// The error taxonomy. Every failure of the generator is one of these; all
/// are detected synchronously and propagated immediately, with no partial
/// output.
#[derive(Clone, Debug, PartialEq, Eq)]
pub enum GenError {
    /// An attribute key outside the recognized schema, naming the key.
    UnrecognizedOption { key: String },
    /// A recognized key given the wrong value shape, or given twice.
    MalformedOption { key: String },
    /// The subject declaration does not take the required shape.
    MalformedDeclaration,
    /// SQL binding requested on a wrapped type that is not a plain path.
    UnsupportedSqlBindingTarget,
}

/// The mathematical value of a [`GenError`].
pub enum GenErrorV {
    UnrecognizedOption { key: Seq<char> },
    MalformedOption { key: Seq<char> },
    MalformedDeclaration,
    UnsupportedSqlBindingTarget,
}

impl View for GenError {
    type V = GenErrorV;

    open spec fn view(&self) -> GenErrorV {
        match self {
            GenError::UnrecognizedOption { key } => GenErrorV::UnrecognizedOption { key: key@ },
            GenError::MalformedOption { key } => GenErrorV::MalformedOption { key: key@ },
            GenError::MalformedDeclaration => GenErrorV::MalformedDeclaration,
            GenError::UnsupportedSqlBindingTarget => GenErrorV::UnsupportedSqlBindingTarget,
        }
    }
}

/// Clone a path-segment vector, preserving its view.
pub fn clone_strings(v: &Vec<String>) -> (r: Vec<String>)
    ensures
        r@ == v@,
{
    let r = v.clone();
    proof {
        assert forall|i: int| 0 <= i < v@.len() implies r@[i] == v@[i] by {
            assert(cloned::<String>(v@[i], r@[i]));
        }
        assert(r@ =~= v@);
    }
    r
}

/// Clone one generic argument, preserving its view.
pub fn clone_generic_arg(a: &GenericArg) -> (r: GenericArg)
    ensures
        r@ == a@,
{
    GenericArg { kind: a.kind, text: a.text.clone() }
}

/// Clone a generic-argument vector, preserving the views of its items.
pub fn clone_args(v: &Vec<GenericArg>) -> (r: Vec<GenericArg>)
    ensures
        args_view(r@) == args_view(v@),
{
    let mut r: Vec<GenericArg> = Vec::new();
    let mut i: usize = 0;
    while i < v.len()
        invariant
            i <= v@.len(),
            r@.len() == i,
            forall|j: int| 0 <= j < i ==> r@[j]@ == v@[j]@,
        decreases v@.len() - i,
    {
        r.push(clone_generic_arg(&v[i]));
        i = i + 1;
    }
    proof {
        assert(args_view(r@) =~= args_view(v@));
    }
    r
}

/// Clone a type reference, preserving its view.
pub fn clone_type_expr(t: &TypeExpr) -> (r: TypeExpr)
    ensures
        r@ == t@,
{
    match t {
        TypeExpr::NamedPath { segments } => TypeExpr::NamedPath {
            segments: clone_strings(segments),
        },
        TypeExpr::Parameterized { segments, args } => TypeExpr::Parameterized {
            segments: clone_strings(segments),
            args: clone_args(args),
        },
        TypeExpr::Tuple { elements } => TypeExpr::Tuple { elements: clone_strings(elements) },
        TypeExpr::Reference { target } => TypeExpr::Reference { target: target.clone() },
        TypeExpr::Other { text } => TypeExpr::Other { text: text.clone() },
    }
}

/// Clone a visibility marker, preserving its view.
pub fn clone_visibility(v: &Visibility) -> (r: Visibility)
    ensures
        r@ == v@,
{
    match v {
        Visibility::Private => Visibility::Private,
        Visibility::ModuleScoped => Visibility::ModuleScoped,
        Visibility::Public => Visibility::Public,
        Visibility::ScopedToPath { path } => Visibility::ScopedToPath { path: path.clone() },
    }
}

/// Equality of two generic arguments, decided by kind and text.
pub fn generic_arg_eq(a: &GenericArg, b: &GenericArg) -> (r: bool)
    ensures
        r == (a@ == b@),
{
    let kinds_match = a.kind == b.kind;
    if kinds_match {
        a.text == b.text
    } else {
        false
    }
}

} // verus!
