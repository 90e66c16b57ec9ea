//! The output declaration set's building blocks.
//!
//! A generation request yields an ordered sequence of syntactic units; the
//! code-emission collaborator serializes them back to source text. The order
//! of the units is part of the contract and is stated in
//! [`crate::assemble::expected_blocks`].

use vstd::prelude::*;
use crate::model::{GenericArg, GenericArgV, TypeExpr, TypeExprV, Visibility, VisibilityV};
use crate::model::{args_view, strings_view};

verus! {

/// How the serialization capability deserializes.
#[derive(Clone, Debug, PartialEq, Eq)]
pub enum SerializationMode {
    /// The transparent single-field pass-through mapping.
    Transparent,
    /// Construct-via-conversion from the named conversion function.
    ViaConversion { source: String },
}

/// The mathematical value of a [`SerializationMode`].
pub enum SerializationModeV {
    Transparent,
    ViaConversion { source: Seq<char> },
}

impl View for SerializationMode {
    type V = SerializationModeV;

    open spec fn view(&self) -> SerializationModeV {
        match self {
            SerializationMode::Transparent => SerializationModeV::Transparent,
            SerializationMode::ViaConversion { source } => SerializationModeV::ViaConversion {
                source: source@,
            },
        }
    }
}

/// One syntactic unit of the output declaration set.
#[derive(Clone, Debug, PartialEq, Eq)]
pub enum OutputBlock {
    /// The capability-derivation attribute, carrying the capability names in
    /// order.
    CapabilityAttr { names: Vec<String> },
    /// The copy-capability attribute.
    CopyAttr,
    /// The serialization attribute, carrying both derive directions.
    SerializationAttr { mode: SerializationMode },
    /// The SQL-binding storage attribute, tagged transparent and carrying the
    /// inferred storage-type tag when one exists.
    SqlBindingAttr { tag: Option<String> },
    /// The plain single-field transparent-layout marker.
    TransparentLayoutAttr,
    /// The struct declaration itself: visibility, name (with its declared
    /// generic parameter list), one unnamed field of the wrapped type.
    StructDecl { visibility: Visibility, name: TypeExpr, wrapped: TypeExpr },
    /// The scalar-registration statement for the name.
    ScalarExposure { name: TypeExpr },
    /// The dereference bridge to the borrow target, together with the
    /// inner-value extractor that consumes the wrapper and moves the wrapped
    /// value out.
    DerefBridge { generics: Vec<GenericArg>, name: TypeExpr, target: TypeExpr, wrapped: TypeExpr },
    /// The constructor wrapping a value of the wrapped type, `const`-capable
    /// exactly when the wrapper is copyable, plus the from-wrapped-type
    /// conversion.
    Constructor { generics: Vec<GenericArg>, name: TypeExpr, wrapped: TypeExpr, const_capable: bool },
    /// The mandatory trait-conformance block: the type is a recognized
    /// newtype whose associated inner type is the wrapped type.
    TraitConformance { generics: Vec<GenericArg>, name: TypeExpr, wrapped: TypeExpr },
    /// The display passthrough to the wrapped value.
    DisplayImpl { generics: Vec<GenericArg>, name: TypeExpr },
}

/// The mathematical value of an [`OutputBlock`].
pub enum OutputBlockV {
    CapabilityAttr { names: Seq<Seq<char>> },
    CopyAttr,
    SerializationAttr { mode: SerializationModeV },
    SqlBindingAttr { tag: Option<Seq<char>> },
    TransparentLayoutAttr,
    StructDecl { visibility: VisibilityV, name: TypeExprV, wrapped: TypeExprV },
    ScalarExposure { name: TypeExprV },
    DerefBridge {
        generics: Seq<GenericArgV>,
        name: TypeExprV,
        target: TypeExprV,
        wrapped: TypeExprV,
    },
    Constructor {
        generics: Seq<GenericArgV>,
        name: TypeExprV,
        wrapped: TypeExprV,
        const_capable: bool,
    },
    TraitConformance { generics: Seq<GenericArgV>, name: TypeExprV, wrapped: TypeExprV },
    DisplayImpl { generics: Seq<GenericArgV>, name: TypeExprV },
}

impl View for OutputBlock {
    type V = OutputBlockV;

    open spec fn view(&self) -> OutputBlockV {
        match self {
            OutputBlock::CapabilityAttr { names } => OutputBlockV::CapabilityAttr {
                names: strings_view(names@),
            },
            OutputBlock::CopyAttr => OutputBlockV::CopyAttr,
            OutputBlock::SerializationAttr { mode } => OutputBlockV::SerializationAttr {
                mode: mode@,
            },
            OutputBlock::SqlBindingAttr { tag } => OutputBlockV::SqlBindingAttr {
                tag: match tag {
                    Option::Some(t) => Option::Some(t@),
                    Option::None => Option::None,
                },
            },
            OutputBlock::TransparentLayoutAttr => OutputBlockV::TransparentLayoutAttr,
            OutputBlock::StructDecl { visibility, name, wrapped } => OutputBlockV::StructDecl {
                visibility: visibility@,
                name: name@,
                wrapped: wrapped@,
            },
            OutputBlock::ScalarExposure { name } => OutputBlockV::ScalarExposure { name: name@ },
            OutputBlock::DerefBridge { generics, name, target, wrapped } => {
                OutputBlockV::DerefBridge {
                    generics: args_view(generics@),
                    name: name@,
                    target: target@,
                    wrapped: wrapped@,
                }
            },
            OutputBlock::Constructor { generics, name, wrapped, const_capable } => {
                OutputBlockV::Constructor {
                    generics: args_view(generics@),
                    name: name@,
                    wrapped: wrapped@,
                    const_capable: *const_capable,
                }
            },
            OutputBlock::TraitConformance { generics, name, wrapped } => {
                OutputBlockV::TraitConformance {
                    generics: args_view(generics@),
                    name: name@,
                    wrapped: wrapped@,
                }
            },
            OutputBlock::DisplayImpl { generics, name } => OutputBlockV::DisplayImpl {
                generics: args_view(generics@),
                name: name@,
            },
        }
    }
}

/// The views of a sequence of output blocks.
pub open spec fn blocks_view(v: Seq<OutputBlock>) -> Seq<OutputBlockV> {
    v.map_values(|b: OutputBlock| b@)
}

} // verus!
