//! The configuration parser.
//!
//! A generation request carries an unordered list of attribute tokens, each a
//! flag or a `key = value` pair. The parser validates them against a closed
//! schema in one left-to-right pass and produces the configuration record.
//! Absence of a flag means its default; the parser performs no inference.
//!
//! An unknown key fails with [`GenError::UnrecognizedOption`]. A known key
//! with the wrong value shape, or a key given twice, fails with
//! [`GenError::MalformedOption`].

use vstd::prelude::*;
use crate::model::{GenError, GenErrorV, TypeExpr, TypeExprV};
use crate::model::{clone_strings, clone_type_expr, str_eq_str};

verus! {

/// The value shape of one attribute token.
#[derive(Clone, Debug, PartialEq, Eq)]
pub enum AttrValue {
    /// A bare flag, such as `copy`.
    FlagValue,
    /// A textual value, such as `conversion_source = "from_str"`.
    TextValue { text: String },
    /// A type-name value, such as `borrow = "str"`, already parsed by the
    /// external type parser.
    TypeValue { ty: TypeExpr },
    /// An ordered list of capability names, such as
    /// `custom_capability_list = (Debug, Clone)`.
    ListValue { names: Vec<String> },
}

/// The mathematical value of an [`AttrValue`].
pub enum AttrValueV {
    FlagValue,
    TextValue { text: Seq<char> },
    TypeValue { ty: TypeExprV },
    ListValue { names: Seq<Seq<char>> },
}

impl View for AttrValue {
    type V = AttrValueV;

    open spec fn view(&self) -> AttrValueV {
        match self {
            AttrValue::FlagValue => AttrValueV::FlagValue,
            AttrValue::TextValue { text } => AttrValueV::TextValue { text: text@ },
            AttrValue::TypeValue { ty } => AttrValueV::TypeValue { ty: ty@ },
            AttrValue::ListValue { names } => AttrValueV::ListValue {
                names: crate::model::strings_view(names@),
            },
        }
    }
}

/// One attribute token: a key with its value shape.
#[derive(Clone, Debug, PartialEq, Eq)]
pub struct AttrToken {
    pub key: String,
    pub value: AttrValue,
}

/// The mathematical value of an [`AttrToken`].
pub struct AttrTokenV {
    pub key: Seq<char>,
    pub value: AttrValueV,
}

impl View for AttrToken {
    type V = AttrTokenV;

    open spec fn view(&self) -> AttrTokenV {
        AttrTokenV { key: self.key@, value: self.value@ }
    }
}

/// The views of a sequence of attribute tokens.
pub open spec fn tokens_view(v: Seq<AttrToken>) -> Seq<AttrTokenV> {
    v.map_values(|t: AttrToken| t@)
}

/// The configuration of one generation request. Every field is independently
/// toggleable; each defaults to `false` or `None`.
#[derive(Clone, Debug, PartialEq, Eq)]
pub struct Attrs {
    /// Whether the wrapper should be bitwise-copyable.
    pub generate_copy: bool,
    /// Suppresses the dereference bridge and the inner-value extractor.
    pub opaque: bool,
    /// Enables the serialization capability.
    pub serialization: bool,
    /// If set, deserialization goes through this named conversion instead of
    /// the structural mapping. Irrelevant unless `serialization` is set.
    pub conversion_source: Option<String>,
    /// Enables the SQL storage-type binding capability.
    pub sql_binding: bool,
    /// Enables exposure as an opaque scalar to the external schema system.
    pub scalar_exposure: bool,
    /// Enables the constructor and the from-wrapped-type conversion.
    pub generate_constructor: bool,
    /// Enables the display passthrough to the wrapped value.
    pub generate_display: bool,
    /// Overrides the type exposed through the dereference bridge. Irrelevant
    /// (deliberately unobserved) when `opaque` is set.
    pub borrow_target: Option<TypeExpr>,
    /// If present, replaces the default capability set entirely, verbatim.
    pub custom_capability_list: Option<Vec<String>>,
}

/// The mathematical value of an [`Attrs`].
pub struct AttrsV {
    pub generate_copy: bool,
    pub opaque: bool,
    pub serialization: bool,
    pub conversion_source: Option<Seq<char>>,
    pub sql_binding: bool,
    pub scalar_exposure: bool,
    pub generate_constructor: bool,
    pub generate_display: bool,
    pub borrow_target: Option<TypeExprV>,
    pub custom_capability_list: Option<Seq<Seq<char>>>,
}

impl View for Attrs {
    type V = AttrsV;

    open spec fn view(&self) -> AttrsV {
        AttrsV {
            generate_copy: self.generate_copy,
            opaque: self.opaque,
            serialization: self.serialization,
            conversion_source: match self.conversion_source {
                Option::Some(s) => Option::Some(s@),
                Option::None => Option::None,
            },
            sql_binding: self.sql_binding,
            scalar_exposure: self.scalar_exposure,
            generate_constructor: self.generate_constructor,
            generate_display: self.generate_display,
            borrow_target: match self.borrow_target {
                Option::Some(t) => Option::Some(t@),
                Option::None => Option::None,
            },
            custom_capability_list: match self.custom_capability_list {
                Option::Some(l) => Option::Some(crate::model::strings_view(l@)),
                Option::None => Option::None,
            },
        }
    }
}

/// The configuration with every key at its default.
pub open spec fn default_attrs() -> AttrsV {
    AttrsV {
        generate_copy: false,
        opaque: false,
        serialization: false,
        conversion_source: Option::None,
        sql_binding: false,
        scalar_exposure: false,
        generate_constructor: false,
        generate_display: false,
        borrow_target: Option::None,
        custom_capability_list: Option::None,
    }
}

/// Apply one attribute token to the configuration built so far. The key
/// decides the field; the value shape must match the key's declared shape,
/// and a key already set is rejected as malformed.
pub open spec fn apply_attr(acc: AttrsV, t: AttrTokenV) -> Result<AttrsV, GenErrorV> {
    if t.key == "copy"@ {
        if t.value is FlagValue && !acc.generate_copy {
            Result::Ok(AttrsV { generate_copy: true, ..acc })
        } else {
            Result::Err(GenErrorV::MalformedOption { key: t.key })
        }
    } else if t.key == "opaque"@ {
        if t.value is FlagValue && !acc.opaque {
            Result::Ok(AttrsV { opaque: true, ..acc })
        } else {
            Result::Err(GenErrorV::MalformedOption { key: t.key })
        }
    } else if t.key == "serialization"@ {
        if t.value is FlagValue && !acc.serialization {
            Result::Ok(AttrsV { serialization: true, ..acc })
        } else {
            Result::Err(GenErrorV::MalformedOption { key: t.key })
        }
    } else if t.key == "sql_binding"@ {
        if t.value is FlagValue && !acc.sql_binding {
            Result::Ok(AttrsV { sql_binding: true, ..acc })
        } else {
            Result::Err(GenErrorV::MalformedOption { key: t.key })
        }
    } else if t.key == "scalar_exposure"@ {
        if t.value is FlagValue && !acc.scalar_exposure {
            Result::Ok(AttrsV { scalar_exposure: true, ..acc })
        } else {
            Result::Err(GenErrorV::MalformedOption { key: t.key })
        }
    } else if t.key == "generate_constructor"@ {
        if t.value is FlagValue && !acc.generate_constructor {
            Result::Ok(AttrsV { generate_constructor: true, ..acc })
        } else {
            Result::Err(GenErrorV::MalformedOption { key: t.key })
        }
    } else if t.key == "display"@ {
        if t.value is FlagValue && !acc.generate_display {
            Result::Ok(AttrsV { generate_display: true, ..acc })
        } else {
            Result::Err(GenErrorV::MalformedOption { key: t.key })
        }
    } else if t.key == "conversion_source"@ {
        if t.value is TextValue && acc.conversion_source is None {
            Result::Ok(AttrsV { conversion_source: Option::Some(t.value->TextValue_text), ..acc })
        } else {
            Result::Err(GenErrorV::MalformedOption { key: t.key })
        }
    } else if t.key == "borrow"@ {
        if t.value is TypeValue && acc.borrow_target is None {
            Result::Ok(AttrsV { borrow_target: Option::Some(t.value->TypeValue_ty), ..acc })
        } else {
            Result::Err(GenErrorV::MalformedOption { key: t.key })
        }
    } else if t.key == "custom_capability_list"@ {
        if t.value is ListValue && acc.custom_capability_list is None {
            Result::Ok(
                AttrsV { custom_capability_list: Option::Some(t.value->ListValue_names), ..acc },
            )
        } else {
            Result::Err(GenErrorV::MalformedOption { key: t.key })
        }
    } else {
        Result::Err(GenErrorV::UnrecognizedOption { key: t.key })
    }
}

/// Fold the attribute tokens left to right over the configuration built so
/// far; the first offending token decides the error.
pub open spec fn parse_attrs_rec(s: Seq<AttrTokenV>, acc: AttrsV) -> Result<AttrsV, GenErrorV>
    decreases s.len(),
{
    if s.len() == 0 {
        Result::Ok(acc)
    } else {
        match apply_attr(acc, s[0]) {
            Result::Ok(acc2) => parse_attrs_rec(s.drop_first(), acc2),
            Result::Err(e) => Result::Err(e),
        }
    }
}

/// What parsing an attribute token list yields: the configuration record,
/// or the first validation error.
pub open spec fn spec_parse_attrs(s: Seq<AttrTokenV>) -> Result<AttrsV, GenErrorV> {
    parse_attrs_rec(s, default_attrs())
}

/// The view of a parse result.
pub open spec fn attrs_result_view(r: Result<Attrs, GenError>) -> Result<AttrsV, GenErrorV> {
    match r {
        Result::Ok(a) => Result::Ok(a@),
        Result::Err(e) => Result::Err(e@),
    }
}

/// Apply one attribute token to the configuration built so far.
fn apply_attr_exec(acc: Attrs, t: &AttrToken) -> (r: Result<Attrs, GenError>)
    ensures
        attrs_result_view(r) == apply_attr(acc@, t@),
{
    let key = t.key.as_str();
    if str_eq_str(key, "copy") {
        if matches!(t.value, AttrValue::FlagValue) && !acc.generate_copy {
            Result::Ok(Attrs { generate_copy: true, ..acc })
        } else {
            Result::Err(GenError::MalformedOption { key: t.key.clone() })
        }
    } else if str_eq_str(key, "opaque") {
        if matches!(t.value, AttrValue::FlagValue) && !acc.opaque {
            Result::Ok(Attrs { opaque: true, ..acc })
        } else {
            Result::Err(GenError::MalformedOption { key: t.key.clone() })
        }
    } else if str_eq_str(key, "serialization") {
        if matches!(t.value, AttrValue::FlagValue) && !acc.serialization {
            Result::Ok(Attrs { serialization: true, ..acc })
        } else {
            Result::Err(GenError::MalformedOption { key: t.key.clone() })
        }
    } else if str_eq_str(key, "sql_binding") {
        if matches!(t.value, AttrValue::FlagValue) && !acc.sql_binding {
            Result::Ok(Attrs { sql_binding: true, ..acc })
        } else {
            Result::Err(GenError::MalformedOption { key: t.key.clone() })
        }
    } else if str_eq_str(key, "scalar_exposure") {
        if matches!(t.value, AttrValue::FlagValue) && !acc.scalar_exposure {
            Result::Ok(Attrs { scalar_exposure: true, ..acc })
        } else {
            Result::Err(GenError::MalformedOption { key: t.key.clone() })
        }
    } else if str_eq_str(key, "generate_constructor") {
        if matches!(t.value, AttrValue::FlagValue) && !acc.generate_constructor {
            Result::Ok(Attrs { generate_constructor: true, ..acc })
        } else {
            Result::Err(GenError::MalformedOption { key: t.key.clone() })
        }
    } else if str_eq_str(key, "display") {
        if matches!(t.value, AttrValue::FlagValue) && !acc.generate_display {
            Result::Ok(Attrs { generate_display: true, ..acc })
        } else {
            Result::Err(GenError::MalformedOption { key: t.key.clone() })
        }
    } else if str_eq_str(key, "conversion_source") {
        match &t.value {
            AttrValue::TextValue { text } => {
                if acc.conversion_source.is_none() {
                    Result::Ok(
                        Attrs { conversion_source: Option::Some(text.clone()), ..acc },
                    )
                } else {
                    Result::Err(GenError::MalformedOption { key: t.key.clone() })
                }
            },
            _ => Result::Err(GenError::MalformedOption { key: t.key.clone() }),
        }
    } else if str_eq_str(key, "borrow") {
        match &t.value {
            AttrValue::TypeValue { ty } => {
                if acc.borrow_target.is_none() {
                    Result::Ok(Attrs { borrow_target: Option::Some(clone_type_expr(ty)), ..acc })
                } else {
                    Result::Err(GenError::MalformedOption { key: t.key.clone() })
                }
            },
            _ => Result::Err(GenError::MalformedOption { key: t.key.clone() }),
        }
    } else if str_eq_str(key, "custom_capability_list") {
        match &t.value {
            AttrValue::ListValue { names } => {
                if acc.custom_capability_list.is_none() {
                    Result::Ok(
                        Attrs {
                            custom_capability_list: Option::Some(clone_strings(names)),
                            ..acc
                        },
                    )
                } else {
                    Result::Err(GenError::MalformedOption { key: t.key.clone() })
                }
            },
            _ => Result::Err(GenError::MalformedOption { key: t.key.clone() }),
        }
    } else {
        Result::Err(GenError::UnrecognizedOption { key: t.key.clone() })
    }
}

/// Parse an attribute token list into the configuration record, validating
/// every token against the schema in one pass.
pub fn parse_attrs(tokens: &Vec<AttrToken>) -> (r: Result<Attrs, GenError>)
    ensures
        attrs_result_view(r) == spec_parse_attrs(tokens_view(tokens@)),
{
    let ghost all = tokens_view(tokens@);
    let mut acc = Attrs {
        generate_copy: false,
        opaque: false,
        serialization: false,
        conversion_source: Option::None,
        sql_binding: false,
        scalar_exposure: false,
        generate_constructor: false,
        generate_display: false,
        borrow_target: Option::None,
        custom_capability_list: Option::None,
    };
    let mut i: usize = 0;
    proof {
        assert(acc@ == default_attrs());
        assert(all.skip(0) =~= all);
    }
    while i < tokens.len()
        invariant
            i <= tokens@.len(),
            all == tokens_view(tokens@),
            parse_attrs_rec(all, default_attrs()) == parse_attrs_rec(all.skip(i as int), acc@),
        decreases tokens@.len() - i,
    {
        let step = apply_attr_exec(acc, &tokens[i]);
        proof {
            assert(all.skip(i as int)[0] == tokens[i as int]@);
            assert(all.skip(i as int).drop_first() =~= all.skip(i as int + 1));
        }
        match step {
            Result::Ok(acc2) => {
                acc = acc2;
            },
            Result::Err(e) => {
                return Result::Err(e);
            },
        }
        i = i + 1;
    }
    proof {
        assert(all.skip(i as int) =~= Seq::<AttrTokenV>::empty());
    }
    Result::Ok(acc)
}

} // verus!
