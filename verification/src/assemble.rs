//! The declaration assembler.
//!
//! The central orchestrator: given the parsed configuration and declaration,
//! it composes the complete ordered output declaration set, or propagates the
//! one failure it can detect itself — SQL binding requested on a wrapped type
//! that is not a plain path. There is no partial output: the full set comes
//! out, or nothing does.

use vstd::prelude::*;
use vstd::string::StringExecFns;
use crate::config::{Attrs, AttrsV};
use crate::model::{Declaration, DeclarationV, GenError, GenErrorV, GenericArg, TypeExpr, TypeExprV};
use crate::model::{clone_strings, clone_type_expr, clone_visibility, clone_args, strings_view};
use crate::generics::{normalize_generics, spec_normalized};
use crate::output::{OutputBlock, OutputBlockV, SerializationMode, SerializationModeV};
use crate::output::blocks_view;
use crate::sql::{infer_sql_tag, spec_sql_tag};

verus! {

/// The default capability set: debug-printing, cloning, equality, ordering
/// (partial and total), hashing.
pub open spec fn default_capability_names() -> Seq<Seq<char>> {
    seq![
        "Debug"@,
        "Clone"@,
        "PartialEq"@,
        "Eq"@,
        "PartialOrd"@,
        "Ord"@,
        "core::hash::Hash"@,
    ]
}

/// The capability names carried by the derivation attribute: the custom list
/// verbatim when one is present — an empty list derives nothing — and the
/// default set otherwise.
pub open spec fn capability_names(c: AttrsV) -> Seq<Seq<char>> {
    match c.custom_capability_list {
        Option::Some(l) => l,
        Option::None => default_capability_names(),
    }
}

/// How the serialization capability deserializes: through the named
/// conversion when one is given, structurally otherwise.
pub open spec fn serialization_mode(c: AttrsV) -> SerializationModeV {
    match c.conversion_source {
        Option::Some(s) => SerializationModeV::ViaConversion { source: s },
        Option::None => SerializationModeV::Transparent,
    }
}

/// The wrapped type's terminal path segment, when the wrapped type is a
/// plain path.
pub open spec fn terminal_segment(w: TypeExprV) -> Seq<char> {
    match w {
        TypeExprV::NamedPath { segments } => if segments.len() > 0 {
            segments.last()
        } else {
            Seq::<char>::empty()
        },
        _ => Seq::<char>::empty(),
    }
}

/// The inferred storage-type tag of the wrapped type: absent when the lookup
/// degrades to the empty tag.
pub open spec fn sql_tag_of(w: TypeExprV) -> Option<Seq<char>> {
    let t = spec_sql_tag(terminal_segment(w));
    if t.len() == 0 {
        Option::None
    } else {
        Option::Some(t)
    }
}

/// The storage-representation attribute: the SQL-binding attribute when SQL
/// binding is requested, the plain transparent-layout marker otherwise —
/// never both.
pub open spec fn storage_block(c: AttrsV, d: DeclarationV) -> OutputBlockV {
    if c.sql_binding {
        OutputBlockV::SqlBindingAttr { tag: sql_tag_of(d.wrapped) }
    } else {
        OutputBlockV::TransparentLayoutAttr
    }
}

/// The type exposed through the dereference bridge: the borrow target when
/// one is given, the wrapped type otherwise.
pub open spec fn bridge_target(c: AttrsV, d: DeclarationV) -> TypeExprV {
    match c.borrow_target {
        Option::Some(b) => b,
        Option::None => d.wrapped,
    }
}

/// The capability-derivation attribute. Always present, first.
pub open spec fn part_caps(c: AttrsV) -> Seq<OutputBlockV> {
    seq![OutputBlockV::CapabilityAttr { names: capability_names(c) }]
}

/// The copy-capability attribute, when the wrapper is copyable.
pub open spec fn part_copy(c: AttrsV) -> Seq<OutputBlockV> {
    if c.generate_copy {
        seq![OutputBlockV::CopyAttr]
    } else {
        Seq::<OutputBlockV>::empty()
    }
}

/// The serialization attribute, when serialization is requested.
pub open spec fn part_serialization(c: AttrsV) -> Seq<OutputBlockV> {
    if c.serialization {
        seq![OutputBlockV::SerializationAttr { mode: serialization_mode(c) }]
    } else {
        Seq::<OutputBlockV>::empty()
    }
}

/// The storage-representation attribute. Always present, exactly one.
pub open spec fn part_storage(c: AttrsV, d: DeclarationV) -> Seq<OutputBlockV> {
    seq![storage_block(c, d)]
}

/// The struct declaration itself. Always present.
pub open spec fn part_struct(d: DeclarationV) -> Seq<OutputBlockV> {
    seq![
        OutputBlockV::StructDecl { visibility: d.visibility, name: d.name, wrapped: d.wrapped },
    ]
}

/// The scalar-registration statement, when scalar exposure is requested.
pub open spec fn part_scalar(c: AttrsV, d: DeclarationV) -> Seq<OutputBlockV> {
    if c.scalar_exposure {
        seq![OutputBlockV::ScalarExposure { name: d.name }]
    } else {
        Seq::<OutputBlockV>::empty()
    }
}

/// The dereference bridge and inner-value extractor, unless the wrapper is
/// opaque.
pub open spec fn part_bridge(c: AttrsV, d: DeclarationV) -> Seq<OutputBlockV> {
    if !c.opaque {
        seq![
            OutputBlockV::DerefBridge {
                generics: spec_normalized(d.name),
                name: d.name,
                target: bridge_target(c, d),
                wrapped: d.wrapped,
            },
        ]
    } else {
        Seq::<OutputBlockV>::empty()
    }
}

/// The constructor and from-wrapped-type conversion, when requested; the
/// constructor is `const`-capable exactly when the wrapper is copyable.
pub open spec fn part_constructor(c: AttrsV, d: DeclarationV) -> Seq<OutputBlockV> {
    if c.generate_constructor {
        seq![
            OutputBlockV::Constructor {
                generics: spec_normalized(d.name),
                name: d.name,
                wrapped: d.wrapped,
                const_capable: c.generate_copy,
            },
        ]
    } else {
        Seq::<OutputBlockV>::empty()
    }
}

/// The mandatory trait-conformance block. Always present.
pub open spec fn part_trait(d: DeclarationV) -> Seq<OutputBlockV> {
    seq![
        OutputBlockV::TraitConformance {
            generics: spec_normalized(d.name),
            name: d.name,
            wrapped: d.wrapped,
        },
    ]
}

/// The display passthrough, when requested.
pub open spec fn part_display(c: AttrsV, d: DeclarationV) -> Seq<OutputBlockV> {
    if c.generate_display {
        seq![OutputBlockV::DisplayImpl { generics: spec_normalized(d.name), name: d.name }]
    } else {
        Seq::<OutputBlockV>::empty()
    }
}

/// The complete output declaration set, in its fixed order: capability
/// attribute, copy attribute, serialization attribute, storage attribute,
/// struct declaration, scalar registration, dereference bridge, constructor,
/// trait conformance, display.
pub open spec fn expected_blocks(c: AttrsV, d: DeclarationV) -> Seq<OutputBlockV> {
    part_caps(c) + part_copy(c) + part_serialization(c) + part_storage(c, d) + part_struct(d)
        + part_scalar(c, d) + part_bridge(c, d) + part_constructor(c, d) + part_trait(d)
        + part_display(c, d)
}

/// What assembling yields: the complete ordered set, or the one error the
/// assembler itself detects — SQL binding on a wrapped type that is not a
/// plain path.
pub open spec fn spec_assemble(c: AttrsV, d: DeclarationV) -> Result<Seq<OutputBlockV>, GenErrorV> {
    if c.sql_binding && !(d.wrapped is NamedPath) {
        Result::Err(GenErrorV::UnsupportedSqlBindingTarget)
    } else {
        Result::Ok(expected_blocks(c, d))
    }
}

/// The view of an assembly result.
pub open spec fn blocks_result_view(r: Result<Vec<OutputBlock>, GenError>) -> Result<
    Seq<OutputBlockV>,
    GenErrorV,
> {
    match r {
        Result::Ok(blocks) => Result::Ok(blocks_view(blocks@)),
        Result::Err(e) => Result::Err(e@),
    }
}

/// The default capability set as owned names.
fn default_capabilities() -> (r: Vec<String>)
    ensures
        strings_view(r@) == default_capability_names(),
{
    let mut v: Vec<String> = Vec::new();
    v.push(String::from_str("Debug"));
    v.push(String::from_str("Clone"));
    v.push(String::from_str("PartialEq"));
    v.push(String::from_str("Eq"));
    v.push(String::from_str("PartialOrd"));
    v.push(String::from_str("Ord"));
    v.push(String::from_str("core::hash::Hash"));
    proof {
        assert(strings_view(v@) =~= default_capability_names());
    }
    v
}

/// Append one block, extending the sequence of block views by its view.
fn push_block(out: &mut Vec<OutputBlock>, b: OutputBlock)
    ensures
        blocks_view(final(out)@) == blocks_view(old(out)@) + seq![b@],
{
    let ghost bv = b@;
    let ghost pre = out@;
    out.push(b);
    proof {
        assert(blocks_view(out@) =~= blocks_view(pre) + seq![bv]);
    }
}

/// Emit the capability-derivation attribute.
fn emit_caps(out: &mut Vec<OutputBlock>, config: &Attrs)
    ensures
        blocks_view(final(out)@) == blocks_view(old(out)@) + part_caps(config@),
{
    let names: Vec<String> = match &config.custom_capability_list {
        Option::Some(l) => clone_strings(l),
        Option::None => default_capabilities(),
    };
    push_block(out, OutputBlock::CapabilityAttr { names });
    proof {
        assert(part_caps(config@)
            =~= seq![OutputBlockV::CapabilityAttr { names: capability_names(config@) }]);
    }
}

/// Emit the copy-capability attribute when the wrapper is copyable.
fn emit_copy(out: &mut Vec<OutputBlock>, config: &Attrs)
    ensures
        blocks_view(final(out)@) == blocks_view(old(out)@) + part_copy(config@),
{
    if config.generate_copy {
        push_block(out, OutputBlock::CopyAttr);
    } else {
        proof {
            assert(blocks_view(out@) =~= blocks_view(out@) + part_copy(config@));
        }
    }
}

/// Emit the serialization attribute when serialization is requested.
fn emit_serialization(out: &mut Vec<OutputBlock>, config: &Attrs)
    ensures
        blocks_view(final(out)@) == blocks_view(old(out)@) + part_serialization(config@),
{
    if config.serialization {
        let mode = match &config.conversion_source {
            Option::Some(src) => SerializationMode::ViaConversion { source: src.clone() },
            Option::None => SerializationMode::Transparent,
        };
        push_block(out, OutputBlock::SerializationAttr { mode });
    } else {
        proof {
            assert(blocks_view(out@) =~= blocks_view(out@) + part_serialization(config@));
        }
    }
}

/// Emit the struct declaration itself.
fn emit_struct(out: &mut Vec<OutputBlock>, declaration: &Declaration)
    ensures
        blocks_view(final(out)@) == blocks_view(old(out)@) + part_struct(declaration@),
{
    push_block(
        out,
        OutputBlock::StructDecl {
            visibility: clone_visibility(&declaration.visibility),
            name: clone_type_expr(&declaration.name),
            wrapped: clone_type_expr(&declaration.wrapped),
        },
    );
}

/// Emit the scalar-registration statement when scalar exposure is requested.
fn emit_scalar(out: &mut Vec<OutputBlock>, config: &Attrs, declaration: &Declaration)
    ensures
        blocks_view(final(out)@) == blocks_view(old(out)@) + part_scalar(config@, declaration@),
{
    if config.scalar_exposure {
        push_block(out, OutputBlock::ScalarExposure { name: clone_type_expr(&declaration.name) });
    } else {
        proof {
            assert(blocks_view(out@)
                =~= blocks_view(out@) + part_scalar(config@, declaration@));
        }
    }
}

/// Emit the dereference bridge and inner-value extractor unless the wrapper
/// is opaque.
fn emit_bridge(
    out: &mut Vec<OutputBlock>,
    config: &Attrs,
    declaration: &Declaration,
    generics: &Vec<GenericArg>,
)
    requires
        crate::model::args_view(generics@) == spec_normalized(declaration@.name),
    ensures
        blocks_view(final(out)@) == blocks_view(old(out)@) + part_bridge(config@, declaration@),
{
    if !config.opaque {
        let target = match &config.borrow_target {
            Option::Some(b) => clone_type_expr(b),
            Option::None => clone_type_expr(&declaration.wrapped),
        };
        push_block(
            out,
            OutputBlock::DerefBridge {
                generics: clone_args(generics),
                name: clone_type_expr(&declaration.name),
                target,
                wrapped: clone_type_expr(&declaration.wrapped),
            },
        );
    } else {
        proof {
            assert(blocks_view(out@)
                =~= blocks_view(out@) + part_bridge(config@, declaration@));
        }
    }
}

/// Emit the constructor and from-wrapped-type conversion when requested.
fn emit_constructor(
    out: &mut Vec<OutputBlock>,
    config: &Attrs,
    declaration: &Declaration,
    generics: &Vec<GenericArg>,
)
    requires
        crate::model::args_view(generics@) == spec_normalized(declaration@.name),
    ensures
        blocks_view(final(out)@) == blocks_view(old(out)@) + part_constructor(
            config@,
            declaration@,
        ),
{
    if config.generate_constructor {
        push_block(
            out,
            OutputBlock::Constructor {
                generics: clone_args(generics),
                name: clone_type_expr(&declaration.name),
                wrapped: clone_type_expr(&declaration.wrapped),
                const_capable: config.generate_copy,
            },
        );
    } else {
        proof {
            assert(blocks_view(out@)
                =~= blocks_view(out@) + part_constructor(config@, declaration@));
        }
    }
}

/// Emit the mandatory trait-conformance block.
fn emit_trait(out: &mut Vec<OutputBlock>, declaration: &Declaration, generics: &Vec<GenericArg>)
    requires
        crate::model::args_view(generics@) == spec_normalized(declaration@.name),
    ensures
        blocks_view(final(out)@) == blocks_view(old(out)@) + part_trait(declaration@),
{
    push_block(
        out,
        OutputBlock::TraitConformance {
            generics: clone_args(generics),
            name: clone_type_expr(&declaration.name),
            wrapped: clone_type_expr(&declaration.wrapped),
        },
    );
}

/// Emit the display passthrough when requested.
fn emit_display(
    out: &mut Vec<OutputBlock>,
    config: &Attrs,
    declaration: &Declaration,
    generics: &Vec<GenericArg>,
)
    requires
        crate::model::args_view(generics@) == spec_normalized(declaration@.name),
    ensures
        blocks_view(final(out)@) == blocks_view(old(out)@) + part_display(config@, declaration@),
{
    if config.generate_display {
        push_block(
            out,
            OutputBlock::DisplayImpl {
                generics: clone_args(generics),
                name: clone_type_expr(&declaration.name),
            },
        );
    } else {
        proof {
            assert(blocks_view(out@)
                =~= blocks_view(out@) + part_display(config@, declaration@));
        }
    }
}

/// Compose the complete ordered output declaration set from the
/// configuration and the declaration, or fail when SQL binding is requested
/// on a wrapped type that is not a plain path.
#[verifier::rlimit(100)]
pub fn assemble(config: &Attrs, declaration: &Declaration) -> (r: Result<
    Vec<OutputBlock>,
    GenError,
>)
    ensures
        blocks_result_view(r) == spec_assemble(config@, declaration@),
{
    let ghost c = config@;
    let ghost d = declaration@;

    // Storage representation first: it is the one place the assembler can
    // fail, and on failure nothing is emitted at all.
    let storage: OutputBlock = if config.sql_binding {
        match &declaration.wrapped {
            TypeExpr::NamedPath { segments } => {
                let tag = if segments.len() > 0 {
                    infer_sql_tag(segments[segments.len() - 1].as_str())
                } else {
                    proof {
                        reveal_strlit("");
                        assert(""@ =~= Seq::<char>::empty());
                    }
                    infer_sql_tag("")
                };
                let tag_opt: Option<String> = if tag.as_str().is_empty() {
                    Option::None
                } else {
                    Option::Some(tag)
                };
                OutputBlock::SqlBindingAttr { tag: tag_opt }
            },
            _ => {
                return Result::Err(GenError::UnsupportedSqlBindingTarget);
            },
        }
    } else {
        OutputBlock::TransparentLayoutAttr
    };
    proof {
        assert(storage@ == storage_block(c, d));
    }

    let generics = normalize_generics(&declaration.name);
    let mut out: Vec<OutputBlock> = Vec::new();
    proof {
        assert(blocks_view(out@) =~= Seq::<OutputBlockV>::empty());
    }
    emit_caps(&mut out, config);
    emit_copy(&mut out, config);
    emit_serialization(&mut out, config);
    push_block(&mut out, storage);
    emit_struct(&mut out, declaration);
    emit_scalar(&mut out, config, declaration);
    emit_bridge(&mut out, config, declaration, &generics);
    emit_constructor(&mut out, config, declaration, &generics);
    emit_trait(&mut out, declaration, &generics);
    emit_display(&mut out, config, declaration, &generics);
    proof {
        assert(blocks_view(out@) =~= expected_blocks(c, d));
    }

    Result::Ok(out)
}

/// The step of the fixed emission order that a block belongs to. The two
/// storage-representation attributes share one step: they stand in the same
/// position and exclude each other.
pub open spec fn step_of(b: OutputBlockV) -> int {
    match b {
        OutputBlockV::CapabilityAttr { .. } => 1,
        OutputBlockV::CopyAttr => 2,
        OutputBlockV::SerializationAttr { .. } => 3,
        OutputBlockV::SqlBindingAttr { .. } => 4,
        OutputBlockV::TransparentLayoutAttr => 4,
        OutputBlockV::StructDecl { .. } => 5,
        OutputBlockV::ScalarExposure { .. } => 6,
        OutputBlockV::DerefBridge { .. } => 7,
        OutputBlockV::Constructor { .. } => 8,
        OutputBlockV::TraitConformance { .. } => 9,
        OutputBlockV::DisplayImpl { .. } => 10,
    }
}

/// Whether a block is a storage-representation attribute.
pub open spec fn is_storage_attr(b: OutputBlockV) -> bool {
    b is SqlBindingAttr || b is TransparentLayoutAttr
}

/// The index at which the storage-representation attribute stands.
pub open spec fn storage_index(c: AttrsV) -> int {
    1 + part_copy(c).len() as int + part_serialization(c).len() as int
}

/// Law: for every configuration and declaration, the output declaration set
/// follows the fixed emission order exactly — every later block belongs to a
/// strictly later step, so no step emits twice and only the conditional
/// blocks whose guard is false are omitted — and each conditional block is
/// present exactly when its guard holds.
#[verifier::rlimit(100)]
pub proof fn lemma_block_order(c: AttrsV, d: DeclarationV)
    ensures
        forall|i: int, j: int| 0 <= i < j < expected_blocks(c, d).len() ==> step_of(
            #[trigger] expected_blocks(c, d)[i],
        ) < step_of(#[trigger] expected_blocks(c, d)[j]),
        expected_blocks(c, d)[0] is CapabilityAttr,
        (exists|i: int| 0 <= i < expected_blocks(c, d).len() && (#[trigger] expected_blocks(
            c,
            d,
        )[i]) is CopyAttr) <==> c.generate_copy,
        (exists|i: int| 0 <= i < expected_blocks(c, d).len() && (#[trigger] expected_blocks(
            c,
            d,
        )[i]) is SerializationAttr) <==> c.serialization,
        exists|i: int| 0 <= i < expected_blocks(c, d).len() && (#[trigger] expected_blocks(
            c,
            d,
        )[i]) is StructDecl,
        (exists|i: int| 0 <= i < expected_blocks(c, d).len() && (#[trigger] expected_blocks(
            c,
            d,
        )[i]) is ScalarExposure) <==> c.scalar_exposure,
        (exists|i: int| 0 <= i < expected_blocks(c, d).len() && (#[trigger] expected_blocks(
            c,
            d,
        )[i]) is DerefBridge) <==> !c.opaque,
        (exists|i: int| 0 <= i < expected_blocks(c, d).len() && (#[trigger] expected_blocks(
            c,
            d,
        )[i]) is Constructor) <==> c.generate_constructor,
        exists|i: int| 0 <= i < expected_blocks(c, d).len() && (#[trigger] expected_blocks(
            c,
            d,
        )[i]) is TraitConformance,
        (exists|i: int| 0 <= i < expected_blocks(c, d).len() && (#[trigger] expected_blocks(
            c,
            d,
        )[i]) is DisplayImpl) <==> c.generate_display,
{
    let s = expected_blocks(c, d);
    let b1: int = 1;
    let b2: int = b1 + part_copy(c).len();
    let b3: int = b2 + part_serialization(c).len();
    let b4: int = b3 + 1;
    let b5: int = b4 + 1;
    let b6: int = b5 + part_scalar(c, d).len();
    let b7: int = b6 + part_bridge(c, d).len();
    let b8: int = b7 + part_constructor(c, d).len();
    let b9: int = b8 + 1;
    let b10: int = b9 + part_display(c, d).len();
    assert(s.len() == b10);
    assert forall|i: int| 0 <= i < s.len() implies step_of(#[trigger] s[i]) == (
        if i < b1 {
            1int
        } else if i < b2 {
            2int
        } else if i < b3 {
            3int
        } else if i < b4 {
            4int
        } else if i < b5 {
            5int
        } else if i < b6 {
            6int
        } else if i < b7 {
            7int
        } else if i < b8 {
            8int
        } else if i < b9 {
            9int
        } else {
            10int
        }
    ) by {
        if i < b1 {
            assert(s[i] == part_caps(c)[0]);
        } else if i < b2 {
            assert(s[i] == part_copy(c)[0]);
        } else if i < b3 {
            assert(s[i] == part_serialization(c)[0]);
        } else if i < b4 {
            assert(s[i] == part_storage(c, d)[0]);
        } else if i < b5 {
            assert(s[i] == part_struct(d)[0]);
        } else if i < b6 {
            assert(s[i] == part_scalar(c, d)[0]);
        } else if i < b7 {
            assert(s[i] == part_bridge(c, d)[0]);
        } else if i < b8 {
            assert(s[i] == part_constructor(c, d)[0]);
        } else if i < b9 {
            assert(s[i] == part_trait(d)[0]);
        } else {
            assert(s[i] == part_display(c, d)[0]);
        }
    }
    assert(s[0] is CapabilityAttr);
    if c.generate_copy {
        assert(s[b1] is CopyAttr);
    }
    if c.serialization {
        assert(s[b2] is SerializationAttr);
    }
    assert(s[b4] is StructDecl);
    if c.scalar_exposure {
        assert(s[b5] is ScalarExposure);
    }
    if !c.opaque {
        assert(s[b6] is DerefBridge);
    }
    if c.generate_constructor {
        assert(s[b7] is Constructor);
    }
    assert(s[b8] is TraitConformance);
    if c.generate_display {
        assert(s[b9] is DisplayImpl);
    }
}

/// Law: an opaque wrapper carries no dereference bridge and no inner-value
/// extractor, whatever the other flags say.
pub proof fn lemma_opaque_suppresses_bridge(c: AttrsV, d: DeclarationV)
    requires
        c.opaque,
    ensures
        forall|i: int| 0 <= i < expected_blocks(c, d).len() ==> !((
        #[trigger] expected_blocks(c, d)[i]) is DerefBridge),
{
    lemma_block_order(c, d);
}

/// Law: exactly one storage-representation attribute is ever emitted — the
/// SQL-binding attribute when SQL binding is requested, the plain
/// transparent-layout marker otherwise, never both.
pub proof fn lemma_storage_exclusive(c: AttrsV, d: DeclarationV)
    ensures
        0 <= storage_index(c) < expected_blocks(c, d).len(),
        is_storage_attr(expected_blocks(c, d)[storage_index(c)]),
        expected_blocks(c, d)[storage_index(c)] is SqlBindingAttr <==> c.sql_binding,
        expected_blocks(c, d)[storage_index(c)] is TransparentLayoutAttr <==> !c.sql_binding,
        forall|j: int| 0 <= j < expected_blocks(c, d).len() && j != storage_index(c)
            ==> !is_storage_attr(#[trigger] expected_blocks(c, d)[j]),
{
    lemma_block_order(c, d);
    let s = expected_blocks(c, d);
    let idx = storage_index(c);
    assert(s[idx] == part_storage(c, d)[0]);
    assert forall|j: int| 0 <= j < s.len() && j != idx implies !is_storage_attr(
        #[trigger] s[j],
    ) by {
        if j < idx {
            assert(step_of(s[j]) < step_of(s[idx]));
        } else {
            assert(step_of(s[idx]) < step_of(s[j]));
        }
    }
}

/// Law: the custom capability list reaches only the leading capability
/// attribute; with every other key held fixed, the rest of the output
/// declaration set does not depend on it. In particular an empty list leaves
/// the struct with no derived capability at all, and the rest of the
/// pipeline unaffected.
#[verifier::rlimit(100)]
pub proof fn lemma_capability_list_scope(c1: AttrsV, c2: AttrsV, d: DeclarationV)
    requires
        c1.generate_copy == c2.generate_copy,
        c1.opaque == c2.opaque,
        c1.serialization == c2.serialization,
        c1.conversion_source == c2.conversion_source,
        c1.sql_binding == c2.sql_binding,
        c1.scalar_exposure == c2.scalar_exposure,
        c1.generate_constructor == c2.generate_constructor,
        c1.generate_display == c2.generate_display,
        c1.borrow_target == c2.borrow_target,
    ensures
        expected_blocks(c1, d)[0] == (OutputBlockV::CapabilityAttr {
            names: capability_names(c1),
        }),
        expected_blocks(c1, d).drop_first() == expected_blocks(c2, d).drop_first(),
        c1.custom_capability_list == Option::Some(Seq::<Seq<char>>::empty())
            ==> capability_names(c1).len() == 0,
{
    assert(part_copy(c1) == part_copy(c2));
    assert(part_serialization(c1) == part_serialization(c2));
    assert(part_storage(c1, d) == part_storage(c2, d));
    assert(part_scalar(c1, d) == part_scalar(c2, d));
    assert(part_bridge(c1, d) == part_bridge(c2, d));
    assert(part_constructor(c1, d) == part_constructor(c2, d));
    assert(part_display(c1, d) == part_display(c2, d));
    let s1 = expected_blocks(c1, d);
    let s2 = expected_blocks(c2, d);
    let b1: int = 1;
    let b2: int = b1 + part_copy(c1).len();
    let b3: int = b2 + part_serialization(c1).len();
    let b4: int = b3 + 1;
    let b5: int = b4 + 1;
    let b6: int = b5 + part_scalar(c1, d).len();
    let b7: int = b6 + part_bridge(c1, d).len();
    let b8: int = b7 + part_constructor(c1, d).len();
    let b9: int = b8 + 1;
    let b10: int = b9 + part_display(c1, d).len();
    assert(s1.len() == b10);
    assert(s2.len() == b10);
    assert forall|i: int| 1 <= i < b10 implies s1[i] == s2[i] by {
        if i < b2 {
            assert(s1[i] == part_copy(c1)[i - b1]);
            assert(s2[i] == part_copy(c2)[i - b1]);
        } else if i < b3 {
            assert(s1[i] == part_serialization(c1)[i - b2]);
            assert(s2[i] == part_serialization(c2)[i - b2]);
        } else if i < b4 {
            assert(s1[i] == part_storage(c1, d)[i - b3]);
            assert(s2[i] == part_storage(c2, d)[i - b3]);
        } else if i < b5 {
            assert(s1[i] == part_struct(d)[i - b4]);
            assert(s2[i] == part_struct(d)[i - b4]);
        } else if i < b6 {
            assert(s1[i] == part_scalar(c1, d)[i - b5]);
            assert(s2[i] == part_scalar(c2, d)[i - b5]);
        } else if i < b7 {
            assert(s1[i] == part_bridge(c1, d)[i - b6]);
            assert(s2[i] == part_bridge(c2, d)[i - b6]);
        } else if i < b8 {
            assert(s1[i] == part_constructor(c1, d)[i - b7]);
            assert(s2[i] == part_constructor(c2, d)[i - b7]);
        } else if i < b9 {
            assert(s1[i] == part_trait(d)[i - b8]);
            assert(s2[i] == part_trait(d)[i - b8]);
        } else {
            assert(s1[i] == part_display(c1, d)[i - b9]);
            assert(s2[i] == part_display(c2, d)[i - b9]);
        }
    }
    assert(s1.drop_first() =~= s2.drop_first());
}

} // verus!
