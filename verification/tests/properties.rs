use nova::config::{AttrToken, AttrValue};
use nova::decl::DeclToken;
use nova::diag::{diagnostic_for, generate};
use nova::model::{ArgKind, GenError, GenericArg, TypeExpr, Visibility};
use nova::newtype;
use nova::output::{OutputBlock, SerializationMode};
use nova::sql::infer_sql_tag;

fn flag(key: &str) -> AttrToken {
    AttrToken { key: key.to_string(), value: AttrValue::FlagValue }
}

fn text_attr(key: &str, text: &str) -> AttrToken {
    AttrToken { key: key.to_string(), value: AttrValue::TextValue { text: text.to_string() } }
}

fn named(segments: &[&str]) -> TypeExpr {
    TypeExpr::NamedPath { segments: segments.iter().map(|s| s.to_string()).collect() }
}

fn parameterized(segments: &[&str], args: &[(ArgKind, &str)]) -> TypeExpr {
    TypeExpr::Parameterized {
        segments: segments.iter().map(|s| s.to_string()).collect(),
        args: args
            .iter()
            .map(|(kind, text)| GenericArg { kind: *kind, text: text.to_string() })
            .collect(),
    }
}

fn decl_tokens(visibility: Option<Visibility>, name: TypeExpr, wrapped: TypeExpr) -> Vec<DeclToken> {
    let mut tokens = Vec::new();
    if let Some(vis) = visibility {
        tokens.push(DeclToken::VisibilityToken { vis });
    }
    tokens.push(DeclToken::TypeKeyword);
    tokens.push(DeclToken::TypeToken { ty: name });
    tokens.push(DeclToken::EqualsToken);
    tokens.push(DeclToken::TypeToken { ty: wrapped });
    tokens.push(DeclToken::SemicolonToken);
    tokens
}

fn step_of(block: &OutputBlock) -> u32 {
    match block {
        OutputBlock::CapabilityAttr { .. } => 1,
        OutputBlock::CopyAttr => 2,
        OutputBlock::SerializationAttr { .. } => 3,
        OutputBlock::SqlBindingAttr { .. } => 4,
        OutputBlock::TransparentLayoutAttr => 4,
        OutputBlock::StructDecl { .. } => 5,
        OutputBlock::ScalarExposure { .. } => 6,
        OutputBlock::DerefBridge { .. } => 7,
        OutputBlock::Constructor { .. } => 8,
        OutputBlock::TraitConformance { .. } => 9,
        OutputBlock::DisplayImpl { .. } => 10,
    }
}

fn all_flag_subsets() -> Vec<Vec<AttrToken>> {
    let keys = [
        "copy",
        "opaque",
        "serialization",
        "sql_binding",
        "scalar_exposure",
        "generate_constructor",
        "display",
    ];
    let mut subsets = Vec::new();
    for mask in 0u32..(1 << keys.len()) {
        let mut attrs = Vec::new();
        for (i, key) in keys.iter().enumerate() {
            if mask & (1 << i) != 0 {
                attrs.push(flag(key));
            }
        }
        subsets.push(attrs);
    }
    subsets
}

#[test]
fn sql_tag_table() {
    assert_eq!(infer_sql_tag("u128"), "UUID");
    assert_eq!(infer_sql_tag("i128"), "UUID");
    assert_eq!(infer_sql_tag("Uuid"), "UUID");
    assert_eq!(infer_sql_tag("u64"), "INT8");
    assert_eq!(infer_sql_tag("i64"), "INT8");
    assert_eq!(infer_sql_tag("u32"), "INT4");
    assert_eq!(infer_sql_tag("i32"), "INT4");
    assert_eq!(infer_sql_tag("u16"), "INT2");
    assert_eq!(infer_sql_tag("i16"), "INT2");
    assert_eq!(infer_sql_tag("u8"), "INT2");
    assert_eq!(infer_sql_tag("i8"), "INT2");
    assert_eq!(infer_sql_tag("bool"), "BOOL");
    assert_eq!(infer_sql_tag("f64"), "");
    assert_eq!(infer_sql_tag("String"), "");
    assert_eq!(infer_sql_tag("U64"), "");
}

#[test]
fn sql_binding_on_parameterized_type_rejected() {
    let wrapped = parameterized(&["Vec"], &[(ArgKind::TypeKind, "u8")]);
    let tokens = decl_tokens(None, named(&["Hello"]), wrapped);
    let result = newtype(&vec![flag("sql_binding")], &tokens);
    assert_eq!(result, Err(GenError::UnsupportedSqlBindingTarget));
}

#[test]
fn sql_binding_on_tuple_and_reference_rejected() {
    let tuple = TypeExpr::Tuple { elements: vec!["u8".to_string(), "u8".to_string()] };
    let tokens = decl_tokens(None, named(&["Hello"]), tuple);
    assert_eq!(
        newtype(&vec![flag("sql_binding")], &tokens),
        Err(GenError::UnsupportedSqlBindingTarget)
    );
    let reference = TypeExpr::Reference { target: "str".to_string() };
    let tokens = decl_tokens(None, named(&["Hello"]), reference);
    assert_eq!(
        newtype(&vec![flag("sql_binding")], &tokens),
        Err(GenError::UnsupportedSqlBindingTarget)
    );
}

#[test]
fn sql_binding_carries_inferred_tag() {
    let tokens = decl_tokens(None, named(&["Hello"]), named(&["u64"]));
    let blocks = newtype(&vec![flag("sql_binding")], &tokens).unwrap();
    assert_eq!(blocks[1], OutputBlock::SqlBindingAttr { tag: Some("INT8".to_string()) });

    // An unmapped terminal degrades to a tagless SQL binding, not an error.
    let tokens = decl_tokens(None, named(&["Hello"]), named(&["AccountName"]));
    let blocks = newtype(&vec![flag("sql_binding")], &tokens).unwrap();
    assert_eq!(blocks[1], OutputBlock::SqlBindingAttr { tag: None });
}

#[test]
fn storage_attribute_is_exclusive() {
    for attrs in all_flag_subsets() {
        let tokens = decl_tokens(None, named(&["Hello"]), named(&["u64"]));
        let blocks = newtype(&attrs, &tokens).unwrap();
        let sql_binding = attrs.iter().any(|a| a.key == "sql_binding");
        let storage: Vec<&OutputBlock> = blocks
            .iter()
            .filter(|b| {
                matches!(b, OutputBlock::SqlBindingAttr { .. })
                    || matches!(b, OutputBlock::TransparentLayoutAttr)
            })
            .collect();
        assert_eq!(storage.len(), 1);
        match storage[0] {
            OutputBlock::SqlBindingAttr { .. } => assert!(sql_binding),
            OutputBlock::TransparentLayoutAttr => assert!(!sql_binding),
            _ => unreachable!(),
        }
    }
}

#[test]
fn block_order_is_fixed() {
    for attrs in all_flag_subsets() {
        let tokens = decl_tokens(None, named(&["Hello"]), named(&["u64"]));
        let blocks = newtype(&attrs, &tokens).unwrap();
        for window in blocks.windows(2) {
            assert!(step_of(&window[0]) < step_of(&window[1]));
        }
        let has = |key: &str| attrs.iter().any(|a| a.key == key);
        let contains_copy = blocks.iter().any(|b| matches!(b, OutputBlock::CopyAttr));
        assert_eq!(contains_copy, has("copy"));
        let contains_serde =
            blocks.iter().any(|b| matches!(b, OutputBlock::SerializationAttr { .. }));
        assert_eq!(contains_serde, has("serialization"));
        let contains_scalar =
            blocks.iter().any(|b| matches!(b, OutputBlock::ScalarExposure { .. }));
        assert_eq!(contains_scalar, has("scalar_exposure"));
        let contains_bridge = blocks.iter().any(|b| matches!(b, OutputBlock::DerefBridge { .. }));
        assert_eq!(contains_bridge, !has("opaque"));
        let contains_ctor = blocks.iter().any(|b| matches!(b, OutputBlock::Constructor { .. }));
        assert_eq!(contains_ctor, has("generate_constructor"));
        let contains_display = blocks.iter().any(|b| matches!(b, OutputBlock::DisplayImpl { .. }));
        assert_eq!(contains_display, has("display"));
        assert!(matches!(blocks[0], OutputBlock::CapabilityAttr { .. }));
        assert!(blocks.iter().any(|b| matches!(b, OutputBlock::StructDecl { .. })));
        assert!(blocks.iter().any(|b| matches!(b, OutputBlock::TraitConformance { .. })));
    }
}

#[test]
fn opaque_suppresses_bridge_and_extractor() {
    let attrs = vec![flag("opaque"), flag("copy"), flag("generate_constructor"), flag("display")];
    let tokens = decl_tokens(None, named(&["Hello"]), named(&["u64"]));
    let blocks = newtype(&attrs, &tokens).unwrap();
    assert!(blocks.iter().all(|b| !matches!(b, OutputBlock::DerefBridge { .. })));
}

#[test]
fn constructor_is_const_capable_with_copy() {
    let tokens = decl_tokens(None, named(&["Hello"]), named(&["u64"]));
    let blocks = newtype(&vec![flag("generate_constructor"), flag("copy")], &tokens).unwrap();
    let ctor = blocks
        .iter()
        .find(|b| matches!(b, OutputBlock::Constructor { .. }))
        .unwrap();
    match ctor {
        OutputBlock::Constructor { const_capable, .. } => assert!(*const_capable),
        _ => unreachable!(),
    }

    let tokens = decl_tokens(None, named(&["Hello"]), named(&["u64"]));
    let blocks = newtype(&vec![flag("generate_constructor")], &tokens).unwrap();
    let ctor = blocks
        .iter()
        .find(|b| matches!(b, OutputBlock::Constructor { .. }))
        .unwrap();
    match ctor {
        OutputBlock::Constructor { const_capable, .. } => assert!(!*const_capable),
        _ => unreachable!(),
    }
}

#[test]
fn empty_capability_list_leaves_rest_unaffected() {
    let empty_list = AttrToken {
        key: "custom_capability_list".to_string(),
        value: AttrValue::ListValue { names: vec![] },
    };
    let with_empty = newtype(
        &vec![flag("copy"), empty_list],
        &decl_tokens(None, named(&["Hello"]), named(&["u64"])),
    )
    .unwrap();
    let with_default = newtype(
        &vec![flag("copy")],
        &decl_tokens(None, named(&["Hello"]), named(&["u64"])),
    )
    .unwrap();
    assert_eq!(with_empty[0], OutputBlock::CapabilityAttr { names: vec![] });
    assert_eq!(with_empty[1..], with_default[1..]);
}

#[test]
fn serialization_modes() {
    let tokens = decl_tokens(None, named(&["Hello"]), named(&["u64"]));
    let blocks = newtype(&vec![flag("serialization")], &tokens).unwrap();
    assert_eq!(
        blocks[1],
        OutputBlock::SerializationAttr { mode: SerializationMode::Transparent }
    );

    let tokens = decl_tokens(None, named(&["Hello"]), named(&["u64"]));
    let attrs = vec![flag("serialization"), text_attr("conversion_source", "FromHello")];
    let blocks = newtype(&attrs, &tokens).unwrap();
    assert_eq!(
        blocks[1],
        OutputBlock::SerializationAttr {
            mode: SerializationMode::ViaConversion { source: "FromHello".to_string() },
        }
    );
}

#[test]
fn generic_normalization_orders_by_kind() {
    // One lifetime and one type argument: type before lifetime, whatever the
    // input order.
    for args in [
        vec![(ArgKind::LifetimeKind, "'a"), (ArgKind::TypeKind, "T")],
        vec![(ArgKind::TypeKind, "T"), (ArgKind::LifetimeKind, "'a")],
    ] {
        let name = parameterized(&["S"], &args);
        let tokens = decl_tokens(None, name, named(&["u64"]));
        let blocks = newtype(&Vec::new(), &tokens).unwrap();
        let bridge = blocks
            .iter()
            .find(|b| matches!(b, OutputBlock::DerefBridge { .. }))
            .unwrap();
        match bridge {
            OutputBlock::DerefBridge { generics, .. } => {
                assert_eq!(
                    generics,
                    &vec![
                        GenericArg { kind: ArgKind::TypeKind, text: "T".to_string() },
                        GenericArg { kind: ArgKind::LifetimeKind, text: "'a".to_string() },
                    ]
                );
            },
            _ => unreachable!(),
        }
    }

    // One const and one type argument: const before type.
    for args in [
        vec![(ArgKind::ConstKind, "N"), (ArgKind::TypeKind, "T")],
        vec![(ArgKind::TypeKind, "T"), (ArgKind::ConstKind, "N")],
    ] {
        let name = parameterized(&["S"], &args);
        let tokens = decl_tokens(None, name, named(&["u64"]));
        let blocks = newtype(&Vec::new(), &tokens).unwrap();
        let bridge = blocks
            .iter()
            .find(|b| matches!(b, OutputBlock::DerefBridge { .. }))
            .unwrap();
        match bridge {
            OutputBlock::DerefBridge { generics, .. } => {
                assert_eq!(
                    generics,
                    &vec![
                        GenericArg { kind: ArgKind::ConstKind, text: "N".to_string() },
                        GenericArg { kind: ArgKind::TypeKind, text: "T".to_string() },
                    ]
                );
            },
            _ => unreachable!(),
        }
    }
}

#[test]
fn generic_normalization_collapses_duplicates() {
    let name = parameterized(
        &["S"],
        &[
            (ArgKind::TypeKind, "T"),
            (ArgKind::LifetimeKind, "'a"),
            (ArgKind::TypeKind, "T"),
            (ArgKind::LifetimeKind, "'a"),
        ],
    );
    let tokens = decl_tokens(None, name, named(&["u64"]));
    let blocks = newtype(&Vec::new(), &tokens).unwrap();
    let bridge = blocks
        .iter()
        .find(|b| matches!(b, OutputBlock::DerefBridge { .. }))
        .unwrap();
    match bridge {
        OutputBlock::DerefBridge { generics, .. } => assert_eq!(generics.len(), 2),
        _ => unreachable!(),
    }
}

#[test]
fn generic_blocks_share_parameter_list() {
    let name = parameterized(&["S"], &[(ArgKind::LifetimeKind, "'a")]);
    let wrapped = parameterized(
        &["Cow"],
        &[(ArgKind::LifetimeKind, "'a"), (ArgKind::TypeKind, "str")],
    );
    let borrow = AttrToken {
        key: "borrow".to_string(),
        value: AttrValue::TypeValue { ty: named(&["str"]) },
    };
    let attrs = vec![flag("generate_constructor"), borrow];
    let tokens = decl_tokens(None, name.clone(), wrapped.clone());
    let blocks = newtype(&attrs, &tokens).unwrap();
    let lifetime = vec![GenericArg { kind: ArgKind::LifetimeKind, text: "'a".to_string() }];
    let mut blocks_with_generics = 0;
    for block in &blocks {
        match block {
            OutputBlock::DerefBridge { generics, target, wrapped: w, .. } => {
                assert_eq!(generics, &lifetime);
                assert_eq!(target, &named(&["str"]));
                assert_eq!(w, &wrapped);
                blocks_with_generics += 1;
            }
            OutputBlock::Constructor { generics, wrapped: w, const_capable, .. } => {
                assert_eq!(generics, &lifetime);
                assert_eq!(w, &wrapped);
                assert!(!const_capable);
                blocks_with_generics += 1;
            }
            OutputBlock::TraitConformance { generics, .. } => {
                assert_eq!(generics, &lifetime);
                blocks_with_generics += 1;
            }
            _ => {}
        }
    }
    assert_eq!(blocks_with_generics, 3);
}

#[test]
fn unrecognized_option_names_the_key() {
    let tokens = decl_tokens(None, named(&["Hello"]), named(&["u64"]));
    let result = newtype(&vec![flag("wat")], &tokens);
    assert_eq!(result, Err(GenError::UnrecognizedOption { key: "wat".to_string() }));
}

#[test]
fn malformed_option_on_wrong_shape_and_duplicates() {
    let tokens = decl_tokens(None, named(&["Hello"]), named(&["u64"]));
    // A flag given a value is malformed.
    let result = newtype(&vec![text_attr("copy", "yes")], &tokens);
    assert_eq!(result, Err(GenError::MalformedOption { key: "copy".to_string() }));

    // A key given twice is malformed.
    let tokens = decl_tokens(None, named(&["Hello"]), named(&["u64"]));
    let result = newtype(&vec![flag("copy"), flag("copy")], &tokens);
    assert_eq!(result, Err(GenError::MalformedOption { key: "copy".to_string() }));

    // A key/value option given as a bare flag is malformed.
    let tokens = decl_tokens(None, named(&["Hello"]), named(&["u64"]));
    let result = newtype(&vec![flag("conversion_source")], &tokens);
    assert_eq!(
        result,
        Err(GenError::MalformedOption { key: "conversion_source".to_string() })
    );
}

#[test]
fn malformed_declaration_shapes() {
    // Missing terminating semicolon.
    let mut tokens = decl_tokens(None, named(&["Hello"]), named(&["u64"]));
    tokens.pop();
    assert_eq!(newtype(&Vec::new(), &tokens), Err(GenError::MalformedDeclaration));

    // Missing `type` keyword.
    let tokens = vec![
        DeclToken::TypeToken { ty: named(&["Hello"]) },
        DeclToken::EqualsToken,
        DeclToken::TypeToken { ty: named(&["u64"]) },
        DeclToken::SemicolonToken,
    ];
    assert_eq!(newtype(&Vec::new(), &tokens), Err(GenError::MalformedDeclaration));

    // Trailing junk after the semicolon.
    let mut tokens = decl_tokens(None, named(&["Hello"]), named(&["u64"]));
    tokens.push(DeclToken::SemicolonToken);
    assert_eq!(newtype(&Vec::new(), &tokens), Err(GenError::MalformedDeclaration));

    // Empty input.
    assert_eq!(
        newtype(&Vec::new(), &Vec::new()),
        Err(GenError::MalformedDeclaration)
    );
}

#[test]
fn diagnostics_carry_kind_and_message() {
    let dg = diagnostic_for(GenError::UnrecognizedOption { key: "wat".to_string() });
    assert_eq!(dg.message, "unrecognized option: wat");
    assert_eq!(dg.kind, GenError::UnrecognizedOption { key: "wat".to_string() });

    let dg = diagnostic_for(GenError::MalformedOption { key: "copy".to_string() });
    assert_eq!(dg.message, "malformed option: copy");

    let dg = diagnostic_for(GenError::MalformedDeclaration);
    assert_eq!(
        dg.message,
        "declaration must take the shape `[visibility] type Name = WrappedType;`"
    );

    let dg = diagnostic_for(GenError::UnsupportedSqlBindingTarget);
    assert_eq!(dg.message, "sql binding requires a plain named wrapped type");

    let tokens = decl_tokens(None, named(&["Hello"]), named(&["u64"]));
    let surfaced = generate(&vec![flag("wat")], &tokens);
    assert_eq!(surfaced.unwrap_err().message, "unrecognized option: wat");

    let tokens = decl_tokens(None, named(&["Hello"]), named(&["u64"]));
    let ok = generate(&Vec::new(), &tokens);
    assert_eq!(ok.unwrap().len(), 5);
}
