use nova::config::{AttrToken, AttrValue};
use nova::decl::DeclToken;
use nova::model::{ArgKind, GenericArg, TypeExpr, Visibility};
use nova::newtype;
use nova::output::OutputBlock;
use nova::sql::infer_sql_tag;

fn flag(key: &str) -> AttrToken {
    AttrToken { key: key.to_string(), value: AttrValue::FlagValue }
}

fn borrow_attr(target: &[&str]) -> AttrToken {
    AttrToken { key: "borrow".to_string(), value: AttrValue::TypeValue { ty: named(target) } }
}

fn named(segments: &[&str]) -> TypeExpr {
    TypeExpr::NamedPath { segments: segments.iter().map(|s| s.to_string()).collect() }
}

fn parameterized(segments: &[&str], args: &[(ArgKind, &str)]) -> TypeExpr {
    TypeExpr::Parameterized {
        segments: segments.iter().map(|s| s.to_string()).collect(),
        args: args
            .iter()
            .map(|(kind, text)| GenericArg { kind: *kind, text: text.to_string() })
            .collect(),
    }
}

fn decl_tokens(visibility: Option<Visibility>, name: TypeExpr, wrapped: TypeExpr) -> Vec<DeclToken> {
    let mut tokens = Vec::new();
    if let Some(vis) = visibility {
        tokens.push(DeclToken::VisibilityToken { vis });
    }
    tokens.push(DeclToken::TypeKeyword);
    tokens.push(DeclToken::TypeToken { ty: name });
    tokens.push(DeclToken::EqualsToken);
    tokens.push(DeclToken::TypeToken { ty: wrapped });
    tokens.push(DeclToken::SemicolonToken);
    tokens
}

fn default_caps() -> Vec<String> {
    ["Debug", "Clone", "PartialEq", "Eq", "PartialOrd", "Ord", "core::hash::Hash"]
        .iter()
        .map(|s| s.to_string())
        .collect()
}

#[test]
fn heapless_bytevec() {
    let wrapped = parameterized(
        &["heapless", "Vec"],
        &[(ArgKind::TypeKind, "u8"), (ArgKind::ConstKind, "40")],
    );
    let tokens = decl_tokens(None, named(&["TestVec"]), wrapped.clone());
    let blocks = newtype(&Vec::new(), &tokens).unwrap();
    let expected = vec![
        OutputBlock::CapabilityAttr { names: default_caps() },
        OutputBlock::TransparentLayoutAttr,
        OutputBlock::StructDecl {
            visibility: Visibility::Private,
            name: named(&["TestVec"]),
            wrapped: wrapped.clone(),
        },
        OutputBlock::DerefBridge {
            generics: vec![],
            name: named(&["TestVec"]),
            target: wrapped.clone(),
            wrapped: wrapped.clone(),
        },
        OutputBlock::TraitConformance {
            generics: vec![],
            name: named(&["TestVec"]),
            wrapped,
        },
    ];
    assert_eq!(blocks, expected);
}

#[test]
fn create_string() {
    let wrapped = named(&["alloc", "string", "String"]);
    let tokens = decl_tokens(
        Some(Visibility::ModuleScoped),
        named(&["QuietScreaming"]),
        wrapped.clone(),
    );
    let attrs = vec![borrow_attr(&["str"])];
    let blocks = newtype(&attrs, &tokens).unwrap();
    assert_eq!(blocks.len(), 5);
    assert_eq!(
        blocks[2],
        OutputBlock::StructDecl {
            visibility: Visibility::ModuleScoped,
            name: named(&["QuietScreaming"]),
            wrapped: wrapped.clone(),
        }
    );
    assert_eq!(
        blocks[3],
        OutputBlock::DerefBridge {
            generics: vec![],
            name: named(&["QuietScreaming"]),
            target: named(&["str"]),
            wrapped,
        }
    );
    // An unmapped terminal name degrades to the empty storage tag.
    assert_eq!(infer_sql_tag("wow"), "");
}

#[test]
fn lib_create_string() {
    let wrapped = parameterized(&["heapless", "String"], &[(ArgKind::ConstKind, "20")]);
    let tokens = decl_tokens(
        Some(Visibility::ModuleScoped),
        named(&["QuietScreaming"]),
        wrapped.clone(),
    );
    let attrs = vec![borrow_attr(&["str"])];
    let blocks = newtype(&attrs, &tokens).unwrap();
    assert_eq!(blocks.len(), 5);
    assert_eq!(
        blocks[3],
        OutputBlock::DerefBridge {
            generics: vec![],
            name: named(&["QuietScreaming"]),
            target: named(&["str"]),
            wrapped,
        }
    );
    assert_eq!(infer_sql_tag("wow"), "");
}

#[test]
fn newtype_u32() {
    let tokens = decl_tokens(None, named(&["MyU32"]), named(&["u32"]));
    let blocks = newtype(&vec![flag("copy")], &tokens).unwrap();
    let expected = vec![
        OutputBlock::CapabilityAttr { names: default_caps() },
        OutputBlock::CopyAttr,
        OutputBlock::TransparentLayoutAttr,
        OutputBlock::StructDecl {
            visibility: Visibility::Private,
            name: named(&["MyU32"]),
            wrapped: named(&["u32"]),
        },
        OutputBlock::DerefBridge {
            generics: vec![],
            name: named(&["MyU32"]),
            target: named(&["u32"]),
            wrapped: named(&["u32"]),
        },
        OutputBlock::TraitConformance {
            generics: vec![],
            name: named(&["MyU32"]),
            wrapped: named(&["u32"]),
        },
    ];
    assert_eq!(blocks, expected);
}

#[test]
fn newtypes() {
    let cases: Vec<(&str, Vec<&str>, Visibility)> = vec![
        ("A", vec!["u8"], Visibility::ModuleScoped),
        ("B", vec!["u16"], Visibility::Public),
        ("C", vec!["u32"], Visibility::Public),
        ("D", vec!["u64"], Visibility::Public),
        ("E", vec!["u128"], Visibility::Public),
        ("F", vec!["usize"], Visibility::Public),
        ("A2", vec!["i8"], Visibility::Public),
        ("B2", vec!["i16"], Visibility::Public),
        ("C2", vec!["i32"], Visibility::Public),
        ("D2", vec!["i64"], Visibility::Public),
        ("E2", vec!["i128"], Visibility::Public),
        ("F2", vec!["isize"], Visibility::Public),
        ("G", vec!["alloc", "string", "String"], Visibility::Public),
    ];
    for (name, wrapped_segments, visibility) in cases {
        let segments: Vec<&str> = wrapped_segments.clone();
        let tokens = decl_tokens(Some(visibility.clone()), named(&[name]), named(&segments));
        let blocks = newtype(&vec![flag("copy")], &tokens).unwrap();
        assert_eq!(blocks.len(), 6);
        assert_eq!(
            blocks[3],
            OutputBlock::StructDecl {
                visibility,
                name: named(&[name]),
                wrapped: named(&segments),
            }
        );
    }

    // The heapless-backed string and byte-vector wrappers carry a const
    // capacity argument.
    let g_wrapped = parameterized(&["heapless", "String"], &[(ArgKind::ConstKind, "42")]);
    let tokens = decl_tokens(Some(Visibility::Public), named(&["G"]), g_wrapped.clone());
    let blocks = newtype(&Vec::new(), &tokens).unwrap();
    assert_eq!(blocks.len(), 5);

    let h_wrapped = parameterized(
        &["heapless", "Vec"],
        &[(ArgKind::TypeKind, "u8"), (ArgKind::ConstKind, "42")],
    );
    let scoped = Visibility::ScopedToPath { path: "super".to_string() };
    let tokens = decl_tokens(Some(scoped.clone()), named(&["H"]), h_wrapped.clone());
    let blocks = newtype(&Vec::new(), &tokens).unwrap();
    assert_eq!(
        blocks[2],
        OutputBlock::StructDecl { visibility: scoped, name: named(&["H"]), wrapped: h_wrapped }
    );
}

#[test]
fn create_uuid() {
    let wrapped = named(&["uuid", "Uuid"]);
    let tokens = decl_tokens(Some(Visibility::Public), named(&["QuietScreaming"]), wrapped.clone());
    let blocks = newtype(&vec![flag("copy")], &tokens).unwrap();
    assert_eq!(blocks.len(), 6);
    assert_eq!(blocks[1], OutputBlock::CopyAttr);
    assert_eq!(
        blocks[3],
        OutputBlock::StructDecl {
            visibility: Visibility::Public,
            name: named(&["QuietScreaming"]),
            wrapped,
        }
    );
}

#[test]
fn example() {
    let hello = newtype(
        &vec![flag("copy")],
        &decl_tokens(Some(Visibility::ModuleScoped), named(&["Hello"]), named(&["u8"])),
    );
    println!("{:?}", hello.unwrap());

    let special = newtype(
        &vec![flag("copy")],
        &decl_tokens(
            Some(Visibility::ScopedToPath { path: "super".to_string() }),
            named(&["SpecialUuid"]),
            named(&["uuid", "Uuid"]),
        ),
    );
    println!("{:?}", special.unwrap());

    let cow = newtype(
        &vec![flag("generate_constructor"), borrow_attr(&["str"])],
        &decl_tokens(
            Some(Visibility::ScopedToPath { path: "super".to_string() }),
            parameterized(&["S"], &[(ArgKind::LifetimeKind, "'a")]),
            parameterized(
                &["std", "borrow", "Cow"],
                &[(ArgKind::LifetimeKind, "'a"), (ArgKind::TypeKind, "str")],
            ),
        ),
    );
    println!("{:?}", cow.unwrap());
}
