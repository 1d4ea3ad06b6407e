use sway_engines::decl_engine::DeclEngine;
use sway_engines::decl_engine::DeclId;
use sway_engines::decl_engine::DeclKind;
use sway_engines::decl_engine::DeclWrapper;
use sway_engines::decl_engine::Engines;
use sway_engines::decl_engine::TyConstantDeclaration;
use sway_engines::decl_engine::TyFunctionParameter;
use sway_engines::decl_engine::TyStructDeclaration;
use sway_engines::decl_engine::TyTraitFn;
use sway_engines::error::CompileError;
use sway_engines::language::Attribute;
use sway_engines::language::AttributeKind;
use sway_engines::language::AttributesMap;
use sway_engines::language::Literal;
use sway_engines::language::Purity;
use sway_engines::language::Visibility;
use sway_engines::span::Ident;
use sway_engines::span::Span;
use sway_engines::subst::TypeSubstMap;
use sway_engines::ty::TyExpression;
use sway_engines::ty::TyExpressionVariant;
use sway_engines::type_engine::TypeEngine;
use sway_engines::type_engine::TypeId;
use sway_engines::type_engine::TypeInfo;

fn at(start: usize, end: usize) -> Span {
    Span::new(start, end, 0)
}

fn name(text: &str) -> Ident {
    Ident::new(text, at(0, text.len()))
}

fn a_struct(text: &str, visibility: Visibility) -> DeclWrapper {
    DeclWrapper::Struct(TyStructDeclaration {
        name: name(text),
        type_parameters: vec![],
        fields: vec![],
        visibility,
        span: at(0, 1),
        attributes: AttributesMap::new(),
    })
}

fn trait_fn(text: &str, parameter: TypeId, return_type: TypeId, attributes: AttributesMap) -> TyTraitFn {
    TyTraitFn {
        name: name(text),
        purity: Purity::Pure,
        parameters: vec![TyFunctionParameter { name: name("x"), type_id: parameter, type_span: at(0, 1) }],
        return_type,
        return_type_span: at(1, 2),
        attributes,
    }
}

#[test]
fn handles_stay_good_when_a_declaration_is_replaced() {
    let mut engine = DeclEngine::new();
    let a = engine.insert(a_struct("A", Visibility::Public));
    let b = engine.insert(a_struct("B", Visibility::Private));
    assert_eq!(a, DeclId(0));
    assert_eq!(b, DeclId(1));
    assert!(engine.replace(a, a_struct("C", Visibility::Private), &at(0, 1)).is_ok());
    match engine.get(a, &at(0, 1)) {
        Ok(DeclWrapper::Struct(s)) => {
            assert_eq!(s.name.name, "C");
            assert_eq!(s.visibility, Visibility::Private);
        }
        _ => panic!("the handle went stale"),
    }
    match engine.get(b, &at(0, 1)) {
        Ok(DeclWrapper::Struct(s)) => assert_eq!(s.name.name, "B"),
        _ => panic!("another handle changed"),
    }
}

#[test]
fn a_stale_handle_is_reported() {
    let mut engine = DeclEngine::new();
    let a = engine.insert(a_struct("A", Visibility::Public));
    assert!(matches!(
        engine.get(DeclId(5), &at(2, 3)),
        Err(CompileError::DeclNotFound { span }) if span == at(2, 3)
    ));
    assert!(matches!(
        engine.replace(DeclId(5), DeclWrapper::Unknown, &at(2, 3)),
        Err(CompileError::DeclNotFound { span }) if span == at(2, 3)
    ));
    assert!(matches!(
        engine.get_function(a, &at(2, 3)),
        Err(CompileError::DeclKindMismatch { span }) if span == at(2, 3)
    ));
    assert!(engine.get_struct(a, &at(2, 3)).is_ok());
    assert!(matches!(engine.get_struct(DeclId(5), &at(2, 3)), Err(CompileError::DeclNotFound { .. })));
    assert!(engine.get_kind(a, DeclKind::Struct, &at(0, 0)).is_ok());
    assert!(matches!(
        engine.get_kind(a, DeclKind::Enum, &at(0, 0)),
        Err(CompileError::DeclKindMismatch { .. })
    ));
}

#[test]
fn declarations_know_their_kind_name_and_visibility() {
    let s = a_struct("S", Visibility::Private);
    assert_eq!(s.kind(), DeclKind::Struct);
    assert_eq!(s.visibility(), Visibility::Private);
    assert_eq!(s.name().map(|i| i.name.clone()), Some(String::from("S")));
    assert_eq!(DeclWrapper::Unknown.kind(), DeclKind::Unknown);
    assert_eq!(DeclWrapper::Unknown.visibility(), Visibility::Public);
    assert!(DeclWrapper::Unknown.name().is_none());
    let constant = TyConstantDeclaration {
        name: name("C"),
        value: TyExpression {
            expression: TyExpressionVariant::Literal(Literal::Boolean(true)),
            return_type: TypeId(0),
            span: at(0, 1),
        },
        visibility: Visibility::Public,
        attributes: AttributesMap::new(),
        span: at(4, 8),
    };
    assert_eq!(constant.span(), at(4, 8));
}

#[test]
fn trait_functions_compare_by_content() {
    let mut types = TypeEngine::new();
    let decls = DeclEngine::new();
    let u = types.insert_type(TypeInfo::UnsignedInteger(64));
    let b = types.insert_type(TypeInfo::Boolean);
    let mut documented = AttributesMap::new();
    documented.insert(AttributeKind::Doc, vec![Attribute { name: name("doc"), args: vec![name("hi")] }]);
    let f = trait_fn("f", u, b, AttributesMap::new());
    let same = trait_fn("f", u, b, AttributesMap::new());
    let other_name = trait_fn("g", u, b, AttributesMap::new());
    let other_parameter = trait_fn("f", b, b, AttributesMap::new());
    let other_return = trait_fn("f", u, u, AttributesMap::new());
    let other_attributes = trait_fn("f", u, b, documented);
    let engines = Engines::new(&types, &decls);
    assert!(f.eq(&same, engines));
    assert!(!f.eq(&other_name, engines));
    assert!(!f.eq(&other_parameter, engines));
    assert!(!f.eq(&other_return, engines));
    assert!(!f.eq(&other_attributes, engines));
    assert_eq!(f.name().name, "f");
    assert!(f.type_parameters().is_empty());
}

#[test]
fn trait_functions_take_substitutions() {
    let types = TypeEngine::new();
    let decls = DeclEngine::new();
    let mut map = TypeSubstMap::new();
    map.insert(TypeId(1), TypeId(7));
    let mut f = trait_fn("f", TypeId(1), TypeId(1), AttributesMap::new());
    f.copy_types_inner(&map, Engines::new(&types, &decls));
    assert_eq!(f.parameters[0].type_id, TypeId(7));
    assert_eq!(f.return_type, TypeId(7));
    let mut g = trait_fn("g", TypeId(2), TypeId(3), AttributesMap::new());
    g.copy_types_inner(&map, Engines::new(&types, &decls));
    assert_eq!(g.parameters[0].type_id, TypeId(2));
    assert_eq!(g.return_type, TypeId(3));
}
