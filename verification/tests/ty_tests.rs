use sway_engines::decl_engine::DeclEngine;
use sway_engines::decl_engine::DeclId;
use sway_engines::decl_engine::DeclMapping;
use sway_engines::decl_engine::DeclWrapper;
use sway_engines::decl_engine::Engines;
use sway_engines::decl_engine::TyFunctionDeclaration;
use sway_engines::decl_engine::TyStructDeclaration;
use sway_engines::error::CompileError;
use sway_engines::language::Attribute;
use sway_engines::language::AttributeKind;
use sway_engines::language::AttributesMap;
use sway_engines::language::HashState;
use sway_engines::language::Literal;
use sway_engines::language::Purity;
use sway_engines::language::StateIndex;
use sway_engines::language::Visibility;
use sway_engines::parsed::TreeType;
use sway_engines::span::Ident;
use sway_engines::span::Span;
use sway_engines::subst::TypeSubstMap;
use sway_engines::ty::declaration::GetDeclIdent;
use sway_engines::ty::TyAstNode;
use sway_engines::ty::TyAstNodeContent;
use sway_engines::ty::TyDeclaration;
use sway_engines::ty::TyExpression;
use sway_engines::ty::TyExpressionVariant;
use sway_engines::ty::TyStorageAccess;
use sway_engines::ty::TyStorageAccessDescriptor;
use sway_engines::ty::TyVariableDeclaration;
use sway_engines::type_engine::TypeEngine;
use sway_engines::type_engine::TypeId;
use sway_engines::type_engine::TypeInfo;

fn at(start: usize, end: usize) -> Span {
    Span::new(start, end, 0)
}

fn name(text: &str) -> Ident {
    Ident::new(text, at(0, text.len()))
}

fn literal(value: u64, ty: TypeId, span: Span) -> TyExpression {
    TyExpression { expression: TyExpressionVariant::Literal(Literal::U64(value)), return_type: ty, span }
}

fn variable(text: &str, ty: TypeId) -> TyExpression {
    TyExpression {
        expression: TyExpressionVariant::VariableExpression { name: name(text) },
        return_type: ty,
        span: at(0, 1),
    }
}

fn tuple(fields: Vec<TyExpression>, ty: TypeId) -> TyExpression {
    TyExpression { expression: TyExpressionVariant::Tuple { fields }, return_type: ty, span: at(0, 9) }
}

fn call(target: DeclId, arguments: Vec<TyExpression>, ty: TypeId) -> TyExpression {
    TyExpression {
        expression: TyExpressionVariant::FunctionApplication {
            call_path: name("f"),
            arguments,
            function_decl_id: target,
        },
        return_type: ty,
        span: at(2, 8),
    }
}

fn returning(inner: TyExpression, ty: TypeId) -> TyExpression {
    TyExpression { expression: TyExpressionVariant::Return(Box::new(inner)), return_type: ty, span: at(1, 5) }
}

fn reverting(inner: TyExpression, ty: TypeId) -> TyExpression {
    TyExpression { expression: TyExpressionVariant::Revert(Box::new(inner)), return_type: ty, span: at(1, 5) }
}

fn expression_node(e: TyExpression) -> TyAstNode {
    TyAstNode { content: TyAstNodeContent::Expression(e), span: at(0, 10) }
}

fn function(text: &str, body: Vec<TyAstNode>, attributes: AttributesMap, visibility: Visibility) -> DeclWrapper {
    DeclWrapper::Function(TyFunctionDeclaration {
        name: name(text),
        body,
        parameters: vec![],
        return_type: TypeId(0),
        visibility,
        attributes,
        purity: Purity::Pure,
        span: at(0, 20),
    })
}

fn words_of(node: &TyAstNode, engine: &TypeEngine) -> Vec<u64> {
    let mut state = HashState::new();
    node.hash(&mut state, engine);
    state.words
}

#[test]
fn equal_nodes_have_equal_hashes() {
    let mut types = TypeEngine::new();
    let decls = DeclEngine::new();
    let u = types.insert_type(TypeInfo::UnsignedInteger(64));
    let pair = types.insert_type(TypeInfo::Tuple(vec![u, u]));
    let x = expression_node(tuple(vec![literal(1, u, at(0, 1)), variable("a", u)], pair));
    let y = expression_node(tuple(vec![literal(1, u, at(7, 8)), variable("a", u)], pair));
    let z = expression_node(tuple(vec![literal(2, u, at(0, 1)), variable("a", u)], pair));
    let engines = Engines::new(&types, &decls);
    assert!(x.eq(&y, engines));
    assert_eq!(words_of(&x, &types), words_of(&y, &types));
    assert!(!x.eq(&z, engines));
    assert_ne!(words_of(&x, &types), words_of(&z, &types));
}

#[test]
fn node_hash_starts_with_the_tag_of_its_kind() {
    let mut types = TypeEngine::new();
    let u = types.insert_type(TypeInfo::UnsignedInteger(64));
    let declaration = TyAstNode {
        content: TyAstNodeContent::Declaration(TyDeclaration::FunctionDeclaration(DeclId(3))),
        span: at(0, 1),
    };
    let expression = expression_node(literal(5, u, at(0, 1)));
    let implicit = TyAstNode {
        content: TyAstNodeContent::ImplicitReturnExpression(literal(5, u, at(0, 1))),
        span: at(0, 1),
    };
    let side_effect = TyAstNode { content: TyAstNodeContent::SideEffect, span: at(0, 1) };
    assert_eq!(words_of(&declaration, &types), vec![1, 2, 3]);
    assert_eq!(words_of(&expression, &types), vec![2, 1, 0, 5, 4, 64]);
    assert_eq!(words_of(&implicit, &types), vec![3, 1, 0, 5, 4, 64]);
    assert_eq!(words_of(&side_effect, &types), vec![4]);
}

#[test]
fn nodes_of_different_kinds_are_not_equal() {
    let mut types = TypeEngine::new();
    let decls = DeclEngine::new();
    let u = types.insert_type(TypeInfo::UnsignedInteger(64));
    let expression = expression_node(literal(5, u, at(0, 1)));
    let implicit = TyAstNode {
        content: TyAstNodeContent::ImplicitReturnExpression(literal(5, u, at(0, 1))),
        span: at(0, 1),
    };
    let side_effect = TyAstNode { content: TyAstNodeContent::SideEffect, span: at(0, 1) };
    let other_effect = TyAstNode { content: TyAstNodeContent::SideEffect, span: at(5, 6) };
    let engines = Engines::new(&types, &decls);
    assert!(!expression.eq(&implicit, engines));
    assert!(!expression.eq(&side_effect, engines));
    assert!(side_effect.eq(&other_effect, engines));
    assert!(expression.content.eq(&expression.content, engines));
}

#[test]
fn substitution_rewrites_every_type_handle() {
    let mut types = TypeEngine::new();
    let decls = DeclEngine::new();
    let u = types.insert_type(TypeInfo::UnsignedInteger(64));
    let point = types.insert_type(TypeInfo::Struct(String::from("Point"), vec![u, u]));
    let t = types.insert_type(TypeInfo::Unknown(0));
    let mut bindings = TypeSubstMap::new();
    assert!(types.unify(&mut bindings, t, point, &at(0, 1), "", None).is_ok());
    let mut node = expression_node(tuple(
        vec![variable("p", t), call(DeclId(0), vec![variable("q", t)], u)],
        t,
    ));
    let engines = Engines::new(&types, &decls);
    node.subst_inner(&bindings, engines);
    match &node.content {
        TyAstNodeContent::Expression(e) => {
            assert_eq!(e.return_type, point);
            match &e.expression {
                TyExpressionVariant::Tuple { fields } => {
                    assert_eq!(fields[0].return_type, point);
                    assert_eq!(fields[1].return_type, u);
                    match &fields[1].expression {
                        TyExpressionVariant::FunctionApplication { arguments, function_decl_id, .. } => {
                            assert_eq!(arguments[0].return_type, point);
                            assert_eq!(*function_decl_id, DeclId(0));
                        }
                        _ => panic!("the call is gone"),
                    }
                }
                _ => panic!("the tuple is gone"),
            }
        }
        _ => panic!("the expression is gone"),
    }
}

#[test]
fn substitution_reaches_the_value_of_a_variable() {
    let types = TypeEngine::new();
    let decls = DeclEngine::new();
    let mut bindings = TypeSubstMap::new();
    bindings.insert(TypeId(1), TypeId(9));
    let mut node = TyAstNode {
        content: TyAstNodeContent::Declaration(TyDeclaration::VariableDeclaration(Box::new(
            TyVariableDeclaration {
                name: name("v"),
                body: literal(1, TypeId(1), at(0, 1)),
                type_ascription: TypeId(1),
                is_mutable: false,
            },
        ))),
        span: at(0, 3),
    };
    node.subst_inner(&bindings, Engines::new(&types, &decls));
    match &node.content {
        TyAstNodeContent::Declaration(TyDeclaration::VariableDeclaration(decl)) => {
            assert_eq!(decl.type_ascription, TypeId(9));
            assert_eq!(decl.body.return_type, TypeId(9));
        }
        _ => panic!("the declaration is gone"),
    }
}

#[test]
fn two_substitutions_compose() {
    let types = TypeEngine::new();
    let decls = DeclEngine::new();
    let mut first = TypeSubstMap::new();
    first.insert(TypeId(1), TypeId(5));
    let mut second = TypeSubstMap::new();
    second.insert(TypeId(2), TypeId(6));
    let mut both = TypeSubstMap::new();
    both.insert(TypeId(2), TypeId(6));
    both.insert(TypeId(1), TypeId(5));
    let make = || expression_node(tuple(
        vec![literal(1, TypeId(1), at(0, 1)), literal(2, TypeId(2), at(1, 2))],
        TypeId(3),
    ));
    let mut stepwise = make();
    stepwise.subst_inner(&first, Engines::new(&types, &decls));
    stepwise.subst_inner(&second, Engines::new(&types, &decls));
    let mut at_once = make();
    at_once.subst_inner(&both, Engines::new(&types, &decls));
    let ids = |node: &TyAstNode| match &node.content {
        TyAstNodeContent::Expression(e) => match &e.expression {
            TyExpressionVariant::Tuple { fields } => {
                vec![e.return_type, fields[0].return_type, fields[1].return_type]
            }
            _ => vec![],
        },
        _ => vec![],
    };
    assert_eq!(ids(&stepwise), vec![TypeId(3), TypeId(5), TypeId(6)]);
    assert_eq!(ids(&stepwise), ids(&at_once));
}

#[test]
fn the_self_type_is_replaced() {
    let mut types = TypeEngine::new();
    let decls = DeclEngine::new();
    let u = types.insert_type(TypeInfo::UnsignedInteger(64));
    let self_type = types.insert_type(TypeInfo::SelfType(1));
    let point = types.insert_type(TypeInfo::Struct(String::from("Point"), vec![u]));
    let mut node = expression_node(returning(variable("s", self_type), u));
    node.replace_self_type(Engines::new(&types, &decls), point);
    match &node.content {
        TyAstNodeContent::Expression(e) => {
            assert_eq!(e.return_type, u);
            match &e.expression {
                TyExpressionVariant::Return(inner) => assert_eq!(inner.return_type, point),
                _ => panic!("the return is gone"),
            }
        }
        _ => panic!("the expression is gone"),
    }
    let mut id = self_type;
    id.replace_self_type(Engines::new(&types, &decls), point);
    assert_eq!(id, point);
    let mut other = u;
    other.replace_self_type(Engines::new(&types, &decls), point);
    assert_eq!(other, u);
}

#[test]
fn declaration_handles_are_replaced_in_expressions_only() {
    let types = TypeEngine::new();
    let decls = DeclEngine::new();
    let mut mapping = DeclMapping::new();
    mapping.insert(DeclId(0), DeclId(4));
    assert_eq!(mapping.apply(DeclId(0)), DeclId(4));
    assert_eq!(mapping.apply(DeclId(1)), DeclId(1));
    let mut node = expression_node(call(DeclId(0), vec![call(DeclId(1), vec![], TypeId(0))], TypeId(0)));
    node.replace_decls_inner(&mapping, Engines::new(&types, &decls));
    match &node.content {
        TyAstNodeContent::Expression(e) => match &e.expression {
            TyExpressionVariant::FunctionApplication { function_decl_id, arguments, .. } => {
                assert_eq!(*function_decl_id, DeclId(4));
                match &arguments[0].expression {
                    TyExpressionVariant::FunctionApplication { function_decl_id, .. } => {
                        assert_eq!(*function_decl_id, DeclId(1))
                    }
                    _ => panic!("the inner call is gone"),
                }
            }
            _ => panic!("the call is gone"),
        },
        _ => panic!("the expression is gone"),
    }
    let mut declaration = TyAstNode {
        content: TyAstNodeContent::Declaration(TyDeclaration::FunctionDeclaration(DeclId(0))),
        span: at(0, 1),
    };
    declaration.replace_decls_inner(&mapping, Engines::new(&types, &decls));
    assert!(matches!(
        declaration.content,
        TyAstNodeContent::Declaration(TyDeclaration::FunctionDeclaration(DeclId(0)))
    ));
}

#[test]
fn unresolved_types_are_collected_in_one_pass() {
    let mut types = TypeEngine::new();
    let u = types.insert_type(TypeInfo::UnsignedInteger(64));
    let t = types.insert_type(TypeInfo::Unknown(0));
    let named = types.insert_type(TypeInfo::Custom(String::from("Foo")));
    let node = expression_node(tuple(
        vec![literal(1, t, at(3, 4)), variable("a", u), returning(literal(2, named, at(5, 6)), u)],
        t,
    ));
    let found = node.collect_types_metadata(&types);
    assert_eq!(found.len(), 3);
    assert_eq!((found[0].type_id, found[0].span), (t, at(0, 9)));
    assert_eq!((found[1].type_id, found[1].span), (t, at(3, 4)));
    assert_eq!((found[2].type_id, found[2].span), (named, at(5, 6)));
    let side_effect = TyAstNode { content: TyAstNodeContent::SideEffect, span: at(0, 1) };
    assert!(side_effect.collect_types_metadata(&types).is_empty());
    assert_eq!(t.collect_types_metadata(&types, at(1, 2)).len(), 1);
    assert!(u.collect_types_metadata(&types, at(1, 2)).is_empty());
}

#[test]
fn explicit_returns_are_gathered() {
    let u = TypeId(0);
    let node = expression_node(tuple(
        vec![returning(literal(1, u, at(0, 1)), u), variable("a", u), returning(literal(2, u, at(0, 1)), u)],
        u,
    ));
    let returns = node.gather_return_statements();
    assert_eq!(returns.len(), 2);
    assert!(matches!(returns[0].expression, TyExpressionVariant::Return(_)));
    let implicit = TyAstNode {
        content: TyAstNodeContent::ImplicitReturnExpression(literal(1, u, at(0, 1))),
        span: at(0, 1),
    };
    assert!(implicit.gather_return_statements().is_empty());
    let declaration = TyAstNode {
        content: TyAstNodeContent::Declaration(TyDeclaration::VariableDeclaration(Box::new(
            TyVariableDeclaration {
                name: name("v"),
                body: returning(literal(1, u, at(0, 1)), u),
                type_ascription: u,
                is_mutable: true,
            },
        ))),
        span: at(0, 3),
    };
    assert_eq!(declaration.gather_return_statements().len(), 1);
}

#[test]
fn a_revert_aborts() {
    let u = TypeId(0);
    let mut decls = DeclEngine::new();
    let aborting = decls.insert(function(
        "fail",
        vec![expression_node(reverting(literal(1, u, at(0, 1)), u))],
        AttributesMap::new(),
        Visibility::Private,
    ));
    let harmless = decls.insert(function("ok", vec![], AttributesMap::new(), Visibility::Private));
    let revert = expression_node(reverting(literal(1, u, at(0, 1)), u));
    let in_tuple = expression_node(tuple(vec![literal(1, u, at(0, 1)), reverting(literal(1, u, at(0, 1)), u)], u));
    let plain = expression_node(literal(1, u, at(0, 1)));
    assert!(revert.deterministically_aborts(&decls, false));
    assert!(in_tuple.deterministically_aborts(&decls, false));
    assert!(!plain.deterministically_aborts(&decls, true));
    let calls_aborting = expression_node(call(aborting, vec![], u));
    let calls_harmless = expression_node(call(harmless, vec![], u));
    let calls_stale = expression_node(call(DeclId(77), vec![], u));
    let aborting_argument = expression_node(call(harmless, vec![reverting(literal(1, u, at(0, 1)), u)], u));
    assert!(calls_aborting.deterministically_aborts(&decls, true));
    assert!(!calls_aborting.deterministically_aborts(&decls, false));
    assert!(!calls_harmless.deterministically_aborts(&decls, true));
    assert!(!calls_stale.deterministically_aborts(&decls, true));
    assert!(aborting_argument.deterministically_aborts(&decls, true));
    assert!(!aborting_argument.deterministically_aborts(&decls, false));
    let side_effect = TyAstNode { content: TyAstNodeContent::SideEffect, span: at(0, 1) };
    assert!(!side_effect.deterministically_aborts(&decls, true));
}

#[test]
fn main_and_test_functions_are_recognized() {
    let mut decls = DeclEngine::new();
    let mut test_attributes = AttributesMap::new();
    test_attributes.insert(AttributeKind::Test, vec![Attribute { name: name("test"), args: vec![] }]);
    let main = decls.insert(function("main", vec![], AttributesMap::new(), Visibility::Public));
    let helper = decls.insert(function("helper", vec![], test_attributes, Visibility::Private));
    let a_struct = decls.insert(DeclWrapper::Struct(TyStructDeclaration {
        name: name("S"),
        type_parameters: vec![],
        fields: vec![],
        visibility: Visibility::Public,
        span: at(0, 1),
        attributes: AttributesMap::new(),
    }));
    let node = |id: DeclId| TyAstNode {
        content: TyAstNodeContent::Declaration(TyDeclaration::FunctionDeclaration(id)),
        span: at(3, 4),
    };
    let library = TreeType::Library { name: name("lib") };
    assert!(matches!(node(main).is_main_function(&decls, &TreeType::Script), Ok(true)));
    assert!(matches!(node(main).is_main_function(&decls, &TreeType::Predicate), Ok(true)));
    assert!(matches!(node(main).is_main_function(&decls, &TreeType::Contract), Ok(false)));
    assert!(matches!(node(main).is_main_function(&decls, &library), Ok(false)));
    assert!(matches!(node(helper).is_main_function(&decls, &TreeType::Script), Ok(false)));
    assert!(matches!(node(helper).is_test_function(&decls), Ok(true)));
    assert!(matches!(node(main).is_test_function(&decls), Ok(false)));
    assert!(matches!(
        node(DeclId(50)).is_main_function(&decls, &TreeType::Script),
        Err(CompileError::DeclNotFound { span }) if span == at(3, 4)
    ));
    assert!(matches!(
        node(a_struct).is_test_function(&decls),
        Err(CompileError::DeclKindMismatch { span }) if span == at(3, 4)
    ));
    let side_effect = TyAstNode { content: TyAstNodeContent::SideEffect, span: at(0, 1) };
    assert!(matches!(side_effect.is_main_function(&decls, &TreeType::Script), Ok(false)));
    assert!(matches!(side_effect.is_test_function(&decls), Ok(false)));
}

#[test]
fn visibility_and_names_come_from_the_declaration() {
    let mut decls = DeclEngine::new();
    let public = decls.insert(function("shown", vec![], AttributesMap::new(), Visibility::Public));
    let private = decls.insert(function("hidden", vec![], AttributesMap::new(), Visibility::Private));
    let node = |id: DeclId| TyAstNode {
        content: TyAstNodeContent::Declaration(TyDeclaration::FunctionDeclaration(id)),
        span: at(3, 4),
    };
    assert!(matches!(node(public).is_public(&decls), Ok(true)));
    assert!(matches!(node(private).is_public(&decls), Ok(false)));
    assert!(matches!(node(DeclId(9)).is_public(&decls), Err(CompileError::DeclNotFound { .. })));
    let variable_node = TyAstNode {
        content: TyAstNodeContent::Declaration(TyDeclaration::VariableDeclaration(Box::new(
            TyVariableDeclaration {
                name: name("v"),
                body: literal(1, TypeId(0), at(0, 1)),
                type_ascription: TypeId(0),
                is_mutable: false,
            },
        ))),
        span: at(0, 3),
    };
    assert!(matches!(variable_node.is_public(&decls), Ok(false)));
    let recovery = TyAstNode {
        content: TyAstNodeContent::Declaration(TyDeclaration::ErrorRecovery),
        span: at(0, 3),
    };
    assert!(matches!(recovery.is_public(&decls), Ok(true)));
    let expression = expression_node(literal(1, TypeId(0), at(0, 1)));
    assert!(matches!(expression.is_public(&decls), Ok(false)));
    assert_eq!(node(public).get_decl_ident(&decls).map(|i| i.name), Some(String::from("shown")));
    assert_eq!(variable_node.get_decl_ident(&decls).map(|i| i.name), Some(String::from("v")));
    assert!(node(DeclId(9)).get_decl_ident(&decls).is_none());
    assert!(expression.get_decl_ident(&decls).is_none());
    assert!(recovery.get_decl_ident(&decls).is_none());
}

#[test]
fn the_type_of_a_node_is_that_of_its_expression_or_unit() {
    let mut types = TypeEngine::new();
    let u = types.insert_type(TypeInfo::UnsignedInteger(64));
    let expression = expression_node(literal(1, u, at(0, 1)));
    let side_effect = TyAstNode { content: TyAstNodeContent::SideEffect, span: at(0, 1) };
    let declaration = TyAstNode {
        content: TyAstNodeContent::Declaration(TyDeclaration::StructDeclaration(DeclId(0))),
        span: at(0, 1),
    };
    assert!(expression.type_info(&types).same_form(&TypeInfo::UnsignedInteger(64)));
    assert!(side_effect.type_info(&types).same_form(&TypeInfo::Tuple(vec![])));
    assert!(declaration.type_info(&types).same_form(&TypeInfo::Tuple(vec![])));
}

#[test]
fn storage_accesses_compare_by_content() {
    let mut types = TypeEngine::new();
    let decls = DeclEngine::new();
    let u = types.insert_type(TypeInfo::UnsignedInteger(64));
    let b = types.insert_type(TypeInfo::Boolean);
    let descriptor = |text: &str, ty: TypeId, span: Span| TyStorageAccessDescriptor {
        name: name(text),
        type_id: ty,
        span,
    };
    let access = |fields: Vec<TyStorageAccessDescriptor>, ix: u64| TyStorageAccess {
        fields,
        ix: StateIndex(ix),
    };
    let x = access(vec![descriptor("a", u, at(2, 5)), descriptor("b", b, at(6, 9))], 1);
    let y = access(vec![descriptor("a", u, at(0, 1)), descriptor("b", b, at(1, 2))], 1);
    let other_ix = access(vec![descriptor("a", u, at(2, 5)), descriptor("b", b, at(6, 9))], 2);
    let other_type = access(vec![descriptor("a", u, at(2, 5)), descriptor("b", u, at(6, 9))], 1);
    let shorter = access(vec![descriptor("a", u, at(2, 5))], 1);
    let engines = Engines::new(&types, &decls);
    assert!(x.eq(&y, engines));
    assert!(!x.eq(&other_ix, engines));
    assert!(!x.eq(&other_type, engines));
    assert!(!x.eq(&shorter, engines));
    let mut hx = HashState::new();
    let mut hy = HashState::new();
    x.hash(&mut hx, &types);
    y.hash(&mut hy, &types);
    assert_eq!(hx.words, hy.words);
    assert_eq!(hx.words, vec![2, 1, 97, 4, 64, 1, 98, 3, 1]);
    assert_eq!(x.span(), at(2, 9));
    assert_eq!(shorter.span(), at(2, 5));
    assert_eq!(x.storage_field_name().name, "a");
    assert!(x.fields[0].eq(&y.fields[0], engines));
    assert!(!x.fields[0].eq(&x.fields[1], engines));
}
