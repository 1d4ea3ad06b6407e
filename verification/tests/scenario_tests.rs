use sway_engines::decl_engine::DeclEngine;
use sway_engines::decl_engine::DeclWrapper;
use sway_engines::decl_engine::Engines;
use sway_engines::decl_engine::TyFunctionDeclaration;
use sway_engines::language::Attribute;
use sway_engines::language::AttributeKind;
use sway_engines::language::AttributesMap;
use sway_engines::language::Literal;
use sway_engines::language::Purity;
use sway_engines::language::StateIndex;
use sway_engines::language::Visibility;
use sway_engines::parsed::AstNode;
use sway_engines::parsed::AstNodeContent;
use sway_engines::parsed::Declaration;
use sway_engines::parsed::ParseModule;
use sway_engines::parsed::ParseProgram;
use sway_engines::parsed::ParseTree;
use sway_engines::parsed::ParsedItem;
use sway_engines::parsed::TreeType;
use sway_engines::span::Ident;
use sway_engines::span::Span;
use sway_engines::subst::TypeSubstMap;
use sway_engines::ty::TyAstNode;
use sway_engines::ty::TyAstNodeContent;
use sway_engines::ty::TyDeclaration;
use sway_engines::ty::TyExpression;
use sway_engines::ty::TyExpressionVariant;
use sway_engines::ty::TyStorageAccess;
use sway_engines::ty::TyStorageAccessDescriptor;
use sway_engines::ty::TyVariableDeclaration;
use sway_engines::type_engine::TypeEngine;
use sway_engines::type_engine::TypeId;
use sway_engines::type_engine::TypeInfo;

fn at(start: usize, end: usize) -> Span {
    Span::new(start, end, 0)
}

fn name(text: &str) -> Ident {
    Ident::new(text, at(0, text.len()))
}

fn expression(variant: TyExpressionVariant, ty: TypeId) -> TyExpression {
    TyExpression { expression: variant, return_type: ty, span: at(0, 1) }
}

#[test]
fn point_and_sum_end_to_end() {
    let mut types = TypeEngine::new();
    let decls = DeclEngine::new();
    let u = types.insert_type(TypeInfo::UnsignedInteger(64));
    let b = types.insert_type(TypeInfo::Boolean);
    // Interning `Point` twice gives one handle.
    let point = types.insert_type(TypeInfo::Struct(String::from("Point"), vec![u, u]));
    let again = types.insert_type(TypeInfo::Struct(String::from("Point"), vec![u, u]));
    assert_eq!(point, again);
    // `Point` is an aggregate and no copy type.
    assert!(types.is_aggregate(point));
    assert!(!types.is_copy_type(point));
    // The sum type equals both members and nothing else.
    let either = types.insert_type(TypeInfo::Sum(vec![point, u]));
    assert!(types.type_eq(either, point));
    assert!(types.type_eq(either, u));
    assert!(!types.type_eq(either, b));
    // Unifying a placeholder with `Point` binds it, and a substitution then
    // rewrites a node that holds the placeholder.
    let t = types.insert_type(TypeInfo::Unknown(0));
    let mut bindings = TypeSubstMap::new();
    assert!(types.unify(&mut bindings, t, point, &at(0, 1), "", None).is_ok());
    assert_eq!(bindings.find(t), Some(point));
    let mut node = TyAstNode {
        content: TyAstNodeContent::Expression(expression(
            TyExpressionVariant::VariableExpression { name: name("p") },
            t,
        )),
        span: at(0, 1),
    };
    node.subst_inner(&bindings, Engines::new(&types, &decls));
    match &node.content {
        TyAstNodeContent::Expression(e) => assert_eq!(e.return_type, point),
        _ => panic!("the expression is gone"),
    }
    assert_eq!(types.type_text(either), "( { u64, u64 } | u64 )");
}

#[test]
fn nodes_are_shown_as_text() {
    let mut types = TypeEngine::new();
    let mut decls = DeclEngine::new();
    let u = types.insert_type(TypeInfo::UnsignedInteger(64));
    let main = decls.insert(DeclWrapper::Function(TyFunctionDeclaration {
        name: name("main"),
        body: vec![],
        parameters: vec![],
        return_type: u,
        visibility: Visibility::Public,
        attributes: AttributesMap::new(),
        purity: Purity::Pure,
        span: at(0, 9),
    }));
    let literal = |n: u64| expression(TyExpressionVariant::Literal(Literal::U64(n)), u);
    let call = expression(
        TyExpressionVariant::FunctionApplication {
            call_path: name("add"),
            arguments: vec![literal(1), expression(TyExpressionVariant::Tuple { fields: vec![literal(2), literal(30)] }, u)],
            function_decl_id: main,
        },
        u,
    );
    let access = expression(
        TyExpressionVariant::StorageAccess(TyStorageAccess {
            fields: vec![
                TyStorageAccessDescriptor { name: name("owner"), type_id: u, span: at(0, 1) },
                TyStorageAccessDescriptor { name: name("id"), type_id: u, span: at(0, 1) },
            ],
            ix: StateIndex(0),
        }),
        u,
    );
    let node = |content: TyAstNodeContent| TyAstNode { content, span: at(0, 1) };
    let engines = Engines::new(&types, &decls);
    assert_eq!(node(TyAstNodeContent::Expression(call)).to_text(engines), "add(1, (2, 30))");
    assert_eq!(node(TyAstNodeContent::Expression(access)).to_text(engines), "storage.owner.id");
    assert_eq!(node(TyAstNodeContent::ImplicitReturnExpression(literal(7))).to_text(engines), "return 7");
    assert_eq!(node(TyAstNodeContent::SideEffect).to_text(engines), "");
    assert_eq!(
        node(TyAstNodeContent::Expression(expression(
            TyExpressionVariant::Return(Box::new(expression(
                TyExpressionVariant::Literal(Literal::Boolean(true)),
                u
            ))),
            u
        )))
        .to_text(engines),
        "return true"
    );
    assert_eq!(
        node(TyAstNodeContent::Expression(expression(
            TyExpressionVariant::Revert(Box::new(expression(TyExpressionVariant::Break, u))),
            u
        )))
        .to_text(engines),
        "revert break"
    );
    assert_eq!(node(TyAstNodeContent::Expression(expression(TyExpressionVariant::Continue, u))).to_text(engines), "continue");
    assert_eq!(
        node(TyAstNodeContent::Declaration(TyDeclaration::FunctionDeclaration(main))).to_text(engines),
        "fn main"
    );
    assert_eq!(
        node(TyAstNodeContent::Declaration(TyDeclaration::StructDeclaration(main))).to_text(engines),
        "struct"
    );
    assert_eq!(node(TyAstNodeContent::Declaration(TyDeclaration::ErrorRecovery)).to_text(engines), "error");
    assert_eq!(
        node(TyAstNodeContent::Declaration(TyDeclaration::VariableDeclaration(Box::new(
            TyVariableDeclaration { name: name("x"), body: literal(5), type_ascription: u, is_mutable: false }
        ))))
        .to_text(engines),
        "let x: u64 = 5"
    );
}

#[test]
fn tests_are_taken_out_of_a_program() {
    let mut test_attributes = AttributesMap::new();
    test_attributes.insert(AttributeKind::Test, vec![Attribute { name: name("test"), args: vec![] }]);
    let function = |text: &str, attributes: AttributesMap| AstNode {
        content: AstNodeContent::Declaration(Declaration::FunctionDeclaration(ParsedItem {
            name: name(text),
            attributes,
        })),
        span: at(0, 1),
    };
    let mut program = ParseProgram {
        kind: TreeType::Script,
        root: ParseModule {
            tree: ParseTree {
                root_nodes: vec![
                    function("check_one", test_attributes.clone()),
                    function("main", AttributesMap::new()),
                    AstNode { content: AstNodeContent::UseStatement(name("std")), span: at(0, 1) },
                    function("check_two", test_attributes.clone()),
                    AstNode {
                        content: AstNodeContent::Declaration(Declaration::StructDeclaration(ParsedItem {
                            name: name("S"),
                            attributes: test_attributes.clone(),
                        })),
                        span: at(0, 1),
                    },
                ],
                span: at(0, 99),
            },
        },
    };
    program.exclude_tests();
    let kept: Vec<&str> = program
        .root
        .tree
        .root_nodes
        .iter()
        .map(|node| match &node.content {
            AstNodeContent::Declaration(Declaration::FunctionDeclaration(item)) => item.name.as_str(),
            AstNodeContent::Declaration(Declaration::StructDeclaration(item)) => item.name.as_str(),
            AstNodeContent::UseStatement(ident) => ident.as_str(),
            _ => "",
        })
        .collect();
    assert_eq!(kept, vec!["main", "std", "S"]);
    assert_eq!(program.root.tree.span, at(0, 99));
    assert!(function("t", test_attributes).is_test());
    assert!(!function("f", AttributesMap::new()).is_test());
}
