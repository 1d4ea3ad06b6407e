use sway_engines::decl_engine::TraitConstraint;
use sway_engines::decl_engine::TyStructDeclaration;
use sway_engines::decl_engine::TyStructField;
use sway_engines::error::CompileError;
use sway_engines::language::AttributesMap;
use sway_engines::language::Visibility;
use sway_engines::semantic::Namespace;
use sway_engines::semantic::ParsedTypeParameter;
use sway_engines::semantic::StructDeclaration;
use sway_engines::semantic::StructField;
use sway_engines::semantic::TypeCheckContext;
use sway_engines::span::Ident;
use sway_engines::span::Span;
use sway_engines::type_engine::TypeId;
use sway_engines::type_engine::TypeInfo;

fn at(start: usize, end: usize) -> Span {
    Span::new(start, end, 0)
}

fn name(text: &str, span: Span) -> Ident {
    Ident::new(text, span)
}

fn field(text: &str, type_info: TypeInfo, type_span: Span) -> StructField {
    StructField {
        name: name(text, at(0, 1)),
        type_info,
        span: at(0, 2),
        type_span,
        attributes: AttributesMap::new(),
    }
}

fn parameter(text: &str, constraints: usize, span: Span) -> ParsedTypeParameter {
    let mut trait_constraints = vec![];
    for _ in 0..constraints {
        trait_constraints.push(TraitConstraint { trait_name: name("Eq", at(0, 2)) });
    }
    ParsedTypeParameter { name_ident: name(text, at(0, 1)), trait_constraints, trait_constraints_span: span }
}

fn declaration(
    text: &str,
    type_parameters: Vec<ParsedTypeParameter>,
    fields: Vec<StructField>,
) -> StructDeclaration {
    StructDeclaration {
        name: name(text, at(7, 12)),
        fields,
        type_parameters,
        visibility: Visibility::Public,
        span: at(0, 40),
        attributes: AttributesMap::new(),
    }
}

#[test]
fn a_plain_struct_is_checked() {
    let mut ctx = TypeCheckContext::new(3);
    let decl = declaration(
        "Point",
        vec![],
        vec![
            field("x", TypeInfo::UnsignedInteger(64), at(1, 2)),
            field("y", TypeInfo::UnsignedInteger(64), at(3, 4)),
        ],
    );
    let checked = TyStructDeclaration::type_check(&mut ctx, decl);
    assert!(checked.errors.is_empty());
    assert!(checked.warnings.is_empty());
    let out = checked.value.expect("the struct is checked");
    assert_eq!(out.name.name, "Point");
    assert_eq!(out.visibility, Visibility::Public);
    assert_eq!(out.span, at(0, 40));
    assert_eq!(out.fields.len(), 2);
    assert_eq!(out.fields[0].name.name, "x");
    assert_eq!(out.fields[0].type_id, out.fields[1].type_id);
    assert_eq!(out.fields[0].type_id, out.fields[0].initial_type_id);
    assert!(ctx.type_engine.get(out.fields[0].type_id).same_form(&TypeInfo::UnsignedInteger(64)));
    assert_eq!(out.type_parameters.len(), 1);
    assert_eq!(out.type_parameters[0].name_ident.name, "Self");
    assert_eq!(out.type_parameters[0].name_ident.span, at(7, 12));
    let self_id = out.type_parameters[0].type_id;
    assert!(ctx.type_engine.get(self_id).same_form(&TypeInfo::SelfType(3)));
    let struct_id = ctx.bindings.find(self_id).expect("the self type is bound");
    let u = out.fields[0].type_id;
    assert!(ctx
        .type_engine
        .get(struct_id)
        .same_form(&TypeInfo::Struct(String::from("Point"), vec![u, u])));
    assert_eq!(ctx.type_engine.type_text(struct_id), "{ u64, u64 }");
}

#[test]
fn type_parameters_come_into_scope_for_the_fields_only() {
    let mut ctx = TypeCheckContext::new(0);
    let decl = declaration(
        "Pair",
        vec![parameter("T", 0, at(0, 0)), parameter("U", 0, at(0, 0))],
        vec![
            field("a", TypeInfo::Custom(String::from("T")), at(1, 2)),
            field("b", TypeInfo::Custom(String::from("U")), at(3, 4)),
            field("c", TypeInfo::Custom(String::from("T")), at(5, 6)),
        ],
    );
    let checked = TyStructDeclaration::type_check(&mut ctx, decl);
    assert!(checked.errors.is_empty());
    let out = checked.value.expect("the struct is checked");
    assert_eq!(out.type_parameters.len(), 3);
    assert_eq!(out.type_parameters[0].name_ident.name, "T");
    assert_eq!(out.type_parameters[1].name_ident.name, "U");
    assert_eq!(out.type_parameters[2].name_ident.name, "Self");
    let t = out.type_parameters[0].type_id;
    let u = out.type_parameters[1].type_id;
    assert!(ctx.type_engine.get(t).same_form(&TypeInfo::Unknown(0)));
    assert!(ctx.type_engine.get(u).same_form(&TypeInfo::Unknown(1)));
    assert_eq!(out.fields[0].type_id, t);
    assert_eq!(out.fields[1].type_id, u);
    assert_eq!(out.fields[2].type_id, t);
    assert!(ctx.type_engine.get(out.fields[0].initial_type_id).same_form(&TypeInfo::Custom(String::from("T"))));
    assert_eq!(ctx.next_placeholder, 2);
    assert_eq!(ctx.namespace.resolve(&String::from("T")), None);
    assert_eq!(ctx.namespace.resolve(&String::from("Self")), None);
}

#[test]
fn a_where_clause_is_not_supported_yet() {
    let mut ctx = TypeCheckContext::new(0);
    let decl = declaration(
        "Bad",
        vec![parameter("T", 0, at(1, 1)), parameter("U", 2, at(20, 30)), parameter("V", 1, at(31, 33))],
        vec![field("a", TypeInfo::Boolean, at(1, 2))],
    );
    let checked = TyStructDeclaration::type_check(&mut ctx, decl);
    assert!(checked.value.is_none());
    assert_eq!(checked.errors.len(), 1);
    assert!(matches!(
        checked.errors[0],
        CompileError::WhereClauseNotYetSupported { span } if span == at(20, 30)
    ));
    assert!(ctx.bindings.is_empty());
    assert_eq!(ctx.namespace.resolve(&String::from("T")), None);
}

#[test]
fn an_unknown_field_type_is_reported_and_the_check_goes_on() {
    let mut ctx = TypeCheckContext::new(0);
    let decl = declaration(
        "Holder",
        vec![],
        vec![
            field("a", TypeInfo::Custom(String::from("Missing")), at(11, 18)),
            field("b", TypeInfo::Boolean, at(21, 25)),
            field("c", TypeInfo::Custom(String::from("Gone")), at(31, 35)),
        ],
    );
    let checked = TyStructDeclaration::type_check(&mut ctx, decl);
    assert_eq!(checked.errors.len(), 2);
    assert!(matches!(checked.errors[0], CompileError::UnknownType { span } if span == at(11, 18)));
    assert!(matches!(checked.errors[1], CompileError::UnknownType { span } if span == at(31, 35)));
    let out = checked.value.expect("the check went on");
    assert!(ctx.type_engine.get(out.fields[0].type_id).same_form(&TypeInfo::ErrorRecovery));
    assert!(ctx.type_engine.get(out.fields[1].type_id).same_form(&TypeInfo::Boolean));
    assert_eq!(out.fields[0].type_id, out.fields[2].type_id);
    assert_ne!(out.fields[0].type_id, out.fields[0].initial_type_id);
}

#[test]
fn a_field_of_the_self_type_makes_the_struct_recursive() {
    let mut ctx = TypeCheckContext::new(5);
    let decl = declaration(
        "Node",
        vec![],
        vec![field("next", TypeInfo::Custom(String::from("Self")), at(1, 5))],
    );
    let checked = TyStructDeclaration::type_check(&mut ctx, decl);
    assert!(checked.value.is_none());
    assert_eq!(checked.errors.len(), 1);
    assert!(matches!(checked.errors[0], CompileError::RecursiveType { span } if span == at(7, 12)));
    assert!(ctx.bindings.is_empty());
}

#[test]
fn each_struct_has_a_self_type_of_its_own() {
    let mut ctx = TypeCheckContext::new(1);
    let first = declaration("A", vec![], vec![field("x", TypeInfo::Boolean, at(1, 2))]);
    let second = declaration("B", vec![], vec![field("x", TypeInfo::B256, at(1, 2))]);
    let a = TyStructDeclaration::type_check(&mut ctx, first).value.expect("the first is checked");
    let b = TyStructDeclaration::type_check(&mut ctx, second).value.expect("the second is checked");
    assert_eq!(ctx.scope, 3);
    let self_a = a.type_parameters[0].type_id;
    let self_b = b.type_parameters[0].type_id;
    assert_ne!(self_a, self_b);
    assert!(ctx.type_engine.get(self_a).same_form(&TypeInfo::SelfType(1)));
    assert!(ctx.type_engine.get(self_b).same_form(&TypeInfo::SelfType(2)));
    let bound_a = ctx.bindings.find(self_a).expect("the first self type is bound");
    let bound_b = ctx.bindings.find(self_b).expect("the second self type is bound");
    assert_eq!(ctx.type_engine.type_text(bound_a), "{ bool }");
    assert_eq!(ctx.type_engine.type_text(bound_b), "{ b256 }");
}

#[test]
fn a_field_is_checked_on_its_own() {
    let mut ctx = TypeCheckContext::new(0);
    let known = ctx.type_engine.insert_type(TypeInfo::UnsignedInteger(8));
    ctx.namespace.insert(String::from("Byte"), known);
    let found = TyStructField::type_check(&mut ctx, field("a", TypeInfo::Custom(String::from("Byte")), at(1, 5)));
    assert!(found.errors.is_empty());
    let out = found.value.expect("a field is always given");
    assert_eq!(out.type_id, known);
    assert_eq!(out.name.name, "a");
    assert_eq!(out.type_span, at(1, 5));
    assert_eq!(out.span, at(0, 2));
    let missing = TyStructField::type_check(&mut ctx, field("b", TypeInfo::Custom(String::from("Word")), at(6, 10)));
    assert_eq!(missing.errors.len(), 1);
    assert!(matches!(missing.errors[0], CompileError::UnknownType { span } if span == at(6, 10)));
    let out = missing.value.expect("a field is always given");
    assert!(ctx.type_engine.get(out.type_id).same_form(&TypeInfo::ErrorRecovery));
}

#[test]
fn names_resolve_to_their_last_entry() {
    let mut namespace = Namespace::new();
    assert_eq!(namespace.resolve(&String::from("T")), None);
    namespace.insert(String::from("T"), TypeId(1));
    namespace.insert(String::from("U"), TypeId(2));
    namespace.insert(String::from("T"), TypeId(3));
    assert_eq!(namespace.resolve(&String::from("T")), Some(TypeId(3)));
    assert_eq!(namespace.resolve(&String::from("U")), Some(TypeId(2)));
    assert_eq!(namespace.copy().resolve(&String::from("T")), Some(TypeId(3)));
}

#[test]
fn types_resolve_through_the_namespace() {
    let mut ctx = TypeCheckContext::new(0);
    let u = ctx.type_engine.insert_type(TypeInfo::UnsignedInteger(64));
    let by_name = ctx.type_engine.insert_type(TypeInfo::Custom(String::from("Word")));
    let missing = ctx.type_engine.insert_type(TypeInfo::Custom(String::from("Gone")));
    ctx.namespace.insert(String::from("Word"), u);
    assert!(matches!(ctx.resolve_type(u, &at(0, 1)), Ok(t) if t == u));
    assert!(matches!(ctx.resolve_type(by_name, &at(0, 1)), Ok(t) if t == u));
    assert!(matches!(
        ctx.resolve_type(missing, &at(4, 8)),
        Err(CompileError::UnknownType { span }) if span == at(4, 8)
    ));
}

#[test]
fn the_type_of_a_struct_is_interned() {
    let mut ctx = TypeCheckContext::new(0);
    let decl = declaration("P", vec![], vec![field("x", TypeInfo::Boolean, at(1, 2))]);
    let out = TyStructDeclaration::type_check(&mut ctx, decl).value.expect("checked");
    let before = ctx.type_engine.len();
    let id = out.create_type_id(&mut ctx.type_engine);
    assert_eq!(ctx.type_engine.len(), before);
    assert_eq!(ctx.type_engine.type_text(id), "{ bool }");
}
