use sway_engines::decl_engine::DeclEngine;
use sway_engines::decl_engine::DeclId;
use sway_engines::decl_engine::DeclWrapper;
use sway_engines::decl_engine::TyAbiDeclaration;
use sway_engines::decl_engine::TyStructDeclaration;
use sway_engines::decl_engine::TyStructField;
use sway_engines::error::CompileError;
use sway_engines::error::CompileWarning;
use sway_engines::error::Warning;
use sway_engines::language::Attribute;
use sway_engines::language::AttributeKind;
use sway_engines::language::AttributesMap;
use sway_engines::language::Visibility;
use sway_engines::lsp::attributes_map;
use sway_engines::lsp::attributes_map2;
use sway_engines::lsp::code_actions;
use sway_engines::lsp::doc_attributes;
use sway_engines::lsp::get_diagnostics;
use sway_engines::lsp::get_range;
use sway_engines::lsp::get_range_from_span;
use sway_engines::lsp::get_range_from_type_def;
use sway_engines::lsp::type_id_at_position;
use sway_engines::lsp::TypeDefinition;
use sway_engines::lsp::ident_at_position;
use sway_engines::lsp::storage_attributes;
use sway_engines::lsp::AstToken;
use sway_engines::parsed::Declaration;
use sway_engines::lsp::DiagnosticSeverity;
use sway_engines::lsp::LineCol;
use sway_engines::parsed::ParsedItem;
use sway_engines::lsp::Position;
use sway_engines::lsp::Range;
use sway_engines::lsp::Token;
use sway_engines::lsp::TypedAstToken;
use sway_engines::span::Ident;
use sway_engines::span::Span;
use sway_engines::ty::TyDeclaration;
use sway_engines::type_engine::TypeId;

const TEXT: &str = "contract;\nfn main() {\n    foo();\n}\n";

fn at(start: usize, end: usize) -> Span {
    Span::new(start, end, 0)
}

fn name(text: &str, span: Span) -> Ident {
    Ident::new(text, span)
}

fn attributes(kind: AttributeKind, text: &str) -> AttributesMap {
    let mut map = AttributesMap::new();
    map.insert(kind, vec![Attribute { name: name(text, at(0, 1)), args: vec![] }]);
    map
}

fn position(line: u32, character: u32) -> Position {
    Position { line, character }
}

#[test]
fn a_range_counts_lines_and_columns_from_zero() {
    let range = get_range(LineCol { line: 1, col: 1 }, LineCol { line: 3, col: 8 });
    assert_eq!(range, Range { start: position(0, 0), end: position(2, 7) });
}

#[test]
fn the_range_of_a_span_comes_from_the_text() {
    assert_eq!(
        get_range_from_span(TEXT, &at(13, 17)),
        Some(Range { start: position(1, 3), end: position(1, 7) })
    );
    assert_eq!(
        get_range_from_span(TEXT, &at(0, 8)),
        Some(Range { start: position(0, 0), end: position(0, 8) })
    );
    assert_eq!(
        get_range_from_span(TEXT, &at(26, 29)),
        Some(Range { start: position(2, 4), end: position(2, 7) })
    );
}

#[test]
fn positions_are_ordered_by_line_then_character() {
    assert!(position(1, 5).le(&position(1, 5)));
    assert!(position(1, 5).le(&position(2, 0)));
    assert!(!position(2, 0).le(&position(1, 5)));
    assert!(!position(1, 6).le(&position(1, 5)));
    let range = Range { start: position(1, 3), end: position(1, 7) };
    assert!(range.contains(&position(1, 3)));
    assert!(range.contains(&position(1, 7)));
    assert!(!range.contains(&position(1, 8)));
    assert!(!range.contains(&position(0, 5)));
}

#[test]
fn the_name_under_the_cursor_is_found() {
    let tokens = vec![name("main", at(13, 17)), name("foo", at(26, 29)), name("again", at(26, 29))];
    assert_eq!(ident_at_position(TEXT, position(1, 4), &tokens).map(|i| i.name.as_str()), Some("main"));
    assert_eq!(ident_at_position(TEXT, position(2, 7), &tokens).map(|i| i.name.as_str()), Some("foo"));
    assert!(ident_at_position(TEXT, position(0, 0), &tokens).is_none());
    assert!(ident_at_position(TEXT, position(1, 4), &vec![]).is_none());
}

#[test]
fn diagnostics_list_errors_then_warnings() {
    let errors = vec![
        CompileError::UnknownType { span: at(26, 29) },
        CompileError::TypeError {
            expected: String::from("u64"),
            received: String::from("bool"),
            help_text: String::from("in a call"),
            span: at(13, 17),
        },
    ];
    let warnings = vec![CompileWarning { span: at(13, 17), warning_content: Warning::DeadFunctionDeclaration }];
    let found = get_diagnostics(TEXT, &warnings, &errors).expect("every place has a range");
    assert_eq!(found.len(), 3);
    assert_eq!(found[0].severity, DiagnosticSeverity::Error);
    assert_eq!(found[0].range, Range { start: position(2, 4), end: position(2, 7) });
    assert_eq!(found[0].message, "Unknown type name.");
    assert_eq!(found[1].severity, DiagnosticSeverity::Error);
    assert_eq!(found[1].message, "Mismatched types.\nexpected: u64\nfound:    bool.\nhelp: in a call");
    assert_eq!(found[2].severity, DiagnosticSeverity::Warning);
    assert_eq!(found[2].range, Range { start: position(1, 3), end: position(1, 7) });
    assert_eq!(found[2].message, "This function is never called.");
    assert!(get_diagnostics(TEXT, &vec![], &vec![]).expect("nothing to place").is_empty());
}

#[test]
fn each_error_and_warning_has_its_words() {
    assert_eq!(
        CompileError::WhereClauseNotYetSupported { span: at(0, 1) }.to_text(),
        "Where clauses are not supported yet."
    );
    assert_eq!(CompileError::UnknownType { span: at(0, 1) }.to_text(), "Unknown type name.");
    assert_eq!(
        CompileError::RecursiveType { span: at(0, 1) }.to_text(),
        "Internal compiler error: a type would contain itself\nPlease file an issue on the repository and include the code that triggered this error."
    );
    assert_eq!(
        CompileError::DeclNotFound { span: at(0, 1) }.to_text(),
        "Internal compiler error: declaration not found\nPlease file an issue on the repository and include the code that triggered this error."
    );
    assert_eq!(
        CompileError::DeclKindMismatch { span: at(0, 1) }.to_text(),
        "Internal compiler error: declaration of another kind\nPlease file an issue on the repository and include the code that triggered this error."
    );
    let mismatch = CompileError::TypeError {
        expected: String::from("u64"),
        received: String::from("bool"),
        help_text: String::new(),
        span: at(0, 1),
    };
    assert_eq!(mismatch.to_text(), "Mismatched types.\nexpected: u64\nfound:    bool.\n");
    assert_eq!(CompileError::DeclNotFound { span: at(3, 4) }.span(), at(3, 4));
    assert_eq!(Warning::DeadFunctionDeclaration.to_text(), "This function is never called.");
    assert_eq!(Warning::DeadDeclaration.to_text(), "This declaration is never used.");
    assert_eq!(Warning::UnreachableCode.to_text(), "This code is unreachable.");
    let warning = CompileWarning { span: at(1, 2), warning_content: Warning::UnreachableCode };
    assert_eq!(warning.to_friendly_warning_string(), "This code is unreachable.");
    assert_eq!(warning.span(), at(1, 2));
}

#[test]
fn attributes_of_parsed_tokens() {
    let item = ParsedItem { name: name("f", at(0, 1)), attributes: attributes(AttributeKind::Doc, "doc") };
    let documented = Token {
        parsed: AstToken::Declaration(Declaration::FunctionDeclaration(item.clone())),
        typed: None,
    };
    let stored = Token {
        parsed: AstToken::StorageField(ParsedItem {
            name: name("s", at(0, 1)),
            attributes: attributes(AttributeKind::Storage, "read"),
        }),
        typed: None,
    };
    let a_trait = Token { parsed: AstToken::Declaration(Declaration::TraitDeclaration(name("T", at(0, 1)))), typed: None };
    let expression = Token { parsed: AstToken::Expression(name("e", at(0, 1))), typed: None };
    assert!(attributes_map(&documented).is_some());
    assert!(attributes_map(&a_trait).is_none());
    assert!(attributes_map(&expression).is_none());
    assert_eq!(doc_attributes(&documented).map(|a| a[0].name.name.as_str()), Some("doc"));
    assert!(storage_attributes(&documented).is_none());
    assert_eq!(storage_attributes(&stored).map(|a| a[0].name.name.as_str()), Some("read"));
    assert!(doc_attributes(&stored).is_none());
    assert!(doc_attributes(&a_trait).is_none());
}

#[test]
fn attributes_of_typed_tokens() {
    let mut decls = DeclEngine::new();
    let a_struct = decls.insert(DeclWrapper::Struct(TyStructDeclaration {
        name: name("S", at(0, 1)),
        type_parameters: vec![],
        fields: vec![],
        visibility: Visibility::Public,
        span: at(0, 1),
        attributes: attributes(AttributeKind::Doc, "doc"),
    }));
    let an_abi = decls.insert(DeclWrapper::Abi(TyAbiDeclaration {
        name: name("Api", at(0, 3)),
        interface_surface: vec![],
        methods: vec![],
        span: at(0, 9),
        attributes: attributes(AttributeKind::Doc, "doc"),
    }));
    let token = |typed: Option<TypedAstToken>| Token { parsed: AstToken::Expression(name("e", at(0, 1))), typed };
    let of_struct = token(Some(TypedAstToken::TypedDeclaration(TyDeclaration::StructDeclaration(a_struct))));
    let of_abi = token(Some(TypedAstToken::TypedDeclaration(TyDeclaration::AbiDeclaration(an_abi))));
    let stale = token(Some(TypedAstToken::TypedDeclaration(TyDeclaration::StructDeclaration(DeclId(9)))));
    let wrong_kind = token(Some(TypedAstToken::TypedDeclaration(TyDeclaration::EnumDeclaration(a_struct))));
    let of_field = token(Some(TypedAstToken::TypedStructField(TyStructField {
        name: name("x", at(0, 1)),
        type_id: TypeId(0),
        initial_type_id: TypeId(0),
        span: at(0, 1),
        type_span: at(0, 1),
        attributes: attributes(AttributeKind::Storage, "write"),
    })));
    assert_eq!(attributes_map2(&of_struct, &decls).map(|a| a.contains_key(AttributeKind::Doc)), Some(true));
    assert!(attributes_map2(&of_abi, &decls).is_none());
    assert!(attributes_map2(&stale, &decls).is_none());
    assert!(attributes_map2(&wrong_kind, &decls).is_none());
    assert!(attributes_map2(&token(None), &decls).is_none());
    assert_eq!(
        attributes_map2(&of_field, &decls).map(|a| a.contains_key(AttributeKind::Storage)),
        Some(true)
    );
    assert_eq!(code_actions(&of_abi, &decls).map(|a| a.name.name.as_str()), Some("Api"));
    assert!(code_actions(&of_struct, &decls).is_none());
    assert!(code_actions(&token(None), &decls).is_none());
    let stale_abi = token(Some(TypedAstToken::TypedDeclaration(TyDeclaration::AbiDeclaration(DeclId(9)))));
    assert!(code_actions(&stale_abi, &decls).is_none());
}

#[test]
fn the_type_under_the_cursor_is_found() {
    let tokens = vec![(TypeId(4), name("main", at(13, 17))), (TypeId(9), name("foo", at(26, 29)))];
    assert_eq!(type_id_at_position(TEXT, position(1, 4), &tokens), Some(TypeId(4)));
    assert_eq!(type_id_at_position(TEXT, position(2, 5), &tokens), Some(TypeId(9)));
    assert_eq!(type_id_at_position(TEXT, position(0, 0), &tokens), None);
}

#[test]
fn the_range_of_a_definition_is_that_of_its_name_or_of_its_declaration() {
    let declared = vec![(TypeId(4), at(13, 17)), (TypeId(4), at(0, 8))];
    let by_name = TypeDefinition::Ident(name("foo", at(26, 29)));
    assert_eq!(
        get_range_from_type_def(TEXT, &by_name, &declared),
        Some(Range { start: position(2, 4), end: position(2, 7) })
    );
    assert_eq!(
        get_range_from_type_def(TEXT, &TypeDefinition::TypeId(TypeId(4)), &declared),
        Some(Range { start: position(1, 3), end: position(1, 7) })
    );
    assert_eq!(get_range_from_type_def(TEXT, &TypeDefinition::TypeId(TypeId(5)), &declared), None);
}
