use sway_engines::error::CompileError;
use sway_engines::language::same_attributes;
use sway_engines::language::Attribute;
use sway_engines::language::AttributeKind;
use sway_engines::language::AttributesMap;
use sway_engines::language::HashState;
use sway_engines::language::Visibility;
use sway_engines::parsed::TreeType;
use sway_engines::span::Ident;
use sway_engines::span::Span;
use sway_engines::transform::Context;
use sway_engines::tx::Gas;
use sway_engines::tx::Maturity;
use sway_engines::tx::Predicate;
use sway_engines::tx::TxPointer;

fn name(text: &str) -> Ident {
    Ident::new(text, Span::new(0, text.len(), 0))
}

#[test]
fn spans_join_to_the_smallest_span_that_holds_both() {
    let a = Span::new(4, 9, 2);
    let b = Span::new(7, 20, 2);
    let c = Span::new(1, 5, 2);
    assert_eq!(Span::join(a, b), Span::new(4, 20, 2));
    assert_eq!(Span::join(b, a), Span::new(4, 20, 2));
    assert_eq!(Span::join(a, c), Span::new(1, 9, 2));
    assert_eq!(Span::join(a, a), a);
    assert!(Span::new(3, 3, 0).is_empty());
    assert!(!a.is_empty());
}

#[test]
fn identifiers_are_the_same_if_their_names_are() {
    let a = Ident::new("x", Span::new(0, 1, 0));
    let b = Ident::new("x", Span::new(5, 6, 0));
    let c = Ident::new("y", Span::new(0, 1, 0));
    assert!(a.same_name(&b));
    assert!(!a.same_name(&c));
    assert_eq!(a.as_str(), "x");
    assert_eq!(b.span(), Span::new(5, 6, 0));
    let copy = b.copy();
    assert_eq!(copy.name, "x");
    assert_eq!(copy.span, b.span);
}

#[test]
fn the_configurable_block_flag_is_remembered() {
    let mut context = Context::default();
    assert!(!context.module_has_configurable_block());
    context.set_module_has_configurable_block();
    assert!(context.module_has_configurable_block());
    context.set_module_has_configurable_block();
    assert!(context.module_has_configurable_block());
}

#[test]
fn program_kinds_have_their_words() {
    assert_eq!(TreeType::Predicate.to_text(), "predicate");
    assert_eq!(TreeType::Script.to_text(), "script");
    assert_eq!(TreeType::Contract.to_text(), "contract");
    assert_eq!(TreeType::Library { name: name("math") }.to_text(), "library");
    assert!(TreeType::Script.same_kind(&TreeType::Script));
    assert!(!TreeType::Script.same_kind(&TreeType::Predicate));
    assert!(TreeType::Library { name: name("a") }.same_kind(&TreeType::Library { name: name("a") }));
    assert!(!TreeType::Library { name: name("a") }.same_kind(&TreeType::Library { name: name("b") }));
}

#[test]
fn attributes_are_found_by_kind() {
    let mut map = AttributesMap::new();
    assert!(!map.contains_key(AttributeKind::Doc));
    map.insert(AttributeKind::Doc, vec![Attribute { name: name("doc"), args: vec![name("one")] }]);
    map.insert(AttributeKind::Test, vec![]);
    assert_eq!(map.get(AttributeKind::Doc).map(|a| a[0].name.name.as_str()), Some("doc"));
    map.insert(AttributeKind::Doc, vec![Attribute { name: name("later"), args: vec![] }]);
    assert!(map.contains_key(AttributeKind::Doc));
    assert!(map.contains_key(AttributeKind::Test));
    assert!(!map.contains_key(AttributeKind::Storage));
    assert_eq!(map.get(AttributeKind::Doc).map(|a| a[0].name.name.as_str()), Some("later"));
    assert_eq!(map.get(AttributeKind::Test).map(|a| a.len()), Some(0));
    assert!(map.get(AttributeKind::Inline).is_none());
}

#[test]
fn attribute_maps_compare_by_what_they_give_for_each_kind() {
    let doc = |text: &str, arg: &str| Attribute { name: name(text), args: vec![name(arg)] };
    let mut a = AttributesMap::new();
    a.insert(AttributeKind::Doc, vec![doc("doc", "x")]);
    a.insert(AttributeKind::Test, vec![]);
    let mut b = AttributesMap::new();
    b.insert(AttributeKind::Test, vec![]);
    b.insert(AttributeKind::Doc, vec![doc("doc", "x")]);
    let mut c = AttributesMap::new();
    c.insert(AttributeKind::Doc, vec![doc("doc", "y")]);
    c.insert(AttributeKind::Test, vec![]);
    assert!(a.same(&b));
    assert!(!a.same(&c));
    assert!(!a.same(&AttributesMap::new()));
    assert!(AttributesMap::new().same(&AttributesMap::new()));
    assert!(a.same_kind(&c, AttributeKind::Test));
    assert!(!a.same_kind(&c, AttributeKind::Doc));
    assert!(doc("doc", "x").same(&doc("doc", "x")));
    assert!(!doc("doc", "x").same(&doc("dok", "x")));
    assert!(same_attributes(&vec![doc("a", "b")], &vec![doc("a", "b")]));
    assert!(!same_attributes(&vec![doc("a", "b")], &vec![]));
}

#[test]
fn the_hash_state_records_what_is_written() {
    let mut state = HashState::new();
    state.write_u8(7);
    state.write_u64(1 << 40);
    state.write_str("ab");
    state.write_str("");
    assert_eq!(state.words, vec![7, 1 << 40, 2, 97, 98, 0]);
}

#[test]
fn visibility_is_public_or_private() {
    assert!(Visibility::Public.is_public());
    assert!(!Visibility::Private.is_public());
}

#[test]
fn transaction_parts_hold_their_fields() {
    let gas = Gas { price: 3, limit: 1000 };
    let maturity = Maturity { field: 12 };
    let pointer = TxPointer { block_height: 5, tx_ix: 2 };
    let predicate = Predicate { bytecode: String::from("p.bin"), data: String::from("p.dat") };
    assert_eq!((gas.price, gas.limit), (3, 1000));
    assert_eq!(maturity.field, 12);
    assert_eq!((pointer.block_height, pointer.tx_ix), (5, 2));
    assert_eq!(pointer, TxPointer { block_height: 5, tx_ix: 2 });
    assert_eq!(predicate.bytecode, "p.bin");
    assert_eq!(predicate.data, "p.dat");
}

#[test]
fn internal_errors_are_told_apart() {
    let span = Span::new(0, 1, 0);
    assert!(CompileError::DeclNotFound { span }.is_internal());
    assert!(CompileError::DeclKindMismatch { span }.is_internal());
    assert!(CompileError::RecursiveType { span }.is_internal());
    assert!(!CompileError::UnknownType { span }.is_internal());
    assert!(!CompileError::WhereClauseNotYetSupported { span }.is_internal());
}
