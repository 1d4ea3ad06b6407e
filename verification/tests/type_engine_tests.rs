use sway_engines::language::HashState;
use sway_engines::type_engine::IndexOperand;
use sway_engines::type_engine::TypeEngine;
use sway_engines::type_engine::TypeId;
use sway_engines::type_engine::TypeInfo;

fn u64_index(engine: &mut TypeEngine, value: u64) -> IndexOperand {
    let ty = engine.insert_type(TypeInfo::UnsignedInteger(64));
    IndexOperand::Constant { ty, value }
}

#[test]
fn insert_is_idempotent() {
    let mut engine = TypeEngine::new();
    let a = engine.insert_type(TypeInfo::UnsignedInteger(64));
    let b = engine.insert_type(TypeInfo::UnsignedInteger(64));
    assert_eq!(a, b);
    assert_eq!(engine.len(), 1);
    assert!(engine.get(a).same_form(&TypeInfo::UnsignedInteger(64)));
}

#[test]
fn handles_are_positions() {
    let mut engine = TypeEngine::new();
    let a = engine.insert_type(TypeInfo::Boolean);
    let b = engine.insert_type(TypeInfo::B256);
    let c = engine.insert_type(TypeInfo::Boolean);
    assert_eq!(a, TypeId(0));
    assert_eq!(b, TypeId(1));
    assert_eq!(c, TypeId(0));
    assert!(engine.contains(TypeId(1)));
    assert!(!engine.contains(TypeId(2)));
}

#[test]
fn placeholders_with_different_numbers_differ() {
    let mut engine = TypeEngine::new();
    let a = engine.insert_type(TypeInfo::Unknown(0));
    let b = engine.insert_type(TypeInfo::Unknown(1));
    let c = engine.insert_type(TypeInfo::Unknown(0));
    assert_ne!(a, b);
    assert_eq!(a, c);
}

#[test]
fn structs_with_different_names_differ() {
    let mut engine = TypeEngine::new();
    let u = engine.insert_type(TypeInfo::UnsignedInteger(64));
    let point = engine.insert_type(TypeInfo::Struct(String::from("Point"), vec![u, u]));
    let size = engine.insert_type(TypeInfo::Struct(String::from("Size"), vec![u, u]));
    let again = engine.insert_type(TypeInfo::Struct(String::from("Point"), vec![u, u]));
    assert_ne!(point, size);
    assert_eq!(point, again);
    assert_eq!(engine.find(&TypeInfo::Struct(String::from("Size"), vec![u, u])), Some(size));
    assert_eq!(engine.find(&TypeInfo::Struct(String::from("Size"), vec![u])), None);
}

#[test]
fn derived_queries() {
    let mut engine = TypeEngine::new();
    let unit = engine.insert_type(TypeInfo::Tuple(vec![]));
    let boolean = engine.insert_type(TypeInfo::Boolean);
    let u = engine.insert_type(TypeInfo::UnsignedInteger(64));
    let pair = engine.insert_type(TypeInfo::Tuple(vec![u, boolean]));
    let array = engine.insert_type(TypeInfo::Array(u, 3));
    let point = engine.insert_type(TypeInfo::Struct(String::from("Point"), vec![u, u]));
    let sum = engine.insert_type(TypeInfo::Sum(vec![point, u]));
    let pointer = engine.insert_type(TypeInfo::Pointer(point));
    let b256 = engine.insert_type(TypeInfo::B256);
    assert!(engine.is_unit(unit));
    assert!(!engine.is_unit(pair));
    assert!(!engine.is_unit(boolean));
    assert!(engine.is_copy_type(unit));
    assert!(engine.is_copy_type(boolean));
    assert!(engine.is_copy_type(u));
    assert!(engine.is_copy_type(pointer));
    assert!(!engine.is_copy_type(point));
    assert!(!engine.is_copy_type(b256));
    assert!(!engine.is_copy_type(pair));
    assert!(engine.is_aggregate(point));
    assert!(engine.is_aggregate(array));
    assert!(engine.is_aggregate(sum));
    assert!(engine.is_aggregate(pair));
    assert!(!engine.is_aggregate(unit));
    assert!(!engine.is_aggregate(pointer));
    assert_eq!(engine.strip_pointer(pointer), point);
    assert_eq!(engine.strip_pointer(point), point);
    assert_eq!(engine.array_element_type(array), Some(u));
    assert_eq!(engine.array_element_type(point), None);
    assert_eq!(engine.field_type_at_index(pair, 1), Some(boolean));
    assert_eq!(engine.field_type_at_index(pair, 2), None);
    assert_eq!(engine.field_type_at_index(sum, 0), Some(point));
    assert_eq!(engine.field_type_at_index(u, 0), None);
}

#[test]
fn sum_type_equivalence() {
    let mut engine = TypeEngine::new();
    let a = engine.insert_type(TypeInfo::UnsignedInteger(64));
    let b = engine.insert_type(TypeInfo::Boolean);
    let c = engine.insert_type(TypeInfo::B256);
    let u = engine.insert_type(TypeInfo::Sum(vec![a, b]));
    assert!(engine.type_eq(u, a));
    assert!(engine.type_eq(u, b));
    assert!(!engine.type_eq(u, c));
    assert!(engine.type_eq(a, u));
    assert!(engine.type_eq(b, u));
    assert!(!engine.type_eq(c, u));
    assert!(engine.type_eq(u, u));
}

#[test]
fn equality_of_leaves_and_aggregates() {
    let mut engine = TypeEngine::new();
    let u = engine.insert_type(TypeInfo::UnsignedInteger(64));
    let t = engine.insert_type(TypeInfo::Unknown(0));
    let named = engine.insert_type(TypeInfo::Custom(String::from("Foo")));
    let first = engine.insert_type(TypeInfo::Struct(String::from("P"), vec![u]));
    let second = engine.insert_type(TypeInfo::Struct(String::from("Q"), vec![u]));
    let t1 = engine.insert_type(TypeInfo::Tuple(vec![u]));
    let a1 = engine.insert_type(TypeInfo::Array(u, 2));
    let a2 = engine.insert_type(TypeInfo::Array(u, 3));
    assert!(engine.type_eq(u, u));
    assert!(engine.type_eq(t, t));
    assert!(engine.type_eq(named, named));
    assert!(!engine.type_eq(t, u));
    assert!(!engine.type_eq(named, u));
    assert!(engine.type_eq(first, first));
    assert!(!engine.type_eq(first, second));
    assert!(!engine.type_eq(first, t1));
    assert!(engine.type_eq(a1, a1));
    assert!(!engine.type_eq(a1, a2));
}

#[test]
fn indexed_type_boundary() {
    let mut engine = TypeEngine::new();
    let u = engine.insert_type(TypeInfo::UnsignedInteger(64));
    let b = engine.insert_type(TypeInfo::Boolean);
    let record = engine.insert_type(TypeInfo::Struct(String::from("R"), vec![u, b]));
    let zero = u64_index(&mut engine, 0);
    let one = u64_index(&mut engine, 1);
    let five = u64_index(&mut engine, 5);
    assert_eq!(engine.indexed_type(record, &[zero, five]), None);
    assert_eq!(engine.indexed_type(record, &[zero, one]), Some(b));
    assert_eq!(engine.indexed_type(record, &[]), Some(record));
    assert_eq!(engine.indexed_type(record, &[five]), Some(record));
    assert_eq!(engine.indexed_type(record, &[zero, IndexOperand::Dynamic]), None);
}

#[test]
fn indexed_type_through_pointer_and_array() {
    let mut engine = TypeEngine::new();
    let u = engine.insert_type(TypeInfo::UnsignedInteger(64));
    let b = engine.insert_type(TypeInfo::Boolean);
    let u8_ty = engine.insert_type(TypeInfo::UnsignedInteger(8));
    let pair = engine.insert_type(TypeInfo::Tuple(vec![b, u]));
    let array = engine.insert_type(TypeInfo::Array(pair, 4));
    let pointer = engine.insert_type(TypeInfo::Pointer(array));
    let zero = u64_index(&mut engine, 0);
    let one = u64_index(&mut engine, 1);
    let narrow = IndexOperand::Constant { ty: u8_ty, value: 1 };
    assert_eq!(engine.indexed_type(pointer, &[zero, IndexOperand::Dynamic]), Some(pair));
    assert_eq!(engine.indexed_type(pointer, &[zero, IndexOperand::Dynamic, one]), Some(u));
    assert_eq!(engine.indexed_type(pointer, &[zero, zero, narrow]), None);
}

#[test]
fn types_are_shown_as_text() {
    let mut engine = TypeEngine::new();
    let u = engine.insert_type(TypeInfo::UnsignedInteger(64));
    let u8_ty = engine.insert_type(TypeInfo::UnsignedInteger(8));
    let b = engine.insert_type(TypeInfo::Boolean);
    let unit = engine.insert_type(TypeInfo::Tuple(vec![]));
    let pair = engine.insert_type(TypeInfo::Tuple(vec![u, b]));
    let array = engine.insert_type(TypeInfo::Array(u8_ty, 40));
    let record = engine.insert_type(TypeInfo::Struct(String::from("R"), vec![u, b]));
    let sum = engine.insert_type(TypeInfo::Sum(vec![record, u]));
    let pointer = engine.insert_type(TypeInfo::Pointer(u));
    let placeholder = engine.insert_type(TypeInfo::Unknown(12));
    let named = engine.insert_type(TypeInfo::Custom(String::from("Foo")));
    let self_type = engine.insert_type(TypeInfo::SelfType(1));
    let b256 = engine.insert_type(TypeInfo::B256);
    let string = engine.insert_type(TypeInfo::Str(5));
    let recovery = engine.insert_type(TypeInfo::ErrorRecovery);
    assert_eq!(engine.type_text(u), "u64");
    assert_eq!(engine.type_text(b), "bool");
    assert_eq!(engine.type_text(unit), "()");
    assert_eq!(engine.type_text(pair), "(u64, bool)");
    assert_eq!(engine.type_text(array), "[u8; 40]");
    assert_eq!(engine.type_text(record), "{ u64, bool }");
    assert_eq!(engine.type_text(sum), "( { u64, bool } | u64 )");
    assert_eq!(engine.type_text(pointer), "ptr u64");
    assert_eq!(engine.type_text(placeholder), "?12");
    assert_eq!(engine.type_text(named), "Foo");
    assert_eq!(engine.type_text(self_type), "Self");
    assert_eq!(engine.type_text(b256), "b256");
    assert_eq!(engine.type_text(string), "str[5]");
    assert_eq!(engine.type_text(recovery), "unknown due to error");
}

#[test]
fn equal_contents_hash_to_the_same_words() {
    let u = TypeId(3);
    let a = TypeInfo::Struct(String::from("P"), vec![u, u]);
    let b = TypeInfo::Struct(String::from("P"), vec![u, u]);
    let c = TypeInfo::Struct(String::from("Q"), vec![u, u]);
    let mut ha = HashState::new();
    let mut hb = HashState::new();
    let mut hc = HashState::new();
    a.hash(&mut ha);
    b.hash(&mut hb);
    c.hash(&mut hc);
    assert_eq!(ha.words, hb.words);
    assert_ne!(ha.words, hc.words);
    assert_eq!(ha.words, vec![10, 1, 80, 2, 3, 3]);
    let mut hu = HashState::new();
    TypeInfo::UnsignedInteger(64).hash(&mut hu);
    assert_eq!(hu.words, vec![4, 64]);
    assert!(a.copy().same_form(&a));
    assert!(!a.same_form(&c));
}
