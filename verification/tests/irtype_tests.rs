use sway_engines::irtype::Constant;
use sway_engines::irtype::ConstantValue;
use sway_engines::irtype::Context;
use sway_engines::irtype::Type;
use sway_engines::irtype::TypeContent;
use sway_engines::irtype::Value;

fn index(context: &mut Context, value: u64) -> Value {
    let ty = Type::get_uint(context, 64);
    Value::Constant(Constant { ty, value: ConstantValue::Uint(value) })
}

#[test]
fn interning_returns_one_handle() {
    let mut context = Context::new();
    let a = Type::get_uint(&mut context, 64);
    let b = Type::get_uint(&mut context, 64);
    assert_eq!(a, b);
    assert_eq!(context.len(), 1);
    assert!(matches!(a.get_content(&context), TypeContent::Uint(64)));
}

#[test]
fn different_contents_get_different_handles() {
    let mut context = Context::new();
    let a = Type::get_uint(&mut context, 64);
    let b = Type::get_uint(&mut context, 8);
    let c = Type::get_bool(&mut context);
    assert_ne!(a, b);
    assert_ne!(a, c);
    assert_ne!(b, c);
    assert_eq!(context.len(), 3);
    assert!(context.contains(a));
    assert!(context.contains(c));
}

#[test]
fn interning_a_struct_twice_returns_one_handle() {
    let mut context = Context::new();
    let u64_ty = Type::get_uint(&mut context, 64);
    let point = Type::get_struct(&mut context, vec![u64_ty, u64_ty]);
    let again = Type::get_struct(&mut context, vec![u64_ty, u64_ty]);
    assert_eq!(point, again);
    assert_eq!(context.len(), 2);
}

#[test]
fn a_struct_and_a_union_of_the_same_members_differ() {
    let mut context = Context::new();
    let u64_ty = Type::get_uint(&mut context, 64);
    let s = Type::get_struct(&mut context, vec![u64_ty]);
    let u = Type::get_union(&mut context, vec![u64_ty]);
    assert_ne!(s, u);
    assert!(s.is_struct(&context));
    assert!(u.is_union(&context));
}

#[test]
fn copy_types_are_unit_bool_uint_and_pointer() {
    let mut context = Context::new();
    let unit = Type::get_unit(&mut context);
    let boolean = Type::get_bool(&mut context);
    let u64_ty = Type::get_uint(&mut context, 64);
    let b256 = Type::get_b256(&mut context);
    let string = Type::get_string(&mut context, 4);
    let array = Type::get_array(&mut context, u64_ty, 3);
    let point = Type::get_struct(&mut context, vec![u64_ty, u64_ty]);
    let union_ty = Type::get_union(&mut context, vec![u64_ty, boolean]);
    let pointer = Type::get_pointer(&mut context, point);
    assert!(unit.is_copy_type(&context));
    assert!(boolean.is_copy_type(&context));
    assert!(u64_ty.is_copy_type(&context));
    assert!(pointer.is_copy_type(&context));
    assert!(!b256.is_copy_type(&context));
    assert!(!string.is_copy_type(&context));
    assert!(!array.is_copy_type(&context));
    assert!(!point.is_copy_type(&context));
    assert!(!union_ty.is_copy_type(&context));
}

#[test]
fn aggregates_are_arrays_structs_and_unions() {
    let mut context = Context::new();
    let u64_ty = Type::get_uint(&mut context, 64);
    let array = Type::get_array(&mut context, u64_ty, 3);
    let point = Type::get_struct(&mut context, vec![u64_ty, u64_ty]);
    let union_ty = Type::get_union(&mut context, vec![u64_ty]);
    let pointer = Type::get_pointer(&mut context, point);
    assert!(array.is_aggregate(&context));
    assert!(point.is_aggregate(&context));
    assert!(union_ty.is_aggregate(&context));
    assert!(!u64_ty.is_aggregate(&context));
    assert!(!pointer.is_aggregate(&context));
}

#[test]
fn kind_predicates_tell_the_kinds_apart() {
    let mut context = Context::new();
    let unit = Type::get_unit(&mut context);
    let boolean = Type::get_bool(&mut context);
    let u8_ty = Type::get_uint(&mut context, 8);
    let b256 = Type::get_b256(&mut context);
    let string = Type::get_string(&mut context, 7);
    let array = Type::get_array(&mut context, u8_ty, 40);
    let pointer = Type::get_pointer(&mut context, u8_ty);
    assert!(unit.is_unit(&context) && !boolean.is_unit(&context));
    assert!(boolean.is_bool(&context) && !unit.is_bool(&context));
    assert!(u8_ty.is_uint(&context) && !b256.is_uint(&context));
    assert!(u8_ty.is_uint_of(&context, 8));
    assert!(!u8_ty.is_uint_of(&context, 64));
    assert!(!boolean.is_uint_of(&context, 8));
    assert!(b256.is_b256(&context) && !u8_ty.is_b256(&context));
    assert!(string.is_string(&context) && !array.is_string(&context));
    assert!(array.is_array(&context) && !string.is_array(&context));
    assert!(pointer.is_ptr_type(&context) && !array.is_ptr_type(&context));
    assert_eq!(array.get_array_len(&context), Some(40));
    assert_eq!(array.get_array_elem_type(&context), Some(u8_ty));
    assert_eq!(u8_ty.get_array_len(&context), None);
    assert_eq!(u8_ty.get_array_elem_type(&context), None);
}

#[test]
fn stripping_a_pointer_gives_the_pointee() {
    let mut context = Context::new();
    let u64_ty = Type::get_uint(&mut context, 64);
    let pointer = Type::get_pointer(&mut context, u64_ty);
    assert_eq!(pointer.get_inner_ptr_type(&context), Some(u64_ty));
    assert_eq!(u64_ty.get_inner_ptr_type(&context), None);
    assert_eq!(pointer.strip_ptr_type(&context), u64_ty);
    assert_eq!(u64_ty.strip_ptr_type(&context), u64_ty);
}

#[test]
fn types_print_as_documented() {
    let mut context = Context::new();
    let unit = Type::get_unit(&mut context);
    let boolean = Type::get_bool(&mut context);
    let u8_ty = Type::get_uint(&mut context, 8);
    let u64_ty = Type::get_uint(&mut context, 64);
    let b256 = Type::get_b256(&mut context);
    let string = Type::get_string(&mut context, 12);
    let array = Type::get_array(&mut context, u8_ty, 40);
    let record = Type::get_struct(&mut context, vec![u64_ty, boolean]);
    let union_ty = Type::get_union(&mut context, vec![u64_ty, boolean]);
    let pointer = Type::get_pointer(&mut context, u64_ty);
    let empty_struct = Type::get_struct(&mut context, vec![]);
    let empty_union = Type::get_union(&mut context, vec![]);
    let single = Type::get_struct(&mut context, vec![b256]);
    assert_eq!(unit.as_string(&context), "()");
    assert_eq!(boolean.as_string(&context), "bool");
    assert_eq!(u8_ty.as_string(&context), "u8");
    assert_eq!(u64_ty.as_string(&context), "u64");
    assert_eq!(b256.as_string(&context), "b256");
    assert_eq!(string.as_string(&context), "string<12>");
    assert_eq!(array.as_string(&context), "[u8; 40]");
    assert_eq!(record.as_string(&context), "{ u64, bool }");
    assert_eq!(union_ty.as_string(&context), "( u64 | bool )");
    assert_eq!(pointer.as_string(&context), "ptr u64");
    assert_eq!(empty_struct.as_string(&context), "{  }");
    assert_eq!(empty_union.as_string(&context), "(  )");
    assert_eq!(single.as_string(&context), "{ b256 }");
}

#[test]
fn nested_types_print_their_members() {
    let mut context = Context::new();
    let u64_ty = Type::get_uint(&mut context, 64);
    let boolean = Type::get_bool(&mut context);
    let inner = Type::get_struct(&mut context, vec![u64_ty, boolean]);
    let array = Type::get_array(&mut context, inner, 2);
    let union_ty = Type::get_union(&mut context, vec![array, u64_ty]);
    let pointer = Type::get_pointer(&mut context, union_ty);
    assert_eq!(pointer.as_string(&context), "ptr ( [{ u64, bool }; 2] | u64 )");
}

#[test]
fn a_union_equals_each_member_in_both_orders() {
    let mut context = Context::new();
    let a = Type::get_uint(&mut context, 64);
    let b = Type::get_bool(&mut context);
    let c = Type::get_b256(&mut context);
    let u = Type::get_union(&mut context, vec![a, b]);
    assert!(u.eq(&context, &a));
    assert!(u.eq(&context, &b));
    assert!(!u.eq(&context, &c));
    assert!(a.eq(&context, &u));
    assert!(b.eq(&context, &u));
    assert!(!c.eq(&context, &u));
}

#[test]
fn equality_is_structural_for_other_types() {
    let mut context = Context::new();
    let u64_ty = Type::get_uint(&mut context, 64);
    let u8_ty = Type::get_uint(&mut context, 8);
    let a3 = Type::get_array(&mut context, u64_ty, 3);
    let a4 = Type::get_array(&mut context, u64_ty, 4);
    let b3 = Type::get_array(&mut context, u8_ty, 3);
    let s1 = Type::get_struct(&mut context, vec![u64_ty, u8_ty]);
    let s2 = Type::get_struct(&mut context, vec![u64_ty]);
    let to_u64 = Type::get_pointer(&mut context, u64_ty);
    let to_u8 = Type::get_pointer(&mut context, u8_ty);
    assert!(u64_ty.eq(&context, &u64_ty));
    assert!(!u64_ty.eq(&context, &u8_ty));
    assert!(a3.eq(&context, &a3));
    assert!(!a3.eq(&context, &a4));
    assert!(!a3.eq(&context, &b3));
    assert!(s1.eq(&context, &s1));
    assert!(!s1.eq(&context, &s2));
    assert!(to_u64.eq(&context, &to_u64));
    assert!(!to_u64.eq(&context, &to_u8));
    assert!(!to_u64.eq(&context, &u64_ty));
}

#[test]
fn a_union_member_makes_aggregates_equal() {
    let mut context = Context::new();
    let u64_ty = Type::get_uint(&mut context, 64);
    let boolean = Type::get_bool(&mut context);
    let u = Type::get_union(&mut context, vec![u64_ty, boolean]);
    let with_union = Type::get_struct(&mut context, vec![u, u64_ty]);
    let with_bool = Type::get_struct(&mut context, vec![boolean, u64_ty]);
    let with_b256 = {
        let b256 = Type::get_b256(&mut context);
        Type::get_struct(&mut context, vec![b256, u64_ty])
    };
    assert!(with_union.eq(&context, &with_bool));
    assert!(with_bool.eq(&context, &with_union));
    assert!(!with_union.eq(&context, &with_b256));
}

#[test]
fn unions_of_different_sizes_are_not_equal() {
    let mut context = Context::new();
    let u64_ty = Type::get_uint(&mut context, 64);
    let boolean = Type::get_bool(&mut context);
    let inner = Type::get_union(&mut context, vec![u64_ty, boolean]);
    let other = Type::get_b256(&mut context);
    let outer = Type::get_union(&mut context, vec![inner, other, u64_ty]);
    assert!(!outer.eq(&context, &inner));
    assert!(!inner.eq(&context, &outer));
    assert!(outer.eq(&context, &u64_ty));
    assert!(outer.eq(&context, &boolean));
}

#[test]
fn indexed_access_boundary() {
    let mut context = Context::new();
    let u64_ty = Type::get_uint(&mut context, 64);
    let boolean = Type::get_bool(&mut context);
    let record = Type::get_struct(&mut context, vec![u64_ty, boolean]);
    let zero = index(&mut context, 0);
    let one = index(&mut context, 1);
    let five = index(&mut context, 5);
    assert_eq!(record.get_indexed_type(&context, &[zero, five]), None);
    assert_eq!(record.get_indexed_type(&context, &[zero, one]), Some(boolean));
    assert_eq!(record.get_indexed_type(&context, &[zero, zero]), Some(u64_ty));
}

#[test]
fn indexed_access_skips_the_first_index_and_strips_the_pointer() {
    let mut context = Context::new();
    let u64_ty = Type::get_uint(&mut context, 64);
    let boolean = Type::get_bool(&mut context);
    let inner = Type::get_struct(&mut context, vec![boolean, u64_ty]);
    let outer = Type::get_struct(&mut context, vec![u64_ty, inner]);
    let pointer = Type::get_pointer(&mut context, outer);
    let zero = index(&mut context, 0);
    let one = index(&mut context, 1);
    let nine = index(&mut context, 9);
    assert_eq!(pointer.get_indexed_type(&context, &[]), Some(pointer));
    assert_eq!(pointer.get_indexed_type(&context, &[nine]), Some(outer));
    assert_eq!(pointer.get_indexed_type(&context, &[nine, one]), Some(inner));
    assert_eq!(pointer.get_indexed_type(&context, &[nine, one, zero]), Some(boolean));
    assert_eq!(pointer.get_indexed_type(&context, &[nine, one, zero, zero]), None);
}

#[test]
fn indexed_access_falls_back_to_the_array_element() {
    let mut context = Context::new();
    let u64_ty = Type::get_uint(&mut context, 64);
    let array = Type::get_array(&mut context, u64_ty, 3);
    let zero = index(&mut context, 0);
    let argument = Value::Argument(u64_ty);
    assert_eq!(array.get_indexed_type(&context, &[zero, zero]), Some(u64_ty));
    assert_eq!(array.get_indexed_type(&context, &[zero, argument]), Some(u64_ty));
    assert_eq!(u64_ty.get_indexed_type(&context, &[zero, zero]), None);
}

#[test]
fn field_type_needs_a_constant_u64_index() {
    let mut context = Context::new();
    let u64_ty = Type::get_uint(&mut context, 64);
    let u8_ty = Type::get_uint(&mut context, 8);
    let boolean = Type::get_bool(&mut context);
    let record = Type::get_struct(&mut context, vec![u64_ty, boolean]);
    let union_ty = Type::get_union(&mut context, vec![boolean, u64_ty]);
    let one = index(&mut context, 1);
    let narrow = Value::Constant(Constant { ty: u8_ty, value: ConstantValue::Uint(1) });
    let not_a_number = Value::Constant(Constant { ty: u64_ty, value: ConstantValue::Bool(true) });
    assert_eq!(record.get_field_type(&context, one), Some(boolean));
    assert_eq!(union_ty.get_field_type(&context, one), Some(u64_ty));
    assert_eq!(record.get_field_type(&context, narrow), None);
    assert_eq!(record.get_field_type(&context, not_a_number), None);
    assert_eq!(record.get_field_type(&context, Value::Argument(u64_ty)), None);
    assert_eq!(u64_ty.get_field_type(&context, one), None);
    let huge = index(&mut context, u64::MAX);
    assert_eq!(record.get_field_type(&context, huge), None);
}

#[test]
fn find_sees_only_interned_contents() {
    let mut context = Context::new();
    let u64_ty = Type::get_uint(&mut context, 64);
    assert_eq!(context.find(&TypeContent::Uint(64)), Some(u64_ty));
    assert_eq!(context.find(&TypeContent::Uint(8)), None);
    assert_eq!(context.find(&TypeContent::Array(u64_ty, 2)), None);
    assert!(TypeContent::Struct(vec![u64_ty]).same_shape(&TypeContent::Struct(vec![u64_ty])));
    assert!(!TypeContent::Struct(vec![u64_ty]).same_shape(&TypeContent::Union(vec![u64_ty])));
}

#[test]
fn a_constant_is_found_in_a_value() {
    let mut context = Context::new();
    let u64_ty = Type::get_uint(&mut context, 64);
    let constant = Constant { ty: u64_ty, value: ConstantValue::Uint(3) };
    assert_eq!(Value::Constant(constant).get_constant(), Some(constant));
    assert_eq!(Value::Argument(u64_ty).get_constant(), None);
}

#[test]
fn end_to_end_point_and_union() {
    let mut context = Context::new();
    let u64_ty = Type::get_uint(&mut context, 64);
    let boolean = Type::get_bool(&mut context);
    let point = Type::get_struct(&mut context, vec![u64_ty, u64_ty]);
    let again = Type::get_struct(&mut context, vec![u64_ty, u64_ty]);
    assert_eq!(point, again);
    assert!(point.is_aggregate(&context));
    assert!(!point.is_copy_type(&context));
    let either = Type::get_union(&mut context, vec![point, u64_ty]);
    assert!(either.eq(&context, &point));
    assert!(either.eq(&context, &u64_ty));
    assert!(!either.eq(&context, &boolean));
    assert_eq!(either.as_string(&context), "( { u64, u64 } | u64 )");
}
