//! The types of the intermediate representation.
//!
//! Every type lives in the [`Context`] and is named by a [`Type`] handle.
//! Contents are interned: asking twice for the same content gives the same
//! handle.  A [`TypeContent::Union`] is a sum type whose members share one
//! storage; it is equivalent to each of its members.

use crate::text::decimal;
use crate::text::push_decimal;
use generational_arena::Arena;
use generational_arena::Index;
use vstd::prelude::*;

verus! {

/// `generational_arena::Arena`: the arena that stores the contents of the
/// types.
#[verifier::external_type_specification]
#[verifier::external_body]
#[verifier::reject_recursive_types(T)]
pub struct ExArena<T>(Arena<T>);

/// A handle to a type of a [`Context`]: the slot and the generation that the
/// arena gave to its content.
#[derive(Clone, Copy, Debug, PartialEq, Eq, Hash, Structural)]
pub struct Type {
    pub index: usize,
    pub generation: u64,
}

/// What a type is. Members are named by handle, never held by value.
#[derive(Clone, Debug, PartialEq, Eq, Hash)]
pub enum TypeContent {
    Unit,
    Bool,
    Uint(u8),
    B256,
    String(u64),
    Array(Type, u64),
    Union(Vec<Type>),
    Struct(Vec<Type>),
    Pointer(Type),
}

/// The mathematical value of a [`TypeContent`].
pub enum TypeShape {
    Unit,
    Bool,
    Uint(u8),
    B256,
    String(u64),
    Array(Type, u64),
    Union(Seq<Type>),
    Struct(Seq<Type>),
    Pointer(Type),
}

impl View for TypeContent {
    type V = TypeShape;

    open spec fn view(&self) -> TypeShape {
        match *self {
            TypeContent::Unit => TypeShape::Unit,
            TypeContent::Bool => TypeShape::Bool,
            TypeContent::Uint(n) => TypeShape::Uint(n),
            TypeContent::B256 => TypeShape::B256,
            TypeContent::String(n) => TypeShape::String(n),
            TypeContent::Array(t, n) => TypeShape::Array(t, n),
            TypeContent::Union(v) => TypeShape::Union(v@),
            TypeContent::Struct(v) => TypeShape::Struct(v@),
            TypeContent::Pointer(t) => TypeShape::Pointer(t),
        }
    }
}

/// What a `generational_arena::Arena` holds: the content stored under each
/// live handle.
pub uninterp spec fn arena_entries(arena: Arena<TypeContent>) -> Map<Type, TypeContent>;

/// `generational_arena::Arena::new`: a fresh arena holds nothing.
#[verifier::external_body]
fn arena_new() -> (fresh: Arena<TypeContent>)
    ensures
        arena_entries(fresh).dom() == Set::<Type>::empty(),
{
    Arena::new()
}

/// `generational_arena::Arena::insert`: stores `value` under a handle that
/// was not live before and leaves every other entry as it was. The handle
/// is the raw parts of the index that the arena returns.
#[verifier::external_body]
fn arena_insert(arena: &mut Arena<TypeContent>, value: TypeContent) -> (ty: Type)
    ensures
        !arena_entries(*old(arena)).dom().contains(ty),
        arena_entries(*final(arena)) == arena_entries(*old(arena)).insert(ty, value),
{
    let (index, generation) = arena.insert(value).into_raw_parts();
    Type { index, generation }
}

/// `generational_arena::Arena::get`: the content under a handle, if the
/// handle is live. The index is made of the raw parts in the handle.
#[verifier::external_body]
fn arena_get(arena: &Arena<TypeContent>, ty: Type) -> (content: Option<&TypeContent>)
    ensures
        content.is_some() == arena_entries(*arena).dom().contains(ty),
        content matches Some(c) ==> *c == arena_entries(*arena)[ty],
{
    arena.get(Index::from_raw_parts(ty.index, ty.generation))
}

/// The handles that a shape names directly.
pub open spec fn members(shape: TypeShape) -> Seq<Type> {
    match shape {
        TypeShape::Array(t, _) => seq![t],
        TypeShape::Pointer(t) => seq![t],
        TypeShape::Union(v) => v,
        TypeShape::Struct(v) => v,
        _ => Seq::empty(),
    }
}

/// The mathematical state of a [`Context`]: the live handles in the order of
/// their creation, and the shape stored under each.
pub struct ArenaView {
    pub order: Seq<Type>,
    pub shapes: Map<Type, TypeShape>,
}

impl ArenaView {
    /// Whether `t` is a live handle.
    pub open spec fn contains(self, t: Type) -> bool {
        self.shapes.dom().contains(t)
    }

    /// The position of `t` in the order of creation.
    pub open spec fn rank(self, t: Type) -> int {
        self.order.index_of(t)
    }

    /// Whether some live handle has the shape `shape`.
    pub open spec fn has_shape(self, shape: TypeShape) -> bool {
        exists|t: Type| self.contains(t) && #[trigger] self.shapes[t] == shape
    }

    /// Whether every handle that `shape` names is live.
    pub open spec fn closed_under(self, shape: TypeShape) -> bool {
        forall|k: int|
            0 <= k < members(shape).len() ==> self.contains(#[trigger] members(shape)[k])
    }

    /// The state after a new handle `t` was created for `shape`.
    pub open spec fn extended(self, t: Type, shape: TypeShape) -> ArenaView {
        ArenaView { order: self.order.push(t), shapes: self.shapes.insert(t, shape) }
    }

    /// The invariant of an interning arena: each live handle was created
    /// once, a shape names only handles that were created before it, and no
    /// two handles have the same shape.
    pub open spec fn wf(self) -> bool {
        &&& self.order.no_duplicates()
        &&& forall|t: Type|
            #![trigger self.shapes.dom().contains(t)]
            #![trigger self.order.contains(t)]
            self.shapes.dom().contains(t) <==> self.order.contains(t)
        &&& forall|t: Type, k: int|
            self.contains(t) && 0 <= k < members(self.shapes[t]).len() ==> {
                let m = #[trigger] members(self.shapes[t])[k];
                self.contains(m) && self.rank(m) < self.rank(t)
            }
        &&& forall|a: Type, b: Type|
            self.contains(a) && self.contains(b) && #[trigger] self.shapes[a]
                == #[trigger] self.shapes[b] ==> a == b
    }

    /// In a well-formed state the rank of a handle is its one position in
    /// the order.
    pub proof fn lemma_rank(self, i: int)
        requires
            self.order.no_duplicates(),
            0 <= i < self.order.len(),
        ensures
            self.rank(self.order[i]) == i,
    {
        let t = self.order[i];
        let j = self.order.index_of(t);
        assert(0 <= j < self.order.len() && self.order[j] == t);
    }

    /// A live handle has a rank inside the order.
    pub proof fn lemma_rank_in_range(self, t: Type)
        requires
            self.wf(),
            self.contains(t),
        ensures
            0 <= self.rank(t) < self.order.len(),
            self.order[self.rank(t)] == t,
    {
        assert(self.order.contains(t));
    }

    /// Creating a handle for a new shape whose members are live keeps the
    /// invariant.
    pub proof fn lemma_extended_wf(self, t: Type, shape: TypeShape)
        requires
            self.wf(),
            !self.contains(t),
            !self.has_shape(shape),
            self.closed_under(shape),
        ensures
            self.extended(t, shape).wf(),
            forall|u: Type| self.contains(u) ==> self.extended(t, shape).rank(u) == self.rank(u),
            self.extended(t, shape).rank(t) == self.order.len(),
    {
        let next = self.extended(t, shape);
        assert(!self.order.contains(t));
        assert(next.order.no_duplicates());
        assert forall|u: Type| self.contains(u) implies next.rank(u) == self.rank(u) by {
            self.lemma_rank_in_range(u);
            assert(next.order[self.rank(u)] == u);
            next.lemma_rank(self.rank(u));
        }
        assert(next.order[self.order.len() as int] == t);
        next.lemma_rank(self.order.len() as int);
        assert forall|u: Type|
            #![trigger next.shapes.dom().contains(u)]
            #![trigger next.order.contains(u)]
            next.shapes.dom().contains(u) <==> next.order.contains(u) by {
            if next.shapes.dom().contains(u) {
                if u == t {
                    assert(next.order[self.order.len() as int] == u);
                } else {
                    assert(self.order.contains(u));
                    let i = self.order.index_of(u);
                    assert(next.order[i] == u);
                }
            }
            if next.order.contains(u) {
                let i = next.order.index_of(u);
                if i < self.order.len() {
                    assert(self.order[i] == u);
                    assert(self.order.contains(u));
                }
            }
        }
        assert forall|u: Type, k: int|
            next.contains(u) && 0 <= k < members(next.shapes[u]).len() implies ({
            let m = #[trigger] members(next.shapes[u])[k];
            next.contains(m) && next.rank(m) < next.rank(u)
        }) by {
            let m = members(next.shapes[u])[k];
            if u == t {
                assert(self.contains(m));
                self.lemma_rank_in_range(m);
            } else {
                assert(self.contains(u));
                let m0 = members(self.shapes[u])[k];
                assert(self.contains(m0));
            }
        }
        assert forall|a: Type, b: Type|
            next.contains(a) && next.contains(b) && #[trigger] next.shapes[a]
                == #[trigger] next.shapes[b] implies a == b by {
            if a == t && b != t {
                assert(self.shapes[b] == shape);
            }
            if b == t && a != t {
                assert(self.shapes[a] == shape);
            }
        }
    }
}

impl ArenaView {
    /// Whether interning `shape` in this state can give the handle `t` and
    /// the state `next`: the handle that has the shape and the same state,
    /// or else a new handle and the state extended by it.
    pub open spec fn interns(self, shape: TypeShape, next: ArenaView, t: Type) -> bool {
        if self.has_shape(shape) {
            next == self && self.contains(t) && self.shapes[t] == shape
        } else {
            !self.contains(t) && next == self.extended(t, shape)
        }
    }

    /// Interning is idempotent: interning a shape again gives the same
    /// handle and changes nothing, and the handle holds the shape.
    pub proof fn lemma_interning_idempotent(
        self,
        shape: TypeShape,
        first: ArenaView,
        t1: Type,
        second: ArenaView,
        t2: Type,
    )
        requires
            self.wf(),
            self.closed_under(shape),
            self.interns(shape, first, t1),
            first.interns(shape, second, t2),
        ensures
            t1 == t2,
            second == first,
            first.contains(t1),
            first.shapes[t1] == shape,
    {
        if !self.has_shape(shape) {
            self.lemma_extended_wf(t1, shape);
        }
        assert(first.contains(t1) && first.shapes[t1] == shape);
        assert(first.has_shape(shape));
    }
}

/// Where the types of a program live.
pub struct Context {
    types: Arena<TypeContent>,
    order: Vec<Type>,
}

impl View for Context {
    type V = ArenaView;

    closed spec fn view(&self) -> ArenaView {
        ArenaView {
            order: self.order@,
            shapes: arena_entries(self.types).map_values(|c: TypeContent| c@),
        }
    }
}

/// Whether two vectors hold the same handles in the same order.
fn same_handles(a: &Vec<Type>, b: &Vec<Type>) -> (same: bool)
    ensures
        same == (a@ == b@),
{
    if a.len() != b.len() {
        return false;
    }
    let mut i: usize = 0;
    while i < a.len()
        invariant
            a.len() == b.len(),
            0 <= i <= a.len(),
            forall|j: int| 0 <= j < i ==> a@[j] == b@[j],
        decreases a.len() - i,
    {
        if a[i] != b[i] {
            return false;
        }
        i += 1;
    }
    assert(a@ =~= b@);
    true
}

impl TypeContent {
    /// Whether two contents have the same shape.
    pub fn same_shape(&self, other: &TypeContent) -> (same: bool)
        ensures
            same == (self@ == other@),
    {
        match (self, other) {
            (TypeContent::Unit, TypeContent::Unit) => true,
            (TypeContent::Bool, TypeContent::Bool) => true,
            (TypeContent::Uint(l), TypeContent::Uint(r)) => *l == *r,
            (TypeContent::B256, TypeContent::B256) => true,
            (TypeContent::String(l), TypeContent::String(r)) => *l == *r,
            (TypeContent::Array(l, llen), TypeContent::Array(r, rlen)) => *l == *r && *llen
                == *rlen,
            (TypeContent::Union(l), TypeContent::Union(r)) => same_handles(l, r),
            (TypeContent::Struct(l), TypeContent::Struct(r)) => same_handles(l, r),
            (TypeContent::Pointer(l), TypeContent::Pointer(r)) => *l == *r,
            _ => false,
        }
    }
}

impl Context {
    /// The invariant of the context.
    pub open spec fn wf(&self) -> bool {
        self@.wf()
    }

    /// A context without types.
    pub fn new() -> (context: Context)
        ensures
            context.wf(),
            context@.order == Seq::<Type>::empty(),
            forall|t: Type| !context@.contains(t),
    {
        let context = Context { types: arena_new(), order: Vec::new() };
        assert(context@.shapes.dom() =~= Set::<Type>::empty());
        context
    }

    /// Whether `ty` is a handle of this context.
    pub fn contains(&self, ty: Type) -> (live: bool)
        ensures
            live == self@.contains(ty),
    {
        arena_get(&self.types, ty).is_some()
    }

    /// The number of types in the context.
    pub fn len(&self) -> (n: usize)
        ensures
            n == self@.order.len(),
    {
        self.order.len()
    }

    /// The handle that has the shape of `t`, if there is one.
    pub fn find(&self, t: &TypeContent) -> (found: Option<Type>)
        requires
            self.wf(),
        ensures
            found matches Some(ty) ==> self@.contains(ty) && self@.shapes[ty] == t@,
            found is None ==> !self@.has_shape(t@),
    {
        let mut i: usize = 0;
        while i < self.order.len()
            invariant
                self.wf(),
                0 <= i <= self.order.len(),
                forall|j: int| 0 <= j < i ==> self@.shapes[self.order@[j]] != t@,
            decreases self.order.len() - i,
        {
            let ty = self.order[i];
            assert(self@.order.contains(ty));
            match arena_get(&self.types, ty) {
                Some(content) => {
                    if content.same_shape(t) {
                        return Some(ty);
                    }
                },
                None => {},
            }
            i += 1;
        }
        proof {
            assert forall|ty: Type| self@.contains(ty) implies #[trigger] self@.shapes[ty]
                != t@ by {
                self@.lemma_rank_in_range(ty);
            }
        }
        None
    }
}

impl Type {
    /// The handle of the type with the content `t`: the one that the context
    /// already holds for this shape, or else a new one.
    pub fn get_or_create_unique_type(context: &mut Context, t: TypeContent) -> (ty: Type)
        requires
            old(context).wf(),
            old(context)@.closed_under(t@),
        ensures
            final(context).wf(),
            final(context)@.contains(ty),
            final(context)@.shapes[ty] == t@,
            old(context)@.interns(t@, final(context)@, ty),
    {
        match context.find(&t) {
            Some(ty) => ty,
            None => {
                let ghost before = context@;
                let ghost shape = t@;
                let ty = arena_insert(&mut context.types, t);
                context.order.push(ty);
                proof {
                    assert(context@.shapes =~= before.shapes.insert(ty, shape));
                    before.lemma_extended_wf(ty, shape);
                }
                ty
            },
        }
    }
}

/// The value of a constant.
#[derive(Clone, Copy, Debug, PartialEq, Eq, Structural)]
pub enum ConstantValue {
    Undef,
    Unit,
    Bool(bool),
    Uint(u64),
}

/// A constant with its type.
#[derive(Clone, Copy, Debug, PartialEq, Eq, Structural)]
pub struct Constant {
    pub ty: Type,
    pub value: ConstantValue,
}

/// An operand: a constant, or a value that is known only when the program
/// runs.
#[derive(Clone, Copy, Debug, PartialEq, Eq, Structural)]
pub enum Value {
    Argument(Type),
    Constant(Constant),
}

impl Value {
    /// The constant, if the operand is one.
    pub fn get_constant(&self) -> (constant: Option<Constant>)
        ensures
            constant == self.constant(),
    {
        match self {
            Value::Constant(c) => Some(*c),
            Value::Argument(_) => None,
        }
    }

    /// The constant, if the operand is one.
    pub open spec fn constant(&self) -> Option<Constant> {
        match *self {
            Value::Constant(c) => Some(c),
            Value::Argument(_) => None,
        }
    }

}

impl ArenaView {
    /// Whether a value of `t` always fits in one machine word.
    pub open spec fn is_copy(self, t: Type) -> bool {
        match self.shapes[t] {
            TypeShape::Unit | TypeShape::Bool | TypeShape::Uint(_) | TypeShape::Pointer(_) => true,
            _ => false,
        }
    }

    /// Whether `t` is an array, a struct or a union.
    pub open spec fn is_aggregate(self, t: Type) -> bool {
        match self.shapes[t] {
            TypeShape::Union(_) | TypeShape::Struct(_) | TypeShape::Array(_, _) => true,
            _ => false,
        }
    }

    /// The type that `t` points to, if `t` is a pointer.
    pub open spec fn pointee(self, t: Type) -> Option<Type> {
        match self.shapes[t] {
            TypeShape::Pointer(p) => Some(p),
            _ => None,
        }
    }

    /// The pointee of a pointer, any other type itself.
    pub open spec fn stripped(self, t: Type) -> Type {
        match self.pointee(t) {
            Some(p) => p,
            None => t,
        }
    }

    /// The element type of an array.
    pub open spec fn array_elem(self, t: Type) -> Option<Type> {
        match self.shapes[t] {
            TypeShape::Array(e, _) => Some(e),
            _ => None,
        }
    }

    /// The length of an array.
    pub open spec fn array_len(self, t: Type) -> Option<u64> {
        match self.shapes[t] {
            TypeShape::Array(_, n) => Some(n),
            _ => None,
        }
    }

    /// The fields of a struct or the members of a union.
    pub open spec fn fields(self, t: Type) -> Option<Seq<Type>> {
        match self.shapes[t] {
            TypeShape::Struct(agg) => Some(agg),
            TypeShape::Union(agg) => Some(agg),
            _ => None,
        }
    }

    /// The type of the field of `t` that `idx` selects: `t` is a struct or
    /// a union, `idx` a constant of the 64-bit unsigned type, and its value
    /// the position of a field.
    pub open spec fn field_type(self, t: Type, idx: Value) -> Option<Type> {
        match (self.fields(t), idx) {
            (Some(agg), Value::Constant(Constant { ty, value: ConstantValue::Uint(i) })) => {
                if self.shapes[ty] == TypeShape::Uint(64) && i < agg.len() {
                    Some(agg[i as int])
                } else {
                    None
                }
            },
            _ => None,
        }
    }

    /// One step of indexed access: the selected field, or else the element
    /// of an array.
    pub open spec fn index_step(self, t: Type, idx: Value) -> Option<Type> {
        match self.field_type(t, idx) {
            Some(f) => Some(f),
            None => self.array_elem(t),
        }
    }

    /// The type reached from `t` by the steps `indices`, one after another.
    pub open spec fn indexed_from(self, t: Type, indices: Seq<Value>) -> Option<Type>
        decreases indices.len(),
    {
        if indices.len() == 0 {
            Some(t)
        } else {
            match self.index_step(t, indices[0]) {
                Some(next) => self.indexed_from(next, indices.skip(1)),
                None => None,
            }
        }
    }

    /// The type of the value that `indices` address in a value of `t`. The
    /// first index is an offset from the base pointer and selects nothing.
    pub open spec fn indexed_type(self, t: Type, indices: Seq<Value>) -> Option<Type> {
        if indices.len() == 0 {
            Some(t)
        } else {
            self.indexed_from(self.stripped(t), indices.skip(1))
        }
    }

    /// Whether the type of `idx`, if it is a constant, is live.
    pub open spec fn operand_live(self, idx: Value) -> bool {
        idx matches Value::Constant(c) ==> self.contains(c.ty)
    }

    /// Whether the types of the constants in `indices` are live, but for
    /// the first index, which is never looked at.
    pub open spec fn operands_live(self, indices: Seq<Value>) -> bool {
        forall|k: int| 1 <= k < indices.len() ==> self.operand_live(#[trigger] indices[k])
    }

    /// A step from a live handle leads to a live handle.
    pub proof fn lemma_index_step_live(self, t: Type, idx: Value)
        requires
            self.wf(),
            self.contains(t),
        ensures
            self.index_step(t, idx) matches Some(next) ==> self.contains(next),
    {
        match self.index_step(t, idx) {
            Some(next) => {
                match self.field_type(t, idx) {
                    Some(f) => {
                        let agg = self.fields(t).unwrap();
                        let i = choose|i: int| 0 <= i < agg.len() && agg[i] == f;
                        assert(members(self.shapes[t])[i] == f);
                    },
                    None => {
                        assert(members(self.shapes[t])[0] == next);
                    },
                }
            },
            None => {},
        }
    }
}

impl Type {
    /// The content of the type.
    pub fn get_content<'a>(&self, context: &'a Context) -> (content: &'a TypeContent)
        requires
            context@.contains(*self),
        ensures
            content@ == context@.shapes[*self],
    {
        arena_get(&context.types, *self).unwrap()
    }

    /// The unit type.
    pub fn get_unit(context: &mut Context) -> (ty: Type)
        requires
            old(context).wf(),
        ensures
            final(context).wf(),
            final(context)@.contains(ty),
            final(context)@.shapes[ty] == TypeShape::Unit,
            old(context)@.interns(TypeShape::Unit, final(context)@, ty),
    {
        Self::get_or_create_unique_type(context, TypeContent::Unit)
    }

    /// The boolean type.
    pub fn get_bool(context: &mut Context) -> (ty: Type)
        requires
            old(context).wf(),
        ensures
            final(context).wf(),
            final(context)@.contains(ty),
            final(context)@.shapes[ty] == TypeShape::Bool,
            old(context)@.interns(TypeShape::Bool, final(context)@, ty),
    {
        Self::get_or_create_unique_type(context, TypeContent::Bool)
    }

    /// The unsigned integer type of `width` bits.
    pub fn get_uint(context: &mut Context, width: u8) -> (ty: Type)
        requires
            old(context).wf(),
        ensures
            final(context).wf(),
            final(context)@.contains(ty),
            final(context)@.shapes[ty] == TypeShape::Uint(width),
            old(context)@.interns(TypeShape::Uint(width), final(context)@, ty),
    {
        Self::get_or_create_unique_type(context, TypeContent::Uint(width))
    }

    /// The 256-bit hash type.
    pub fn get_b256(context: &mut Context) -> (ty: Type)
        requires
            old(context).wf(),
        ensures
            final(context).wf(),
            final(context)@.contains(ty),
            final(context)@.shapes[ty] == TypeShape::B256,
            old(context)@.interns(TypeShape::B256, final(context)@, ty),
    {
        Self::get_or_create_unique_type(context, TypeContent::B256)
    }

    /// The type of the strings of `len` bytes.
    pub fn get_string(context: &mut Context, len: u64) -> (ty: Type)
        requires
            old(context).wf(),
        ensures
            final(context).wf(),
            final(context)@.contains(ty),
            final(context)@.shapes[ty] == TypeShape::String(len),
            old(context)@.interns(TypeShape::String(len), final(context)@, ty),
    {
        Self::get_or_create_unique_type(context, TypeContent::String(len))
    }

    /// The type of the arrays of `len` elements of `elm_ty`.
    pub fn get_array(context: &mut Context, elm_ty: Type, len: u64) -> (ty: Type)
        requires
            old(context).wf(),
            old(context)@.contains(elm_ty),
        ensures
            final(context).wf(),
            final(context)@.contains(ty),
            final(context)@.shapes[ty] == TypeShape::Array(elm_ty, len),
            old(context)@.interns(TypeShape::Array(elm_ty, len), final(context)@, ty),
    {
        Self::get_or_create_unique_type(context, TypeContent::Array(elm_ty, len))
    }

    /// The union of the types `fields`.
    pub fn get_union(context: &mut Context, fields: Vec<Type>) -> (ty: Type)
        requires
            old(context).wf(),
            forall|k: int| 0 <= k < fields@.len() ==> old(context)@.contains(#[trigger] fields@[k]),
        ensures
            final(context).wf(),
            final(context)@.contains(ty),
            final(context)@.shapes[ty] == TypeShape::Union(fields@),
            old(context)@.interns(TypeShape::Union(fields@), final(context)@, ty),
    {
        Self::get_or_create_unique_type(context, TypeContent::Union(fields))
    }

    /// The struct with the fields `fields`.
    pub fn get_struct(context: &mut Context, fields: Vec<Type>) -> (ty: Type)
        requires
            old(context).wf(),
            forall|k: int| 0 <= k < fields@.len() ==> old(context)@.contains(#[trigger] fields@[k]),
        ensures
            final(context).wf(),
            final(context)@.contains(ty),
            final(context)@.shapes[ty] == TypeShape::Struct(fields@),
            old(context)@.interns(TypeShape::Struct(fields@), final(context)@, ty),
    {
        Self::get_or_create_unique_type(context, TypeContent::Struct(fields))
    }

    /// The type of the pointers to `pointee_ty`.
    pub fn get_pointer(context: &mut Context, pointee_ty: Type) -> (ty: Type)
        requires
            old(context).wf(),
            old(context)@.contains(pointee_ty),
        ensures
            final(context).wf(),
            final(context)@.contains(ty),
            final(context)@.shapes[ty] == TypeShape::Pointer(pointee_ty),
            old(context)@.interns(TypeShape::Pointer(pointee_ty), final(context)@, ty),
    {
        Self::get_or_create_unique_type(context, TypeContent::Pointer(pointee_ty))
    }

    /// Whether this is a copy type: one whose value always fits in a
    /// register.
    pub fn is_copy_type(&self, context: &Context) -> (copy: bool)
        requires
            context@.contains(*self),
        ensures
            copy == context@.is_copy(*self),
    {
        match self.get_content(context) {
            TypeContent::Unit | TypeContent::Bool | TypeContent::Uint(_) | TypeContent::Pointer(
                _,
            ) => true,
            _ => false,
        }
    }

    /// The pointee, if this is a pointer type.
    pub fn get_inner_ptr_type(&self, context: &Context) -> (inner: Option<Type>)
        requires
            context@.contains(*self),
        ensures
            inner == context@.pointee(*self),
    {
        match self.get_content(context) {
            TypeContent::Pointer(pointee_typ) => Some(*pointee_typ),
            _ => None,
        }
    }

    /// The pointee if this is a pointer type, else the type itself.
    pub fn strip_ptr_type(&self, context: &Context) -> (stripped: Type)
        requires
            context@.contains(*self),
        ensures
            stripped == context@.stripped(*self),
    {
        match self.get_inner_ptr_type(context) {
            Some(inner) => inner,
            None => *self,
        }
    }

    /// Whether this is the unit type.
    pub fn is_unit(&self, context: &Context) -> (unit: bool)
        requires
            context@.contains(*self),
        ensures
            unit == (context@.shapes[*self] is Unit),
    {
        matches!(self.get_content(context), TypeContent::Unit)
    }

    /// Whether this is the boolean type.
    pub fn is_bool(&self, context: &Context) -> (boolean: bool)
        requires
            context@.contains(*self),
        ensures
            boolean == (context@.shapes[*self] is Bool),
    {
        matches!(self.get_content(context), TypeContent::Bool)
    }

    /// Whether this is an unsigned integer type.
    pub fn is_uint(&self, context: &Context) -> (uint: bool)
        requires
            context@.contains(*self),
        ensures
            uint == (context@.shapes[*self] is Uint),
    {
        matches!(self.get_content(context), TypeContent::Uint(_))
    }

    /// Whether this is the unsigned integer type of `width` bits.
    pub fn is_uint_of(&self, context: &Context, width: u8) -> (uint: bool)
        requires
            context@.contains(*self),
        ensures
            uint == (context@.shapes[*self] == TypeShape::Uint(width)),
    {
        match self.get_content(context) {
            TypeContent::Uint(width_) => width == *width_,
            _ => false,
        }
    }

    /// Whether this is the 256-bit hash type.
    pub fn is_b256(&self, context: &Context) -> (b256: bool)
        requires
            context@.contains(*self),
        ensures
            b256 == (context@.shapes[*self] is B256),
    {
        matches!(self.get_content(context), TypeContent::B256)
    }

    /// Whether this is a string type.
    pub fn is_string(&self, context: &Context) -> (string: bool)
        requires
            context@.contains(*self),
        ensures
            string == (context@.shapes[*self] is String),
    {
        matches!(self.get_content(context), TypeContent::String(_))
    }

    /// Whether this is an array type.
    pub fn is_array(&self, context: &Context) -> (array: bool)
        requires
            context@.contains(*self),
        ensures
            array == (context@.shapes[*self] is Array),
    {
        matches!(self.get_content(context), TypeContent::Array(..))
    }

    /// Whether this is a union type.
    pub fn is_union(&self, context: &Context) -> (union_type: bool)
        requires
            context@.contains(*self),
        ensures
            union_type == (context@.shapes[*self] is Union),
    {
        matches!(self.get_content(context), TypeContent::Union(_))
    }

    /// Whether this is a struct type.
    pub fn is_struct(&self, context: &Context) -> (struct_type: bool)
        requires
            context@.contains(*self),
        ensures
            struct_type == (context@.shapes[*self] is Struct),
    {
        matches!(self.get_content(context), TypeContent::Struct(_))
    }

    /// Whether this is a pointer type.
    pub fn is_ptr_type(&self, context: &Context) -> (pointer: bool)
        requires
            context@.contains(*self),
        ensures
            pointer == (context@.shapes[*self] is Pointer),
    {
        matches!(self.get_content(context), TypeContent::Pointer(_))
    }

    /// The type of the field that `idx` selects, if this is a struct or a
    /// union and `idx` a constant 64-bit index of one of its fields.
    pub fn get_field_type(&self, context: &Context, idx: Value) -> (field: Option<Type>)
        requires
            context@.contains(*self),
            context@.operand_live(idx),
        ensures
            field == context@.field_type(*self, idx),
    {
        match (self.get_content(context), idx.get_constant()) {
            (
                TypeContent::Struct(agg),
                Some(Constant { ty, value: ConstantValue::Uint(idx) }),
            ) | (
                TypeContent::Union(agg),
                Some(Constant { ty, value: ConstantValue::Uint(idx) }),
            ) => {
                if ty.is_uint_of(context, 64) && idx < agg.len() as u64 {
                    Some(agg[idx as usize])
                } else {
                    None
                }
            },
            _ => None,
        }
    }

    /// The element type, if this is an array type.
    pub fn get_array_elem_type(&self, context: &Context) -> (elem: Option<Type>)
        requires
            context@.contains(*self),
        ensures
            elem == context@.array_elem(*self),
    {
        if let TypeContent::Array(ty, _) = self.get_content(context) {
            Some(*ty)
        } else {
            None
        }
    }

    /// The length, if this is an array type.
    pub fn get_array_len(&self, context: &Context) -> (len: Option<u64>)
        requires
            context@.contains(*self),
        ensures
            len == context@.array_len(*self),
    {
        if let TypeContent::Array(_, n) = self.get_content(context) {
            Some(*n)
        } else {
            None
        }
    }

    /// Whether this is an array, a struct or a union.
    pub fn is_aggregate(&self, context: &Context) -> (aggregate: bool)
        requires
            context@.contains(*self),
        ensures
            aggregate == context@.is_aggregate(*self),
    {
        match self.get_content(context) {
            TypeContent::Union(_) | TypeContent::Struct(_) | TypeContent::Array(..) => true,
            TypeContent::Unit
            | TypeContent::Bool
            | TypeContent::Uint(_)
            | TypeContent::B256
            | TypeContent::String(_)
            | TypeContent::Pointer(_) => false,
        }
    }

    /// The type of the value that `indices` address in a value of this
    /// type: `None` as soon as an index selects nothing.
    pub fn get_indexed_type(&self, context: &Context, indices: &[Value]) -> (indexed: Option<Type>)
        requires
            context.wf(),
            context@.contains(*self),
            context@.operands_live(indices@),
        ensures
            indexed == context@.indexed_type(*self, indices@),
            indexed matches Some(ty) ==> context@.contains(ty),
    {
        if indices.len() == 0 {
            return Some(*self);
        }
        let mut ty = self.strip_ptr_type(context);
        proof {
            if context@.pointee(*self) is Some {
                assert(members(context@.shapes[*self])[0] == ty);
            }
        }
        let mut i: usize = 1;
        while i < indices.len()
            invariant
                context.wf(),
                context@.contains(ty),
                context@.operands_live(indices@),
                1 <= i <= indices.len(),
                context@.indexed_from(ty, indices@.skip(i as int)) == context@.indexed_type(
                    *self,
                    indices@,
                ),
            decreases indices.len() - i,
        {
            let idx = indices[i];
            proof {
                assert(indices@.skip(i as int)[0] == idx);
                assert(indices@.skip(i as int).skip(1) =~= indices@.skip(i + 1));
                context@.lemma_index_step_live(ty, idx);
            }
            let step = match ty.get_field_type(context, idx) {
                Some(field) => Some(field),
                None => ty.get_array_elem_type(context),
            };
            match step {
                Some(next) => {
                    ty = next;
                },
                None => {
                    return None;
                },
            }
            i += 1;
        }
        Some(ty)
    }
}

impl ArenaView {
    /// Whether `b` is a union and `a` is not: the one case in which
    /// equivalence swaps its operands.
    pub open spec fn swaps(self, a: Type, b: Type) -> bool {
        self.shapes[b] is Union && !(self.shapes[a] is Union)
    }

    /// Whether `a` and `b` are equivalent. Types of the same kind are
    /// equivalent if their parts are, one by one. A union is also
    /// equivalent to any type that is equivalent to one of its members.
    pub open spec fn equiv(self, a: Type, b: Type) -> bool
        decreases self.rank(a) + self.rank(b), (if self.swaps(a, b) {
            1int
        } else {
            0int
        }),
        when self.wf() && self.contains(a) && self.contains(b)
    {
        proof {
            let first_a = members(self.shapes[a])[0];
            let first_b = members(self.shapes[b])[0];
            assert(self.shapes[a] is Array || self.shapes[a] is Pointer ==> self.rank(first_a)
                < self.rank(a));
            assert(self.shapes[b] is Array || self.shapes[b] is Pointer ==> self.rank(first_b)
                < self.rank(b));
            self.lemma_rank_in_range(a);
            self.lemma_rank_in_range(b);
        }
        match (self.shapes[a], self.shapes[b]) {
            (TypeShape::Unit, TypeShape::Unit) => true,
            (TypeShape::Bool, TypeShape::Bool) => true,
            (TypeShape::Uint(l), TypeShape::Uint(r)) => l == r,
            (TypeShape::B256, TypeShape::B256) => true,
            (TypeShape::String(l), TypeShape::String(r)) => l == r,
            (TypeShape::Array(l, llen), TypeShape::Array(r, rlen)) => llen == rlen && self.equiv(
                l,
                r,
            ),
            (TypeShape::Struct(l), TypeShape::Struct(r)) => l.len() == r.len() && forall|i: int|
                0 <= i < l.len() ==> self.equiv(#[trigger] l[i], r[i]),
            (TypeShape::Union(l), TypeShape::Union(r)) => l.len() == r.len() && forall|i: int|
                0 <= i < l.len() ==> self.equiv(#[trigger] l[i], r[i]),
            (_, TypeShape::Union(_)) => self.equiv(b, a),
            (TypeShape::Union(l), _) => exists|i: int|
                0 <= i < l.len() && self.equiv(b, #[trigger] l[i]),
            (TypeShape::Pointer(l), TypeShape::Pointer(r)) => self.equiv(l, r),
            _ => false,
        }
    }
}

impl ArenaView {
    /// A member of a live type is live and was created before it.
    pub proof fn lemma_member_lower(self, t: Type, k: int)
        requires
            self.wf(),
            self.contains(t),
            0 <= k < members(self.shapes[t]).len(),
        ensures
            self.contains(members(self.shapes[t])[k]),
            0 <= self.rank(members(self.shapes[t])[k]) < self.rank(t),
    {
        let m = members(self.shapes[t])[k];
        assert(self.contains(m) && self.rank(m) < self.rank(t));
        self.lemma_rank_in_range(m);
    }

    /// Every type is equivalent to itself.
    pub proof fn lemma_equiv_reflexive(self, a: Type)
        requires
            self.wf(),
            self.contains(a),
        ensures
            self.equiv(a, a),
        decreases self.rank(a),
    {
        self.lemma_rank_in_range(a);
        match self.shapes[a] {
            TypeShape::Array(l, _) => {
                self.lemma_member_lower(a, 0);
                self.lemma_equiv_reflexive(l);
            },
            TypeShape::Pointer(l) => {
                self.lemma_member_lower(a, 0);
                self.lemma_equiv_reflexive(l);
            },
            TypeShape::Struct(l) => {
                assert forall|i: int| 0 <= i < l.len() implies self.equiv(
                    #[trigger] l[i],
                    l[i],
                ) by {
                    self.lemma_member_lower(a, i);
                    self.lemma_equiv_reflexive(l[i]);
                }
            },
            TypeShape::Union(l) => {
                assert forall|i: int| 0 <= i < l.len() implies self.equiv(
                    #[trigger] l[i],
                    l[i],
                ) by {
                    self.lemma_member_lower(a, i);
                    self.lemma_equiv_reflexive(l[i]);
                }
            },
            _ => {},
        }
    }

    /// Equivalence does not depend on the order of its operands.
    pub proof fn lemma_equiv_symmetric(self, a: Type, b: Type)
        requires
            self.wf(),
            self.contains(a),
            self.contains(b),
        ensures
            self.equiv(a, b) == self.equiv(b, a),
        decreases self.rank(a) + self.rank(b),
    {
        self.lemma_rank_in_range(a);
        self.lemma_rank_in_range(b);
        match (self.shapes[a], self.shapes[b]) {
            (TypeShape::Array(l, _), TypeShape::Array(r, _)) => {
                self.lemma_member_lower(a, 0);
                self.lemma_member_lower(b, 0);
                self.lemma_equiv_symmetric(l, r);
            },
            (TypeShape::Pointer(l), TypeShape::Pointer(r)) => {
                self.lemma_member_lower(a, 0);
                self.lemma_member_lower(b, 0);
                self.lemma_equiv_symmetric(l, r);
            },
            (TypeShape::Struct(l), TypeShape::Struct(r)) => {
                if l.len() == r.len() {
                    assert forall|i: int| 0 <= i < l.len() implies self.equiv(
                        #[trigger] l[i],
                        r[i],
                    ) == self.equiv(r[i], l[i]) by {
                        self.lemma_member_lower(a, i);
                        self.lemma_member_lower(b, i);
                        self.lemma_equiv_symmetric(l[i], r[i]);
                    }
                    assert forall|i: int| 0 <= i < l.len() implies self.equiv(
                        #[trigger] r[i],
                        l[i],
                    ) == self.equiv(l[i], r[i]) by {
                        self.lemma_member_lower(a, i);
                        self.lemma_member_lower(b, i);
                        self.lemma_equiv_symmetric(l[i], r[i]);
                    }
                }
            },
            (TypeShape::Union(l), TypeShape::Union(r)) => {
                if l.len() == r.len() {
                    assert forall|i: int| 0 <= i < l.len() implies self.equiv(
                        #[trigger] l[i],
                        r[i],
                    ) == self.equiv(r[i], l[i]) by {
                        self.lemma_member_lower(a, i);
                        self.lemma_member_lower(b, i);
                        self.lemma_equiv_symmetric(l[i], r[i]);
                    }
                    assert forall|i: int| 0 <= i < l.len() implies self.equiv(
                        #[trigger] r[i],
                        l[i],
                    ) == self.equiv(l[i], r[i]) by {
                        self.lemma_member_lower(a, i);
                        self.lemma_member_lower(b, i);
                        self.lemma_equiv_symmetric(l[i], r[i]);
                    }
                }
            },
            _ => {},
        }
    }

    /// A union `u` and a type `c` that is no union are equivalent exactly
    /// if `c` is equivalent to a member of `u`, in either order of the
    /// operands. So `u` is equivalent to each member that is no union.
    pub proof fn lemma_union_equiv(self, u: Type, c: Type)
        requires
            self.wf(),
            self.contains(u),
            self.contains(c),
            self.shapes[u] is Union,
            !(self.shapes[c] is Union),
        ensures
            self.equiv(u, c) == (exists|i: int|
                0 <= i < members(self.shapes[u]).len() && self.equiv(
                    c,
                    #[trigger] members(self.shapes[u])[i],
                )),
            self.equiv(c, u) == self.equiv(u, c),
            forall|i: int|
                0 <= i < members(self.shapes[u]).len() && #[trigger] members(self.shapes[u])[i]
                    == c ==> self.equiv(u, c),
    {
        self.lemma_equiv_reflexive(c);
    }
}

impl Type {
    /// Whether this type and `other` are equivalent. A union is
    /// equivalent to each type that is equivalent to one of its members.
    pub fn eq(&self, context: &Context, other: &Type) -> (equal: bool)
        requires
            context.wf(),
            context@.contains(*self),
            context@.contains(*other),
        ensures
            equal == context@.equiv(*self, *other),
        decreases context@.rank(*self) + context@.rank(*other), (if context@.swaps(
            *self,
            *other,
        ) {
            1int
        } else {
            0int
        }),
    {
        proof {
            context@.lemma_rank_in_range(*self);
            context@.lemma_rank_in_range(*other);
        }
        match (self.get_content(context), other.get_content(context)) {
            (TypeContent::Unit, TypeContent::Unit) => true,
            (TypeContent::Bool, TypeContent::Bool) => true,
            (TypeContent::Uint(l), TypeContent::Uint(r)) => *l == *r,
            (TypeContent::B256, TypeContent::B256) => true,
            (TypeContent::String(l), TypeContent::String(r)) => *l == *r,
            (TypeContent::Array(l, llen), TypeContent::Array(r, rlen)) => {
                proof {
                    context@.lemma_member_lower(*self, 0);
                    context@.lemma_member_lower(*other, 0);
                }
                *llen == *rlen && l.eq(context, r)
            },
            (TypeContent::Struct(l), TypeContent::Struct(r))
            | (TypeContent::Union(l), TypeContent::Union(r)) => {
                if l.len() != r.len() {
                    return false;
                }
                let mut i: usize = 0;
                while i < l.len()
                    invariant
                        context.wf(),
                        context@.contains(*self),
                        context@.contains(*other),
                        l@ == members(context@.shapes[*self]),
                        r@ == members(context@.shapes[*other]),
                        l.len() == r.len(),
                        0 <= i <= l.len(),
                        context@.shapes[*self] is Struct || context@.shapes[*self] is Union,
                        context@.shapes[*self] is Struct <==> context@.shapes[*other] is Struct,
                        context@.shapes[*self] is Union <==> context@.shapes[*other] is Union,
                        forall|j: int| 0 <= j < i ==> context@.equiv(#[trigger] l@[j], r@[j]),
                    decreases l.len() - i,
                {
                    proof {
                        context@.lemma_member_lower(*self, i as int);
                        context@.lemma_member_lower(*other, i as int);
                    }
                    if !l[i].eq(context, &r[i]) {
                        return false;
                    }
                    i += 1;
                }
                true
            },
            (_, TypeContent::Union(_)) => other.eq(context, self),
            (TypeContent::Union(l), _) => {
                let mut i: usize = 0;
                while i < l.len()
                    invariant
                        context.wf(),
                        context@.contains(*self),
                        context@.contains(*other),
                        l@ == members(context@.shapes[*self]),
                        0 <= i <= l.len(),
                        context@.shapes[*self] is Union,
                        !(context@.shapes[*other] is Union),
                        forall|j: int| 0 <= j < i ==> !context@.equiv(*other, #[trigger] l@[j]),
                    decreases l.len() - i,
                {
                    proof {
                        context@.lemma_member_lower(*self, i as int);
                    }
                    if other.eq(context, &l[i]) {
                        return true;
                    }
                    i += 1;
                }
                false
            },
            (TypeContent::Pointer(l), TypeContent::Pointer(r)) => {
                proof {
                    context@.lemma_member_lower(*self, 0);
                    context@.lemma_member_lower(*other, 0);
                }
                l.eq(context, r)
            },
            _ => false,
        }
    }
}

impl ArenaView {
    /// The text of a type, as it is printed: `()`, `bool`, `u64`, `b256`,
    /// `string<4>`, `[u8; 40]`, `( A | B )` for a union, `{ A, B }` for a
    /// struct and `ptr T` for a pointer.
    pub open spec fn text(self, t: Type) -> Seq<char>
        decreases self.rank(t), members(self.shapes[t]).len() + 1,
        when self.wf() && self.contains(t)
    {
        proof {
            let first = members(self.shapes[t])[0];
            assert(self.shapes[t] is Array || self.shapes[t] is Pointer ==> self.rank(first)
                < self.rank(t));
            self.lemma_rank_in_range(t);
        }
        match self.shapes[t] {
            TypeShape::Unit => "()"@,
            TypeShape::Bool => "bool"@,
            TypeShape::Uint(nbits) => "u"@ + decimal(nbits as nat),
            TypeShape::B256 => "b256"@,
            TypeShape::String(n) => "string<"@ + decimal(n as nat) + ">"@,
            TypeShape::Array(ty, cnt) => "["@ + self.text(ty) + "; "@ + decimal(cnt as nat) + "]"@,
            TypeShape::Union(agg) => "( "@ + self.joined(t, agg.len(), " | "@) + " )"@,
            TypeShape::Struct(agg) => "{ "@ + self.joined(t, agg.len(), ", "@) + " }"@,
            TypeShape::Pointer(pointee) => "ptr "@ + self.text(pointee),
        }
    }

    /// The texts of the first `n` members of `t`, with `sep` between them.
    pub open spec fn joined(self, t: Type, n: nat, sep: Seq<char>) -> Seq<char>
        decreases self.rank(t), n,
        when self.wf() && self.contains(t) && n <= members(self.shapes[t]).len()
    {
        proof {
            self.lemma_rank_in_range(t);
        }
        if n == 0 {
            Seq::empty()
        } else if n == 1 {
            self.text(members(self.shapes[t])[0])
        } else {
            self.joined(t, (n - 1) as nat, sep) + sep + self.text(
                members(self.shapes[t])[n - 1],
            )
        }
    }
}

impl Type {
    /// The texts of the members `agg` of this type, with `sep` between
    /// them.
    fn members_as_string(&self, context: &Context, agg: &Vec<Type>, sep: &str) -> (text: String)
        requires
            context.wf(),
            context@.contains(*self),
            agg@ == members(context@.shapes[*self]),
        ensures
            text@ == context@.joined(*self, agg@.len(), sep@),
        decreases context@.rank(*self), agg@.len(),
    {
        let mut text = String::new();
        let mut i: usize = 0;
        while i < agg.len()
            invariant
                context.wf(),
                context@.contains(*self),
                agg@ == members(context@.shapes[*self]),
                0 <= i <= agg.len(),
                text@ == context@.joined(*self, i as nat, sep@),
            decreases agg.len() - i,
        {
            proof {
                context@.lemma_member_lower(*self, i as int);
            }
            let member = agg[i].as_string(context);
            if i > 0 {
                text.append(sep);
            }
            text.append(member.as_str());
            proof {
                if i == 0 {
                    assert(Seq::<char>::empty() + member@ =~= member@);
                }
            }
            i += 1;
        }
        text
    }

    /// The text of the type, as it is printed.
    pub fn as_string(&self, context: &Context) -> (text: String)
        requires
            context.wf(),
            context@.contains(*self),
        ensures
            text@ == context@.text(*self),
        decreases context@.rank(*self), members(context@.shapes[*self]).len() + 1,
    {
        proof {
            context@.lemma_rank_in_range(*self);
        }
        match self.get_content(context) {
            TypeContent::Unit => String::from_str("()"),
            TypeContent::Bool => String::from_str("bool"),
            TypeContent::Uint(nbits) => {
                let mut text = String::from_str("u");
                push_decimal(&mut text, *nbits as u64);
                text
            },
            TypeContent::B256 => String::from_str("b256"),
            TypeContent::String(n) => {
                let mut text = String::from_str("string<");
                push_decimal(&mut text, *n);
                text.append(">");
                text
            },
            TypeContent::Array(ty, cnt) => {
                proof {
                    context@.lemma_member_lower(*self, 0);
                }
                let mut text = String::from_str("[");
                let elem = ty.as_string(context);
                text.append(elem.as_str());
                text.append("; ");
                push_decimal(&mut text, *cnt);
                text.append("]");
                text
            },
            TypeContent::Union(agg) => {
                let mut text = String::from_str("( ");
                let inner = self.members_as_string(context, agg, " | ");
                text.append(inner.as_str());
                text.append(" )");
                text
            },
            TypeContent::Struct(agg) => {
                let mut text = String::from_str("{ ");
                let inner = self.members_as_string(context, agg, ", ");
                text.append(inner.as_str());
                text.append(" }");
                text
            },
            TypeContent::Pointer(pointee_ty) => {
                proof {
                    context@.lemma_member_lower(*self, 0);
                }
                let mut text = String::from_str("ptr ");
                let inner = pointee_ty.as_string(context);
                text.append(inner.as_str());
                text
            },
        }
    }
}

} // verus!
