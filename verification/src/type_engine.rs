//! The arena of the types of the source language.
//!
//! A [`TypeId`] is a position in the [`TypeEngine`]. Contents are interned
//! and never change: a content names only types that were inserted before
//! it, and no two positions hold the same content. What is not yet known is
//! content too: a numbered placeholder, a name that is not resolved yet, the
//! self type of a scope.

use crate::language::HashState;
use crate::language::name_words;
use crate::text::decimal;
use crate::text::push_decimal;
use vstd::prelude::*;

verus! {

/// A handle to a type of a [`TypeEngine`].
#[derive(Clone, Copy, Debug, PartialEq, Eq, Hash, Structural)]
pub struct TypeId(pub usize);

/// What a type is. Members are named by handle.
#[derive(Clone, Debug)]
pub enum TypeInfo {
    /// A placeholder that unification may bind, with its number.
    Unknown(u64),
    /// A type that is named but not resolved yet.
    Custom(String),
    /// The type that the scope with this number is implemented for.
    SelfType(u64),
    Boolean,
    UnsignedInteger(u8),
    B256,
    Str(u64),
    Array(TypeId, u64),
    Pointer(TypeId),
    /// Positional fields. The empty tuple is the unit type.
    Tuple(Vec<TypeId>),
    /// A named struct with the types of its fields.
    Struct(String, Vec<TypeId>),
    /// A sum type: its members share one storage.
    Sum(Vec<TypeId>),
    /// What stands for a type that could not be checked.
    ErrorRecovery,
}

/// The mathematical value of a [`TypeInfo`].
pub enum TypeForm {
    Unknown(u64),
    Custom(Seq<char>),
    SelfType(u64),
    Boolean,
    UnsignedInteger(u8),
    B256,
    Str(u64),
    Array(TypeId, u64),
    Pointer(TypeId),
    Tuple(Seq<TypeId>),
    Struct(Seq<char>, Seq<TypeId>),
    Sum(Seq<TypeId>),
    ErrorRecovery,
}

impl View for TypeInfo {
    type V = TypeForm;

    open spec fn view(&self) -> TypeForm {
        match *self {
            TypeInfo::Unknown(n) => TypeForm::Unknown(n),
            TypeInfo::Custom(name) => TypeForm::Custom(name@),
            TypeInfo::SelfType(scope) => TypeForm::SelfType(scope),
            TypeInfo::Boolean => TypeForm::Boolean,
            TypeInfo::UnsignedInteger(bits) => TypeForm::UnsignedInteger(bits),
            TypeInfo::B256 => TypeForm::B256,
            TypeInfo::Str(len) => TypeForm::Str(len),
            TypeInfo::Array(t, n) => TypeForm::Array(t, n),
            TypeInfo::Pointer(t) => TypeForm::Pointer(t),
            TypeInfo::Tuple(v) => TypeForm::Tuple(v@),
            TypeInfo::Struct(name, v) => TypeForm::Struct(name@, v@),
            TypeInfo::Sum(v) => TypeForm::Sum(v@),
            TypeInfo::ErrorRecovery => TypeForm::ErrorRecovery,
        }
    }
}

/// The handles that a form names directly.
pub open spec fn parts(form: TypeForm) -> Seq<TypeId> {
    match form {
        TypeForm::Array(t, _) => seq![t],
        TypeForm::Pointer(t) => seq![t],
        TypeForm::Tuple(v) => v,
        TypeForm::Struct(_, v) => v,
        TypeForm::Sum(v) => v,
        _ => Seq::empty(),
    }
}

/// An index operand of an indexed access.
#[derive(Clone, Copy, Debug, PartialEq, Eq, Structural)]
pub enum IndexOperand {
    /// A constant of the type `ty`.
    Constant { ty: TypeId, value: u64 },
    /// A value that is known only when the program runs.
    Dynamic,
}

/// The mathematical state of a [`TypeEngine`]: the form at each position.
pub struct TypeTable {
    pub slots: Seq<TypeForm>,
}

impl TypeTable {
    /// Whether `t` is a handle of this table.
    pub open spec fn contains(self, t: TypeId) -> bool {
        t.0 < self.slots.len()
    }

    /// The form of `t`.
    pub open spec fn form(self, t: TypeId) -> TypeForm {
        self.slots[t.0 as int]
    }

    /// Whether some handle has the form `form`.
    pub open spec fn has_form(self, form: TypeForm) -> bool {
        exists|i: int| 0 <= i < self.slots.len() && #[trigger] self.slots[i] == form
    }

    /// Whether every handle that `form` names is a handle of this table.
    pub open spec fn closed_under(self, form: TypeForm) -> bool {
        forall|k: int| 0 <= k < parts(form).len() ==> self.contains(#[trigger] parts(form)[k])
    }

    /// The invariant of the arena: a form names only earlier handles, and
    /// no two handles have the same form.
    pub open spec fn wf(self) -> bool {
        &&& self.slots.len() <= usize::MAX
        &&& forall|i: int, k: int|
            0 <= i < self.slots.len() && 0 <= k < parts(self.slots[i]).len() ==> (
            #[trigger] parts(self.slots[i])[k]).0 < i
        &&& forall|i: int, j: int|
            0 <= i < self.slots.len() && 0 <= j < self.slots.len() && #[trigger] self.slots[i]
                == #[trigger] self.slots[j] ==> i == j
    }

    /// The handle under which `form` is interned: the handle that has this
    /// form, or else the next free one.
    pub open spec fn interned_id(self, form: TypeForm) -> TypeId {
        if self.has_form(form) {
            TypeId((choose|i: int| 0 <= i < self.slots.len() && #[trigger] self.slots[i] == form) as usize)
        } else {
            TypeId(self.slots.len() as usize)
        }
    }

    /// Whether this table holds every handle of `earlier` with the form
    /// that it has there.
    pub open spec fn extends(self, earlier: TypeTable) -> bool {
        forall|t: TypeId|
            #![trigger earlier.contains(t)]
            #![trigger self.slots[t.0 as int]]
            earlier.contains(t) ==> self.contains(t) && self.form(t) == earlier.form(t)
    }

    /// In a well-formed table a form is interned under the one handle
    /// that has it.
    pub proof fn lemma_id_of_form(self, t: TypeId)
        requires
            self.wf(),
            self.contains(t),
        ensures
            self.has_form(self.form(t)),
            self.interned_id(self.form(t)) == t,
    {
        let form = self.form(t);
        assert(self.slots[t.0 as int] == form);
        let i = choose|i: int| 0 <= i < self.slots.len() && #[trigger] self.slots[i] == form;
        assert(self.slots[i] == self.slots[t.0 as int]);
    }

    /// A form is interned under the same handle in every well-formed
    /// table that extends one in which it is present.
    pub proof fn lemma_id_stable(self, later: TypeTable, form: TypeForm)
        requires
            self.wf(),
            later.wf(),
            later.extends(self),
            self.has_form(form),
        ensures
            later.has_form(form),
            later.interned_id(form) == self.interned_id(form),
            self.contains(self.interned_id(form)),
            self.form(self.interned_id(form)) == form,
    {
        let i = choose|i: int| 0 <= i < self.slots.len() && #[trigger] self.slots[i] == form;
        let t = TypeId(i as usize);
        assert(self.contains(t));
        assert(later.form(t) == form);
        later.lemma_id_of_form(t);
    }

    /// The table after `form` was interned.
    pub open spec fn interned(self, form: TypeForm) -> TypeTable {
        if self.has_form(form) {
            self
        } else {
            TypeTable { slots: self.slots.push(form) }
        }
    }

    /// Interning keeps the invariant and stores the form under the handle
    /// it returns.
    pub proof fn lemma_interned_wf(self, form: TypeForm)
        requires
            self.wf(),
            self.closed_under(form),
            self.has_form(form) || self.slots.len() < usize::MAX,
        ensures
            self.interned(form).wf(),
            self.interned(form).contains(self.interned_id(form)),
            self.interned(form).form(self.interned_id(form)) == form,
            self.interned(form).extends(self),
    {
        let next = self.interned(form);
        if !self.has_form(form) {
            assert forall|i: int, k: int|
                0 <= i < next.slots.len() && 0 <= k < parts(next.slots[i]).len() implies (
            #[trigger] parts(next.slots[i])[k]).0 < i by {
                if i < self.slots.len() {
                    assert(next.slots[i] == self.slots[i]);
                } else {
                    assert(self.contains(parts(form)[k]));
                }
            }
            assert forall|i: int, j: int|
                0 <= i < next.slots.len() && 0 <= j < next.slots.len() && #[trigger] next.slots[i]
                    == #[trigger] next.slots[j] implies i == j by {
                if i < self.slots.len() && j < self.slots.len() {
                    assert(self.slots[i] == self.slots[j]);
                } else if i < self.slots.len() {
                    assert(self.slots[i] == form);
                } else if j < self.slots.len() {
                    assert(self.slots[j] == form);
                }
            }
        }
    }

    /// Interning is idempotent: interning a form again returns the same
    /// handle and changes nothing, and the handle holds the form.
    pub proof fn lemma_interning_idempotent(self, form: TypeForm)
        requires
            self.wf(),
            self.closed_under(form),
            self.has_form(form) || self.slots.len() < usize::MAX,
        ensures
            self.interned(form).interned(form) == self.interned(form),
            self.interned(form).interned_id(form) == self.interned_id(form),
            self.interned(form).form(self.interned_id(form)) == form,
    {
        self.lemma_interned_wf(form);
        let next = self.interned(form);
        let id = self.interned_id(form);
        assert(next.slots[id.0 as int] == form);
        assert(next.has_form(form));
        let again = choose|i: int| 0 <= i < next.slots.len() && #[trigger] next.slots[i] == form;
        assert(next.slots[again] == next.slots[id.0 as int]);
    }
}

/// Whether two vectors hold the same handles in the same order.
pub fn same_ids(a: &Vec<TypeId>, b: &Vec<TypeId>) -> (same: bool)
    ensures
        same == (a@ == b@),
{
    if a.len() != b.len() {
        return false;
    }
    let mut i: usize = 0;
    while i < a.len()
        invariant
            a.len() == b.len(),
            0 <= i <= a.len(),
            forall|j: int| 0 <= j < i ==> a@[j] == b@[j],
        decreases a.len() - i,
    {
        if a[i] != b[i] {
            return false;
        }
        i += 1;
    }
    assert(a@ =~= b@);
    true
}

/// A copy of a vector of handles.
pub fn copy_ids(v: &Vec<TypeId>) -> (copy: Vec<TypeId>)
    ensures
        copy@ == v@,
{
    let mut copy: Vec<TypeId> = Vec::new();
    let mut i: usize = 0;
    while i < v.len()
        invariant
            0 <= i <= v.len(),
            copy@ == v@.take(i as int),
        decreases v.len() - i,
    {
        copy.push(v[i]);
        assert(v@.take(i as int).push(v@[i as int]) =~= v@.take(i + 1));
        i += 1;
    }
    assert(v@.take(v.len() as int) =~= v@);
    copy
}

impl TypeInfo {
    /// Whether two contents have the same form.
    pub fn same_form(&self, other: &TypeInfo) -> (same: bool)
        ensures
            same == (self@ == other@),
    {
        match (self, other) {
            (TypeInfo::Unknown(l), TypeInfo::Unknown(r)) => *l == *r,
            (TypeInfo::Custom(l), TypeInfo::Custom(r)) => *l == *r,
            (TypeInfo::SelfType(l), TypeInfo::SelfType(r)) => *l == *r,
            (TypeInfo::Boolean, TypeInfo::Boolean) => true,
            (TypeInfo::UnsignedInteger(l), TypeInfo::UnsignedInteger(r)) => *l == *r,
            (TypeInfo::B256, TypeInfo::B256) => true,
            (TypeInfo::Str(l), TypeInfo::Str(r)) => *l == *r,
            (TypeInfo::Array(l, llen), TypeInfo::Array(r, rlen)) => *l == *r && *llen == *rlen,
            (TypeInfo::Pointer(l), TypeInfo::Pointer(r)) => *l == *r,
            (TypeInfo::Tuple(l), TypeInfo::Tuple(r)) => same_ids(l, r),
            (TypeInfo::Struct(lname, l), TypeInfo::Struct(rname, r)) => *lname == *rname
                && same_ids(l, r),
            (TypeInfo::Sum(l), TypeInfo::Sum(r)) => same_ids(l, r),
            (TypeInfo::ErrorRecovery, TypeInfo::ErrorRecovery) => true,
            _ => false,
        }
    }

    /// A copy of the content.
    pub fn copy(&self) -> (copy: TypeInfo)
        ensures
            copy@ == self@,
    {
        match self {
            TypeInfo::Unknown(n) => TypeInfo::Unknown(*n),
            TypeInfo::Custom(name) => TypeInfo::Custom(name.clone()),
            TypeInfo::SelfType(scope) => TypeInfo::SelfType(*scope),
            TypeInfo::Boolean => TypeInfo::Boolean,
            TypeInfo::UnsignedInteger(bits) => TypeInfo::UnsignedInteger(*bits),
            TypeInfo::B256 => TypeInfo::B256,
            TypeInfo::Str(len) => TypeInfo::Str(*len),
            TypeInfo::Array(t, n) => TypeInfo::Array(*t, *n),
            TypeInfo::Pointer(t) => TypeInfo::Pointer(*t),
            TypeInfo::Tuple(v) => TypeInfo::Tuple(copy_ids(v)),
            TypeInfo::Struct(name, v) => TypeInfo::Struct(name.clone(), copy_ids(v)),
            TypeInfo::Sum(v) => TypeInfo::Sum(copy_ids(v)),
            TypeInfo::ErrorRecovery => TypeInfo::ErrorRecovery,
        }
    }
}

/// The arena of the types of the source language.
pub struct TypeEngine {
    slab: Vec<TypeInfo>,
}

impl View for TypeEngine {
    type V = TypeTable;

    closed spec fn view(&self) -> TypeTable {
        TypeTable { slots: self.slab@.map_values(|info: TypeInfo| info@) }
    }
}

impl TypeEngine {
    /// The invariant of the engine.
    pub open spec fn wf(&self) -> bool {
        self@.wf()
    }

    /// An engine without types.
    pub fn new() -> (engine: TypeEngine)
        ensures
            engine.wf(),
            engine@.slots.len() == 0,
    {
        TypeEngine { slab: Vec::new() }
    }

    /// The number of types.
    pub fn len(&self) -> (n: usize)
        ensures
            n == self@.slots.len(),
    {
        self.slab.len()
    }

    /// Whether `id` is a handle of this engine.
    pub fn contains(&self, id: TypeId) -> (live: bool)
        ensures
            live == self@.contains(id),
    {
        id.0 < self.slab.len()
    }

    /// The content of the type `id`.
    pub fn get(&self, id: TypeId) -> (info: &TypeInfo)
        requires
            self@.contains(id),
        ensures
            info@ == self@.form(id),
    {
        &self.slab[id.0]
    }

    /// The handle that has the form of `info`, if there is one.
    pub fn find(&self, info: &TypeInfo) -> (found: Option<TypeId>)
        ensures
            found matches Some(id) ==> self@.contains(id) && self@.form(id) == info@,
            found is None ==> !self@.has_form(info@),
    {
        let mut i: usize = 0;
        while i < self.slab.len()
            invariant
                0 <= i <= self.slab.len(),
                forall|j: int| 0 <= j < i ==> self@.slots[j] != info@,
            decreases self.slab.len() - i,
        {
            if self.slab[i].same_form(info) {
                return Some(TypeId(i));
            }
            i += 1;
        }
        None
    }

    /// The handle of the type with the content `info`: the one that the
    /// engine already holds for this form, or else a new one.
    pub fn insert_type(&mut self, info: TypeInfo) -> (id: TypeId)
        requires
            old(self).wf(),
            old(self)@.closed_under(info@),
        ensures
            final(self).wf(),
            id == old(self)@.interned_id(info@),
            final(self)@ == old(self)@.interned(info@),
            final(self)@.contains(id),
            final(self)@.form(id) == info@,
            final(self)@.extends(old(self)@),
    {
        match self.find(&info) {
            Some(id) => {
                proof {
                    self@.lemma_interned_wf(info@);
                    let chosen = self@.interned_id(info@);
                    assert(self@.slots[id.0 as int] == self@.slots[chosen.0 as int]);
                }
                id
            },
            None => {
                let id = TypeId(self.slab.len());
                let ghost form = info@;
                self.slab.push(info);
                proof {
                    assert(old(self)@.slots.len() + 1 == self.slab.len());
                    old(self)@.lemma_interned_wf(form);
                    assert(self@.slots =~= old(self)@.slots.push(form));
                }
                id
            },
        }
    }
}

impl TypeTable {
    /// Whether `t` is the unit type, the empty tuple.
    pub open spec fn is_unit(self, t: TypeId) -> bool {
        self.form(t) matches TypeForm::Tuple(fields) && fields.len() == 0
    }

    /// Whether a value of `t` always fits in one machine word: unit,
    /// boolean, unsigned integer or pointer.
    pub open spec fn is_copy(self, t: TypeId) -> bool {
        match self.form(t) {
            TypeForm::Boolean | TypeForm::UnsignedInteger(_) | TypeForm::Pointer(_) => true,
            TypeForm::Tuple(fields) => fields.len() == 0,
            _ => false,
        }
    }

    /// Whether `t` is an array, a struct, a tuple with fields or a sum type.
    pub open spec fn is_aggregate(self, t: TypeId) -> bool {
        match self.form(t) {
            TypeForm::Array(_, _) | TypeForm::Struct(_, _) | TypeForm::Sum(_) => true,
            TypeForm::Tuple(fields) => fields.len() > 0,
            _ => false,
        }
    }

    /// The pointee of a pointer, any other type itself.
    pub open spec fn stripped(self, t: TypeId) -> TypeId {
        match self.form(t) {
            TypeForm::Pointer(p) => p,
            _ => t,
        }
    }

    /// The element type of an array.
    pub open spec fn array_elem(self, t: TypeId) -> Option<TypeId> {
        match self.form(t) {
            TypeForm::Array(e, _) => Some(e),
            _ => None,
        }
    }

    /// The fields of a struct or a tuple, the members of a sum type.
    pub open spec fn fields(self, t: TypeId) -> Option<Seq<TypeId>> {
        match self.form(t) {
            TypeForm::Struct(_, agg) => Some(agg),
            TypeForm::Tuple(agg) => Some(agg),
            TypeForm::Sum(agg) => Some(agg),
            _ => None,
        }
    }

    /// The type of the field of `t` at the position `index`.
    pub open spec fn field_at(self, t: TypeId, index: u64) -> Option<TypeId> {
        match self.fields(t) {
            Some(agg) => if index < agg.len() {
                Some(agg[index as int])
            } else {
                None
            },
            None => None,
        }
    }

    /// One step of indexed access: the field that a constant index of the
    /// 64-bit unsigned type selects, or else the element of an array.
    pub open spec fn index_step(self, t: TypeId, idx: IndexOperand) -> Option<TypeId> {
        let field = match idx {
            IndexOperand::Constant { ty, value } => if self.form(ty)
                == TypeForm::UnsignedInteger(64) {
                self.field_at(t, value)
            } else {
                None
            },
            IndexOperand::Dynamic => None,
        };
        match field {
            Some(f) => Some(f),
            None => self.array_elem(t),
        }
    }

    /// The type reached from `t` by the steps `indices`, one after another.
    pub open spec fn indexed_from(self, t: TypeId, indices: Seq<IndexOperand>) -> Option<TypeId>
        decreases indices.len(),
    {
        if indices.len() == 0 {
            Some(t)
        } else {
            match self.index_step(t, indices[0]) {
                Some(next) => self.indexed_from(next, indices.skip(1)),
                None => None,
            }
        }
    }

    /// The type of the value that `indices` address in a value of `t`. The
    /// first index is an offset from the base pointer and selects nothing.
    pub open spec fn indexed_type(self, t: TypeId, indices: Seq<IndexOperand>) -> Option<TypeId> {
        if indices.len() == 0 {
            Some(t)
        } else {
            self.indexed_from(self.stripped(t), indices.skip(1))
        }
    }

    /// Whether the type of `idx`, if it is a constant, is a handle.
    pub open spec fn operand_live(self, idx: IndexOperand) -> bool {
        idx matches IndexOperand::Constant { ty, .. } ==> self.contains(ty)
    }

    /// Whether the types of the constants in `indices` are handles, but
    /// for the first index, which is never looked at.
    pub open spec fn operands_live(self, indices: Seq<IndexOperand>) -> bool {
        forall|k: int| 1 <= k < indices.len() ==> self.operand_live(#[trigger] indices[k])
    }

    /// A part of a handle is an earlier handle.
    pub proof fn lemma_part_lower(self, t: TypeId, k: int)
        requires
            self.wf(),
            self.contains(t),
            0 <= k < parts(self.form(t)).len(),
        ensures
            parts(self.form(t))[k].0 < t.0,
            self.contains(parts(self.form(t))[k]),
    {
        assert((#[trigger] parts(self.slots[t.0 as int])[k]).0 < t.0);
    }

    /// A step from a handle leads to a handle.
    pub proof fn lemma_index_step_live(self, t: TypeId, idx: IndexOperand)
        requires
            self.wf(),
            self.contains(t),
        ensures
            self.index_step(t, idx) matches Some(next) ==> self.contains(next),
    {
        match self.index_step(t, idx) {
            Some(next) => {
                let i = choose|i: int| 0 <= i < parts(self.form(t)).len() && parts(self.form(t))[i] == next;
                if self.array_elem(t) == Some(next) {
                    assert(parts(self.form(t))[0] == next);
                    self.lemma_part_lower(t, 0);
                } else {
                    let agg = self.fields(t).unwrap();
                    let value = idx->value;
                    assert(agg[value as int] == next);
                    self.lemma_part_lower(t, value as int);
                }
            },
            None => {},
        }
    }

    /// Whether `b` is a sum type and `a` is not: the one case in which
    /// equivalence swaps its operands.
    pub open spec fn swaps(self, a: TypeId, b: TypeId) -> bool {
        self.form(b) is Sum && !(self.form(a) is Sum)
    }

    /// Whether `a` and `b` are equivalent. Types of the same kind are
    /// equivalent if their parts are, one by one. A sum type is also
    /// equivalent to any type that is equivalent to one of its members.
    pub open spec fn equiv(self, a: TypeId, b: TypeId) -> bool
        decreases a.0 + b.0, (if self.swaps(a, b) {
            1int
        } else {
            0int
        }), 1int,
        when self.wf() && self.contains(a) && self.contains(b)
    {
        proof {
            assert(parts(self.slots[a.0 as int]).len() >= 0);
        }
        match (self.slots[a.0 as int], self.slots[b.0 as int]) {
            (TypeForm::Array(_, llen), TypeForm::Array(_, rlen)) => llen == rlen
                && self.parts_equiv(a, b),
            (TypeForm::Pointer(_), TypeForm::Pointer(_)) => self.parts_equiv(a, b),
            (TypeForm::Tuple(_), TypeForm::Tuple(_)) => self.parts_equiv(a, b),
            (TypeForm::Struct(lname, _), TypeForm::Struct(rname, _)) => lname == rname
                && self.parts_equiv(a, b),
            (TypeForm::Sum(_), TypeForm::Sum(_)) => self.parts_equiv(a, b),
            (_, TypeForm::Sum(_)) => self.equiv(b, a),
            (TypeForm::Sum(l), _) => exists|i: int|
                0 <= i < l.len() && self.equiv(b, #[trigger] l[i]),
            (l, r) => parts(l).len() == 0 && l == r,
        }
    }

    /// Whether the parts of `a` and of `b` are as many and equivalent one
    /// by one.
    pub open spec fn parts_equiv(self, a: TypeId, b: TypeId) -> bool
        decreases a.0 + b.0, 0int, 0int,
        when self.wf() && self.contains(a) && self.contains(b) && !self.swaps(a, b)
    {
        let l = parts(self.slots[a.0 as int]);
        let r = parts(self.slots[b.0 as int]);
        l.len() == r.len() && forall|i: int| 0 <= i < l.len() ==> self.equiv(#[trigger] l[i], r[i])
    }
}

impl TypeTable {
    /// Every type is equivalent to itself.
    pub proof fn lemma_equiv_reflexive(self, a: TypeId)
        requires
            self.wf(),
            self.contains(a),
        ensures
            self.equiv(a, a),
        decreases a.0,
    {
        reveal_with_fuel(TypeTable::equiv, 2);
        let form = self.form(a);
        assert forall|i: int| 0 <= i < parts(form).len() implies self.equiv(
            #[trigger] parts(form)[i],
            parts(form)[i],
        ) by {
            self.lemma_part_lower(a, i);
            self.lemma_equiv_reflexive(parts(form)[i]);
        }
    }

    /// Equivalence does not depend on the order of its operands.
    pub proof fn lemma_equiv_symmetric(self, a: TypeId, b: TypeId)
        requires
            self.wf(),
            self.contains(a),
            self.contains(b),
        ensures
            self.equiv(a, b) == self.equiv(b, a),
        decreases a.0 + b.0,
    {
        reveal_with_fuel(TypeTable::equiv, 2);
        let l = parts(self.form(a));
        let r = parts(self.form(b));
        if l.len() == r.len() {
            assert forall|i: int| 0 <= i < l.len() implies self.equiv(#[trigger] l[i], r[i])
                == self.equiv(r[i], l[i]) by {
                self.lemma_part_lower(a, i);
                self.lemma_part_lower(b, i);
                self.lemma_equiv_symmetric(l[i], r[i]);
            }
            assert forall|i: int| 0 <= i < l.len() implies self.equiv(#[trigger] r[i], l[i])
                == self.equiv(l[i], r[i]) by {
                self.lemma_part_lower(a, i);
                self.lemma_part_lower(b, i);
                self.lemma_equiv_symmetric(l[i], r[i]);
            }
        }
    }

    /// A sum type `u` and a type `c` that is no sum type are equivalent
    /// exactly if `c` is equivalent to a member of `u`, in either order of
    /// the operands. So `u` is equivalent to each member that is no sum
    /// type.
    pub proof fn lemma_sum_equiv(self, u: TypeId, c: TypeId)
        requires
            self.wf(),
            self.contains(u),
            self.contains(c),
            self.form(u) is Sum,
            !(self.form(c) is Sum),
        ensures
            self.equiv(u, c) == (exists|i: int|
                0 <= i < parts(self.form(u)).len() && self.equiv(
                    c,
                    #[trigger] parts(self.form(u))[i],
                )),
            self.equiv(c, u) == self.equiv(u, c),
            forall|i: int|
                0 <= i < parts(self.form(u)).len() && #[trigger] parts(self.form(u))[i] == c
                    ==> self.equiv(u, c),
    {
        reveal_with_fuel(TypeTable::equiv, 2);
        self.lemma_equiv_reflexive(c);
    }
}

impl TypeEngine {
    /// Whether `id` is the unit type.
    pub fn is_unit(&self, id: TypeId) -> (unit: bool)
        requires
            self@.contains(id),
        ensures
            unit == self@.is_unit(id),
    {
        match self.get(id) {
            TypeInfo::Tuple(fields) => fields.len() == 0,
            _ => false,
        }
    }

    /// Whether a value of `id` always fits in one machine word.
    pub fn is_copy_type(&self, id: TypeId) -> (copy: bool)
        requires
            self@.contains(id),
        ensures
            copy == self@.is_copy(id),
    {
        match self.get(id) {
            TypeInfo::Boolean | TypeInfo::UnsignedInteger(_) | TypeInfo::Pointer(_) => true,
            TypeInfo::Tuple(fields) => fields.len() == 0,
            _ => false,
        }
    }

    /// Whether `id` is an array, a struct, a tuple with fields or a sum
    /// type.
    pub fn is_aggregate(&self, id: TypeId) -> (aggregate: bool)
        requires
            self@.contains(id),
        ensures
            aggregate == self@.is_aggregate(id),
    {
        match self.get(id) {
            TypeInfo::Array(_, _) | TypeInfo::Struct(_, _) | TypeInfo::Sum(_) => true,
            TypeInfo::Tuple(fields) => fields.len() > 0,
            _ => false,
        }
    }

    /// The pointee if `id` is a pointer type, else `id` itself.
    pub fn strip_pointer(&self, id: TypeId) -> (stripped: TypeId)
        requires
            self@.contains(id),
        ensures
            stripped == self@.stripped(id),
    {
        match self.get(id) {
            TypeInfo::Pointer(pointee) => *pointee,
            _ => id,
        }
    }

    /// The element type, if `id` is an array type.
    pub fn array_element_type(&self, id: TypeId) -> (elem: Option<TypeId>)
        requires
            self@.contains(id),
        ensures
            elem == self@.array_elem(id),
    {
        match self.get(id) {
            TypeInfo::Array(elem, _) => Some(*elem),
            _ => None,
        }
    }

    /// The type of the field at the position `index`, if `id` is a struct,
    /// a tuple or a sum type with such a field.
    pub fn field_type_at_index(&self, id: TypeId, index: u64) -> (field: Option<TypeId>)
        requires
            self@.contains(id),
        ensures
            field == self@.field_at(id, index),
    {
        match self.get(id) {
            TypeInfo::Struct(_, agg) | TypeInfo::Tuple(agg) | TypeInfo::Sum(agg) => {
                if index < agg.len() as u64 {
                    Some(agg[index as usize])
                } else {
                    None
                }
            },
            _ => None,
        }
    }

    /// One step of indexed access.
    fn index_step(&self, id: TypeId, idx: IndexOperand) -> (next: Option<TypeId>)
        requires
            self@.contains(id),
            self@.operand_live(idx),
        ensures
            next == self@.index_step(id, idx),
    {
        let field = match idx {
            IndexOperand::Constant { ty, value } => {
                let is_u64 = match self.get(ty) {
                    TypeInfo::UnsignedInteger(bits) => *bits == 64,
                    _ => false,
                };
                if is_u64 {
                    self.field_type_at_index(id, value)
                } else {
                    None
                }
            },
            IndexOperand::Dynamic => None,
        };
        match field {
            Some(f) => Some(f),
            None => self.array_element_type(id),
        }
    }

    /// The type of the value that `indices` address in a value of the type
    /// `base`: `None` as soon as an index selects nothing.
    pub fn indexed_type(&self, base: TypeId, indices: &[IndexOperand]) -> (indexed: Option<TypeId>)
        requires
            self.wf(),
            self@.contains(base),
            self@.operands_live(indices@),
        ensures
            indexed == self@.indexed_type(base, indices@),
            indexed matches Some(id) ==> self@.contains(id),
    {
        if indices.len() == 0 {
            return Some(base);
        }
        let mut ty = self.strip_pointer(base);
        proof {
            if self@.form(base) is Pointer {
                assert(parts(self@.form(base))[0] == ty);
                self@.lemma_part_lower(base, 0);
            }
        }
        let mut i: usize = 1;
        while i < indices.len()
            invariant
                self.wf(),
                self@.contains(ty),
                self@.operands_live(indices@),
                1 <= i <= indices.len(),
                self@.indexed_from(ty, indices@.skip(i as int)) == self@.indexed_type(
                    base,
                    indices@,
                ),
            decreases indices.len() - i,
        {
            let idx = indices[i];
            proof {
                assert(indices@.skip(i as int)[0] == idx);
                assert(indices@.skip(i as int).skip(1) =~= indices@.skip(i + 1));
                self@.lemma_index_step_live(ty, idx);
            }
            match self.index_step(ty, idx) {
                Some(next) => {
                    ty = next;
                },
                None => {
                    return None;
                },
            }
            i += 1;
        }
        Some(ty)
    }

    /// Whether the members `l` of `a` and `r` of `b` are as many and
    /// equivalent one by one.
    fn each_eq(&self, a: TypeId, b: TypeId, l: &Vec<TypeId>, r: &Vec<TypeId>) -> (equal: bool)
        requires
            self.wf(),
            self@.contains(a),
            self@.contains(b),
            l@ == parts(self@.form(a)),
            r@ == parts(self@.form(b)),
            !self@.swaps(a, b),
        ensures
            equal == self@.parts_equiv(a, b),
        decreases a.0 + b.0, 0int, 0int,
    {
        if l.len() != r.len() {
            return false;
        }
        let mut i: usize = 0;
        while i < l.len()
            invariant
                self.wf(),
                self@.contains(a),
                self@.contains(b),
                l@ == parts(self@.form(a)),
                r@ == parts(self@.form(b)),
                !self@.swaps(a, b),
                l.len() == r.len(),
                0 <= i <= l.len(),
                forall|j: int| 0 <= j < i ==> self@.equiv(#[trigger] l@[j], r@[j]),
            decreases l.len() - i,
        {
            proof {
                self@.lemma_part_lower(a, i as int);
                self@.lemma_part_lower(b, i as int);
            }
            if !self.type_eq(l[i], r[i]) {
                return false;
            }
            i += 1;
        }
        true
    }

    /// Whether the types `a` and `b` are equivalent. A sum type is
    /// equivalent to each type that is equivalent to one of its members.
    pub fn type_eq(&self, a: TypeId, b: TypeId) -> (equal: bool)
        requires
            self.wf(),
            self@.contains(a),
            self@.contains(b),
        ensures
            equal == self@.equiv(a, b),
        decreases a.0 + b.0, (if self@.swaps(a, b) {
            1int
        } else {
            0int
        }), 1int,
    {
        proof {
            reveal_with_fuel(TypeTable::equiv, 2);
        }
        match (self.get(a), self.get(b)) {
            (TypeInfo::Array(l, llen), TypeInfo::Array(r, rlen)) => {
                proof {
                    self@.lemma_part_lower(a, 0);
                    self@.lemma_part_lower(b, 0);
                    assert(parts(self@.form(a))[0] == *l);
                    assert(parts(self@.form(b))[0] == *r);
                }
                *llen == *rlen && self.type_eq(*l, *r)
            },
            (TypeInfo::Pointer(l), TypeInfo::Pointer(r)) => {
                proof {
                    self@.lemma_part_lower(a, 0);
                    self@.lemma_part_lower(b, 0);
                    assert(parts(self@.form(a))[0] == *l);
                    assert(parts(self@.form(b))[0] == *r);
                }
                self.type_eq(*l, *r)
            },
            (TypeInfo::Tuple(l), TypeInfo::Tuple(r)) => self.each_eq(a, b, l, r),
            (TypeInfo::Struct(lname, l), TypeInfo::Struct(rname, r)) => *lname == *rname
                && self.each_eq(a, b, l, r),
            (TypeInfo::Sum(l), TypeInfo::Sum(r)) => self.each_eq(a, b, l, r),
            (_, TypeInfo::Sum(_)) => self.type_eq(b, a),
            (TypeInfo::Sum(l), _) => {
                let mut i: usize = 0;
                while i < l.len()
                    invariant
                        self.wf(),
                        self@.contains(a),
                        self@.contains(b),
                        l@ == parts(self@.form(a)),
                        self@.form(a) is Sum,
                        !(self@.form(b) is Sum),
                        0 <= i <= l.len(),
                        forall|j: int| 0 <= j < i ==> !self@.equiv(b, #[trigger] l@[j]),
                    decreases l.len() - i,
                {
                    proof {
                        self@.lemma_part_lower(a, i as int);
                    }
                    if self.type_eq(b, l[i]) {
                        return true;
                    }
                    i += 1;
                }
                false
            },
            (l, r) => {
                let leaf = match l {
                    TypeInfo::Array(_, _) | TypeInfo::Pointer(_) => false,
                    TypeInfo::Tuple(v) | TypeInfo::Struct(_, v) | TypeInfo::Sum(v) => v.len() == 0,
                    _ => true,
                };
                leaf && l.same_form(r)
            },
        }
    }
}

impl TypeTable {
    /// The text of a type, as it is shown in messages: `bool`, `u64`,
    /// `[u8; 40]`, `(u64, bool)` for a tuple, `{ u64, bool }` for a struct,
    /// `( A | B )` for a sum type and `ptr T` for a pointer.
    pub open spec fn text(self, t: TypeId) -> Seq<char>
        decreases t.0, parts(self.slots[t.0 as int]).len() + 1,
        when self.wf() && self.contains(t)
    {
        proof {
            let first = parts(self.slots[t.0 as int])[0];
            assert(self.form(t) is Array || self.form(t) is Pointer ==> first.0 < t.0);
        }
        match self.slots[t.0 as int] {
            TypeForm::Unknown(n) => "?"@ + decimal(n as nat),
            TypeForm::Custom(name) => name,
            TypeForm::SelfType(_) => "Self"@,
            TypeForm::Boolean => "bool"@,
            TypeForm::UnsignedInteger(bits) => "u"@ + decimal(bits as nat),
            TypeForm::B256 => "b256"@,
            TypeForm::Str(n) => "str["@ + decimal(n as nat) + "]"@,
            TypeForm::Array(ty, cnt) => "["@ + self.text(ty) + "; "@ + decimal(cnt as nat) + "]"@,
            TypeForm::Pointer(pointee) => "ptr "@ + self.text(pointee),
            TypeForm::Tuple(agg) => "("@ + self.joined(t, agg.len(), ", "@) + ")"@,
            TypeForm::Struct(_, agg) => "{ "@ + self.joined(t, agg.len(), ", "@) + " }"@,
            TypeForm::Sum(agg) => "( "@ + self.joined(t, agg.len(), " | "@) + " )"@,
            TypeForm::ErrorRecovery => "unknown due to error"@,
        }
    }

    /// The texts of the first `n` parts of `t`, with `sep` between them.
    pub open spec fn joined(self, t: TypeId, n: nat, sep: Seq<char>) -> Seq<char>
        decreases t.0, n,
        when self.wf() && self.contains(t) && n <= parts(self.slots[t.0 as int]).len()
    {
        proof {
            assert(parts(self.slots[t.0 as int]).len() >= n);
        }
        if n == 0 {
            Seq::empty()
        } else if n == 1 {
            self.text(parts(self.slots[t.0 as int])[0])
        } else {
            self.joined(t, (n - 1) as nat, sep) + sep + self.text(
                parts(self.slots[t.0 as int])[n - 1],
            )
        }
    }
}

impl TypeEngine {
    /// The texts of the parts `agg` of `id`, with `sep` between them.
    fn parts_text(&self, id: TypeId, agg: &Vec<TypeId>, sep: &str) -> (text: String)
        requires
            self.wf(),
            self@.contains(id),
            agg@ == parts(self@.form(id)),
        ensures
            text@ == self@.joined(id, agg@.len(), sep@),
        decreases id.0, agg@.len(),
    {
        let mut text = String::new();
        let mut i: usize = 0;
        while i < agg.len()
            invariant
                self.wf(),
                self@.contains(id),
                agg@ == parts(self@.form(id)),
                0 <= i <= agg.len(),
                text@ == self@.joined(id, i as nat, sep@),
            decreases agg.len() - i,
        {
            proof {
                self@.lemma_part_lower(id, i as int);
            }
            let part = self.type_text(agg[i]);
            if i > 0 {
                text.append(sep);
            }
            text.append(part.as_str());
            proof {
                if i == 0 {
                    assert(Seq::<char>::empty() + part@ =~= part@);
                }
            }
            i += 1;
        }
        text
    }

    /// The text of the type `id`, as it is shown in messages.
    pub fn type_text(&self, id: TypeId) -> (text: String)
        requires
            self.wf(),
            self@.contains(id),
        ensures
            text@ == self@.text(id),
        decreases id.0, parts(self@.form(id)).len() + 1,
    {
        match self.get(id) {
            TypeInfo::Unknown(n) => {
                let mut text = String::from_str("?");
                push_decimal(&mut text, *n);
                text
            },
            TypeInfo::Custom(name) => name.clone(),
            TypeInfo::SelfType(_) => String::from_str("Self"),
            TypeInfo::Boolean => String::from_str("bool"),
            TypeInfo::UnsignedInteger(bits) => {
                let mut text = String::from_str("u");
                push_decimal(&mut text, *bits as u64);
                text
            },
            TypeInfo::B256 => String::from_str("b256"),
            TypeInfo::Str(n) => {
                let mut text = String::from_str("str[");
                push_decimal(&mut text, *n);
                text.append("]");
                text
            },
            TypeInfo::Array(ty, cnt) => {
                proof {
                    self@.lemma_part_lower(id, 0);
                }
                let mut text = String::from_str("[");
                let elem = self.type_text(*ty);
                text.append(elem.as_str());
                text.append("; ");
                push_decimal(&mut text, *cnt);
                text.append("]");
                text
            },
            TypeInfo::Pointer(pointee) => {
                proof {
                    self@.lemma_part_lower(id, 0);
                }
                let mut text = String::from_str("ptr ");
                let inner = self.type_text(*pointee);
                text.append(inner.as_str());
                text
            },
            TypeInfo::Tuple(agg) => {
                let mut text = String::from_str("(");
                let inner = self.parts_text(id, agg, ", ");
                text.append(inner.as_str());
                text.append(")");
                text
            },
            TypeInfo::Struct(_, agg) => {
                let mut text = String::from_str("{ ");
                let inner = self.parts_text(id, agg, ", ");
                text.append(inner.as_str());
                text.append(" }");
                text
            },
            TypeInfo::Sum(agg) => {
                let mut text = String::from_str("( ");
                let inner = self.parts_text(id, agg, " | ");
                text.append(inner.as_str());
                text.append(" )");
                text
            },
            TypeInfo::ErrorRecovery => String::from_str("unknown due to error"),
        }
    }
}

/// The words that stand for handles in a content hash: their number, then
/// each position.
pub open spec fn ids_words(ids: Seq<TypeId>) -> Seq<u64> {
    seq![ids.len() as u64] + ids.map_values(|t: TypeId| t.0 as u64)
}

/// The words that stand for a form in a content hash: a tag for its kind,
/// then what the form holds.
pub open spec fn form_words(form: TypeForm) -> Seq<u64> {
    match form {
        TypeForm::Unknown(n) => seq![0u64, n],
        TypeForm::Custom(name) => seq![1u64] + name_words(name),
        TypeForm::SelfType(scope) => seq![2u64, scope],
        TypeForm::Boolean => seq![3u64],
        TypeForm::UnsignedInteger(bits) => seq![4u64, bits as u64],
        TypeForm::B256 => seq![5u64],
        TypeForm::Str(len) => seq![6u64, len],
        TypeForm::Array(t, n) => seq![7u64, t.0 as u64, n],
        TypeForm::Pointer(t) => seq![8u64, t.0 as u64],
        TypeForm::Tuple(v) => seq![9u64] + ids_words(v),
        TypeForm::Struct(name, v) => seq![10u64] + name_words(name) + ids_words(v),
        TypeForm::Sum(v) => seq![11u64] + ids_words(v),
        TypeForm::ErrorRecovery => seq![12u64],
    }
}

/// Writes the words of the handles `ids`.
fn hash_ids(ids: &Vec<TypeId>, state: &mut HashState)
    ensures
        final(state)@ == old(state)@ + ids_words(ids@),
{
    state.write_u64(ids.len() as u64);
    let mut i: usize = 0;
    while i < ids.len()
        invariant
            0 <= i <= ids.len(),
            state@ == old(state)@.push(ids.len() as u64) + ids@.take(i as int).map_values(
                |t: TypeId| t.0 as u64,
            ),
        decreases ids.len() - i,
    {
        state.write_u64(ids[i].0 as u64);
        assert(ids@.take(i + 1).map_values(|t: TypeId| t.0 as u64) =~= ids@.take(
            i as int,
        ).map_values(|t: TypeId| t.0 as u64).push(ids@[i as int].0 as u64));
        i += 1;
    }
    assert(ids@.take(ids.len() as int) =~= ids@);
    assert(state@ =~= old(state)@ + ids_words(ids@));
}

impl TypeInfo {
    /// Writes the words of the content to `state`.
    pub fn hash(&self, state: &mut HashState)
        ensures
            final(state)@ == old(state)@ + form_words(self@),
    {
        match self {
            TypeInfo::Unknown(n) => {
                state.write_u8(0);
                state.write_u64(*n);
            },
            TypeInfo::Custom(name) => {
                state.write_u8(1);
                state.write_str(name.as_str());
            },
            TypeInfo::SelfType(scope) => {
                state.write_u8(2);
                state.write_u64(*scope);
            },
            TypeInfo::Boolean => {
                state.write_u8(3);
            },
            TypeInfo::UnsignedInteger(bits) => {
                state.write_u8(4);
                state.write_u8(*bits);
            },
            TypeInfo::B256 => {
                state.write_u8(5);
            },
            TypeInfo::Str(len) => {
                state.write_u8(6);
                state.write_u64(*len);
            },
            TypeInfo::Array(t, n) => {
                state.write_u8(7);
                state.write_u64(t.0 as u64);
                state.write_u64(*n);
            },
            TypeInfo::Pointer(t) => {
                state.write_u8(8);
                state.write_u64(t.0 as u64);
            },
            TypeInfo::Tuple(v) => {
                state.write_u8(9);
                hash_ids(v, state);
            },
            TypeInfo::Struct(name, v) => {
                state.write_u8(10);
                state.write_str(name.as_str());
                hash_ids(v, state);
            },
            TypeInfo::Sum(v) => {
                state.write_u8(11);
                hash_ids(v, state);
            },
            TypeInfo::ErrorRecovery => {
                state.write_u8(12);
            },
        }
        assert(state@ =~= old(state)@ + form_words(self@));
    }
}

} // verus!
