//! Unification: making two types agree by binding placeholders.
//!
//! A placeholder that takes part is bound to the other type, unless it is
//! bound already and to a type that is not equivalent, or occurs in the
//! other type, in one of its parts or in what a placeholder in it is bound
//! to: the bindings never lead from a placeholder back to itself. Two types of the same kind agree if their parts do, in
//! order. A sum type agrees with a type that agrees with one of its
//! members. The self type of a scope can be bound only inside that scope.

use crate::error::CompileError;
use crate::error::CompileWarning;
use crate::span::Span;
use crate::subst::TypeSubstMap;
use crate::type_engine::parts;
use crate::type_engine::TypeEngine;
use crate::type_engine::TypeForm;
use crate::type_engine::TypeId;
use crate::type_engine::TypeInfo;
use crate::type_engine::TypeTable;
use vstd::prelude::*;

verus! {

/// Why two types cannot be unified.
#[derive(Clone, Copy, Debug, PartialEq, Eq, Structural)]
pub enum UnifyFailure {
    /// The types do not agree.
    Mismatch,
    /// A placeholder would be bound to a type that contains it.
    Recursive,
}

/// Whether each handle in `m` is a handle of `table`.
pub open spec fn map_live(table: TypeTable, m: Map<TypeId, TypeId>) -> bool {
    forall|k: TypeId| #[trigger] m.contains_key(k) ==> table.contains(k) && table.contains(m[k])
}

impl TypeTable {
    /// Whether `p` can be reached from `t` by at most `fuel` steps along
    /// bindings and any number of steps to parts: `p` is `t`, or can be
    /// reached from a part of `t`, or from what `t` is bound to.
    pub open spec fn reaches(
        self,
        m: Map<TypeId, TypeId>,
        p: TypeId,
        t: TypeId,
        fuel: nat,
    ) -> bool
        decreases fuel, t.0,
        when self.wf() && self.contains(t)
    {
        proof {
            assert(parts(self.slots[t.0 as int]).len() >= 0);
        }
        p == t || (exists|k: int|
            0 <= k < parts(self.slots[t.0 as int]).len() && self.reaches(
                m,
                p,
                #[trigger] parts(self.slots[t.0 as int])[k],
                fuel,
            )) || (fuel > 0 && m.contains_key(t) && self.contains(m[t]) && self.reaches(
            m,
            p,
            m[t],
            (fuel - 1) as nat,
        ))
    }

    /// Whether `p` occurs in `t` under the bindings `m`: whether it can be
    /// reached from `t` through parts and bindings. No path without a
    /// cycle follows more bindings than there are types.
    pub open spec fn occurs(self, m: Map<TypeId, TypeId>, p: TypeId, t: TypeId) -> bool {
        self.reaches(m, p, t, self.slots.len())
    }

    /// The bindings after the placeholder `p` met the type `t`, which is
    /// another handle.
    pub open spec fn bound(self, m: Map<TypeId, TypeId>, p: TypeId, t: TypeId) -> Result<
        Map<TypeId, TypeId>,
        UnifyFailure,
    > {
        if m.contains_key(p) {
            if self.equiv(m[p], t) {
                Ok(m)
            } else {
                Err(UnifyFailure::Mismatch)
            }
        } else if self.occurs(m, p, t) {
            Err(UnifyFailure::Recursive)
        } else {
            Ok(m.insert(p, t))
        }
    }

    /// The bindings after `a` and `b` were unified under the bindings `m`
    /// inside the scope `scope`, or why they cannot be.
    pub open spec fn unified(
        self,
        m: Map<TypeId, TypeId>,
        a: TypeId,
        b: TypeId,
        scope: Option<u64>,
    ) -> Result<Map<TypeId, TypeId>, UnifyFailure>
        decreases a.0 + b.0, (if self.swaps(a, b) {
            1int
        } else {
            0int
        }), parts(self.slots[a.0 as int]).len() + 1,
        when self.wf() && self.contains(a) && self.contains(b)
    {
        if a == b {
            Ok(m)
        } else {
            match (self.slots[a.0 as int], self.slots[b.0 as int]) {
                (TypeForm::ErrorRecovery, _) => Ok(m),
                (_, TypeForm::ErrorRecovery) => Ok(m),
                (TypeForm::Unknown(_), _) => self.bound(m, a, b),
                (_, TypeForm::Unknown(_)) => self.bound(m, b, a),
                (TypeForm::SelfType(owner), _) => if scope == Some(owner) {
                    self.bound(m, a, b)
                } else {
                    Err(UnifyFailure::Mismatch)
                },
                (_, TypeForm::SelfType(owner)) => if scope == Some(owner) {
                    self.bound(m, b, a)
                } else {
                    Err(UnifyFailure::Mismatch)
                },
                (TypeForm::Array(_, llen), TypeForm::Array(_, rlen)) => if llen == rlen {
                    self.unified_parts(m, a, b, 0, scope)
                } else {
                    Err(UnifyFailure::Mismatch)
                },
                (TypeForm::Pointer(_), TypeForm::Pointer(_)) => self.unified_parts(m, a, b, 0, scope),
                (TypeForm::Tuple(_), TypeForm::Tuple(_)) => self.unified_parts(m, a, b, 0, scope),
                (TypeForm::Struct(lname, _), TypeForm::Struct(rname, _)) => if lname == rname {
                    self.unified_parts(m, a, b, 0, scope)
                } else {
                    Err(UnifyFailure::Mismatch)
                },
                (TypeForm::Sum(_), TypeForm::Sum(_)) => self.unified_parts(m, a, b, 0, scope),
                (_, TypeForm::Sum(_)) => self.unified(m, b, a, scope),
                (TypeForm::Sum(_), _) => self.unified_any(m, a, b, 0, scope),
                _ => Err(UnifyFailure::Mismatch),
            }
        }
    }

    /// The bindings after the parts of `a` and of `b` from the position `i`
    /// on were unified, one pair after another.
    pub open spec fn unified_parts(
        self,
        m: Map<TypeId, TypeId>,
        a: TypeId,
        b: TypeId,
        i: nat,
        scope: Option<u64>,
    ) -> Result<Map<TypeId, TypeId>, UnifyFailure>
        decreases a.0 + b.0, 0int, parts(self.slots[a.0 as int]).len() - i,
        when self.wf() && self.contains(a) && self.contains(b) && !self.swaps(a, b)
    {
        let l = parts(self.slots[a.0 as int]);
        let r = parts(self.slots[b.0 as int]);
        if l.len() != r.len() {
            Err(UnifyFailure::Mismatch)
        } else if i >= l.len() {
            Ok(m)
        } else {
            proof {
                assert(l[i as int].0 < a.0);
                assert(r[i as int].0 < b.0);
            }
            match self.unified(m, l[i as int], r[i as int], scope) {
                Ok(next) => self.unified_parts(next, a, b, i + 1, scope),
                Err(e) => Err(e),
            }
        }
    }

    /// The bindings after `b` was unified with the first member of the sum
    /// type `a`, from the position `i` on, with which it can be.
    pub open spec fn unified_any(
        self,
        m: Map<TypeId, TypeId>,
        a: TypeId,
        b: TypeId,
        i: nat,
        scope: Option<u64>,
    ) -> Result<Map<TypeId, TypeId>, UnifyFailure>
        decreases a.0 + b.0, 0int, parts(self.slots[a.0 as int]).len() - i,
        when self.wf() && self.contains(a) && self.contains(b) && !self.swaps(a, b)
    {
        let l = parts(self.slots[a.0 as int]);
        if i >= l.len() {
            Err(UnifyFailure::Mismatch)
        } else {
            proof {
                assert(l[i as int].0 < a.0);
            }
            match self.unified(m, b, l[i as int], scope) {
                Ok(next) => Ok(next),
                Err(_) => self.unified_any(m, a, b, i + 1, scope),
            }
        }
    }
}

impl TypeTable {
    /// Unifying the self type of the scope `scope` with a type that is
    /// neither a placeholder nor the type for recovery binds the self
    /// type as a placeholder is bound.
    pub proof fn lemma_self_type_unified(
        self,
        m: Map<TypeId, TypeId>,
        self_id: TypeId,
        other: TypeId,
        scope: u64,
    )
        requires
            self.wf(),
            self.contains(self_id),
            self.contains(other),
            self.form(self_id) == TypeForm::SelfType(scope),
            !(self.form(other) is Unknown),
            !(self.form(other) is ErrorRecovery),
            !(self.form(other) is SelfType),
        ensures
            self.unified(m, self_id, other, Some(scope)) == self.bound(m, self_id, other),
    {
    }

    /// A placeholder that is not bound and does not occur in a type is
    /// bound to it.
    pub proof fn lemma_bound_succeeds(self, m: Map<TypeId, TypeId>, p: TypeId, t: TypeId)
        requires
            !m.contains_key(p),
            !self.occurs(m, p, t),
        ensures
            self.bound(m, p, t) == Ok::<Map<TypeId, TypeId>, UnifyFailure>(m.insert(p, t)),
    {
    }

    /// A handle does not occur in a type that is not bound and whose parts
    /// are other handles without parts that are not bound: not in a struct
    /// of plain fields.
    pub proof fn lemma_plain_not_reached(self, m: Map<TypeId, TypeId>, p: TypeId, t: TypeId)
        requires
            self.wf(),
            self.contains(t),
            p != t,
            !m.contains_key(t),
            forall|k: int|
                0 <= k < parts(self.form(t)).len() ==> {
                    let part = #[trigger] parts(self.form(t))[k];
                    part != p && parts(self.form(part)).len() == 0 && !m.contains_key(part)
                },
        ensures
            !self.occurs(m, p, t),
    {
        reveal_with_fuel(TypeTable::reaches, 2);
        let fuel = self.slots.len();
        assert forall|k: int| 0 <= k < parts(self.form(t)).len() implies !self.reaches(
            m,
            p,
            #[trigger] parts(self.form(t))[k],
            fuel,
        ) by {
            self.lemma_part_lower(t, k);
        }
    }
}

/// Whether `n` has every binding of `m`.
pub open spec fn keeps(m: Map<TypeId, TypeId>, n: Map<TypeId, TypeId>) -> bool {
    forall|k: TypeId| #[trigger] m.contains_key(k) ==> n.contains_key(k) && n[k] == m[k]
}

impl TypeTable {
    /// Unification keeps what was bound: where it succeeds, every binding
    /// from before is a binding after.
    pub proof fn lemma_unified_keeps(
        self,
        m: Map<TypeId, TypeId>,
        a: TypeId,
        b: TypeId,
        scope: Option<u64>,
    )
        requires
            self.wf(),
            self.contains(a),
            self.contains(b),
        ensures
            self.unified(m, a, b, scope) matches Ok(n) ==> keeps(m, n),
        decreases a.0 + b.0, (if self.swaps(a, b) {
            1int
        } else {
            0int
        }), parts(self.slots[a.0 as int]).len() + 1,
    {
        if a != b {
            match (self.slots[a.0 as int], self.slots[b.0 as int]) {
                (TypeForm::ErrorRecovery, _) => {},
                (_, TypeForm::ErrorRecovery) => {},
                (TypeForm::Unknown(_), _) => {},
                (_, TypeForm::Unknown(_)) => {},
                (TypeForm::SelfType(_), _) => {},
                (_, TypeForm::SelfType(_)) => {},
                (TypeForm::Array(_, llen), TypeForm::Array(_, rlen)) => {
                    if llen == rlen {
                        self.lemma_unified_parts_keeps(m, a, b, 0, scope);
                    }
                },
                (TypeForm::Pointer(_), TypeForm::Pointer(_)) => {
                    self.lemma_unified_parts_keeps(m, a, b, 0, scope);
                },
                (TypeForm::Tuple(_), TypeForm::Tuple(_)) => {
                    self.lemma_unified_parts_keeps(m, a, b, 0, scope);
                },
                (TypeForm::Struct(lname, _), TypeForm::Struct(rname, _)) => {
                    if lname == rname {
                        self.lemma_unified_parts_keeps(m, a, b, 0, scope);
                    }
                },
                (TypeForm::Sum(_), TypeForm::Sum(_)) => {
                    self.lemma_unified_parts_keeps(m, a, b, 0, scope);
                },
                (_, TypeForm::Sum(_)) => {
                    self.lemma_unified_keeps(m, b, a, scope);
                },
                (TypeForm::Sum(_), _) => {
                    self.lemma_unified_any_keeps(m, a, b, 0, scope);
                },
                _ => {},
            }
        }
    }

    /// Unifying the parts of two types keeps what was bound.
    pub proof fn lemma_unified_parts_keeps(
        self,
        m: Map<TypeId, TypeId>,
        a: TypeId,
        b: TypeId,
        i: nat,
        scope: Option<u64>,
    )
        requires
            self.wf(),
            self.contains(a),
            self.contains(b),
            !self.swaps(a, b),
        ensures
            self.unified_parts(m, a, b, i, scope) matches Ok(n) ==> keeps(m, n),
        decreases a.0 + b.0, 0int, parts(self.slots[a.0 as int]).len() - i,
    {
        let l = parts(self.slots[a.0 as int]);
        let r = parts(self.slots[b.0 as int]);
        if l.len() == r.len() && i < l.len() {
            self.lemma_part_lower(a, i as int);
            self.lemma_part_lower(b, i as int);
            self.lemma_unified_keeps(m, l[i as int], r[i as int], scope);
            match self.unified(m, l[i as int], r[i as int], scope) {
                Ok(next) => {
                    self.lemma_unified_parts_keeps(next, a, b, i + 1, scope);
                },
                Err(_) => {},
            }
        }
    }

    /// Unifying a type with a member of a sum type keeps what was bound.
    pub proof fn lemma_unified_any_keeps(
        self,
        m: Map<TypeId, TypeId>,
        a: TypeId,
        b: TypeId,
        i: nat,
        scope: Option<u64>,
    )
        requires
            self.wf(),
            self.contains(a),
            self.contains(b),
            !self.swaps(a, b),
        ensures
            self.unified_any(m, a, b, i, scope) matches Ok(n) ==> keeps(m, n),
        decreases a.0 + b.0, 0int, parts(self.slots[a.0 as int]).len() - i,
    {
        let l = parts(self.slots[a.0 as int]);
        if i < l.len() {
            self.lemma_part_lower(a, i as int);
            self.lemma_unified_keeps(m, b, l[i as int], scope);
            match self.unified(m, b, l[i as int], scope) {
                Ok(_) => {},
                Err(_) => {
                    self.lemma_unified_any_keeps(m, a, b, i + 1, scope);
                },
            }
        }
    }
}

impl TypeEngine {
    /// Whether `p` can be reached from `t` by at most `fuel` steps along
    /// bindings and any number of steps to parts.
    fn reaches(&self, bindings: &TypeSubstMap, p: TypeId, t: TypeId, fuel: usize) -> (reached: bool)
        requires
            self.wf(),
            self@.contains(t),
        ensures
            reached == self@.reaches(bindings@, p, t, fuel as nat),
        decreases fuel, t.0,
    {
        if p == t {
            return true;
        }
        let one: Vec<TypeId>;
        let agg: &Vec<TypeId> = match self.get(t) {
            TypeInfo::Array(elem, _) => {
                one = vec![*elem];
                &one
            },
            TypeInfo::Pointer(pointee) => {
                one = vec![*pointee];
                &one
            },
            TypeInfo::Tuple(agg) => agg,
            TypeInfo::Struct(_, agg) => agg,
            TypeInfo::Sum(agg) => agg,
            _ => {
                one = Vec::new();
                &one
            },
        };
        assert(agg@ =~= parts(self@.form(t)));
        let mut i: usize = 0;
        while i < agg.len()
            invariant
                self.wf(),
                self@.contains(t),
                agg@ == parts(self@.form(t)),
                0 <= i <= agg.len(),
                forall|j: int|
                    0 <= j < i ==> !self@.reaches(bindings@, p, #[trigger] agg@[j], fuel as nat),
            decreases agg.len() - i,
        {
            proof {
                self@.lemma_part_lower(t, i as int);
            }
            if self.reaches(bindings, p, agg[i], fuel) {
                return true;
            }
            i += 1;
        }
        if fuel > 0 {
            match bindings.find(t) {
                Some(image) => {
                    if self.contains(image) {
                        return self.reaches(bindings, p, image, fuel - 1);
                    }
                },
                None => {},
            }
        }
        false
    }

    /// Whether `p` occurs in `t` under `bindings`: whether it can be
    /// reached from `t` through parts and bindings.
    pub fn occurs_in(&self, bindings: &TypeSubstMap, p: TypeId, t: TypeId) -> (occurs: bool)
        requires
            self.wf(),
            self@.contains(t),
        ensures
            occurs == self@.occurs(bindings@, p, t),
    {
        self.reaches(bindings, p, t, self.len())
    }

    /// Binds the placeholder `p` to `t`, another handle.
    fn bind(&self, bindings: TypeSubstMap, p: TypeId, t: TypeId) -> (outcome: Result<
        TypeSubstMap,
        UnifyFailure,
    >)
        requires
            self.wf(),
            self@.contains(p),
            self@.contains(t),
            map_live(self@, bindings@),
        ensures
            match self@.bound(bindings@, p, t) {
                Ok(m) => outcome matches Ok(next) && next@ == m && map_live(self@, m),
                Err(e) => outcome == Err::<TypeSubstMap, UnifyFailure>(e),
            },
    {
        let mut bindings = bindings;
        match bindings.find(p) {
            Some(image) => {
                assert(bindings@.contains_key(p));
                if self.type_eq(image, t) {
                    Ok(bindings)
                } else {
                    Err(UnifyFailure::Mismatch)
                }
            },
            None => {
                if self.occurs_in(&bindings, p, t) {
                    Err(UnifyFailure::Recursive)
                } else {
                    let ghost before = bindings@;
                    bindings.insert(p, t);
                    proof {
                        assert forall|k: TypeId| #[trigger]
                            bindings@.contains_key(k) implies self@.contains(k) && self@.contains(
                            bindings@[k],
                        ) by {
                            if k != p {
                                assert(before.contains_key(k));
                            }
                        }
                    }
                    Ok(bindings)
                }
            },
        }
    }

    /// Unifies the parts `l` of `a` with the parts `r` of `b`, one pair
    /// after another.
    fn unify_parts(
        &self,
        bindings: TypeSubstMap,
        a: TypeId,
        b: TypeId,
        l: &Vec<TypeId>,
        r: &Vec<TypeId>,
        scope: Option<u64>,
    ) -> (outcome: Result<TypeSubstMap, UnifyFailure>)
        requires
            self.wf(),
            self@.contains(a),
            self@.contains(b),
            !self@.swaps(a, b),
            l@ == parts(self@.form(a)),
            r@ == parts(self@.form(b)),
            map_live(self@, bindings@),
        ensures
            match self@.unified_parts(bindings@, a, b, 0, scope) {
                Ok(m) => outcome matches Ok(next) && next@ == m && map_live(self@, m),
                Err(e) => outcome == Err::<TypeSubstMap, UnifyFailure>(e),
            },
        decreases a.0 + b.0, 0int, l.len() + 1,
    {
        if l.len() != r.len() {
            return Err(UnifyFailure::Mismatch);
        }
        let ghost start = bindings@;
        let mut current = bindings;
        let mut i: usize = 0;
        while i < l.len()
            invariant
                self.wf(),
                self@.contains(a),
                self@.contains(b),
                !self@.swaps(a, b),
                l@ == parts(self@.form(a)),
                r@ == parts(self@.form(b)),
                l.len() == r.len(),
                0 <= i <= l.len(),
                map_live(self@, current@),
                start == bindings@,
                self@.unified_parts(current@, a, b, i as nat, scope) == self@.unified_parts(
                    start,
                    a,
                    b,
                    0,
                    scope,
                ),
            decreases l.len() - i,
        {
            proof {
                self@.lemma_part_lower(a, i as int);
                self@.lemma_part_lower(b, i as int);
            }
            match self.unify_with(current, l[i], r[i], scope) {
                Ok(next) => {
                    current = next;
                },
                Err(e) => {
                    return Err(e);
                },
            }
            i += 1;
        }
        Ok(current)
    }

    /// Unifies `a` and `b` under `bindings` inside the scope `scope`.
    pub fn unify_with(&self, bindings: TypeSubstMap, a: TypeId, b: TypeId, scope: Option<u64>) -> (outcome:
        Result<TypeSubstMap, UnifyFailure>)
        requires
            self.wf(),
            self@.contains(a),
            self@.contains(b),
            map_live(self@, bindings@),
        ensures
            match self@.unified(bindings@, a, b, scope) {
                Ok(m) => outcome matches Ok(next) && next@ == m && map_live(self@, m),
                Err(e) => outcome == Err::<TypeSubstMap, UnifyFailure>(e),
            },
        decreases a.0 + b.0, (if self@.swaps(a, b) {
            1int
        } else {
            0int
        }), usize::MAX + 2,
    {
        proof {
            reveal_with_fuel(TypeTable::unified, 2);
        }
        if a == b {
            return Ok(bindings);
        }
        match (self.get(a), self.get(b)) {
            (TypeInfo::ErrorRecovery, _) => Ok(bindings),
            (_, TypeInfo::ErrorRecovery) => Ok(bindings),
            (TypeInfo::Unknown(_), _) => self.bind(bindings, a, b),
            (_, TypeInfo::Unknown(_)) => self.bind(bindings, b, a),
            (TypeInfo::SelfType(owner), _) => {
                if scope == Some(*owner) {
                    self.bind(bindings, a, b)
                } else {
                    Err(UnifyFailure::Mismatch)
                }
            },
            (_, TypeInfo::SelfType(owner)) => {
                if scope == Some(*owner) {
                    self.bind(bindings, b, a)
                } else {
                    Err(UnifyFailure::Mismatch)
                }
            },
            (TypeInfo::Array(l, llen), TypeInfo::Array(r, rlen)) => {
                if *llen == *rlen {
                    let lv = vec![*l];
                    let rv = vec![*r];
                    assert(lv@ =~= parts(self@.form(a)));
                    assert(rv@ =~= parts(self@.form(b)));
                    self.unify_parts(bindings, a, b, &lv, &rv, scope)
                } else {
                    Err(UnifyFailure::Mismatch)
                }
            },
            (TypeInfo::Pointer(l), TypeInfo::Pointer(r)) => {
                let lv = vec![*l];
                let rv = vec![*r];
                assert(lv@ =~= parts(self@.form(a)));
                assert(rv@ =~= parts(self@.form(b)));
                self.unify_parts(bindings, a, b, &lv, &rv, scope)
            },
            (TypeInfo::Tuple(l), TypeInfo::Tuple(r)) => self.unify_parts(bindings, a, b, l, r, scope),
            (TypeInfo::Struct(lname, l), TypeInfo::Struct(rname, r)) => {
                if *lname == *rname {
                    self.unify_parts(bindings, a, b, l, r, scope)
                } else {
                    Err(UnifyFailure::Mismatch)
                }
            },
            (TypeInfo::Sum(l), TypeInfo::Sum(r)) => self.unify_parts(bindings, a, b, l, r, scope),
            (_, TypeInfo::Sum(_)) => self.unify_with(bindings, b, a, scope),
            (TypeInfo::Sum(l), _) => {
                let mut i: usize = 0;
                while i < l.len()
                    invariant
                        self.wf(),
                        self@.contains(a),
                        self@.contains(b),
                        !self@.swaps(a, b),
                        self@.form(a) is Sum,
                        l@ == parts(self@.form(a)),
                        0 <= i <= l.len(),
                        map_live(self@, bindings@),
                        self@.unified_any(bindings@, a, b, i as nat, scope) == self@.unified(
                            bindings@,
                            a,
                            b,
                            scope,
                        ),
                    decreases l.len() - i,
                {
                    proof {
                        self@.lemma_part_lower(a, i as int);
                    }
                    match self.unify_with(bindings.copy(), b, l[i], scope) {
                        Ok(next) => {
                            return Ok(next);
                        },
                        Err(_) => {},
                    }
                    i += 1;
                }
                Err(UnifyFailure::Mismatch)
            },
            _ => Err(UnifyFailure::Mismatch),
        }
    }

    /// Unifies the types `expected` and `actual` inside the scope `scope`
    /// and records in `bindings` what was bound. Where the types cannot be
    /// unified, `bindings` stays as it was and the error names both types
    /// and `span`.
    pub fn unify(
        &self,
        bindings: &mut TypeSubstMap,
        expected: TypeId,
        actual: TypeId,
        span: &Span,
        help_text: &str,
        scope: Option<u64>,
    ) -> (outcome: Result<Vec<CompileWarning>, CompileError>)
        requires
            self.wf(),
            self@.contains(expected),
            self@.contains(actual),
            map_live(self@, old(bindings)@),
        ensures
            map_live(self@, final(bindings)@),
            match self@.unified(old(bindings)@, expected, actual, scope) {
                Ok(m) => {
                    &&& final(bindings)@ == m
                    &&& outcome matches Ok(warnings)
                    &&& warnings@.len() == 0
                },
                Err(UnifyFailure::Mismatch) => {
                    &&& final(bindings)@ == old(bindings)@
                    &&& outcome matches Err(
                        CompileError::TypeError { expected: e, received: r, help_text: h, span: s },
                    )
                    &&& e@ == self@.text(expected)
                    &&& r@ == self@.text(actual)
                    &&& h@ == help_text@
                    &&& s == *span
                },
                Err(UnifyFailure::Recursive) => {
                    &&& final(bindings)@ == old(bindings)@
                    &&& outcome matches Err(CompileError::RecursiveType { span: s })
                    &&& s == *span
                },
            },
    {
        match self.unify_with(bindings.copy(), expected, actual, scope) {
            Ok(next) => {
                *bindings = next;
                Ok(Vec::new())
            },
            Err(UnifyFailure::Mismatch) => Err(
                CompileError::TypeError {
                    expected: self.type_text(expected),
                    received: self.type_text(actual),
                    help_text: String::from_str(help_text),
                    span: *span,
                },
            ),
            Err(UnifyFailure::Recursive) => Err(CompileError::RecursiveType { span: *span }),
        }
    }
}

} // verus!
