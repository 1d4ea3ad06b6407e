//! Substitution maps: from placeholder handles to the handles that take
//! their place.

use crate::type_engine::TypeEngine;
use crate::type_engine::TypeId;
use crate::unify::map_live;
use vstd::prelude::*;

verus! {

/// The map that a list of bindings stands for: a later binding of a handle
/// replaces an earlier one.
pub open spec fn bindings_map(pairs: Seq<(TypeId, TypeId)>) -> Map<TypeId, TypeId>
    decreases pairs.len(),
{
    if pairs.len() == 0 {
        Map::empty()
    } else {
        bindings_map(pairs.drop_last()).insert(pairs.last().0, pairs.last().1)
    }
}

/// The handle that takes the place of `t` under `m`: its image where `m`
/// binds it, else `t` itself.
pub open spec fn applied(m: Map<TypeId, TypeId>, t: TypeId) -> TypeId {
    if m.contains_key(t) {
        m[t]
    } else {
        t
    }
}

/// The map that acts as `first` followed by `second`, where no image of
/// `first` is bound by `second`.
pub open spec fn composed(first: Map<TypeId, TypeId>, second: Map<TypeId, TypeId>) -> Map<
    TypeId,
    TypeId,
> {
    second.union_prefer_right(first)
}

/// Whether no image under `first` is bound by `second`.
pub open spec fn range_apart(first: Map<TypeId, TypeId>, second: Map<TypeId, TypeId>) -> bool {
    forall|k: TypeId| #[trigger] first.contains_key(k) ==> !second.contains_key(first[k])
}

/// Applying `first` and then `second` to a handle is applying their
/// composition, where no image of `first` is bound by `second`.
pub proof fn lemma_applied_composed(
    first: Map<TypeId, TypeId>,
    second: Map<TypeId, TypeId>,
    t: TypeId,
)
    requires
        range_apart(first, second),
    ensures
        applied(second, applied(first, t)) == applied(composed(first, second), t),
{
    if first.contains_key(t) {
        assert(!second.contains_key(first[t]));
    }
}

/// Each handle that a binding in the list binds is bound in the map.
pub proof fn lemma_pair_is_bound(pairs: Seq<(TypeId, TypeId)>, i: int)
    requires
        0 <= i < pairs.len(),
    ensures
        bindings_map(pairs).contains_key(pairs[i].0),
    decreases pairs.len(),
{
    if i < pairs.len() - 1 {
        lemma_pair_is_bound(pairs.drop_last(), i);
    }
}

/// Each handle that the map binds is bound by a binding in the list.
pub proof fn lemma_bound_has_pair(pairs: Seq<(TypeId, TypeId)>, k: TypeId)
    requires
        bindings_map(pairs).contains_key(k),
    ensures
        exists|i: int| 0 <= i < pairs.len() && (#[trigger] pairs[i]).0 == k,
    decreases pairs.len(),
{
    if pairs.len() > 0 {
        if pairs.last().0 == k {
            assert(pairs[pairs.len() - 1].0 == k);
        } else {
            lemma_bound_has_pair(pairs.drop_last(), k);
            let i = choose|i: int|
                0 <= i < pairs.drop_last().len() && (#[trigger] pairs.drop_last()[i]).0 == k;
            assert(pairs[i].0 == k);
        }
    }
}

/// A substitution map.
pub struct TypeSubstMap {
    pairs: Vec<(TypeId, TypeId)>,
}

impl View for TypeSubstMap {
    type V = Map<TypeId, TypeId>;

    closed spec fn view(&self) -> Map<TypeId, TypeId> {
        bindings_map(self.pairs@)
    }
}

impl TypeSubstMap {
    /// The map that binds nothing.
    pub fn new() -> (map: TypeSubstMap)
        ensures
            map@ == Map::<TypeId, TypeId>::empty(),
    {
        TypeSubstMap { pairs: Vec::new() }
    }

    /// Whether the map binds nothing.
    pub fn is_empty(&self) -> (empty: bool)
        ensures
            empty == (self@ == Map::<TypeId, TypeId>::empty()),
    {
        proof {
            if self.pairs@.len() > 0 {
                assert(self@.contains_key(self.pairs@.last().0));
            }
        }
        self.pairs.len() == 0
    }

    /// Binds `source` to `destination`.
    pub fn insert(&mut self, source: TypeId, destination: TypeId)
        ensures
            final(self)@ == old(self)@.insert(source, destination),
    {
        self.pairs.push((source, destination));
        assert(self.pairs@.drop_last() =~= old(self).pairs@);
    }

    /// The handle that `source` is bound to.
    pub fn find(&self, source: TypeId) -> (found: Option<TypeId>)
        ensures
            found == (if self@.contains_key(source) {
                Some(self@[source])
            } else {
                None
            }),
    {
        let mut i: usize = self.pairs.len();
        assert(self.pairs@.take(i as int) =~= self.pairs@);
        while i > 0
            invariant
                0 <= i <= self.pairs.len(),
                self@.contains_key(source) == bindings_map(self.pairs@.take(i as int)).contains_key(
                    source,
                ),
                self@.contains_key(source) ==> self@[source] == bindings_map(
                    self.pairs@.take(i as int),
                )[source],
            decreases i,
        {
            i -= 1;
            assert(self.pairs@.take(i + 1).drop_last() =~= self.pairs@.take(i as int));
            assert(self.pairs@.take(i + 1).last() == self.pairs@[i as int]);
            let (from, to) = self.pairs[i];
            if from == source {
                return Some(to);
            }
        }
        None
    }

    /// The handle that takes the place of `id`.
    pub fn apply(&self, id: TypeId) -> (image: TypeId)
        ensures
            image == applied(self@, id),
    {
        match self.find(id) {
            Some(to) => to,
            None => id,
        }
    }

    /// Whether every handle in the map is a handle of `type_engine`.
    pub fn is_live(&self, type_engine: &TypeEngine) -> (live: bool)
        ensures
            live == map_live(type_engine@, self@),
    {
        let mut i: usize = 0;
        while i < self.pairs.len()
            invariant
                0 <= i <= self.pairs.len(),
                forall|j: int|
                    0 <= j < i ==> type_engine@.contains((#[trigger] self.pairs@[j]).0)
                        && type_engine@.contains(self@[self.pairs@[j].0]),
            decreases self.pairs.len() - i,
        {
            let source = self.pairs[i].0;
            proof {
                lemma_pair_is_bound(self.pairs@, i as int);
            }
            let image = self.apply(source);
            if !(type_engine.contains(source) && type_engine.contains(image)) {
                return false;
            }
            i += 1;
        }
        proof {
            assert forall|k: TypeId| #[trigger] self@.contains_key(k) implies type_engine@.contains(
                k,
            ) && type_engine@.contains(self@[k]) by {
                lemma_bound_has_pair(self.pairs@, k);
                let j = choose|j: int| 0 <= j < self.pairs@.len() && (#[trigger] self.pairs@[j]).0 == k;
                assert(type_engine@.contains(self.pairs@[j].0));
            }
        }
        true
    }

    /// A copy of the map.
    pub fn copy(&self) -> (map: TypeSubstMap)
        ensures
            map@ == self@,
    {
        let mut pairs: Vec<(TypeId, TypeId)> = Vec::new();
        let mut i: usize = 0;
        while i < self.pairs.len()
            invariant
                0 <= i <= self.pairs.len(),
                pairs@ == self.pairs@.take(i as int),
            decreases self.pairs.len() - i,
        {
            pairs.push(self.pairs[i]);
            assert(self.pairs@.take(i as int).push(self.pairs@[i as int]) =~= self.pairs@.take(
                i + 1,
            ));
            i += 1;
        }
        assert(self.pairs@.take(self.pairs.len() as int) =~= self.pairs@);
        TypeSubstMap { pairs }
    }
}

impl TypeId {
    /// Replaces the handle by the one that `type_mapping` binds it to, if
    /// it binds it.
    pub fn subst(&mut self, type_mapping: &TypeSubstMap)
        ensures
            *final(self) == applied(type_mapping@, *old(self)),
    {
        let image = type_mapping.apply(*self);
        *self = image;
    }
}

} // verus!
