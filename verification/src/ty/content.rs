//! Content equality and content hashes of the nodes of the typed tree:
//! two nodes with the same content have the same hash.

use crate::decl_engine::Engines;
use crate::language::HashState;
use crate::language::Literal;
use crate::language::name_words;
use crate::ty::access_live;
use crate::ty::content_live;
use crate::ty::decl_live;
use crate::ty::descriptor_live;
use crate::ty::expr_live;
use crate::ty::lemma_listed_live;
use crate::ty::listed;
use crate::ty::node_live;
use crate::ty::TyAstNode;
use crate::ty::TyAstNodeContent;
use crate::ty::TyDeclaration;
use crate::ty::TyExpression;
use crate::ty::TyExpressionVariant;
use crate::ty::TyStorageAccess;
use crate::ty::TyStorageAccessDescriptor;
use crate::type_engine::form_words;
use crate::type_engine::TypeEngine;
use crate::type_engine::TypeTable;
use vstd::prelude::*;

verus! {

/// Whether two descriptors have the same content: the same name and types
/// of the same form.
pub open spec fn descriptor_eq(
    table: TypeTable,
    x: TyStorageAccessDescriptor,
    y: TyStorageAccessDescriptor,
) -> bool {
    x.name@ == y.name@ && table.form(x.type_id) == table.form(y.type_id)
}

/// Whether two accesses have the same content.
pub open spec fn access_eq(table: TypeTable, x: TyStorageAccess, y: TyStorageAccess) -> bool {
    x.ix == y.ix && x.fields@.len() == y.fields@.len() && forall|i: int|
        0 <= i < x.fields@.len() ==> descriptor_eq(table, #[trigger] x.fields@[i], y.fields@[i])
}

/// Whether two expressions have the same content: the same kind, parts
/// with the same content, and types of the same form. Where they stand
/// does not count.
pub open spec fn expr_eq(table: TypeTable, x: TyExpression, y: TyExpression) -> bool
    decreases x,
{
    table.form(x.return_type) == table.form(y.return_type) && match (x.expression, y.expression) {
        (TyExpressionVariant::Literal(a), TyExpressionVariant::Literal(b)) => a == b,
        (
            TyExpressionVariant::VariableExpression { name: a },
            TyExpressionVariant::VariableExpression { name: b },
        ) => a@ == b@,
        (
            TyExpressionVariant::FunctionApplication {
                call_path: pa,
                arguments: aa,
                function_decl_id: da,
            },
            TyExpressionVariant::FunctionApplication {
                call_path: pb,
                arguments: ab,
                function_decl_id: db,
            },
        ) => pa@ == pb@ && da == db && aa@.len() == ab@.len() && forall|i: int|
            0 <= i < aa@.len() ==> expr_eq(table, #[trigger] aa@[i], ab@[i]),
        (TyExpressionVariant::Tuple { fields: a }, TyExpressionVariant::Tuple { fields: b }) => a@.len()
            == b@.len() && forall|i: int| 0 <= i < a@.len() ==> expr_eq(table, #[trigger] a@[i], b@[i]),
        (TyExpressionVariant::StorageAccess(a), TyExpressionVariant::StorageAccess(b)) => access_eq(
            table,
            a,
            b,
        ),
        (TyExpressionVariant::Return(a), TyExpressionVariant::Return(b)) => expr_eq(table, *a, *b),
        (TyExpressionVariant::Revert(a), TyExpressionVariant::Revert(b)) => expr_eq(table, *a, *b),
        (TyExpressionVariant::Break, TyExpressionVariant::Break) => true,
        (TyExpressionVariant::Continue, TyExpressionVariant::Continue) => true,
        _ => false,
    }
}

/// The words of a descriptor in a content hash.
pub open spec fn descriptor_words(table: TypeTable, x: TyStorageAccessDescriptor) -> Seq<u64> {
    name_words(x.name@) + form_words(table.form(x.type_id))
}

/// The words of descriptors, one after another.
pub open spec fn descriptors_words(table: TypeTable, s: Seq<TyStorageAccessDescriptor>) -> Seq<u64>
    decreases s.len(),
{
    if s.len() == 0 {
        Seq::empty()
    } else {
        descriptors_words(table, s.drop_last()) + descriptor_words(table, s.last())
    }
}

/// The words of an access in a content hash.
pub open spec fn access_words(table: TypeTable, x: TyStorageAccess) -> Seq<u64> {
    seq![x.fields@.len() as u64] + descriptors_words(table, x.fields@) + seq![x.ix.0]
}

/// The words of a literal in a content hash.
pub open spec fn literal_words(x: Literal) -> Seq<u64> {
    match x {
        Literal::U64(n) => seq![0u64, n],
        Literal::Boolean(b) => seq![1u64, if b {
            1u64
        } else {
            0u64
        }],
    }
}

/// The words of an expression in a content hash: a tag for its kind, the
/// words of its parts, then the words of the form of its type.
pub open spec fn expr_words(table: TypeTable, x: TyExpression) -> Seq<u64>
    decreases x, listed(x).len() + 1,
{
    (match x.expression {
        TyExpressionVariant::Literal(l) => seq![1u64] + literal_words(l),
        TyExpressionVariant::VariableExpression { name } => seq![2u64] + name_words(name@),
        TyExpressionVariant::FunctionApplication { call_path, arguments, function_decl_id } => seq![
            3u64,
        ] + name_words(call_path@) + seq![function_decl_id.0 as u64, arguments@.len() as u64]
            + exprs_words(table, x, arguments@.len()),
        TyExpressionVariant::Tuple { fields } => seq![4u64, fields@.len() as u64] + exprs_words(
            table,
            x,
            fields@.len(),
        ),
        TyExpressionVariant::StorageAccess(access) => seq![5u64] + access_words(table, access),
        TyExpressionVariant::Return(e) => seq![6u64] + expr_words(table, *e),
        TyExpressionVariant::Revert(e) => seq![7u64] + expr_words(table, *e),
        TyExpressionVariant::Break => seq![8u64],
        TyExpressionVariant::Continue => seq![9u64],
    }) + form_words(table.form(x.return_type))
}

/// The words of the first `n` expressions that `x` holds in a list.
pub open spec fn exprs_words(table: TypeTable, x: TyExpression, n: nat) -> Seq<u64>
    decreases x, n,
{
    if n == 0 || n > listed(x).len() {
        Seq::empty()
    } else {
        exprs_words(table, x, (n - 1) as nat) + expr_words(table, listed(x)[n - 1])
    }
}

/// Whether two declarations have the same content. Declarations that the
/// engine owns are the same if their handles are: the engine does not
/// intern, so a handle is the identity of a declaration, and the hash of
/// a node, which takes the type engine alone, can tell declarations apart
/// by their handles only.
pub open spec fn decl_eq(table: TypeTable, x: TyDeclaration, y: TyDeclaration) -> bool {
    match (x, y) {
        (TyDeclaration::VariableDeclaration(a), TyDeclaration::VariableDeclaration(b)) => a.name@
            == b.name@ && a.is_mutable == b.is_mutable && table.form(a.type_ascription)
            == table.form(b.type_ascription) && expr_eq(table, a.body, b.body),
        (TyDeclaration::ConstantDeclaration(a), TyDeclaration::ConstantDeclaration(b)) => a == b,
        (TyDeclaration::FunctionDeclaration(a), TyDeclaration::FunctionDeclaration(b)) => a == b,
        (TyDeclaration::TraitDeclaration(a), TyDeclaration::TraitDeclaration(b)) => a == b,
        (TyDeclaration::StructDeclaration(a), TyDeclaration::StructDeclaration(b)) => a == b,
        (TyDeclaration::EnumDeclaration(a), TyDeclaration::EnumDeclaration(b)) => a == b,
        (TyDeclaration::ImplTrait(a), TyDeclaration::ImplTrait(b)) => a == b,
        (TyDeclaration::AbiDeclaration(a), TyDeclaration::AbiDeclaration(b)) => a == b,
        (TyDeclaration::StorageDeclaration(a), TyDeclaration::StorageDeclaration(b)) => a == b,
        (TyDeclaration::ErrorRecovery, TyDeclaration::ErrorRecovery) => true,
        _ => false,
    }
}

/// The words of a declaration in a content hash.
pub open spec fn decl_words(table: TypeTable, x: TyDeclaration) -> Seq<u64> {
    match x {
        TyDeclaration::VariableDeclaration(v) => seq![0u64] + name_words(v.name@) + seq![
            if v.is_mutable {
                1u64
            } else {
                0u64
            },
        ] + form_words(table.form(v.type_ascription)) + expr_words(table, v.body),
        TyDeclaration::ConstantDeclaration(id) => seq![1u64, id.0 as u64],
        TyDeclaration::FunctionDeclaration(id) => seq![2u64, id.0 as u64],
        TyDeclaration::TraitDeclaration(id) => seq![3u64, id.0 as u64],
        TyDeclaration::StructDeclaration(id) => seq![4u64, id.0 as u64],
        TyDeclaration::EnumDeclaration(id) => seq![5u64, id.0 as u64],
        TyDeclaration::ImplTrait(id) => seq![6u64, id.0 as u64],
        TyDeclaration::AbiDeclaration(id) => seq![7u64, id.0 as u64],
        TyDeclaration::StorageDeclaration(id) => seq![8u64, id.0 as u64],
        TyDeclaration::ErrorRecovery => seq![9u64],
    }
}

/// Whether two nodes have the same content. Where they stand does not
/// count.
pub open spec fn node_eq(table: TypeTable, x: TyAstNodeContent, y: TyAstNodeContent) -> bool {
    match (x, y) {
        (TyAstNodeContent::Declaration(a), TyAstNodeContent::Declaration(b)) => decl_eq(table, a, b),
        (TyAstNodeContent::Expression(a), TyAstNodeContent::Expression(b)) => expr_eq(table, a, b),
        (
            TyAstNodeContent::ImplicitReturnExpression(a),
            TyAstNodeContent::ImplicitReturnExpression(b),
        ) => expr_eq(table, a, b),
        (TyAstNodeContent::SideEffect, TyAstNodeContent::SideEffect) => true,
        _ => false,
    }
}

/// The words of a node in a content hash: a tag for its kind, then the
/// words of what it holds.
pub open spec fn node_words(table: TypeTable, x: TyAstNodeContent) -> Seq<u64> {
    match x {
        TyAstNodeContent::Declaration(d) => seq![1u64] + decl_words(table, d),
        TyAstNodeContent::Expression(e) => seq![2u64] + expr_words(table, e),
        TyAstNodeContent::ImplicitReturnExpression(e) => seq![3u64] + expr_words(table, e),
        TyAstNodeContent::SideEffect => seq![4u64],
    }
}

/// Descriptors with the same content, one by one, have the same words.
pub proof fn lemma_descriptors_words(
    table: TypeTable,
    x: Seq<TyStorageAccessDescriptor>,
    y: Seq<TyStorageAccessDescriptor>,
)
    requires
        x.len() == y.len(),
        forall|i: int| 0 <= i < x.len() ==> descriptor_eq(table, #[trigger] x[i], y[i]),
    ensures
        descriptors_words(table, x) == descriptors_words(table, y),
    decreases x.len(),
{
    if x.len() > 0 {
        assert(descriptor_eq(table, x[x.len() - 1], y[y.len() - 1]));
        assert forall|i: int| 0 <= i < x.drop_last().len() implies descriptor_eq(
            table,
            #[trigger] x.drop_last()[i],
            y.drop_last()[i],
        ) by {
            assert(descriptor_eq(table, x[i], y[i]));
        }
        lemma_descriptors_words(table, x.drop_last(), y.drop_last());
    }
}

/// Expressions with the same content have the same words in a content
/// hash.
pub proof fn lemma_expr_eq_words(table: TypeTable, x: TyExpression, y: TyExpression)
    requires
        expr_eq(table, x, y),
    ensures
        expr_words(table, x) == expr_words(table, y),
    decreases x, listed(x).len() + 1,
{
    match (x.expression, y.expression) {
        (
            TyExpressionVariant::FunctionApplication { arguments: aa, .. },
            TyExpressionVariant::FunctionApplication { arguments: ab, .. },
        ) => {
            lemma_exprs_eq_words(table, x, y, aa@.len());
        },
        (TyExpressionVariant::Tuple { fields: a }, TyExpressionVariant::Tuple { fields: b }) => {
            lemma_exprs_eq_words(table, x, y, a@.len());
        },
        (TyExpressionVariant::StorageAccess(a), TyExpressionVariant::StorageAccess(b)) => {
            lemma_descriptors_words(table, a.fields@, b.fields@);
        },
        (TyExpressionVariant::Return(a), TyExpressionVariant::Return(b)) => {
            lemma_expr_eq_words(table, *a, *b);
        },
        (TyExpressionVariant::Revert(a), TyExpressionVariant::Revert(b)) => {
            lemma_expr_eq_words(table, *a, *b);
        },
        _ => {},
    }
}

/// The first `n` listed expressions of two expressions with the same
/// content have the same words.
pub proof fn lemma_exprs_eq_words(table: TypeTable, x: TyExpression, y: TyExpression, n: nat)
    requires
        listed(x).len() == listed(y).len(),
        n <= listed(x).len(),
        forall|i: int| 0 <= i < listed(x).len() ==> expr_eq(table, #[trigger] listed(x)[i], listed(y)[i]),
    ensures
        exprs_words(table, x, n) == exprs_words(table, y, n),
    decreases x, n,
{
    if n > 0 {
        lemma_exprs_eq_words(table, x, y, (n - 1) as nat);
        assert(expr_eq(table, listed(x)[n - 1], listed(y)[n - 1]));
        lemma_expr_eq_words(table, listed(x)[n - 1], listed(y)[n - 1]);
    }
}

/// Nodes with the same content have the same words in a content hash.
pub proof fn lemma_node_eq_words(table: TypeTable, x: TyAstNodeContent, y: TyAstNodeContent)
    requires
        node_eq(table, x, y),
    ensures
        node_words(table, x) == node_words(table, y),
{
    match (x, y) {
        (TyAstNodeContent::Declaration(a), TyAstNodeContent::Declaration(b)) => {
            match (a, b) {
                (
                    TyDeclaration::VariableDeclaration(va),
                    TyDeclaration::VariableDeclaration(vb),
                ) => {
                    lemma_expr_eq_words(table, va.body, vb.body);
                },
                _ => {},
            }
        },
        (TyAstNodeContent::Expression(a), TyAstNodeContent::Expression(b)) => {
            lemma_expr_eq_words(table, a, b);
        },
        (
            TyAstNodeContent::ImplicitReturnExpression(a),
            TyAstNodeContent::ImplicitReturnExpression(b),
        ) => {
            lemma_expr_eq_words(table, a, b);
        },
        _ => {},
    }
}

impl TyStorageAccessDescriptor {
    /// Whether the descriptors have the same content.
    pub fn eq(&self, other: &Self, engines: Engines<'_>) -> (equal: bool)
        requires
            descriptor_live(engines.types()@, *self),
            descriptor_live(engines.types()@, *other),
        ensures
            equal == descriptor_eq(engines.types()@, *self, *other),
    {
        let type_engine = engines.te();
        self.name.same_name(&other.name) && type_engine.get(self.type_id).same_form(
            type_engine.get(other.type_id),
        )
    }

    /// Writes the words of the descriptor to `state`.
    pub fn hash(&self, state: &mut HashState, type_engine: &TypeEngine)
        requires
            descriptor_live(type_engine@, *self),
        ensures
            final(state)@ == old(state)@ + descriptor_words(type_engine@, *self),
    {
        state.write_str(self.name.as_str());
        type_engine.get(self.type_id).hash(state);
        assert(state@ =~= old(state)@ + descriptor_words(type_engine@, *self));
    }
}

impl TyStorageAccess {
    /// Whether the accesses have the same content.
    pub fn eq(&self, other: &Self, engines: Engines<'_>) -> (equal: bool)
        requires
            access_live(engines.types()@, *self),
            access_live(engines.types()@, *other),
        ensures
            equal == access_eq(engines.types()@, *self, *other),
    {
        if !(self.ix == other.ix && self.fields.len() == other.fields.len()) {
            return false;
        }
        let mut i: usize = 0;
        while i < self.fields.len()
            invariant
                access_live(engines.types()@, *self),
                access_live(engines.types()@, *other),
                self.fields.len() == other.fields.len(),
                0 <= i <= self.fields.len(),
                forall|j: int|
                    0 <= j < i ==> descriptor_eq(
                        engines.types()@,
                        #[trigger] self.fields@[j],
                        other.fields@[j],
                    ),
            decreases self.fields.len() - i,
        {
            if !self.fields[i].eq(&other.fields[i], engines) {
                return false;
            }
            i += 1;
        }
        true
    }

    /// Writes the words of the access to `state`.
    pub fn hash(&self, state: &mut HashState, type_engine: &TypeEngine)
        requires
            access_live(type_engine@, *self),
        ensures
            final(state)@ == old(state)@ + access_words(type_engine@, *self),
    {
        state.write_u64(self.fields.len() as u64);
        let mut i: usize = 0;
        while i < self.fields.len()
            invariant
                access_live(type_engine@, *self),
                0 <= i <= self.fields.len(),
                state@ == old(state)@.push(self.fields.len() as u64) + descriptors_words(
                    type_engine@,
                    self.fields@.take(i as int),
                ),
            decreases self.fields.len() - i,
        {
            let ghost before = state@;
            self.fields[i].hash(state, type_engine);
            proof {
                assert(self.fields@.take(i + 1).drop_last() =~= self.fields@.take(i as int));
                assert(self.fields@.take(i + 1).last() == self.fields@[i as int]);
                assert(state@ =~= old(state)@.push(self.fields.len() as u64) + descriptors_words(
                    type_engine@,
                    self.fields@.take(i + 1),
                ));
            }
            i += 1;
        }
        assert(self.fields@.take(self.fields.len() as int) =~= self.fields@);
        state.write_u64(self.ix.0);
        assert(state@ =~= old(state)@ + access_words(type_engine@, *self));
    }
}

/// Whether the expressions `a` and `b`, which the expressions `x` and `y`
/// hold in a list, have the same content, one by one.
fn exprs_eq(
    x: &TyExpression,
    y: &TyExpression,
    a: &Vec<TyExpression>,
    b: &Vec<TyExpression>,
    engines: Engines<'_>,
) -> (equal: bool)
    requires
        a@ == listed(*x),
        b@ == listed(*y),
        expr_live(engines.types()@, *x),
        expr_live(engines.types()@, *y),
    ensures
        equal == (a@.len() == b@.len() && forall|i: int|
            0 <= i < a@.len() ==> expr_eq(engines.types()@, #[trigger] a@[i], b@[i])),
    decreases *x, 0int,
{
    if a.len() != b.len() {
        return false;
    }
    let mut i: usize = 0;
    while i < a.len()
        invariant
            a@ == listed(*x),
            b@ == listed(*y),
            expr_live(engines.types()@, *x),
            expr_live(engines.types()@, *y),
            a.len() == b.len(),
            0 <= i <= a.len(),
            forall|j: int| 0 <= j < i ==> expr_eq(engines.types()@, #[trigger] a@[j], b@[j]),
        decreases a.len() - i,
    {
        proof {
            lemma_listed_live(engines.types()@, *x, i as int);
            lemma_listed_live(engines.types()@, *y, i as int);
        }
        if !a[i].eq(&b[i], engines) {
            return false;
        }
        i += 1;
    }
    true
}

/// Writes the words of the expressions `a`, which `x` holds in a list.
fn exprs_hash(x: &TyExpression, a: &Vec<TyExpression>, state: &mut HashState, type_engine: &TypeEngine)
    requires
        a@ == listed(*x),
        expr_live(type_engine@, *x),
    ensures
        final(state)@ == old(state)@ + exprs_words(type_engine@, *x, a@.len()),
    decreases *x, 0int,
{
    let mut i: usize = 0;
    assert(state@ =~= old(state)@ + exprs_words(type_engine@, *x, 0));
    while i < a.len()
        invariant
            a@ == listed(*x),
            expr_live(type_engine@, *x),
            0 <= i <= a.len(),
            state@ == old(state)@ + exprs_words(type_engine@, *x, i as nat),
        decreases a.len() - i,
    {
        proof {
            lemma_listed_live(type_engine@, *x, i as int);
        }
        a[i].hash(state, type_engine);
        assert(state@ =~= old(state)@ + exprs_words(type_engine@, *x, (i + 1) as nat));
        i += 1;
    }
}

impl Literal {
    /// Writes the words of the literal to `state`.
    pub fn hash(&self, state: &mut HashState)
        ensures
            final(state)@ == old(state)@ + literal_words(*self),
    {
        match self {
            Literal::U64(n) => {
                state.write_u8(0);
                state.write_u64(*n);
            },
            Literal::Boolean(b) => {
                state.write_u8(1);
                state.write_u8(if *b {
                    1
                } else {
                    0
                });
            },
        }
        assert(state@ =~= old(state)@ + literal_words(*self));
    }
}

impl TyExpression {
    /// Whether the expressions have the same content.
    pub fn eq(&self, other: &Self, engines: Engines<'_>) -> (equal: bool)
        requires
            expr_live(engines.types()@, *self),
            expr_live(engines.types()@, *other),
        ensures
            equal == expr_eq(engines.types()@, *self, *other),
        decreases *self, 1int,
    {
        let type_engine = engines.te();
        if !type_engine.get(self.return_type).same_form(type_engine.get(other.return_type)) {
            return false;
        }
        match (&self.expression, &other.expression) {
            (TyExpressionVariant::Literal(a), TyExpressionVariant::Literal(b)) => *a == *b,
            (
                TyExpressionVariant::VariableExpression { name: a },
                TyExpressionVariant::VariableExpression { name: b },
            ) => a.same_name(b),
            (
                TyExpressionVariant::FunctionApplication {
                    call_path: pa,
                    arguments: aa,
                    function_decl_id: da,
                },
                TyExpressionVariant::FunctionApplication {
                    call_path: pb,
                    arguments: ab,
                    function_decl_id: db,
                },
            ) => pa.same_name(pb) && *da == *db && exprs_eq(self, other, aa, ab, engines),
            (
                TyExpressionVariant::Tuple { fields: a },
                TyExpressionVariant::Tuple { fields: b },
            ) => exprs_eq(self, other, a, b, engines),
            (TyExpressionVariant::StorageAccess(a), TyExpressionVariant::StorageAccess(b)) => a.eq(
                b,
                engines,
            ),
            (TyExpressionVariant::Return(a), TyExpressionVariant::Return(b)) => TyExpression::eq(
                a,
                b,
                engines,
            ),
            (TyExpressionVariant::Revert(a), TyExpressionVariant::Revert(b)) => TyExpression::eq(
                a,
                b,
                engines,
            ),
            (TyExpressionVariant::Break, TyExpressionVariant::Break) => true,
            (TyExpressionVariant::Continue, TyExpressionVariant::Continue) => true,
            _ => false,
        }
    }

    /// Writes the words of the expression to `state`.
    pub fn hash(&self, state: &mut HashState, type_engine: &TypeEngine)
        requires
            expr_live(type_engine@, *self),
        ensures
            final(state)@ == old(state)@ + expr_words(type_engine@, *self),
        decreases *self, 1int,
    {
        match &self.expression {
            TyExpressionVariant::Literal(l) => {
                state.write_u8(1);
                l.hash(state);
            },
            TyExpressionVariant::VariableExpression { name } => {
                state.write_u8(2);
                state.write_str(name.as_str());
            },
            TyExpressionVariant::FunctionApplication { call_path, arguments, function_decl_id } => {
                state.write_u8(3);
                state.write_str(call_path.as_str());
                state.write_u64(function_decl_id.0 as u64);
                state.write_u64(arguments.len() as u64);
                exprs_hash(self, arguments, state, type_engine);
            },
            TyExpressionVariant::Tuple { fields } => {
                state.write_u8(4);
                state.write_u64(fields.len() as u64);
                exprs_hash(self, fields, state, type_engine);
            },
            TyExpressionVariant::StorageAccess(access) => {
                state.write_u8(5);
                access.hash(state, type_engine);
            },
            TyExpressionVariant::Return(e) => {
                state.write_u8(6);
                e.hash(state, type_engine);
            },
            TyExpressionVariant::Revert(e) => {
                state.write_u8(7);
                e.hash(state, type_engine);
            },
            TyExpressionVariant::Break => {
                state.write_u8(8);
            },
            TyExpressionVariant::Continue => {
                state.write_u8(9);
            },
        }
        type_engine.get(self.return_type).hash(state);
        assert(state@ =~= old(state)@ + expr_words(type_engine@, *self));
    }
}

impl TyDeclaration {
    /// Whether the declarations have the same content.
    pub fn eq(&self, other: &Self, engines: Engines<'_>) -> (equal: bool)
        requires
            decl_live(engines.types()@, *self),
            decl_live(engines.types()@, *other),
        ensures
            equal == decl_eq(engines.types()@, *self, *other),
    {
        match (self, other) {
            (TyDeclaration::VariableDeclaration(a), TyDeclaration::VariableDeclaration(b)) => {
                let type_engine = engines.te();
                a.name.same_name(&b.name) && a.is_mutable == b.is_mutable && type_engine.get(
                    a.type_ascription,
                ).same_form(type_engine.get(b.type_ascription)) && a.body.eq(&b.body, engines)
            },
            (TyDeclaration::ConstantDeclaration(a), TyDeclaration::ConstantDeclaration(b)) => *a
                == *b,
            (TyDeclaration::FunctionDeclaration(a), TyDeclaration::FunctionDeclaration(b)) => *a
                == *b,
            (TyDeclaration::TraitDeclaration(a), TyDeclaration::TraitDeclaration(b)) => *a == *b,
            (TyDeclaration::StructDeclaration(a), TyDeclaration::StructDeclaration(b)) => *a == *b,
            (TyDeclaration::EnumDeclaration(a), TyDeclaration::EnumDeclaration(b)) => *a == *b,
            (TyDeclaration::ImplTrait(a), TyDeclaration::ImplTrait(b)) => *a == *b,
            (TyDeclaration::AbiDeclaration(a), TyDeclaration::AbiDeclaration(b)) => *a == *b,
            (TyDeclaration::StorageDeclaration(a), TyDeclaration::StorageDeclaration(b)) => *a
                == *b,
            (TyDeclaration::ErrorRecovery, TyDeclaration::ErrorRecovery) => true,
            _ => false,
        }
    }

    /// Writes the words of the declaration to `state`.
    pub fn hash(&self, state: &mut HashState, type_engine: &TypeEngine)
        requires
            decl_live(type_engine@, *self),
        ensures
            final(state)@ == old(state)@ + decl_words(type_engine@, *self),
    {
        match self {
            TyDeclaration::VariableDeclaration(v) => {
                state.write_u8(0);
                state.write_str(v.name.as_str());
                state.write_u8(if v.is_mutable {
                    1
                } else {
                    0
                });
                type_engine.get(v.type_ascription).hash(state);
                v.body.hash(state, type_engine);
            },
            TyDeclaration::ConstantDeclaration(id) => {
                state.write_u8(1);
                state.write_u64(id.0 as u64);
            },
            TyDeclaration::FunctionDeclaration(id) => {
                state.write_u8(2);
                state.write_u64(id.0 as u64);
            },
            TyDeclaration::TraitDeclaration(id) => {
                state.write_u8(3);
                state.write_u64(id.0 as u64);
            },
            TyDeclaration::StructDeclaration(id) => {
                state.write_u8(4);
                state.write_u64(id.0 as u64);
            },
            TyDeclaration::EnumDeclaration(id) => {
                state.write_u8(5);
                state.write_u64(id.0 as u64);
            },
            TyDeclaration::ImplTrait(id) => {
                state.write_u8(6);
                state.write_u64(id.0 as u64);
            },
            TyDeclaration::AbiDeclaration(id) => {
                state.write_u8(7);
                state.write_u64(id.0 as u64);
            },
            TyDeclaration::StorageDeclaration(id) => {
                state.write_u8(8);
                state.write_u64(id.0 as u64);
            },
            TyDeclaration::ErrorRecovery => {
                state.write_u8(9);
            },
        }
        assert(state@ =~= old(state)@ + decl_words(type_engine@, *self));
    }
}

impl TyAstNodeContent {
    /// Whether the nodes have the same content.
    pub fn eq(&self, other: &Self, engines: Engines<'_>) -> (equal: bool)
        requires
            content_live(engines.types()@, *self),
            content_live(engines.types()@, *other),
        ensures
            equal == node_eq(engines.types()@, *self, *other),
    {
        match (self, other) {
            (Self::Declaration(x), Self::Declaration(y)) => x.eq(y, engines),
            (Self::Expression(x), Self::Expression(y)) => x.eq(y, engines),
            (Self::ImplicitReturnExpression(x), Self::ImplicitReturnExpression(y)) => x.eq(
                y,
                engines,
            ),
            (Self::SideEffect, Self::SideEffect) => true,
            _ => false,
        }
    }

    /// Writes the words of the node to `state`: a tag for its kind, then
    /// the words of what it holds.
    pub fn hash(&self, state: &mut HashState, type_engine: &TypeEngine)
        requires
            content_live(type_engine@, *self),
        ensures
            final(state)@ == old(state)@ + node_words(type_engine@, *self),
    {
        match self {
            TyAstNodeContent::Declaration(decl) => {
                state.write_u8(1);
                decl.hash(state, type_engine);
            },
            TyAstNodeContent::Expression(exp) => {
                state.write_u8(2);
                exp.hash(state, type_engine);
            },
            TyAstNodeContent::ImplicitReturnExpression(exp) => {
                state.write_u8(3);
                exp.hash(state, type_engine);
            },
            TyAstNodeContent::SideEffect => {
                state.write_u8(4);
            },
        }
        assert(state@ =~= old(state)@ + node_words(type_engine@, *self));
    }
}

impl TyAstNode {
    /// Whether the nodes have the same content. Where they stand does not
    /// count.
    pub fn eq(&self, other: &Self, engines: Engines<'_>) -> (equal: bool)
        requires
            node_live(engines.types()@, *self),
            node_live(engines.types()@, *other),
        ensures
            equal == node_eq(engines.types()@, self.content, other.content),
    {
        self.content.eq(&other.content, engines)
    }

    /// Writes the words of the node to `state`.
    pub fn hash(&self, state: &mut HashState, type_engine: &TypeEngine)
        requires
            node_live(type_engine@, *self),
        ensures
            final(state)@ == old(state)@ + node_words(type_engine@, self.content),
    {
        self.content.hash(state, type_engine);
    }
}

} // verus!
