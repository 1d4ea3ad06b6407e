//! Rewriting the handles in a tree: substitution of types, replacement of
//! the self type, replacement of declarations.

use crate::decl_engine::DeclId;
use crate::decl_engine::DeclMapping;
use crate::decl_engine::DeclWrapper;
use crate::decl_engine::TyEnumVariant;
use crate::decl_engine::TyFunctionParameter;
use crate::decl_engine::TyStorageField;
use crate::decl_engine::TyStructField;
use crate::decl_engine::TyTraitFn;
use crate::decl_engine::TypeParameter;
use crate::decl_engine::Engines;
use crate::decl_engine::replaced;
use crate::language::Literal;
use crate::subst::applied;
use crate::subst::composed;
use crate::subst::lemma_applied_composed;
use crate::subst::range_apart;
use crate::subst::TypeSubstMap;
use crate::ty::TyAstNode;
use crate::ty::TyAstNodeContent;
use crate::ty::TyDeclaration;
use crate::ty::TyExpression;
use crate::ty::TyExpressionVariant;
use crate::ty::TyStorageAccess;
use crate::ty::TyStorageAccessDescriptor;
use crate::ty::TyVariableDeclaration;
use crate::ty::lemma_listed_smaller;
use crate::ty::listed;
use crate::type_engine::TypeEngine;
use crate::type_engine::TypeId;
use crate::type_engine::TypeInfo;
use crate::type_engine::TypeTable;
use vstd::prelude::*;

verus! {

/// The rewriting of type handles that a substitution map stands for.
pub open spec fn subst_fn(m: Map<TypeId, TypeId>) -> spec_fn(TypeId) -> TypeId {
    |t: TypeId| applied(m, t)
}

/// The rewriting of type handles that puts `self_type` in the place of
/// each self type.
pub open spec fn self_fn(table: TypeTable, self_type: TypeId) -> spec_fn(TypeId) -> TypeId {
    |t: TypeId|
        if table.contains(t) && table.form(t) is SelfType {
            self_type
        } else {
            t
        }
}

/// The rewriting that keeps every type handle.
pub open spec fn keep_types() -> spec_fn(TypeId) -> TypeId {
    |t: TypeId| t
}

/// The rewriting of declaration handles that a declaration mapping stands
/// for.
pub open spec fn decl_fn(m: Map<DeclId, DeclId>) -> spec_fn(DeclId) -> DeclId {
    |d: DeclId| replaced(m, d)
}

/// The rewriting that keeps every declaration handle.
pub open spec fn keep_decls() -> spec_fn(DeclId) -> DeclId {
    |d: DeclId| d
}

/// Whether `new` is `old` with each type handle rewritten by `f`.
pub open spec fn descriptor_rewritten(
    new: TyStorageAccessDescriptor,
    old: TyStorageAccessDescriptor,
    f: spec_fn(TypeId) -> TypeId,
) -> bool {
    new.name == old.name && new.span == old.span && new.type_id == f(old.type_id)
}

/// Whether `new` is `old` with each type handle rewritten by `f`.
pub open spec fn access_rewritten(
    new: TyStorageAccess,
    old: TyStorageAccess,
    f: spec_fn(TypeId) -> TypeId,
) -> bool {
    new.ix == old.ix && new.fields@.len() == old.fields@.len() && forall|i: int|
        0 <= i < old.fields@.len() ==> descriptor_rewritten(
            new.fields@[i],
            #[trigger] old.fields@[i],
            f,
        )
}

/// Whether `new` is `old` with each type handle rewritten by `f` and each
/// declaration handle by `g`, and nothing else changed.
pub open spec fn expr_rewritten(
    new: TyExpression,
    old: TyExpression,
    f: spec_fn(TypeId) -> TypeId,
    g: spec_fn(DeclId) -> DeclId,
) -> bool
    decreases old,
{
    new.span == old.span && new.return_type == f(old.return_type) && match (
        new.expression,
        old.expression,
    ) {
        (TyExpressionVariant::Literal(a), TyExpressionVariant::Literal(b)) => a == b,
        (
            TyExpressionVariant::VariableExpression { name: a },
            TyExpressionVariant::VariableExpression { name: b },
        ) => a == b,
        (
            TyExpressionVariant::FunctionApplication {
                call_path: pa,
                arguments: aa,
                function_decl_id: da,
            },
            TyExpressionVariant::FunctionApplication {
                call_path: pb,
                arguments: ab,
                function_decl_id: db,
            },
        ) => pa == pb && da == g(db) && aa@.len() == ab@.len() && forall|i: int|
            0 <= i < ab@.len() ==> expr_rewritten(aa@[i], #[trigger] ab@[i], f, g),
        (TyExpressionVariant::Tuple { fields: a }, TyExpressionVariant::Tuple { fields: b }) => a@.len()
            == b@.len() && forall|i: int|
            0 <= i < b@.len() ==> expr_rewritten(a@[i], #[trigger] b@[i], f, g),
        (
            TyExpressionVariant::StorageAccess(a),
            TyExpressionVariant::StorageAccess(b),
        ) => access_rewritten(a, b, f),
        (TyExpressionVariant::Return(a), TyExpressionVariant::Return(b)) => expr_rewritten(
            *a,
            *b,
            f,
            g,
        ),
        (TyExpressionVariant::Revert(a), TyExpressionVariant::Revert(b)) => expr_rewritten(
            *a,
            *b,
            f,
            g,
        ),
        (TyExpressionVariant::Break, TyExpressionVariant::Break) => true,
        (TyExpressionVariant::Continue, TyExpressionVariant::Continue) => true,
        _ => false,
    }
}

/// Whether `new` is `old` with each type handle rewritten by `f` and each
/// declaration handle in an expression by `g`. A declaration that the
/// engine owns stays as it is: its handle stays good.
pub open spec fn decl_rewritten(
    new: TyDeclaration,
    old: TyDeclaration,
    f: spec_fn(TypeId) -> TypeId,
    g: spec_fn(DeclId) -> DeclId,
) -> bool {
    match (new, old) {
        (TyDeclaration::VariableDeclaration(a), TyDeclaration::VariableDeclaration(b)) => a.name
            == b.name && a.is_mutable == b.is_mutable && a.type_ascription == f(b.type_ascription)
            && expr_rewritten(a.body, b.body, f, g),
        (_, TyDeclaration::VariableDeclaration(_)) => false,
        _ => new == old,
    }
}

/// Whether `new` is `old` with each type handle rewritten by `f` and each
/// declaration handle in an expression by `g`.
pub open spec fn node_rewritten(
    new: TyAstNode,
    old: TyAstNode,
    f: spec_fn(TypeId) -> TypeId,
    g: spec_fn(DeclId) -> DeclId,
) -> bool {
    new.span == old.span && content_rewritten(new.content, old.content, f, g)
}

/// Whether `new` is the content `old` of a node with each type handle
/// rewritten by `f` and each declaration handle in an expression by `g`.
pub open spec fn content_rewritten(
    new: TyAstNodeContent,
    old: TyAstNodeContent,
    f: spec_fn(TypeId) -> TypeId,
    g: spec_fn(DeclId) -> DeclId,
) -> bool {
    match (new, old) {
        (TyAstNodeContent::Declaration(a), TyAstNodeContent::Declaration(b)) => decl_rewritten(
            a,
            b,
            f,
            g,
        ),
        (TyAstNodeContent::Expression(a), TyAstNodeContent::Expression(b)) => expr_rewritten(
            a,
            b,
            f,
            g,
        ),
        (
            TyAstNodeContent::ImplicitReturnExpression(a),
            TyAstNodeContent::ImplicitReturnExpression(b),
        ) => expr_rewritten(a, b, f, g),
        (TyAstNodeContent::SideEffect, TyAstNodeContent::SideEffect) => true,
        _ => false,
    }
}

/// Whether `new` is `old` with each declaration handle in an expression
/// replaced by `g`. A node that is a declaration stays as it is.
pub open spec fn node_decls_replaced(new: TyAstNode, old: TyAstNode, g: spec_fn(DeclId) -> DeclId) -> bool {
    match old.content {
        TyAstNodeContent::Declaration(_) => new == old,
        _ => node_rewritten(new, old, keep_types(), g),
    }
}

/// Rewriting by `f1` and `g1` and then by `f2` and `g2` is rewriting by
/// their compositions.
pub proof fn lemma_expr_rewritten_twice(
    a: TyExpression,
    b: TyExpression,
    c: TyExpression,
    f1: spec_fn(TypeId) -> TypeId,
    g1: spec_fn(DeclId) -> DeclId,
    f2: spec_fn(TypeId) -> TypeId,
    g2: spec_fn(DeclId) -> DeclId,
)
    requires
        expr_rewritten(b, a, f1, g1),
        expr_rewritten(c, b, f2, g2),
    ensures
        expr_rewritten(c, a, |t: TypeId| f2(f1(t)), |d: DeclId| g2(g1(d))),
    decreases a,
{
    let f = |t: TypeId| f2(f1(t));
    let g = |d: DeclId| g2(g1(d));
    match (a.expression, b.expression, c.expression) {
        (
            TyExpressionVariant::FunctionApplication { arguments: xa, .. },
            TyExpressionVariant::FunctionApplication { arguments: xb, .. },
            TyExpressionVariant::FunctionApplication { arguments: xc, .. },
        ) => {
            assert forall|i: int| 0 <= i < xa@.len() implies expr_rewritten(
                xc@[i],
                #[trigger] xa@[i],
                f,
                g,
            ) by {
                assert(expr_rewritten(xb@[i], xa@[i], f1, g1));
                assert(expr_rewritten(xc@[i], xb@[i], f2, g2));
                lemma_expr_rewritten_twice(xa@[i], xb@[i], xc@[i], f1, g1, f2, g2);
            }
        },
        (
            TyExpressionVariant::Tuple { fields: xa },
            TyExpressionVariant::Tuple { fields: xb },
            TyExpressionVariant::Tuple { fields: xc },
        ) => {
            assert forall|i: int| 0 <= i < xa@.len() implies expr_rewritten(
                xc@[i],
                #[trigger] xa@[i],
                f,
                g,
            ) by {
                assert(expr_rewritten(xb@[i], xa@[i], f1, g1));
                assert(expr_rewritten(xc@[i], xb@[i], f2, g2));
                lemma_expr_rewritten_twice(xa@[i], xb@[i], xc@[i], f1, g1, f2, g2);
            }
        },
        (
            TyExpressionVariant::StorageAccess(xa),
            TyExpressionVariant::StorageAccess(xb),
            TyExpressionVariant::StorageAccess(xc),
        ) => {
            assert forall|i: int| 0 <= i < xa.fields@.len() implies descriptor_rewritten(
                xc.fields@[i],
                #[trigger] xa.fields@[i],
                f,
            ) by {
                assert(descriptor_rewritten(xb.fields@[i], xa.fields@[i], f1));
                assert(descriptor_rewritten(xc.fields@[i], xb.fields@[i], f2));
            }
        },
        (
            TyExpressionVariant::Return(xa),
            TyExpressionVariant::Return(xb),
            TyExpressionVariant::Return(xc),
        ) => {
            lemma_expr_rewritten_twice(*xa, *xb, *xc, f1, g1, f2, g2);
        },
        (
            TyExpressionVariant::Revert(xa),
            TyExpressionVariant::Revert(xb),
            TyExpressionVariant::Revert(xc),
        ) => {
            lemma_expr_rewritten_twice(*xa, *xb, *xc, f1, g1, f2, g2);
        },
        _ => {},
    }
}

/// Applying the substitution map `first` to a node and then `second` is
/// applying their composition, where no image of `first` is bound by
/// `second`.
pub proof fn lemma_subst_composition(
    a: TyAstNode,
    b: TyAstNode,
    c: TyAstNode,
    first: Map<TypeId, TypeId>,
    second: Map<TypeId, TypeId>,
)
    requires
        range_apart(first, second),
        node_rewritten(b, a, subst_fn(first), keep_decls()),
        node_rewritten(c, b, subst_fn(second), keep_decls()),
    ensures
        node_rewritten(c, a, subst_fn(composed(first, second)), keep_decls()),
{
    let f1 = subst_fn(first);
    let f2 = subst_fn(second);
    let g = keep_decls();
    let f = |t: TypeId| f2(f1(t));
    let gg = |d: DeclId| g(g(d));
    assert forall|t: TypeId| #[trigger] f(t) == subst_fn(composed(first, second))(t) by {
        lemma_applied_composed(first, second, t);
    }
    assert(f =~= subst_fn(composed(first, second)));
    assert(gg =~= g);
    match (a.content, b.content, c.content) {
        (
            TyAstNodeContent::Declaration(TyDeclaration::VariableDeclaration(xa)),
            TyAstNodeContent::Declaration(TyDeclaration::VariableDeclaration(xb)),
            TyAstNodeContent::Declaration(TyDeclaration::VariableDeclaration(xc)),
        ) => {
            lemma_expr_rewritten_twice(xa.body, xb.body, xc.body, f1, g, f2, g);
        },
        (
            TyAstNodeContent::Expression(xa),
            TyAstNodeContent::Expression(xb),
            TyAstNodeContent::Expression(xc),
        ) => {
            lemma_expr_rewritten_twice(xa, xb, xc, f1, g, f2, g);
        },
        (
            TyAstNodeContent::ImplicitReturnExpression(xa),
            TyAstNodeContent::ImplicitReturnExpression(xb),
            TyAstNodeContent::ImplicitReturnExpression(xc),
        ) => {
            lemma_expr_rewritten_twice(xa, xb, xc, f1, g, f2, g);
        },
        _ => {},
    }
}

/// One rewriting of the handles in a tree.
pub enum Rewrite<'a> {
    /// Each type handle is replaced by what the map binds it to.
    Types(&'a TypeSubstMap),
    /// Each self type is replaced by `self_type`.
    SelfType { type_engine: &'a TypeEngine, self_type: TypeId },
    /// Each declaration handle in an expression is replaced by what the
    /// mapping gives for it.
    Decls(&'a DeclMapping),
}

impl<'a> Rewrite<'a> {
    /// What the rewriting does to type handles.
    pub open spec fn type_fn(&self) -> spec_fn(TypeId) -> TypeId {
        match *self {
            Rewrite::Types(m) => subst_fn(m@),
            Rewrite::SelfType { type_engine, self_type } => self_fn(type_engine@, self_type),
            Rewrite::Decls(_) => keep_types(),
        }
    }

    /// What the rewriting does to declaration handles.
    pub open spec fn decl_fn(&self) -> spec_fn(DeclId) -> DeclId {
        match *self {
            Rewrite::Decls(m) => decl_fn(m@),
            _ => keep_decls(),
        }
    }

    /// The handle that takes the place of the type handle `t`.
    pub fn on_type(&self, t: TypeId) -> (image: TypeId)
        ensures
            image == (self.type_fn())(t),
    {
        match self {
            Rewrite::Types(m) => m.apply(t),
            Rewrite::SelfType { type_engine, self_type } => {
                if type_engine.contains(t) {
                    match type_engine.get(t) {
                        TypeInfo::SelfType(_) => *self_type,
                        _ => t,
                    }
                } else {
                    t
                }
            },
            Rewrite::Decls(_) => t,
        }
    }

    /// The handle that takes the place of the declaration handle `d`.
    pub fn on_decl(&self, d: DeclId) -> (image: DeclId)
        ensures
            image == (self.decl_fn())(d),
    {
        match self {
            Rewrite::Decls(m) => m.apply(d),
            _ => d,
        }
    }
}

impl TyStorageAccess {
    /// Rewrites the type handles of the access.
    pub fn rewrite(&mut self, rewrite: &Rewrite<'_>)
        ensures
            access_rewritten(*final(self), *old(self), rewrite.type_fn()),
    {
        let mut i: usize = 0;
        while i < self.fields.len()
            invariant
                self.ix == old(self).ix,
                self.fields@.len() == old(self).fields@.len(),
                0 <= i <= self.fields.len(),
                forall|j: int|
                    0 <= j < i ==> descriptor_rewritten(
                        self.fields@[j],
                        #[trigger] old(self).fields@[j],
                        rewrite.type_fn(),
                    ),
                forall|j: int| i <= j < self.fields@.len() ==> self.fields@[j] == old(self).fields@[j],
            decreases self.fields.len() - i,
        {
            let image = rewrite.on_type(self.fields[i].type_id);
            self.fields[i].type_id = image;
            i += 1;
        }
    }
}

/// Rewrites the handles of each expression in `list`.
fn exprs_rewrite(list: &mut Vec<TyExpression>, rewrite: &Rewrite<'_>)
    ensures
        final(list)@.len() == old(list)@.len(),
        forall|i: int|
            0 <= i < old(list)@.len() ==> expr_rewritten(
                final(list)@[i],
                #[trigger] old(list)@[i],
                rewrite.type_fn(),
                rewrite.decl_fn(),
            ),
    decreases *old(list),
{
    let mut i: usize = 0;
    while i < list.len()
        invariant
            list@.len() == old(list)@.len(),
            0 <= i <= list.len(),
            forall|j: int|
                0 <= j < i ==> expr_rewritten(
                    list@[j],
                    #[trigger] old(list)@[j],
                    rewrite.type_fn(),
                    rewrite.decl_fn(),
                ),
            forall|j: int| i <= j < list@.len() ==> list@[j] == old(list)@[j],
        decreases list.len() - i,
    {
        proof {
            vstd::std_specs::vec::axiom_vec_index_decreases(*old(list), i as int);
        }
        list[i].rewrite(rewrite);
        i += 1;
    }
}

impl TyExpression {
    /// Rewrites the handles of the expression and of every expression in
    /// it.
    pub fn rewrite(&mut self, rewrite: &Rewrite<'_>)
        ensures
            expr_rewritten(*final(self), *old(self), rewrite.type_fn(), rewrite.decl_fn()),
        decreases *old(self),
    {
        let image = rewrite.on_type(self.return_type);
        self.return_type = image;
        match &mut self.expression {
            TyExpressionVariant::FunctionApplication { arguments, function_decl_id, .. } => {
                let decl = rewrite.on_decl(*function_decl_id);
                *function_decl_id = decl;
                exprs_rewrite(arguments, rewrite);
            },
            TyExpressionVariant::Tuple { fields } => {
                exprs_rewrite(fields, rewrite);
            },
            TyExpressionVariant::StorageAccess(access) => {
                access.rewrite(rewrite);
            },
            TyExpressionVariant::Return(e) => {
                e.rewrite(rewrite);
            },
            TyExpressionVariant::Revert(e) => {
                e.rewrite(rewrite);
            },
            _ => {},
        }
    }

    /// Applies the substitution map `type_mapping` to every type handle in
    /// the expression.
    pub fn subst_inner(&mut self, type_mapping: &TypeSubstMap, engines: Engines<'_>)
        ensures
            expr_rewritten(*final(self), *old(self), subst_fn(type_mapping@), keep_decls()),
    {
        self.rewrite(&Rewrite::Types(type_mapping));
    }

    /// Puts `self_type` in the place of every self type in the
    /// expression.
    pub fn replace_self_type(&mut self, engines: Engines<'_>, self_type: TypeId)
        ensures
            expr_rewritten(
                *final(self),
                *old(self),
                self_fn(engines.types()@, self_type),
                keep_decls(),
            ),
    {
        self.rewrite(&Rewrite::SelfType { type_engine: engines.te(), self_type });
    }

    /// Replaces every declaration handle in the expression by what
    /// `decl_mapping` gives for it.
    pub fn replace_decls_inner(&mut self, decl_mapping: &DeclMapping, engines: Engines<'_>)
        ensures
            expr_rewritten(*final(self), *old(self), keep_types(), decl_fn(decl_mapping@)),
    {
        self.rewrite(&Rewrite::Decls(decl_mapping));
    }
}

impl TyDeclaration {
    /// Rewrites the handles of a variable declaration. Any other
    /// declaration stays as it is.
    pub fn rewrite(&mut self, rewrite: &Rewrite<'_>)
        ensures
            decl_rewritten(*final(self), *old(self), rewrite.type_fn(), rewrite.decl_fn()),
    {
        match self {
            TyDeclaration::VariableDeclaration(decl) => {
                let image = rewrite.on_type(decl.type_ascription);
                decl.type_ascription = image;
                decl.body.rewrite(rewrite);
            },
            _ => {},
        }
    }
}

impl TyAstNode {
    /// Rewrites the handles of the node.
    pub fn rewrite(&mut self, rewrite: &Rewrite<'_>)
        ensures
            node_rewritten(*final(self), *old(self), rewrite.type_fn(), rewrite.decl_fn()),
    {
        match &mut self.content {
            TyAstNodeContent::ImplicitReturnExpression(exp) => exp.rewrite(rewrite),
            TyAstNodeContent::Declaration(decl) => decl.rewrite(rewrite),
            TyAstNodeContent::Expression(expr) => expr.rewrite(rewrite),
            TyAstNodeContent::SideEffect => (),
        }
    }

    /// Applies the substitution map `type_mapping` to every type handle
    /// that can be reached from the node.
    pub fn subst_inner(&mut self, type_mapping: &TypeSubstMap, engines: Engines<'_>)
        ensures
            node_rewritten(*final(self), *old(self), subst_fn(type_mapping@), keep_decls()),
    {
        self.rewrite(&Rewrite::Types(type_mapping));
    }

    /// Puts `self_type` in the place of every self type that can be
    /// reached from the node.
    pub fn replace_self_type(&mut self, engines: Engines<'_>, self_type: TypeId)
        ensures
            node_rewritten(
                *final(self),
                *old(self),
                self_fn(engines.types()@, self_type),
                keep_decls(),
            ),
    {
        self.rewrite(&Rewrite::SelfType { type_engine: engines.te(), self_type });
    }

    /// Replaces the declaration handles in the expression of the node by
    /// what `decl_mapping` gives for them. A node that is a declaration
    /// stays as it is.
    pub fn replace_decls_inner(&mut self, decl_mapping: &DeclMapping, engines: Engines<'_>)
        ensures
            node_decls_replaced(*final(self), *old(self), decl_fn(decl_mapping@)),
    {
        match &mut self.content {
            TyAstNodeContent::ImplicitReturnExpression(exp) => exp.replace_decls_inner(
                decl_mapping,
                engines,
            ),
            TyAstNodeContent::Declaration(_) => {},
            TyAstNodeContent::Expression(expr) => expr.replace_decls_inner(decl_mapping, engines),
            TyAstNodeContent::SideEffect => (),
        }
    }
}

impl TypeId {
    /// Puts `self_type` in the place of the handle if it is a self type.
    pub fn replace_self_type(&mut self, engines: Engines<'_>, self_type: TypeId)
        ensures
            *final(self) == self_fn(engines.types()@, self_type)(*old(self)),
    {
        let image = (Rewrite::SelfType { type_engine: engines.te(), self_type }).on_type(*self);
        *self = image;
    }
}

/// Whether `new` is the list of parameters `old` with each type handle
/// rewritten by `f`.
pub open spec fn params_rewritten(
    new: Seq<TyFunctionParameter>,
    old: Seq<TyFunctionParameter>,
    f: spec_fn(TypeId) -> TypeId,
) -> bool {
    new.len() == old.len() && forall|i: int|
        0 <= i < old.len() ==> {
            &&& new[i].name == (#[trigger] old[i]).name
            &&& new[i].type_span == old[i].type_span
            &&& new[i].type_id == f(old[i].type_id)
        }
}

/// Whether `new` is the signature `old` with each type handle rewritten by
/// `f`.
pub open spec fn trait_fn_rewritten(new: TyTraitFn, old: TyTraitFn, f: spec_fn(TypeId) -> TypeId) -> bool {
    &&& new.name == old.name
    &&& new.purity == old.purity
    &&& new.return_type_span == old.return_type_span
    &&& new.attributes == old.attributes
    &&& new.return_type == f(old.return_type)
    &&& params_rewritten(new.parameters@, old.parameters@, f)
}

/// Whether `new` is the list of signatures `old` with each type handle
/// rewritten by `f`.
pub open spec fn trait_fns_rewritten(
    new: Seq<TyTraitFn>,
    old: Seq<TyTraitFn>,
    f: spec_fn(TypeId) -> TypeId,
) -> bool {
    new.len() == old.len() && forall|i: int|
        0 <= i < old.len() ==> trait_fn_rewritten(new[i], #[trigger] old[i], f)
}

/// Whether `new` is the list of fields `old` with the type of each
/// rewritten by `f`.
pub open spec fn struct_fields_rewritten(
    new: Seq<TyStructField>,
    old: Seq<TyStructField>,
    f: spec_fn(TypeId) -> TypeId,
) -> bool {
    new.len() == old.len() && forall|i: int|
        0 <= i < old.len() ==> {
            &&& new[i].name == (#[trigger] old[i]).name
            &&& new[i].initial_type_id == old[i].initial_type_id
            &&& new[i].span == old[i].span
            &&& new[i].type_span == old[i].type_span
            &&& new[i].attributes == old[i].attributes
            &&& new[i].type_id == f(old[i].type_id)
        }
}

/// Whether `new` is the list of type parameters `old` with the type of
/// each rewritten by `f`.
pub open spec fn type_params_rewritten(
    new: Seq<TypeParameter>,
    old: Seq<TypeParameter>,
    f: spec_fn(TypeId) -> TypeId,
) -> bool {
    new.len() == old.len() && forall|i: int|
        0 <= i < old.len() ==> {
            &&& new[i].name_ident == (#[trigger] old[i]).name_ident
            &&& new[i].initial_type_id == old[i].initial_type_id
            &&& new[i].trait_constraints == old[i].trait_constraints
            &&& new[i].trait_constraints_span == old[i].trait_constraints_span
            &&& new[i].type_id == f(old[i].type_id)
        }
}

/// Whether `new` is the list of variants `old` with the type of each
/// rewritten by `f`.
pub open spec fn variants_rewritten(
    new: Seq<TyEnumVariant>,
    old: Seq<TyEnumVariant>,
    f: spec_fn(TypeId) -> TypeId,
) -> bool {
    new.len() == old.len() && forall|i: int|
        0 <= i < old.len() ==> {
            &&& new[i].name == (#[trigger] old[i]).name
            &&& new[i].tag == old[i].tag
            &&& new[i].span == old[i].span
            &&& new[i].attributes == old[i].attributes
            &&& new[i].type_id == f(old[i].type_id)
        }
}

/// Whether `new` is the list of storage fields `old` with the type and
/// the initial value of each rewritten by `f` and `g`.
pub open spec fn storage_fields_rewritten(
    new: Seq<TyStorageField>,
    old: Seq<TyStorageField>,
    f: spec_fn(TypeId) -> TypeId,
    g: spec_fn(DeclId) -> DeclId,
) -> bool {
    new.len() == old.len() && forall|i: int|
        0 <= i < old.len() ==> {
            &&& new[i].name == (#[trigger] old[i]).name
            &&& new[i].span == old[i].span
            &&& new[i].attributes == old[i].attributes
            &&& new[i].type_id == f(old[i].type_id)
            &&& expr_rewritten(new[i].initializer, old[i].initializer, f, g)
        }
}

/// Whether `new` is the list of nodes `old` with each rewritten by `f`
/// and `g`.
pub open spec fn nodes_rewritten(
    new: Seq<TyAstNode>,
    old: Seq<TyAstNode>,
    f: spec_fn(TypeId) -> TypeId,
    g: spec_fn(DeclId) -> DeclId,
) -> bool {
    new.len() == old.len() && forall|i: int|
        0 <= i < old.len() ==> node_rewritten(new[i], #[trigger] old[i], f, g)
}

/// Whether `new` is the declaration `old` with each type handle in it
/// rewritten by `f` and each declaration handle in an expression by `g`:
/// the same kind of declaration with the same names, places and
/// attributes.
pub open spec fn wrapper_rewritten(
    new: DeclWrapper,
    old: DeclWrapper,
    f: spec_fn(TypeId) -> TypeId,
    g: spec_fn(DeclId) -> DeclId,
) -> bool {
    match (new, old) {
        (DeclWrapper::Unknown, DeclWrapper::Unknown) => true,
        (DeclWrapper::Function(a), DeclWrapper::Function(b)) => {
            &&& a.name == b.name
            &&& a.visibility == b.visibility
            &&& a.attributes == b.attributes
            &&& a.purity == b.purity
            &&& a.span == b.span
            &&& a.return_type == f(b.return_type)
            &&& params_rewritten(a.parameters@, b.parameters@, f)
            &&& nodes_rewritten(a.body@, b.body@, f, g)
        },
        (DeclWrapper::Trait(a), DeclWrapper::Trait(b)) => {
            &&& a.name == b.name
            &&& a.methods == b.methods
            &&& a.visibility == b.visibility
            &&& a.attributes == b.attributes
            &&& a.span == b.span
            &&& trait_fns_rewritten(a.interface_surface@, b.interface_surface@, f)
        },
        (DeclWrapper::ImplTrait(a), DeclWrapper::ImplTrait(b)) => {
            &&& a.trait_name == b.trait_name
            &&& a.methods == b.methods
            &&& a.span == b.span
            &&& a.implementing_for_type_id == f(b.implementing_for_type_id)
        },
        (DeclWrapper::Struct(a), DeclWrapper::Struct(b)) => {
            &&& a.name == b.name
            &&& a.visibility == b.visibility
            &&& a.span == b.span
            &&& a.attributes == b.attributes
            &&& type_params_rewritten(a.type_parameters@, b.type_parameters@, f)
            &&& struct_fields_rewritten(a.fields@, b.fields@, f)
        },
        (DeclWrapper::Enum(a), DeclWrapper::Enum(b)) => {
            &&& a.name == b.name
            &&& a.visibility == b.visibility
            &&& a.span == b.span
            &&& a.attributes == b.attributes
            &&& variants_rewritten(a.variants@, b.variants@, f)
        },
        (DeclWrapper::Abi(a), DeclWrapper::Abi(b)) => {
            &&& a.name == b.name
            &&& a.methods == b.methods
            &&& a.span == b.span
            &&& a.attributes == b.attributes
            &&& trait_fns_rewritten(a.interface_surface@, b.interface_surface@, f)
        },
        (DeclWrapper::Constant(a), DeclWrapper::Constant(b)) => {
            &&& a.name == b.name
            &&& a.visibility == b.visibility
            &&& a.attributes == b.attributes
            &&& a.span == b.span
            &&& expr_rewritten(a.value, b.value, f, g)
        },
        (DeclWrapper::Storage(a), DeclWrapper::Storage(b)) => {
            &&& a.span == b.span
            &&& a.attributes == b.attributes
            &&& storage_fields_rewritten(a.fields@, b.fields@, f, g)
        },
        _ => false,
    }
}

/// Rewrites the types of the parameters `list`.
fn params_rewrite(list: &mut Vec<TyFunctionParameter>, rewrite: &Rewrite<'_>)
    ensures
        params_rewritten(final(list)@, old(list)@, rewrite.type_fn()),
{
    let mut i: usize = 0;
    while i < list.len()
        invariant
            list@.len() == old(list)@.len(),
            0 <= i <= list.len(),
            forall|j: int|
                0 <= j < i ==> {
                    &&& list@[j].name == (#[trigger] old(list)@[j]).name
                    &&& list@[j].type_span == old(list)@[j].type_span
                    &&& list@[j].type_id == (rewrite.type_fn())(old(list)@[j].type_id)
                },
            forall|j: int| i <= j < list@.len() ==> list@[j] == old(list)@[j],
        decreases list.len() - i,
    {
        let image = rewrite.on_type(list[i].type_id);
        list[i].type_id = image;
        i += 1;
    }
}

impl TyTraitFn {
    /// Rewrites the types of the parameters and the return type.
    pub fn rewrite(&mut self, rewrite: &Rewrite<'_>)
        ensures
            trait_fn_rewritten(*final(self), *old(self), rewrite.type_fn()),
    {
        params_rewrite(&mut self.parameters, rewrite);
        let image = rewrite.on_type(self.return_type);
        self.return_type = image;
    }
}

/// Rewrites the types of the signatures `list`.
fn trait_fns_rewrite(list: &mut Vec<TyTraitFn>, rewrite: &Rewrite<'_>)
    ensures
        trait_fns_rewritten(final(list)@, old(list)@, rewrite.type_fn()),
{
    let mut i: usize = 0;
    while i < list.len()
        invariant
            list@.len() == old(list)@.len(),
            0 <= i <= list.len(),
            forall|j: int|
                0 <= j < i ==> trait_fn_rewritten(list@[j], #[trigger] old(list)@[j], rewrite.type_fn()),
            forall|j: int| i <= j < list@.len() ==> list@[j] == old(list)@[j],
        decreases list.len() - i,
    {
        list[i].rewrite(rewrite);
        i += 1;
    }
}

/// Rewrites the types of the fields `list`.
fn struct_fields_rewrite(list: &mut Vec<TyStructField>, rewrite: &Rewrite<'_>)
    ensures
        struct_fields_rewritten(final(list)@, old(list)@, rewrite.type_fn()),
{
    let mut i: usize = 0;
    while i < list.len()
        invariant
            list@.len() == old(list)@.len(),
            0 <= i <= list.len(),
            forall|j: int|
                0 <= j < i ==> {
                    &&& list@[j].name == (#[trigger] old(list)@[j]).name
                    &&& list@[j].initial_type_id == old(list)@[j].initial_type_id
                    &&& list@[j].span == old(list)@[j].span
                    &&& list@[j].type_span == old(list)@[j].type_span
                    &&& list@[j].attributes == old(list)@[j].attributes
                    &&& list@[j].type_id == (rewrite.type_fn())(old(list)@[j].type_id)
                },
            forall|j: int| i <= j < list@.len() ==> list@[j] == old(list)@[j],
        decreases list.len() - i,
    {
        let image = rewrite.on_type(list[i].type_id);
        list[i].type_id = image;
        i += 1;
    }
}

/// Rewrites the types of the type parameters `list`.
fn type_params_rewrite(list: &mut Vec<TypeParameter>, rewrite: &Rewrite<'_>)
    ensures
        type_params_rewritten(final(list)@, old(list)@, rewrite.type_fn()),
{
    let mut i: usize = 0;
    while i < list.len()
        invariant
            list@.len() == old(list)@.len(),
            0 <= i <= list.len(),
            forall|j: int|
                0 <= j < i ==> {
                    &&& list@[j].name_ident == (#[trigger] old(list)@[j]).name_ident
                    &&& list@[j].initial_type_id == old(list)@[j].initial_type_id
                    &&& list@[j].trait_constraints == old(list)@[j].trait_constraints
                    &&& list@[j].trait_constraints_span == old(list)@[j].trait_constraints_span
                    &&& list@[j].type_id == (rewrite.type_fn())(old(list)@[j].type_id)
                },
            forall|j: int| i <= j < list@.len() ==> list@[j] == old(list)@[j],
        decreases list.len() - i,
    {
        let image = rewrite.on_type(list[i].type_id);
        list[i].type_id = image;
        i += 1;
    }
}

/// Rewrites the types of the variants `list`.
fn variants_rewrite(list: &mut Vec<TyEnumVariant>, rewrite: &Rewrite<'_>)
    ensures
        variants_rewritten(final(list)@, old(list)@, rewrite.type_fn()),
{
    let mut i: usize = 0;
    while i < list.len()
        invariant
            list@.len() == old(list)@.len(),
            0 <= i <= list.len(),
            forall|j: int|
                0 <= j < i ==> {
                    &&& list@[j].name == (#[trigger] old(list)@[j]).name
                    &&& list@[j].tag == old(list)@[j].tag
                    &&& list@[j].span == old(list)@[j].span
                    &&& list@[j].attributes == old(list)@[j].attributes
                    &&& list@[j].type_id == (rewrite.type_fn())(old(list)@[j].type_id)
                },
            forall|j: int| i <= j < list@.len() ==> list@[j] == old(list)@[j],
        decreases list.len() - i,
    {
        let image = rewrite.on_type(list[i].type_id);
        list[i].type_id = image;
        i += 1;
    }
}

/// Rewrites the types and the initial values of the storage fields `list`.
fn storage_fields_rewrite(list: &mut Vec<TyStorageField>, rewrite: &Rewrite<'_>)
    ensures
        storage_fields_rewritten(final(list)@, old(list)@, rewrite.type_fn(), rewrite.decl_fn()),
{
    let mut i: usize = 0;
    while i < list.len()
        invariant
            list@.len() == old(list)@.len(),
            0 <= i <= list.len(),
            forall|j: int|
                0 <= j < i ==> {
                    &&& list@[j].name == (#[trigger] old(list)@[j]).name
                    &&& list@[j].span == old(list)@[j].span
                    &&& list@[j].attributes == old(list)@[j].attributes
                    &&& list@[j].type_id == (rewrite.type_fn())(old(list)@[j].type_id)
                    &&& expr_rewritten(
                        list@[j].initializer,
                        old(list)@[j].initializer,
                        rewrite.type_fn(),
                        rewrite.decl_fn(),
                    )
                },
            forall|j: int| i <= j < list@.len() ==> list@[j] == old(list)@[j],
        decreases list.len() - i,
    {
        let image = rewrite.on_type(list[i].type_id);
        list[i].type_id = image;
        list[i].initializer.rewrite(rewrite);
        i += 1;
    }
}

/// Rewrites the handles of the nodes `list`.
fn nodes_rewrite(list: &mut Vec<TyAstNode>, rewrite: &Rewrite<'_>)
    ensures
        nodes_rewritten(final(list)@, old(list)@, rewrite.type_fn(), rewrite.decl_fn()),
{
    let mut i: usize = 0;
    while i < list.len()
        invariant
            list@.len() == old(list)@.len(),
            0 <= i <= list.len(),
            forall|j: int|
                0 <= j < i ==> node_rewritten(
                    list@[j],
                    #[trigger] old(list)@[j],
                    rewrite.type_fn(),
                    rewrite.decl_fn(),
                ),
            forall|j: int| i <= j < list@.len() ==> list@[j] == old(list)@[j],
        decreases list.len() - i,
    {
        list[i].rewrite(rewrite);
        i += 1;
    }
}

impl DeclWrapper {
    /// Rewrites the handles in the declaration: the types of a function
    /// and the nodes of its body, the types of the fields of a struct, and
    /// so on for each kind.
    pub fn rewrite(&mut self, rewrite: &Rewrite<'_>)
        ensures
            wrapper_rewritten(*final(self), *old(self), rewrite.type_fn(), rewrite.decl_fn()),
    {
        match self {
            DeclWrapper::Unknown => {},
            DeclWrapper::Function(decl) => {
                let image = rewrite.on_type(decl.return_type);
                decl.return_type = image;
                params_rewrite(&mut decl.parameters, rewrite);
                nodes_rewrite(&mut decl.body, rewrite);
            },
            DeclWrapper::Trait(decl) => {
                trait_fns_rewrite(&mut decl.interface_surface, rewrite);
            },
            DeclWrapper::ImplTrait(decl) => {
                let image = rewrite.on_type(decl.implementing_for_type_id);
                decl.implementing_for_type_id = image;
            },
            DeclWrapper::Struct(decl) => {
                type_params_rewrite(&mut decl.type_parameters, rewrite);
                struct_fields_rewrite(&mut decl.fields, rewrite);
            },
            DeclWrapper::Enum(decl) => {
                variants_rewrite(&mut decl.variants, rewrite);
            },
            DeclWrapper::Abi(decl) => {
                trait_fns_rewrite(&mut decl.interface_surface, rewrite);
            },
            DeclWrapper::Constant(decl) => {
                decl.value.rewrite(rewrite);
            },
            DeclWrapper::Storage(decl) => {
                storage_fields_rewrite(&mut decl.fields, rewrite);
            },
        }
    }
}

impl TyStorageAccess {
    /// A copy of the access.
    pub fn copy(&self) -> (copy: Self)
        ensures
            access_rewritten(copy, *self, keep_types()),
    {
        let mut fields: Vec<TyStorageAccessDescriptor> = Vec::new();
        let mut i: usize = 0;
        while i < self.fields.len()
            invariant
                0 <= i <= self.fields.len(),
                fields@.len() == i,
                forall|j: int|
                    0 <= j < i ==> descriptor_rewritten(
                        fields@[j],
                        #[trigger] self.fields@[j],
                        keep_types(),
                    ),
            decreases self.fields.len() - i,
        {
            let field = &self.fields[i];
            fields.push(
                TyStorageAccessDescriptor {
                    name: field.name.copy(),
                    type_id: field.type_id,
                    span: field.span,
                },
            );
            i += 1;
        }
        TyStorageAccess { fields, ix: self.ix }
    }
}

/// Copies of the expressions `a`, which `x` holds in a list.
fn exprs_copy(x: &TyExpression, a: &Vec<TyExpression>) -> (copy: Vec<TyExpression>)
    requires
        a@ == listed(*x),
    ensures
        copy@.len() == a@.len(),
        forall|i: int|
            0 <= i < a@.len() ==> expr_rewritten(copy@[i], #[trigger] a@[i], keep_types(), keep_decls()),
    decreases *x, 0int,
{
    let mut copy: Vec<TyExpression> = Vec::new();
    let mut i: usize = 0;
    while i < a.len()
        invariant
            a@ == listed(*x),
            0 <= i <= a.len(),
            copy@.len() == i,
            forall|j: int|
                0 <= j < i ==> expr_rewritten(
                    copy@[j],
                    #[trigger] a@[j],
                    keep_types(),
                    keep_decls(),
                ),
        decreases a.len() - i,
    {
        proof {
            lemma_listed_smaller(*x, i as int);
        }
        copy.push(a[i].clone());
        i += 1;
    }
    copy
}

impl Clone for TyExpression {
    /// A copy of the expression: the same expression with the same
    /// handles.
    fn clone(&self) -> (copy: Self)
        ensures
            expr_rewritten(copy, *self, keep_types(), keep_decls()),
        decreases *self, 1int,
    {
        let expression = match &self.expression {
            TyExpressionVariant::Literal(l) => TyExpressionVariant::Literal(*l),
            TyExpressionVariant::VariableExpression { name } => TyExpressionVariant::VariableExpression {
                name: name.copy(),
            },
            TyExpressionVariant::FunctionApplication {
                call_path,
                arguments,
                function_decl_id,
            } => TyExpressionVariant::FunctionApplication {
                call_path: call_path.copy(),
                arguments: exprs_copy(self, arguments),
                function_decl_id: *function_decl_id,
            },
            TyExpressionVariant::Tuple { fields } => TyExpressionVariant::Tuple {
                fields: exprs_copy(self, fields),
            },
            TyExpressionVariant::StorageAccess(access) => TyExpressionVariant::StorageAccess(
                access.copy(),
            ),
            TyExpressionVariant::Return(e) => TyExpressionVariant::Return(Box::new((**e).clone())),
            TyExpressionVariant::Revert(e) => TyExpressionVariant::Revert(Box::new((**e).clone())),
            TyExpressionVariant::Break => TyExpressionVariant::Break,
            TyExpressionVariant::Continue => TyExpressionVariant::Continue,
        };
        TyExpression { expression, return_type: self.return_type, span: self.span }
    }
}

impl Clone for TyDeclaration {
    /// A copy of the declaration.
    fn clone(&self) -> (copy: Self)
        ensures
            decl_rewritten(copy, *self, keep_types(), keep_decls()),
    {
        match self {
            TyDeclaration::VariableDeclaration(decl) => TyDeclaration::VariableDeclaration(
                Box::new(
                    TyVariableDeclaration {
                        name: decl.name.copy(),
                        body: decl.body.clone(),
                        type_ascription: decl.type_ascription,
                        is_mutable: decl.is_mutable,
                    },
                ),
            ),
            TyDeclaration::ConstantDeclaration(id) => TyDeclaration::ConstantDeclaration(*id),
            TyDeclaration::FunctionDeclaration(id) => TyDeclaration::FunctionDeclaration(*id),
            TyDeclaration::TraitDeclaration(id) => TyDeclaration::TraitDeclaration(*id),
            TyDeclaration::StructDeclaration(id) => TyDeclaration::StructDeclaration(*id),
            TyDeclaration::EnumDeclaration(id) => TyDeclaration::EnumDeclaration(*id),
            TyDeclaration::ImplTrait(id) => TyDeclaration::ImplTrait(*id),
            TyDeclaration::AbiDeclaration(id) => TyDeclaration::AbiDeclaration(*id),
            TyDeclaration::StorageDeclaration(id) => TyDeclaration::StorageDeclaration(*id),
            TyDeclaration::ErrorRecovery => TyDeclaration::ErrorRecovery,
        }
    }
}

impl Clone for TyAstNode {
    /// A copy of the node.
    fn clone(&self) -> (copy: Self)
        ensures
            node_rewritten(copy, *self, keep_types(), keep_decls()),
    {
        let content = match &self.content {
            TyAstNodeContent::Declaration(decl) => TyAstNodeContent::Declaration(decl.clone()),
            TyAstNodeContent::Expression(e) => TyAstNodeContent::Expression(e.clone()),
            TyAstNodeContent::ImplicitReturnExpression(e) => TyAstNodeContent::ImplicitReturnExpression(
                e.clone(),
            ),
            TyAstNodeContent::SideEffect => TyAstNodeContent::SideEffect,
        };
        TyAstNode { content, span: self.span }
    }
}

impl Clone for TyAstNodeContent {
    /// A copy of the content of a node.
    fn clone(&self) -> (copy: Self)
        ensures
            content_rewritten(copy, *self, keep_types(), keep_decls()),
    {
        match self {
            TyAstNodeContent::Declaration(decl) => TyAstNodeContent::Declaration(decl.clone()),
            TyAstNodeContent::Expression(e) => TyAstNodeContent::Expression(e.clone()),
            TyAstNodeContent::ImplicitReturnExpression(e) => TyAstNodeContent::ImplicitReturnExpression(
                e.clone(),
            ),
            TyAstNodeContent::SideEffect => TyAstNodeContent::SideEffect,
        }
    }
}

} // verus!
