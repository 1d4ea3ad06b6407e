//! Walks over a tree that collect: the types that are still to be
//! resolved, the explicit returns, and whether the program ends.

use crate::decl_engine::DeclEngine;
use crate::decl_engine::DeclId;
use crate::decl_engine::DeclWrapper;
use crate::span::Span;
use crate::ty::content_live;
use crate::ty::expr_live;
use crate::ty::lemma_listed_live;
use crate::ty::lemma_listed_smaller;
use crate::ty::listed;
use crate::ty::node_live;
use crate::ty::TyAstNode;
use crate::ty::TyAstNodeContent;
use crate::ty::TyDeclaration;
use crate::ty::TyExpression;
use crate::ty::TyExpressionVariant;
use crate::type_engine::TypeEngine;
use crate::type_engine::TypeForm;
use crate::type_engine::TypeId;
use crate::type_engine::TypeInfo;
use crate::type_engine::TypeTable;
use vstd::prelude::*;

verus! {

/// A type that is still to be resolved, with the place of the expression
/// that has it.
#[derive(Clone, Copy, Debug, PartialEq, Eq, Structural)]
pub struct TypeMetadata {
    pub type_id: TypeId,
    pub span: Span,
}

/// Whether the form is still to be resolved: a placeholder, or a name that
/// is not resolved yet.
pub open spec fn unresolved(form: TypeForm) -> bool {
    form is Unknown || form is Custom
}

/// The unresolved type of the expression itself, if its type is one.
pub open spec fn own_unresolved(table: TypeTable, x: TyExpression) -> Seq<TypeMetadata> {
    if unresolved(table.form(x.return_type)) {
        seq![TypeMetadata { type_id: x.return_type, span: x.span }]
    } else {
        Seq::empty()
    }
}

/// The types in the expression that are still to be resolved: that of the
/// expression, then those of the expressions in it, in order.
pub open spec fn expr_unresolved(table: TypeTable, x: TyExpression) -> Seq<TypeMetadata>
    decreases x, listed(x).len() + 1,
{
    own_unresolved(table, x) + (match x.expression {
        TyExpressionVariant::FunctionApplication { arguments, .. } => exprs_unresolved(
            table,
            x,
            arguments@.len(),
        ),
        TyExpressionVariant::Tuple { fields } => exprs_unresolved(table, x, fields@.len()),
        TyExpressionVariant::Return(e) => expr_unresolved(table, *e),
        TyExpressionVariant::Revert(e) => expr_unresolved(table, *e),
        _ => Seq::empty(),
    })
}

/// The unresolved types of the first `n` expressions that `x` holds in a
/// list.
pub open spec fn exprs_unresolved(table: TypeTable, x: TyExpression, n: nat) -> Seq<TypeMetadata>
    decreases x, n,
{
    if n == 0 || n > listed(x).len() {
        Seq::empty()
    } else {
        exprs_unresolved(table, x, (n - 1) as nat) + expr_unresolved(table, listed(x)[n - 1])
    }
}

/// The unresolved types of a node: those of its expression, or of the
/// value of the variable that it declares.
pub open spec fn node_unresolved(table: TypeTable, x: TyAstNodeContent) -> Seq<TypeMetadata> {
    match x {
        TyAstNodeContent::Declaration(TyDeclaration::VariableDeclaration(v)) => expr_unresolved(
            table,
            v.body,
        ),
        TyAstNodeContent::Expression(e) => expr_unresolved(table, e),
        TyAstNodeContent::ImplicitReturnExpression(e) => expr_unresolved(table, e),
        _ => Seq::empty(),
    }
}

/// The explicit returns in the expression, in order.
pub open spec fn expr_returns(x: TyExpression) -> Seq<TyExpression>
    decreases x, listed(x).len() + 1,
{
    match x.expression {
        TyExpressionVariant::Return(_) => seq![x],
        TyExpressionVariant::FunctionApplication { arguments, .. } => exprs_returns(
            x,
            arguments@.len(),
        ),
        TyExpressionVariant::Tuple { fields } => exprs_returns(x, fields@.len()),
        TyExpressionVariant::Revert(e) => expr_returns(*e),
        _ => Seq::empty(),
    }
}

/// The explicit returns in the first `n` expressions that `x` holds in a
/// list.
pub open spec fn exprs_returns(x: TyExpression, n: nat) -> Seq<TyExpression>
    decreases x, n,
{
    if n == 0 || n > listed(x).len() {
        Seq::empty()
    } else {
        exprs_returns(x, (n - 1) as nat) + expr_returns(listed(x)[n - 1])
    }
}

/// The explicit returns in a node: those of its expression, or of the
/// value of the variable that it declares. An implicit return is none.
pub open spec fn node_returns(x: TyAstNodeContent) -> Seq<TyExpression> {
    match x {
        TyAstNodeContent::Declaration(TyDeclaration::VariableDeclaration(v)) => expr_returns(
            v.body,
        ),
        TyAstNodeContent::Expression(e) => expr_returns(e),
        TyAstNodeContent::ImplicitReturnExpression(e) => expr_returns(e),
        _ => Seq::empty(),
    }
}

/// The expressions that references point to.
pub open spec fn pointees(refs: Seq<&TyExpression>) -> Seq<TyExpression> {
    refs.map_values(|e: &TyExpression| *e)
}

/// Whether the expression ends the program whenever it is reached. A
/// call does so only where `check_call_body` is set: if an argument does,
/// or a node of the body of the function, where calls inside it do not
/// count.
pub open spec fn expr_aborts(decls: &DeclEngine, x: TyExpression, check_call_body: bool) -> bool
    decreases x,
{
    match x.expression {
        TyExpressionVariant::Revert(_) => true,
        TyExpressionVariant::Return(e) => expr_aborts(decls, *e, check_call_body),
        TyExpressionVariant::Tuple { fields } => exists|i: int|
            0 <= i < fields@.len() && expr_aborts(decls, #[trigger] fields@[i], check_call_body),
        TyExpressionVariant::FunctionApplication {
            arguments,
            function_decl_id,
            ..
        } => check_call_body && (body_aborts(decls, function_decl_id) || exists|i: int|
            0 <= i < arguments@.len() && expr_aborts(
                decls,
                #[trigger] arguments@[i],
                check_call_body,
            )),
        _ => false,
    }
}

/// Whether a node of the body of the function under `id` ends the
/// program, where calls do not count.
pub open spec fn body_aborts(decls: &DeclEngine, id: DeclId) -> bool {
    decls.has(id) && decls.decl(id) is Function && exists|k: int|
        0 <= k < decls.decl(id)->Function_0.body@.len() && node_aborts_shallow(
            #[trigger] decls.decl(id)->Function_0.body@[k],
        )
}

/// Whether the node ends the program, where calls do not count.
pub open spec fn node_aborts_shallow(x: TyAstNode) -> bool {
    match x.content {
        TyAstNodeContent::Expression(e) => expr_aborts_shallow(e),
        TyAstNodeContent::ImplicitReturnExpression(e) => expr_aborts_shallow(e),
        _ => false,
    }
}

/// Whether the expression ends the program, where calls do not count.
pub open spec fn expr_aborts_shallow(x: TyExpression) -> bool
    decreases x,
{
    match x.expression {
        TyExpressionVariant::Revert(_) => true,
        TyExpressionVariant::Return(e) => expr_aborts_shallow(*e),
        TyExpressionVariant::Tuple { fields } => exists|i: int|
            0 <= i < fields@.len() && expr_aborts_shallow(#[trigger] fields@[i]),
        _ => false,
    }
}

/// Whether the node ends the program whenever it is reached.
pub open spec fn node_aborts(decls: &DeclEngine, x: TyAstNode, check_call_body: bool) -> bool {
    match x.content {
        TyAstNodeContent::Expression(e) => expr_aborts(decls, e, check_call_body),
        TyAstNodeContent::ImplicitReturnExpression(e) => expr_aborts(decls, e, check_call_body),
        _ => false,
    }
}

/// Appends the unresolved types of the expressions `a`, which `x` holds
/// in a list.
fn exprs_collect(
    x: &TyExpression,
    a: &Vec<TyExpression>,
    type_engine: &TypeEngine,
    out: &mut Vec<TypeMetadata>,
)
    requires
        a@ == listed(*x),
        expr_live(type_engine@, *x),
    ensures
        final(out)@ == old(out)@ + exprs_unresolved(type_engine@, *x, a@.len()),
    decreases *x, 0int,
{
    let mut i: usize = 0;
    assert(out@ =~= old(out)@ + exprs_unresolved(type_engine@, *x, 0));
    while i < a.len()
        invariant
            a@ == listed(*x),
            expr_live(type_engine@, *x),
            0 <= i <= a.len(),
            out@ == old(out)@ + exprs_unresolved(type_engine@, *x, i as nat),
        decreases a.len() - i,
    {
        proof {
            lemma_listed_live(type_engine@, *x, i as int);
        }
        a[i].collect_into(type_engine, out);
        assert(out@ =~= old(out)@ + exprs_unresolved(type_engine@, *x, (i + 1) as nat));
        i += 1;
    }
}

/// Appends the explicit returns in the expressions `a`, which `x` holds in
/// a list.
fn exprs_gather<'a>(x: &'a TyExpression, a: &'a Vec<TyExpression>, out: &mut Vec<&'a TyExpression>)
    requires
        a@ == listed(*x),
    ensures
        pointees(final(out)@) == pointees(old(out)@) + exprs_returns(*x, a@.len()),
    decreases *x, 0int,
{
    let mut i: usize = 0;
    assert(pointees(out@) =~= pointees(old(out)@) + exprs_returns(*x, 0));
    while i < a.len()
        invariant
            a@ == listed(*x),
            0 <= i <= a.len(),
            pointees(out@) == pointees(old(out)@) + exprs_returns(*x, i as nat),
        decreases a.len() - i,
    {
        proof {
            lemma_listed_smaller(*x, i as int);
        }
        a[i].gather_into(out);
        assert(pointees(out@) =~= pointees(old(out)@) + exprs_returns(*x, (i + 1) as nat));
        i += 1;
    }
}

impl TyExpression {
    /// Appends the unresolved types of the expression to `out`.
    pub fn collect_into(&self, type_engine: &TypeEngine, out: &mut Vec<TypeMetadata>)
        requires
            expr_live(type_engine@, *self),
        ensures
            final(out)@ == old(out)@ + expr_unresolved(type_engine@, *self),
        decreases *self, 1int,
    {
        let open = match type_engine.get(self.return_type) {
            TypeInfo::Unknown(_) | TypeInfo::Custom(_) => true,
            _ => false,
        };
        if open {
            out.push(TypeMetadata { type_id: self.return_type, span: self.span });
        }
        let ghost own = out@;
        assert(own =~= old(out)@ + own_unresolved(type_engine@, *self));
        match &self.expression {
            TyExpressionVariant::FunctionApplication { arguments, .. } => {
                exprs_collect(self, arguments, type_engine, out);
            },
            TyExpressionVariant::Tuple { fields } => {
                exprs_collect(self, fields, type_engine, out);
            },
            TyExpressionVariant::Return(e) => {
                e.collect_into(type_engine, out);
            },
            TyExpressionVariant::Revert(e) => {
                e.collect_into(type_engine, out);
            },
            _ => {},
        }
        assert(out@ =~= old(out)@ + expr_unresolved(type_engine@, *self));
    }

    /// The types in the expression that are still to be resolved.
    pub fn collect_types_metadata(&self, type_engine: &TypeEngine) -> (found: Vec<TypeMetadata>)
        requires
            expr_live(type_engine@, *self),
        ensures
            found@ == expr_unresolved(type_engine@, *self),
    {
        let mut found: Vec<TypeMetadata> = Vec::new();
        self.collect_into(type_engine, &mut found);
        assert(Seq::<TypeMetadata>::empty() + expr_unresolved(type_engine@, *self)
            =~= expr_unresolved(type_engine@, *self));
        found
    }

    /// Appends the explicit returns in the expression to `out`.
    pub fn gather_into<'a>(&'a self, out: &mut Vec<&'a TyExpression>)
        ensures
            pointees(final(out)@) == pointees(old(out)@) + expr_returns(*self),
        decreases *self, 1int,
    {
        match &self.expression {
            TyExpressionVariant::Return(_) => {
                out.push(self);
                assert(pointees(out@) =~= pointees(old(out)@) + seq![*self]);
            },
            TyExpressionVariant::FunctionApplication { arguments, .. } => {
                exprs_gather(self, arguments, out);
            },
            TyExpressionVariant::Tuple { fields } => {
                exprs_gather(self, fields, out);
            },
            TyExpressionVariant::Revert(e) => {
                e.gather_into(out);
            },
            _ => {
                assert(pointees(out@) =~= pointees(old(out)@) + Seq::<TyExpression>::empty());
            },
        }
    }

    /// The explicit returns in the expression, in order.
    pub fn gather_return_statements(&self) -> (gathered: Vec<&TyExpression>)
        ensures
            pointees(gathered@) == expr_returns(*self),
    {
        let mut gathered: Vec<&TyExpression> = Vec::new();
        self.gather_into(&mut gathered);
        assert(pointees(Seq::<&TyExpression>::empty()) + expr_returns(*self) =~= expr_returns(
            *self,
        ));
        gathered
    }

    /// Whether the expression ends the program, where calls do not count.
    pub fn aborts_shallow(&self) -> (aborts: bool)
        ensures
            aborts == expr_aborts_shallow(*self),
        decreases *self,
    {
        match &self.expression {
            TyExpressionVariant::Revert(_) => true,
            TyExpressionVariant::Return(e) => e.aborts_shallow(),
            TyExpressionVariant::Tuple { fields } => {
                let mut i: usize = 0;
                while i < fields.len()
                    invariant
                        self.expression is Tuple,
                        fields@ == listed(*self),
                        0 <= i <= fields.len(),
                        forall|j: int| 0 <= j < i ==> !expr_aborts_shallow(#[trigger] fields@[j]),
                    decreases fields.len() - i,
                {
                    proof {
                        lemma_listed_smaller(*self, i as int);
                    }
                    if fields[i].aborts_shallow() {
                        return true;
                    }
                    i += 1;
                }
                false
            },
            _ => false,
        }
    }

    /// Whether the expression ends the program whenever it is reached.
    pub fn deterministically_aborts(&self, decl_engine: &DeclEngine, check_call_body: bool) -> (aborts:
        bool)
        ensures
            aborts == expr_aborts(decl_engine, *self, check_call_body),
        decreases *self,
    {
        match &self.expression {
            TyExpressionVariant::Revert(_) => true,
            TyExpressionVariant::Return(e) => e.deterministically_aborts(
                decl_engine,
                check_call_body,
            ),
            TyExpressionVariant::Tuple { fields } => {
                let mut i: usize = 0;
                while i < fields.len()
                    invariant
                        self.expression is Tuple,
                        fields@ == listed(*self),
                        0 <= i <= fields.len(),
                        forall|j: int|
                            0 <= j < i ==> !expr_aborts(
                                decl_engine,
                                #[trigger] fields@[j],
                                check_call_body,
                            ),
                    decreases fields.len() - i,
                {
                    proof {
                        lemma_listed_smaller(*self, i as int);
                    }
                    if fields[i].deterministically_aborts(decl_engine, check_call_body) {
                        return true;
                    }
                    i += 1;
                }
                false
            },
            TyExpressionVariant::FunctionApplication { arguments, function_decl_id, call_path } => {
                if !check_call_body {
                    return false;
                }
                if function_body_aborts(decl_engine, *function_decl_id) {
                    return true;
                }
                let mut i: usize = 0;
                while i < arguments.len()
                    invariant
                        self.expression is FunctionApplication,
                        arguments@ == listed(*self),
                        check_call_body,
                        !body_aborts(decl_engine, self.expression->function_decl_id),
                        0 <= i <= arguments.len(),
                        forall|j: int|
                            0 <= j < i ==> !expr_aborts(
                                decl_engine,
                                #[trigger] arguments@[j],
                                check_call_body,
                            ),
                    decreases arguments.len() - i,
                {
                    proof {
                        lemma_listed_smaller(*self, i as int);
                    }
                    if arguments[i].deterministically_aborts(decl_engine, check_call_body) {
                        return true;
                    }
                    i += 1;
                }
                false
            },
            _ => false,
        }
    }
}

/// Whether a node of the body of the function under `id` ends the program,
/// where calls do not count.
pub fn function_body_aborts(decl_engine: &DeclEngine, id: DeclId) -> (aborts: bool)
    ensures
        aborts == body_aborts(decl_engine, id),
{
    let span = Span::new(0, 0, 0);
    match decl_engine.get_function(id, &span) {
        Ok(function) => {
            let mut k: usize = 0;
            while k < function.body.len()
                invariant
                    decl_engine.has(id),
                    decl_engine.decl(id) == DeclWrapper::Function(*function),
                    0 <= k <= function.body.len(),
                    forall|j: int| 0 <= j < k ==> !node_aborts_shallow(#[trigger] function.body@[j]),
                decreases function.body.len() - k,
            {
                let aborts = match &function.body[k].content {
                    TyAstNodeContent::Expression(e) => e.aborts_shallow(),
                    TyAstNodeContent::ImplicitReturnExpression(e) => e.aborts_shallow(),
                    _ => false,
                };
                if aborts {
                    return true;
                }
                k += 1;
            }
            false
        },
        Err(_) => false,
    }
}

impl TyAstNodeContent {
    /// The types in the node that are still to be resolved.
    pub fn collect_types_metadata(&self, type_engine: &TypeEngine) -> (found: Vec<TypeMetadata>)
        requires
            content_live(type_engine@, *self),
        ensures
            found@ == node_unresolved(type_engine@, *self),
    {
        match self {
            TyAstNodeContent::Declaration(TyDeclaration::VariableDeclaration(decl)) => {
                decl.body.collect_types_metadata(type_engine)
            },
            TyAstNodeContent::Expression(expr) => expr.collect_types_metadata(type_engine),
            TyAstNodeContent::ImplicitReturnExpression(expr) => expr.collect_types_metadata(
                type_engine,
            ),
            _ => Vec::new(),
        }
    }
}

impl TyAstNode {
    /// The types in the node that are still to be resolved, all of them
    /// in one pass.
    pub fn collect_types_metadata(&self, type_engine: &TypeEngine) -> (found: Vec<TypeMetadata>)
        requires
            node_live(type_engine@, *self),
        ensures
            found@ == node_unresolved(type_engine@, self.content),
    {
        self.content.collect_types_metadata(type_engine)
    }

    /// Whether the node ends the program whenever it is reached.
    pub fn deterministically_aborts(&self, decl_engine: &DeclEngine, check_call_body: bool) -> (aborts:
        bool)
        ensures
            aborts == node_aborts(decl_engine, *self, check_call_body),
    {
        match &self.content {
            TyAstNodeContent::Declaration(_) => false,
            TyAstNodeContent::Expression(exp) => exp.deterministically_aborts(
                decl_engine,
                check_call_body,
            ),
            TyAstNodeContent::ImplicitReturnExpression(exp) => exp.deterministically_aborts(
                decl_engine,
                check_call_body,
            ),
            TyAstNodeContent::SideEffect => false,
        }
    }

    /// The explicit returns in the node, in order. An implicit return is
    /// not among them.
    pub fn gather_return_statements(&self) -> (gathered: Vec<&TyExpression>)
        ensures
            pointees(gathered@) == node_returns(self.content),
    {
        match &self.content {
            TyAstNodeContent::ImplicitReturnExpression(exp) => exp.gather_return_statements(),
            TyAstNodeContent::Declaration(TyDeclaration::VariableDeclaration(decl)) => {
                decl.body.gather_return_statements()
            },
            TyAstNodeContent::Expression(exp) => exp.gather_return_statements(),
            TyAstNodeContent::SideEffect | TyAstNodeContent::Declaration(_) => {
                let gathered: Vec<&TyExpression> = Vec::new();
                assert(pointees(gathered@) =~= Seq::<TyExpression>::empty());
                gathered
            },
        }
    }
}

impl TypeId {
    /// The type itself, with the place `span`, if it is still to be
    /// resolved.
    pub fn collect_types_metadata(&self, type_engine: &TypeEngine, span: Span) -> (found: Vec<
        TypeMetadata,
    >)
        requires
            type_engine@.contains(*self),
        ensures
            found@ == (if unresolved(type_engine@.form(*self)) {
                seq![TypeMetadata { type_id: *self, span }]
            } else {
                Seq::<TypeMetadata>::empty()
            }),
    {
        let mut found: Vec<TypeMetadata> = Vec::new();
        match type_engine.get(*self) {
            TypeInfo::Unknown(_) | TypeInfo::Custom(_) => {
                found.push(TypeMetadata { type_id: *self, span });
            },
            _ => {},
        }
        found
    }
}

} // verus!
