//! The typed syntax tree. A node holds handles to types and to
//! declarations, never their contents, so every operation that has to
//! interpret a handle takes the engines.

pub mod analysis;
pub mod content;
pub mod declaration;
pub mod display;
pub mod rewrite;

use crate::decl_engine::DeclId;
use crate::language::Literal;
use crate::language::StateIndex;
use crate::span::Ident;
use crate::span::Span;
use crate::type_engine::TypeId;
use crate::type_engine::TypeEngine;
use crate::type_engine::TypeTable;
use vstd::prelude::*;

verus! {

/// One step of an access to storage: a field and its type.
#[derive(Clone, Debug, PartialEq, Eq)]
pub struct TyStorageAccessDescriptor {
    pub name: Ident,
    pub type_id: TypeId,
    pub span: Span,
}

/// An access to storage: the field, then the fields inside it.
#[derive(Clone, Debug, PartialEq, Eq)]
pub struct TyStorageAccess {
    pub fields: Vec<TyStorageAccessDescriptor>,
    pub ix: StateIndex,
}

/// A typed expression.
#[derive(Debug, PartialEq, Eq)]
pub struct TyExpression {
    pub expression: TyExpressionVariant,
    pub return_type: TypeId,
    pub span: Span,
}

/// What a typed expression is.
#[derive(Debug, PartialEq, Eq)]
pub enum TyExpressionVariant {
    Literal(Literal),
    VariableExpression { name: Ident },
    FunctionApplication { call_path: Ident, arguments: Vec<TyExpression>, function_decl_id: DeclId },
    Tuple { fields: Vec<TyExpression> },
    StorageAccess(TyStorageAccess),
    Return(Box<TyExpression>),
    /// Ends the program with the value of the expression.
    Revert(Box<TyExpression>),
    Break,
    Continue,
}

/// The declaration of a variable.
#[derive(Clone, Debug)]
pub struct TyVariableDeclaration {
    pub name: Ident,
    pub body: TyExpression,
    pub type_ascription: TypeId,
    pub is_mutable: bool,
}

/// A declaration in the tree. A variable is held by value; every other
/// declaration is owned by the declaration engine and named by handle.
#[derive(Debug)]
pub enum TyDeclaration {
    VariableDeclaration(Box<TyVariableDeclaration>),
    ConstantDeclaration(DeclId),
    FunctionDeclaration(DeclId),
    TraitDeclaration(DeclId),
    StructDeclaration(DeclId),
    EnumDeclaration(DeclId),
    ImplTrait(DeclId),
    AbiDeclaration(DeclId),
    StorageDeclaration(DeclId),
    ErrorRecovery,
}

/// What a node of the tree is.
#[derive(Debug)]
pub enum TyAstNodeContent {
    Declaration(TyDeclaration),
    Expression(TyExpression),
    ImplicitReturnExpression(TyExpression),
    /// A node that only has a side effect, like an import.
    SideEffect,
}

/// A node of the typed tree.
#[derive(Debug)]
pub struct TyAstNode {
    pub content: TyAstNodeContent,
    pub span: Span,
}

/// Whether the type of the descriptor is a handle of `table`.
pub open spec fn descriptor_live(table: TypeTable, x: TyStorageAccessDescriptor) -> bool {
    table.contains(x.type_id)
}

/// Whether the types of the access are handles of `table`.
pub open spec fn access_live(table: TypeTable, x: TyStorageAccess) -> bool {
    forall|i: int| 0 <= i < x.fields@.len() ==> descriptor_live(table, #[trigger] x.fields@[i])
}

/// Whether every type in the expression is a handle of `table`.
pub open spec fn expr_live(table: TypeTable, x: TyExpression) -> bool
    decreases x,
{
    table.contains(x.return_type) && match x.expression {
        TyExpressionVariant::FunctionApplication { arguments, .. } => forall|i: int|
            0 <= i < arguments@.len() ==> expr_live(table, #[trigger] arguments@[i]),
        TyExpressionVariant::Tuple { fields } => forall|i: int|
            0 <= i < fields@.len() ==> expr_live(table, #[trigger] fields@[i]),
        TyExpressionVariant::StorageAccess(access) => access_live(table, access),
        TyExpressionVariant::Return(e) => expr_live(table, *e),
        TyExpressionVariant::Revert(e) => expr_live(table, *e),
        _ => true,
    }
}

/// The expressions that `x` holds in a list: the arguments of a call, the
/// fields of a tuple.
pub open spec fn listed(x: TyExpression) -> Seq<TyExpression> {
    match x.expression {
        TyExpressionVariant::FunctionApplication { arguments, .. } => arguments@,
        TyExpressionVariant::Tuple { fields } => fields@,
        _ => Seq::empty(),
    }
}

/// Whether every type in the declaration is a handle of `table`.
pub open spec fn decl_live(table: TypeTable, x: TyDeclaration) -> bool {
    x matches TyDeclaration::VariableDeclaration(v) ==> table.contains(v.type_ascription)
        && expr_live(table, v.body)
}

/// Whether every type in the content of a node is a handle of `table`.
pub open spec fn content_live(table: TypeTable, x: TyAstNodeContent) -> bool {
    match x {
        TyAstNodeContent::Declaration(d) => decl_live(table, d),
        TyAstNodeContent::Expression(e) => expr_live(table, e),
        TyAstNodeContent::ImplicitReturnExpression(e) => expr_live(table, e),
        TyAstNodeContent::SideEffect => true,
    }
}

/// Whether every type in the node is a handle of `table`.
pub open spec fn node_live(table: TypeTable, x: TyAstNode) -> bool {
    content_live(table, x.content)
}

impl TyStorageAccess {
    /// The span from the first `n` fields on, joined.
    pub open spec fn joined_span(&self, n: nat) -> Span
        decreases n,
    {
        if n == 0 {
            self.fields@[0].span
        } else {
            self.joined_span((n - 1) as nat).joined(self.fields@[n - 1].span)
        }
    }

    /// Whether all fields stand in one file.
    pub open spec fn one_source(&self) -> bool {
        forall|i: int|
            0 <= i < self.fields@.len() ==> (#[trigger] self.fields@[i]).span.source_id
                == self.fields@[0].span.source_id
    }

    /// The place of the whole access: the spans of its fields, joined.
    pub fn span(&self) -> (span: Span)
        requires
            self.fields@.len() > 0,
            self.one_source(),
        ensures
            span == self.joined_span(self.fields@.len()),
    {
        let mut acc = self.fields[0].span;
        let mut i: usize = 0;
        while i < self.fields.len()
            invariant
                self.one_source(),
                0 <= i <= self.fields.len(),
                acc == self.joined_span(i as nat),
                acc.source_id == self.fields@[0].span.source_id,
            decreases self.fields.len() - i,
        {
            acc = Span::join(acc, self.fields[i].span);
            i += 1;
        }
        acc
    }

    /// The name of the storage field that is accessed.
    pub fn storage_field_name(&self) -> (name: Ident)
        requires
            self.fields@.len() > 0,
        ensures
            name@ == self.fields@[0].name@,
            name.span == self.fields@[0].name.span,
    {
        self.fields[0].name.copy()
    }
}

/// A listed expression of a live expression is live and smaller.
pub proof fn lemma_listed_live(table: TypeTable, x: TyExpression, i: int)
    requires
        expr_live(table, x),
        0 <= i < listed(x).len(),
    ensures
        expr_live(table, listed(x)[i]),
        decreases_to!(x => listed(x)[i]),
{
    match x.expression {
        TyExpressionVariant::FunctionApplication { arguments, .. } => {
            vstd::std_specs::vec::axiom_vec_index_decreases(arguments, i);
        },
        TyExpressionVariant::Tuple { fields } => {
            vstd::std_specs::vec::axiom_vec_index_decreases(fields, i);
        },
        _ => {},
    }
}

/// A listed expression of an expression is smaller than it.
pub proof fn lemma_listed_smaller(x: TyExpression, i: int)
    requires
        0 <= i < listed(x).len(),
    ensures
        decreases_to!(x => listed(x)[i]),
{
    match x.expression {
        TyExpressionVariant::FunctionApplication { arguments, .. } => {
            vstd::std_specs::vec::axiom_vec_index_decreases(arguments, i);
        },
        TyExpressionVariant::Tuple { fields } => {
            vstd::std_specs::vec::axiom_vec_index_decreases(fields, i);
        },
        _ => {},
    }
}

impl TyStorageAccess {
    /// Whether the types of the access are handles of `type_engine`.
    pub fn is_live(&self, type_engine: &TypeEngine) -> (live: bool)
        ensures
            live == access_live(type_engine@, *self),
    {
        let mut i: usize = 0;
        while i < self.fields.len()
            invariant
                0 <= i <= self.fields.len(),
                forall|j: int| 0 <= j < i ==> descriptor_live(type_engine@, #[trigger] self.fields@[j]),
            decreases self.fields.len() - i,
        {
            if !type_engine.contains(self.fields[i].type_id) {
                return false;
            }
            i += 1;
        }
        true
    }
}

/// Whether every expression in the list `a` of `x` is live.
fn exprs_live(x: &TyExpression, a: &Vec<TyExpression>, type_engine: &TypeEngine) -> (live: bool)
    requires
        a@ == listed(*x),
    ensures
        live == (forall|i: int| 0 <= i < a@.len() ==> expr_live(type_engine@, #[trigger] a@[i])),
    decreases *x, 0int,
{
    let mut i: usize = 0;
    while i < a.len()
        invariant
            a@ == listed(*x),
            0 <= i <= a.len(),
            forall|j: int| 0 <= j < i ==> expr_live(type_engine@, #[trigger] a@[j]),
        decreases a.len() - i,
    {
        proof {
            lemma_listed_smaller(*x, i as int);
        }
        if !a[i].is_live(type_engine) {
            return false;
        }
        i += 1;
    }
    true
}

impl TyExpression {
    /// Whether every type in the expression is a handle of `type_engine`.
    pub fn is_live(&self, type_engine: &TypeEngine) -> (live: bool)
        ensures
            live == expr_live(type_engine@, *self),
        decreases *self, 1int,
    {
        if !type_engine.contains(self.return_type) {
            return false;
        }
        match &self.expression {
            TyExpressionVariant::FunctionApplication { arguments, .. } => exprs_live(
                self,
                arguments,
                type_engine,
            ),
            TyExpressionVariant::Tuple { fields } => exprs_live(self, fields, type_engine),
            TyExpressionVariant::StorageAccess(access) => access.is_live(type_engine),
            TyExpressionVariant::Return(e) => e.is_live(type_engine),
            TyExpressionVariant::Revert(e) => e.is_live(type_engine),
            _ => true,
        }
    }
}

impl TyDeclaration {
    /// Whether every type in the declaration is a handle of `type_engine`.
    pub fn is_live(&self, type_engine: &TypeEngine) -> (live: bool)
        ensures
            live == decl_live(type_engine@, *self),
    {
        match self {
            TyDeclaration::VariableDeclaration(v) => type_engine.contains(v.type_ascription)
                && v.body.is_live(type_engine),
            _ => true,
        }
    }
}

impl TyAstNodeContent {
    /// Whether every type in the content is a handle of `type_engine`.
    pub fn is_live(&self, type_engine: &TypeEngine) -> (live: bool)
        ensures
            live == content_live(type_engine@, *self),
    {
        match self {
            TyAstNodeContent::Declaration(d) => d.is_live(type_engine),
            TyAstNodeContent::Expression(e) => e.is_live(type_engine),
            TyAstNodeContent::ImplicitReturnExpression(e) => e.is_live(type_engine),
            TyAstNodeContent::SideEffect => true,
        }
    }
}

impl TyAstNode {
    /// Whether every type in the node is a handle of `type_engine`.
    pub fn is_live(&self, type_engine: &TypeEngine) -> (live: bool)
        ensures
            live == node_live(type_engine@, *self),
    {
        self.content.is_live(type_engine)
    }
}

} // verus!
