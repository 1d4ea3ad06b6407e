//! The text of the nodes of the typed tree.

use crate::decl_engine::DeclEngine;
use crate::decl_engine::DeclKind;
use crate::decl_engine::Engines;
use crate::language::Literal;
use crate::text::decimal;
use crate::text::push_decimal;
use crate::ty::decl_live;
use crate::ty::declaration::GetDeclIdent;
use crate::ty::lemma_listed_smaller;
use crate::ty::listed;
use crate::ty::node_live;
use crate::ty::TyAstNode;
use crate::ty::TyAstNodeContent;
use crate::ty::TyDeclaration;
use crate::ty::TyExpression;
use crate::ty::TyExpressionVariant;
use crate::ty::TyStorageAccessDescriptor;
use crate::type_engine::TypeTable;
use vstd::prelude::*;

verus! {

/// The text of a literal.
pub open spec fn literal_text(x: Literal) -> Seq<char> {
    match x {
        Literal::U64(n) => decimal(n as nat),
        Literal::Boolean(b) => if b {
            "true"@
        } else {
            "false"@
        },
    }
}

/// The names of the first `n` steps of an access, each behind a dot.
pub open spec fn steps_text(fields: Seq<TyStorageAccessDescriptor>, n: nat) -> Seq<char>
    decreases n,
{
    if n == 0 || n > fields.len() {
        Seq::empty()
    } else {
        steps_text(fields, (n - 1) as nat) + "."@ + fields[n - 1].name@
    }
}

/// The text of an expression.
pub open spec fn expr_text(x: TyExpression) -> Seq<char>
    decreases x, listed(x).len() + 1,
{
    match x.expression {
        TyExpressionVariant::Literal(l) => literal_text(l),
        TyExpressionVariant::VariableExpression { name } => name@,
        TyExpressionVariant::FunctionApplication { call_path, arguments, .. } => call_path@ + "("@
            + exprs_text(x, arguments@.len()) + ")"@,
        TyExpressionVariant::Tuple { fields } => "("@ + exprs_text(x, fields@.len()) + ")"@,
        TyExpressionVariant::StorageAccess(access) => "storage"@ + steps_text(
            access.fields@,
            access.fields@.len(),
        ),
        TyExpressionVariant::Return(e) => "return "@ + expr_text(*e),
        TyExpressionVariant::Revert(e) => "revert "@ + expr_text(*e),
        TyExpressionVariant::Break => "break"@,
        TyExpressionVariant::Continue => "continue"@,
    }
}

/// The texts of the first `n` expressions that `x` holds in a list, with
/// `, ` between them.
pub open spec fn exprs_text(x: TyExpression, n: nat) -> Seq<char>
    decreases x, n,
{
    if n == 0 || n > listed(x).len() {
        Seq::empty()
    } else if n == 1 {
        expr_text(listed(x)[0])
    } else {
        exprs_text(x, (n - 1) as nat) + ", "@ + expr_text(listed(x)[n - 1])
    }
}

/// The word for a kind of declaration.
pub open spec fn kind_text(kind: DeclKind) -> Seq<char> {
    match kind {
        DeclKind::Unknown => "unknown"@,
        DeclKind::Function => "fn"@,
        DeclKind::Trait => "trait"@,
        DeclKind::ImplTrait => "impl"@,
        DeclKind::Struct => "struct"@,
        DeclKind::Enum => "enum"@,
        DeclKind::Abi => "abi"@,
        DeclKind::Constant => "const"@,
        DeclKind::Storage => "storage"@,
    }
}

/// The text of a declaration: a variable with its type and its value; any
/// other declaration as the word for its kind and, where its handle
/// resolves to a declaration with a name, the name.
pub open spec fn decl_text(table: TypeTable, decls: &DeclEngine, x: TyDeclaration) -> Seq<char> {
    match x {
        TyDeclaration::VariableDeclaration(v) => "let "@ + v.name@ + ": "@ + table.text(
            v.type_ascription,
        ) + " = "@ + expr_text(v.body),
        TyDeclaration::ErrorRecovery => "error"@,
        _ => match x.ident_of(decls) {
            Some(name) => kind_text(x.handle_of().unwrap().1) + " "@ + name@,
            None => kind_text(x.handle_of().unwrap().1),
        },
    }
}

/// The text of a node: that of its declaration or expression, `return`
/// and the expression for an implicit return, nothing for a side effect.
pub open spec fn node_text(table: TypeTable, decls: &DeclEngine, x: TyAstNodeContent) -> Seq<char> {
    match x {
        TyAstNodeContent::Declaration(d) => decl_text(table, decls, d),
        TyAstNodeContent::Expression(e) => expr_text(e),
        TyAstNodeContent::ImplicitReturnExpression(e) => "return "@ + expr_text(e),
        TyAstNodeContent::SideEffect => Seq::empty(),
    }
}

/// Appends the texts of the expressions `a`, which `x` holds in a list,
/// with `, ` between them.
fn exprs_write(x: &TyExpression, a: &Vec<TyExpression>, out: &mut String)
    requires
        a@ == listed(*x),
    ensures
        final(out)@ == old(out)@ + exprs_text(*x, a@.len()),
    decreases *x, 0int,
{
    let mut i: usize = 0;
    assert(out@ =~= old(out)@ + exprs_text(*x, 0));
    while i < a.len()
        invariant
            a@ == listed(*x),
            0 <= i <= a.len(),
            out@ == old(out)@ + exprs_text(*x, i as nat),
        decreases a.len() - i,
    {
        proof {
            lemma_listed_smaller(*x, i as int);
        }
        if i > 0 {
            out.append(", ");
        }
        a[i].write_text(out);
        assert(out@ =~= old(out)@ + exprs_text(*x, (i + 1) as nat));
        i += 1;
    }
}

impl DeclKind {
    /// The word for the kind.
    pub fn to_text(&self) -> (text: &'static str)
        ensures
            text@ == kind_text(*self),
    {
        match self {
            DeclKind::Unknown => "unknown",
            DeclKind::Function => "fn",
            DeclKind::Trait => "trait",
            DeclKind::ImplTrait => "impl",
            DeclKind::Struct => "struct",
            DeclKind::Enum => "enum",
            DeclKind::Abi => "abi",
            DeclKind::Constant => "const",
            DeclKind::Storage => "storage",
        }
    }
}

impl TyExpression {
    /// Appends the text of the expression to `out`.
    pub fn write_text(&self, out: &mut String)
        ensures
            final(out)@ == old(out)@ + expr_text(*self),
        decreases *self, 1int,
    {
        match &self.expression {
            TyExpressionVariant::Literal(Literal::U64(n)) => {
                push_decimal(out, *n);
            },
            TyExpressionVariant::Literal(Literal::Boolean(b)) => {
                out.append(if *b {
                    "true"
                } else {
                    "false"
                });
            },
            TyExpressionVariant::VariableExpression { name } => {
                out.append(name.as_str());
            },
            TyExpressionVariant::FunctionApplication { call_path, arguments, .. } => {
                out.append(call_path.as_str());
                out.append("(");
                exprs_write(self, arguments, out);
                out.append(")");
            },
            TyExpressionVariant::Tuple { fields } => {
                out.append("(");
                exprs_write(self, fields, out);
                out.append(")");
            },
            TyExpressionVariant::StorageAccess(access) => {
                out.append("storage");
                let ghost before = out@;
                let mut i: usize = 0;
                assert(out@ =~= before + steps_text(access.fields@, 0));
                while i < access.fields.len()
                    invariant
                        0 <= i <= access.fields.len(),
                        out@ == before + steps_text(access.fields@, i as nat),
                    decreases access.fields.len() - i,
                {
                    out.append(".");
                    out.append(access.fields[i].name.as_str());
                    assert(out@ =~= before + steps_text(access.fields@, (i + 1) as nat));
                    i += 1;
                }
            },
            TyExpressionVariant::Return(e) => {
                out.append("return ");
                e.write_text(out);
            },
            TyExpressionVariant::Revert(e) => {
                out.append("revert ");
                e.write_text(out);
            },
            TyExpressionVariant::Break => {
                out.append("break");
            },
            TyExpressionVariant::Continue => {
                out.append("continue");
            },
        }
        assert(out@ =~= old(out)@ + expr_text(*self));
    }
}

impl TyDeclaration {
    /// The text of the declaration.
    pub fn to_text(&self, engines: Engines<'_>) -> (text: String)
        requires
            engines.types().wf(),
            decl_live(engines.types()@, *self),
        ensures
            text@ == decl_text(engines.types()@, engines.decls(), *self),
    {
        match self {
            TyDeclaration::VariableDeclaration(v) => {
                let mut text = String::from_str("let ");
                text.append(v.name.as_str());
                text.append(": ");
                let type_text = engines.te().type_text(v.type_ascription);
                text.append(type_text.as_str());
                text.append(" = ");
                v.body.write_text(&mut text);
                text
            },
            TyDeclaration::ErrorRecovery => String::from_str("error"),
            _ => {
                match self.handle() {
                    Some((_, kind)) => {
                        let mut text = String::from_str(kind.to_text());
                        match self.get_decl_ident(engines.de()) {
                            Some(name) => {
                                text.append(" ");
                                text.append(name.as_str());
                            },
                            None => {},
                        }
                        text
                    },
                    None => String::new(),
                }
            },
        }
    }
}

impl TyAstNode {
    /// The text of the node.
    pub fn to_text(&self, engines: Engines<'_>) -> (text: String)
        requires
            engines.types().wf(),
            node_live(engines.types()@, *self),
        ensures
            text@ == node_text(engines.types()@, engines.decls(), self.content),
    {
        match &self.content {
            TyAstNodeContent::Declaration(typed_decl) => typed_decl.to_text(engines),
            TyAstNodeContent::Expression(exp) => {
                let mut text = String::new();
                exp.write_text(&mut text);
                assert(text@ =~= expr_text(*exp));
                text
            },
            TyAstNodeContent::ImplicitReturnExpression(exp) => {
                let mut text = String::from_str("return ");
                exp.write_text(&mut text);
                text
            },
            TyAstNodeContent::SideEffect => String::new(),
        }
    }
}

} // verus!
