//! What is known of a program before it is checked: its kind.

use crate::language::AttributeKind;
use crate::language::AttributesMap;
use crate::span::Ident;
use crate::span::Span;
use vstd::prelude::*;

verus! {

/// The kind of a program: a contract, a script, a predicate, or a library
/// with its name.
#[derive(Clone, Debug, PartialEq, Eq)]
pub enum TreeType {
    Predicate,
    Script,
    Contract,
    Library { name: Ident },
}

impl TreeType {
    /// The word for the kind.
    pub open spec fn text(&self) -> Seq<char> {
        match *self {
            TreeType::Predicate => "predicate"@,
            TreeType::Script => "script"@,
            TreeType::Contract => "contract"@,
            TreeType::Library { .. } => "library"@,
        }
    }

    /// The word for the kind.
    pub fn to_text(&self) -> (text: String)
        ensures
            text@ == self.text(),
    {
        match self {
            TreeType::Predicate => String::from_str("predicate"),
            TreeType::Script => String::from_str("script"),
            TreeType::Contract => String::from_str("contract"),
            TreeType::Library { .. } => String::from_str("library"),
        }
    }

    /// Whether a program of this kind starts at an entry function.
    pub open spec fn has_entry_point(&self) -> bool {
        *self is Script || *self is Predicate
    }

    /// Whether two kinds are the same: libraries, if they have the same
    /// name.
    pub fn same_kind(&self, other: &TreeType) -> (same: bool)
        ensures
            same == match (*self, *other) {
                (TreeType::Predicate, TreeType::Predicate) => true,
                (TreeType::Script, TreeType::Script) => true,
                (TreeType::Contract, TreeType::Contract) => true,
                (TreeType::Library { name: a }, TreeType::Library { name: b }) => a@ == b@,
                _ => false,
            },
    {
        match (self, other) {
            (TreeType::Predicate, TreeType::Predicate) => true,
            (TreeType::Script, TreeType::Script) => true,
            (TreeType::Contract, TreeType::Contract) => true,
            (TreeType::Library { name: a }, TreeType::Library { name: b }) => a.same_name(b),
            _ => false,
        }
    }
}

/// `sway_types::constants::DEFAULT_ENTRY_POINT_FN_NAME`: the name of the
/// function at which a script or a predicate starts, which is `main`.
#[verifier::external_body]
pub(crate) fn default_entry_point_fn_name() -> (name: &'static str)
    ensures
        name@ == "main"@,
{
    sway_types::constants::DEFAULT_ENTRY_POINT_FN_NAME
}

/// What was parsed with attributes: its name and its attributes.
#[derive(Clone, Debug)]
pub struct ParsedItem {
    pub name: Ident,
    pub attributes: AttributesMap,
}

/// A declaration as it was parsed.
#[derive(Clone, Debug)]
pub enum Declaration {
    VariableDeclaration(Ident),
    FunctionDeclaration(ParsedItem),
    TraitDeclaration(Ident),
    StructDeclaration(ParsedItem),
    EnumDeclaration(ParsedItem),
    ImplTrait(Ident),
    AbiDeclaration(Ident),
    ConstantDeclaration(ParsedItem),
    StorageDeclaration(ParsedItem),
}

/// What a node of the parsed tree is.
#[derive(Clone, Debug)]
pub enum AstNodeContent {
    UseStatement(Ident),
    Declaration(Declaration),
    Expression(Ident),
}

/// A node of the parsed tree.
#[derive(Clone, Debug)]
pub struct AstNode {
    pub content: AstNodeContent,
    pub span: Span,
}

/// The nodes of a module, in their order.
#[derive(Clone, Debug)]
pub struct ParseTree {
    pub root_nodes: Vec<AstNode>,
    pub span: Span,
}

/// A module as it was parsed.
#[derive(Clone, Debug)]
pub struct ParseModule {
    pub tree: ParseTree,
}

/// A program as it was parsed and not yet checked: its kind and its root
/// module.
#[derive(Clone, Debug)]
pub struct ParseProgram {
    pub kind: TreeType,
    pub root: ParseModule,
}

/// Whether the node declares a function that is marked as a test.
pub open spec fn is_test(node: AstNode) -> bool {
    node.content matches AstNodeContent::Declaration(Declaration::FunctionDeclaration(item))
        && item.attributes.has(AttributeKind::Test)
}

/// The nodes that declare no test, in their order.
pub open spec fn without_tests(nodes: Seq<AstNode>) -> Seq<AstNode>
    decreases nodes.len(),
{
    if nodes.len() == 0 {
        Seq::empty()
    } else if is_test(nodes.last()) {
        without_tests(nodes.drop_last())
    } else {
        without_tests(nodes.drop_last()).push(nodes.last())
    }
}

impl AstNode {
    /// Whether the node declares a function that is marked as a test.
    pub fn is_test(&self) -> (test: bool)
        ensures
            test == is_test(*self),
    {
        match &self.content {
            AstNodeContent::Declaration(Declaration::FunctionDeclaration(item)) => item.attributes.contains_key(
                AttributeKind::Test,
            ),
            _ => false,
        }
    }
}

impl ParseTree {
    /// Takes the functions that are marked as tests out of the tree.
    pub fn exclude_tests(&mut self)
        ensures
            final(self).root_nodes@ == without_tests(old(self).root_nodes@),
            final(self).span == old(self).span,
    {
        let ghost all = self.root_nodes@;
        let mut kept: Vec<AstNode> = Vec::new();
        let ghost mut done: int = 0;
        assert(all.skip(0) =~= all);
        assert(all.take(0) =~= Seq::<AstNode>::empty());
        while self.root_nodes.len() > 0
            invariant
                all == old(self).root_nodes@,
                self.span == old(self).span,
                0 <= done <= all.len(),
                self.root_nodes@ == all.skip(done),
                kept@ == without_tests(all.take(done)),
            decreases self.root_nodes.len(),
        {
            let node = self.root_nodes.remove(0);
            proof {
                assert(node == all[done]);
                assert(self.root_nodes@ =~= all.skip(done + 1));
                assert(all.take(done + 1).drop_last() =~= all.take(done));
                assert(all.take(done + 1).last() == all[done]);
            }
            if !node.is_test() {
                kept.push(node);
            }
            proof {
                done = done + 1;
            }
        }
        assert(all.take(done) =~= all);
        self.root_nodes = kept;
    }
}

impl ParseProgram {
    /// Takes the functions that are marked as tests out of the program.
    pub fn exclude_tests(&mut self)
        ensures
            final(self).root.tree.root_nodes@ == without_tests(old(self).root.tree.root_nodes@),
            final(self).root.tree.span == old(self).root.tree.span,
            final(self).kind == old(self).kind,
    {
        self.root.tree.exclude_tests()
    }
}

} // verus!
