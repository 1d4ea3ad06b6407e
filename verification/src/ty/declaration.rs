//! What a node says of the declaration that it holds: its name, whether
//! it can be seen from outside, whether it is an entry point or a test.

use crate::decl_engine::DeclEngine;
use crate::decl_engine::DeclId;
use crate::decl_engine::DeclKind;
use crate::error::CompileError;
use crate::language::AttributeKind;
use crate::language::Visibility;
use crate::parsed::default_entry_point_fn_name;
use crate::parsed::TreeType;
use crate::span::Ident;
use crate::span::Span;
use crate::ty::node_live;
use crate::ty::TyAstNode;
use crate::ty::TyAstNodeContent;
use crate::ty::TyDeclaration;
use crate::type_engine::TypeEngine;
use crate::type_engine::TypeForm;
use crate::type_engine::TypeInfo;
use crate::type_engine::TypeTable;
use vstd::prelude::*;

verus! {

impl TyDeclaration {
    /// The handle of the declaration and the kind that it has to have, if
    /// the engine owns the declaration.
    pub open spec fn handle_of(&self) -> Option<(DeclId, DeclKind)> {
        match *self {
            TyDeclaration::ConstantDeclaration(id) => Some((id, DeclKind::Constant)),
            TyDeclaration::FunctionDeclaration(id) => Some((id, DeclKind::Function)),
            TyDeclaration::TraitDeclaration(id) => Some((id, DeclKind::Trait)),
            TyDeclaration::StructDeclaration(id) => Some((id, DeclKind::Struct)),
            TyDeclaration::EnumDeclaration(id) => Some((id, DeclKind::Enum)),
            TyDeclaration::ImplTrait(id) => Some((id, DeclKind::ImplTrait)),
            TyDeclaration::AbiDeclaration(id) => Some((id, DeclKind::Abi)),
            TyDeclaration::StorageDeclaration(id) => Some((id, DeclKind::Storage)),
            _ => None,
        }
    }

    /// The handle of the declaration and the kind that it has to have, if
    /// the engine owns the declaration.
    pub fn handle(&self) -> (handle: Option<(DeclId, DeclKind)>)
        ensures
            handle == self.handle_of(),
    {
        match self {
            TyDeclaration::ConstantDeclaration(id) => Some((*id, DeclKind::Constant)),
            TyDeclaration::FunctionDeclaration(id) => Some((*id, DeclKind::Function)),
            TyDeclaration::TraitDeclaration(id) => Some((*id, DeclKind::Trait)),
            TyDeclaration::StructDeclaration(id) => Some((*id, DeclKind::Struct)),
            TyDeclaration::EnumDeclaration(id) => Some((*id, DeclKind::Enum)),
            TyDeclaration::ImplTrait(id) => Some((*id, DeclKind::ImplTrait)),
            TyDeclaration::AbiDeclaration(id) => Some((*id, DeclKind::Abi)),
            TyDeclaration::StorageDeclaration(id) => Some((*id, DeclKind::Storage)),
            _ => None,
        }
    }

    /// Whether the handle of the declaration, if it has one, names a
    /// declaration of its kind in `decl_engine`.
    pub open spec fn resolves(&self, decl_engine: &DeclEngine) -> bool {
        self.handle_of() matches Some((id, kind)) ==> decl_engine.has(id) && decl_engine.decl(
            id,
        ).kind_of() == kind
    }

    /// The error for a handle that names no declaration of its kind:
    /// that it is stale, or that it names another kind.
    pub open spec fn handle_error(&self, decl_engine: &DeclEngine, span: Span) -> CompileError {
        if decl_engine.has(self.handle_of().unwrap().0) {
            CompileError::DeclKindMismatch { span }
        } else {
            CompileError::DeclNotFound { span }
        }
    }

    /// Whether the declaration can be seen outside its module. A variable
    /// cannot; what has no visibility of its own can.
    pub open spec fn visibility_of(&self, decl_engine: &DeclEngine) -> Visibility {
        match self.handle_of() {
            Some((id, _)) => decl_engine.decl(id).visibility_of(),
            None => if *self is VariableDeclaration {
                Visibility::Private
            } else {
                Visibility::Public
            },
        }
    }

    /// Whether the declaration can be seen outside its module, or the
    /// error for its handle.
    pub fn visibility(&self, decl_engine: &DeclEngine, span: &Span) -> (found: Result<
        Visibility,
        CompileError,
    >)
        ensures
            self.resolves(decl_engine) ==> found == Ok::<Visibility, CompileError>(
                self.visibility_of(decl_engine),
            ),
            !self.resolves(decl_engine) ==> found == Err::<Visibility, CompileError>(
                self.handle_error(decl_engine, *span),
            ),
    {
        match self.handle() {
            Some((id, kind)) => {
                match decl_engine.get_kind(id, kind, span) {
                    Ok(decl) => Ok(decl.visibility()),
                    Err(e) => Err(e),
                }
            },
            None => {
                match self {
                    TyDeclaration::VariableDeclaration(_) => Ok(Visibility::Private),
                    _ => Ok(Visibility::Public),
                }
            },
        }
    }

    /// The name that the declaration gives, if it gives one and its
    /// handle resolves.
    pub open spec fn ident_of(&self, decl_engine: &DeclEngine) -> Option<Ident> {
        match *self {
            TyDeclaration::VariableDeclaration(decl) => Some(decl.name),
            _ => match self.handle_of() {
                Some((id, _)) => if self.resolves(decl_engine) {
                    decl_engine.decl(id).name_of()
                } else {
                    None
                },
                None => None,
            },
        }
    }
}

/// What can declare a name.
pub trait GetDeclIdent {
    /// The name that this declares, if it declares one.
    spec fn declared_ident(&self, decl_engine: &DeclEngine) -> Option<Ident>;

    /// The name that this declares, if it declares one: a copy of it.
    fn get_decl_ident(&self, decl_engine: &DeclEngine) -> (ident: Option<Ident>)
        ensures
            match self.declared_ident(decl_engine) {
                Some(name) => ident matches Some(i) && i@ == name@ && i.span == name.span,
                None => ident is None,
            },
    ;
}

impl GetDeclIdent for TyDeclaration {
    open spec fn declared_ident(&self, decl_engine: &DeclEngine) -> Option<Ident> {
        self.ident_of(decl_engine)
    }

    fn get_decl_ident(&self, decl_engine: &DeclEngine) -> (ident: Option<Ident>) {
        match self {
            TyDeclaration::VariableDeclaration(decl) => Some(decl.name.copy()),
            _ => {
                match self.handle() {
                    Some((id, kind)) => {
                        let span = Span::new(0, 0, 0);
                        match decl_engine.get_kind(id, kind, &span) {
                            Ok(decl) => match decl.name() {
                                Some(name) => Some(name.copy()),
                                None => None,
                            },
                            Err(_) => None,
                        }
                    },
                    None => None,
                }
            },
        }
    }
}

impl GetDeclIdent for TyAstNodeContent {
    open spec fn declared_ident(&self, decl_engine: &DeclEngine) -> Option<Ident> {
        match *self {
            TyAstNodeContent::Declaration(decl) => decl.ident_of(decl_engine),
            _ => None,
        }
    }

    fn get_decl_ident(&self, decl_engine: &DeclEngine) -> (ident: Option<Ident>) {
        match self {
            TyAstNodeContent::Declaration(decl) => decl.get_decl_ident(decl_engine),
            TyAstNodeContent::Expression(_expr) => None,
            TyAstNodeContent::ImplicitReturnExpression(_expr) => None,
            TyAstNodeContent::SideEffect => None,
        }
    }
}

impl GetDeclIdent for TyAstNode {
    open spec fn declared_ident(&self, decl_engine: &DeclEngine) -> Option<Ident> {
        self.content.declared_ident(decl_engine)
    }

    fn get_decl_ident(&self, decl_engine: &DeclEngine) -> (ident: Option<Ident>) {
        self.content.get_decl_ident(decl_engine)
    }
}

impl TyAstNode {
    /// Whether the node is a declaration that can be seen outside its
    /// module, or the error for the handle of the declaration.
    pub fn is_public(&self, decl_engine: &DeclEngine) -> (public: Result<bool, CompileError>)
        ensures
            match self.content {
                TyAstNodeContent::Declaration(decl) => if decl.resolves(decl_engine) {
                    public == Ok::<bool, CompileError>(
                        decl.visibility_of(decl_engine) == Visibility::Public,
                    )
                } else {
                    public == Err::<bool, CompileError>(decl.handle_error(decl_engine, self.span))
                },
                _ => public == Ok::<bool, CompileError>(false),
            },
    {
        match &self.content {
            TyAstNodeContent::Declaration(decl) => {
                match decl.visibility(decl_engine, &self.span) {
                    Ok(visibility) => Ok(visibility.is_public()),
                    Err(e) => Err(e),
                }
            },
            TyAstNodeContent::Expression(_)
            | TyAstNodeContent::SideEffect
            | TyAstNodeContent::ImplicitReturnExpression(_) => Ok(false),
        }
    }

    /// The handle of the function that the node declares, if it declares
    /// one.
    pub open spec fn declared_function(&self) -> Option<DeclId> {
        match self.content {
            TyAstNodeContent::Declaration(TyDeclaration::FunctionDeclaration(id)) => Some(id),
            _ => None,
        }
    }

    /// Whether the node declares the function at which a program of the
    /// kind `tree_type` starts: a function with the name of the entry
    /// point, in a script or a predicate.
    pub fn is_main_function(&self, decl_engine: &DeclEngine, tree_type: &TreeType) -> (main: Result<
        bool,
        CompileError,
    >)
        ensures
            match self.declared_function() {
                Some(id) => {
                    let decl = TyDeclaration::FunctionDeclaration(id);
                    if decl.resolves(decl_engine) {
                        main == Ok::<bool, CompileError>(
                            decl_engine.decl(id)->Function_0.name@ == "main"@
                                && tree_type.has_entry_point(),
                        )
                    } else {
                        main == Err::<bool, CompileError>(
                            decl.handle_error(decl_engine, self.span),
                        )
                    }
                },
                None => main == Ok::<bool, CompileError>(false),
            },
    {
        match &self.content {
            TyAstNodeContent::Declaration(TyDeclaration::FunctionDeclaration(decl_id)) => {
                match decl_engine.get_function(*decl_id, &self.span) {
                    Ok(function) => {
                        let entry = String::from_str(default_entry_point_fn_name());
                        let named = function.name.name == entry;
                        let is_main = named && matches!(
                            tree_type,
                            TreeType::Script | TreeType::Predicate
                        );
                        Ok(is_main)
                    },
                    Err(e) => Err(e),
                }
            },
            _ => Ok(false),
        }
    }

    /// Whether the node declares a function that is marked as a test.
    pub fn is_test_function(&self, decl_engine: &DeclEngine) -> (test: Result<bool, CompileError>)
        ensures
            match self.declared_function() {
                Some(id) => {
                    let decl = TyDeclaration::FunctionDeclaration(id);
                    if decl.resolves(decl_engine) {
                        test == Ok::<bool, CompileError>(
                            decl_engine.decl(id)->Function_0.attributes.has(AttributeKind::Test),
                        )
                    } else {
                        test == Err::<bool, CompileError>(
                            decl.handle_error(decl_engine, self.span),
                        )
                    }
                },
                None => test == Ok::<bool, CompileError>(false),
            },
    {
        match &self.content {
            TyAstNodeContent::Declaration(TyDeclaration::FunctionDeclaration(decl_id)) => {
                match decl_engine.get_function(*decl_id, &self.span) {
                    Ok(function) => Ok(function.attributes.contains_key(AttributeKind::Test)),
                    Err(e) => Err(e),
                }
            },
            _ => Ok(false),
        }
    }

    /// The form of the type of the node: that of its expression, or the
    /// unit type.
    pub open spec fn type_form(&self, table: TypeTable) -> TypeForm {
        match self.content {
            TyAstNodeContent::Expression(e) => table.form(e.return_type),
            TyAstNodeContent::ImplicitReturnExpression(e) => table.form(e.return_type),
            _ => TypeForm::Tuple(Seq::empty()),
        }
    }

    /// The content of the type of the node: that of its expression, or
    /// the unit type.
    pub fn type_info(&self, type_engine: &TypeEngine) -> (info: TypeInfo)
        requires
            node_live(type_engine@, *self),
        ensures
            info@ == self.type_form(type_engine@),
    {
        match &self.content {
            TyAstNodeContent::Declaration(_) => TypeInfo::Tuple(Vec::new()),
            TyAstNodeContent::Expression(e) => type_engine.get(e.return_type).copy(),
            TyAstNodeContent::ImplicitReturnExpression(e) => type_engine.get(e.return_type).copy(),
            TyAstNodeContent::SideEffect => TypeInfo::Tuple(Vec::new()),
        }
    }
}

} // verus!
