//! Handles to declarations, and maps from handle to handle.

use crate::error::CompileError;
use crate::language::AttributesMap;
use crate::language::maps_eq;
use crate::language::Purity;
use crate::language::Visibility;
use crate::span::Ident;
use crate::span::Span;
use crate::subst::TypeSubstMap;
use crate::ty::rewrite::subst_fn;
use crate::ty::rewrite::trait_fn_rewritten;
use crate::ty::rewrite::keep_decls;
use crate::ty::rewrite::wrapper_rewritten;
use crate::ty::rewrite::Rewrite;
use crate::ty::TyAstNode;
use crate::ty::TyExpression;
use crate::type_engine::TypeEngine;
use crate::type_engine::TypeId;
use crate::type_engine::TypeTable;
use vstd::prelude::*;

verus! {

/// A handle to a declaration of a [`DeclEngine`].
#[derive(Clone, Copy, Debug, PartialEq, Eq, Hash, Structural)]
pub struct DeclId(pub usize);

/// The map that a list of replacements stands for: a later replacement of
/// a handle takes the place of an earlier one.
pub open spec fn replacements_map(pairs: Seq<(DeclId, DeclId)>) -> Map<DeclId, DeclId>
    decreases pairs.len(),
{
    if pairs.len() == 0 {
        Map::empty()
    } else {
        replacements_map(pairs.drop_last()).insert(pairs.last().0, pairs.last().1)
    }
}

/// The handle that takes the place of `id` under `m`.
pub open spec fn replaced(m: Map<DeclId, DeclId>, id: DeclId) -> DeclId {
    if m.contains_key(id) {
        m[id]
    } else {
        id
    }
}

/// A map from the handles of generic declarations to the handles of their
/// instances.
pub struct DeclMapping {
    pairs: Vec<(DeclId, DeclId)>,
}

impl View for DeclMapping {
    type V = Map<DeclId, DeclId>;

    closed spec fn view(&self) -> Map<DeclId, DeclId> {
        replacements_map(self.pairs@)
    }
}

impl DeclMapping {
    /// The map that replaces nothing.
    pub fn new() -> (map: DeclMapping)
        ensures
            map@ == Map::<DeclId, DeclId>::empty(),
    {
        DeclMapping { pairs: Vec::new() }
    }

    /// Lets `destination` take the place of `source`.
    pub fn insert(&mut self, source: DeclId, destination: DeclId)
        ensures
            final(self)@ == old(self)@.insert(source, destination),
    {
        self.pairs.push((source, destination));
        assert(self.pairs@.drop_last() =~= old(self).pairs@);
    }

    /// The handle that takes the place of `id`.
    pub fn apply(&self, id: DeclId) -> (image: DeclId)
        ensures
            image == replaced(self@, id),
    {
        let mut i: usize = self.pairs.len();
        assert(self.pairs@.take(i as int) =~= self.pairs@);
        while i > 0
            invariant
                0 <= i <= self.pairs.len(),
                replaced(self@, id) == replaced(replacements_map(self.pairs@.take(i as int)), id),
            decreases i,
        {
            i -= 1;
            assert(self.pairs@.take(i + 1).drop_last() =~= self.pairs@.take(i as int));
            assert(self.pairs@.take(i + 1).last() == self.pairs@[i as int]);
            let (from, to) = self.pairs[i];
            if from == id {
                return to;
            }
        }
        id
    }
}

/// A parameter of a function.
#[derive(Clone, Debug)]
pub struct TyFunctionParameter {
    pub name: Ident,
    pub type_id: TypeId,
    pub type_span: Span,
}

/// The declaration of a function.
#[derive(Clone, Debug)]
pub struct TyFunctionDeclaration {
    pub name: Ident,
    pub body: Vec<TyAstNode>,
    pub parameters: Vec<TyFunctionParameter>,
    pub return_type: TypeId,
    pub visibility: Visibility,
    pub attributes: AttributesMap,
    pub purity: Purity,
    pub span: Span,
}

/// The signature of a function in a trait.
#[derive(Clone, Debug)]
pub struct TyTraitFn {
    pub name: Ident,
    pub purity: Purity,
    pub parameters: Vec<TyFunctionParameter>,
    pub return_type: TypeId,
    pub return_type_span: Span,
    pub attributes: AttributesMap,
}

/// A trait that a type parameter has to implement.
#[derive(Clone, Debug)]
pub struct TraitConstraint {
    pub trait_name: Ident,
}

/// A type parameter of a declaration, with the handle of its placeholder.
#[derive(Clone, Debug)]
pub struct TypeParameter {
    pub type_id: TypeId,
    pub initial_type_id: TypeId,
    pub name_ident: Ident,
    pub trait_constraints: Vec<TraitConstraint>,
    pub trait_constraints_span: Span,
}

/// A field of a struct.
#[derive(Clone, Debug)]
pub struct TyStructField {
    pub name: Ident,
    pub type_id: TypeId,
    pub initial_type_id: TypeId,
    pub span: Span,
    pub type_span: Span,
    pub attributes: AttributesMap,
}

/// The declaration of a struct.
#[derive(Clone, Debug)]
pub struct TyStructDeclaration {
    pub name: Ident,
    pub type_parameters: Vec<TypeParameter>,
    pub fields: Vec<TyStructField>,
    pub visibility: Visibility,
    pub span: Span,
    pub attributes: AttributesMap,
}

/// A variant of an enum.
#[derive(Clone, Debug)]
pub struct TyEnumVariant {
    pub name: Ident,
    pub type_id: TypeId,
    pub tag: usize,
    pub span: Span,
    pub attributes: AttributesMap,
}

/// The declaration of an enum.
#[derive(Clone, Debug)]
pub struct TyEnumDeclaration {
    pub name: Ident,
    pub variants: Vec<TyEnumVariant>,
    pub visibility: Visibility,
    pub span: Span,
    pub attributes: AttributesMap,
}

/// The declaration of a constant.
#[derive(Clone, Debug, PartialEq, Eq)]
pub struct TyConstantDeclaration {
    pub name: Ident,
    pub value: TyExpression,
    pub visibility: Visibility,
    pub attributes: AttributesMap,
    pub span: Span,
}

/// The declaration of a trait. Its methods are named by handle.
#[derive(Clone, Debug)]
pub struct TyTraitDeclaration {
    pub name: Ident,
    pub interface_surface: Vec<TyTraitFn>,
    pub methods: Vec<DeclId>,
    pub visibility: Visibility,
    pub attributes: AttributesMap,
    pub span: Span,
}

/// The implementation of a trait for a type.
#[derive(Clone, Debug)]
pub struct TyImplTrait {
    pub trait_name: Ident,
    pub implementing_for_type_id: TypeId,
    pub methods: Vec<DeclId>,
    pub span: Span,
}

/// The declaration of an interface of a contract.
#[derive(Clone, Debug)]
pub struct TyAbiDeclaration {
    pub name: Ident,
    pub interface_surface: Vec<TyTraitFn>,
    pub methods: Vec<DeclId>,
    pub span: Span,
    pub attributes: AttributesMap,
}

/// A field of the storage of a contract.
#[derive(Clone, Debug)]
pub struct TyStorageField {
    pub name: Ident,
    pub type_id: TypeId,
    pub initializer: TyExpression,
    pub span: Span,
    pub attributes: AttributesMap,
}

/// The declaration of the storage of a contract.
#[derive(Clone, Debug)]
pub struct TyStorageDeclaration {
    pub fields: Vec<TyStorageField>,
    pub span: Span,
    pub attributes: AttributesMap,
}

/// What the declaration engine holds under a handle.
#[derive(Clone, Debug)]
pub enum DeclWrapper {
    Unknown,
    Function(TyFunctionDeclaration),
    Trait(TyTraitDeclaration),
    ImplTrait(TyImplTrait),
    Struct(TyStructDeclaration),
    Enum(TyEnumDeclaration),
    Abi(TyAbiDeclaration),
    Constant(TyConstantDeclaration),
    Storage(TyStorageDeclaration),
}

/// The arena of the declarations. It alone owns them: everything else
/// names a declaration by its handle, which stays good when the
/// declaration is replaced.
pub struct DeclEngine {
    slab: Vec<DeclWrapper>,
}

impl View for DeclEngine {
    type V = Seq<DeclWrapper>;

    closed spec fn view(&self) -> Seq<DeclWrapper> {
        self.slab@
    }
}

impl DeclEngine {
    /// An engine without declarations.
    pub fn new() -> (engine: DeclEngine)
        ensures
            engine@.len() == 0,
    {
        DeclEngine { slab: Vec::new() }
    }

    /// Whether `id` is a handle of this engine.
    pub open spec fn has(&self, id: DeclId) -> bool {
        id.0 < self@.len()
    }

    /// The declaration under `id`.
    pub open spec fn decl(&self, id: DeclId) -> DeclWrapper {
        self@[id.0 as int]
    }

    /// Stores `decl` under a new handle and leaves every other declaration
    /// as it is.
    pub fn insert(&mut self, decl: DeclWrapper) -> (id: DeclId)
        ensures
            id.0 == old(self)@.len(),
            final(self)@ == old(self)@.push(decl),
    {
        let id = DeclId(self.slab.len());
        self.slab.push(decl);
        id
    }

    /// The declaration under `id`, or the error that the handle is stale.
    pub fn get(&self, id: DeclId, span: &Span) -> (found: Result<&DeclWrapper, CompileError>)
        ensures
            self.has(id) ==> found == Ok::<&DeclWrapper, CompileError>(&self.decl(id)),
            !self.has(id) ==> (found matches Err(CompileError::DeclNotFound { span: s }) && s
                == *span),
    {
        if id.0 < self.slab.len() {
            Ok(&self.slab[id.0])
        } else {
            Err(CompileError::DeclNotFound { span: *span })
        }
    }

    /// Puts `decl` in the place of the declaration under `id`. Every
    /// handle stays good, and every other handle names what it named.
    pub fn replace(&mut self, id: DeclId, decl: DeclWrapper, span: &Span) -> (done: Result<
        (),
        CompileError,
    >)
        ensures
            old(self).has(id) ==> done is Ok && final(self)@ == old(self)@.update(
                id.0 as int,
                decl,
            ),
            !old(self).has(id) ==> final(self)@ == old(self)@ && (done matches Err(
                CompileError::DeclNotFound { span: s },
            ) && s == *span),
    {
        if id.0 < self.slab.len() {
            self.slab.set(id.0, decl);
            Ok(())
        } else {
            Err(CompileError::DeclNotFound { span: *span })
        }
    }

    /// Rewrites the handles inside the declaration under `id`, in place:
    /// the handle stays good, and every other handle names what it named.
    pub fn rewrite_decl(&mut self, id: DeclId, rewrite: &Rewrite<'_>, span: &Span) -> (done: Result<
        (),
        CompileError,
    >)
        ensures
            final(self)@.len() == old(self)@.len(),
            forall|j: int| 0 <= j < old(self)@.len() && j != id.0 ==> final(self)@[j] == old(self)@[j],
            old(self).has(id) ==> done is Ok && wrapper_rewritten(
                final(self).decl(id),
                old(self).decl(id),
                rewrite.type_fn(),
                rewrite.decl_fn(),
            ),
            !old(self).has(id) ==> final(self)@ == old(self)@ && (done matches Err(
                CompileError::DeclNotFound { span: s },
            ) && s == *span),
    {
        if id.0 < self.slab.len() {
            self.slab[id.0].rewrite(rewrite);
            Ok(())
        } else {
            Err(CompileError::DeclNotFound { span: *span })
        }
    }

    /// Applies the substitution map `type_mapping` to every type handle
    /// inside the declaration under `id`, in place: what names the
    /// declaration by its handle sees the types replaced.
    pub fn subst_decl(&mut self, id: DeclId, type_mapping: &TypeSubstMap, span: &Span) -> (done:
        Result<(), CompileError>)
        ensures
            final(self)@.len() == old(self)@.len(),
            forall|j: int| 0 <= j < old(self)@.len() && j != id.0 ==> final(self)@[j] == old(self)@[j],
            old(self).has(id) ==> done is Ok && wrapper_rewritten(
                final(self).decl(id),
                old(self).decl(id),
                subst_fn(type_mapping@),
                keep_decls(),
            ),
            !old(self).has(id) ==> final(self)@ == old(self)@ && (done matches Err(
                CompileError::DeclNotFound { span: s },
            ) && s == *span),
    {
        self.rewrite_decl(id, &Rewrite::Types(type_mapping), span)
    }

    /// The function under `id`.
    pub fn get_function(&self, id: DeclId, span: &Span) -> (found: Result<
        &TyFunctionDeclaration,
        CompileError,
    >)
        ensures
            match found {
                Ok(f) => self.has(id) && self.decl(id) == DeclWrapper::Function(*f),
                Err(CompileError::DeclNotFound { span: s }) => !self.has(id) && s == *span,
                Err(CompileError::DeclKindMismatch { span: s }) => self.has(id) && !(self.decl(
                    id,
                ) is Function) && s == *span,
                Err(_) => false,
            },
    {
        match self.get(id, span) {
            Ok(DeclWrapper::Function(f)) => Ok(f),
            Ok(_) => Err(CompileError::DeclKindMismatch { span: *span }),
            Err(e) => Err(e),
        }
    }

    /// The struct under `id`.
    pub fn get_struct(&self, id: DeclId, span: &Span) -> (found: Result<
        &TyStructDeclaration,
        CompileError,
    >)
        ensures
            match found {
                Ok(f) => self.has(id) && self.decl(id) == DeclWrapper::Struct(*f),
                Err(CompileError::DeclNotFound { span: s }) => !self.has(id) && s == *span,
                Err(CompileError::DeclKindMismatch { span: s }) => self.has(id) && !(self.decl(
                    id,
                ) is Struct) && s == *span,
                Err(_) => false,
            },
    {
        match self.get(id, span) {
            Ok(DeclWrapper::Struct(f)) => Ok(f),
            Ok(_) => Err(CompileError::DeclKindMismatch { span: *span }),
            Err(e) => Err(e),
        }
    }
}

/// Both engines together, for the operations that interpret handles.
#[derive(Clone, Copy)]
pub struct Engines<'a> {
    type_engine: &'a TypeEngine,
    decl_engine: &'a DeclEngine,
}

impl<'a> Engines<'a> {
    /// The two engines together.
    pub fn new(type_engine: &'a TypeEngine, decl_engine: &'a DeclEngine) -> (engines: Engines<'a>)
        ensures
            engines.types() == type_engine,
            engines.decls() == decl_engine,
    {
        Engines { type_engine, decl_engine }
    }

    /// The type engine.
    pub closed spec fn types(&self) -> &TypeEngine {
        self.type_engine
    }

    /// The declaration engine.
    pub closed spec fn decls(&self) -> &DeclEngine {
        self.decl_engine
    }

    /// The type engine.
    pub fn te(&self) -> (type_engine: &'a TypeEngine)
        ensures
            type_engine == self.types(),
    {
        self.type_engine
    }

    /// The declaration engine.
    pub fn de(&self) -> (decl_engine: &'a DeclEngine)
        ensures
            decl_engine == self.decls(),
    {
        self.decl_engine
    }
}

/// The kinds of declarations that the engine owns.
#[derive(Clone, Copy, Debug, PartialEq, Eq, Structural)]
pub enum DeclKind {
    Unknown,
    Function,
    Trait,
    ImplTrait,
    Struct,
    Enum,
    Abi,
    Constant,
    Storage,
}

impl DeclWrapper {
    /// The kind of the declaration.
    pub open spec fn kind_of(&self) -> DeclKind {
        match *self {
            DeclWrapper::Unknown => DeclKind::Unknown,
            DeclWrapper::Function(_) => DeclKind::Function,
            DeclWrapper::Trait(_) => DeclKind::Trait,
            DeclWrapper::ImplTrait(_) => DeclKind::ImplTrait,
            DeclWrapper::Struct(_) => DeclKind::Struct,
            DeclWrapper::Enum(_) => DeclKind::Enum,
            DeclWrapper::Abi(_) => DeclKind::Abi,
            DeclWrapper::Constant(_) => DeclKind::Constant,
            DeclWrapper::Storage(_) => DeclKind::Storage,
        }
    }

    /// The kind of the declaration.
    pub fn kind(&self) -> (kind: DeclKind)
        ensures
            kind == self.kind_of(),
    {
        match self {
            DeclWrapper::Unknown => DeclKind::Unknown,
            DeclWrapper::Function(_) => DeclKind::Function,
            DeclWrapper::Trait(_) => DeclKind::Trait,
            DeclWrapper::ImplTrait(_) => DeclKind::ImplTrait,
            DeclWrapper::Struct(_) => DeclKind::Struct,
            DeclWrapper::Enum(_) => DeclKind::Enum,
            DeclWrapper::Abi(_) => DeclKind::Abi,
            DeclWrapper::Constant(_) => DeclKind::Constant,
            DeclWrapper::Storage(_) => DeclKind::Storage,
        }
    }

    /// Whether the declaration can be seen outside its module. What has
    /// no visibility of its own is public.
    pub open spec fn visibility_of(&self) -> Visibility {
        match *self {
            DeclWrapper::Function(d) => d.visibility,
            DeclWrapper::Trait(d) => d.visibility,
            DeclWrapper::Struct(d) => d.visibility,
            DeclWrapper::Enum(d) => d.visibility,
            DeclWrapper::Constant(d) => d.visibility,
            _ => Visibility::Public,
        }
    }

    /// Whether the declaration can be seen outside its module.
    pub fn visibility(&self) -> (visibility: Visibility)
        ensures
            visibility == self.visibility_of(),
    {
        match self {
            DeclWrapper::Function(d) => d.visibility,
            DeclWrapper::Trait(d) => d.visibility,
            DeclWrapper::Struct(d) => d.visibility,
            DeclWrapper::Enum(d) => d.visibility,
            DeclWrapper::Constant(d) => d.visibility,
            _ => Visibility::Public,
        }
    }

    /// The name that the declaration gives, if it gives one.
    pub open spec fn name_of(&self) -> Option<Ident> {
        match *self {
            DeclWrapper::Function(d) => Some(d.name),
            DeclWrapper::Trait(d) => Some(d.name),
            DeclWrapper::Struct(d) => Some(d.name),
            DeclWrapper::Enum(d) => Some(d.name),
            DeclWrapper::Constant(d) => Some(d.name),
            DeclWrapper::Abi(d) => Some(d.name),
            DeclWrapper::ImplTrait(d) => Some(d.trait_name),
            _ => None,
        }
    }

    /// The name that the declaration gives, if it gives one.
    pub fn name(&self) -> (name: Option<&Ident>)
        ensures
            match self.name_of() {
                Some(n) => name == Some(&n),
                None => name is None,
            },
    {
        match self {
            DeclWrapper::Function(d) => Some(&d.name),
            DeclWrapper::Trait(d) => Some(&d.name),
            DeclWrapper::Struct(d) => Some(&d.name),
            DeclWrapper::Enum(d) => Some(&d.name),
            DeclWrapper::Constant(d) => Some(&d.name),
            DeclWrapper::Abi(d) => Some(&d.name),
            DeclWrapper::ImplTrait(d) => Some(&d.trait_name),
            _ => None,
        }
    }
}

impl DeclEngine {
    /// The declaration under `id`, which has to be of the kind `kind`.
    pub fn get_kind(&self, id: DeclId, kind: DeclKind, span: &Span) -> (found: Result<
        &DeclWrapper,
        CompileError,
    >)
        ensures
            match found {
                Ok(d) => self.has(id) && *d == self.decl(id) && d.kind_of() == kind,
                Err(CompileError::DeclNotFound { span: s }) => !self.has(id) && s == *span,
                Err(CompileError::DeclKindMismatch { span: s }) => self.has(id) && self.decl(
                    id,
                ).kind_of() != kind && s == *span,
                Err(_) => false,
            },
    {
        match self.get(id, span) {
            Ok(d) => {
                if d.kind() == kind {
                    Ok(d)
                } else {
                    Err(CompileError::DeclKindMismatch { span: *span })
                }
            },
            Err(e) => Err(e),
        }
    }
}

/// Whether two parameters have the same content: the same name and types
/// of the same form.
pub open spec fn parameter_eq(table: TypeTable, a: TyFunctionParameter, b: TyFunctionParameter) -> bool {
    a.name@ == b.name@ && table.form(a.type_id) == table.form(b.type_id)
}

/// Whether the types of the signature are handles of `table`.
pub open spec fn trait_fn_live(table: TypeTable, x: TyTraitFn) -> bool {
    table.contains(x.return_type) && forall|i: int|
        0 <= i < x.parameters@.len() ==> table.contains((#[trigger] x.parameters@[i]).type_id)
}

/// Whether two signatures have the same content: the same name, purity
/// and attributes, parameters with the same content, and return types of
/// the same form.
pub open spec fn trait_fn_eq(table: TypeTable, a: TyTraitFn, b: TyTraitFn) -> bool {
    &&& a.name@ == b.name@
    &&& a.purity == b.purity
    &&& a.parameters@.len() == b.parameters@.len()
    &&& forall|i: int|
        0 <= i < a.parameters@.len() ==> parameter_eq(
            table,
            #[trigger] a.parameters@[i],
            b.parameters@[i],
        )
    &&& table.form(a.return_type) == table.form(b.return_type)
    &&& maps_eq(a.attributes, b.attributes)
}

impl TyTraitFn {
    /// Whether the signatures have the same content.
    pub fn eq(&self, other: &Self, engines: Engines<'_>) -> (equal: bool)
        requires
            trait_fn_live(engines.types()@, *self),
            trait_fn_live(engines.types()@, *other),
        ensures
            equal == trait_fn_eq(engines.types()@, *self, *other),
    {
        if !(self.name.same_name(&other.name) && self.purity == other.purity
            && self.parameters.len() == other.parameters.len()) {
            return false;
        }
        let type_engine = engines.te();
        let mut i: usize = 0;
        while i < self.parameters.len()
            invariant
                type_engine == engines.types(),
                trait_fn_live(engines.types()@, *self),
                trait_fn_live(engines.types()@, *other),
                self.parameters.len() == other.parameters.len(),
                0 <= i <= self.parameters.len(),
                forall|j: int|
                    0 <= j < i ==> parameter_eq(
                        engines.types()@,
                        #[trigger] self.parameters@[j],
                        other.parameters@[j],
                    ),
            decreases self.parameters.len() - i,
        {
            let a = &self.parameters[i];
            let b = &other.parameters[i];
            assert(engines.types()@.contains(other.parameters@[i as int].type_id));
            if !(a.name.same_name(&b.name) && type_engine.get(a.type_id).same_form(
                type_engine.get(b.type_id),
            )) {
                return false;
            }
            i += 1;
        }
        type_engine.get(self.return_type).same_form(type_engine.get(other.return_type))
            && self.attributes.same(&other.attributes)
    }

    /// Whether the types of the signature are handles of `type_engine`.
    pub fn is_live(&self, type_engine: &TypeEngine) -> (live: bool)
        ensures
            live == trait_fn_live(type_engine@, *self),
    {
        if !type_engine.contains(self.return_type) {
            return false;
        }
        let mut i: usize = 0;
        while i < self.parameters.len()
            invariant
                0 <= i <= self.parameters.len(),
                forall|j: int|
                    0 <= j < i ==> type_engine@.contains((#[trigger] self.parameters@[j]).type_id),
            decreases self.parameters.len() - i,
        {
            if !type_engine.contains(self.parameters[i].type_id) {
                return false;
            }
            i += 1;
        }
        true
    }

    /// Applies the substitution map `type_mapping` to the types of the
    /// parameters and to the return type.
    pub fn copy_types_inner(&mut self, type_mapping: &TypeSubstMap, engines: Engines<'_>)
        ensures
            trait_fn_rewritten(*final(self), *old(self), subst_fn(type_mapping@)),
    {
        self.rewrite(&Rewrite::Types(type_mapping));
    }

    /// The name of the function.
    pub fn name(&self) -> (name: &Ident)
        ensures
            *name == self.name,
    {
        &self.name
    }

    /// The type parameters of the signature: it has none.
    pub fn type_parameters(&self) -> (parameters: Vec<&TypeParameter>)
        ensures
            parameters@.len() == 0,
    {
        Vec::new()
    }
}

impl TyConstantDeclaration {
    /// The place of the declaration.
    pub fn span(&self) -> (span: Span)
        ensures
            span == self.span,
    {
        self.span
    }
}

} // verus!
