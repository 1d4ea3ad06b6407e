//! Checking declarations: from what was parsed to what is typed.

use crate::decl_engine::TraitConstraint;
use crate::decl_engine::TypeParameter;
use crate::decl_engine::TyStructDeclaration;
use crate::decl_engine::TyStructField;
use crate::error::CompileError;
use crate::error::CompileWarning;
use crate::language::AttributesMap;
use crate::language::Visibility;
use crate::span::Ident;
use crate::span::Span;
use crate::subst::TypeSubstMap;
use crate::type_engine::parts;
use crate::type_engine::TypeEngine;
use crate::type_engine::TypeForm;
use crate::type_engine::TypeId;
use crate::type_engine::TypeInfo;
use crate::type_engine::TypeTable;
use crate::unify::map_live;
use crate::unify::UnifyFailure;
use vstd::prelude::*;

verus! {

/// The outcome of a step of the compiler: a value unless the step had to
/// give up, and what was reported on the way.
#[derive(Debug)]
pub struct CompileResult<T> {
    pub value: Option<T>,
    pub warnings: Vec<CompileWarning>,
    pub errors: Vec<CompileError>,
}

/// A field of a struct as it was parsed.
#[derive(Debug)]
pub struct StructField {
    pub name: Ident,
    pub type_info: TypeInfo,
    pub span: Span,
    pub type_span: Span,
    pub attributes: AttributesMap,
}

/// A type parameter as it was parsed.
#[derive(Debug)]
pub struct ParsedTypeParameter {
    pub name_ident: Ident,
    pub trait_constraints: Vec<TraitConstraint>,
    pub trait_constraints_span: Span,
}

/// The declaration of a struct as it was parsed.
#[derive(Debug)]
pub struct StructDeclaration {
    pub name: Ident,
    pub fields: Vec<StructField>,
    pub type_parameters: Vec<ParsedTypeParameter>,
    pub visibility: Visibility,
    pub span: Span,
    pub attributes: AttributesMap,
}

/// The type that `name` names among `names`: that of the last entry with
/// this name.
pub open spec fn lookup(names: Seq<(Seq<char>, TypeId)>, name: Seq<char>) -> Option<TypeId>
    decreases names.len(),
{
    if names.len() == 0 {
        None
    } else if names.last().0 == name {
        Some(names.last().1)
    } else {
        lookup(names.drop_last(), name)
    }
}

/// The names of types that can be seen at a place.
pub struct Namespace {
    entries: Vec<(String, TypeId)>,
}

impl View for Namespace {
    type V = Seq<(Seq<char>, TypeId)>;

    closed spec fn view(&self) -> Seq<(Seq<char>, TypeId)> {
        self.entries@.map_values(|e: (String, TypeId)| (e.0@, e.1))
    }
}

impl Namespace {
    /// The namespace without names.
    pub fn new() -> (namespace: Namespace)
        ensures
            namespace@.len() == 0,
    {
        Namespace { entries: Vec::new() }
    }

    /// Lets `name` name the type `id` from now on.
    pub fn insert(&mut self, name: String, id: TypeId)
        ensures
            final(self)@ == old(self)@.push((name@, id)),
    {
        self.entries.push((name, id));
        assert(self@ =~= old(self)@.push((name@, id)));
    }

    /// The type that `name` names.
    pub fn resolve(&self, name: &String) -> (found: Option<TypeId>)
        ensures
            found == lookup(self@, name@),
    {
        let mut i: usize = self.entries.len();
        assert(self@.take(i as int) =~= self@);
        while i > 0
            invariant
                0 <= i <= self.entries.len(),
                lookup(self@, name@) == lookup(self@.take(i as int), name@),
            decreases i,
        {
            i -= 1;
            assert(self@.take(i + 1).drop_last() =~= self@.take(i as int));
            assert(self@.take(i + 1).last() == self@[i as int]);
            if self.entries[i].0 == *name {
                return Some(self.entries[i].1);
            }
        }
        None
    }

    /// A copy of the namespace.
    pub fn copy(&self) -> (namespace: Namespace)
        ensures
            namespace@ == self@,
    {
        let mut entries: Vec<(String, TypeId)> = Vec::new();
        let mut i: usize = 0;
        while i < self.entries.len()
            invariant
                0 <= i <= self.entries.len(),
                entries@.len() == i,
                forall|j: int|
                    0 <= j < i ==> (#[trigger] entries@[j]).0@ == self.entries@[j].0@ && entries@[j].1
                        == self.entries@[j].1,
            decreases self.entries.len() - i,
        {
            entries.push((self.entries[i].0.clone(), self.entries[i].1));
            i += 1;
        }
        let namespace = Namespace { entries };
        assert(namespace@ =~= self@);
        namespace
    }
}

/// Whether each type that `names` names is a handle of `table`.
pub open spec fn names_live(table: TypeTable, names: Seq<(Seq<char>, TypeId)>) -> bool {
    forall|i: int| 0 <= i < names.len() ==> table.contains((#[trigger] names[i]).1)
}

/// A name that names a type among live names names a handle.
pub proof fn lemma_lookup_live(table: TypeTable, names: Seq<(Seq<char>, TypeId)>, name: Seq<char>)
    requires
        names_live(table, names),
    ensures
        lookup(names, name) matches Some(t) ==> table.contains(t),
    decreases names.len(),
{
    if names.len() > 0 {
        assert(table.contains(names[names.len() - 1].1));
        if names.last().0 != name {
            assert forall|i: int| 0 <= i < names.drop_last().len() implies table.contains(
                (#[trigger] names.drop_last()[i]).1,
            ) by {
                assert(table.contains(names[i].1));
            }
            lemma_lookup_live(table, names.drop_last(), name);
        }
    }
}

/// Whether `m` binds placeholders only, and no self type of the scope
/// `scope` or of a later one.
pub open spec fn binds_placeholders(table: TypeTable, m: Map<TypeId, TypeId>, scope: u64) -> bool {
    forall|k: TypeId| #[trigger]
        m.contains_key(k) ==> match table.form(k) {
            TypeForm::Unknown(_) => true,
            TypeForm::SelfType(n) => n < scope,
            _ => false,
        }
}

/// What a check works with: the type engine, the names in scope, the
/// bindings that unification has made, the number of the next scope, and
/// the number of the next placeholder. Each declaration is checked in a
/// scope of its own, with a self type of its own.
pub struct TypeCheckContext {
    pub type_engine: TypeEngine,
    pub namespace: Namespace,
    pub bindings: TypeSubstMap,
    pub scope: u64,
    pub next_placeholder: u64,
}

impl TypeCheckContext {
    /// The invariant of the context: the engine is well formed, and the
    /// names and bindings speak of its handles.
    pub open spec fn wf(&self) -> bool {
        &&& self.type_engine.wf()
        &&& names_live(self.type_engine@, self.namespace@)
        &&& map_live(self.type_engine@, self.bindings@)
        &&& binds_placeholders(self.type_engine@, self.bindings@, self.scope)
    }

    /// A context without types, names or bindings, whose first declaration
    /// is checked in the scope `scope`.
    pub fn new(scope: u64) -> (ctx: TypeCheckContext)
        ensures
            ctx.wf(),
            ctx.scope == scope,
            ctx.next_placeholder == 0,
            ctx.namespace@.len() == 0,
            ctx.bindings@ == Map::<TypeId, TypeId>::empty(),
            ctx.type_engine@.slots.len() == 0,
    {
        TypeCheckContext {
            type_engine: TypeEngine::new(),
            namespace: Namespace::new(),
            bindings: TypeSubstMap::new(),
            scope,
            next_placeholder: 0,
        }
    }

    /// What the type `type_id` resolves to under `names`: a name that is
    /// not resolved yet resolves to what it names, any other type to
    /// itself.
    pub open spec fn resolution(
        table: TypeTable,
        names: Seq<(Seq<char>, TypeId)>,
        type_id: TypeId,
    ) -> Option<TypeId> {
        match table.form(type_id) {
            TypeForm::Custom(name) => lookup(names, name),
            _ => Some(type_id),
        }
    }

    /// The type that `type_id` resolves to, or the error that the name at
    /// `span` names no type.
    pub fn resolve_type(&self, type_id: TypeId, span: &Span) -> (resolved: Result<
        TypeId,
        CompileError,
    >)
        requires
            self.wf(),
            self.type_engine@.contains(type_id),
        ensures
            match Self::resolution(self.type_engine@, self.namespace@, type_id) {
                Some(t) => resolved == Ok::<TypeId, CompileError>(t) && self.type_engine@.contains(
                    t,
                ),
                None => resolved == Err::<TypeId, CompileError>(
                    CompileError::UnknownType { span: *span },
                ),
            },
    {
        match self.type_engine.get(type_id) {
            TypeInfo::Custom(name) => {
                proof {
                    lemma_lookup_live(self.type_engine@, self.namespace@, name@);
                }
                match self.namespace.resolve(name) {
                    Some(t) => Ok(t),
                    None => Err(CompileError::UnknownType { span: *span }),
                }
            },
            _ => Ok(type_id),
        }
    }
}

/// Live names stay live in a table that extends the one they speak of.
pub proof fn lemma_names_live_extends(
    earlier: TypeTable,
    later: TypeTable,
    names: Seq<(Seq<char>, TypeId)>,
)
    requires
        names_live(earlier, names),
        later.extends(earlier),
    ensures
        names_live(later, names),
{
    assert forall|i: int| 0 <= i < names.len() implies later.contains((#[trigger] names[i]).1) by {
        assert(earlier.contains(names[i].1));
    }
}

/// Live bindings stay live, and bind what they bound, in a table that
/// extends the one they speak of.
pub proof fn lemma_map_live_extends(earlier: TypeTable, later: TypeTable, m: Map<TypeId, TypeId>)
    requires
        map_live(earlier, m),
        later.extends(earlier),
    ensures
        map_live(later, m),
        forall|scope: u64|
            binds_placeholders(earlier, m, scope) ==> #[trigger] binds_placeholders(later, m, scope),
{
    assert forall|k: TypeId| #[trigger] m.contains_key(k) implies later.contains(k)
        && later.contains(m[k]) && later.form(k) == earlier.form(k) by {
        assert(earlier.contains(k));
        assert(earlier.contains(m[k]));
    }
    assert forall|scope: u64| binds_placeholders(earlier, m, scope) implies #[trigger]
        binds_placeholders(later, m, scope) by {
        assert forall|k: TypeId| #[trigger] m.contains_key(k) implies match later.form(k) {
            TypeForm::Unknown(_) => true,
            TypeForm::SelfType(n) => n < scope,
            _ => false,
        } by {
            assert(earlier.contains(k));
            assert(later.form(k) == earlier.form(k));
        }
    }
}

/// A form whose parts are handles of a table has them in every table that
/// extends it.
pub proof fn lemma_closed_extends(earlier: TypeTable, later: TypeTable, form: TypeForm)
    requires
        earlier.closed_under(form),
        later.extends(earlier),
    ensures
        later.closed_under(form),
{
    assert forall|k: int| 0 <= k < parts(form).len() implies later.contains(
        #[trigger] parts(form)[k],
    ) by {
        assert(earlier.contains(parts(form)[k]));
    }
}

/// Whether the type of the field is a name that names no type among
/// `names`.
pub open spec fn field_unknown(names: Seq<(Seq<char>, TypeId)>, field: StructField) -> bool {
    field.type_info@ matches TypeForm::Custom(name) && lookup(names, name) is None
}

/// The type of a checked field: what its name names among `names`, the
/// type of its content where that is no name, and the type for recovery
/// where the name names nothing.
pub open spec fn field_type(
    table: TypeTable,
    names: Seq<(Seq<char>, TypeId)>,
    field: StructField,
) -> TypeId {
    match field.type_info@ {
        TypeForm::Custom(name) => match lookup(names, name) {
            Some(t) => t,
            None => table.interned_id(TypeForm::ErrorRecovery),
        },
        form => table.interned_id(form),
    }
}

/// Whether `out` is the field `field` checked under `names`: the same
/// field, with the handle of its content and the handle of its type.
pub open spec fn field_checked(
    table: TypeTable,
    names: Seq<(Seq<char>, TypeId)>,
    out: TyStructField,
    field: StructField,
) -> bool {
    &&& out.name == field.name
    &&& out.span == field.span
    &&& out.type_span == field.type_span
    &&& out.attributes == field.attributes
    &&& table.has_form(field.type_info@)
    &&& field_unknown(names, field) ==> table.has_form(TypeForm::ErrorRecovery)
    &&& out.initial_type_id == table.interned_id(field.type_info@)
    &&& out.type_id == field_type(table, names, field)
    &&& table.contains(out.type_id)
}

/// What is reported for a field: that its type is unknown, if it is.
pub open spec fn field_error(names: Seq<(Seq<char>, TypeId)>, field: StructField) -> Seq<
    CompileError,
> {
    if field_unknown(names, field) {
        seq![CompileError::UnknownType { span: field.type_span }]
    } else {
        Seq::empty()
    }
}

/// A checked field stays checked in every well-formed table that extends
/// the one in which it was checked.
pub proof fn lemma_field_checked_extends(
    earlier: TypeTable,
    later: TypeTable,
    names: Seq<(Seq<char>, TypeId)>,
    out: TyStructField,
    field: StructField,
)
    requires
        earlier.wf(),
        later.wf(),
        later.extends(earlier),
        field_checked(earlier, names, out, field),
    ensures
        field_checked(later, names, out, field),
{
    earlier.lemma_id_stable(later, field.type_info@);
    if field_unknown(names, field) {
        earlier.lemma_id_stable(later, TypeForm::ErrorRecovery);
    }
}

impl TyStructField {
    /// Checks a field under the names of `ctx`: interns the content of its
    /// type and resolves it. Where its type is a name that names nothing,
    /// that is reported and the field gets the type for recovery, so that
    /// the check can go on.
    pub fn type_check(ctx: &mut TypeCheckContext, field: StructField) -> (checked: CompileResult<
        TyStructField,
    >)
        requires
            old(ctx).wf(),
            old(ctx).type_engine@.closed_under(field.type_info@),
        ensures
            final(ctx).wf(),
            final(ctx).type_engine@.extends(old(ctx).type_engine@),
            final(ctx).type_engine@ == (if field_unknown(old(ctx).namespace@, field) {
                old(ctx).type_engine@.interned(field.type_info@).interned(TypeForm::ErrorRecovery)
            } else {
                old(ctx).type_engine@.interned(field.type_info@)
            }),
            final(ctx).namespace@ == old(ctx).namespace@,
            final(ctx).bindings@ == old(ctx).bindings@,
            final(ctx).scope == old(ctx).scope,
            final(ctx).next_placeholder == old(ctx).next_placeholder,
            checked.value matches Some(out) && field_checked(
                final(ctx).type_engine@,
                old(ctx).namespace@,
                out,
                field,
            ),
            checked.errors@ == field_error(old(ctx).namespace@, field),
            checked.warnings@.len() == 0,
    {
        let warnings: Vec<CompileWarning> = Vec::new();
        let mut errors: Vec<CompileError> = Vec::new();
        let ghost start = ctx.type_engine@;
        let ghost names = ctx.namespace@;
        let ghost bindings = ctx.bindings@;
        let StructField { name, type_info, span, type_span, attributes } = field;
        let ghost form = type_info@;
        let initial_type_id = ctx.type_engine.insert_type(type_info);
        let ghost middle = ctx.type_engine@;
        proof {
            lemma_names_live_extends(start, middle, names);
            lemma_map_live_extends(start, middle, bindings);
            middle.lemma_id_of_form(initial_type_id);
        }
        let type_id = match ctx.resolve_type(initial_type_id, &type_span) {
            Ok(resolved) => resolved,
            Err(e) => {
                errors.push(e);
                let recovery = ctx.type_engine.insert_type(TypeInfo::ErrorRecovery);
                proof {
                    let last = ctx.type_engine@;
                    lemma_names_live_extends(middle, last, names);
                    lemma_map_live_extends(middle, last, bindings);
                    middle.lemma_id_stable(last, form);
                    last.lemma_id_of_form(recovery);
                }
                recovery
            },
        };
        let out = TyStructField { name, type_id, initial_type_id, span, type_span, attributes };
        proof {
            let last = ctx.type_engine@;
            assert(last.has_form(form));
            assert(errors@ =~= field_error(names, field));
        }
        CompileResult { value: Some(out), warnings, errors }
    }
}

/// The self type of a scope does not occur in a struct whose fields have
/// types without parts that are neither placeholders nor self types: the
/// check of such a struct binds the self type to the type of the struct.
pub proof fn lemma_plain_struct_binds(
    table: TypeTable,
    m: Map<TypeId, TypeId>,
    self_id: TypeId,
    struct_id: TypeId,
    scope: u64,
)
    requires
        table.wf(),
        table.contains(self_id),
        table.contains(struct_id),
        table.form(self_id) is SelfType,
        table.form(struct_id) is Struct,
        binds_placeholders(table, m, scope),
        forall|k: int|
            0 <= k < parts(table.form(struct_id)).len() ==> {
                let part = #[trigger] parts(table.form(struct_id))[k];
                parts(table.form(part)).len() == 0 && !(table.form(part) is Unknown) && !(table.form(
                    part,
                ) is SelfType)
            },
    ensures
        !table.occurs(m, self_id, struct_id),
{
    assert forall|k: int| 0 <= k < parts(table.form(struct_id)).len() implies ({
        let part = #[trigger] parts(table.form(struct_id))[k];
        part != self_id && parts(table.form(part)).len() == 0 && !m.contains_key(part)
    }) by {
        let part = parts(table.form(struct_id))[k];
        assert(!(table.form(part) is Unknown) && !(table.form(part) is SelfType));
    }
    table.lemma_plain_not_reached(m, self_id, struct_id);
}

/// Whether the type parameter has trait constraints.
pub open spec fn constrained(tp: ParsedTypeParameter) -> bool {
    tp.trait_constraints@.len() > 0
}

/// The position of the first type parameter with trait constraints.
pub open spec fn first_constrained(tps: Seq<ParsedTypeParameter>) -> Option<int>
    decreases tps.len(),
{
    if tps.len() == 0 {
        None
    } else if constrained(tps[0]) {
        Some(0int)
    } else {
        match first_constrained(tps.skip(1)) {
            Some(k) => Some(k + 1),
            None => None,
        }
    }
}

/// The names that the type parameters `tps` bring into scope: each names
/// the placeholder with its number, counted from `next`.
pub open spec fn param_names(table: TypeTable, tps: Seq<ParsedTypeParameter>, next: u64) -> Seq<
    (Seq<char>, TypeId),
> {
    Seq::new(
        tps.len(),
        |i: int| (tps[i].name_ident@, table.interned_id(TypeForm::Unknown((next + i) as u64))),
    )
}

/// The names in the scope of a declaration: those around it, its type
/// parameters, and `Self` for the self type of the scope.
pub open spec fn full_names(
    table: TypeTable,
    outer: Seq<(Seq<char>, TypeId)>,
    tps: Seq<ParsedTypeParameter>,
    next: u64,
    scope: u64,
) -> Seq<(Seq<char>, TypeId)> {
    outer + param_names(table, tps, next) + seq![
        ("Self"@, table.interned_id(TypeForm::SelfType(scope))),
    ]
}

/// The types of the checked fields.
pub open spec fn field_ids(
    table: TypeTable,
    names: Seq<(Seq<char>, TypeId)>,
    fields: Seq<StructField>,
) -> Seq<TypeId> {
    Seq::new(fields.len(), |i: int| field_type(table, names, fields[i]))
}

/// What is reported for the fields, in their order.
pub open spec fn fields_errors(names: Seq<(Seq<char>, TypeId)>, fields: Seq<StructField>) -> Seq<
    CompileError,
>
    decreases fields.len(),
{
    if fields.len() == 0 {
        Seq::empty()
    } else {
        fields_errors(names, fields.drop_last()) + field_error(names, fields.last())
    }
}

/// Whether `out` is the type parameter `tp` checked: it has the name of
/// `tp`, no constraints, and the placeholder with the number `number`.
pub open spec fn param_checked(
    table: TypeTable,
    out: TypeParameter,
    tp: ParsedTypeParameter,
    number: int,
) -> bool {
    &&& out.name_ident@ == tp.name_ident@
    &&& out.name_ident.span == tp.name_ident.span
    &&& out.trait_constraints@.len() == 0
    &&& out.trait_constraints_span == tp.trait_constraints_span
    &&& out.initial_type_id == out.type_id
    &&& table.contains(out.type_id)
    &&& table.form(out.type_id) == TypeForm::Unknown(number as u64)
}

/// Whether `out` is the type parameter for the self type of the scope
/// `scope`, made at `span`.
pub open spec fn self_param(table: TypeTable, out: TypeParameter, scope: u64, span: Span) -> bool {
    &&& out.name_ident@ == "Self"@
    &&& out.name_ident.span == span
    &&& out.trait_constraints@.len() == 0
    &&& out.trait_constraints_span == span
    &&& out.initial_type_id == out.type_id
    &&& table.contains(out.type_id)
    &&& table.form(out.type_id) == TypeForm::SelfType(scope)
}

/// Whether `out` is the declaration `decl` checked under `names`: the
/// same declaration with checked fields, checked type parameters and, as
/// the last type parameter, the one for the self type.
pub open spec fn struct_checked(
    table: TypeTable,
    names: Seq<(Seq<char>, TypeId)>,
    out: TyStructDeclaration,
    decl: StructDeclaration,
    next: u64,
    scope: u64,
) -> bool {
    &&& out.name == decl.name
    &&& out.visibility == decl.visibility
    &&& out.span == decl.span
    &&& out.attributes == decl.attributes
    &&& out.fields@.len() == decl.fields@.len()
    &&& forall|i: int|
        0 <= i < decl.fields@.len() ==> field_checked(
            table,
            names,
            out.fields@[i],
            #[trigger] decl.fields@[i],
        )
    &&& out.type_parameters@.len() == decl.type_parameters@.len() + 1
    &&& forall|i: int|
        0 <= i < decl.type_parameters@.len() ==> param_checked(
            table,
            out.type_parameters@[i],
            #[trigger] decl.type_parameters@[i],
            next + i,
        )
    &&& self_param(
        table,
        out.type_parameters@[decl.type_parameters@.len() as int],
        scope,
        decl.name.span,
    )
}

/// Checks the type parameters `tps`: each gets a new placeholder and
/// brings its name into scope. Gives up at the first one that has trait
/// constraints.
fn check_type_parameters(ctx: &mut TypeCheckContext, tps: &Vec<ParsedTypeParameter>) -> (checked:
    Result<Vec<TypeParameter>, CompileError>)
    requires
        old(ctx).wf(),
        old(ctx).next_placeholder + tps@.len() <= u64::MAX,
    ensures
        final(ctx).type_engine.wf(),
        final(ctx).type_engine@.extends(old(ctx).type_engine@),
        map_live(final(ctx).type_engine@, final(ctx).bindings@),
        final(ctx).bindings@ == old(ctx).bindings@,
        final(ctx).scope == old(ctx).scope,
        match first_constrained(tps@) {
            Some(k) => 0 <= k < tps@.len() && checked == Err::<Vec<TypeParameter>, CompileError>(
                CompileError::WhereClauseNotYetSupported { span: tps@[k].trait_constraints_span },
            ),
            None => {
                &&& checked matches Ok(out)
                &&& out@.len() == tps@.len()
                &&& forall|i: int|
                    0 <= i < tps@.len() ==> param_checked(
                        final(ctx).type_engine@,
                        out@[i],
                        #[trigger] tps@[i],
                        old(ctx).next_placeholder + i,
                    )
                &&& final(ctx).next_placeholder == old(ctx).next_placeholder + tps@.len()
                &&& names_live(final(ctx).type_engine@, final(ctx).namespace@)
                &&& final(ctx).namespace@ == old(ctx).namespace@ + Seq::new(
                    tps@.len(),
                    |i: int| (tps@[i].name_ident@, out@[i].type_id),
                )
            },
        },
{
    let ghost start = ctx.type_engine@;
    let ghost outer = ctx.namespace@;
    let ghost next = ctx.next_placeholder;
    let mut out: Vec<TypeParameter> = Vec::new();
    let mut i: usize = 0;
    assert(tps@.skip(0) =~= tps@);
    assert(ctx.namespace@ =~= outer + Seq::new(
        0,
        |j: int| (tps@[j].name_ident@, out@[j].type_id),
    ));
    while i < tps.len()
        invariant
            ctx.type_engine.wf(),
            start == old(ctx).type_engine@,
            ctx.type_engine@.extends(start),
            names_live(ctx.type_engine@, ctx.namespace@),
            map_live(ctx.type_engine@, ctx.bindings@),
            ctx.bindings@ == old(ctx).bindings@,
            ctx.scope == old(ctx).scope,
            next + tps@.len() <= u64::MAX,
            ctx.next_placeholder == next + i,
            0 <= i <= tps.len(),
            out@.len() == i,
            first_constrained(tps@) == match first_constrained(tps@.skip(i as int)) {
                Some(k) => Some(k + i),
                None => None,
            },
            forall|j: int|
                0 <= j < i ==> param_checked(ctx.type_engine@, out@[j], #[trigger] tps@[j], next + j),
            ctx.namespace@ == outer + Seq::new(
                i as nat,
                |j: int| (tps@[j].name_ident@, out@[j].type_id),
            ),
        decreases tps.len() - i,
    {
        assert(tps@.skip(i as int)[0] == tps@[i as int]);
        assert(tps@.skip(i as int).skip(1) =~= tps@.skip(i + 1));
        let tp = &tps[i];
        if tp.trait_constraints.len() != 0 {
            return Err(
                CompileError::WhereClauseNotYetSupported { span: tp.trait_constraints_span },
            );
        }
        let ghost before = ctx.type_engine@;
        let ghost names = ctx.namespace@;
        let ghost out_before = out@;
        let id = ctx.type_engine.insert_type(TypeInfo::Unknown(ctx.next_placeholder));
        ctx.next_placeholder = ctx.next_placeholder + 1;
        ctx.namespace.insert(tp.name_ident.name.clone(), id);
        out.push(
            TypeParameter {
                type_id: id,
                initial_type_id: id,
                name_ident: tp.name_ident.copy(),
                trait_constraints: Vec::new(),
                trait_constraints_span: tp.trait_constraints_span,
            },
        );
        proof {
            let now = ctx.type_engine@;
            lemma_names_live_extends(before, now, names);
            lemma_map_live_extends(before, now, ctx.bindings@);
            assert forall|j: int| 0 <= j < i + 1 implies param_checked(
                now,
                out@[j],
                #[trigger] tps@[j],
                next + j,
            ) by {
                if j < i {
                    assert(param_checked(before, out_before[j], tps@[j], next + j));
                    assert(out@[j] == out_before[j]);
                }
            }
            assert(ctx.namespace@ =~= outer + Seq::new(
                (i + 1) as nat,
                |j: int| (tps@[j].name_ident@, out@[j].type_id),
            ));
        }
        i += 1;
    }
    Ok(out)
}

/// Checks the fields `fields` in their order and appends to `errors` what
/// is reported for them.
fn check_fields(ctx: &mut TypeCheckContext, fields: Vec<StructField>, errors: &mut Vec<CompileError>) -> (out:
    Vec<TyStructField>)
    requires
        old(ctx).wf(),
        forall|i: int|
            0 <= i < fields@.len() ==> old(ctx).type_engine@.closed_under(
                (#[trigger] fields@[i]).type_info@,
            ),
    ensures
        final(ctx).wf(),
        final(ctx).type_engine@.extends(old(ctx).type_engine@),
        final(ctx).namespace@ == old(ctx).namespace@,
        final(ctx).bindings@ == old(ctx).bindings@,
        final(ctx).scope == old(ctx).scope,
        final(ctx).next_placeholder == old(ctx).next_placeholder,
        out@.len() == fields@.len(),
        forall|i: int|
            0 <= i < fields@.len() ==> field_checked(
                final(ctx).type_engine@,
                old(ctx).namespace@,
                out@[i],
                #[trigger] fields@[i],
            ),
        final(errors)@ == old(errors)@ + fields_errors(old(ctx).namespace@, fields@),
{
    let ghost start = ctx.type_engine@;
    let ghost names = ctx.namespace@;
    let ghost all = fields@;
    let mut rest = fields;
    let mut out: Vec<TyStructField> = Vec::new();
    let ghost mut done: int = 0;
    assert(all.skip(0) =~= all);
    assert(all.take(0) =~= Seq::<StructField>::empty());
    assert(errors@ =~= old(errors)@ + fields_errors(names, all.take(0)));
    while rest.len() > 0
        invariant
            ctx.wf(),
            start == old(ctx).type_engine@,
            names == old(ctx).namespace@,
            all == fields@,
            ctx.type_engine@.extends(start),
            ctx.namespace@ == names,
            ctx.bindings@ == old(ctx).bindings@,
            ctx.scope == old(ctx).scope,
            ctx.next_placeholder == old(ctx).next_placeholder,
            0 <= done <= all.len(),
            rest@ == all.skip(done),
            out@.len() == done,
            forall|i: int|
                0 <= i < all.len() ==> start.closed_under((#[trigger] all[i]).type_info@),
            forall|i: int|
                0 <= i < done ==> field_checked(ctx.type_engine@, names, out@[i], #[trigger] all[i]),
            errors@ == old(errors)@ + fields_errors(names, all.take(done)),
        decreases rest.len(),
    {
        let ghost before = ctx.type_engine@;
        let ghost out_before = out@;
        let field = rest.remove(0);
        proof {
            assert(field == all[done]);
            assert(rest@ =~= all.skip(done + 1));
            lemma_closed_extends(start, before, field.type_info@);
        }
        let mut checked = TyStructField::type_check(ctx, field);
        errors.append(&mut checked.errors);
        match checked.value {
            Some(value) => {
                out.push(value);
            },
            None => {},
        }
        proof {
            let now = ctx.type_engine@;
            assert forall|i: int| 0 <= i < done + 1 implies field_checked(
                now,
                names,
                out@[i],
                #[trigger] all[i],
            ) by {
                if i < done {
                    assert(out@[i] == out_before[i]);
                    lemma_field_checked_extends(before, now, names, out_before[i], all[i]);
                }
            }
            assert(all.take(done + 1).drop_last() =~= all.take(done));
            assert(all.take(done + 1).last() == all[done]);
            assert(errors@ =~= old(errors)@ + fields_errors(names, all.take(done + 1)));
            done = done + 1;
        }
    }
    assert(all.take(done) =~= all);
    out
}

impl TyStructDeclaration {
    /// The handle of the type of the struct: the struct with its name and
    /// the types of its fields.
    pub fn create_type_id(&self, type_engine: &mut TypeEngine) -> (id: TypeId)
        requires
            old(type_engine).wf(),
            forall|i: int|
                0 <= i < self.fields@.len() ==> old(type_engine)@.contains(
                    (#[trigger] self.fields@[i]).type_id,
                ),
        ensures
            final(type_engine).wf(),
            final(type_engine)@.extends(old(type_engine)@),
            final(type_engine)@.contains(id),
            final(type_engine)@.form(id) == TypeForm::Struct(
                self.name@,
                self.fields@.map_values(|f: TyStructField| f.type_id),
            ),
    {
        let mut ids: Vec<TypeId> = Vec::new();
        let mut i: usize = 0;
        while i < self.fields.len()
            invariant
                0 <= i <= self.fields.len(),
                ids@ == self.fields@.take(i as int).map_values(|f: TyStructField| f.type_id),
            decreases self.fields.len() - i,
        {
            ids.push(self.fields[i].type_id);
            assert(self.fields@.take(i + 1).map_values(|f: TyStructField| f.type_id)
                =~= self.fields@.take(i as int).map_values(|f: TyStructField| f.type_id).push(
                self.fields@[i as int].type_id,
            ));
            i += 1;
        }
        assert(self.fields@.take(self.fields.len() as int) =~= self.fields@);
        let info = TypeInfo::Struct(self.name.name.clone(), ids);
        assert forall|k: int| 0 <= k < parts(info@).len() implies type_engine@.contains(
            #[trigger] parts(info@)[k],
        ) by {
            assert(type_engine@.contains(self.fields@[k].type_id));
        }
        type_engine.insert_type(info)
    }

    /// Checks the declaration of a struct in a scope of its own. Its type
    /// parameters and its self type come into scope for its fields only.
    /// Gives up at a type parameter with trait constraints, and where the
    /// self type occurs in the type of the struct. Else the check
    /// succeeds and binds the self type of the scope to the type of the
    /// struct. A field whose type is unknown is reported, and the check
    /// goes on.
    pub fn type_check(ctx: &mut TypeCheckContext, decl: StructDeclaration) -> (checked:
        CompileResult<TyStructDeclaration>)
        requires
            old(ctx).wf(),
            old(ctx).scope < u64::MAX,
            old(ctx).next_placeholder + decl.type_parameters@.len() <= u64::MAX,
            forall|i: int|
                0 <= i < decl.fields@.len() ==> old(ctx).type_engine@.closed_under(
                    (#[trigger] decl.fields@[i]).type_info@,
                ),
        ensures
            final(ctx).wf(),
            final(ctx).type_engine@.extends(old(ctx).type_engine@),
            final(ctx).namespace@ == old(ctx).namespace@,
            final(ctx).scope == old(ctx).scope + 1,
            checked.warnings@.len() == 0,
            match first_constrained(decl.type_parameters@) {
                Some(k) => {
                    &&& 0 <= k < decl.type_parameters@.len()
                    &&& checked.value is None
                    &&& checked.errors@ == seq![
                        CompileError::WhereClauseNotYetSupported {
                            span: decl.type_parameters@[k].trait_constraints_span,
                        },
                    ]
                    &&& final(ctx).bindings@ == old(ctx).bindings@
                },
                None => {
                    let table = final(ctx).type_engine@;
                    let names = full_names(
                        table,
                        old(ctx).namespace@,
                        decl.type_parameters@,
                        old(ctx).next_placeholder,
                        old(ctx).scope,
                    );
                    let struct_id = table.interned_id(
                        TypeForm::Struct(decl.name@, field_ids(table, names, decl.fields@)),
                    );
                    let self_id = table.interned_id(TypeForm::SelfType(old(ctx).scope));
                    let reported = fields_errors(names, decl.fields@);
                    &&& final(ctx).next_placeholder == old(ctx).next_placeholder
                        + decl.type_parameters@.len()
                    &&& table.contains(struct_id)
                    &&& table.contains(self_id)
                    &&& !old(ctx).bindings@.contains_key(self_id)
                    &&& checked.value is Some <==> !table.occurs(
                        old(ctx).bindings@,
                        self_id,
                        struct_id,
                    )
                    &&& checked.value is Some ==> final(ctx).bindings@ == old(
                        ctx,
                    ).bindings@.insert(self_id, struct_id)
                    &&& match table.unified(
                        old(ctx).bindings@,
                        self_id,
                        struct_id,
                        Some(old(ctx).scope),
                    ) {
                        Ok(m) => {
                            &&& final(ctx).bindings@ == m
                            &&& checked.errors@ == reported
                            &&& checked.value matches Some(out)
                            &&& struct_checked(
                                table,
                                names,
                                out,
                                decl,
                                old(ctx).next_placeholder,
                                old(ctx).scope,
                            )
                        },
                        Err(failure) => {
                            &&& final(ctx).bindings@ == old(ctx).bindings@
                            &&& checked.value is None
                            &&& checked.errors@.len() == reported.len() + 1
                            &&& checked.errors@.take(reported.len() as int) == reported
                            &&& match failure {
                                UnifyFailure::Mismatch => {
                                    &&& checked.errors@.last() matches CompileError::TypeError {
                                        expected,
                                        received,
                                        help_text,
                                        span,
                                    }
                                    &&& expected@ == table.text(self_id)
                                    &&& received@ == table.text(struct_id)
                                    &&& help_text@ == "self type"@
                                    &&& span == decl.name.span
                                },
                                UnifyFailure::Recursive => checked.errors@.last()
                                    == (CompileError::RecursiveType { span: decl.name.span }),
                            }
                        },
                    }
                },
            },
    {
        let warnings: Vec<CompileWarning> = Vec::new();
        let mut errors: Vec<CompileError> = Vec::new();
        let ghost start = ctx.type_engine@;
        let ghost outer = ctx.namespace@;
        let ghost next = ctx.next_placeholder;
        let scope = ctx.scope;
        ctx.scope = scope + 1;
        let ghost bound = ctx.bindings@;
        let StructDeclaration { name, fields, type_parameters, visibility, span, attributes } = decl;
        let ghost all = fields@;

        // The names of the declaration go out of scope at its end.
        let decl_namespace = ctx.namespace.copy();

        // Check the type parameters and bring them into scope.
        let mut new_type_parameters = match check_type_parameters(ctx, &type_parameters) {
            Ok(checked) => checked,
            Err(e) => {
                errors.push(e);
                proof {
                    lemma_names_live_extends(start, ctx.type_engine@, outer);
                }
                ctx.namespace = decl_namespace;
                return CompileResult { value: None, warnings, errors };
            },
        };
        let ghost params = new_type_parameters@;
        let ghost table1 = ctx.type_engine@;

        // Make the type parameter for the self type and bring it into scope.
        let self_type_id = ctx.type_engine.insert_type(TypeInfo::SelfType(scope));
        let ghost names1 = ctx.namespace@;
        ctx.namespace.insert(String::from_str("Self"), self_type_id);
        new_type_parameters.push(
            TypeParameter {
                type_id: self_type_id,
                initial_type_id: self_type_id,
                name_ident: Ident::new("Self", name.span),
                trait_constraints: Vec::new(),
                trait_constraints_span: name.span,
            },
        );
        let ghost table2 = ctx.type_engine@;
        let ghost names = ctx.namespace@;
        proof {
            lemma_names_live_extends(table1, table2, names1);
            lemma_map_live_extends(table1, table2, bound);
            assert forall|i: int| 0 <= i < all.len() implies table2.closed_under(
                (#[trigger] all[i]).type_info@,
            ) by {
                lemma_closed_extends(start, table2, all[i].type_info@);
            }
        }

        // Check the fields.
        let new_fields = check_fields(ctx, fields, &mut errors);
        let ghost table3 = ctx.type_engine@;
        let ghost reported = errors@;
        proof {
            assert(reported =~= fields_errors(names, all));
        }

        // Make the declaration.
        let decl = TyStructDeclaration {
            name,
            type_parameters: new_type_parameters,
            fields: new_fields,
            visibility,
            span,
            attributes,
        };

        // Unify the type of the struct with the self type.
        proof {
            assert forall|i: int| 0 <= i < decl.fields@.len() implies table3.contains(
                (#[trigger] decl.fields@[i]).type_id,
            ) by {
                assert(field_checked(table3, names, decl.fields@[i], all[i]));
            }
        }
        let struct_type_id = decl.create_type_id(&mut ctx.type_engine);
        let ghost table = ctx.type_engine@;
        proof {
            lemma_names_live_extends(table3, table, names);
            lemma_map_live_extends(table3, table, bound);
            lemma_names_live_extends(start, table, outer);
            // The names in scope are those that the contract speaks of.
            let wanted = full_names(table, outer, type_parameters@, next, scope);
            assert(wanted.len() == names.len());
            assert forall|i: int| 0 <= i < names.len() implies names[i] == wanted[i] by {
                if outer.len() <= i < outer.len() + type_parameters@.len() {
                    let j = i - outer.len();
                    assert(param_checked(table1, params[j], type_parameters@[j], next + j));
                    table.lemma_id_of_form(params[j].type_id);
                } else if i == outer.len() + type_parameters@.len() {
                    table.lemma_id_of_form(self_type_id);
                }
            }
            assert(names =~= wanted);
            table.lemma_id_of_form(self_type_id);
            // The fields stay checked.
            assert forall|i: int| 0 <= i < all.len() implies field_checked(
                table,
                names,
                decl.fields@[i],
                #[trigger] all[i],
            ) by {
                lemma_field_checked_extends(table3, table, names, decl.fields@[i], all[i]);
            }
            assert(decl.fields@.map_values(|f: TyStructField| f.type_id) =~= field_ids(
                table,
                names,
                all,
            ));
            table.lemma_id_of_form(struct_type_id);
            assert forall|i: int| 0 <= i < type_parameters@.len() implies param_checked(
                table,
                decl.type_parameters@[i],
                #[trigger] type_parameters@[i],
                next + i,
            ) by {
                assert(param_checked(table1, params[i], type_parameters@[i], next + i));
                assert(decl.type_parameters@[i] == params[i]);
            }
        }
        let unified = ctx.type_engine.unify(
            &mut ctx.bindings,
            self_type_id,
            struct_type_id,
            &decl.name.span,
            "self type",
            Some(scope),
        );
        proof {
            // The self type of this scope was not bound before.
            if bound.contains_key(self_type_id) {
                assert(start.contains(self_type_id));
                assert(start.form(self_type_id) == table.form(self_type_id));
            }
            table.lemma_self_type_unified(bound, self_type_id, struct_type_id, scope);
        }
        ctx.namespace = decl_namespace;
        match unified {
            Ok(_) => CompileResult { value: Some(decl), warnings, errors },
            Err(e) => {
                errors.push(e);
                proof {
                    assert(errors@.take(reported.len() as int) =~= reported);
                }
                CompileResult { value: None, warnings, errors }
            },
        }
    }
}

} // verus!
