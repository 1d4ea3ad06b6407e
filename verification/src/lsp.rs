//! What an editor asks of checked code: where a diagnostic stands, which
//! name is under the cursor, which attributes a token has.

use crate::decl_engine::DeclEngine;
use crate::decl_engine::DeclKind;
use crate::decl_engine::DeclWrapper;
use crate::decl_engine::TyAbiDeclaration;
use crate::decl_engine::TyEnumVariant;
use crate::decl_engine::TyStorageField;
use crate::decl_engine::TyStructField;
use crate::decl_engine::TyTraitFn;
use crate::error::CompileError;
use crate::error::CompileWarning;
use crate::error::Warning;
use crate::language::Attribute;
use crate::language::AttributeKind;
use crate::language::AttributesMap;
use crate::parsed::Declaration;
use crate::parsed::ParsedItem;
use crate::span::Ident;
use crate::span::Span;
use crate::ty::TyDeclaration;
use crate::type_engine::TypeId;
use vstd::prelude::*;

verus! {

/// A line and a column of a source text, both counted from one.
#[derive(Clone, Copy, Debug, PartialEq, Eq, Structural)]
pub struct LineCol {
    pub line: usize,
    pub col: usize,
}

/// A place in a document as an editor counts it: line and character, both
/// counted from zero.
#[derive(Clone, Copy, Debug, PartialEq, Eq, Structural)]
pub struct Position {
    pub line: u32,
    pub character: u32,
}

/// A range in a document.
#[derive(Clone, Copy, Debug, PartialEq, Eq, Structural)]
pub struct Range {
    pub start: Position,
    pub end: Position,
}

/// How grave a diagnostic is.
#[derive(Clone, Copy, Debug, PartialEq, Eq, Structural)]
pub enum DiagnosticSeverity {
    Error,
    Warning,
}

/// What an editor shows for an error or a warning.
#[derive(Clone, Debug)]
pub struct Diagnostic {
    pub range: Range,
    pub severity: DiagnosticSeverity,
    pub message: String,
}

impl Diagnostic {
    /// The diagnostic with this range, severity and message.
    pub fn new(range: Range, severity: DiagnosticSeverity, message: String) -> (diagnostic: Diagnostic)
        ensures
            diagnostic.range == range,
            diagnostic.severity == severity,
            diagnostic.message == message,
    {
        Diagnostic { range, severity, message }
    }
}

/// The line and the column of the byte `position` of the text `text`, both
/// counted from one, as `sway_types::span::Source::line_col_one_index`
/// counts them.
pub uninterp spec fn line_col_one_index(text: Seq<char>, position: usize) -> (usize, usize);

/// `sway_types::span::Source::line_col_one_index` of a `Source` made of
/// `text`: the line and the column of a byte position, both counted from
/// one, so neither is zero.
#[verifier::external_body]
fn source_line_col(text: &str, position: usize) -> (lc: LineCol)
    ensures
        (lc.line, lc.col) == line_col_one_index(text@, position),
        lc.line >= 1,
        lc.col >= 1,
{
    let lc = sway_types::span::Source::new(text).line_col_one_index(position);
    LineCol { line: lc.line, col: lc.col }
}

impl Position {
    /// Whether this position is not after `other`.
    pub open spec fn at_most(self, other: Position) -> bool {
        self.line < other.line || (self.line == other.line && self.character <= other.character)
    }

    /// Whether this position is not after `other`.
    pub fn le(&self, other: &Position) -> (before: bool)
        ensures
            before == self.at_most(*other),
    {
        self.line < other.line || (self.line == other.line && self.character <= other.character)
    }
}

impl Range {
    /// Whether `position` lies in the range, its ends included.
    pub open spec fn holds(self, position: Position) -> bool {
        self.start.at_most(position) && position.at_most(self.end)
    }

    /// Whether `position` lies in the range, its ends included.
    pub fn contains(&self, position: &Position) -> (inside: bool)
        ensures
            inside == self.holds(*position),
    {
        self.start.le(position) && position.le(&self.end)
    }
}

/// Whether the line and the column can be counted from zero in 32 bits.
pub open spec fn in_reach(lc: LineCol) -> bool {
    1 <= lc.line <= u32::MAX && 1 <= lc.col <= u32::MAX
}

/// The position of a line and a column: both less one.
pub open spec fn position_of(lc: LineCol) -> Position {
    Position { line: (lc.line - 1) as u32, character: (lc.col - 1) as u32 }
}

/// The range between two places: each line and each column less one.
pub fn get_range(start: LineCol, end: LineCol) -> (range: Range)
    requires
        in_reach(start),
        in_reach(end),
    ensures
        range == (Range { start: position_of(start), end: position_of(end) }),
{
    Range {
        start: Position { line: start.line as u32 - 1, character: start.col as u32 - 1 },
        end: Position { line: end.line as u32 - 1, character: end.col as u32 - 1 },
    }
}

/// The line and the column of the byte `position` of `text`.
pub open spec fn line_col_at(text: Seq<char>, position: usize) -> LineCol {
    LineCol { line: line_col_one_index(text, position).0, col: line_col_one_index(text, position).1 }
}

/// The range of `span` in the document with the text `text`, if its ends
/// can be counted in 32 bits.
pub open spec fn span_range(text: Seq<char>, span: Span) -> Option<Range> {
    let start = line_col_at(text, span.start);
    let end = line_col_at(text, span.end);
    if in_reach(start) && in_reach(end) {
        Some(Range { start: position_of(start), end: position_of(end) })
    } else {
        None
    }
}

/// The range of `span` in the document with the text `text`, or `None`
/// where a line or a column cannot be counted in 32 bits.
pub fn get_range_from_span(text: &str, span: &Span) -> (range: Option<Range>)
    ensures
        range == span_range(text@, *span),
{
    let start = source_line_col(text, span.start);
    let end = source_line_col(text, span.end);
    if start.line <= u32::MAX as usize && start.col <= u32::MAX as usize && end.line
        <= u32::MAX as usize && end.col <= u32::MAX as usize {
        Some(get_range(start, end))
    } else {
        None
    }
}

/// The position of the first name among `tokens` whose range holds
/// `cursor`. A name whose range cannot be counted holds nothing.
pub open spec fn first_at(text: Seq<char>, cursor: Position, tokens: Seq<Ident>) -> Option<int>
    decreases tokens.len(),
{
    if tokens.len() == 0 {
        None
    } else if span_range(text, tokens[0].span) matches Some(range) && range.holds(cursor) {
        Some(0int)
    } else {
        match first_at(text, cursor, tokens.skip(1)) {
            Some(i) => Some(i + 1),
            None => None,
        }
    }
}

/// The first name among `tokens` that is under the cursor.
pub fn ident_at_position<'a>(text: &str, cursor: Position, tokens: &'a Vec<Ident>) -> (found: Option<
    &'a Ident,
>)
    ensures
        match first_at(text@, cursor, tokens@) {
            Some(i) => 0 <= i < tokens@.len() && found == Some(&tokens@[i]),
            None => found is None,
        },
{
    let mut i: usize = 0;
    assert(tokens@.skip(0) =~= tokens@);
    while i < tokens.len()
        invariant
            0 <= i <= tokens.len(),
            first_at(text@, cursor, tokens@) == match first_at(
                text@,
                cursor,
                tokens@.skip(i as int),
            ) {
                Some(k) => Some(k + i),
                None => None,
            },
        decreases tokens.len() - i,
    {
        assert(tokens@.skip(i as int)[0] == tokens@[i as int]);
        assert(tokens@.skip(i as int).skip(1) =~= tokens@.skip(i + 1));
        let inside = match get_range_from_span(text, &tokens[i].span) {
            Some(range) => range.contains(&cursor),
            None => false,
        };
        if inside {
            return Some(&tokens[i]);
        }
        i += 1;
    }
    None
}

/// The position of the first type among `tokens` whose name has a range
/// that holds `cursor`.
pub open spec fn first_type_at(text: Seq<char>, cursor: Position, tokens: Seq<(TypeId, Ident)>) -> Option<
    int,
>
    decreases tokens.len(),
{
    if tokens.len() == 0 {
        None
    } else if span_range(text, tokens[0].1.span) matches Some(range) && range.holds(cursor) {
        Some(0int)
    } else {
        match first_type_at(text, cursor, tokens.skip(1)) {
            Some(i) => Some(i + 1),
            None => None,
        }
    }
}

/// The first type among `tokens` whose name is under the cursor.
pub fn type_id_at_position(text: &str, cursor: Position, tokens: &Vec<(TypeId, Ident)>) -> (found:
    Option<TypeId>)
    ensures
        match first_type_at(text@, cursor, tokens@) {
            Some(i) => 0 <= i < tokens@.len() && found == Some(tokens@[i].0),
            None => found is None,
        },
{
    let mut i: usize = 0;
    assert(tokens@.skip(0) =~= tokens@);
    while i < tokens.len()
        invariant
            0 <= i <= tokens.len(),
            first_type_at(text@, cursor, tokens@) == match first_type_at(
                text@,
                cursor,
                tokens@.skip(i as int),
            ) {
                Some(k) => Some(k + i),
                None => None,
            },
        decreases tokens.len() - i,
    {
        assert(tokens@.skip(i as int)[0] == tokens@[i as int]);
        assert(tokens@.skip(i as int).skip(1) =~= tokens@.skip(i + 1));
        let inside = match get_range_from_span(text, &tokens[i].1.span) {
            Some(range) => range.contains(&cursor),
            None => false,
        };
        if inside {
            return Some(tokens[i].0);
        }
        i += 1;
    }
    None
}

/// Where a type is defined: the type itself, whose declaration has a
/// place, or the name of the definition.
#[derive(Clone, Debug)]
pub enum TypeDefinition {
    TypeId(TypeId),
    Ident(Ident),
}

/// The place where the type `type_id` is declared: that of the first
/// entry of `declared` for it.
pub open spec fn declared_at(declared: Seq<(TypeId, Span)>, type_id: TypeId) -> Option<Span>
    decreases declared.len(),
{
    if declared.len() == 0 {
        None
    } else if declared[0].0 == type_id {
        Some(declared[0].1)
    } else {
        declared_at(declared.skip(1), type_id)
    }
}

/// The place of a definition: that of its name, or the place where its
/// type is declared.
pub open spec fn definition_span(type_def: TypeDefinition, declared: Seq<(TypeId, Span)>) -> Option<
    Span,
> {
    match type_def {
        TypeDefinition::TypeId(type_id) => declared_at(declared, type_id),
        TypeDefinition::Ident(ident) => Some(ident.span),
    }
}

/// The range of a definition in the document with the text `text`, where
/// `declared` says where each type is declared. `None` where the type is
/// declared nowhere or the place has no range.
pub fn get_range_from_type_def(
    text: &str,
    type_def: &TypeDefinition,
    declared: &Vec<(TypeId, Span)>,
) -> (range: Option<Range>)
    ensures
        range == match definition_span(*type_def, declared@) {
            Some(span) => span_range(text@, span),
            None => None,
        },
{
    match type_def {
        TypeDefinition::TypeId(type_id) => {
            let mut i: usize = 0;
            assert(declared@.skip(0) =~= declared@);
            while i < declared.len()
                invariant
                    *type_def == TypeDefinition::TypeId(*type_id),
                    0 <= i <= declared.len(),
                    declared_at(declared@, *type_id) == declared_at(
                        declared@.skip(i as int),
                        *type_id,
                    ),
                decreases declared.len() - i,
            {
                assert(declared@.skip(i as int)[0] == declared@[i as int]);
                assert(declared@.skip(i as int).skip(1) =~= declared@.skip(i + 1));
                if declared[i].0 == *type_id {
                    return get_range_from_span(text, &declared[i].1);
                }
                i += 1;
            }
            None
        },
        TypeDefinition::Ident(ident) => get_range_from_span(text, &ident.span),
    }
}

/// Whether `d` is the diagnostic of `error` in the document with the text
/// `text`.
pub open spec fn error_diagnostic(text: Seq<char>, d: Diagnostic, error: CompileError) -> bool {
    span_range(text, error.place()) == Some(d.range) && d.severity == DiagnosticSeverity::Error
        && d.message@ == error.text()
}

/// Whether `d` is the diagnostic of `warning` in the document with the
/// text `text`.
pub open spec fn warning_diagnostic(text: Seq<char>, d: Diagnostic, warning: CompileWarning) -> bool {
    span_range(text, warning.span) == Some(d.range) && d.severity == DiagnosticSeverity::Warning
        && d.message@ == warning.warning_content.text()
}

/// Whether the place of each error and of each warning has a range.
pub open spec fn all_in_reach(
    text: Seq<char>,
    warnings: Seq<CompileWarning>,
    errors: Seq<CompileError>,
) -> bool {
    (forall|i: int| 0 <= i < errors.len() ==> span_range(text, (#[trigger] errors[i]).place()) is Some)
        && (forall|i: int|
        0 <= i < warnings.len() ==> span_range(text, (#[trigger] warnings[i]).span) is Some)
}

/// The diagnostics of a document: one for each error, then one for each
/// warning, in their order. `None` where a place has no range.
pub fn get_diagnostics(text: &str, warnings: &Vec<CompileWarning>, errors: &Vec<CompileError>) -> (found:
    Option<Vec<Diagnostic>>)
    ensures
        found is Some == all_in_reach(text@, warnings@, errors@),
        found matches Some(all) ==> {
            &&& all@.len() == errors@.len() + warnings@.len()
            &&& forall|i: int|
                0 <= i < errors@.len() ==> error_diagnostic(text@, all@[i], #[trigger] errors@[i])
            &&& forall|i: int|
                0 <= i < warnings@.len() ==> warning_diagnostic(
                    text@,
                    all@[errors@.len() + i],
                    #[trigger] warnings@[i],
                )
        },
{
    let mut all: Vec<Diagnostic> = Vec::new();
    let mut i: usize = 0;
    while i < errors.len()
        invariant
            0 <= i <= errors.len(),
            all@.len() == i,
            forall|j: int| 0 <= j < i ==> error_diagnostic(text@, all@[j], #[trigger] errors@[j]),
        decreases errors.len() - i,
    {
        let error = &errors[i];
        match get_range_from_span(text, &error.span()) {
            Some(range) => {
                all.push(Diagnostic::new(range, DiagnosticSeverity::Error, error.to_text()));
            },
            None => {
                return None;
            },
        }
        i += 1;
    }
    let mut k: usize = 0;
    while k < warnings.len()
        invariant
            0 <= k <= warnings.len(),
            all@.len() == errors@.len() + k,
            forall|j: int|
                0 <= j < errors@.len() ==> error_diagnostic(text@, all@[j], #[trigger] errors@[j]),
            forall|j: int|
                0 <= j < k ==> warning_diagnostic(
                    text@,
                    all@[errors@.len() + j],
                    #[trigger] warnings@[j],
                ),
        decreases warnings.len() - k,
    {
        let warning = &warnings[k];
        match get_range_from_span(text, &warning.span()) {
            Some(range) => {
                all.push(
                    Diagnostic::new(
                        range,
                        DiagnosticSeverity::Warning,
                        warning.to_friendly_warning_string(),
                    ),
                );
            },
            None => {
                return None;
            },
        }
        k += 1;
    }
    Some(all)
}

/// What a token is in the parsed tree.
#[derive(Clone, Debug)]
pub enum AstToken {
    Declaration(Declaration),
    StorageField(ParsedItem),
    StructField(ParsedItem),
    TraitFn(ParsedItem),
    EnumVariant(ParsedItem),
    Expression(Ident),
}

/// What a token is in the typed tree.
#[derive(Clone, Debug)]
pub enum TypedAstToken {
    TypedDeclaration(TyDeclaration),
    TypedStorageField(TyStorageField),
    TypedStructField(TyStructField),
    TypedTraitFn(TyTraitFn),
    TypedEnumVariant(TyEnumVariant),
    TypedExpression(Ident),
}

/// A token of a document: what it is in the parsed tree and, once the
/// document is checked, in the typed tree.
#[derive(Clone, Debug)]
pub struct Token {
    pub parsed: AstToken,
    pub typed: Option<TypedAstToken>,
}

impl DeclWrapper {
    /// The attributes of a function, a struct, an enum, a constant or the
    /// storage.
    pub open spec fn attributes_of(&self) -> Option<AttributesMap> {
        match *self {
            DeclWrapper::Enum(d) => Some(d.attributes),
            DeclWrapper::Function(d) => Some(d.attributes),
            DeclWrapper::Struct(d) => Some(d.attributes),
            DeclWrapper::Constant(d) => Some(d.attributes),
            DeclWrapper::Storage(d) => Some(d.attributes),
            _ => None,
        }
    }

    /// The attributes of a function, a struct, an enum, a constant or the
    /// storage.
    pub fn attributes(&self) -> (attributes: Option<&AttributesMap>)
        ensures
            match self.attributes_of() {
                Some(a) => attributes == Some(&a),
                None => attributes is None,
            },
    {
        match self {
            DeclWrapper::Enum(d) => Some(&d.attributes),
            DeclWrapper::Function(d) => Some(&d.attributes),
            DeclWrapper::Struct(d) => Some(&d.attributes),
            DeclWrapper::Constant(d) => Some(&d.attributes),
            DeclWrapper::Storage(d) => Some(&d.attributes),
            _ => None,
        }
    }
}

/// The attributes of a token of the typed tree: those of its field,
/// signature or variant, or those of its declaration where the handle of
/// the declaration resolves.
pub open spec fn typed_attributes(token: Token, decl_engine: &DeclEngine) -> Option<AttributesMap> {
    match token.typed {
        Some(TypedAstToken::TypedDeclaration(decl)) => match decl.handle_of() {
            Some((id, _)) => if decl.resolves(decl_engine) {
                decl_engine.decl(id).attributes_of()
            } else {
                None
            },
            None => None,
        },
        Some(TypedAstToken::TypedStorageField(field)) => Some(field.attributes),
        Some(TypedAstToken::TypedStructField(field)) => Some(field.attributes),
        Some(TypedAstToken::TypedTraitFn(trait_fn)) => Some(trait_fn.attributes),
        Some(TypedAstToken::TypedEnumVariant(variant)) => Some(variant.attributes),
        _ => None,
    }
}

/// The attributes of a token, from the typed tree.
pub fn attributes_map2<'a>(token: &'a Token, decl_engine: &'a DeclEngine) -> (attributes: Option<
    &'a AttributesMap,
>)
    ensures
        match typed_attributes(*token, decl_engine) {
            Some(a) => attributes == Some(&a),
            None => attributes is None,
        },
{
    match &token.typed {
        Some(TypedAstToken::TypedDeclaration(decl)) => {
            match decl.handle() {
                Some((id, kind)) => {
                    let span = Span::new(0, 0, 0);
                    match decl_engine.get_kind(id, kind, &span) {
                        Ok(found) => found.attributes(),
                        Err(_) => None,
                    }
                },
                None => None,
            }
        },
        Some(TypedAstToken::TypedStorageField(field)) => Some(&field.attributes),
        Some(TypedAstToken::TypedStructField(field)) => Some(&field.attributes),
        Some(TypedAstToken::TypedTraitFn(trait_fn)) => Some(&trait_fn.attributes),
        Some(TypedAstToken::TypedEnumVariant(variant)) => Some(&variant.attributes),
        _ => None,
    }
}

/// The attributes of a token of the parsed tree.
pub open spec fn parsed_attributes(token: Token) -> Option<AttributesMap> {
    match token.parsed {
        AstToken::Declaration(Declaration::EnumDeclaration(decl)) => Some(decl.attributes),
        AstToken::Declaration(Declaration::FunctionDeclaration(decl)) => Some(decl.attributes),
        AstToken::Declaration(Declaration::StructDeclaration(decl)) => Some(decl.attributes),
        AstToken::Declaration(Declaration::ConstantDeclaration(decl)) => Some(decl.attributes),
        AstToken::Declaration(Declaration::StorageDeclaration(decl)) => Some(decl.attributes),
        AstToken::StorageField(field) => Some(field.attributes),
        AstToken::StructField(field) => Some(field.attributes),
        AstToken::TraitFn(trait_fn) => Some(trait_fn.attributes),
        AstToken::EnumVariant(variant) => Some(variant.attributes),
        _ => None,
    }
}

/// The attributes of a token, from the parsed tree.
pub fn attributes_map(token: &Token) -> (attributes: Option<&AttributesMap>)
    ensures
        match parsed_attributes(*token) {
            Some(a) => attributes == Some(&a),
            None => attributes is None,
        },
{
    match &token.parsed {
        AstToken::Declaration(declaration) => match declaration {
            Declaration::EnumDeclaration(decl) => Some(&decl.attributes),
            Declaration::FunctionDeclaration(decl) => Some(&decl.attributes),
            Declaration::StructDeclaration(decl) => Some(&decl.attributes),
            Declaration::ConstantDeclaration(decl) => Some(&decl.attributes),
            Declaration::StorageDeclaration(decl) => Some(&decl.attributes),
            _ => None,
        },
        AstToken::StorageField(field) => Some(&field.attributes),
        AstToken::StructField(field) => Some(&field.attributes),
        AstToken::TraitFn(trait_fn) => Some(&trait_fn.attributes),
        AstToken::EnumVariant(variant) => Some(&variant.attributes),
        _ => None,
    }
}

/// The attributes of the kind `kind` of a token of the parsed tree.
pub open spec fn parsed_attributes_of(token: Token, kind: AttributeKind) -> Option<Vec<Attribute>> {
    match parsed_attributes(token) {
        Some(a) => if a@.contains_key(kind) {
            Some(a@[kind])
        } else {
            None
        },
        None => None,
    }
}

/// The attributes of a token that document it.
pub fn doc_attributes(token: &Token) -> (attributes: Option<&Vec<Attribute>>)
    ensures
        match parsed_attributes_of(*token, AttributeKind::Doc) {
            Some(a) => attributes == Some(&a),
            None => attributes is None,
        },
{
    match attributes_map(token) {
        Some(attributes) => attributes.get(AttributeKind::Doc),
        None => None,
    }
}

/// The attributes of a token that say what it does to storage.
pub fn storage_attributes(token: &Token) -> (attributes: Option<&Vec<Attribute>>)
    ensures
        match parsed_attributes_of(*token, AttributeKind::Storage) {
            Some(a) => attributes == Some(&a),
            None => attributes is None,
        },
{
    match attributes_map(token) {
        Some(attributes) => attributes.get(AttributeKind::Storage),
        None => None,
    }
}

/// The declaration of the interface that a token stands for, if the token
/// is one in the typed tree and its handle resolves.
pub open spec fn interface_of(token: Token, decl_engine: &DeclEngine) -> Option<TyAbiDeclaration> {
    match token.typed {
        Some(TypedAstToken::TypedDeclaration(TyDeclaration::AbiDeclaration(id))) => if decl_engine.has(
            id,
        ) && decl_engine.decl(id) is Abi {
            Some(decl_engine.decl(id)->Abi_0)
        } else {
            None
        },
        _ => None,
    }
}

/// The declaration for which an editor offers to write an implementation:
/// that of the interface that the token stands for.
pub fn code_actions<'a>(token: &Token, decl_engine: &'a DeclEngine) -> (interface: Option<
    &'a TyAbiDeclaration,
>)
    ensures
        match interface_of(*token, decl_engine) {
            Some(a) => interface == Some(&a),
            None => interface is None,
        },
{
    match &token.typed {
        Some(TypedAstToken::TypedDeclaration(TyDeclaration::AbiDeclaration(decl_id))) => {
            let span = Span::new(0, 0, 0);
            match decl_engine.get_kind(*decl_id, DeclKind::Abi, &span) {
                Ok(DeclWrapper::Abi(abi_decl)) => Some(abi_decl),
                _ => None,
            }
        },
        _ => None,
    }
}

} // verus!
