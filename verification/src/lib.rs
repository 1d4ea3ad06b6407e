//! Type and declaration resolution for a statically typed contract language:
//! interned type arenas, a declaration arena, unification, substitution maps
//! and the typed syntax tree that carries their handles.

pub mod decl_engine;
pub mod error;
pub mod formatter;
pub mod irtype;
pub mod language;
pub mod lsp;
pub mod parsed;
pub mod semantic;
pub mod span;
pub mod subst;
pub mod text;
pub mod transform;
pub mod tx;
pub mod ty;
pub mod type_engine;
pub mod unify;
