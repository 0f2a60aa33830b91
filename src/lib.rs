//! Generic parameters and where-clause bounds of declarations: functions,
//! structs, enums, traits, type aliases and impl blocks.
//!
//! A function or a type alias nested in a trait or an impl block inherits
//! that container's parameters; a trait has its self type as an implicit
//! first parameter. Parameters are numbered along the whole chain, so that
//! an index names the same parameter wherever it is read.

mod cache;
mod defs;
mod generics;
mod names;
mod syntax;

pub use cache::ParamsCache;
pub use defs::{
    adt_def, container_def, lemma_key_injective, AdtDef, Container, Enum, Function, GenericDef,
    ImplBlock, NestedSource, SourceDb, Struct, Trait, TypeAlias,
};
pub use generics::{
    bound_preds, declared, lemma_all_numbered, lemma_bounds_split, lemma_child_numbering,
    lemma_resolve_idempotent, lemma_resolved_wf, lemma_root_numbering, lemma_trait_self_first,
    lemma_unresolved_dropped, lemma_where_preds_concat, name_of, node_preds, own_params,
    params_from, pred_entries, rank, resolved, where_preds, GenericParam, GenericParams,
    HasGenericParams, ParamView, PredView, TableView, WherePredicate,
};
pub use names::{Name, NameView};
pub use syntax::{
    bound_path, bound_path_of, path_of, type_ref_of, GenericsNode, Path, PathNode, TypeBoundNode,
    TypeParamNode, TypeRef, TypeRefNode, TypeRefView, WherePredNode,
};
