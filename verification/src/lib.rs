//! Walks a catalog of runtime type-introspection entities and emits a
//! source-code module of callable wrappers: objects and structs are
//! classified by their runtime type tags, functions are lowered to
//! pass-through wrappers that forward their arguments positionally, and
//! the accumulated module is serialized to source text.

pub mod entity;
pub mod gen_module;
pub mod namespace_gen;
pub mod repo_gen;
pub mod repository;
pub mod text;
