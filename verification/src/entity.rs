//! One introspected entity: its runtime type tags, the classification of
//! those tags into a semantic kind, and the plain record of everything the
//! walk reads from an entity handle.

use vstd::prelude::*;

verus! {

/// The semantic kind of one introspected entity, inferred from its runtime
/// type tags rather than stored statically.
#[derive(PartialEq, Eq, Structural, Clone, Copy, Debug)]
pub enum EntityKind {
    Object,
    Struct,
    Function,
    Unknown,
}

/// The answers of the runtime type-tag membership tests for one entity:
/// whether the entity's instance tag lies in the object type, the struct
/// type, and the function type respectively.
#[derive(PartialEq, Eq, Structural, Clone, Copy, Debug)]
pub struct TypeTags {
    pub is_object: bool,
    pub is_struct: bool,
    pub is_function: bool,
}

/// Ordered first-match classification: the object test wins over the
/// struct test, the struct test over the function test; an entity that
/// satisfies no tag test is Unknown.
pub open spec fn kind_of(tags: TypeTags) -> EntityKind {
    if tags.is_object {
        EntityKind::Object
    } else if tags.is_struct {
        EntityKind::Struct
    } else if tags.is_function {
        EntityKind::Function
    } else {
        EntityKind::Unknown
    }
}

/// Classifies one entity by its type tags, testing the tags in the fixed
/// priority order: object, then struct, then function.
pub fn calc_baseinfo_type(tags: TypeTags) -> (kind: EntityKind)
    ensures
        kind == kind_of(tags),
{
    if tags.is_object {
        EntityKind::Object
    } else if tags.is_struct {
        EntityKind::Struct
    } else if tags.is_function {
        EntityKind::Function
    } else {
        EntityKind::Unknown
    }
}

/// Classification is total: every tag combination maps to one of the four
/// kinds, and to Unknown exactly when no tag test succeeds.
pub proof fn lemma_classification_total(tags: TypeTags)
    ensures
        kind_of(tags) == EntityKind::Object || kind_of(tags) == EntityKind::Struct
            || kind_of(tags) == EntityKind::Function || kind_of(tags) == EntityKind::Unknown,
        (kind_of(tags) == EntityKind::Unknown) == (!tags.is_object && !tags.is_struct
            && !tags.is_function),
{
}

/// Classification is deterministic: any two results that meet the
/// classifier's contract on the same tags are the same kind, so repeated
/// classification of one entity handle yields the same kind every run.
pub proof fn lemma_classification_deterministic(
    tags: TypeTags,
    first: EntityKind,
    second: EntityKind,
)
    requires
        first == kind_of(tags),
        second == kind_of(tags),
    ensures
        first == second,
{
}

/// Everything the walk reads from one entity handle, as plain values: the
/// entity's name and namespace, its runtime type tags, its method count
/// (meaningful for object and struct entities), and the names of its formal
/// parameters in declared order (meaningful for function entities).
pub struct EntityRecord {
    pub name: String,
    pub namespace: String,
    pub tags: TypeTags,
    pub n_methods: usize,
    pub args: Vec<String>,
}

/// The mathematical view of one entity record.
pub struct EntityView {
    pub name: Seq<char>,
    pub namespace: Seq<char>,
    pub tags: TypeTags,
    pub n_methods: nat,
    pub args: Seq<Seq<char>>,
}

impl View for EntityRecord {
    type V = EntityView;

    open spec fn view(&self) -> EntityView {
        EntityView {
            name: self.name@,
            namespace: self.namespace@,
            tags: self.tags,
            n_methods: self.n_methods as nat,
            args: self.args@.map_values(|a: String| a@),
        }
    }
}

} // verus!
