//! The run: given the outcome of loading the required namespace, either
//! surface the load error verbatim and produce no output, or walk the
//! loaded catalog and serialize the emitted module to source text.

use vstd::prelude::*;
use crate::gen_module::{module_text, ModuleView};
use crate::entity::EntityView;
use crate::namespace_gen;
use crate::namespace_gen::walk_decls;
use crate::repository::Repository;

verus! {

/// A namespace that failed to resolve at the requested version, with the
/// human-readable message of the underlying repository's error object.
#[derive(Debug)]
pub struct LoadError {
    pub message: String,
}

impl View for LoadError {
    type V = Seq<char>;

    open spec fn view(&self) -> Seq<char> {
        self.message@
    }
}

/// Runs generation over a loaded repository. When the namespace load
/// failed, the error is returned with its message untouched, the repository
/// is left untouched, and no output text exists. When it succeeded, the
/// walk runs over every entity — acquiring and releasing each handle
/// exactly once — and the serialized text of the emitted module is
/// returned.
pub fn generate(
    load_result: Result<(), LoadError>,
    repo: &mut Repository,
    namespace: &str,
) -> (outcome: Result<String, LoadError>)
    requires
        old(repo)@.wf(),
        old(repo)@.fresh(),
    ensures
        load_result is Err ==> {
            &&& outcome is Err
            &&& outcome->Err_0@ == load_result->Err_0@
            &&& *final(repo) == *old(repo)
        },
        load_result is Ok ==> {
            &&& outcome is Ok
            &&& outcome->Ok_0@ == module_text(
                ModuleView { name: namespace@, decls: walk_decls(old(repo)@.entities) },
            )
            &&& final(repo)@.wf()
            &&& final(repo)@.walked_once()
            &&& final(repo)@.entities == old(repo)@.entities
            &&& final(repo)@.search_paths == old(repo)@.search_paths
        },
{
    match load_result {
        Err(error) => Err(error),
        Ok(()) => {
            let module = namespace_gen::generate(repo, namespace);
            let text = crate::gen_module::serialize(&module);
            Ok(text)
        }
    }
}

/// Idempotence of a run: any two output texts produced over the same
/// catalog and the same namespace name are byte-identical, because the
/// serialized text is a function of the walk's declarations alone.
pub proof fn lemma_output_deterministic(
    first: Seq<char>,
    second: Seq<char>,
    namespace: Seq<char>,
    entities: Seq<EntityView>,
)
    requires
        first == module_text(ModuleView { name: namespace, decls: walk_decls(entities) }),
        second == module_text(ModuleView { name: namespace, decls: walk_decls(entities) }),
    ensures
        first == second,
{
}

} // verus!
