//! The entity walk: for every index of the loaded namespace, acquire the
//! entity's handle, classify it, extract its kind-specific structure, push
//! a generated declaration (or nothing), and release the handle before
//! moving on — strictly sequential, with no early termination.

use vstd::prelude::*;
use vstd::string::StringExecFns;
use crate::entity::{calc_baseinfo_type, kind_of, EntityKind, EntityView};
use crate::gen_module::{
    DeclView, FunctionDeclView, GeneratedFunction, GeneratedModule, GeneratedStruct,
    StructDeclView,
};
use crate::repository::Repository;
use crate::text::{build_call_line, call_line};

verus! {

/// The declarations that one entity contributes to the module: a struct
/// entity yields one struct declaration with the entity's exact name; a
/// function entity yields one wrapper function carrying the
/// external-binding marker attribute and a pass-through call body; object
/// and unknown entities contribute nothing.
pub open spec fn decls_of_entity(entity: EntityView) -> Seq<DeclView> {
    match kind_of(entity.tags) {
        EntityKind::Object => Seq::<DeclView>::empty(),
        EntityKind::Struct => seq![DeclView::Struct(StructDeclView { name: entity.name })],
        EntityKind::Function => seq![
            DeclView::Function(
                FunctionDeclView {
                    name: entity.name,
                    attrs: seq!["napi"@],
                    body: call_line(entity.name, entity.args),
                },
            ),
        ],
        EntityKind::Unknown => Seq::<DeclView>::empty(),
    }
}

/// The declarations of a whole walk, entity by entity in catalog order.
pub open spec fn walk_decls(entities: Seq<EntityView>) -> Seq<DeclView>
    decreases entities.len(),
{
    if entities.len() == 0 {
        Seq::<DeclView>::empty()
    } else {
        walk_decls(entities.drop_last()) + decls_of_entity(entities.last())
    }
}

/// A function entity yields exactly one wrapper declaration: named after
/// the entity, tagged with the external-binding marker, and with a body
/// that forwards the entity's argument names positionally — the joined
/// argument list inside it carries every name in declaration order, one
/// comma between each adjacent pair (see
/// `text::lemma_join_forwards_names_in_order`).
pub proof fn lemma_function_wrapper_forwards_args(entity: EntityView)
    requires
        kind_of(entity.tags) == EntityKind::Function,
    ensures
        decls_of_entity(entity) == seq![
            DeclView::Function(
                FunctionDeclView {
                    name: entity.name,
                    attrs: seq!["napi"@],
                    body: call_line(entity.name, entity.args),
                },
            ),
        ],
{
}

/// The name of a declaration when it is a struct declaration, as a
/// zero-or-one-element sequence.
pub open spec fn struct_name_of_decl(decl: DeclView) -> Seq<Seq<char>> {
    match decl {
        DeclView::Struct(s) => seq![s.name],
        DeclView::Function(_) => Seq::<Seq<char>>::empty(),
    }
}

/// The names of the struct declarations among the given declarations, in
/// emission order.
pub open spec fn struct_names_of_decls(decls: Seq<DeclView>) -> Seq<Seq<char>>
    decreases decls.len(),
{
    if decls.len() == 0 {
        Seq::<Seq<char>>::empty()
    } else {
        struct_names_of_decls(decls.drop_last()) + struct_name_of_decl(decls.last())
    }
}

/// The names of the struct-kind entities among the given entities, in walk
/// order.
pub open spec fn struct_entity_names(entities: Seq<EntityView>) -> Seq<Seq<char>>
    decreases entities.len(),
{
    if entities.len() == 0 {
        Seq::<Seq<char>>::empty()
    } else {
        struct_entity_names(entities.drop_last()) + (
        if kind_of(entities.last().tags) == EntityKind::Struct {
            seq![entities.last().name]
        } else {
            Seq::<Seq<char>>::empty()
        })
    }
}

/// Collecting struct names distributes over concatenation of declaration
/// sequences.
proof fn lemma_struct_names_concat(a: Seq<DeclView>, b: Seq<DeclView>)
    ensures
        struct_names_of_decls(a + b) == struct_names_of_decls(a) + struct_names_of_decls(b),
    decreases b.len(),
{
    if b.len() == 0 {
        assert(a + b =~= a);
        assert(struct_names_of_decls(a) + struct_names_of_decls(b) =~= struct_names_of_decls(
            a,
        ));
    } else {
        lemma_struct_names_concat(a, b.drop_last());
        assert((a + b).drop_last() =~= a + b.drop_last());
        assert((a + b).last() == b.last());
        assert(struct_names_of_decls(a) + struct_names_of_decls(b) =~= struct_names_of_decls(a)
            + struct_names_of_decls(b.drop_last()) + struct_name_of_decl(b.last()));
    }
}

/// For every struct-kind entity the walk emits exactly one struct
/// declaration carrying the entity's exact name, and the struct
/// declarations stand in the module in the same relative order as the
/// entities stand in the walk.
pub proof fn lemma_structs_preserved_in_order(entities: Seq<EntityView>)
    ensures
        struct_names_of_decls(walk_decls(entities)) == struct_entity_names(entities),
    decreases entities.len(),
{
    if entities.len() == 0 {
        assert(struct_names_of_decls(walk_decls(entities)) =~= struct_entity_names(entities));
    } else {
        let shorter = entities.drop_last();
        let last = entities.last();
        lemma_structs_preserved_in_order(shorter);
        lemma_struct_names_concat(walk_decls(shorter), decls_of_entity(last));
        let contribution = decls_of_entity(last);
        if contribution.len() > 0 {
            assert(contribution.drop_last() =~= Seq::<DeclView>::empty());
            assert(struct_names_of_decls(contribution) == struct_names_of_decls(
                contribution.drop_last(),
            ) + struct_name_of_decl(contribution.last()));
            assert(struct_names_of_decls(contribution) =~= struct_name_of_decl(
                contribution.last(),
            ));
        }
        assert(struct_names_of_decls(walk_decls(entities)) =~= struct_entity_names(entities));
    }
}

/// One more entity extends the walk's declarations by exactly that
/// entity's contribution.
proof fn lemma_walk_step(entities: Seq<EntityView>, i: int)
    requires
        0 <= i < entities.len(),
    ensures
        walk_decls(entities.take(i + 1)) == walk_decls(entities.take(i)) + decls_of_entity(
            entities[i],
        ),
{
    let t = entities.take(i + 1);
    assert(t.drop_last() =~= entities.take(i));
    assert(t.last() == entities[i]);
}

/// Walks every entity of the loaded namespace and accumulates the emitted
/// module, whose name is the namespace name verbatim and whose declarations
/// are exactly the walk's contributions in catalog order; every entity
/// handle is acquired exactly once and released exactly once, whichever
/// classification branch is taken.
pub fn generate(repo: &mut Repository, namespace: &str) -> (module: GeneratedModule)
    requires
        old(repo)@.wf(),
        old(repo)@.fresh(),
    ensures
        final(repo)@.wf(),
        final(repo)@.entities == old(repo)@.entities,
        final(repo)@.search_paths == old(repo)@.search_paths,
        final(repo)@.walked_once(),
        module@.name == namespace@,
        module@.decls == walk_decls(old(repo)@.entities),
{
    let mut module = GeneratedModule::new_module(String::from_str(namespace));
    let n = repo.entity_count();
    let mut i: usize = 0;
    while i < n
        invariant
            repo@.wf(),
            repo@.entities == old(repo)@.entities,
            repo@.search_paths == old(repo)@.search_paths,
            n == repo@.entities.len(),
            i <= n,
            forall|k: int| 0 <= k < i ==> repo@.acquires[k] == 1 && repo@.releases[k] == 1,
            forall|k: int| i <= k < n ==> repo@.acquires[k] == 0 && repo@.releases[k] == 0,
            module@.name == namespace@,
            module@.decls == walk_decls(old(repo)@.entities.take(i as int)),
        decreases n - i,
    {
        let ghost entity = repo@.entities[i as int];
        repo.acquire(i);
        let tags = repo.entity_tags(i);
        let kind = calc_baseinfo_type(tags);
        match kind {
            EntityKind::Object => {
                let _method_count = repo.method_count(i);
                proof {
                    assert(module@.decls + decls_of_entity(entity) =~= module@.decls);
                }
            }
            EntityKind::Struct => {
                let name = String::from_str(repo.entity_name(i).as_str());
                let ghost before = module@.decls;
                module.push_struct(GeneratedStruct { name });
                let _method_count = repo.method_count(i);
                proof {
                    assert(module@.decls =~= before + decls_of_entity(entity));
                }
            }
            EntityKind::Function => {
                let arg_count = repo.arg_count(i);
                let mut args: Vec<String> = Vec::new();
                let mut j: usize = 0;
                while j < arg_count
                    invariant
                        repo@.wf(),
                        i < repo@.entities.len(),
                        repo@.live(i as int),
                        entity == repo@.entities[i as int],
                        arg_count == entity.args.len(),
                        j <= arg_count,
                        args@.len() == j as int,
                        forall|k: int| 0 <= k < j ==> (#[trigger] args@[k])@ == entity.args[k],
                    decreases arg_count - j,
                {
                    let arg = String::from_str(repo.arg_name(i, j).as_str());
                    let ghost prev = args@;
                    args.push(arg);
                    proof {
                        assert forall|k: int| 0 <= k < j + 1 implies (#[trigger] args@[k])@
                            == entity.args[k] by {
                            if k < j {
                                assert(args@[k] == prev[k]);
                                assert(prev[k]@ == entity.args[k]);
                            } else {
                                assert(args@[k] == arg);
                            }
                        }
                    }
                    j = j + 1;
                }
                proof {
                    assert(args@.map_values(|a: String| a@) =~= entity.args);
                }
                let name = String::from_str(repo.entity_name(i).as_str());
                let body = build_call_line(name.as_str(), &args);
                let mut attrs: Vec<String> = Vec::new();
                attrs.push(String::from_str("napi"));
                let ghost before = module@.decls;
                let decl = GeneratedFunction { name, attrs, body };
                proof {
                    assert(decl@.attrs =~= seq!["napi"@]);
                }
                module.push_fn(decl);
                proof {
                    assert(module@.decls =~= before + decls_of_entity(entity));
                }
            }
            EntityKind::Unknown => {
                proof {
                    assert(module@.decls + decls_of_entity(entity) =~= module@.decls);
                }
            }
        }
        repo.release(i);
        proof {
            lemma_walk_step(old(repo)@.entities, i as int);
        }
        i = i + 1;
    }
    proof {
        assert(old(repo)@.entities.take(n as int) =~= old(repo)@.entities);
    }
    module
}

} // verus!
