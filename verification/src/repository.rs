//! The library's model of a loaded introspection repository: the catalog of
//! entities of one namespace as plain records, the registered search paths,
//! and a per-entity ledger of handle acquisitions and releases.
//!
//! The underlying native repository hands out reference-counted handles that
//! must be released exactly once and never read after release. The ledger
//! makes that discipline checkable: reading an entity's fields requires the
//! handle to be live (acquired and not yet released), releasing requires a
//! live handle, and the walk's contract states that every handle ends up
//! acquired and released exactly once.

use vstd::prelude::*;
use vstd::pervasive::VecAdditionalExecFns;
use crate::entity::{EntityRecord, EntityView, TypeTags};

verus! {

/// The mathematical view of a repository: entity views, search paths, and
/// the acquire and release counts per entity index.
pub struct RepositoryView {
    pub entities: Seq<EntityView>,
    pub search_paths: Seq<Seq<char>>,
    pub acquires: Seq<nat>,
    pub releases: Seq<nat>,
}

impl RepositoryView {
    /// The two ledgers cover exactly the entities.
    pub open spec fn wf(self) -> bool {
        &&& self.acquires.len() == self.entities.len()
        &&& self.releases.len() == self.entities.len()
    }

    /// No handle has been acquired or released yet.
    pub open spec fn fresh(self) -> bool {
        forall|i: int|
            0 <= i < self.entities.len() ==> self.acquires[i] == 0 && self.releases[i] == 0
    }

    /// The handle of entity `i` is live: acquired and not yet released.
    pub open spec fn live(self, i: int) -> bool {
        self.acquires[i] == self.releases[i] + 1
    }

    /// Every acquired handle has been released: no leak remains.
    pub open spec fn balanced(self) -> bool {
        forall|i: int|
            0 <= i < self.entities.len() ==> self.acquires[i] == self.releases[i]
    }

    /// Every handle was acquired exactly once and released exactly once.
    pub open spec fn walked_once(self) -> bool {
        forall|i: int|
            0 <= i < self.entities.len() ==> self.acquires[i] == 1 && self.releases[i] == 1
    }
}

/// A loaded repository: the entity records of the required namespace, the
/// registered search paths, and the handle ledger.
pub struct Repository {
    entities: Vec<EntityRecord>,
    search_paths: Vec<String>,
    acquires: Vec<usize>,
    releases: Vec<usize>,
}

impl View for Repository {
    type V = RepositoryView;

    closed spec fn view(&self) -> RepositoryView {
        RepositoryView {
            entities: self.entities@.map_values(|e: EntityRecord| e@),
            search_paths: self.search_paths@.map_values(|p: String| p@),
            acquires: self.acquires@.map_values(|c: usize| c as nat),
            releases: self.releases@.map_values(|c: usize| c as nat),
        }
    }
}

/// A vector of `n` zeroes, the initial state of one ledger.
fn zeroes(n: usize) -> (v: Vec<usize>)
    ensures
        v@.len() == n,
        forall|i: int| 0 <= i < n ==> v@[i] == 0,
{
    let mut v: Vec<usize> = Vec::new();
    let mut k: usize = 0;
    while k < n
        invariant
            k <= n,
            v@.len() == k,
            forall|i: int| 0 <= i < k ==> v@[i] == 0,
        decreases n - k,
    {
        v.push(0);
        k = k + 1;
    }
    v
}

impl Repository {
    /// Opens a repository over the given catalog of entity records, with no
    /// search path registered and no handle acquired yet.
    pub fn open(entities: Vec<EntityRecord>) -> (repo: Repository)
        ensures
            repo@.wf(),
            repo@.fresh(),
            repo@.entities == entities@.map_values(|e: EntityRecord| e@),
            repo@.search_paths == Seq::<Seq<char>>::empty(),
    {
        let n = entities.len();
        Repository {
            entities,
            search_paths: Vec::new(),
            acquires: zeroes(n),
            releases: zeroes(n),
        }
    }

    /// Prepends a filesystem path to the repository's lookup path list;
    /// safe to call any number of times.
    pub fn prepend_search_path(&mut self, path: String)
        ensures
            final(self)@.search_paths == old(self)@.search_paths.insert(0, path@),
            final(self)@.entities == old(self)@.entities,
            final(self)@.acquires == old(self)@.acquires,
            final(self)@.releases == old(self)@.releases,
    {
        self.search_paths.insert(0, path);
        proof {
            assert(self@.search_paths =~= old(self)@.search_paths.insert(0, path@));
        }
    }

    /// The number of registered search paths.
    pub fn search_path_count(&self) -> (n: usize)
        ensures
            n == self@.search_paths.len(),
    {
        self.search_paths.len()
    }

    /// The search path at position `i`, front of the lookup order first.
    pub fn search_path_at(&self, i: usize) -> (path: &String)
        requires
            i < self@.search_paths.len(),
        ensures
            path@ == self@.search_paths[i as int],
    {
        &self.search_paths[i]
    }

    /// The number of entities enumerable in the loaded namespace.
    pub fn entity_count(&self) -> (n: usize)
        ensures
            n == self@.entities.len(),
    {
        self.entities.len()
    }

    /// Acquires one reference to the handle of entity `i`.
    pub fn acquire(&mut self, i: usize)
        requires
            old(self)@.wf(),
            i < old(self)@.entities.len(),
            old(self)@.acquires[i as int] < usize::MAX,
        ensures
            final(self)@.wf(),
            final(self)@.acquires == old(self)@.acquires.update(
                i as int,
                (old(self)@.acquires[i as int] + 1) as nat,
            ),
            final(self)@.releases == old(self)@.releases,
            final(self)@.entities == old(self)@.entities,
            final(self)@.search_paths == old(self)@.search_paths,
    {
        let c = self.acquires[i];
        self.acquires.set(i, c + 1);
        proof {
            assert(self@.acquires =~= old(self)@.acquires.update(
                i as int,
                (old(self)@.acquires[i as int] + 1) as nat,
            ));
        }
    }

    /// Releases one reference to the handle of entity `i`; only a live
    /// handle may be released, so no handle can be released twice.
    pub fn release(&mut self, i: usize)
        requires
            old(self)@.wf(),
            i < old(self)@.entities.len(),
            old(self)@.releases[i as int] < old(self)@.acquires[i as int],
        ensures
            final(self)@.wf(),
            final(self)@.releases == old(self)@.releases.update(
                i as int,
                (old(self)@.releases[i as int] + 1) as nat,
            ),
            final(self)@.acquires == old(self)@.acquires,
            final(self)@.entities == old(self)@.entities,
            final(self)@.search_paths == old(self)@.search_paths,
    {
        let c = self.releases[i];
        self.releases.set(i, c + 1);
        proof {
            assert(self@.releases =~= old(self)@.releases.update(
                i as int,
                (old(self)@.releases[i as int] + 1) as nat,
            ));
        }
    }

    /// The name of entity `i`; its handle must be live.
    pub fn entity_name(&self, i: usize) -> (name: &String)
        requires
            self@.wf(),
            i < self@.entities.len(),
            self@.live(i as int),
        ensures
            name@ == self@.entities[i as int].name,
    {
        &self.entities[i].name
    }

    /// The namespace of entity `i`; its handle must be live.
    pub fn entity_namespace(&self, i: usize) -> (namespace: &String)
        requires
            self@.wf(),
            i < self@.entities.len(),
            self@.live(i as int),
        ensures
            namespace@ == self@.entities[i as int].namespace,
    {
        &self.entities[i].namespace
    }

    /// The runtime type tags of entity `i`; its handle must be live.
    pub fn entity_tags(&self, i: usize) -> (tags: TypeTags)
        requires
            self@.wf(),
            i < self@.entities.len(),
            self@.live(i as int),
        ensures
            tags == self@.entities[i as int].tags,
    {
        self.entities[i].tags
    }

    /// The method count of entity `i`; its handle must be live.
    pub fn method_count(&self, i: usize) -> (n: usize)
        requires
            self@.wf(),
            i < self@.entities.len(),
            self@.live(i as int),
        ensures
            n as nat == self@.entities[i as int].n_methods,
    {
        self.entities[i].n_methods
    }

    /// The number of formal parameters of entity `i`; its handle must be
    /// live.
    pub fn arg_count(&self, i: usize) -> (n: usize)
        requires
            self@.wf(),
            i < self@.entities.len(),
            self@.live(i as int),
        ensures
            n == self@.entities[i as int].args.len(),
    {
        self.entities[i].args.len()
    }

    /// The name of formal parameter `j` of entity `i`, in declared order;
    /// the entity's handle must be live.
    pub fn arg_name(&self, i: usize, j: usize) -> (name: &String)
        requires
            self@.wf(),
            i < self@.entities.len(),
            self@.live(i as int),
            j < self@.entities[i as int].args.len(),
        ensures
            name@ == self@.entities[i as int].args[j as int],
    {
        &self.entities[i].args[j]
    }

    /// The number of times the handle of entity `i` has been acquired.
    pub fn acquire_count(&self, i: usize) -> (n: usize)
        requires
            self@.wf(),
            i < self@.entities.len(),
        ensures
            n as nat == self@.acquires[i as int],
    {
        self.acquires[i]
    }

    /// The number of times the handle of entity `i` has been released.
    pub fn release_count(&self, i: usize) -> (n: usize)
        requires
            self@.wf(),
            i < self@.entities.len(),
        ensures
            n as nat == self@.releases[i as int],
    {
        self.releases[i]
    }

    /// Whether every acquired handle has been released: the balance check a
    /// fixture repository runs after a full walk.
    pub fn is_balanced(&self) -> (b: bool)
        requires
            self@.wf(),
        ensures
            b == self@.balanced(),
    {
        let n = self.entities.len();
        let mut k: usize = 0;
        while k < n
            invariant
                self@.wf(),
                n == self@.entities.len(),
                k <= n,
                forall|i: int| 0 <= i < k ==> self@.acquires[i] == self@.releases[i],
            decreases n - k,
        {
            if self.acquires[k] != self.releases[k] {
                proof {
                    assert(self@.acquires[k as int] != self@.releases[k as int]);
                }
                return false;
            }
            k = k + 1;
        }
        true
    }
}

} // verus!
