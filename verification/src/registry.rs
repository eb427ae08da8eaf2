//! The registry of modules: modules by id, and an index from names to ids.

use vstd::prelude::*;
use vstd::hash_map::StringHashMap;
use std::collections::HashMap;
use std::collections::hash_map::Entry;
use vstd::std_specs::hash::spec_values_iter;
use vstd::std_specs::iter::IteratorSpec;
use crate::module::{Module, ModuleView};

verus! {

broadcast use vstd::std_specs::hash::group_hash_axioms;

/// The registry seen as two maps: the modules by id, and the id that each
/// name was last registered under.
pub struct RegistryModel {
    pub modules: Map<u128, ModuleView>,
    pub names: Map<Seq<char>, u128>,
}

impl RegistryModel {
    /// The empty registry.
    pub open spec fn empty() -> RegistryModel {
        RegistryModel { modules: Map::empty(), names: Map::empty() }
    }

    /// Each module is kept under its own id, and each name leads to a module.
    pub open spec fn wf(self) -> bool {
        &&& self.modules.dom().finite()
        &&& forall|k: u128| #[trigger] self.modules.contains_key(k) ==> self.modules[k].info.id == k
        &&& forall|n: Seq<char>| #[trigger] self.names.contains_key(n) ==> self.modules.contains_key(self.names[n])
    }

    /// Each name leads to a module of that name.
    pub open spec fn names_consistent(self) -> bool {
        forall|n: Seq<char>| #[trigger] self.names.contains_key(n) ==> self.modules[self.names[n]].info.name == n
    }

    /// Registers `m`: it is kept under its id, and its name now leads to it.
    pub open spec fn register(self, m: ModuleView) -> RegistryModel {
        RegistryModel {
            modules: self.modules.insert(m.info.id, m),
            names: self.names.insert(m.info.name, m.info.id),
        }
    }

    /// The module that `name` leads to, if any.
    pub open spec fn lookup(self, name: Seq<char>) -> Option<ModuleView> {
        if self.names.contains_key(name) && self.modules.contains_key(self.names[name]) {
            Some(self.modules[self.names[name]])
        } else {
            None
        }
    }

    /// The registry with the module under `id` replaced by `m`.
    pub open spec fn replace(self, id: u128, m: ModuleView) -> RegistryModel {
        RegistryModel { modules: self.modules.insert(id, m), names: self.names }
    }
}

/// The descriptions of the modules of a map of modules.
pub open spec fn modules_view(m: Map<u128, Module>) -> Map<u128, ModuleView> {
    m.map_values(|x: Module| x@)
}

/// Storing a module and then taking the descriptions is taking the
/// descriptions and then storing that of the module.
pub broadcast proof fn lemma_modules_view_insert(m: Map<u128, Module>, k: u128, v: Module)
    ensures
        #[trigger] modules_view(m.insert(k, v)) == modules_view(m).insert(k, v@),
{
    assert(modules_view(m.insert(k, v)) =~= modules_view(m).insert(k, v@));
}

/// The modules known to the host, by id and by name.
pub struct ModuleRegistry {
    modules: HashMap<u128, Module>,
    name_index: StringHashMap<u128>,
}

impl View for ModuleRegistry {
    type V = RegistryModel;

    closed spec fn view(&self) -> RegistryModel {
        RegistryModel {
            modules: modules_view(self.modules@),
            names: self.name_index@,
        }
    }
}

impl ModuleRegistry {
    /// An empty registry.
    pub fn new() -> (res: Self)
        ensures
            res@ == RegistryModel::empty(),
            res@.wf(),
    {
        let res = ModuleRegistry { modules: HashMap::new(), name_index: StringHashMap::new() };
        assert(res@.modules =~= Map::<u128, ModuleView>::empty());
        res
    }

    /// Registers `module` under its id, and points its name at it.
    pub fn register(&mut self, module: Module)
        ensures
            final(self)@ == old(self)@.register(module@),
            old(self)@.wf() ==> final(self)@.wf(),
            final(self)@.modules.contains_key(module.info.id) && final(self)@.modules[module.info.id] == module@,
            final(self)@.names.contains_key(module.info.name@) && final(self)@.names[module.info.name@] == module.info.id,
            forall|k: u128| k != module.info.id ==> #[trigger] final(self)@.modules.get(k) == old(self)@.modules.get(k),
            forall|n: Seq<char>| n != module.info.name@ ==> #[trigger] final(self)@.names.get(n) == old(self)@.names.get(n),
    {
        let id = module.info.id;
        let ghost mv = module@;
        self.name_index.insert(module.info.name.clone(), id);
        self.modules.insert(id, module);
        assert(self@.modules =~= old(self)@.modules.insert(id, mv));
        proof {
            if old(self)@.wf() {
                lemma_register_keeps_wf(old(self)@, mv);
            }
        }
    }

    /// The module that `name` leads to, if any.
    pub fn get_by_name(&self, name: &str) -> (res: Option<&Module>)
        ensures
            match res {
                Some(m) => self@.lookup(name@) == Some(m@),
                None => self@.lookup(name@) is None,
            },
    {
        match self.name_index.get(name) {
            Some(id) => self.modules.get(id),
            None => None,
        }
    }

    /// The module that `name` leads to, for changing it in place. What the
    /// caller leaves behind the reference is what the registry then holds.
    pub fn get_mut_by_name(&mut self, name: &str) -> (res: Option<&mut Module>)
        requires
            old(self)@.wf(),
        ensures
            match res {
                Some(m) => {
                    &&& old(self)@.lookup(name@) == Some(m@)
                    &&& final(self)@ == old(self)@.replace(old(self)@.names[name@], final(m)@)
                },
                None => {
                    &&& old(self)@.lookup(name@) is None
                    &&& final(self)@ == old(self)@
                },
            },
    {
        broadcast use lemma_modules_view_insert;
        let id = match self.name_index.get(name) {
            Some(id) => *id,
            None => return None,
        };
        match self.modules.entry(id) {
            Entry::Occupied(e) => Some(e.into_mut()),
            Entry::Vacant(_) => None,
        }
    }

    /// Every module of the registry, each once, in the order in which the
    /// map of modules is walked.
    pub fn list_all(&self) -> (res: Vec<&Module>)
        requires
            self@.wf(),
        ensures
            res@.len() == self@.modules.dom().len(),
            forall|i: int| 0 <= i < res@.len() ==> self@.modules.contains_key(#[trigger] res@[i].info.id),
            forall|i: int| 0 <= i < res@.len() ==> self@.modules[#[trigger] res@[i].info.id] == res@[i]@,
            forall|k: u128| #[trigger] self@.modules.contains_key(k) ==>
                exists|i: int| 0 <= i < res@.len() && #[trigger] res@[i].info.id == k,
    {
        let ghost all = spec_values_iter(&self.modules).remaining();
        let mut res: Vec<&Module> = Vec::new();
        for m in it: self.modules.values()
            invariant
                it.seq() == all,
                res@ == it.seq().take(it.index()),
        {
            res.push(m);
        }
        proof {
            assert(res@ =~= all);
            assert(self@.modules.dom() =~= self.modules@.dom());
            assert(all.unref().to_set() == self.modules@.values());
            assert forall|i: int| 0 <= i < res@.len() implies self@.modules.contains_key(#[trigger] res@[i].info.id)
                && self@.modules[res@[i].info.id] == res@[i]@ by {
                assert(all.unref()[i] == *res@[i]);
                assert(all.unref().to_set().contains(*res@[i]));
                let k = choose|k: u128| self.modules@.contains_key(k) && self.modules@[k] == *res@[i];
                assert(self@.modules.contains_key(k));
            }
            assert forall|k: u128| #[trigger] self@.modules.contains_key(k) implies
                exists|i: int| 0 <= i < res@.len() && #[trigger] res@[i].info.id == k by {
                assert(self.modules@.values().contains(self.modules@[k]));
                assert(all.unref().to_set().contains(self.modules@[k]));
                let i = choose|i: int| 0 <= i < all.unref().len() && all.unref()[i] == self.modules@[k];
                assert(res@[i].info.id == k);
            }
        }
        res
    }
}


/// Registering a module keeps the registry well formed.
pub proof fn lemma_register_keeps_wf(r: RegistryModel, m: ModuleView)
    requires
        r.wf(),
    ensures
        r.register(m).wf(),
{
    let r2 = r.register(m);
    assert forall|n: Seq<char>| #[trigger] r2.names.contains_key(n) implies r2.modules.contains_key(r2.names[n]) by {
        if n != m.info.name {
            assert(r.names.contains_key(n));
        }
    }
}

/// After a module is registered, its name leads to it.
pub proof fn lemma_lookup_after_register(r: RegistryModel, m: ModuleView)
    ensures
        r.register(m).lookup(m.info.name) == Some(m),
{
}

/// Registering a module under an id not yet in use leaves what every other
/// name leads to as it was.
pub proof fn lemma_register_leaves_other_names(r: RegistryModel, m: ModuleView, name: Seq<char>)
    requires
        r.wf(),
        !r.modules.contains_key(m.info.id),
        name != m.info.name,
    ensures
        r.register(m).lookup(name) == r.lookup(name),
{
    if r.names.contains_key(name) {
        assert(r.modules.contains_key(r.names[name]));
    }
}

/// Registering a module under an id not yet in use adds exactly one module.
pub proof fn lemma_register_fresh_adds_one(r: RegistryModel, m: ModuleView)
    requires
        r.wf(),
        !r.modules.contains_key(m.info.id),
    ensures
        r.register(m).modules.dom().len() == r.modules.dom().len() + 1,
{
}


/// Registering a module under an id not yet in use keeps every name leading
/// to a module of that name.
pub proof fn lemma_register_fresh_keeps_names(r: RegistryModel, m: ModuleView)
    requires
        r.wf(),
        r.names_consistent(),
        !r.modules.contains_key(m.info.id),
    ensures
        r.register(m).names_consistent(),
{
    let r2 = r.register(m);
    assert forall|n: Seq<char>| #[trigger] r2.names.contains_key(n) implies r2.modules[r2.names[n]].info.name == n by {
        if n != m.info.name {
            assert(r.names.contains_key(n));
            assert(r.modules.contains_key(r.names[n]));
        }
    }
}


/// Registering a module stores it under its own id and points its own name
/// at it; every other id keeps its module and every other name keeps its
/// target.
pub proof fn lemma_register_touches_only_its_entries(r: RegistryModel, m: ModuleView)
    ensures
        ({
            let after = r.register(m);
            &&& after.modules.contains_key(m.info.id) && after.modules[m.info.id] == m
            &&& after.names.contains_key(m.info.name) && after.names[m.info.name] == m.info.id
            &&& forall|k: u128| k != m.info.id ==> #[trigger] after.modules.get(k) == r.modules.get(k)
            &&& forall|n: Seq<char>| n != m.info.name ==> #[trigger] after.names.get(n) == r.names.get(n)
        }),
{
}

} // verus!
