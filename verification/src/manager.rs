//! The module manager: the registry together with the directory that modules
//! are loaded from, and the rules by which modules join and change state.

use vstd::prelude::*;
use crate::module::{
    Module, ModuleInfoView, ModuleStatus, ModuleView, clone_components, clone_strings, fresh_info,
};
use crate::protocol::{RegisterRequest, RegisterRequestView};
use crate::registry::{ModuleRegistry, RegistryModel};
use crate::ids::{is_v4_layout, new_module_id};
use crate::text::owned;
use crate::error::AppError;

verus! {

/// A registered module brought up to date by a new registration: it takes
/// the version and offer of the request and is running again; its id, name,
/// binary and process stay.
pub open spec fn refreshed(m: ModuleView, req: RegisterRequestView) -> ModuleView {
    ModuleView {
        info: ModuleInfoView {
            id: m.info.id,
            name: m.info.name,
            version: req.version,
            binary: m.info.binary,
            capabilities: req.capabilities,
            ui_components: req.ui_components,
            status: ModuleStatus::Running,
        },
        has_process: m.has_process,
    }
}

/// The module that a registration of an unknown name creates under `id`:
/// its binary is named after it, it has no process and is running.
pub open spec fn announced(req: RegisterRequestView, id: u128) -> ModuleView {
    ModuleView {
        info: ModuleInfoView {
            id,
            name: req.name,
            version: req.version,
            binary: req.name,
            capabilities: req.capabilities,
            ui_components: req.ui_components,
            status: ModuleStatus::Running,
        },
        has_process: false,
    }
}

/// A module with another status.
pub open spec fn with_status(m: ModuleView, status: ModuleStatus) -> ModuleView {
    ModuleView { info: ModuleInfoView { status, ..m.info }, has_process: m.has_process }
}

/// The manager seen as its registry and its modules directory.
pub struct ManagerModel {
    pub registry: RegistryModel,
    pub modules_dir: Seq<char>,
}

impl ManagerModel {
    /// A registration: a known name is refreshed in place, an unknown one
    /// creates a module under `id`.
    pub open spec fn register_or_update(self, req: RegisterRequestView, id: u128) -> ManagerModel {
        match self.registry.lookup(req.name) {
            Some(m) => ManagerModel {
                registry: self.registry.replace(self.registry.names[req.name], refreshed(m, req)),
                ..self
            },
            None => ManagerModel { registry: self.registry.register(announced(req, id)), ..self },
        }
    }

    /// The module of that name, if any, takes the status; nothing else changes.
    pub open spec fn set_status(self, name: Seq<char>, status: ModuleStatus) -> ManagerModel {
        match self.registry.lookup(name) {
            Some(m) => ManagerModel {
                registry: self.registry.replace(self.registry.names[name], with_status(m, status)),
                ..self
            },
            None => self,
        }
    }

    /// A module found while loading, with the status that its start gave it,
    /// joins the registry.
    pub open spec fn enroll(self, m: ModuleView, started: bool) -> ManagerModel {
        ManagerModel {
            registry: self.registry.register(
                with_status(m, if started { ModuleStatus::Running } else { ModuleStatus::Failed }),
            ),
            ..self
        }
    }
}

/// The registry of modules and the directory that they are loaded from.
pub struct ModuleManager {
    registry: ModuleRegistry,
    modules_dir: String,
}

impl View for ModuleManager {
    type V = ManagerModel;

    closed spec fn view(&self) -> ManagerModel {
        ManagerModel { registry: self.registry@, modules_dir: self.modules_dir@ }
    }
}

impl ModuleManager {
    #[verifier::type_invariant]
    spec fn inv(self) -> bool {
        self.registry@.wf()
    }

    /// A manager with no modules that loads from `modules_dir`.
    pub fn new(modules_dir: String) -> (res: Self)
        ensures
            res@ == (ManagerModel { registry: RegistryModel::empty(), modules_dir: modules_dir@ }),
            res@.registry.wf(),
    {
        ModuleManager { registry: ModuleRegistry::new(), modules_dir }
    }

    /// The directory that modules are loaded from.
    pub fn modules_dir(&self) -> (res: &str)
        ensures
            res@ == self@.modules_dir,
    {
        self.modules_dir.as_str()
    }

    /// Every module, each once, in the order in which the registry is walked.
    pub fn list_modules(&self) -> (res: Vec<&Module>)
        ensures
            res@.len() == self@.registry.modules.dom().len(),
            forall|i: int| 0 <= i < res@.len() ==> self@.registry.modules.contains_key(#[trigger] res@[i].info.id),
            forall|i: int| 0 <= i < res@.len() ==> self@.registry.modules[#[trigger] res@[i].info.id] == res@[i]@,
            forall|k: u128| #[trigger] self@.registry.modules.contains_key(k) ==>
                exists|i: int| 0 <= i < res@.len() && #[trigger] res@[i].info.id == k,
    {
        proof { use_type_invariant(self); }
        let res = self.registry.list_all();
        res
    }

    /// A registration, where a module of a new name would get the id `id`.
    pub fn register_or_update_with_id(&mut self, req: &RegisterRequest, id: u128)
        ensures
            final(self)@ == old(self)@.register_or_update(req@, id),
            old(self)@.registry.wf(),
            final(self)@.registry.wf(),
            forall|k: u128| #[trigger] old(self)@.registry.modules.contains_key(k)
                && k != (if old(self)@.registry.names.contains_key(req.name@) {
                    old(self)@.registry.names[req.name@]
                } else {
                    id
                })
                ==> final(self)@.registry.modules.contains_key(k)
                    && final(self)@.registry.modules[k] == old(self)@.registry.modules[k],
            final(self)@.registry.lookup(req.name@) matches Some(a) && {
                &&& a.info.version == req.version@
                &&& a.info.capabilities == req@.capabilities
                &&& a.info.ui_components == req@.ui_components
                &&& a.info.status == ModuleStatus::Running
                &&& old(self)@.registry.names.contains_key(req.name@) ==> {
                    let b = old(self)@.registry.modules[old(self)@.registry.names[req.name@]];
                    &&& a.info.id == b.info.id
                    &&& a.info.name == b.info.name
                    &&& a.info.binary == b.info.binary
                    &&& a.has_process == b.has_process
                }
                &&& !old(self)@.registry.names.contains_key(req.name@) ==> {
                    &&& a.info.id == id
                    &&& a.info.name == req.name@
                    &&& a.info.binary == req.name@
                    &&& !a.has_process
                }
            },
    {
        proof {
            use_type_invariant(&*self);
            lemma_registration_changes_only_that_module(self@, req@, id);
        }
        let mut registry = ModuleRegistry::new();
        std::mem::swap(&mut registry, &mut self.registry);
        if let Some(module) = registry.get_mut_by_name(&req.name) {
            module.info.version = req.version.clone();
            module.info.capabilities = clone_strings(&req.capabilities);
            module.info.ui_components = clone_components(&req.ui_components);
            module.info.status = ModuleStatus::Running;
        } else {
            let mut module = Module::with_id(req.name.clone(), req.version.clone(), id);
            module.info.capabilities = clone_strings(&req.capabilities);
            module.info.ui_components = clone_components(&req.ui_components);
            module.info.status = ModuleStatus::Running;
            registry.register(module);
        }
        self.registry = registry;
    }

    /// A registration; a module of a new name gets a fresh random id.
    pub fn register_or_update(&mut self, req: &RegisterRequest)
        ensures
            exists|id: u128| is_v4_layout(id) && final(self)@ == #[trigger] old(self)@.register_or_update(req@, id),
            final(self)@.registry.wf(),
            old(self)@.registry.names.contains_key(req.name@) ==> forall|k: u128|
                #[trigger] old(self)@.registry.modules.contains_key(k) && k != old(self)@.registry.names[req.name@]
                ==> final(self)@.registry.modules[k] == old(self)@.registry.modules[k],
            final(self)@.registry.lookup(req.name@) matches Some(a) && {
                &&& a.info.version == req.version@
                &&& a.info.capabilities == req@.capabilities
                &&& a.info.ui_components == req@.ui_components
                &&& a.info.status == ModuleStatus::Running
            },
    {
        let id = new_module_id();
        self.register_or_update_with_id(req, id);
    }

    /// The module of that name, if any, takes the status.
    pub fn set_status(&mut self, name: &str, status: ModuleStatus)
        ensures
            final(self)@ == old(self)@.set_status(name@, status),
            final(self)@.registry.wf(),
            final(self)@.registry.names == old(self)@.registry.names,
            final(self)@.registry.modules.dom() == old(self)@.registry.modules.dom(),
            forall|k: u128| #[trigger] old(self)@.registry.modules.contains_key(k)
                && !(old(self)@.registry.names.contains_key(name@) && k == old(self)@.registry.names[name@])
                ==> final(self)@.registry.modules[k] == old(self)@.registry.modules[k],
            old(self)@.registry.lookup(name@) matches Some(b) ==> final(self)@.registry.lookup(name@) matches Some(a) && {
                &&& a.info.status == status
                &&& a.info.id == b.info.id
                &&& a.info.name == b.info.name
                &&& a.info.version == b.info.version
                &&& a.info.binary == b.info.binary
                &&& a.info.capabilities == b.info.capabilities
                &&& a.info.ui_components == b.info.ui_components
                &&& a.has_process == b.has_process
            },
            old(self)@.registry.lookup(name@) is None ==> final(self)@ == old(self)@,
    {
        proof {
            use_type_invariant(&*self);
            lemma_set_status_changes_only_that_module(self@, name@, status);
        }
        let mut registry = ModuleRegistry::new();
        std::mem::swap(&mut registry, &mut self.registry);
        if let Some(module) = registry.get_mut_by_name(name) {
            module.info.status = status;
        }
        self.registry = registry;
    }

    /// A module found while loading joins the registry: running when its
    /// start went through, failed otherwise.
    pub fn enroll(&mut self, module: Module, started: bool)
        ensures
            final(self)@ == old(self)@.enroll(module@, started),
            final(self)@.registry.wf(),
            final(self)@.registry.lookup(module.info.name@) matches Some(x) && {
                &&& x.info.id == module.info.id
                &&& x.info.name == module.info.name@
                &&& x.info.version == module.info.version@
                &&& x.info.binary == module.info.binary@
                &&& x.info.capabilities == module@.info.capabilities
                &&& x.info.ui_components == module@.info.ui_components
                &&& x.has_process == (module.process is Some)
                &&& x.info.status == (if started { ModuleStatus::Running } else { ModuleStatus::Failed })
            },
            forall|k: u128| #[trigger] old(self)@.registry.modules.contains_key(k) && k != module.info.id
                ==> final(self)@.registry.modules[k] == old(self)@.registry.modules[k],
    {
        proof {
            use_type_invariant(&*self);
            lemma_enroll_changes_only_status(self@, module@, started);
        }
        let mut module = module;
        module.info.status = if started { ModuleStatus::Running } else { ModuleStatus::Failed };
        let mut registry = ModuleRegistry::new();
        std::mem::swap(&mut registry, &mut self.registry);
        registry.register(module);
        self.registry = registry;
    }

    /// The first module, in the order in which the registry is walked, that
    /// carries the name `name`.
    pub fn find_listed(&self, name: &str) -> (res: Option<&Module>)
        ensures
            match res {
                Some(m) => {
                    &&& self@.registry.modules.contains_key(m.info.id)
                    &&& self@.registry.modules[m.info.id] == m@
                    &&& m.info.name@ == name@
                },
                None => forall|k: u128| #[trigger] self@.registry.modules.contains_key(k)
                    ==> self@.registry.modules[k].info.name != name@,
            },
    {
        let listed = self.list_modules();
        let wanted = owned(name);
        let mut i: usize = 0;
        while i < listed.len()
            invariant
                0 <= i <= listed@.len(),
                wanted@ == name@,
                forall|j: int| 0 <= j < listed@.len() ==> self@.registry.modules.contains_key(#[trigger] listed@[j].info.id),
                forall|j: int| 0 <= j < listed@.len() ==> self@.registry.modules[#[trigger] listed@[j].info.id] == listed@[j]@,
                forall|j: int| 0 <= j < i ==> (#[trigger] listed@[j]).info.name@ != name@,
            decreases listed@.len() - i,
        {
            if listed[i].info.name == wanted {
                return Some(listed[i]);
            }
            i = i + 1;
        }
        proof {
            assert forall|k: u128| #[trigger] self@.registry.modules.contains_key(k)
                implies self@.registry.modules[k].info.name != name@ by {
                let j = choose|j: int| 0 <= j < listed@.len() && #[trigger] listed@[j].info.id == k;
                assert(listed@[j].info.name@ != name@);
            }
        }
        None
    }

    /// The name that a directory found while loading gives its module: the
    /// directory's name where it is valid text, `unknown` otherwise.
    pub fn module_name_for(dir_name: Option<String>) -> (res: String)
        ensures
            res@ == match dir_name {
                Some(n) => n@,
                None => "unknown"@,
            },
    {
        match dir_name {
            Some(n) => n,
            None => owned("unknown"),
        }
    }

    /// The module that loading a directory gives: the one its manifest
    /// describes, or, where the manifest gave none, a fresh module of the
    /// directory's name at version `0.1.0` under a fresh random id.
    pub fn module_or_default(name: String, loaded: Result<Module, AppError>) -> (res: Module)
        ensures
            match loaded {
                Ok(m) => res@ == m@,
                Err(_) => is_v4_layout(res.info.id) && res@ == (ModuleView {
                    info: fresh_info(res.info.id, name@, "0.1.0"@),
                    has_process: false,
                }),
            },
    {
        match loaded {
            Ok(m) => m,
            Err(_) => Module::new(name, owned("0.1.0")),
        }
    }
}


/// After a registration, the name of the request leads to a running module
/// with the version, capabilities and interface components of the request.
pub proof fn lemma_registration_visible(mm: ManagerModel, req: RegisterRequestView, id: u128)
    requires
        mm.registry.wf(),
    ensures
        mm.register_or_update(req, id).registry.lookup(req.name) matches Some(m) && {
            &&& m.info.version == req.version
            &&& m.info.capabilities == req.capabilities
            &&& m.info.ui_components == req.ui_components
            &&& m.info.status == ModuleStatus::Running
        },
{
}

/// Registering a name that is already known refreshes its module in place:
/// the id, binary and process stay, and no module is added.
pub proof fn lemma_reregistration_in_place(mm: ManagerModel, req: RegisterRequestView, id: u128)
    requires
        mm.registry.wf(),
        mm.registry.lookup(req.name) is Some,
    ensures
        ({
            let before = mm.registry.lookup(req.name).unwrap();
            let after = mm.register_or_update(req, id).registry;
            &&& after.lookup(req.name) == Some(refreshed(before, req))
            &&& after.lookup(req.name).unwrap().info.id == before.info.id
            &&& after.lookup(req.name).unwrap().info.binary == before.info.binary
            &&& after.modules.dom() == mm.registry.modules.dom()
            &&& after.names == mm.registry.names
        }),
{
    let after = mm.register_or_update(req, id).registry;
    assert(after.modules.dom() =~= mm.registry.modules.dom());
}

/// Registering an unknown name under an id not yet in use adds exactly one
/// module, under that id, whose binary is named after it.
pub proof fn lemma_first_registration_adds(mm: ManagerModel, req: RegisterRequestView, id: u128)
    requires
        mm.registry.wf(),
        mm.registry.lookup(req.name) is None,
        !mm.registry.modules.contains_key(id),
    ensures
        ({
            let after = mm.register_or_update(req, id).registry;
            &&& after.lookup(req.name) == Some(announced(req, id))
            &&& after.modules.dom().len() == mm.registry.modules.dom().len() + 1
        }),
{
}

/// Registering the same request twice is registering it once, whatever id
/// the second registration would have used.
pub proof fn lemma_registration_idempotent(mm: ManagerModel, req: RegisterRequestView, id1: u128, id2: u128)
    requires
        mm.registry.wf(),
    ensures
        mm.register_or_update(req, id1).register_or_update(req, id2) == mm.register_or_update(req, id1),
{
    let once = mm.register_or_update(req, id1);
    let twice = once.register_or_update(req, id2);
    match mm.registry.lookup(req.name) {
        Some(m) => {
            assert(twice.registry.modules =~= once.registry.modules);
        },
        None => {
            assert(twice.registry.modules =~= once.registry.modules);
        },
    }
}

/// Setting the status of a registered name changes that module's status and
/// nothing else; setting that of an unknown name changes nothing.
pub proof fn lemma_set_status(mm: ManagerModel, name: Seq<char>, status: ModuleStatus)
    requires
        mm.registry.wf(),
    ensures
        ({
            let after = mm.set_status(name, status);
            &&& after.registry.names == mm.registry.names
            &&& after.registry.modules.dom() == mm.registry.modules.dom()
            &&& after.modules_dir == mm.modules_dir
            &&& match mm.registry.lookup(name) {
                Some(m) => after.registry.lookup(name) == Some(with_status(m, status)),
                None => after == mm,
            }
        }),
{
    let after = mm.set_status(name, status);
    assert(after.registry.modules.dom() =~= mm.registry.modules.dom());
}

/// A module that was stopped runs again once it registers again.
pub proof fn lemma_reconnect_runs_again(mm: ManagerModel, req: RegisterRequestView, id: u128)
    requires
        mm.registry.wf(),
    ensures
        mm.set_status(req.name, ModuleStatus::Stopped).register_or_update(req, id).registry.lookup(req.name)
            matches Some(m) && m.info.status == ModuleStatus::Running,
{
}


/// A module that registered and whose connection then closed is known as
/// stopped.
pub proof fn lemma_close_after_registration_stops(mm: ManagerModel, req: RegisterRequestView, id: u128)
    requires
        mm.registry.wf(),
    ensures
        mm.register_or_update(req, id).set_status(req.name, ModuleStatus::Stopped).registry.lookup(req.name)
            matches Some(m) && m.info.status == ModuleStatus::Stopped,
{
}


/// Registrations under ids not yet in use and status changes keep every
/// name leading to a module of that name.
pub proof fn lemma_names_stay_consistent(mm: ManagerModel, req: RegisterRequestView, id: u128, name: Seq<char>, status: ModuleStatus)
    requires
        mm.registry.wf(),
        mm.registry.names_consistent(),
        !mm.registry.modules.contains_key(id),
    ensures
        mm.register_or_update(req, id).registry.names_consistent(),
        mm.set_status(name, status).registry.names_consistent(),
{
    if mm.registry.lookup(req.name) is None {
        crate::registry::lemma_register_fresh_keeps_names(mm.registry, announced(req, id));
    }
}


/// Enrolling a module changes only its status, to running when its start
/// went through and to failed otherwise: its name then leads to it with the
/// id, name, version, binary, capabilities, interface components and process
/// it came with, and every other module stays as it was.
pub proof fn lemma_enroll_changes_only_status(mm: ManagerModel, m: ModuleView, started: bool)
    requires
        mm.registry.wf(),
    ensures
        ({
            let before = mm.registry;
            let after = mm.enroll(m, started).registry;
            &&& after.lookup(m.info.name) matches Some(x) && {
                &&& x.info.id == m.info.id
                &&& x.info.name == m.info.name
                &&& x.info.version == m.info.version
                &&& x.info.binary == m.info.binary
                &&& x.info.capabilities == m.info.capabilities
                &&& x.info.ui_components == m.info.ui_components
                &&& x.has_process == m.has_process
                &&& x.info.status == (if started { ModuleStatus::Running } else { ModuleStatus::Failed })
            }
            &&& after.modules.dom() == before.modules.dom().insert(m.info.id)
            &&& forall|k: u128| #[trigger] before.modules.contains_key(k) && k != m.info.id
                ==> after.modules[k] == before.modules[k]
            &&& forall|n: Seq<char>| n != m.info.name ==> #[trigger] after.names.get(n) == before.names.get(n)
        }),
{
    let after = mm.enroll(m, started).registry;
    assert(after.modules.dom() =~= mm.registry.modules.dom().insert(m.info.id));
}

/// Setting the status of a name changes the status of the module it leads
/// to and nothing else: that module keeps its id, name, version, binary,
/// offer and process, every other module stays as it was, and the names are
/// unchanged; an unknown name changes nothing.
pub proof fn lemma_set_status_changes_only_that_module(mm: ManagerModel, name: Seq<char>, status: ModuleStatus)
    requires
        mm.registry.wf(),
    ensures
        ({
            let before = mm.registry;
            let after = mm.set_status(name, status).registry;
            &&& after.names == before.names
            &&& after.modules.dom() == before.modules.dom()
            &&& forall|k: u128| #[trigger] before.modules.contains_key(k)
                && !(before.names.contains_key(name) && k == before.names[name])
                ==> after.modules[k] == before.modules[k]
            &&& before.lookup(name) matches Some(b) ==> after.lookup(name) matches Some(a) && {
                &&& a.info.status == status
                &&& a.info.id == b.info.id
                &&& a.info.name == b.info.name
                &&& a.info.version == b.info.version
                &&& a.info.binary == b.info.binary
                &&& a.info.capabilities == b.info.capabilities
                &&& a.info.ui_components == b.info.ui_components
                &&& a.has_process == b.has_process
            }
            &&& before.lookup(name) is None ==> after == before
        }),
{
    let after = mm.set_status(name, status).registry;
    assert(after.modules.dom() =~= mm.registry.modules.dom());
}

/// A registration touches only the module that the request's name leads
/// to, or, for an unknown name, the one it adds under `id`: every other module
/// stays as it was. The name then leads to a running module with the
/// request's version and offer; a known module keeps its id, name, binary and
/// process, a new one has the id `id`, the request's name as name and binary,
/// and no process.
pub proof fn lemma_registration_changes_only_that_module(mm: ManagerModel, req: RegisterRequestView, id: u128)
    requires
        mm.registry.wf(),
    ensures
        ({
            let before = mm.registry;
            let after = mm.register_or_update(req, id).registry;
            let known = before.names.contains_key(req.name);
            let target = if known { before.names[req.name] } else { id };
            &&& forall|k: u128| #[trigger] before.modules.contains_key(k) && k != target
                ==> after.modules.contains_key(k) && after.modules[k] == before.modules[k]
            &&& after.modules.dom() == before.modules.dom().insert(target)
            &&& forall|n: Seq<char>| n != req.name ==> #[trigger] after.names.get(n) == before.names.get(n)
            &&& after.lookup(req.name) matches Some(a) && {
                &&& a.info.version == req.version
                &&& a.info.capabilities == req.capabilities
                &&& a.info.ui_components == req.ui_components
                &&& a.info.status == ModuleStatus::Running
                &&& known ==> {
                    let b = before.modules[before.names[req.name]];
                    &&& a.info.id == b.info.id
                    &&& a.info.name == b.info.name
                    &&& a.info.binary == b.info.binary
                    &&& a.has_process == b.has_process
                }
                &&& !known ==> {
                    &&& a.info.id == id
                    &&& a.info.name == req.name
                    &&& a.info.binary == req.name
                    &&& !a.has_process
                }
            }
        }),
{
    let before = mm.registry;
    let after = mm.register_or_update(req, id).registry;
    let known = before.names.contains_key(req.name);
    if known {
        assert(before.modules.contains_key(before.names[req.name]));
    }
    let target = if known { before.names[req.name] } else { id };
    assert(after.modules.dom() =~= before.modules.dom().insert(target));
}

} // verus!
