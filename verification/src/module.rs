//! Modules: what the host knows of each one, and how it is built from a
//! manifest or from a registration.

use vstd::prelude::*;
use crate::ids::{is_v4_layout, new_module_id};
use crate::text::{concat2, owned};
use crate::error::{AppError, FileRead};

verus! {

#[verifier::external_type_specification]
#[verifier::external_body]
pub struct ExChild(tokio::process::Child);

/// A piece of user interface that a module offers.
#[derive(Debug)]
pub struct UiComponent {
    pub name: String,
    pub component_type: String,
    pub endpoint: String,
}

pub struct UiComponentView {
    pub name: Seq<char>,
    pub component_type: Seq<char>,
    pub endpoint: Seq<char>,
}

impl View for UiComponent {
    type V = UiComponentView;

    open spec fn view(&self) -> UiComponentView {
        UiComponentView {
            name: self.name@,
            component_type: self.component_type@,
            endpoint: self.endpoint@,
        }
    }
}

impl Clone for UiComponent {
    fn clone(&self) -> (res: Self)
        ensures
            res == *self,
    {
        UiComponent {
            name: self.name.clone(),
            component_type: self.component_type.clone(),
            endpoint: self.endpoint.clone(),
        }
    }
}

/// The texts of a list of strings.
pub open spec fn strings_view(v: Seq<String>) -> Seq<Seq<char>> {
    v.map_values(|s: String| s@)
}

/// The views of a list of interface components.
pub open spec fn components_view(v: Seq<UiComponent>) -> Seq<UiComponentView> {
    v.map_values(|c: UiComponent| c@)
}

/// The life-cycle state of a module.
#[derive(Debug, Clone, Copy, PartialEq, Eq, Structural)]
pub enum ModuleStatus {
    Starting,
    Running,
    Failed,
    Stopped,
}

/// What the host knows of a module. The id is the 128 bits of its UUID.
#[derive(Debug)]
pub struct ModuleInfo {
    pub id: u128,
    pub name: String,
    pub version: String,
    pub binary: String,
    pub capabilities: Vec<String>,
    pub ui_components: Vec<UiComponent>,
    pub status: ModuleStatus,
}

pub struct ModuleInfoView {
    pub id: u128,
    pub name: Seq<char>,
    pub version: Seq<char>,
    pub binary: Seq<char>,
    pub capabilities: Seq<Seq<char>>,
    pub ui_components: Seq<UiComponentView>,
    pub status: ModuleStatus,
}

impl View for ModuleInfo {
    type V = ModuleInfoView;

    open spec fn view(&self) -> ModuleInfoView {
        ModuleInfoView {
            id: self.id,
            name: self.name@,
            version: self.version@,
            binary: self.binary@,
            capabilities: strings_view(self.capabilities@),
            ui_components: components_view(self.ui_components@),
            status: self.status,
        }
    }
}

/// A copy of a list of strings, element for element.
pub fn clone_strings(v: &Vec<String>) -> (res: Vec<String>)
    ensures
        res@ == v@,
{
    let res = v.clone();
    assert(res@ =~= v@);
    res
}

/// A copy of a list of interface components, element for element.
pub fn clone_components(v: &Vec<UiComponent>) -> (res: Vec<UiComponent>)
    ensures
        res@ == v@,
{
    let res = v.clone();
    assert(res@ =~= v@);
    res
}

impl Clone for ModuleInfo {
    fn clone(&self) -> (res: Self)
        ensures
            res@ == self@,
    {
        ModuleInfo {
            id: self.id,
            name: self.name.clone(),
            version: self.version.clone(),
            binary: self.binary.clone(),
            capabilities: clone_strings(&self.capabilities),
            ui_components: clone_components(&self.ui_components),
            status: self.status,
        }
    }
}

/// A module: its description and, once it was started by the host, the
/// handle of its process.
pub struct Module {
    pub info: ModuleInfo,
    pub process: Option<tokio::process::Child>,
}

pub struct ModuleView {
    pub info: ModuleInfoView,
    pub has_process: bool,
}

impl View for Module {
    type V = ModuleView;

    open spec fn view(&self) -> ModuleView {
        ModuleView { info: self.info@, has_process: self.process is Some }
    }
}

impl Clone for Module {
    /// A copy of the description; the process handle is not copied.
    fn clone(&self) -> (res: Self)
        ensures
            res@ == (ModuleView { info: self@.info, has_process: false }),
    {
        Module { info: self.info.clone(), process: None }
    }
}

/// The description of a module that has just been found or announced: the
/// binary is named after the module, it offers nothing yet and is starting.
pub open spec fn fresh_info(id: u128, name: Seq<char>, version: Seq<char>) -> ModuleInfoView {
    ModuleInfoView {
        id,
        name,
        version,
        binary: name,
        capabilities: Seq::empty(),
        ui_components: Seq::empty(),
        status: ModuleStatus::Starting,
    }
}

impl Module {
    /// A fresh module with the given id.
    pub fn with_id(name: String, version: String, id: u128) -> (res: Module)
        ensures
            res@ == (ModuleView { info: fresh_info(id, name@, version@), has_process: false }),
    {
        let binary = name.clone();
        let res = Module {
            info: ModuleInfo {
                id,
                name,
                version,
                binary,
                capabilities: Vec::new(),
                ui_components: Vec::new(),
                status: ModuleStatus::Starting,
            },
            process: None,
        };
        assert(res@.info.capabilities =~= Seq::<Seq<char>>::empty());
        assert(res@.info.ui_components =~= Seq::<UiComponentView>::empty());
        res
    }

    /// A fresh module under a newly drawn random id.
    pub fn new(name: String, version: String) -> (res: Module)
        ensures
            is_v4_layout(res.info.id),
            res@ == (ModuleView { info: fresh_info(res.info.id, name@, version@), has_process: false }),
    {
        let id = new_module_id();
        Module::with_id(name, version, id)
    }
}


/// The contents of a module's `module.toml`: name and version, and
/// optionally the binary, the capabilities and the interface components.
#[derive(Debug)]
pub struct ModuleSpec {
    pub name: String,
    pub version: String,
    pub binary: Option<String>,
    pub capabilities: Option<Vec<String>>,
    pub ui_components: Option<Vec<UiComponent>>,
}

/// The module that a manifest describes, under `id`: the binary defaults to
/// the module's name, the lists default to empty; it is starting and has no
/// process.
pub open spec fn manifest_module(spec: ModuleSpec, id: u128) -> ModuleView {
    ModuleView {
        info: ModuleInfoView {
            id,
            name: spec.name@,
            version: spec.version@,
            binary: match spec.binary {
                Some(b) => b@,
                None => spec.name@,
            },
            capabilities: match spec.capabilities {
                Some(c) => strings_view(c@),
                None => Seq::empty(),
            },
            ui_components: match spec.ui_components {
                Some(u) => components_view(u@),
                None => Seq::empty(),
            },
            status: ModuleStatus::Starting,
        },
        has_process: false,
    }
}

/// How a module's binary is started: the binary's path below the module's
/// directory, and the environment it is given.
#[derive(Debug)]
pub struct LaunchPlan {
    pub binary: String,
    pub env: Vec<(String, String)>,
}

impl Module {
    /// The module that a manifest describes, under the id `id`.
    pub fn from_spec_with_id(spec: ModuleSpec, id: u128) -> (res: Module)
        ensures
            res@ == manifest_module(spec, id),
            res.info.id == id,
            res.info.name@ == spec.name@,
            res.info.version@ == spec.version@,
            spec.binary matches Some(b) ==> res.info.binary@ == b@,
            spec.binary is None ==> res.info.binary@ == spec.name@,
            spec.capabilities matches Some(c) ==> res.info.capabilities@ == c@,
            spec.capabilities is None ==> res.info.capabilities@.len() == 0,
            spec.ui_components matches Some(u) ==> res.info.ui_components@ == u@,
            spec.ui_components is None ==> res.info.ui_components@.len() == 0,
            res.info.status == ModuleStatus::Starting,
            res.process is None,
    {
        let ghost sp = spec;
        let binary = match spec.binary {
            Some(b) => b,
            None => spec.name.clone(),
        };
        let capabilities = match spec.capabilities {
            Some(c) => c,
            None => Vec::new(),
        };
        let ui_components = match spec.ui_components {
            Some(u) => u,
            None => Vec::new(),
        };
        let res = Module {
            info: ModuleInfo {
                id,
                name: spec.name,
                version: spec.version,
                binary,
                capabilities,
                ui_components,
                status: ModuleStatus::Starting,
            },
            process: None,
        };
        assert(res@.info.capabilities =~= manifest_module(sp, id).info.capabilities);
        assert(res@.info.ui_components =~= manifest_module(sp, id).info.ui_components);
        res
    }

    /// The module that a manifest read under the id `id` gives, or why there
    /// is none.
    pub fn from_manifest_with_id(read: FileRead<ModuleSpec>, id: u128) -> (res: Result<Module, AppError>)
        ensures
            match read {
                FileRead::Missing => res matches Err(AppError::Module(e)) && e@ == "module.toml not found"@,
                FileRead::Unreadable(why) => res matches Err(AppError::Io(e)) && e@ == why@,
                FileRead::Malformed(why) => res matches Err(AppError::Module(e))
                    && e@ == "toml parse error: "@ + why@,
                FileRead::Parsed(spec) => res matches Ok(m) && m@ == manifest_module(spec, id)
                    && m.info.id == id && m.info.name@ == spec.name@ && m.info.version@ == spec.version@,
            },
    {
        match read {
            FileRead::Missing => Err(AppError::Module(owned("module.toml not found"))),
            FileRead::Unreadable(why) => Err(AppError::Io(why)),
            FileRead::Malformed(why) => Err(AppError::Module(concat2("toml parse error: ", why.as_str()))),
            FileRead::Parsed(spec) => Ok(Module::from_spec_with_id(spec, id)),
        }
    }

    /// The module that a manifest read gives, under a fresh random id, or
    /// why there is none.
    pub fn from_manifest(read: FileRead<ModuleSpec>) -> (res: Result<Module, AppError>)
        ensures
            match read {
                FileRead::Missing => res matches Err(AppError::Module(e)) && e@ == "module.toml not found"@,
                FileRead::Unreadable(why) => res matches Err(AppError::Io(e)) && e@ == why@,
                FileRead::Malformed(why) => res matches Err(AppError::Module(e))
                    && e@ == "toml parse error: "@ + why@,
                FileRead::Parsed(spec) => res matches Ok(m) && is_v4_layout(m.info.id)
                    && m@ == manifest_module(spec, m.info.id),
            },
    {
        let id = new_module_id();
        Module::from_manifest_with_id(read, id)
    }

    /// How the module's binary is started: `target/release/<binary>` below
    /// its directory, told the host's socket and its own name.
    pub fn launch_plan(&self) -> (res: LaunchPlan)
        ensures
            res.binary@ == "target/release/"@ + self.info.binary@,
            res.env@.len() == 2,
            res.env@[0].0@ == "ALPEE_SOCKET"@,
            res.env@[0].1@ == "/tmp/alpee-core.sock"@,
            res.env@[1].0@ == "ALPEE_MODULE_NAME"@,
            res.env@[1].1@ == self.info.name@,
    {
        let mut env: Vec<(String, String)> = Vec::new();
        env.push((owned("ALPEE_SOCKET"), owned("/tmp/alpee-core.sock")));
        env.push((owned("ALPEE_MODULE_NAME"), self.info.name.clone()));
        LaunchPlan { binary: concat2("target/release/", self.info.binary.as_str()), env }
    }
}


/// The module a manifest describes carries the manifest's own id, name and
/// version; its binary is the manifest's, or else the name; its lists are the
/// manifest's, or else empty; it is starting and has no process.
pub proof fn lemma_manifest_module_fields(spec: ModuleSpec, id: u128)
    ensures
        ({
            let m = manifest_module(spec, id);
            &&& m.info.id == id
            &&& m.info.name == spec.name@
            &&& m.info.version == spec.version@
            &&& m.info.binary == (if spec.binary is Some { spec.binary.unwrap()@ } else { spec.name@ })
            &&& spec.capabilities is None ==> m.info.capabilities.len() == 0
            &&& spec.capabilities matches Some(c) ==> m.info.capabilities.len() == c@.len()
                && forall|i: int| 0 <= i < c@.len() ==> #[trigger] m.info.capabilities[i] == c@[i]@
            &&& spec.ui_components is None ==> m.info.ui_components.len() == 0
            &&& spec.ui_components matches Some(u) ==> m.info.ui_components.len() == u@.len()
                && forall|i: int| 0 <= i < u@.len() ==> #[trigger] m.info.ui_components[i] == u@[i]@
            &&& m.info.status == ModuleStatus::Starting
            &&& !m.has_process
        }),
{
}

} // verus!
