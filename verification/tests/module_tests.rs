use alpee_core::error::{AppError, FileRead};
use alpee_core::module::{Module, ModuleSpec, ModuleStatus, UiComponent};

#[test]
fn with_id_builds_a_starting_module_named_after_its_binary() {
    let m = Module::with_id("weather".to_string(), "0.1.0".to_string(), 5);
    assert_eq!(m.info.id, 5);
    assert_eq!(m.info.name, "weather");
    assert_eq!(m.info.binary, "weather");
    assert_eq!(m.info.version, "0.1.0");
    assert!(m.info.capabilities.is_empty());
    assert!(m.info.ui_components.is_empty());
    assert_eq!(m.info.status, ModuleStatus::Starting);
    assert!(m.process.is_none());
}

#[test]
fn new_draws_a_version_4_id() {
    let a = Module::new("a".to_string(), "1".to_string());
    let b = Module::new("a".to_string(), "1".to_string());
    assert_eq!((a.info.id >> 76) & 0xf, 4);
    assert_eq!((a.info.id >> 62) & 0x3, 2);
    assert_ne!(a.info.id, b.info.id);
}

#[test]
fn clone_copies_the_description_and_drops_the_process() {
    let rt = tokio::runtime::Runtime::new().unwrap();
    rt.block_on(async {
        let mut m = Module::with_id("a".to_string(), "1".to_string(), 9);
        m.info.capabilities.push("ping".to_string());
        m.process = tokio::process::Command::new("true").spawn().ok();
        assert!(m.process.is_some());
        let c = m.clone();
        assert_eq!(c.info.id, 9);
        assert_eq!(c.info.capabilities, vec!["ping".to_string()]);
        assert!(c.process.is_none());
    });
}

#[test]
fn from_spec_fills_in_defaults() {
    let spec = ModuleSpec {
        name: "weather".to_string(),
        version: "1.2.3".to_string(),
        binary: None,
        capabilities: None,
        ui_components: None,
    };
    let m = Module::from_spec_with_id(spec, 3);
    assert_eq!(m.info.binary, "weather");
    assert!(m.info.capabilities.is_empty());
    assert!(m.info.ui_components.is_empty());
    assert_eq!(m.info.status, ModuleStatus::Starting);
}

#[test]
fn from_spec_keeps_what_the_manifest_gives() {
    let spec = ModuleSpec {
        name: "weather".to_string(),
        version: "1.2.3".to_string(),
        binary: Some("weatherd".to_string()),
        capabilities: Some(vec!["forecast".to_string()]),
        ui_components: Some(vec![UiComponent {
            name: "map".to_string(),
            component_type: "panel".to_string(),
            endpoint: "/ui/map".to_string(),
        }]),
    };
    let m = Module::from_spec_with_id(spec, 3);
    assert_eq!(m.info.id, 3);
    assert_eq!(m.info.binary, "weatherd");
    assert_eq!(m.info.capabilities, vec!["forecast".to_string()]);
    assert_eq!(m.info.ui_components[0].name, "map");
}

#[test]
fn missing_manifest_is_a_module_error() {
    match Module::from_manifest(FileRead::Missing) {
        Err(AppError::Module(e)) => assert_eq!(e, "module.toml not found"),
        _ => panic!("expected a module error"),
    }
}

#[test]
fn unreadable_manifest_is_an_io_error() {
    match Module::from_manifest(FileRead::Unreadable("permission denied".to_string())) {
        Err(AppError::Io(e)) => assert_eq!(e, "permission denied"),
        _ => panic!("expected an io error"),
    }
}

#[test]
fn malformed_manifest_is_a_parse_error() {
    match Module::from_manifest_with_id(FileRead::Malformed("expected `=`".to_string()), 1) {
        Err(AppError::Module(e)) => assert_eq!(e, "toml parse error: expected `=`"),
        _ => panic!("expected a module error"),
    }
}

#[test]
fn parsed_manifest_gives_a_module_with_a_random_id() {
    let spec = ModuleSpec {
        name: "w".to_string(),
        version: "1".to_string(),
        binary: None,
        capabilities: None,
        ui_components: None,
    };
    let m = Module::from_manifest(FileRead::Parsed(spec)).unwrap();
    assert_eq!(m.info.name, "w");
    assert_eq!((m.info.id >> 76) & 0xf, 4);
}

#[test]
fn launch_plan_names_the_release_binary_and_environment() {
    let mut m = Module::with_id("weather".to_string(), "1".to_string(), 1);
    m.info.binary = "weatherd".to_string();
    let plan = m.launch_plan();
    assert_eq!(plan.binary, "target/release/weatherd");
    assert_eq!(
        plan.env,
        vec![
            ("ALPEE_SOCKET".to_string(), "/tmp/alpee-core.sock".to_string()),
            ("ALPEE_MODULE_NAME".to_string(), "weather".to_string()),
        ]
    );
}
