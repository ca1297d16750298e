use plugin_runtime::gateway::GatewayError;
use plugin_runtime::watcher::{is_script_path, plugin_id_of};
use plugin_runtime::{
    HostApi, ManagerError, NotificationApi, PluginLanguage, PluginManager, PluginMetadata, PluginWatchEvent,
    PluginWatchEventType, ResourceLimits, StorageApi, SystemApi, TaskApi, WatchAction,
};
use serde_json::Value;

fn unlimited() -> ResourceLimits {
    ResourceLimits { max_memory: None, max_cpu_time: None, max_tasks: None, max_api_calls: None }
}

fn metadata(name: &str, permissions: &[&str]) -> PluginMetadata {
    PluginMetadata {
        name: name.to_string(),
        version: "1.0.0".to_string(),
        description: None,
        author: None,
        homepage_url: None,
        repository_url: None,
        license: None,
        language: PluginLanguage::Lua,
        main_file: format!("{}.lua", name),
        permissions: permissions.iter().map(|p| p.to_string()).collect(),
        dependencies: None,
    }
}

fn manager() -> PluginManager {
    let mut m = PluginManager::new(unlimited());
    assert!(m.register_api("task", HostApi::Task(TaskApi {})));
    assert!(m.register_api("storage", HostApi::Storage(StorageApi {})));
    assert!(m.register_api("notification", HostApi::Notification(NotificationApi {})));
    assert!(m.register_api(
        "system",
        HostApi::System(SystemApi { os: "linux".to_string(), arch: "x86_64".to_string() })
    ));
    m
}

fn params() -> Value {
    serde_json::from_str(r#"{"message":"world"}"#).unwrap()
}

fn gateway_error(r: Result<Value, ManagerError>) -> GatewayError {
    match r {
        Err(ManagerError::Gateway(e)) => e,
        other => panic!("expected a gateway error, got {:?}", other),
    }
}

#[test]
fn duplicate_handler_name_is_refused() {
    let mut m = manager();
    assert!(!m.register_api("task", HostApi::Storage(StorageApi {})));
}

#[test]
fn permission_denied_exactly_when_undeclared() {
    let mut m = manager();
    assert!(m.load_plugin(metadata("p", &["task.read", "storage.write"]), String::new(), 0).is_ok());
    let cases = [
        ("task", "list", true),
        ("task", "create", false),
        ("task", "delete", false),
        ("storage", "set", true),
        ("storage", "get", false),
        ("notification", "send", false),
        ("system", "get_info", false),
    ];
    for _round in 0..2 {
        for (api, method, allowed) in cases {
            let r = m.call_api("p", api, method, params(), 0);
            if allowed {
                assert!(r.is_ok(), "{}.{}", api, method);
            } else {
                assert_eq!(gateway_error(r), GatewayError::PermissionDenied, "{}.{}", api, method);
            }
        }
    }
    assert_eq!(m.get_resource_usage("p").unwrap().api_calls, 14);
}

#[test]
fn unknown_api_and_method() {
    let mut m = manager();
    assert!(m.load_plugin(metadata("p", &["task.read"]), String::new(), 0).is_ok());
    assert_eq!(gateway_error(m.call_api("p", "fs", "read", params(), 0)), GatewayError::UnknownApi);
    assert_eq!(gateway_error(m.call_api("p", "task", "purge", params(), 0)), GatewayError::UnknownMethod);
    assert_eq!(m.call_api("nobody", "task", "list", params(), 0), Err(ManagerError::NotFound));
    assert_eq!(m.get_resource_usage("p").unwrap().api_calls, 2);
}

#[test]
fn api_ceiling_through_gateway() {
    let mut m = manager();
    assert!(m.load_plugin(metadata("p", &["storage.read"]), String::new(), 0).is_ok());
    let limits = ResourceLimits { max_api_calls: Some(2), ..unlimited() };
    assert_eq!(m.set_resource_limits("p", limits), Ok(()));
    assert!(m.call_api("p", "storage", "get", params(), 100).is_ok());
    assert!(m.call_api("p", "storage", "get", params(), 200).is_ok());
    assert_eq!(
        gateway_error(m.call_api("p", "storage", "get", params(), 300)),
        GatewayError::ResourceExhausted
    );
    assert!(m.call_api("p", "storage", "get", params(), 60000).is_ok());
}

#[test]
fn inactive_plugin_cannot_call() {
    let mut m = manager();
    assert!(m.load_plugin(metadata("p", &["task.read"]), String::new(), 0).is_ok());
    assert_eq!(m.disable_plugin("p", 0), Ok(()));
    assert_eq!(m.call_api("p", "task", "list", params(), 0), Err(ManagerError::NotActive));
}

#[test]
fn handlers_answer_by_method() {
    let mut m = manager();
    let all = [
        "task.read", "task.write", "storage.read", "storage.write", "notification.send",
        "notification.read", "system.info", "system.metrics",
    ];
    assert!(m.load_plugin(metadata("p", &all), String::new(), 0).is_ok());
    let empty = Value::Array(vec![]);
    assert_eq!(m.call_api("p", "task", "list", params(), 0), Ok(empty.clone()));
    assert_eq!(m.call_api("p", "task", "create", params(), 0), Ok(params()));
    assert_eq!(m.call_api("p", "task", "update", params(), 0), Ok(params()));
    assert_eq!(m.call_api("p", "storage", "set", params(), 0), Ok(params()));
    assert_eq!(m.call_api("p", "storage", "delete", params(), 0), Ok(params()));
    assert_eq!(m.call_api("p", "notification", "send", params(), 0), Ok(params()));
    assert_eq!(m.call_api("p", "notification", "list", params(), 0), Ok(empty));
    assert_eq!(m.call_api("p", "system", "get_memory_usage", params(), 0), Ok(Value::Null));
    assert_eq!(m.call_api("p", "system", "get_cpu_usage", params(), 0), Ok(Value::Null));
    let info = m.call_api("p", "system", "get_info", params(), 0).unwrap();
    assert_eq!(info, serde_json::from_str::<Value>(r#"{"os":"linux","arch":"x86_64"}"#).unwrap());
}

#[test]
fn handler_permission_tables() {
    assert_eq!(TaskApi {}.get_permissions(), vec!["task.read".to_string(), "task.write".to_string()]);
    assert_eq!(StorageApi {}.get_permissions(), vec!["storage.read".to_string(), "storage.write".to_string()]);
    assert_eq!(
        NotificationApi {}.get_permissions(),
        vec!["notification.send".to_string(), "notification.read".to_string()]
    );
    let sys = SystemApi { os: String::new(), arch: String::new() };
    assert_eq!(sys.get_permissions(), vec!["system.info".to_string(), "system.metrics".to_string()]);
    assert_eq!(TaskApi {}.required_permission("delete"), Some("task.write".to_string()));
    assert_eq!(StorageApi {}.required_permission("list"), None);
    assert_eq!(NotificationApi {}.required_permission("list"), Some("notification.read".to_string()));
    assert_eq!(sys.required_permission("get_cpu_usage"), Some("system.metrics".to_string()));
}

#[test]
fn script_paths_and_plugin_ids() {
    assert!(is_script_path("/plugins/test.lua"));
    assert!(!is_script_path("/plugins/test.txt"));
    assert!(!is_script_path("/plugins/lua"));
    assert_eq!(plugin_id_of("/plugins/demo/main.lua"), Some("main".to_string()));
    assert_eq!(plugin_id_of("/plugins/test.lua"), Some("test".to_string()));
}

#[test]
fn watch_events_map_to_lifecycle_actions() {
    let mut m = manager();
    assert!(m.load_plugin(metadata("known", &[]), String::new(), 0).is_ok());
    let ev = |path: &str, event_type| PluginWatchEvent { path: path.to_string(), event_type };
    assert_eq!(
        m.watch_action(&ev("/p/known.lua", PluginWatchEventType::Modified)),
        WatchAction::Reload("known".to_string())
    );
    assert_eq!(m.watch_action(&ev("/p/new.lua", PluginWatchEventType::Modified)), WatchAction::Ignore);
    assert_eq!(
        m.watch_action(&ev("/p/new.lua", PluginWatchEventType::Created)),
        WatchAction::Load("new".to_string())
    );
    assert_eq!(m.watch_action(&ev("/p/known.lua", PluginWatchEventType::Created)), WatchAction::Ignore);
    assert_eq!(
        m.watch_action(&ev("/p/known.lua", PluginWatchEventType::Deleted)),
        WatchAction::Unload("known".to_string())
    );
    assert_eq!(m.watch_action(&ev("/p/gone.lua", PluginWatchEventType::Deleted)), WatchAction::Ignore);
    assert_eq!(m.watch_action(&ev("/", PluginWatchEventType::Deleted)), WatchAction::Ignore);
}
