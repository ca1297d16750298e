use plugin_runtime::governor::{AdmissionKind, Decision, RejectReason, ResourceGovernor};
use plugin_runtime::runtime::StartOutcome;
use plugin_runtime::gateway::Gateway;
use plugin_runtime::types::{MAX_TIMESTAMP_MS, MIN_TIMESTAMP_MS};
use plugin_runtime::sandbox::{Hook, Sandbox, ScriptError};
use plugin_runtime::{
    HostApi, LifecycleState, ManagerError, NotificationApi, PluginLanguage, PluginManager, PluginMessage,
    PluginMetadata, PluginRuntime, PluginStatus, ResourceLimits, StorageApi, SystemApi, TaskApi, Timestamp,
};

fn unlimited() -> ResourceLimits {
    ResourceLimits { max_memory: None, max_cpu_time: None, max_tasks: None, max_api_calls: None }
}

fn metadata(name: &str, permissions: &[&str]) -> PluginMetadata {
    PluginMetadata {
        name: name.to_string(),
        version: "1.0.0".to_string(),
        description: Some("Test Plugin".to_string()),
        author: Some("Test Author".to_string()),
        homepage_url: None,
        repository_url: None,
        license: Some("MIT".to_string()),
        language: PluginLanguage::Lua,
        main_file: format!("{}.lua", name),
        permissions: permissions.iter().map(|p| p.to_string()).collect(),
        dependencies: None,
    }
}

fn manager_with_handlers() -> PluginManager {
    let mut m = PluginManager::new(unlimited());
    assert!(m.register_api("task", HostApi::Task(TaskApi {})));
    assert!(m.register_api("storage", HostApi::Storage(StorageApi {})));
    assert!(m.register_api("notification", HostApi::Notification(NotificationApi {})));
    assert!(m.register_api(
        "system",
        HostApi::System(SystemApi { os: "linux".to_string(), arch: "x86_64".to_string() })
    ));
    m
}

fn message(source: &str, target: Option<&str>, message_type: &str, payload: &str) -> PluginMessage {
    PluginMessage {
        source: source.to_string(),
        target: target.map(|t| t.to_string()),
        message_type: message_type.to_string(),
        payload: serde_json::from_str(payload).unwrap(),
        timestamp: Timestamp::from_millis(0).unwrap(),
    }
}

fn context() -> (Gateway, Vec<String>, ResourceGovernor) {
    (Gateway::new(), Vec::new(), ResourceGovernor::new(unlimited(), 1000, 0))
}

fn status_of(m: &PluginManager, name: &str) -> PluginStatus {
    m.get_plugin(name).unwrap().status()
}

const LIFECYCLE_SCRIPT: &str = r#"
    function init()
        print("Plugin initialized")
    end

    function start()
        print("Plugin started")
    end

    function stop()
        print("Plugin stopped")
    end

    function unload()
        print("Plugin unloaded")
    end

    function on_message(message)
        print("Received message: " .. message.message_type)
        return true
    end
"#;

#[test]
fn test_lua_runtime_lifecycle() {
    let (gw, perms, _) = context();
    let mut runtime = PluginRuntime::new(LIFECYCLE_SCRIPT.to_string(), unlimited(), 0);
    assert!(matches!(runtime.bring_up(&gw, &perms, 0), StartOutcome::Started));
    assert!(runtime.disable(&gw, &perms, 0).is_ok());
    assert!(runtime.enable(&gw, &perms, 0).is_ok());
    assert!(runtime.unload(&gw, &perms, 0).is_ok());
    assert_eq!(runtime.state, LifecycleState::Unloaded);
}

#[test]
fn test_sandbox_security() {
    let malicious_script = r#"
        function init()
            local file = io.open("sensitive.txt", "w")
            if file then
                file:write("Malicious content")
                file:close()
            end
        end
    "#;
    let mut m = manager_with_handlers();
    let r = m.load_plugin(metadata("malicious_plugin", &[]), malicious_script.to_string(), 0);
    assert!(matches!(r, Err(ManagerError::Script(_))));
    assert_eq!(status_of(&m, "malicious_plugin"), PluginStatus::Error);
    assert!(!std::path::Path::new("sensitive.txt").exists());
}

#[test]
fn test_plugin_manager_creation() {
    let manager = PluginManager::new(unlimited());
    assert!(manager.list_plugins().is_empty());
}

#[test]
fn engine_globals_outside_the_allowlist_are_absent() {
    for global in ["io", "os", "require", "load", "dofile", "debug", "package", "string.rep", "math.random"] {
        let script = format!("local f = {}\nif f == nil then missing() end", global);
        assert!(Sandbox::create(&script, 0).is_err(), "{} should be absent", global);
    }
}

#[test]
fn allowlisted_helpers_are_usable() {
    let script = r#"
        local s = string.upper("ab") .. string.lower("CD") .. string.sub("xyz", 2, 3)
        if s ~= "ABcdyz" or string.len(s) ~= 6 then missing() end
        if math.abs(-2) ~= 2 or math.max(1, 5) ~= 5 or math.min(1, 5) ~= 1 then missing() end
        if math.floor(1.5) ~= 1 or math.ceil(1.5) ~= 2 then missing() end
        print("ok")
    "#;
    assert!(Sandbox::create(script, 0).is_ok());
}

#[test]
fn missing_hooks_are_no_ops() {
    let (gw, perms, mut g) = context();
    let mut sb = Sandbox::create("x = 1", 0).unwrap();
    assert!(!sb.has_message_handler());
    for hook in [Hook::Init, Hook::Start, Hook::Stop, Hook::Unload] {
        assert!(sb.invoke_hook(hook, &gw, &perms, &mut g, 0).is_ok());
    }
    let mut failing = Sandbox::create("function stop() missing() end", 0).unwrap();
    assert!(failing.invoke_hook(Hook::Start, &gw, &perms, &mut g, 0).is_ok());
    assert!(matches!(
        failing.invoke_hook(Hook::Stop, &gw, &perms, &mut g, 0),
        Err(ScriptError::Hook(Hook::Stop, _))
    ));
}

#[test]
fn syntax_error_fails_sandbox_creation() {
    assert!(Sandbox::create("function (", 0).is_err());
}

#[test]
fn message_without_handler_is_dropped() {
    let (gw, perms, mut g) = context();
    let mut sb = Sandbox::create("function init() end", 0).unwrap();
    assert_eq!(sb.deliver_message(&message("a", Some("b"), "ping", "1"), &gw, &perms, &mut g, 0), Ok(false));
}

#[test]
fn message_fields_reach_the_handler() {
    let script = r#"
        function on_message(m)
            if m.source ~= "host" or m.target ~= "p" or m.message_type ~= "ping" then missing() end
            if m.payload ~= '{"k":"v"}' then missing() end
            if m.timestamp ~= "1970-01-01T00:00:01.500+00:00" then missing() end
        end
    "#;
    let (gw, perms, mut g) = context();
    let mut sb = Sandbox::create(script, 0).unwrap();
    let mut msg = message("host", Some("p"), "ping", r#"{"k":"v"}"#);
    msg.timestamp = Timestamp::from_millis(1500).unwrap();
    assert_eq!(sb.deliver_message(&msg, &gw, &perms, &mut g, 0), Ok(true));
    let mut other = message("host", Some("p"), "ping", r#"{"k":"w"}"#);
    other.timestamp = Timestamp::from_millis(1500).unwrap();
    assert!(sb.deliver_message(&other, &gw, &perms, &mut g, 0).is_err());
}

#[test]
fn targeted_ping_reaches_handler_exactly_once() {
    let script = r#"
        function on_message(m)
            if m.message_type == "ping" and m.payload == '{"n":7}' then
                api.call("storage", "get", m.payload)
            end
        end
    "#;
    let mut m = manager_with_handlers();
    assert!(m.load_plugin(metadata("listener", &["storage.read"]), script.to_string(), 0).is_ok());
    assert!(m.load_plugin(metadata("other", &["storage.read"]), script.to_string(), 0).is_ok());
    assert_eq!(m.get_resource_usage("listener").unwrap().api_calls, 0);
    m.publish(&message("host", Some("listener"), "ping", r#"{"n":7}"#), 0);
    assert_eq!(m.get_resource_usage("listener").unwrap().api_calls, 1);
    assert_eq!(m.get_resource_usage("other").unwrap().api_calls, 0);
    assert!(m.get_plugin("listener").unwrap().runtime.sandbox.as_ref().unwrap().has_message_handler());
    assert_eq!(status_of(&m, "listener"), PluginStatus::Active);
}

#[test]
fn scripts_reach_the_gateway_through_api() {
    let script = r#"
        function init()
            if api.call("task", "list", "{}") ~= "[]" then missing() end
            if api.call("task", "create", '{"a":1}') ~= '{"a":1}' then missing() end
        end
    "#;
    let mut m = manager_with_handlers();
    assert_eq!(m.load_plugin(metadata("p", &["task.read", "task.write"]), script.to_string(), 0), Ok(()));
    assert_eq!(m.get_resource_usage("p").unwrap().api_calls, 2);
    let denied = "function init() api.call('storage', 'get', '{}') end";
    assert!(matches!(
        m.load_plugin(metadata("q", &["task.read"]), denied.to_string(), 0),
        Err(ManagerError::Script(_))
    ));
    let not_json = "function init() api.call('task', 'list', 'nope') end";
    assert!(m.load_plugin(metadata("r", &["task.read"]), not_json.to_string(), 0).is_err());
    assert_eq!(m.get_resource_usage("r").unwrap().api_calls, 0);
}

#[test]
fn bytecode_is_refused() {
    assert!(Sandbox::create("\u{1b}Lua\u{54}\u{0}", 0).is_err());
}

#[test]
fn string_methods_are_confined() {
    assert!(Sandbox::create("local s = ('ab'):upper() if s ~= 'AB' then missing() end", 0).is_ok());
    assert!(Sandbox::create("local s = ('x'):rep(3)", 0).is_err());
    assert!(Sandbox::create("local f = ('x').dump", 0).is_ok());
    assert!(Sandbox::create("local f = ('x').dump if f ~= nil then missing() end", 0).is_ok());
}

#[test]
fn timestamps_cover_the_calendar_range() {
    assert!(Timestamp::from_millis(MIN_TIMESTAMP_MS).is_some());
    assert!(Timestamp::from_millis(MAX_TIMESTAMP_MS).is_some());
    assert!(Timestamp::from_millis(MIN_TIMESTAMP_MS - 1).is_none());
    assert!(Timestamp::from_millis(MAX_TIMESTAMP_MS + 1).is_none());
    assert!(chrono::DateTime::from_timestamp_millis(MIN_TIMESTAMP_MS).is_some());
    assert!(chrono::DateTime::from_timestamp_millis(MAX_TIMESTAMP_MS).is_some());
    assert!(chrono::DateTime::from_timestamp_millis(MIN_TIMESTAMP_MS - 1).is_none());
    assert!(chrono::DateTime::from_timestamp_millis(MAX_TIMESTAMP_MS + 1).is_none());
    let (gw, perms, mut g) = context();
    let mut sb = Sandbox::create("function on_message(m) if m.timestamp == '' then missing() end end", 0).unwrap();
    let mut msg = message("a", None, "t", "null");
    msg.timestamp = Timestamp::from_millis(MAX_TIMESTAMP_MS).unwrap();
    assert_eq!(sb.deliver_message(&msg, &gw, &perms, &mut g, 0), Ok(true));
    msg.timestamp = Timestamp::from_millis(MIN_TIMESTAMP_MS).unwrap();
    assert_eq!(sb.deliver_message(&msg, &gw, &perms, &mut g, 0), Ok(true));
}

#[test]
fn error_in_init_leaves_plugin_listed_in_error() {
    let mut m = manager_with_handlers();
    let r = m.load_plugin(metadata("broken", &["task.read"]), "function init() missing() end".to_string(), 0);
    assert!(matches!(r, Err(ManagerError::Script(ScriptError::Hook(Hook::Init, _)))));
    assert_eq!(status_of(&m, "broken"), PluginStatus::Error);
    let listed = m.list_plugins();
    assert_eq!(listed.len(), 1);
    assert_eq!(listed[0].name, "broken");
    assert_eq!(listed[0].version, "1.0.0");
    assert_eq!(listed[0].permissions, vec!["task.read".to_string()]);
    let p = m.get_plugin("broken").unwrap();
    assert_eq!(p.metadata().author, Some("Test Author".to_string()));
}

#[test]
fn broadcasts_keep_per_sender_order() {
    let recorder = r#"
        function on_message(m)
            if m.source == "a" then log = (log or "") .. m.message_type end
        end
        function stop()
            if log ~= "123" then missing() end
        end
    "#;
    let mut m = manager_with_handlers();
    for name in ["r1", "r2", "r3"] {
        assert!(m.load_plugin(metadata(name, &[]), recorder.to_string(), 0).is_ok());
    }
    assert!(m.load_plugin(metadata("a", &[]), "function on_message(m) missing() end".to_string(), 0).is_ok());
    m.publish(&message("a", None, "1", "null"), 0);
    m.publish(&message("b", None, "x", "null"), 0);
    m.publish(&message("a", None, "2", "null"), 0);
    m.publish(&message("a", Some("r2"), "3", "null"), 0);
    m.publish(&message("a", None, "3", "null"), 0);
    assert_eq!(m.disable_plugin("r1", 0), Ok(()));
    assert!(matches!(m.disable_plugin("r2", 0), Err(ManagerError::Script(_))));
    assert_eq!(m.disable_plugin("r3", 0), Ok(()));
    assert_eq!(status_of(&m, "a"), PluginStatus::Active);
}

#[test]
fn messages_skip_inactive_and_missing_targets() {
    let script = r#"
        function on_message(m) got = (got or 0) + 1 end
        function stop()
            stops = (stops or 0) + 1
            if stops == 2 and got ~= 1 then missing() end
        end
    "#;
    let mut m = manager_with_handlers();
    assert!(m.load_plugin(metadata("p", &[]), script.to_string(), 0).is_ok());
    assert_eq!(m.disable_plugin("p", 0), Ok(()));
    assert_eq!(m.disable_plugin("p", 0), Ok(()));
    m.publish(&message("host", Some("p"), "t", "1"), 0);
    m.publish(&message("host", None, "t", "1"), 0);
    m.publish(&message("host", Some("nobody"), "t", "1"), 0);
    assert_eq!(m.enable_plugin("p", 0), Ok(()));
    m.publish(&message("p", None, "t", "1"), 0);
    m.publish(&message("host", Some("p"), "t", "1"), 0);
    assert_eq!(m.disable_plugin("p", 0), Ok(()));
    assert_eq!(status_of(&m, "p"), PluginStatus::Disabled);
}

#[test]
fn reload_with_unchanged_script_is_idempotent() {
    let script = "function init() end function start() end";
    let mut m = manager_with_handlers();
    assert!(m.load_plugin(metadata("p", &["storage.read"]), script.to_string(), 0).is_ok());
    let before = m.list_plugins();
    assert_eq!(m.reload_plugin("p", script.to_string(), 0), Ok(()));
    assert_eq!(status_of(&m, "p"), PluginStatus::Active);
    let after = m.list_plugins();
    assert_eq!(after.len(), before.len());
    assert_eq!(after[0].name, before[0].name);
    assert_eq!(after[0].version, before[0].version);
    assert_eq!(after[0].permissions, before[0].permissions);
    assert_eq!(after[0].main_file, before[0].main_file);
}

#[test]
fn reload_recovers_from_error() {
    let mut m = manager_with_handlers();
    assert!(m.load_plugin(metadata("p", &[]), "function init() missing() end".to_string(), 0).is_err());
    assert_eq!(status_of(&m, "p"), PluginStatus::Error);
    assert_eq!(m.enable_plugin("p", 0), Err(ManagerError::NotDisabled));
    assert_eq!(m.reload_plugin("p", "function init() end".to_string(), 0), Ok(()));
    assert_eq!(status_of(&m, "p"), PluginStatus::Active);
    assert_eq!(m.reload_plugin("q", String::new(), 0), Err(ManagerError::NotFound));
}

#[test]
fn unload_removes_plugin() {
    let mut m = manager_with_handlers();
    assert!(m.load_plugin(metadata("p", &[]), "function unload() missing() end".to_string(), 0).is_ok());
    assert!(matches!(m.unload_plugin("p", 0), Err(ManagerError::Script(_))));
    assert!(m.get_plugin("p").is_none());
    assert!(m.list_plugins().is_empty());
    assert_eq!(m.unload_plugin("p", 0), Err(ManagerError::NotFound));
}

#[test]
fn duplicate_and_unrecognized_plugins_are_refused() {
    let mut m = manager_with_handlers();
    assert!(m.load_plugin(metadata("p", &[]), String::new(), 0).is_ok());
    assert_eq!(m.load_plugin(metadata("p", &[]), String::new(), 0), Err(ManagerError::AlreadyLoaded));
    assert_eq!(
        m.load_plugin(metadata("q", &["task.read", "fs.read"]), String::new(), 0),
        Err(ManagerError::UnrecognizedPermission("fs.read".to_string()))
    );
    assert!(m.get_plugin("q").is_none());
    assert_eq!(m.list_plugins().len(), 1);
}

#[test]
fn api_call_ceiling_allows_two_then_rejects() {
    let limits = ResourceLimits { max_api_calls: Some(2), ..unlimited() };
    let mut g = ResourceGovernor::new(limits, 60000, 0);
    assert_eq!(g.request(AdmissionKind::ApiCall, 10), Decision::Allow);
    assert_eq!(g.request(AdmissionKind::ApiCall, 20), Decision::Allow);
    assert_eq!(g.request(AdmissionKind::ApiCall, 30), Decision::Reject(RejectReason::ApiCallLimit));
    assert_eq!(g.get_usage().api_calls, 3);
    assert_eq!(g.request(AdmissionKind::ApiCall, 60000), Decision::Allow);
    assert_eq!(g.get_usage().api_calls, 1);
}

#[test]
fn task_ceiling_and_sampling() {
    let limits = ResourceLimits { max_tasks: Some(1), max_memory: Some(100), max_cpu_time: Some(50), ..unlimited() };
    let mut g = ResourceGovernor::new(limits, 1000, 0);
    assert_eq!(g.request(AdmissionKind::TaskStart, 0), Decision::Allow);
    assert_eq!(g.request(AdmissionKind::TaskStart, 0), Decision::Reject(RejectReason::TaskLimit));
    g.finish_task();
    assert_eq!(g.request(AdmissionKind::TaskStart, 0), Decision::Allow);
    assert!(!g.sample(100, 30));
    assert!(g.sample(10, 30));
    assert_eq!(g.get_usage().cpu_time, 60);
    assert!(g.sample(101, 0));
}

#[test]
fn forced_stop_over_memory_ceiling() {
    let mut m = manager_with_handlers();
    assert!(m.load_plugin(metadata("p", &[]), String::new(), 0).is_ok());
    let limits = ResourceLimits { max_memory: Some(1000), ..unlimited() };
    assert_eq!(m.set_resource_limits("p", limits), Ok(()));
    assert_eq!(m.report_usage("p", 500, 0), Ok(false));
    assert_eq!(status_of(&m, "p"), PluginStatus::Active);
    assert_eq!(m.report_usage("p", 1001, 0), Ok(true));
    assert_eq!(status_of(&m, "p"), PluginStatus::Error);
    assert_eq!(m.get_resource_usage("p").unwrap().memory_used, 1001);
    assert_eq!(m.report_usage("x", 1, 1), Err(ManagerError::NotFound));
}

#[test]
fn dependency_names_must_be_unique() {
    let mut md = metadata("p", &[]);
    assert!(md.has_unique_dependencies());
    md.dependencies = Some(vec![("a".to_string(), "1".to_string()), ("b".to_string(), "2".to_string())]);
    assert!(md.has_unique_dependencies());
    md.dependencies = Some(vec![
        ("a".to_string(), "1".to_string()),
        ("b".to_string(), "2".to_string()),
        ("a".to_string(), "3".to_string()),
    ]);
    assert!(!md.has_unique_dependencies());
    let copy = md.snapshot();
    assert_eq!(copy.dependencies, md.dependencies);
    assert_eq!(copy.name, md.name);
}

#[test]
fn standard_limits_values() {
    let l = ResourceLimits::standard();
    assert_eq!(l.max_memory, Some(50 * 1024 * 1024));
    assert_eq!(l.max_cpu_time, Some(1000));
    assert_eq!(l.max_tasks, Some(10));
    assert_eq!(l.max_api_calls, Some(1000));
    assert_eq!(ResourceLimits::unbounded(), unlimited());
}
