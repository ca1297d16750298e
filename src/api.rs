use vstd::prelude::*;
use crate::text::{str_eq, opt_view, views};
use crate::types::json_text_of;

verus! {

/// Why a host handler refused a call.
#[derive(Clone, Debug, PartialEq, Eq)]
pub enum ApiError {
    /// The handler does not accept this method name.
    UnknownMethod(String),
}

/// Relies on the `serde_json::Value::Array` constructor: an empty JSON array,
/// whose compact text is `[]`.
#[verifier::external_body]
fn empty_array() -> (r: serde_json::Value)
    ensures
        json_text_of(r) == "[]"@,
{
    serde_json::Value::Array(Vec::new())
}

/// Relies on the `serde_json::Value::Null` constructor, whose compact text is `null`.
#[verifier::external_body]
fn null_value() -> (r: serde_json::Value)
    ensures
        json_text_of(r) == "null"@,
{
    serde_json::Value::Null
}

/// Relies on `serde_json::Map::insert`: the object `{k1: v1, k2: v2}` of two strings.
#[verifier::external_body]
fn object_of_two(k1: &str, v1: &str, k2: &str, v2: &str) -> (r: serde_json::Value) {
    let mut m = serde_json::Map::new();
    m.insert(k1.to_string(), serde_json::Value::String(v1.to_string()));
    m.insert(k2.to_string(), serde_json::Value::String(v2.to_string()));
    serde_json::Value::Object(m)
}

/// Permission that a task method requires, if the method exists.
pub open spec fn task_permission(m: Seq<char>) -> Option<Seq<char>> {
    if m == "list"@ {
        Some("task.read"@)
    } else if m == "create"@ || m == "update"@ || m == "delete"@ {
        Some("task.write"@)
    } else {
        None
    }
}

/// Permission that a storage method requires, if the method exists.
pub open spec fn storage_permission(m: Seq<char>) -> Option<Seq<char>> {
    if m == "get"@ {
        Some("storage.read"@)
    } else if m == "set"@ || m == "delete"@ {
        Some("storage.write"@)
    } else {
        None
    }
}

/// Permission that a notification method requires, if the method exists.
pub open spec fn notification_permission(m: Seq<char>) -> Option<Seq<char>> {
    if m == "send"@ {
        Some("notification.send"@)
    } else if m == "list"@ {
        Some("notification.read"@)
    } else {
        None
    }
}

/// Permission that a system method requires, if the method exists.
pub open spec fn system_permission(m: Seq<char>) -> Option<Seq<char>> {
    if m == "get_info"@ {
        Some("system.info"@)
    } else if m == "get_memory_usage"@ || m == "get_cpu_usage"@ {
        Some("system.metrics"@)
    } else {
        None
    }
}

/// Task records handler.
#[derive(Clone, Copy, Debug)]
pub struct TaskApi {}

/// Key-value storage handler.
#[derive(Clone, Copy, Debug)]
pub struct StorageApi {}

/// Notification handler.
#[derive(Clone, Copy, Debug)]
pub struct NotificationApi {}

/// System information handler; the platform names are supplied by the host.
#[derive(Clone, Debug)]
pub struct SystemApi {
    pub os: String,
    pub arch: String,
}

fn unknown_method(method: &str) -> (r: ApiError)
    ensures
        r matches ApiError::UnknownMethod(m) && m@ == method@,
{
    ApiError::UnknownMethod(String::from_str(method))
}

fn perm(p: &str) -> (r: Option<String>)
    ensures
        r matches Some(s) && s@ == p@,
{
    Some(String::from_str(p))
}

impl TaskApi {
    pub fn required_permission(&self, method: &str) -> (r: Option<String>)
        ensures
            opt_view(r) == task_permission(method@),
    {
        if str_eq(method, "list") {
            perm("task.read")
        } else if str_eq(method, "create") || str_eq(method, "update") || str_eq(method, "delete") {
            perm("task.write")
        } else {
            None
        }
    }

    /// Handles a call; `list` answers an empty array, the others echo their parameters.
    pub fn call(&self, method: &str, params: serde_json::Value) -> (r: Result<serde_json::Value, ApiError>)
        ensures
            task_permission(method@) is None <==> r is Err,
            r matches Err(e) ==> e == ApiError::UnknownMethod(e->0) && e->0@ == method@,
            method@ == "create"@ || method@ == "update"@ || method@ == "delete"@
                ==> r == Ok::<serde_json::Value, ApiError>(params),
            method@ == "list"@ ==> (r matches Ok(v) && json_text_of(v) == "[]"@),
    {
        proof {
            reveal_strlit("list"); reveal_strlit("create"); reveal_strlit("update"); reveal_strlit("delete");
            assert("list"@[0] != "create"@[0] && "list"@[0] != "update"@[0] && "list"@[0] != "delete"@[0]);
        }
        if str_eq(method, "create") || str_eq(method, "update") || str_eq(method, "delete") {
            Ok(params)
        } else if str_eq(method, "list") {
            Ok(empty_array())
        } else {
            Err(unknown_method(method))
        }
    }

    pub fn get_permissions(&self) -> (r: Vec<String>)
        ensures
            views(r@) == seq!["task.read"@, "task.write"@],
    {
        let v = vec![String::from_str("task.read"), String::from_str("task.write")];
        assert(views(v@) =~= seq!["task.read"@, "task.write"@]);
        v
    }
}

impl StorageApi {
    pub fn required_permission(&self, method: &str) -> (r: Option<String>)
        ensures
            opt_view(r) == storage_permission(method@),
    {
        if str_eq(method, "get") {
            perm("storage.read")
        } else if str_eq(method, "set") || str_eq(method, "delete") {
            perm("storage.write")
        } else {
            None
        }
    }

    /// Handles a call; every known method echoes its parameters.
    pub fn call(&self, method: &str, params: serde_json::Value) -> (r: Result<serde_json::Value, ApiError>)
        ensures
            storage_permission(method@) is None <==> r is Err,
            r matches Err(e) ==> e == ApiError::UnknownMethod(e->0) && e->0@ == method@,
            r is Ok ==> r == Ok::<serde_json::Value, ApiError>(params),
            method@ == "get"@ || method@ == "set"@ || method@ == "delete"@
                ==> r == Ok::<serde_json::Value, ApiError>(params),
    {
        if str_eq(method, "get") || str_eq(method, "set") || str_eq(method, "delete") {
            Ok(params)
        } else {
            Err(unknown_method(method))
        }
    }

    pub fn get_permissions(&self) -> (r: Vec<String>)
        ensures
            views(r@) == seq!["storage.read"@, "storage.write"@],
    {
        let v = vec![String::from_str("storage.read"), String::from_str("storage.write")];
        assert(views(v@) =~= seq!["storage.read"@, "storage.write"@]);
        v
    }
}

impl NotificationApi {
    pub fn required_permission(&self, method: &str) -> (r: Option<String>)
        ensures
            opt_view(r) == notification_permission(method@),
    {
        if str_eq(method, "send") {
            perm("notification.send")
        } else if str_eq(method, "list") {
            perm("notification.read")
        } else {
            None
        }
    }

    /// Handles a call; `send` echoes its parameters, `list` answers an empty array.
    pub fn call(&self, method: &str, params: serde_json::Value) -> (r: Result<serde_json::Value, ApiError>)
        ensures
            notification_permission(method@) is None <==> r is Err,
            r matches Err(e) ==> e == ApiError::UnknownMethod(e->0) && e->0@ == method@,
            method@ == "send"@ ==> r == Ok::<serde_json::Value, ApiError>(params),
            method@ == "list"@ ==> (r matches Ok(v) && json_text_of(v) == "[]"@),
    {
        proof {
            reveal_strlit("list"); reveal_strlit("send");
            assert("list"@[0] != "send"@[0]);
        }
        if str_eq(method, "send") {
            Ok(params)
        } else if str_eq(method, "list") {
            Ok(empty_array())
        } else {
            Err(unknown_method(method))
        }
    }

    pub fn get_permissions(&self) -> (r: Vec<String>)
        ensures
            views(r@) == seq!["notification.send"@, "notification.read"@],
    {
        let v = vec![String::from_str("notification.send"), String::from_str("notification.read")];
        assert(views(v@) =~= seq!["notification.send"@, "notification.read"@]);
        v
    }
}

impl SystemApi {
    pub fn required_permission(&self, method: &str) -> (r: Option<String>)
        ensures
            opt_view(r) == system_permission(method@),
    {
        if str_eq(method, "get_info") {
            perm("system.info")
        } else if str_eq(method, "get_memory_usage") || str_eq(method, "get_cpu_usage") {
            perm("system.metrics")
        } else {
            None
        }
    }

    /// Handles a call; `get_info` answers the platform names, the metrics answer null.
    pub fn call(&self, method: &str, params: serde_json::Value) -> (r: Result<serde_json::Value, ApiError>)
        ensures
            system_permission(method@) is None <==> r is Err,
            r matches Err(e) ==> e == ApiError::UnknownMethod(e->0) && e->0@ == method@,
            method@ == "get_memory_usage"@ || method@ == "get_cpu_usage"@
                ==> (r matches Ok(v) && json_text_of(v) == "null"@),
    {
        proof {
            reveal_strlit("get_info"); reveal_strlit("get_memory_usage"); reveal_strlit("get_cpu_usage");
            assert("get_info"@.len() != "get_memory_usage"@.len() && "get_info"@.len() != "get_cpu_usage"@.len());
        }
        if str_eq(method, "get_info") {
            Ok(object_of_two("os", self.os.as_str(), "arch", self.arch.as_str()))
        } else if str_eq(method, "get_memory_usage") || str_eq(method, "get_cpu_usage") {
            Ok(null_value())
        } else {
            Err(unknown_method(method))
        }
    }

    pub fn get_permissions(&self) -> (r: Vec<String>)
        ensures
            views(r@) == seq!["system.info"@, "system.metrics"@],
    {
        let v = vec![String::from_str("system.info"), String::from_str("system.metrics")];
        assert(views(v@) =~= seq!["system.info"@, "system.metrics"@]);
        v
    }
}

/// A registered host handler.
#[derive(Clone, Debug)]
pub enum HostApi {
    Task(TaskApi),
    Storage(StorageApi),
    Notification(NotificationApi),
    System(SystemApi),
}

impl HostApi {
    /// Permission that `method` requires on this handler, if the handler accepts it.
    pub open spec fn permission_for(&self, m: Seq<char>) -> Option<Seq<char>> {
        match self {
            HostApi::Task(_) => task_permission(m),
            HostApi::Storage(_) => storage_permission(m),
            HostApi::Notification(_) => notification_permission(m),
            HostApi::System(_) => system_permission(m),
        }
    }

    /// Permission strings the handler declares.
    pub open spec fn declared(&self) -> Seq<Seq<char>> {
        match self {
            HostApi::Task(_) => seq!["task.read"@, "task.write"@],
            HostApi::Storage(_) => seq!["storage.read"@, "storage.write"@],
            HostApi::Notification(_) => seq!["notification.send"@, "notification.read"@],
            HostApi::System(_) => seq!["system.info"@, "system.metrics"@],
        }
    }

    pub fn get_permissions(&self) -> (r: Vec<String>)
        ensures
            views(r@) == self.declared(),
    {
        match self {
            HostApi::Task(a) => a.get_permissions(),
            HostApi::Storage(a) => a.get_permissions(),
            HostApi::Notification(a) => a.get_permissions(),
            HostApi::System(a) => a.get_permissions(),
        }
    }

    pub fn required_permission(&self, method: &str) -> (r: Option<String>)
        ensures
            opt_view(r) == self.permission_for(method@),
    {
        match self {
            HostApi::Task(a) => a.required_permission(method),
            HostApi::Storage(a) => a.required_permission(method),
            HostApi::Notification(a) => a.required_permission(method),
            HostApi::System(a) => a.required_permission(method),
        }
    }

    /// The JSON text a method always answers with, where it has one.
    pub open spec fn fixed_answer(&self, m: Seq<char>) -> Option<Seq<char>> {
        match self {
            HostApi::Task(_) => if m == "list"@ { Some("[]"@) } else { None },
            HostApi::Notification(_) => if m == "list"@ { Some("[]"@) } else { None },
            HostApi::System(_) => if m == "get_memory_usage"@ || m == "get_cpu_usage"@ {
                Some("null"@)
            } else {
                None
            },
            HostApi::Storage(_) => None,
        }
    }

    /// Whether `method` answers with its own parameters.
    pub open spec fn echoes(&self, m: Seq<char>) -> bool {
        match self {
            HostApi::Task(_) => m == "create"@ || m == "update"@ || m == "delete"@,
            HostApi::Storage(_) => m == "get"@ || m == "set"@ || m == "delete"@,
            HostApi::Notification(_) => m == "send"@,
            HostApi::System(_) => false,
        }
    }

    pub fn call(&self, method: &str, params: serde_json::Value) -> (r: Result<serde_json::Value, ApiError>)
        ensures
            self.permission_for(method@) is None <==> r is Err,
            r matches Err(e) ==> e == ApiError::UnknownMethod(e->0) && e->0@ == method@,
            self.echoes(method@) ==> r == Ok::<serde_json::Value, ApiError>(params),
            self.fixed_answer(method@) matches Some(t) ==> (r matches Ok(v) && json_text_of(v) == t),
    {
        match self {
            HostApi::Task(a) => a.call(method, params),
            HostApi::Storage(a) => a.call(method, params),
            HostApi::Notification(a) => a.call(method, params),
            HostApi::System(a) => a.call(method, params),
        }
    }
}

} // verus!
