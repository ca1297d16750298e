use vstd::prelude::*;
use crate::gateway::{serve_api_call, Gateway};
use crate::governor::ResourceGovernor;
use crate::types::{json_text, json_text_of, PluginMessage};

verus! {

#[verifier::external_type_specification]
#[verifier::external_body]
pub struct ExLua(mlua::Lua);

/// Why a script could not be run or could not take a message.
#[derive(Clone, Debug, PartialEq, Eq)]
pub enum ScriptError {
    /// A parse or runtime error inside the engine, with its message.
    Script(String),
    /// The named hook raised an error, with the engine's message.
    Hook(Hook, String),
}

/// Lifecycle entry points a script may define.
#[derive(Clone, Copy, Debug, PartialEq, Eq, Structural)]
pub enum Hook {
    Init,
    Start,
    Stop,
    Unload,
}

/// Global name of a hook function in the script.
pub open spec fn hook_name(h: Hook) -> Seq<char> {
    match h {
        Hook::Init => "init"@,
        Hook::Start => "start"@,
        Hook::Stop => "stop"@,
        Hook::Unload => "unload"@,
    }
}

/// A host primitive visible to scripts: a library table name (empty for a
/// plain global) and the function name inside it.
pub type Capability = (Seq<char>, Seq<char>);

/// Every primitive installed in a script's environment, in installation order:
/// the logging function and a few string and number helpers.
pub open spec fn capability_allowlist() -> Seq<Capability> {
    seq![
        (""@, "print"@),
        ("string"@, "len"@),
        ("string"@, "sub"@),
        ("string"@, "upper"@),
        ("string"@, "lower"@),
        ("math"@, "abs"@),
        ("math"@, "ceil"@),
        ("math"@, "floor"@),
        ("math"@, "max"@),
        ("math"@, "min"@),
    ]
}

pub open spec fn allowlisted(c: Capability) -> bool {
    capability_allowlist().contains(c)
}

/// The fields of a message as a script's handler receives them.
pub struct Delivery {
    pub source: Seq<char>,
    pub target: Option<Seq<char>>,
    pub message_type: Seq<char>,
    pub payload: Seq<char>,
    pub timestamp: Seq<char>,
}

/// The fields of `m` as its handler receives them.
pub open spec fn delivery_of(m: PluginMessage) -> Delivery {
    Delivery {
        source: m.source@,
        target: match m.target { Some(t) => Some(t@), None => None },
        message_type: m.message_type@,
        payload: json_text_of(m.payload),
        timestamp: rfc3339_of(m.timestamp.spec_millis() as int),
    }
}

/// One entry into the engine.
pub enum EngineCall {
    /// A chunk of script text evaluated in the environment.
    Run(Seq<char>),
    /// The environment's function of this name called with no argument.
    Hook(Seq<char>),
    /// The environment's `on_message` called with these fields.
    Message(Delivery),
    /// A look-up of whether the environment holds a function of this name, with its answer.
    Probe(Seq<char>, bool),
}

/// Name for the RFC 3339 text of an instant given in milliseconds since the epoch.
pub uninterp spec fn rfc3339_of(millis: int) -> Seq<char>;

/// Relies on `chrono::DateTime::from_timestamp_millis`, which is `Some` for every
/// instant of the calendar range, and `to_rfc3339`, which depends on the instant alone.
#[verifier::external_body]
fn rfc3339(millis: i64) -> (r: String)
    requires
        crate::types::MIN_TIMESTAMP_MS <= millis <= crate::types::MAX_TIMESTAMP_MS,
    ensures
        r@ == rfc3339_of(millis as int),
{
    chrono::DateTime::from_timestamp_millis(millis).map(|d| d.to_rfc3339()).unwrap_or_default()
}

/// Relies on `mlua::Lua::new`: a fresh engine state, unrelated to any other.
#[verifier::external_body]
fn new_engine() -> (r: mlua::Lua) {
    mlua::Lua::new()
}

/// One plugin's script engine. Its ghost fields model the engine and are
/// changed only by the trusted calls into it.
pub struct Sandbox {
    lua: mlua::Lua,
    /// Primitives installed in the environment, in order.
    exposed: Ghost<Seq<Capability>>,
    /// Whether string values index only the environment's `string` table.
    confined: Ghost<bool>,
    /// Every entry into the engine, in order.
    log: Ghost<Seq<EngineCall>>,
    /// Names under which the environment now holds a function.
    defined: Ghost<Set<Seq<char>>>,
    has_handler: bool,
}

/// Relies on `Lua::create_table` and `Lua::set_named_registry_value`: an empty
/// table becomes the environment that scripts run in.
#[verifier::external_body]
fn reset_environment(sb: &mut Sandbox) -> (r: Result<(), String>)
    ensures
        r is Ok ==> final(sb).exposed@ == Seq::<Capability>::empty() && final(sb).defined@ == Set::<Seq<char>>::empty(),
        r is Err ==> final(sb).exposed == old(sb).exposed && final(sb).defined == old(sb).defined,
        final(sb).confined == old(sb).confined,
        final(sb).log == old(sb).log,
        final(sb).has_handler == old(sb).has_handler,
{
    let env = sb.lua.create_table().map_err(|e| e.to_string())?;
    sb.lua.set_named_registry_value("plugin_env", env).map_err(|e| e.to_string())
}

/// Relies on `Lua::set_memory_limit`: the engine's allocations are capped at `bytes`.
#[verifier::external_body]
fn limit_memory(sb: &Sandbox, bytes: usize) -> (r: Result<(), String>) {
    sb.lua.set_memory_limit(bytes).map(|_| ()).map_err(|e| e.to_string())
}

/// Relies on `Table::get` and `Table::set`: the engine's global function `name`
/// is placed under the same name in the script environment.
#[verifier::external_body]
fn expose_global(sb: &mut Sandbox, name: &str) -> (r: Result<(), String>)
    ensures
        r is Ok ==> final(sb).exposed@ == old(sb).exposed@.push((""@, name@)),
        r is Err ==> final(sb).exposed == old(sb).exposed,
        final(sb).confined == old(sb).confined,
        final(sb).log == old(sb).log,
        final(sb).has_handler == old(sb).has_handler,
{
    let env: mlua::Table = sb.lua.named_registry_value("plugin_env").map_err(|e| e.to_string())?;
    let f: mlua::Function = sb.lua.globals().get(name).map_err(|e| e.to_string())?;
    env.set(name, f).map_err(|e| e.to_string())
}

/// Relies on `Lua::create_table` and `Table::set`: an empty table named `lib`
/// is placed in the script environment.
#[verifier::external_body]
fn expose_table(sb: &mut Sandbox, lib: &str) -> (r: Result<(), String>)
    ensures
        final(sb).exposed == old(sb).exposed,
        final(sb).confined == old(sb).confined,
        final(sb).log == old(sb).log,
        final(sb).has_handler == old(sb).has_handler,
{
    let env: mlua::Table = sb.lua.named_registry_value("plugin_env").map_err(|e| e.to_string())?;
    let t = sb.lua.create_table().map_err(|e| e.to_string())?;
    env.set(lib, t).map_err(|e| e.to_string())
}

/// Relies on `Table::get` and `Table::set`: the function `lib.name` of the
/// engine's standard library is copied into the environment's table `lib`.
#[verifier::external_body]
fn expose_member(sb: &mut Sandbox, lib: &str, name: &str) -> (r: Result<(), String>)
    ensures
        r is Ok ==> final(sb).exposed@ == old(sb).exposed@.push((lib@, name@)),
        r is Err ==> final(sb).exposed == old(sb).exposed,
        final(sb).confined == old(sb).confined,
        final(sb).log == old(sb).log,
        final(sb).has_handler == old(sb).has_handler,
{
    let env: mlua::Table = sb.lua.named_registry_value("plugin_env").map_err(|e| e.to_string())?;
    let src: mlua::Table = sb.lua.globals().get(lib).map_err(|e| e.to_string())?;
    let f: mlua::Function = src.get(name).map_err(|e| e.to_string())?;
    let dst: mlua::Table = env.get(lib).map_err(|e| e.to_string())?;
    dst.set(name, f).map_err(|e| e.to_string())
}

/// Relies on `Table::set` on the metatable that every string value shares
/// (from the engine's `getmetatable`): its `__index` becomes the environment's
/// `string` table, so `s:method()` reaches only the installed string helpers.
#[verifier::external_body]
fn confine_string_methods(sb: &mut Sandbox) -> (r: Result<(), String>)
    ensures
        r is Ok ==> final(sb).confined@,
        r is Err ==> final(sb).confined == old(sb).confined,
        final(sb).exposed == old(sb).exposed,
        final(sb).log == old(sb).log,
        final(sb).has_handler == old(sb).has_handler,
{
    let env: mlua::Table = sb.lua.named_registry_value("plugin_env").map_err(|e| e.to_string())?;
    let safe: mlua::Table = env.get("string").map_err(|e| e.to_string())?;
    let getmt: mlua::Function = sb.lua.globals().get("getmetatable").map_err(|e| e.to_string())?;
    let mt: mlua::Table = getmt.call("").map_err(|e| e.to_string())?;
    mt.set("__index", safe).map_err(|e| e.to_string())
}

/// Relies on `Chunk::set_mode(Text)`, `Chunk::set_environment` and `Chunk::exec`:
/// the script is parsed as source text, never as bytecode, and runs with the
/// environment table as its only global scope.
#[verifier::external_body]
fn run_in_environment(sb: &mut Sandbox, script: &str) -> (r: Result<(), String>)
    requires
    ensures
        final(sb).log@ == old(sb).log@.push(EngineCall::Run(script@)),
        final(sb).exposed == old(sb).exposed,
        final(sb).confined == old(sb).confined,
        final(sb).has_handler == old(sb).has_handler,
{
    let env: mlua::Table = sb.lua.named_registry_value("plugin_env").map_err(|e| e.to_string())?;
    let chunk = sb.lua.load(script).set_mode(mlua::ChunkMode::Text).set_environment(env);
    chunk.exec().map_err(|e| e.to_string())
}

/// Relies on `Table::get`: whether the environment holds a function under `name`.
#[verifier::external_body]
fn environment_has_function(sb: &mut Sandbox, name: &str) -> (r: bool)
    ensures
        r == old(sb).defined@.contains(name@),
        final(sb).log@ == old(sb).log@.push(EngineCall::Probe(name@, r)),
        final(sb).defined == old(sb).defined,
        final(sb).exposed == old(sb).exposed,
        final(sb).confined == old(sb).confined,
        final(sb).has_handler == old(sb).has_handler,
{
    match sb.lua.named_registry_value::<mlua::Table>("plugin_env") {
        Ok(env) => env.get::<_, mlua::Function>(name).is_ok(),
        Err(_) => false,
    }
}

/// Relies on `Lua::scope`, `Scope::create_function_mut`, `Table::set` and
/// `Function::call`: calls the environment's function `name` with no argument,
/// while the environment's `api.call(api, method, params)` hands its arguments
/// to `serve_api_call` with this plugin's permissions and governor.
#[verifier::external_body]
fn call_with_api(
    sb: &mut Sandbox,
    name: &str,
    gateway: &Gateway,
    permissions: &Vec<String>,
    governor: &mut ResourceGovernor,
    now: u64,
) -> (r: Result<(), String>)
    requires
        gateway.wf(),
        old(governor).wf(),
    ensures
        final(sb).log@ == old(sb).log@.push(EngineCall::Hook(name@)),
        final(sb).exposed == old(sb).exposed,
        final(sb).confined == old(sb).confined,
        final(sb).has_handler == old(sb).has_handler,
        final(governor).wf(),
        final(governor).limits == old(governor).limits,
{
    sb.lua.scope(|scope| {
        let env: mlua::Table = sb.lua.named_registry_value("plugin_env")?;
        let call = scope.create_function_mut(|_, (a, m, p): (String, String, String)| {
            serve_api_call(gateway, permissions, governor, now, &a, &m, &p).map_err(mlua::Error::RuntimeError)
        })?;
        env.set("api", sb.lua.create_table_from([("call", call)])?)?;
        env.get::<_, mlua::Function>(name)?.call(())
    }).map_err(|e| e.to_string())
}

/// Relies on `Lua::create_table_from`, `Table::set`, `Lua::scope` and
/// `Function::call`: calls the environment's `on_message` with a table of the
/// five message fields, with `api` served as in `call_with_api`.
#[verifier::external_body]
fn call_handler_with_api(
    sb: &mut Sandbox,
    d: (&str, Option<&str>, &str, &str, &str),
    gateway: &Gateway,
    permissions: &Vec<String>,
    governor: &mut ResourceGovernor,
    now: u64,
) -> (r: Result<(), String>)
    requires
        gateway.wf(),
        old(governor).wf(),
    ensures
        final(sb).log@ == old(sb).log@.push(EngineCall::Message(Delivery {
            source: d.0@,
            target: match d.1 { Some(t) => Some(t@), None => None },
            message_type: d.2@,
            payload: d.3@,
            timestamp: d.4@,
        })),
        final(sb).exposed == old(sb).exposed,
        final(sb).confined == old(sb).confined,
        final(sb).has_handler == old(sb).has_handler,
        final(governor).wf(),
        final(governor).limits == old(governor).limits,
{
    sb.lua.scope(|scope| {
        let env: mlua::Table = sb.lua.named_registry_value("plugin_env")?;
        let call = scope.create_function_mut(|_, (a, m, p): (String, String, String)| {
            serve_api_call(gateway, permissions, governor, now, &a, &m, &p).map_err(mlua::Error::RuntimeError)
        })?;
        env.set("api", sb.lua.create_table_from([("call", call)])?)?;
        let msg = sb.lua.create_table_from([("source", d.0), ("message_type", d.2), ("payload", d.3), ("timestamp", d.4)])?;
        msg.set("target", d.1)?;
        env.get::<_, mlua::Function>("on_message")?.call(msg)
    }).map_err(|e| e.to_string())
}

fn script_error(e: String) -> (r: ScriptError)
    ensures
        r == ScriptError::Script(e),
{
    ScriptError::Script(e)
}

/// `calls` followed by a look-up of `name` that answered `defined` and, when
/// it did, a call of that function.
pub open spec fn hooked(calls: Seq<EngineCall>, name: Seq<char>, defined: bool) -> Seq<EngineCall> {
    if defined {
        calls.push(EngineCall::Probe(name, true)).push(EngineCall::Hook(name))
    } else {
        calls.push(EngineCall::Probe(name, false))
    }
}

impl Sandbox {
    /// Primitives installed in the environment, in installation order.
    pub closed spec fn capabilities(&self) -> Seq<Capability> {
        self.exposed@
    }

    /// Every entry into this engine, in order.
    pub closed spec fn calls(&self) -> Seq<EngineCall> {
        self.log@
    }

    /// Whether the environment now holds a function named `name`.
    pub closed spec fn defines(&self, name: Seq<char>) -> bool {
        self.defined@.contains(name)
    }

    /// Whether the script defined a message handler when it was loaded.
    pub closed spec fn handles_messages(&self) -> bool {
        self.has_handler
    }

    /// String values index only the installed string helpers.
    pub closed spec fn strings_confined(&self) -> bool {
        self.confined@
    }

    pub fn has_message_handler(&self) -> (r: bool)
        ensures
            r == self.handles_messages(),
    {
        self.has_handler
    }

    /// The environment holds the allowlist and string methods are confined to it.
    pub closed spec fn wf(&self) -> bool {
        self.exposed@ == capability_allowlist() && self.confined@
    }

    /// A fresh engine, capped at `memory_limit` bytes, whose environment holds
    /// the allowlisted primitives and nothing else, and which has run nothing.
    pub fn fresh(memory_limit: usize) -> (r: Result<Sandbox, ScriptError>)
        ensures
            r matches Ok(s) ==> s.wf() && s.capabilities() == capability_allowlist()
                && s.strings_confined() && s.calls() == Seq::<EngineCall>::empty() && !s.handles_messages(),
    {
        let mut sb = Sandbox {
            lua: new_engine(),
            exposed: Ghost(Seq::empty()),
            confined: Ghost(false),
            log: Ghost(Seq::empty()),
            defined: Ghost(Set::empty()),
            has_handler: false,
        };
        if let Err(e) = limit_memory(&sb, memory_limit) {
            return Err(script_error(e));
        }
        if let Err(e) = reset_environment(&mut sb) {
            return Err(script_error(e));
        }
        if let Err(e) = expose_global(&mut sb, "print") {
            return Err(script_error(e));
        }
        if let Err(e) = expose_table(&mut sb, "string") {
            return Err(script_error(e));
        }
        assert(sb.exposed@ =~= capability_allowlist().subrange(0, 1));
        let string_fns = ["len", "sub", "upper", "lower"];
        let mut i: usize = 0;
        while i < 4
            invariant
                i <= 4,
                string_fns@ == seq!["len", "sub", "upper", "lower"],
                sb.exposed@ == capability_allowlist().subrange(0, 1 + i as int),
                sb.log@ == Seq::<EngineCall>::empty(),
                !sb.has_handler,
            decreases 4 - i,
        {
            if let Err(e) = expose_member(&mut sb, "string", string_fns[i]) {
                return Err(script_error(e));
            }
            assert(capability_allowlist().subrange(0, 2 + i as int) =~=
                capability_allowlist().subrange(0, 1 + i as int).push(("string"@, string_fns@[i as int]@)));
            i = i + 1;
        }
        if let Err(e) = confine_string_methods(&mut sb) {
            return Err(script_error(e));
        }
        if let Err(e) = expose_table(&mut sb, "math") {
            return Err(script_error(e));
        }
        let math_fns = ["abs", "ceil", "floor", "max", "min"];
        let mut j: usize = 0;
        while j < 5
            invariant
                j <= 5,
                math_fns@ == seq!["abs", "ceil", "floor", "max", "min"],
                sb.exposed@ == capability_allowlist().subrange(0, 5 + j as int),
                sb.confined@,
                sb.log@ == Seq::<EngineCall>::empty(),
                !sb.has_handler,
            decreases 5 - j,
        {
            if let Err(e) = expose_member(&mut sb, "math", math_fns[j]) {
                return Err(script_error(e));
            }
            assert(capability_allowlist().subrange(0, 6 + j as int) =~=
                capability_allowlist().subrange(0, 5 + j as int).push(("math"@, math_fns@[j as int]@)));
            j = j + 1;
        }
        assert(sb.exposed@ =~= capability_allowlist());
        Ok(sb)
    }

    /// Evaluates the script's top level in the environment and records whether it defined `on_message`.
    pub fn load(&mut self, script: &str) -> (r: Result<(), ScriptError>)
        ensures
            final(self).calls() == old(self).calls().push(EngineCall::Run(script@)).push(
                EngineCall::Probe("on_message"@, final(self).handles_messages())),
            final(self).capabilities() == old(self).capabilities(),
            final(self).strings_confined() == old(self).strings_confined(),
            old(self).wf() ==> final(self).wf(),
            final(self).handles_messages() == final(self).defines("on_message"@),
    {
        let r = run_in_environment(self, script);
        self.has_handler = environment_has_function(self, "on_message");
        match r {
            Ok(()) => Ok(()),
            Err(e) => Err(script_error(e)),
        }
    }

    /// A fresh sandbox that has evaluated `script`; on failure the engine is
    /// dropped, so no partial global state survives.
    pub fn create(script: &str, memory_limit: usize) -> (r: Result<Sandbox, ScriptError>)
        ensures
            r matches Ok(s) ==> s.wf() && s.capabilities() == capability_allowlist()
                && s.calls() == seq![EngineCall::Run(script@), EngineCall::Probe("on_message"@, s.handles_messages())]
                && s.handles_messages() == s.defines("on_message"@),
    {
        let mut sb = match Self::fresh(memory_limit) {
            Ok(s) => s,
            Err(e) => return Err(e),
        };
        match sb.load(script) {
            Ok(()) => {
                assert(sb.calls() =~= seq![EngineCall::Run(script@), EngineCall::Probe("on_message"@, sb.handles_messages())]);
                Ok(sb)
            },
            Err(e) => Err(e),
        }
    }

    /// Calls the hook if the environment defines it, with `api` served through
    /// `gateway`; an absent hook is a no-op.
    pub fn invoke_hook(
        &mut self,
        hook: Hook,
        gateway: &Gateway,
        permissions: &Vec<String>,
        governor: &mut ResourceGovernor,
        now: u64,
    ) -> (r: Result<(), ScriptError>)
        requires
            gateway.wf(),
            old(governor).wf(),
        ensures
            final(governor).wf(),
            final(governor).limits == old(governor).limits,
            final(self).calls() == hooked(old(self).calls(), hook_name(hook), old(self).defines(hook_name(hook))),
            !old(self).defines(hook_name(hook)) ==> r is Ok && *final(governor) == *old(governor),
            r is Err ==> r->Err_0 is Hook && r->Err_0->Hook_0 == hook,
            final(self).capabilities() == old(self).capabilities(),
            final(self).strings_confined() == old(self).strings_confined(),
            final(self).handles_messages() == old(self).handles_messages(),
            old(self).wf() ==> final(self).wf(),
    {
        let name = match hook {
            Hook::Init => "init",
            Hook::Start => "start",
            Hook::Stop => "stop",
            Hook::Unload => "unload",
        };
        proof { reveal_strlit("init"); reveal_strlit("start"); reveal_strlit("stop"); reveal_strlit("unload"); }
        if !environment_has_function(self, name) {
            return Ok(());
        }
        match call_with_api(self, name, gateway, permissions, governor, now) {
            Ok(()) => Ok(()),
            Err(e) => Err(ScriptError::Hook(hook, e)),
        }
    }

    /// Hands the message to the script's handler, with `api` served through
    /// `gateway`; answers `Ok(false)` when the script defined none and the
    /// message is dropped.
    pub fn deliver_message(
        &mut self,
        message: &PluginMessage,
        gateway: &Gateway,
        permissions: &Vec<String>,
        governor: &mut ResourceGovernor,
        now: u64,
    ) -> (r: Result<bool, ScriptError>)
        requires
            gateway.wf(),
            old(governor).wf(),
        ensures
            final(governor).wf(),
            final(governor).limits == old(governor).limits,
            !old(self).handles_messages() ==> r == Ok::<bool, ScriptError>(false) && *final(self) == *old(self)
                && *final(governor) == *old(governor),
            old(self).handles_messages() ==> r != Ok::<bool, ScriptError>(false)
                && final(self).calls() == old(self).calls().push(EngineCall::Message(delivery_of(*message))),
            final(self).capabilities() == old(self).capabilities(),
            final(self).strings_confined() == old(self).strings_confined(),
            final(self).handles_messages() == old(self).handles_messages(),
            old(self).wf() ==> final(self).wf(),
    {
        if !self.has_handler {
            return Ok(false);
        }
        let payload = json_text(&message.payload);
        let stamp = rfc3339(message.timestamp.millis());
        let target = match &message.target {
            Some(t) => Some(t.as_str()),
            None => None,
        };
        let d = (message.source.as_str(), target, message.message_type.as_str(), payload.as_str(), stamp.as_str());
        match call_handler_with_api(self, d, gateway, permissions, governor, now) {
            Ok(()) => Ok(true),
            Err(e) => Err(script_error(e)),
        }
    }
}

/// Only allowlisted primitives are reachable from a sandbox's scripts: every
/// primitive installed in its environment is on the allowlist, and string
/// values' methods are confined to the installed string helpers.
pub proof fn lemma_only_allowlisted_reachable(sb: Sandbox, c: Capability)
    requires
        sb.wf(),
        sb.capabilities().contains(c),
    ensures
        allowlisted(c),
        sb.strings_confined(),
{
}

} // verus!
