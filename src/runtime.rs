use vstd::prelude::*;
use crate::gateway::Gateway;
use crate::governor::ResourceGovernor;
use crate::sandbox::{delivery_of, hook_name, hooked, EngineCall, Hook, Sandbox, ScriptError};
use crate::types::{PluginMessage, PluginStatus, ResourceLimits};

verus! {

/// States of one plugin's lifecycle.
#[derive(Clone, Copy, Debug, PartialEq, Eq, Structural)]
pub enum LifecycleState {
    /// Script discovered, not yet evaluated.
    Installed,
    /// Script loaded, `init` dispatched.
    Initializing,
    /// `start` dispatched; receives messages and may call the host.
    Active,
    /// `stop` dispatched on the way to another state.
    Stopping,
    /// Terminal; the sandbox is discarded.
    Unloaded,
    /// A script load or hook failed.
    Error,
    /// Suspended by the host.
    Disabled,
}

/// How an attempt to bring a script up ended.
#[derive(Clone, Debug, PartialEq, Eq)]
pub enum StartOutcome {
    /// The engine could not be prepared; no script ran.
    SetupFailed(ScriptError),
    LoadFailed(ScriptError),
    InitFailed(ScriptError),
    StartFailed(ScriptError),
    Started,
}

/// State reached after bringing a script up with the given outcome.
pub open spec fn settle(o: StartOutcome) -> LifecycleState {
    match o {
        StartOutcome::Started => LifecycleState::Active,
        _ => LifecycleState::Error,
    }
}

/// Entries into the engine while bringing `script` up with outcome `o`: the
/// script runs, the environment is asked for `on_message` (`h`), then for
/// `init` (`a`) and `start` (`b`), each called where defined.
pub open spec fn start_calls(script: Seq<char>, o: StartOutcome, h: bool, a: bool, b: bool) -> Seq<EngineCall> {
    let run = seq![EngineCall::Run(script), EngineCall::Probe("on_message"@, h)];
    match o {
        StartOutcome::SetupFailed(_) => Seq::empty(),
        StartOutcome::LoadFailed(_) => run,
        StartOutcome::InitFailed(_) => hooked(run, "init"@, true),
        StartOutcome::StartFailed(_) => hooked(hooked(run, "init"@, a), "start"@, true),
        StartOutcome::Started => hooked(hooked(run, "init"@, a), "start"@, b),
    }
}

/// History after the `stop` that unload and reload run on an active runtime.
pub open spec fn after_stop(rt: PluginRuntime) -> Seq<EngineCall> {
    if rt.state == LifecycleState::Active { after_hook(rt, "stop"@) } else { rt.history() }
}

/// History after asking the sandbox, if any, for `name` and calling it where defined.
pub open spec fn after_hook(rt: PluginRuntime, name: Seq<char>) -> Seq<EngineCall> {
    match rt.sandbox {
        Some(sb) => hooked(rt.history(), name, sb.defines(name)),
        None => rt.history(),
    }
}

/// Manager-facing status of a lifecycle state; transient states never last
/// past a completed transition.
pub open spec fn status_of(s: LifecycleState) -> PluginStatus {
    match s {
        LifecycleState::Active => PluginStatus::Active,
        LifecycleState::Error => PluginStatus::Error,
        LifecycleState::Disabled => PluginStatus::Disabled,
        _ => PluginStatus::Installed,
    }
}

/// State reached after bringing a script up with outcome `o`.
pub fn settled_state(o: &StartOutcome) -> (r: LifecycleState)
    ensures
        r == settle(*o),
{
    match o {
        StartOutcome::Started => LifecycleState::Active,
        _ => LifecycleState::Error,
    }
}

pub fn status_of_state(s: LifecycleState) -> (r: PluginStatus)
    ensures
        r == status_of(s),
{
    match s {
        LifecycleState::Active => PluginStatus::Active,
        LifecycleState::Error => PluginStatus::Error,
        LifecycleState::Disabled => PluginStatus::Disabled,
        _ => PluginStatus::Installed,
    }
}

/// Length of a rate window for API calls, in milliseconds.
pub const RATE_WINDOW_MS: u64 = 60000;

/// One plugin's script, its sandbox and its resource accounting.
pub struct PluginRuntime {
    pub state: LifecycleState,
    pub sandbox: Option<Sandbox>,
    pub script: String,
    pub governor: ResourceGovernor,
    /// Messages handed to this runtime, in delivery order.
    pub delivered: Ghost<Seq<PluginMessage>>,
    /// Entries into sandboxes this runtime has discarded, in order.
    pub retired: Ghost<Seq<EngineCall>>,
}

impl PluginRuntime {
    /// The governor and the sandbox are well formed, whatever the state.
    pub open spec fn parts_wf(&self) -> bool {
        &&& self.governor.wf()
        &&& (self.sandbox matches Some(sb) ==> sb.wf())
    }

    pub open spec fn wf(&self) -> bool {
        &&& self.parts_wf()
        &&& (self.state == LifecycleState::Active ==> self.sandbox is Some)
        &&& (self.state == LifecycleState::Disabled ==> self.sandbox is Some)
        &&& self.state != LifecycleState::Initializing
        &&& self.state != LifecycleState::Stopping
    }

    /// Every entry into this runtime's engines, the discarded ones first.
    pub open spec fn history(&self) -> Seq<EngineCall> {
        match self.sandbox {
            Some(sb) => self.retired@ + sb.calls(),
            None => self.retired@,
        }
    }

    /// Whether messages reach a script handler.
    pub open spec fn handles_messages(&self) -> bool {
        self.sandbox matches Some(sb) && sb.handles_messages()
    }

    /// A runtime in `Installed` with no sandbox yet.
    pub fn new(script: String, limits: ResourceLimits, now: u64) -> (r: Self)
        ensures
            r.wf(),
            r.state == LifecycleState::Installed,
            r.sandbox is None,
            r.script == script,
            r.governor.limits == limits,
            r.governor.usage.api_calls == 0,
            r.delivered@ == Seq::<PluginMessage>::empty(),
            r.history() == Seq::<EngineCall>::empty(),
    {
        PluginRuntime {
            state: LifecycleState::Installed,
            sandbox: None,
            script,
            governor: ResourceGovernor::new(limits, RATE_WINDOW_MS, now),
            delivered: Ghost(Seq::empty()),
            retired: Ghost(Seq::empty()),
        }
    }

    /// Discards the sandbox, keeping its entries in the history.
    fn discard_sandbox(&mut self)
        ensures
            final(self).sandbox is None,
            final(self).history() == old(self).history(),
            final(self).state == old(self).state,
            final(self).script == old(self).script,
            final(self).governor == old(self).governor,
            final(self).delivered == old(self).delivered,
    {
        if let Some(sb) = &self.sandbox {
            proof { self.retired = Ghost(self.retired@ + sb.calls()); }
        }
        self.sandbox = None;
    }

    /// Runs `hook` on the sandbox, if there is one, serving `api` through `gateway`.
    fn run_hook(&mut self, hook: Hook, gateway: &Gateway, permissions: &Vec<String>, now: u64)
        -> (r: Result<(), ScriptError>)
        requires
            old(self).parts_wf(),
            gateway.wf(),
        ensures
            final(self).parts_wf(),
            final(self).history() == after_hook(*old(self), hook_name(hook)),
            r is Err ==> r->Err_0 is Hook && r->Err_0->Hook_0 == hook,
            r is Err ==> (old(self).sandbox matches Some(sb) && sb.defines(hook_name(hook))),
            final(self).sandbox is Some == old(self).sandbox is Some,
            final(self).handles_messages() == old(self).handles_messages(),
            final(self).state == old(self).state,
            final(self).script == old(self).script,
            final(self).governor.limits == old(self).governor.limits,
            final(self).delivered == old(self).delivered,
    {
        match &mut self.sandbox {
            Some(sb) => {
                let ghost before = sb.calls();
                let ghost defined = sb.defines(hook_name(hook));
                let r = sb.invoke_hook(hook, gateway, permissions, &mut self.governor, now);
                proof {
                    assert(self.retired@ + sb.calls() =~= hooked(self.retired@ + before, hook_name(hook), defined));
                }
                r
            },
            None => Ok(()),
        }
    }

    /// Discards any sandbox, evaluates the script in a fresh one, then runs
    /// `init` and then `start`. A sandbox whose script loaded is kept, also
    /// after a hook failed.
    pub fn bring_up(&mut self, gateway: &Gateway, permissions: &Vec<String>, now: u64) -> (o: StartOutcome)
        requires
            old(self).wf(),
            gateway.wf(),
        ensures
            final(self).wf(),
            final(self).state == settle(o),
            (o is SetupFailed || o is LoadFailed) <==> final(self).sandbox is None,
            o is InitFailed ==> o->InitFailed_0 is Hook && o->InitFailed_0->Hook_0 == Hook::Init,
            o is StartFailed ==> o->StartFailed_0 is Hook && o->StartFailed_0->Hook_0 == Hook::Start,
            exists|h: bool, a: bool, b: bool| final(self).history()
                == old(self).history() + start_calls(old(self).script@, o, h, a, b),
            final(self).script == old(self).script,
            final(self).governor.limits == old(self).governor.limits,
            final(self).delivered == old(self).delivered,
    {
        self.discard_sandbox();
        self.state = LifecycleState::Installed;
        let ghost h0 = self.history();
        let memory = match self.governor.limits.max_memory {
            Some(m) => m,
            None => 0,
        };
        let mut sb = match Sandbox::fresh(memory) {
            Ok(sb) => sb,
            Err(e) => {
                self.state = LifecycleState::Error;
                assert(self.history() =~= h0 + start_calls(self.script@, StartOutcome::SetupFailed(e), false, false, false));
                return StartOutcome::SetupFailed(e);
            },
        };
        let loaded = sb.load(self.script.as_str());
        let ghost h = sb.handles_messages();
        if let Err(e) = loaded {
            proof { self.retired = Ghost(self.retired@ + sb.calls()); }
            self.state = LifecycleState::Error;
            assert(self.history() =~= h0 + start_calls(self.script@, StartOutcome::LoadFailed(e), h, false, false));
            return StartOutcome::LoadFailed(e);
        }
        self.sandbox = Some(sb);
        self.state = LifecycleState::Initializing;
        let ghost h1 = self.history();
        assert(h1 =~= h0 + seq![EngineCall::Run(self.script@), EngineCall::Probe("on_message"@, h)]);
        let ghost a = self.sandbox->Some_0.defines("init"@);
        let init = self.run_hook(Hook::Init, gateway, permissions, now);
        let ghost h2 = self.history();
        if let Err(e) = init {
            self.state = LifecycleState::Error;
            assert(self.history() =~= h0 + start_calls(self.script@, StartOutcome::InitFailed(e), h, true, false));
            return StartOutcome::InitFailed(e);
        }
        let ghost b = self.sandbox->Some_0.defines("start"@);
        let start = self.run_hook(Hook::Start, gateway, permissions, now);
        if let Err(e) = start {
            self.state = LifecycleState::Error;
            assert(self.history() =~= h0 + start_calls(self.script@, StartOutcome::StartFailed(e), h, a, true));
            return StartOutcome::StartFailed(e);
        }
        self.state = LifecycleState::Active;
        assert(self.history() =~= h0 + start_calls(self.script@, StartOutcome::Started, h, a, b));
        StartOutcome::Started
    }

    /// Runs `stop` on an active runtime and moves it to `Disabled`, or to
    /// `Error` when the hook fails.
    pub fn disable(&mut self, gateway: &Gateway, permissions: &Vec<String>, now: u64) -> (r: Result<(), ScriptError>)
        requires
            old(self).wf(),
            old(self).state == LifecycleState::Active,
            gateway.wf(),
        ensures
            final(self).wf(),
            final(self).state == if r is Ok { LifecycleState::Disabled } else { LifecycleState::Error },
            final(self).history() == after_hook(*old(self), "stop"@),
            final(self).handles_messages() == old(self).handles_messages(),
            final(self).script == old(self).script,
            final(self).governor.limits == old(self).governor.limits,
            final(self).delivered == old(self).delivered,
    {
        let ghost h0 = self.history();
        self.state = LifecycleState::Stopping;
        let r = self.run_hook(Hook::Stop, gateway, permissions, now);
        self.state = if r.is_ok() { LifecycleState::Disabled } else { LifecycleState::Error };
        r
    }

    /// Runs `start` on a disabled runtime and moves it to `Active`, or to
    /// `Error` when the hook fails.
    pub fn enable(&mut self, gateway: &Gateway, permissions: &Vec<String>, now: u64) -> (r: Result<(), ScriptError>)
        requires
            old(self).wf(),
            old(self).state == LifecycleState::Disabled,
            gateway.wf(),
        ensures
            final(self).wf(),
            final(self).state == if r is Ok { LifecycleState::Active } else { LifecycleState::Error },
            final(self).history() == after_hook(*old(self), "start"@),
            final(self).handles_messages() == old(self).handles_messages(),
            final(self).script == old(self).script,
            final(self).governor.limits == old(self).governor.limits,
            final(self).delivered == old(self).delivered,
    {
        let ghost h0 = self.history();
        let r = self.run_hook(Hook::Start, gateway, permissions, now);
        self.state = if r.is_ok() { LifecycleState::Active } else { LifecycleState::Error };
        r
    }

    /// Runs `stop` (when active) and then `unload`, then discards the sandbox;
    /// the runtime ends `Unloaded` whatever the hooks answered.
    pub fn unload(&mut self, gateway: &Gateway, permissions: &Vec<String>, now: u64) -> (r: Result<(), ScriptError>)
        requires
            old(self).wf(),
            gateway.wf(),
        ensures
            final(self).state == LifecycleState::Unloaded,
            final(self).sandbox is None,
            old(self).sandbox is None ==> final(self).history() == old(self).history(),
            old(self).sandbox is Some ==> exists|u: bool| #[trigger] hooked(after_stop(*old(self)), "unload"@, u)
                == final(self).history(),
            final(self).script == old(self).script,
            final(self).delivered == old(self).delivered,
    {
        let mut r: Result<(), ScriptError> = Ok(());
        if self.state == LifecycleState::Active {
            r = self.run_hook(Hook::Stop, gateway, permissions, now);
        }
        assert(self.history() == after_stop(*old(self)));
        assert(self.sandbox is Some == old(self).sandbox is Some);
        let ghost u = self.sandbox is Some && self.sandbox->Some_0.defines("unload"@);
        let v = self.run_hook(Hook::Unload, gateway, permissions, now);
        if r.is_ok() {
            r = v;
        }
        self.discard_sandbox();
        self.state = LifecycleState::Unloaded;
        assert(old(self).sandbox is Some ==> hooked(after_stop(*old(self)), "unload"@, u) == self.history());
        r
    }

    /// Runs `stop` on an active runtime, discards its sandbox and brings
    /// `script` up in a fresh one. The stop hook's answer does not hold the
    /// reload back.
    pub fn reload(&mut self, script: String, gateway: &Gateway, permissions: &Vec<String>, now: u64) -> (o: StartOutcome)
        requires
            old(self).wf(),
            gateway.wf(),
        ensures
            final(self).wf(),
            final(self).state == settle(o),
            final(self).script == script,
            exists|h: bool, a: bool, b: bool| final(self).history() == after_stop(*old(self)) + start_calls(script@, o, h, a, b),
            final(self).governor.limits == old(self).governor.limits,
            final(self).delivered == old(self).delivered,
    {
        if self.state == LifecycleState::Active {
            let _ = self.run_hook(Hook::Stop, gateway, permissions, now);
        }
        self.discard_sandbox();
        self.state = LifecycleState::Installed;
        self.script = script;
        self.bring_up(gateway, permissions, now)
    }

    /// Hands a message to an active runtime's script. A handler error is
    /// reported to the caller and leaves the state as it was.
    pub fn receive(&mut self, message: &PluginMessage, gateway: &Gateway, permissions: &Vec<String>, now: u64)
        -> (r: Result<bool, ScriptError>)
        requires
            old(self).wf(),
            old(self).state == LifecycleState::Active,
            gateway.wf(),
        ensures
            final(self).wf(),
            final(self).delivered@ == old(self).delivered@.push(*message),
            final(self).history() == if old(self).handles_messages() {
                old(self).history().push(EngineCall::Message(delivery_of(*message)))
            } else {
                old(self).history()
            },
            (r == Ok::<bool, ScriptError>(false)) == !old(self).handles_messages(),
            final(self).handles_messages() == old(self).handles_messages(),
            final(self).state == old(self).state,
            final(self).script == old(self).script,
            final(self).governor.limits == old(self).governor.limits,
    {
        proof { self.delivered = Ghost(self.delivered@.push(*message)); }
        match &mut self.sandbox {
            Some(sb) => {
                let ghost before = sb.calls();
                let r = sb.deliver_message(message, gateway, permissions, &mut self.governor, now);
                proof {
                    if old(self).handles_messages() {
                        assert(self.retired@ + sb.calls() =~= (self.retired@ + before).push(
                            EngineCall::Message(delivery_of(*message))));
                    }
                }
                r
            },
            None => Ok(false),
        }
    }

    /// Force-stops the runtime after a ceiling was passed: it goes to `Error`
    /// without running any hook.
    pub fn force_error(&mut self)
        requires
            old(self).wf(),
        ensures
            final(self).wf(),
            final(self).state == LifecycleState::Error,
            final(self).sandbox == old(self).sandbox,
            final(self).history() == old(self).history(),
            final(self).script == old(self).script,
            final(self).governor == old(self).governor,
            final(self).delivered == old(self).delivered,
    {
        self.state = LifecycleState::Error;
    }
}

} // verus!
