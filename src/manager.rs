use vstd::prelude::*;
use crate::gateway::{counted, dispatched, Gateway, GatewayError};
use crate::governor::ResourceGovernor;
use crate::runtime::{after_hook, after_stop, settle, start_calls, status_of, status_of_state, LifecycleState, PluginRuntime, StartOutcome};
use crate::sandbox::{delivery_of, EngineCall, ScriptError};
use crate::text::{str_eq, views};
use crate::types::{copy_strings, PluginMessage, PluginMetadata, PluginStatus, ResourceLimits, ResourceUsage};
use crate::watcher::{file_stem_of, plugin_id_of, PluginWatchEvent, PluginWatchEventType};

verus! {

/// A registered plugin: its descriptor, its status and the runtime it owns.
pub struct Plugin {
    pub metadata: PluginMetadata,
    pub status: PluginStatus,
    pub runtime: PluginRuntime,
}

impl Plugin {
    /// The status always reflects the last completed transition.
    pub open spec fn wf(&self) -> bool {
        &&& self.runtime.wf()
        &&& self.metadata.wf()
        &&& self.status == status_of(self.runtime.state)
    }

    /// A plugin in `Installed` whose script has not been evaluated.
    pub fn new(metadata: PluginMetadata, script: String, limits: ResourceLimits, now: u64) -> (r: Self)
        requires
            metadata.wf(),
        ensures
            r.wf(),
            r.metadata == metadata,
            r.status == PluginStatus::Installed,
            r.runtime.state == LifecycleState::Installed,
            r.runtime.script == script,
            r.runtime.governor.limits == limits,
            r.runtime.sandbox is None,
            r.runtime.history() == Seq::<EngineCall>::empty(),
    {
        Plugin { metadata, status: PluginStatus::Installed, runtime: PluginRuntime::new(script, limits, now) }
    }

    pub fn status(&self) -> (r: PluginStatus)
        ensures
            r == self.status,
    {
        self.status
    }

    pub fn metadata(&self) -> (r: PluginMetadata)
        ensures
            r@ == self.metadata@,
    {
        self.metadata.snapshot()
    }
}

/// Why a host-driven operation failed.
#[derive(Clone, Debug, PartialEq, Eq)]
pub enum ManagerError {
    /// A plugin of this name is already registered.
    AlreadyLoaded,
    /// No plugin of this name is registered.
    NotFound,
    /// A declared permission that no registered handler recognizes.
    UnrecognizedPermission(String),
    /// The operation needs an active plugin.
    NotActive,
    /// The operation needs a disabled plugin.
    NotDisabled,
    /// The script failed to load or a hook failed; the plugin is in `Error`.
    Script(ScriptError),
    /// The gateway refused or failed the call.
    Gateway(GatewayError),
}

/// What the host should do about a filesystem change.
#[derive(Clone, Debug, PartialEq, Eq)]
pub enum WatchAction {
    /// Re-read the plugin's script and reload it.
    Reload(String),
    /// Discover and load a new plugin.
    Load(String),
    /// Unload the plugin and drop it from the registry.
    Unload(String),
    Ignore,
}

/// Whether plugin `p` receives message `m` when it is published.
pub open spec fn is_recipient(p: Plugin, m: PluginMessage) -> bool {
    &&& p.runtime.state == LifecycleState::Active
    &&& match m.target {
        Some(t) => p.metadata.name@ == t@,
        None => p.metadata.name@ != m.source@,
    }
}

/// `after` is `before` with `m` handed to each recipient and nothing else changed.
pub open spec fn published(before: Seq<Plugin>, after: Seq<Plugin>, m: PluginMessage) -> bool {
    &&& after.len() == before.len()
    &&& forall|i: int| 0 <= i < before.len() ==> {
        &&& #[trigger] after[i].metadata == before[i].metadata
        &&& after[i].status == before[i].status
        &&& after[i].runtime.state == before[i].runtime.state
        &&& after[i].runtime.handles_messages() == before[i].runtime.handles_messages()
        &&& after[i].runtime.script == before[i].runtime.script
        &&& after[i].runtime.governor.limits == before[i].runtime.governor.limits
        &&& after[i].runtime.history() == if is_recipient(before[i], m) && before[i].runtime.handles_messages() {
            before[i].runtime.history().push(EngineCall::Message(delivery_of(m)))
        } else {
            before[i].runtime.history()
        }
        &&& (!is_recipient(before[i], m) ==> after[i] == before[i])
        &&& after[i].runtime.delivered@ == if is_recipient(before[i], m) {
            before[i].runtime.delivered@.push(m)
        } else {
            before[i].runtime.delivered@
        }
    }
}

/// `after` is `before` with plugin `name` reloaded from `script`; `ok` tells
/// whether the script came up.
pub open spec fn reloaded(before: PluginManager, after: PluginManager, name: Seq<char>, script: String, ok: bool) -> bool {
    let i = before.index_of(name);
    &&& after.others_unchanged(&before, i)
    &&& after.plugins@[i].metadata == before.plugins@[i].metadata
    &&& after.plugins@[i].runtime.script == script
    &&& after.plugins@[i].status == if ok { PluginStatus::Active } else { PluginStatus::Error }
    &&& exists|o: StartOutcome, h: bool, a: bool, b: bool| {
        &&& after.plugins@[i].runtime.history() == after_stop(before.plugins@[i].runtime) + start_calls(script@, o, h, a, b)
        &&& (ok <==> o == StartOutcome::Started)
    }
}

/// Registry of plugins keyed by name, and the gateway to host handlers.
pub struct PluginManager {
    pub plugins: Vec<Plugin>,
    pub gateway: Gateway,
    /// Limits given to each newly loaded plugin.
    pub default_limits: ResourceLimits,
}

impl PluginManager {
    pub open spec fn wf(&self) -> bool {
        &&& self.gateway.wf()
        &&& forall|i: int, j: int| 0 <= i < j < self.plugins@.len()
            ==> self.plugins@[i].metadata.name@ != self.plugins@[j].metadata.name@
        &&& forall|i: int| 0 <= i < self.plugins@.len() ==> (#[trigger] self.plugins@[i]).wf()
    }

    pub open spec fn has(&self, name: Seq<char>) -> bool {
        exists|i: int| 0 <= i < self.plugins@.len() && self.plugins@[i].metadata.name@ == name
    }

    /// Position of the plugin named `name`; meaningful when `has(name)`.
    pub open spec fn index_of(&self, name: Seq<char>) -> int {
        choose|i: int| 0 <= i < self.plugins@.len() && self.plugins@[i].metadata.name@ == name
    }

    /// Whether every permission in `perms` is recognized by some handler.
    pub open spec fn all_recognized(&self, perms: Seq<Seq<char>>) -> bool {
        forall|k: int| 0 <= k < perms.len() ==> self.gateway.recognizes(#[trigger] perms[k])
    }

    /// Every plugin other than the one at `i` is as it was.
    pub open spec fn others_unchanged(&self, before: &PluginManager, i: int) -> bool {
        &&& self.plugins@.len() == before.plugins@.len()
        &&& forall|j: int| 0 <= j < self.plugins@.len() && j != i ==> self.plugins@[j] == before.plugins@[j]
        &&& self.gateway == before.gateway
        &&& self.default_limits == before.default_limits
    }

    /// An empty registry with no handlers.
    pub fn new(default_limits: ResourceLimits) -> (r: Self)
        ensures
            r.wf(),
            r.plugins@.len() == 0,
            r.gateway.apis@.len() == 0,
            r.default_limits == default_limits,
    {
        PluginManager { plugins: Vec::new(), gateway: Gateway::new(), default_limits }
    }

    fn find(&self, name: &str) -> (r: Option<usize>)
        requires
            self.wf(),
        ensures
            r is None <==> !self.has(name@),
            r matches Some(i) ==> i < self.plugins@.len() && self.plugins@[i as int].metadata.name@ == name@
                && self.index_of(name@) == i,
    {
        let mut i: usize = 0;
        while i < self.plugins.len()
            invariant
                self.wf(),
                i <= self.plugins@.len(),
                forall|j: int| 0 <= j < i ==> self.plugins@[j].metadata.name@ != name@,
            decreases self.plugins@.len() - i,
        {
            if str_eq(self.plugins[i].metadata.name.as_str(), name) {
                proof {
                    let k = self.index_of(name@);
                    assert(k == i as int) by {
                        if k > i as int {
                            assert(self.plugins@[i as int].metadata.name@ != self.plugins@[k].metadata.name@);
                        }
                    }
                }
                return Some(i);
            }
            i = i + 1;
        }
        None
    }

    /// Copies of every registered plugin's metadata, in registry order.
    pub fn list_plugins(&self) -> (r: Vec<PluginMetadata>)
        ensures
            r@.len() == self.plugins@.len(),
            forall|i: int| 0 <= i < r@.len() ==> (#[trigger] r@[i])@ == self.plugins@[i].metadata@,
    {
        let mut r: Vec<PluginMetadata> = Vec::new();
        let mut i: usize = 0;
        while i < self.plugins.len()
            invariant
                i <= self.plugins@.len(),
                r@.len() == i,
                forall|j: int| 0 <= j < i ==> (#[trigger] r@[j])@ == self.plugins@[j].metadata@,
            decreases self.plugins@.len() - i,
        {
            r.push(self.plugins[i].metadata.snapshot());
            i = i + 1;
        }
        r
    }

    /// The plugin registered under `name`.
    pub fn get_plugin(&self, name: &str) -> (r: Option<&Plugin>)
        requires
            self.wf(),
        ensures
            r is None <==> !self.has(name@),
            r matches Some(p) ==> *p == self.plugins@[self.index_of(name@)],
    {
        match self.find(name) {
            Some(i) => Some(&self.plugins[i]),
            None => None,
        }
    }

    /// Position of the first declared permission that no handler recognizes.
    fn first_unrecognized(&self, perms: &Vec<String>) -> (r: Option<usize>)
        requires
            self.gateway.wf(),
        ensures
            r is None <==> self.all_recognized(views(perms@)),
            r matches Some(k) ==> k < perms@.len() && !self.gateway.recognizes(perms@[k as int]@),
    {
        let mut k: usize = 0;
        while k < perms.len()
            invariant
                k <= perms@.len(),
                forall|j: int| 0 <= j < k ==> self.gateway.recognizes(#[trigger] views(perms@)[j]),
            decreases perms@.len() - k,
        {
            if !self.gateway.is_recognized(perms[k].as_str()) {
                assert(views(perms@)[k as int] == perms@[k as int]@);
                return Some(k);
            }
            assert(views(perms@)[k as int] == perms@[k as int]@);
            k = k + 1;
        }
        assert(views(perms@).len() == perms@.len());
        None
    }

    /// Registers a plugin and brings its script up. A plugin whose script or
    /// hooks fail stays registered in `Error`, and the failure is returned.
    pub fn load_plugin(&mut self, metadata: PluginMetadata, script: String, now: u64) -> (r: Result<(), ManagerError>)
        requires
            old(self).wf(),
            metadata.wf(),
        ensures
            final(self).wf(),
            old(self).has(metadata.name@) ==> r == Err::<(), ManagerError>(ManagerError::AlreadyLoaded)
                && *final(self) == *old(self),
            !old(self).has(metadata.name@) && !old(self).all_recognized(metadata.permission_set()) ==> {
                &&& r matches Err(ManagerError::UnrecognizedPermission(p))
                &&& metadata.permission_set().contains(p@)
                &&& !old(self).gateway.recognizes(p@)
                &&& *final(self) == *old(self)
            },
            !old(self).has(metadata.name@) && old(self).all_recognized(metadata.permission_set()) ==> {
                let n = old(self).plugins@.len();
                &&& final(self).plugins@.len() == n + 1
                &&& final(self).plugins@.subrange(0, n as int) == old(self).plugins@
                &&& final(self).plugins@[n as int].metadata == metadata
                &&& final(self).plugins@[n as int].runtime.script == script
                &&& final(self).plugins@[n as int].runtime.governor.limits == old(self).default_limits
                &&& exists|o: StartOutcome, h: bool, a: bool, b: bool| {
                    &&& final(self).plugins@[n as int].runtime.history() == start_calls(script@, o, h, a, b)
                    &&& final(self).plugins@[n as int].runtime.state == settle(o)
                    &&& (r is Ok <==> o == StartOutcome::Started)
                }
                &&& (r is Ok <==> final(self).plugins@[n as int].status == PluginStatus::Active)
                &&& (r is Err <==> final(self).plugins@[n as int].status == PluginStatus::Error)
                &&& (r is Err ==> r matches Err(ManagerError::Script(_)))
                &&& final(self).gateway == old(self).gateway
                &&& final(self).default_limits == old(self).default_limits
            },
    {
        if self.find(metadata.name.as_str()).is_some() {
            return Err(ManagerError::AlreadyLoaded);
        }
        if let Some(k) = self.first_unrecognized(&metadata.permissions) {
            proof {
                assert(metadata.permission_set()[k as int] == metadata.permissions@[k as int]@);
            }
            return Err(ManagerError::UnrecognizedPermission(metadata.permissions[k].clone()));
        }
        let mut plugin = Plugin::new(metadata, script, self.default_limits, now);
        let outcome = plugin.runtime.bring_up(&self.gateway, &plugin.metadata.permissions, now);
        proof {
            let (h, a, b) = choose|h: bool, a: bool, b: bool| plugin.runtime.history()
                == Seq::<EngineCall>::empty() + start_calls(script@, outcome, h, a, b);
            assert(plugin.runtime.history() =~= start_calls(script@, outcome, h, a, b));
        }
        plugin.status = status_of_state(plugin.runtime.state);
        let ghost before = self.plugins@;
        self.plugins.push(plugin);
        proof {
            assert(self.plugins@.subrange(0, before.len() as int) =~= before);
            assert forall|i: int, j: int| 0 <= i < j < self.plugins@.len() implies
                self.plugins@[i].metadata.name@ != self.plugins@[j].metadata.name@ by {
                if j == before.len() {
                    assert(before[i] == self.plugins@[i]);
                } else {
                    assert(before[i] == self.plugins@[i]);
                    assert(before[j] == self.plugins@[j]);
                }
            }
            assert forall|i: int| 0 <= i < self.plugins@.len() implies (#[trigger] self.plugins@[i]).wf() by {
                if i < before.len() {
                    assert(before[i] == self.plugins@[i]);
                }
            }
        }
        match outcome {
            StartOutcome::Started => Ok(()),
            StartOutcome::SetupFailed(e) => Err(ManagerError::Script(e)),
            StartOutcome::LoadFailed(e) => Err(ManagerError::Script(e)),
            StartOutcome::InitFailed(e) => Err(ManagerError::Script(e)),
            StartOutcome::StartFailed(e) => Err(ManagerError::Script(e)),
        }
    }

    /// Re-establishes `wf` after the plugin at `i` changed in a way that kept its name.
    proof fn lemma_wf_after_update(before: &PluginManager, after: &PluginManager, i: int)
        requires
            before.wf(),
            0 <= i < before.plugins@.len(),
            after.others_unchanged(before, i),
            after.plugins@[i].metadata == before.plugins@[i].metadata,
            after.plugins@[i].wf(),
        ensures
            after.wf(),
    {
        assert forall|a: int, b: int| 0 <= a < b < after.plugins@.len() implies
            after.plugins@[a].metadata.name@ != after.plugins@[b].metadata.name@ by {
            assert(after.plugins@[a].metadata == before.plugins@[a].metadata);
            assert(after.plugins@[b].metadata == before.plugins@[b].metadata);
        }
        assert forall|a: int| 0 <= a < after.plugins@.len() implies (#[trigger] after.plugins@[a]).wf() by {
            if a != i {
                assert(after.plugins@[a] == before.plugins@[a]);
            }
        }
    }

    /// Runs `stop` on an active plugin and suspends it; a failing hook leaves it in `Error`.
    pub fn disable_plugin(&mut self, name: &str, now: u64) -> (r: Result<(), ManagerError>)
        requires
            old(self).wf(),
        ensures
            final(self).wf(),
            r == Err::<(), ManagerError>(ManagerError::NotFound) <==> !old(self).has(name@),
            old(self).has(name@) ==> {
                let i = old(self).index_of(name@);
                let p = old(self).plugins@[i];
                &&& p.status == PluginStatus::Disabled ==> r is Ok && *final(self) == *old(self)
                &&& p.status == PluginStatus::Active ==> {
                    &&& final(self).others_unchanged(old(self), i)
                    &&& final(self).plugins@[i].metadata == p.metadata
                    &&& final(self).plugins@[i].status == if r is Ok {
                        PluginStatus::Disabled
                    } else {
                        PluginStatus::Error
                    }
                    &&& final(self).plugins@[i].runtime.history() == after_hook(p.runtime, "stop"@)
                    &&& (r is Err ==> r matches Err(ManagerError::Script(_)))
                }
                &&& p.status != PluginStatus::Disabled && p.status != PluginStatus::Active
                    ==> r == Err::<(), ManagerError>(ManagerError::NotActive) && *final(self) == *old(self)
            },
    {
        let i = match self.find(name) {
            Some(i) => i,
            None => return Err(ManagerError::NotFound),
        };
        match self.plugins[i].status {
            PluginStatus::Disabled => return Ok(()),
            PluginStatus::Active => {},
            _ => return Err(ManagerError::NotActive),
        }
        let ghost before = *self;
        let perms = copy_strings(&self.plugins[i].metadata.permissions);
        let r = self.plugins[i].runtime.disable(&self.gateway, &perms, now);
        self.plugins[i].status = status_of_state(self.plugins[i].runtime.state);
        proof { Self::lemma_wf_after_update(&before, self, i as int); }
        match r {
            Ok(()) => Ok(()),
            Err(e) => Err(ManagerError::Script(e)),
        }
    }

    /// Runs `start` on a disabled plugin and makes it active again; a failing
    /// hook leaves it in `Error`.
    pub fn enable_plugin(&mut self, name: &str, now: u64) -> (r: Result<(), ManagerError>)
        requires
            old(self).wf(),
        ensures
            final(self).wf(),
            r == Err::<(), ManagerError>(ManagerError::NotFound) <==> !old(self).has(name@),
            old(self).has(name@) ==> {
                let i = old(self).index_of(name@);
                let p = old(self).plugins@[i];
                &&& p.status == PluginStatus::Active ==> r is Ok && *final(self) == *old(self)
                &&& p.status == PluginStatus::Disabled ==> {
                    &&& final(self).others_unchanged(old(self), i)
                    &&& final(self).plugins@[i].metadata == p.metadata
                    &&& final(self).plugins@[i].status == if r is Ok {
                        PluginStatus::Active
                    } else {
                        PluginStatus::Error
                    }
                    &&& final(self).plugins@[i].runtime.history() == after_hook(p.runtime, "start"@)
                    &&& (r is Err ==> r matches Err(ManagerError::Script(_)))
                }
                &&& p.status != PluginStatus::Disabled && p.status != PluginStatus::Active
                    ==> r == Err::<(), ManagerError>(ManagerError::NotDisabled) && *final(self) == *old(self)
            },
    {
        let i = match self.find(name) {
            Some(i) => i,
            None => return Err(ManagerError::NotFound),
        };
        match self.plugins[i].status {
            PluginStatus::Active => return Ok(()),
            PluginStatus::Disabled => {},
            _ => return Err(ManagerError::NotDisabled),
        }
        let ghost before = *self;
        let perms = copy_strings(&self.plugins[i].metadata.permissions);
        let r = self.plugins[i].runtime.enable(&self.gateway, &perms, now);
        self.plugins[i].status = status_of_state(self.plugins[i].runtime.state);
        proof { Self::lemma_wf_after_update(&before, self, i as int); }
        match r {
            Ok(()) => Ok(()),
            Err(e) => Err(ManagerError::Script(e)),
        }
    }

    /// Stops the plugin if active, discards its sandbox and brings `script` up
    /// in a fresh one. This is also the way out of `Error`.
    pub fn reload_plugin(&mut self, name: &str, script: String, now: u64) -> (r: Result<(), ManagerError>)
        requires
            old(self).wf(),
        ensures
            final(self).wf(),
            r == Err::<(), ManagerError>(ManagerError::NotFound) <==> !old(self).has(name@),
            !old(self).has(name@) ==> *final(self) == *old(self),
            old(self).has(name@) ==> reloaded(*old(self), *final(self), name@, script, r is Ok),
            r is Err ==> r matches Err(ManagerError::Script(_)) || r == Err::<(), ManagerError>(ManagerError::NotFound),
    {
        let i = match self.find(name) {
            Some(i) => i,
            None => return Err(ManagerError::NotFound),
        };
        let ghost before = *self;
        let perms = copy_strings(&self.plugins[i].metadata.permissions);
        let outcome = self.plugins[i].runtime.reload(script, &self.gateway, &perms, now);
        self.plugins[i].status = status_of_state(self.plugins[i].runtime.state);
        proof { Self::lemma_wf_after_update(&before, self, i as int); }
        match outcome {
            StartOutcome::Started => Ok(()),
            StartOutcome::SetupFailed(e) => Err(ManagerError::Script(e)),
            StartOutcome::LoadFailed(e) => Err(ManagerError::Script(e)),
            StartOutcome::InitFailed(e) => Err(ManagerError::Script(e)),
            StartOutcome::StartFailed(e) => Err(ManagerError::Script(e)),
        }
    }

    /// Runs the plugin's `stop` (when active) and `unload` hooks, discards its
    /// sandbox and drops it from the registry, whatever the hooks answered.
    pub fn unload_plugin(&mut self, name: &str, now: u64) -> (r: Result<(), ManagerError>)
        requires
            old(self).wf(),
        ensures
            final(self).wf(),
            r == Err::<(), ManagerError>(ManagerError::NotFound) <==> !old(self).has(name@),
            !old(self).has(name@) ==> *final(self) == *old(self),
            old(self).has(name@) ==> {
                &&& final(self).plugins@ == old(self).plugins@.remove(old(self).index_of(name@))
                &&& !final(self).has(name@)
                &&& (r is Err ==> r matches Err(ManagerError::Script(_)))
            },
            final(self).gateway == old(self).gateway,
            final(self).default_limits == old(self).default_limits,
    {
        let i = match self.find(name) {
            Some(i) => i,
            None => return Err(ManagerError::NotFound),
        };
        let ghost before = self.plugins@;
        let mut plugin = self.plugins.remove(i);
        proof {
            assert forall|a: int, b: int| 0 <= a < b < self.plugins@.len() implies
                self.plugins@[a].metadata.name@ != self.plugins@[b].metadata.name@ by {
                if a < i {
                    if b < i {
                    } else {
                        assert(self.plugins@[b] == before[b + 1]);
                    }
                } else {
                    assert(self.plugins@[a] == before[a + 1]);
                    assert(self.plugins@[b] == before[b + 1]);
                }
            }
            assert forall|a: int| 0 <= a < self.plugins@.len() implies (#[trigger] self.plugins@[a]).wf() by {
                if a < i {
                } else {
                    assert(self.plugins@[a] == before[a + 1]);
                }
            }
            if self.has(name@) {
                let k = self.index_of(name@);
                if k < i {
                    assert(before[k].metadata.name@ != before[i as int].metadata.name@);
                } else {
                    assert(self.plugins@[k] == before[k + 1]);
                    assert(before[k + 1].metadata.name@ != before[i as int].metadata.name@);
                }
            }
        }
        match plugin.runtime.unload(&self.gateway, &plugin.metadata.permissions, now) {
            Ok(()) => Ok(()),
            Err(e) => Err(ManagerError::Script(e)),
        }
    }

    /// Whether plugin `p` receives `m`.
    fn receives(p: &Plugin, m: &PluginMessage) -> (r: bool)
        ensures
            r == is_recipient(*p, *m),
    {
        if p.runtime.state != LifecycleState::Active {
            return false;
        }
        match &m.target {
            Some(t) => str_eq(p.metadata.name.as_str(), t.as_str()),
            None => !str_eq(p.metadata.name.as_str(), m.source.as_str()),
        }
    }

    /// Hands `message` to its target if that plugin is active, or, for a
    /// broadcast, to every active plugin but the sender. A recipient's handler
    /// error is not passed on and does not keep the others from receiving it.
    pub fn publish(&mut self, message: &PluginMessage, now: u64)
        requires
            old(self).wf(),
        ensures
            final(self).wf(),
            published(old(self).plugins@, final(self).plugins@, *message),
            final(self).gateway == old(self).gateway,
            final(self).default_limits == old(self).default_limits,
    {
        let ghost before = self.plugins@;
        let mut i: usize = 0;
        while i < self.plugins.len()
            invariant
                self.wf(),
                self.plugins@.len() == before.len(),
                i <= before.len(),
                forall|j: int| i <= j < before.len() ==> self.plugins@[j] == before[j],
                forall|j: int| 0 <= j < i ==> {
                    &&& #[trigger] self.plugins@[j].metadata == before[j].metadata
                    &&& self.plugins@[j].status == before[j].status
                    &&& self.plugins@[j].runtime.state == before[j].runtime.state
                    &&& self.plugins@[j].runtime.handles_messages() == before[j].runtime.handles_messages()
                    &&& self.plugins@[j].runtime.script == before[j].runtime.script
                    &&& self.plugins@[j].runtime.governor.limits == before[j].runtime.governor.limits
                    &&& self.plugins@[j].runtime.history() == if is_recipient(before[j], *message)
                        && before[j].runtime.handles_messages() {
                        before[j].runtime.history().push(EngineCall::Message(delivery_of(*message)))
                    } else {
                        before[j].runtime.history()
                    }
                    &&& (!is_recipient(before[j], *message) ==> self.plugins@[j] == before[j])
                    &&& self.plugins@[j].runtime.delivered@ == if is_recipient(before[j], *message) {
                        before[j].runtime.delivered@.push(*message)
                    } else {
                        before[j].runtime.delivered@
                    }
                },
                self.gateway == old(self).gateway,
                self.default_limits == old(self).default_limits,
            decreases before.len() - i,
        {
            if Self::receives(&self.plugins[i], message) {
                let ghost mid = *self;
                let perms = copy_strings(&self.plugins[i].metadata.permissions);
                let _ = self.plugins[i].runtime.receive(message, &self.gateway, &perms, now);
                proof {
                    assert(self.plugins@[i as int].wf());
                    Self::lemma_wf_after_update(&mid, self, i as int);
                }
            }
            i = i + 1;
        }
    }

    /// A call from plugin `plugin` into the host through the gateway. Only an
    /// active plugin may call; the call counts against its rate window.
    pub fn call_api(
        &mut self,
        plugin: &str,
        api_name: &str,
        method: &str,
        params: serde_json::Value,
        now: u64,
    ) -> (r: Result<serde_json::Value, ManagerError>)
        requires
            old(self).wf(),
        ensures
            final(self).wf(),
            r == Err::<serde_json::Value, ManagerError>(ManagerError::NotFound) <==> !old(self).has(plugin@),
            !old(self).has(plugin@) ==> *final(self) == *old(self),
            old(self).has(plugin@) ==> {
                let i = old(self).index_of(plugin@);
                let p = old(self).plugins@[i];
                let perms = p.metadata.permission_set();
                let gw = old(self).gateway;
                let g = p.runtime.governor;
                &&& p.status != PluginStatus::Active ==> r == Err::<serde_json::Value, ManagerError>(
                    ManagerError::NotActive) && *final(self) == *old(self)
                &&& p.status == PluginStatus::Active ==> {
                    &&& final(self).others_unchanged(old(self), i)
                    &&& final(self).plugins@[i].metadata == p.metadata
                    &&& final(self).plugins@[i].status == p.status
                    &&& final(self).plugins@[i].runtime.governor == counted(g, now)
                    &&& exists|d: Result<serde_json::Value, GatewayError>| {
                        &&& dispatched(gw, perms, g, now, api_name@, method@, params, d)
                        &&& r == match d {
                            Ok(v) => Ok::<serde_json::Value, ManagerError>(v),
                            Err(e) => Err(ManagerError::Gateway(e)),
                        }
                    }
                }
            },
    {
        let i = match self.find(plugin) {
            Some(i) => i,
            None => return Err(ManagerError::NotFound),
        };
        if self.plugins[i].status != PluginStatus::Active {
            return Err(ManagerError::NotActive);
        }
        let ghost before = *self;
        let ghost params_in = params;
        let mut governor = self.plugins[i].runtime.governor;
        let r = self.gateway.dispatch(
            &self.plugins[i].metadata.permissions,
            &mut governor,
            now,
            api_name,
            method,
            params,
        );
        self.plugins[i].runtime.governor = governor;
        proof { Self::lemma_wf_after_update(&before, self, i as int); }
        let out = match r {
            Ok(v) => Ok(v),
            Err(e) => Err(ManagerError::Gateway(e)),
        };
        proof {
            let p = before.plugins@[i as int];
            assert(dispatched(before.gateway, p.metadata.permission_set(), p.runtime.governor, now,
                api_name@, method@, params_in, r));
        }
        out
    }

    /// Records sampled memory use and CPU time of a plugin. A plugin over its
    /// memory or CPU ceiling is force-stopped into `Error`; the answer says
    /// whether that happened.
    pub fn report_usage(&mut self, name: &str, memory_used: usize, cpu_spent: u64) -> (r: Result<bool, ManagerError>)
        requires
            old(self).wf(),
        ensures
            final(self).wf(),
            r == Err::<bool, ManagerError>(ManagerError::NotFound) <==> !old(self).has(name@),
            !old(self).has(name@) ==> *final(self) == *old(self),
            old(self).has(name@) ==> {
                let i = old(self).index_of(name@);
                let p = old(self).plugins@[i];
                &&& r is Ok
                &&& final(self).others_unchanged(old(self), i)
                &&& final(self).plugins@[i].metadata == p.metadata
                &&& final(self).plugins@[i].runtime.governor.usage.memory_used == memory_used
                &&& final(self).plugins@[i].runtime.governor.limits == p.runtime.governor.limits
                &&& final(self).plugins@[i].status == if r == Ok::<bool, ManagerError>(true) {
                    PluginStatus::Error
                } else {
                    p.status
                }
            },
    {
        let i = match self.find(name) {
            Some(i) => i,
            None => return Err(ManagerError::NotFound),
        };
        let ghost before = *self;
        let over = self.plugins[i].runtime.governor.sample(memory_used, cpu_spent);
        if over {
            self.plugins[i].runtime.force_error();
        }
        self.plugins[i].status = status_of_state(self.plugins[i].runtime.state);
        proof { Self::lemma_wf_after_update(&before, self, i as int); }
        Ok(over)
    }

    /// Replaces a plugin's limits; they apply from its next admission check on.
    pub fn set_resource_limits(&mut self, name: &str, limits: ResourceLimits) -> (r: Result<(), ManagerError>)
        requires
            old(self).wf(),
        ensures
            final(self).wf(),
            r == Err::<(), ManagerError>(ManagerError::NotFound) <==> !old(self).has(name@),
            !old(self).has(name@) ==> *final(self) == *old(self),
            old(self).has(name@) ==> {
                let i = old(self).index_of(name@);
                let p = old(self).plugins@[i];
                &&& r is Ok
                &&& final(self).others_unchanged(old(self), i)
                &&& final(self).plugins@[i].metadata == p.metadata
                &&& final(self).plugins@[i].status == p.status
                &&& final(self).plugins@[i].runtime.governor == (ResourceGovernor { limits, ..p.runtime.governor })
            },
    {
        let i = match self.find(name) {
            Some(i) => i,
            None => return Err(ManagerError::NotFound),
        };
        let ghost before = *self;
        self.plugins[i].runtime.governor.set_limits(limits);
        proof { Self::lemma_wf_after_update(&before, self, i as int); }
        Ok(())
    }

    /// The usage snapshot of a plugin.
    pub fn get_resource_usage(&self, name: &str) -> (r: Option<ResourceUsage>)
        requires
            self.wf(),
        ensures
            r is None <==> !self.has(name@),
            r matches Some(u) ==> u == self.plugins@[self.index_of(name@)].runtime.governor.usage,
    {
        match self.find(name) {
            Some(i) => Some(self.plugins[i].runtime.governor.get_usage()),
            None => None,
        }
    }

    /// Registers a host handler under `name`; false when the name is taken.
    pub fn register_api(&mut self, name: &str, api: crate::api::HostApi) -> (added: bool)
        requires
            old(self).wf(),
        ensures
            final(self).wf(),
            added == !old(self).gateway.has_api(name@),
            final(self).plugins == old(self).plugins,
            final(self).default_limits == old(self).default_limits,
            added ==> final(self).gateway.apis@ == old(self).gateway.apis@.push((final(self).gateway.apis@.last().0, api))
                && final(self).gateway.apis@.last().0@ == name@,
            !added ==> final(self).gateway == old(self).gateway,
    {
        self.gateway.register(name, api)
    }

    /// The lifecycle action a change to `event.path` calls for: a change to a
    /// known plugin's script reloads it, a new script is loaded, a deleted one unloaded.
    pub fn watch_action(&self, event: &PluginWatchEvent) -> (r: WatchAction)
        requires
            self.wf(),
        ensures
            file_stem_of(event.path@) is None ==> r == WatchAction::Ignore,
            file_stem_of(event.path@) matches Some(id) ==> match event.event_type {
                PluginWatchEventType::Modified => if self.has(id) {
                    r matches WatchAction::Reload(n) && n@ == id
                } else {
                    r == WatchAction::Ignore
                },
                PluginWatchEventType::Created => if self.has(id) {
                    r == WatchAction::Ignore
                } else {
                    r matches WatchAction::Load(n) && n@ == id
                },
                PluginWatchEventType::Deleted => if self.has(id) {
                    r matches WatchAction::Unload(n) && n@ == id
                } else {
                    r == WatchAction::Ignore
                },
            },
    {
        let id = match plugin_id_of(event.path.as_str()) {
            Some(id) => id,
            None => return WatchAction::Ignore,
        };
        let known = self.find(id.as_str()).is_some();
        match event.event_type {
            PluginWatchEventType::Modified => if known { WatchAction::Reload(id) } else { WatchAction::Ignore },
            PluginWatchEventType::Created => if known { WatchAction::Ignore } else { WatchAction::Load(id) },
            PluginWatchEventType::Deleted => if known { WatchAction::Unload(id) } else { WatchAction::Ignore },
        }
    }
}

/// Per-sender ordering: two messages published one after the other by the
/// same sender reach a plugin that receives both in publish order, right
/// after what it had received before, whatever other plugins receive.
pub proof fn lemma_publish_order(
    s0: Seq<Plugin>,
    s1: Seq<Plugin>,
    s2: Seq<Plugin>,
    m1: PluginMessage,
    m2: PluginMessage,
    i: int,
)
    requires
        published(s0, s1, m1),
        published(s1, s2, m2),
        0 <= i < s0.len(),
        is_recipient(s0[i], m1),
        is_recipient(s1[i], m2),
    ensures
        s2[i].runtime.delivered@ == s0[i].runtime.delivered@.push(m1).push(m2),
{
    assert(s1[i].metadata == s0[i].metadata);
    assert(s2[i].metadata == s1[i].metadata);
}

/// Reload is idempotent in effect: reloading an active plugin from its
/// unchanged script, when the script comes up as it did before, leaves it
/// `Active` under the same name with the same metadata and script, and every
/// other plugin as it was.
pub proof fn lemma_reload_idempotent(before: PluginManager, after: PluginManager, name: Seq<char>)
    requires
        before.wf(),
        after.wf(),
        before.has(name),
        before.plugins@[before.index_of(name)].status == PluginStatus::Active,
        reloaded(before, after, name, before.plugins@[before.index_of(name)].runtime.script, true),
    ensures
        after.has(name),
        after.index_of(name) == before.index_of(name),
        after.plugins@[after.index_of(name)].status == PluginStatus::Active,
        after.plugins@[after.index_of(name)].metadata == before.plugins@[before.index_of(name)].metadata,
        after.plugins@[after.index_of(name)].runtime.script == before.plugins@[before.index_of(name)].runtime.script,
        after.others_unchanged(&before, before.index_of(name)),
{
    let i = before.index_of(name);
    assert(after.plugins@[i].metadata.name@ == name);
    let k = after.index_of(name);
    if k != i {
        assert(after.plugins@[k].metadata.name@ != after.plugins@[i].metadata.name@);
    }
}

} // verus!
