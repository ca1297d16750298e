use vstd::prelude::*;
use crate::api::{ApiError, HostApi};
use crate::governor::{AdmissionKind, Decision, ResourceGovernor, sat_inc};
use crate::text::{contains_str, str_eq, views};
use crate::types::{json_text, json_text_of, parse_json, ResourceUsage};

verus! {

/// Why a dispatch failed.
#[derive(Clone, Debug, PartialEq, Eq)]
pub enum GatewayError {
    UnknownApi,
    UnknownMethod,
    PermissionDenied,
    ResourceExhausted,
    /// An error reported by the handler, passed on unchanged.
    Handler(ApiError),
}

impl GatewayError {
    /// A short description handed to the calling script.
    pub fn describe(&self) -> (r: String) {
        match self {
            GatewayError::UnknownApi => String::from_str("unknown api"),
            GatewayError::UnknownMethod => String::from_str("unknown method"),
            GatewayError::PermissionDenied => String::from_str("permission denied"),
            GatewayError::ResourceExhausted => String::from_str("resource exhausted"),
            GatewayError::Handler(_) => String::from_str("handler error"),
        }
    }
}

/// Registry of host handlers by name; the only path from plugin code to host capabilities.
#[derive(Clone, Debug)]
pub struct Gateway {
    pub apis: Vec<(String, HostApi)>,
}

/// The governor state after one more API call is counted at time `now`.
pub open spec fn counted(g: ResourceGovernor, now: u64) -> ResourceGovernor {
    ResourceGovernor {
        usage: ResourceUsage { api_calls: sat_inc(g.rolled(now).usage.api_calls), ..g.rolled(now).usage },
        ..g.rolled(now)
    }
}

/// What a dispatch answers, given the registry, the caller's declared
/// permissions and its governor state before the call.
pub open spec fn dispatched(
    gw: Gateway,
    perms: Seq<Seq<char>>,
    g: ResourceGovernor,
    now: u64,
    api_name: Seq<char>,
    method: Seq<char>,
    params: serde_json::Value,
    r: Result<serde_json::Value, GatewayError>,
) -> bool {
    let admitted = ResourceGovernor::decide(g.rolled(now), AdmissionKind::ApiCall) == Decision::Allow;
    &&& (r == Err::<serde_json::Value, GatewayError>(GatewayError::UnknownApi) <==> !gw.has_api(api_name))
    &&& (r == Err::<serde_json::Value, GatewayError>(GatewayError::UnknownMethod)
        <==> gw.has_api(api_name) && gw.required(api_name, method) is None)
    &&& (r == Err::<serde_json::Value, GatewayError>(GatewayError::PermissionDenied)
        <==> gw.denied(perms, api_name, method))
    &&& (r == Err::<serde_json::Value, GatewayError>(GatewayError::ResourceExhausted)
        <==> gw.required(api_name, method) is Some && !gw.denied(perms, api_name, method) && !admitted)
    &&& (r is Ok <==> gw.required(api_name, method) is Some && !gw.denied(perms, api_name, method) && admitted)
    &&& (r is Ok && gw.handler(api_name).echoes(method) ==> r == Ok::<serde_json::Value, GatewayError>(params))
    &&& (r is Ok && gw.handler(api_name).fixed_answer(method) is Some
        ==> json_text_of(r->Ok_0) == gw.handler(api_name).fixed_answer(method)->Some_0)
}

impl Gateway {
    /// Handler names are unique.
    pub open spec fn wf(&self) -> bool {
        forall|i: int, j: int| 0 <= i < j < self.apis@.len() ==> self.apis@[i].0@ != self.apis@[j].0@
    }

    pub open spec fn has_api(&self, name: Seq<char>) -> bool {
        exists|i: int| 0 <= i < self.apis@.len() && self.apis@[i].0@ == name
    }

    /// The handler registered under `name`; meaningful when `has_api(name)`.
    pub open spec fn handler(&self, name: Seq<char>) -> HostApi {
        self.apis@[choose|i: int| 0 <= i < self.apis@.len() && self.apis@[i].0@ == name].1
    }

    /// Permission required for `method` of the handler `name`, when both exist.
    pub open spec fn required(&self, name: Seq<char>, method: Seq<char>) -> Option<Seq<char>> {
        if self.has_api(name) {
            self.handler(name).permission_for(method)
        } else {
            None
        }
    }

    /// Whether a dispatch of `method` on `name` by a plugin holding `perms` is denied.
    pub open spec fn denied(&self, perms: Seq<Seq<char>>, name: Seq<char>, method: Seq<char>) -> bool {
        match self.required(name, method) {
            Some(p) => !perms.contains(p),
            None => false,
        }
    }

    /// Whether some registered handler declares permission `p`.
    pub open spec fn recognizes(&self, p: Seq<char>) -> bool {
        exists|i: int| 0 <= i < self.apis@.len() && self.apis@[i].1.declared().contains(p)
    }

    pub fn is_recognized(&self, p: &str) -> (r: bool)
        ensures
            r == self.recognizes(p@),
    {
        let mut i: usize = 0;
        while i < self.apis.len()
            invariant
                i <= self.apis@.len(),
                forall|j: int| 0 <= j < i ==> !self.apis@[j].1.declared().contains(p@),
            decreases self.apis@.len() - i,
        {
            let perms = self.apis[i].1.get_permissions();
            if contains_str(&perms, p) {
                return true;
            }
            i = i + 1;
        }
        false
    }

    /// An empty registry.
    pub fn new() -> (r: Self)
        ensures
            r.wf(),
            r.apis@.len() == 0,
    {
        Gateway { apis: Vec::new() }
    }

    /// Position of the handler named `name`.
    fn find(&self, name: &str) -> (r: Option<usize>)
        requires
            self.wf(),
        ensures
            r is None <==> !self.has_api(name@),
            r matches Some(i) ==> i < self.apis@.len() && self.apis@[i as int].0@ == name@
                && self.handler(name@) == self.apis@[i as int].1,
    {
        let mut i: usize = 0;
        while i < self.apis.len()
            invariant
                self.wf(),
                i <= self.apis@.len(),
                forall|j: int| 0 <= j < i ==> self.apis@[j].0@ != name@,
            decreases self.apis@.len() - i,
        {
            if str_eq(self.apis[i].0.as_str(), name) {
                proof {
                    let k = choose|k: int| 0 <= k < self.apis@.len() && self.apis@[k].0@ == name@;
                    assert(k == i as int) by {
                        if k < i as int {
                        } else if k > i as int {
                            assert(self.apis@[i as int].0@ != self.apis@[k].0@);
                        }
                    }
                }
                return Some(i);
            }
            i = i + 1;
        }
        None
    }

    /// Registers `api` under `name`; answers false and changes nothing when the name is taken.
    pub fn register(&mut self, name: &str, api: HostApi) -> (added: bool)
        requires
            old(self).wf(),
        ensures
            final(self).wf(),
            added == !old(self).has_api(name@),
            added ==> final(self).apis@ == old(self).apis@.push((final(self).apis@.last().0, api))
                && final(self).apis@.last().0@ == name@,
            !added ==> *final(self) == *old(self),
    {
        match self.find(name) {
            Some(_) => false,
            None => {
                self.apis.push((String::from_str(name), api));
                proof {
                    assert forall|i: int, j: int| 0 <= i < j < self.apis@.len() implies
                        self.apis@[i].0@ != self.apis@[j].0@ by {
                        if j == self.apis@.len() - 1 {
                            assert(old(self).apis@[i] == self.apis@[i]);
                        } else {
                            assert(old(self).apis@[i] == self.apis@[i]);
                            assert(old(self).apis@[j] == self.apis@[j]);
                        }
                    }
                }
                true
            },
        }
    }

    /// Resolves the handler and method, checks the caller's declared
    /// permissions and the governor's admission, then calls the handler.
    /// The call is counted in the governor's rate window whatever the outcome.
    pub fn dispatch(
        &self,
        permissions: &Vec<String>,
        governor: &mut ResourceGovernor,
        now: u64,
        api_name: &str,
        method: &str,
        params: serde_json::Value,
    ) -> (r: Result<serde_json::Value, GatewayError>)
        requires
            self.wf(),
            old(governor).wf(),
        ensures
            *final(governor) == counted(*old(governor), now),
            final(governor).wf(),
            dispatched(*self, views(permissions@), *old(governor), now, api_name@, method@, params, r),
    {
        let idx = match self.find(api_name) {
            Some(i) => i,
            None => {
                governor.record_api_call(now);
                return Err(GatewayError::UnknownApi);
            },
        };
        let api = &self.apis[idx].1;
        let needed = match api.required_permission(method) {
            Some(p) => p,
            None => {
                governor.record_api_call(now);
                return Err(GatewayError::UnknownMethod);
            },
        };
        if !contains_str(permissions, needed.as_str()) {
            governor.record_api_call(now);
            return Err(GatewayError::PermissionDenied);
        }
        match governor.request(AdmissionKind::ApiCall, now) {
            Decision::Allow => {},
            Decision::Reject(_) => {
                return Err(GatewayError::ResourceExhausted);
            },
        }
        match api.call(method, params) {
            Ok(v) => Ok(v),
            Err(e) => Err(GatewayError::Handler(e)),
        }
    }
}

/// Serves `api.call(api_name, method, params)` from a script: `params` is
/// JSON text; the answer is the handler's result as JSON text, or a
/// description of why the call failed. Text that is not JSON is refused
/// before the gateway sees the call.
pub fn serve_api_call(
    gateway: &Gateway,
    permissions: &Vec<String>,
    governor: &mut ResourceGovernor,
    now: u64,
    api_name: &str,
    method: &str,
    params: &str,
) -> (r: Result<String, String>)
    requires
        gateway.wf(),
        old(governor).wf(),
    ensures
        final(governor).wf(),
        *final(governor) == *old(governor) || *final(governor) == counted(*old(governor), now),
        r matches Ok(t) ==> exists|p: serde_json::Value, v: serde_json::Value|
            dispatched(*gateway, views(permissions@), *old(governor), now, api_name@, method@, p,
                Ok::<serde_json::Value, GatewayError>(v)) && t@ == json_text_of(v),
{
    let p = match parse_json(params) {
        Some(p) => p,
        None => return Err(String::from_str("params are not JSON")),
    };
    let ghost p_in = p;
    match gateway.dispatch(permissions, governor, now, api_name, method, p) {
        Ok(v) => {
            let t = json_text(&v);
            assert(dispatched(*gateway, views(permissions@), *old(governor), now, api_name@, method@, p_in,
                Ok::<serde_json::Value, GatewayError>(v)));
            Ok(t)
        },
        Err(e) => Err(e.describe()),
    }
}

/// A permission check never depends on earlier calls: two dispatches of the
/// same method by plugins with the same declared permissions, whatever their
/// governors' states and times, are both denied or both not, and they are
/// denied exactly when the required permission is missing from the declared set.
pub proof fn lemma_denial_independent_of_history(
    gw: Gateway,
    perms: Seq<Seq<char>>,
    api_name: Seq<char>,
    method: Seq<char>,
    g1: ResourceGovernor,
    now1: u64,
    params1: serde_json::Value,
    r1: Result<serde_json::Value, GatewayError>,
    g2: ResourceGovernor,
    now2: u64,
    params2: serde_json::Value,
    r2: Result<serde_json::Value, GatewayError>,
)
    requires
        gw.wf(),
        dispatched(gw, perms, g1, now1, api_name, method, params1, r1),
        dispatched(gw, perms, g2, now2, api_name, method, params2, r2),
    ensures
        (r1 == Err::<serde_json::Value, GatewayError>(GatewayError::PermissionDenied))
            == (r2 == Err::<serde_json::Value, GatewayError>(GatewayError::PermissionDenied)),
        r1 == Err::<serde_json::Value, GatewayError>(GatewayError::PermissionDenied) <==> (gw.has_api(api_name)
            && gw.handler(api_name).permission_for(method) is Some
            && !perms.contains(gw.handler(api_name).permission_for(method)->0)),
{
}

} // verus!
