use vstd::prelude::*;
use crate::text::{opt_view, str_eq, views};

verus! {

/// Script language a plugin is written in.
#[derive(Clone, Copy, Debug, PartialEq, Eq, Structural)]
pub enum PluginLanguage {
    Lua,
    TypeScript,
}

/// Manager-facing status of a plugin.
#[derive(Clone, Copy, Debug, PartialEq, Eq, Structural)]
pub enum PluginStatus {
    Installed,
    Active,
    Error,
    Disabled,
}

/// Descriptor of an installed plugin; immutable once the plugin is loaded.
#[derive(Clone, Debug)]
pub struct PluginMetadata {
    pub name: String,
    pub version: String,
    pub description: Option<String>,
    pub author: Option<String>,
    pub homepage_url: Option<String>,
    pub repository_url: Option<String>,
    pub license: Option<String>,
    pub language: PluginLanguage,
    pub main_file: String,
    pub permissions: Vec<String>,
    /// Plugin name paired with a version constraint, one entry per name.
    pub dependencies: Option<Vec<(String, String)>>,
}

/// Mathematical value of `PluginMetadata`.
pub struct MetadataView {
    pub name: Seq<char>,
    pub version: Seq<char>,
    pub description: Option<Seq<char>>,
    pub author: Option<Seq<char>>,
    pub homepage_url: Option<Seq<char>>,
    pub repository_url: Option<Seq<char>>,
    pub license: Option<Seq<char>>,
    pub language: PluginLanguage,
    pub main_file: Seq<char>,
    pub permissions: Seq<Seq<char>>,
    pub dependencies: Option<Seq<(Seq<char>, Seq<char>)>>,
}

pub open spec fn dep_views(d: Seq<(String, String)>) -> Seq<(Seq<char>, Seq<char>)> {
    d.map_values(|e: (String, String)| (e.0@, e.1@))
}

impl View for PluginMetadata {
    type V = MetadataView;

    open spec fn view(&self) -> MetadataView {
        MetadataView {
            name: self.name@,
            version: self.version@,
            description: opt_view(self.description),
            author: opt_view(self.author),
            homepage_url: opt_view(self.homepage_url),
            repository_url: opt_view(self.repository_url),
            license: opt_view(self.license),
            language: self.language,
            main_file: self.main_file@,
            permissions: views(self.permissions@),
            dependencies: match self.dependencies {
                Some(d) => Some(dep_views(d@)),
                None => None,
            },
        }
    }
}

fn copy_opt(o: &Option<String>) -> (r: Option<String>)
    ensures
        opt_view(r) == opt_view(*o),
{
    match o {
        Some(s) => Some(s.clone()),
        None => None,
    }
}

pub(crate) fn copy_strings(v: &Vec<String>) -> (r: Vec<String>)
    ensures
        views(r@) == views(v@),
{
    let mut r: Vec<String> = Vec::new();
    let mut i: usize = 0;
    while i < v.len()
        invariant
            i <= v@.len(),
            views(r@) == views(v@.subrange(0, i as int)),
        decreases v@.len() - i,
    {
        r.push(v[i].clone());
        proof {
            assert(views(v@.subrange(0, i + 1)) =~= views(v@.subrange(0, i as int)).push(v@[i as int]@));
            assert(views(r@) =~= views(v@.subrange(0, i as int)).push(v@[i as int]@));
        }
        i = i + 1;
    }
    assert(v@.subrange(0, v@.len() as int) =~= v@);
    r
}

fn copy_pairs(v: &Vec<(String, String)>) -> (r: Vec<(String, String)>)
    ensures
        dep_views(r@) == dep_views(v@),
{
    let mut r: Vec<(String, String)> = Vec::new();
    let mut i: usize = 0;
    while i < v.len()
        invariant
            i <= v@.len(),
            dep_views(r@) == dep_views(v@.subrange(0, i as int)),
        decreases v@.len() - i,
    {
        r.push((v[i].0.clone(), v[i].1.clone()));
        proof {
            assert(dep_views(v@.subrange(0, i + 1)) =~= dep_views(v@.subrange(0, i as int)).push(
                (v@[i as int].0@, v@[i as int].1@),
            ));
            assert(dep_views(r@) =~= dep_views(v@.subrange(0, i as int)).push(
                (v@[i as int].0@, v@[i as int].1@),
            ));
        }
        i = i + 1;
    }
    assert(v@.subrange(0, v@.len() as int) =~= v@);
    r
}

impl PluginMetadata {
    /// The declared permission strings.
    pub open spec fn permission_set(&self) -> Seq<Seq<char>> {
        views(self.permissions@)
    }

    /// Whether dependency names are unique, as `wf` asks.
    pub fn has_unique_dependencies(&self) -> (r: bool)
        ensures
            r == self.wf(),
    {
        let deps = match &self.dependencies {
            Some(d) => d,
            None => return true,
        };
        let mut j: usize = 0;
        while j < deps.len()
            invariant
                self.dependencies == Some(*deps),
                j <= deps@.len(),
                forall|a: int, b: int| 0 <= a < b < j ==> deps@[a].0@ != deps@[b].0@,
            decreases deps@.len() - j,
        {
            let mut i: usize = 0;
            while i < j
                invariant
                    self.dependencies == Some(*deps),
                    j < deps@.len(),
                    i <= j,
                    forall|a: int| 0 <= a < i ==> deps@[a].0@ != deps@[j as int].0@,
                decreases j - i,
            {
                if str_eq(deps[i].0.as_str(), deps[j].0.as_str()) {
                    proof {
                        let d = self.dependencies->0;
                        assert(d@[i as int].0@ == d@[j as int].0@);
                        assert(!(forall|a: int, b: int| 0 <= a < b < d@.len() ==> d@[a].0@ != d@[b].0@));
                    }
                    return false;
                }
                i = i + 1;
            }
            j = j + 1;
        }
        true
    }

    /// A copy with the same value.
    pub fn snapshot(&self) -> (r: PluginMetadata)
        ensures
            r@ == self@,
    {
        PluginMetadata {
            name: self.name.clone(),
            version: self.version.clone(),
            description: copy_opt(&self.description),
            author: copy_opt(&self.author),
            homepage_url: copy_opt(&self.homepage_url),
            repository_url: copy_opt(&self.repository_url),
            license: copy_opt(&self.license),
            language: self.language,
            main_file: self.main_file.clone(),
            permissions: copy_strings(&self.permissions),
            dependencies: match &self.dependencies {
                Some(d) => Some(copy_pairs(d)),
                None => None,
            },
        }
    }

    /// Dependency names are unique.
    pub open spec fn wf(&self) -> bool {
        match self.dependencies {
            Some(deps) => forall|i: int, j: int|
                0 <= i < j < deps@.len() ==> deps@[i].0@ != deps@[j].0@,
            None => true,
        }
    }
}

/// Optional ceilings; `None` means unbounded in that dimension.
#[derive(Clone, Copy, Debug, PartialEq, Eq, Structural)]
pub struct ResourceLimits {
    pub max_memory: Option<usize>,
    pub max_cpu_time: Option<u64>,
    pub max_tasks: Option<usize>,
    pub max_api_calls: Option<usize>,
}

impl ResourceLimits {
    /// The limits a plugin gets unless the host sets others: 50 MiB of memory,
    /// one second of CPU time, 10 concurrent tasks, 1000 API calls per window.
    pub fn standard() -> (r: ResourceLimits)
        ensures
            r.max_memory == Some(52428800usize),
            r.max_cpu_time == Some(1000u64),
            r.max_tasks == Some(10usize),
            r.max_api_calls == Some(1000usize),
    {
        ResourceLimits {
            max_memory: Some(50 * 1024 * 1024),
            max_cpu_time: Some(1000),
            max_tasks: Some(10),
            max_api_calls: Some(1000),
        }
    }

    /// No ceiling in any dimension.
    pub fn unbounded() -> (r: ResourceLimits)
        ensures
            r.max_memory is None,
            r.max_cpu_time is None,
            r.max_tasks is None,
            r.max_api_calls is None,
    {
        ResourceLimits { max_memory: None, max_cpu_time: None, max_tasks: None, max_api_calls: None }
    }
}

/// Point-in-time usage snapshot of one plugin.
#[derive(Clone, Copy, Debug, PartialEq, Eq, Structural)]
pub struct ResourceUsage {
    pub memory_used: usize,
    pub cpu_time: u64,
    pub active_tasks: usize,
    pub api_calls: usize,
}

/// Milliseconds since the Unix epoch, UTC, within the calendar range
/// `MIN_TIMESTAMP_MS..=MAX_TIMESTAMP_MS`.
#[derive(Clone, Copy, Debug, PartialEq, Eq)]
pub struct Timestamp {
    millis: i64,
}

impl Timestamp {
    #[verifier::type_invariant]
    spec fn in_range(&self) -> bool {
        MIN_TIMESTAMP_MS <= self.millis <= MAX_TIMESTAMP_MS
    }

    pub closed spec fn spec_millis(&self) -> i64 {
        self.millis
    }

    /// The instant `millis`, if it lies in the calendar range.
    pub fn from_millis(millis: i64) -> (r: Option<Timestamp>)
        ensures
            r is Some <==> MIN_TIMESTAMP_MS <= millis <= MAX_TIMESTAMP_MS,
            r matches Some(t) ==> t.spec_millis() == millis,
    {
        if MIN_TIMESTAMP_MS <= millis && millis <= MAX_TIMESTAMP_MS {
            Some(Timestamp { millis })
        } else {
            None
        }
    }

    pub fn millis(&self) -> (r: i64)
        ensures
            r == self.spec_millis(),
            MIN_TIMESTAMP_MS <= r <= MAX_TIMESTAMP_MS,
    {
        proof { use_type_invariant(self); }
        self.millis
    }
}

#[verifier::external_type_specification]
#[verifier::external_body]
pub struct ExValue(serde_json::Value);

/// Relies on the derived `Clone` of `serde_json::Value`: a structural copy.
pub assume_specification[ <serde_json::Value as Clone>::clone ](v: &serde_json::Value) -> (r: serde_json::Value)
    ensures
        r == *v,
;

/// Name for the compact JSON text of a value.
pub uninterp spec fn json_text_of(v: serde_json::Value) -> Seq<char>;

/// Relies on the `Display` impl of `serde_json::Value`: compact JSON text,
/// which depends on the value alone.
#[verifier::external_body]
pub(crate) fn json_text(v: &serde_json::Value) -> (r: String)
    ensures
        r@ == json_text_of(*v),
{
    v.to_string()
}

/// Relies on `serde_json::from_str`: the value a JSON text denotes, if it is JSON.
#[verifier::external_body]
pub(crate) fn parse_json(text: &str) -> (r: Option<serde_json::Value>) {
    serde_json::from_str(text).ok()
}

/// Earliest instant, in milliseconds since the epoch, of the calendar range
/// that message timestamps may take (the first day of year -262143).
pub const MIN_TIMESTAMP_MS: i64 = -8334601228800000;

/// Latest instant of that range (the last millisecond of year 262142).
pub const MAX_TIMESTAMP_MS: i64 = 8210266876799999;

/// A message routed by the bus; `target == None` means broadcast.
#[derive(Clone, Debug)]
pub struct PluginMessage {
    pub source: String,
    pub target: Option<String>,
    pub message_type: String,
    pub payload: serde_json::Value,
    pub timestamp: Timestamp,
}

} // verus!
