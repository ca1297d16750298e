use vstd::prelude::*;
use crate::text::{opt_view, str_eq};

verus! {

/// Kind of a filesystem change under the plugin directory.
#[derive(Clone, Copy, Debug, PartialEq, Eq, Structural)]
pub enum PluginWatchEventType {
    Created,
    Modified,
    Deleted,
}

/// A change to one script file.
#[derive(Clone, Debug)]
pub struct PluginWatchEvent {
    pub path: String,
    pub event_type: PluginWatchEventType,
}

/// Name for the file name of a path without its extension.
pub uninterp spec fn file_stem_of(path: Seq<char>) -> Option<Seq<char>>;

/// Name for the extension of a path's file name.
pub uninterp spec fn extension_of(path: Seq<char>) -> Option<Seq<char>>;

/// Relies on `std::path::Path::file_stem`: depends on the path text alone.
#[verifier::external_body]
fn file_stem(path: &str) -> (r: Option<String>)
    ensures
        opt_view(r) == file_stem_of(path@),
{
    std::path::Path::new(path).file_stem().and_then(|s| s.to_str()).map(|s| s.to_string())
}

/// Relies on `std::path::Path::extension`: depends on the path text alone.
#[verifier::external_body]
fn extension(path: &str) -> (r: Option<String>)
    ensures
        opt_view(r) == extension_of(path@),
{
    std::path::Path::new(path).extension().and_then(|s| s.to_str()).map(|s| s.to_string())
}

/// Whether a path names a recognized script file.
pub open spec fn is_script(path: Seq<char>) -> bool {
    extension_of(path) == Some("lua"@)
}

pub fn is_script_path(path: &str) -> (r: bool)
    ensures
        r == is_script(path@),
{
    match extension(path) {
        Some(e) => str_eq(e.as_str(), "lua"),
        None => false,
    }
}

/// Identity of the plugin a path belongs to: its file stem.
pub fn plugin_id_of(path: &str) -> (r: Option<String>)
    ensures
        opt_view(r) == file_stem_of(path@),
{
    file_stem(path)
}

} // verus!
