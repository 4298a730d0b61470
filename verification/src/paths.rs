//! Well-known paths of the project.
use vstd::prelude::*;
use crate::release_package::slash_joined;

verus! {

/// The configuration file used when none is given.
pub fn default_config_path() -> (path: String)
    ensures
        path@ == "config/unvet.toml"@,
{
    String::from_str("config/unvet.toml")
}

/// The configuration files tried at start, in order: next to the working
/// directory, then in the workspace two levels up.
pub fn config_path_candidates() -> (paths: Vec<String>)
    ensures
        paths@.len() == 2,
        paths@[0]@ == "config/unvet.toml"@,
        paths@[1]@ == "../../config/unvet.toml"@,
{
    let mut paths: Vec<String> = Vec::new();
    paths.push(default_config_path());
    paths.push(String::from_str("../../config/unvet.toml"));
    paths
}

/// A path component written plainly: non-empty, neither `.` nor `..`, and
/// free of the characters that any platform reads as a separator or a
/// drive prefix (`/`, `\`, `:`).
pub open spec fn plain_component(c: Seq<char>) -> bool {
    &&& c.len() > 0
    &&& c != "."@
    &&& c != ".."@
    &&& forall|i: int| 0 <= i < c.len() ==> #[trigger] c[i] != '/' && c[i] != '\\' && c[i] != ':'
}

/// Every component is plain.
pub open spec fn all_plain(components: Seq<Seq<char>>) -> bool {
    forall|i: int| 0 <= i < components.len() ==> #[trigger] plain_component(components[i])
}

/// `Path::parent`, with the path given and returned as text: the path
/// without its final component. Which characters separate components, and
/// which prefixes a path may start with, depend on the platform, so only
/// what the documentation shows for every platform is claimed: the empty
/// path has no parent, and a path of plain components joined by `/`
/// (relative, or under the root `/`) has for parent the same path without
/// its last component (`foo` has the empty parent, `/foo` has `/`). Of
/// other paths nothing is claimed.
#[verifier::external_body]
fn parent_of(path: &str) -> (parent: Option<String>)
    ensures
        path@.len() == 0 ==> parent is None,
        (forall|parts: Seq<Seq<char>>|
            parts.len() > 0 && all_plain(parts) && path@ == #[trigger] slash_joined(parts)
                ==> parent is Some && parent.unwrap()@ == slash_joined(parts.drop_last())),
        (forall|parts: Seq<Seq<char>>|
            parts.len() > 0 && all_plain(parts) && path@ == "/"@ + #[trigger] slash_joined(parts)
                ==> parent is Some && parent.unwrap()@ == "/"@ + slash_joined(parts.drop_last())),
{
    match std::path::Path::new(path).parent() {
        Some(p) => Some(p.to_string_lossy().into_owned()),
        None => None,
    }
}

/// The workspace root: the parent of the build helper's manifest
/// directory (see `parent_of` for what is known of it); `None` when that
/// directory has no parent.
pub fn workspace_root(manifest_dir: &str) -> (root: Option<String>)
    ensures
        manifest_dir@.len() == 0 ==> root is None,
        (forall|parts: Seq<Seq<char>>|
            parts.len() > 0 && all_plain(parts) && manifest_dir@ == #[trigger] slash_joined(parts)
                ==> root is Some && root.unwrap()@ == slash_joined(parts.drop_last())),
        (forall|parts: Seq<Seq<char>>|
            parts.len() > 0 && all_plain(parts) && manifest_dir@ == "/"@ + #[trigger] slash_joined(parts)
                ==> root is Some && root.unwrap()@ == "/"@ + slash_joined(parts.drop_last())),
{
    parent_of(manifest_dir)
}

} // verus!
