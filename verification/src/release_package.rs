//! The naming decisions of the release package: which version it carries,
//! what the package and its archive entries are called, which artifacts it
//! needs, and the version read from the desktop configuration.
use vstd::prelude::*;
use crate::passthrough::views_of;
use crate::text::{chars_of, trim, trim_chars, string_from_chars};
use crate::version_bump::json_parses;

verus! {

/// The string value of a top-level property of a JSON document, when the
/// document parses and the property is a string (`serde_json::Value::get`
/// and `as_str`).
pub uninterp spec fn json_top_level_string(text: Seq<char>, key: Seq<char>) -> Option<Seq<char>>;

/// `serde_json::from_str` into a `serde_json::Value`, then the string value
/// of property `key`: `None` when the text does not parse, `Some(None)`
/// when the property is missing or not a string.
#[verifier::external_body]
fn json_string_property(text: &str, key: &str) -> (r: Option<Option<String>>)
    ensures
        r is Some <==> json_parses(text@),
        r matches Some(v) ==> match v {
            Some(s) => json_top_level_string(text@, key@) == Some(s@),
            None => json_top_level_string(text@, key@) is None,
        },
{
    match serde_json::from_str::<serde_json::Value>(text) {
        Ok(value) => Some(value.get(key).and_then(|v| v.as_str()).map(|s| s.to_string())),
        Err(_) => None,
    }
}

/// The version a package is built for: the requested one unless it is
/// blank, in which case `None` asks for the configured default.
pub fn requested_version(requested: Option<String>) -> (r: Option<String>)
    ensures
        r == match requested {
            Some(v) => if trim(v@).len() > 0 {
                Some(v)
            } else {
                None
            },
            None => None,
        },
{
    match requested {
        Some(v) => {
            let t = trim_chars(&chars_of(v.as_str()));
            if t.len() > 0 {
                Some(v)
            } else {
                None
            }
        },
        None => None,
    }
}

/// The version recorded in the desktop configuration document read from
/// `path`: its `version` property, trimmed, which must not be blank.
pub fn version_from_desktop_config(raw: &str, path: &str) -> (r: Result<String, String>)
    ensures
        !json_parses(raw@) ==> (r matches Err(m) && m@ == "failed to parse tauri config: "@ + path@),
        json_parses(raw@) ==> match json_top_level_string(raw@, "version"@) {
            Some(v) => if trim(v).len() > 0 {
                r matches Ok(s) && s@ == trim(v)
            } else {
                r matches Err(m) && m@ == "version is missing in "@ + path@
            },
            None => r matches Err(m) && m@ == "version is missing in "@ + path@,
        },
{
    let key = "version";
    match json_string_property(raw, key) {
        None => Err(String::from_str("failed to parse tauri config: ").concat(path)),
        Some(None) => Err(String::from_str("version is missing in ").concat(path)),
        Some(Some(v)) => {
            let t = trim_chars(&chars_of(v.as_str()));
            if t.len() == 0 {
                Err(String::from_str("version is missing in ").concat(path))
            } else {
                Ok(string_from_chars(&t))
            }
        },
    }
}

/// The package's name for a version.
pub fn package_name(version: &str) -> (name: String)
    ensures
        name@ == "unvet-"@ + version@,
{
    String::from_str("unvet-").concat(version)
}

/// The archive's file name for a package.
pub fn archive_file_name(package: &str) -> (name: String)
    ensures
        name@ == package@ + ".zip"@,
{
    String::from_str(package).concat(".zip")
}

/// Path components joined by forward slashes.
pub open spec fn slash_joined(parts: Seq<Seq<char>>) -> Seq<char>
    decreases parts.len(),
{
    if parts.len() == 0 {
        Seq::empty()
    } else if parts.len() == 1 {
        parts[0]
    } else {
        slash_joined(parts.drop_last()) + "/"@ + parts.last()
    }
}

/// The archive entry name of a path, given its components relative to the
/// staging root: the components joined by forward slashes, whatever the
/// platform's separator.
pub fn archive_entry_name(components: &Vec<String>) -> (name: String)
    ensures
        name@ == slash_joined(views_of(components@)),
{
    let ghost parts = views_of(components@);
    let mut name = String::from_str("");
    proof {
        reveal_strlit("");
    }
    let mut i: usize = 0;
    assert(parts.take(0) =~= Seq::<Seq<char>>::empty());
    while i < components.len()
        invariant
            parts == views_of(components@),
            i <= components@.len(),
            name@ == slash_joined(parts.take(i as int)),
        decreases components.len() - i,
    {
        assert(parts.take(i + 1).drop_last() =~= parts.take(i as int));
        if i == 0 {
            name = String::from_str(components[0].as_str());
            assert(parts.take(1) =~= seq![parts[0]]);
        } else {
            name = name.concat("/").concat(components[i].as_str());
        }
        i = i + 1;
    }
    assert(parts.take(components@.len() as int) =~= parts);
    name
}

/// The archive entry of a directory: its name with a trailing slash; the
/// staging directory itself (empty name) gets no entry.
pub fn archive_directory_entry(name: &str) -> (entry: Option<String>)
    ensures
        name@.len() == 0 <==> entry is None,
        entry matches Some(e) ==> e@ == name@ + "/"@,
{
    let chars = chars_of(name);
    if chars.len() == 0 {
        None
    } else {
        Some(String::from_str(name).concat("/"))
    }
}

/// The build artifacts every package must contain.
pub fn required_release_files() -> (files: Vec<String>)
    ensures
        views_of(files@) == seq![
            "unvet-desktop.exe"@,
            "unvet-cli.exe"@,
            "unvet_desktop_lib.dll"@,
            "NPClient64.dll"@,
            "NPClient.dll"@,
            "TrackIR.exe"@,
            "unvet-uninstall-compatible-layers.exe"@,
        ],
{
    let mut files: Vec<String> = Vec::new();
    files.push(String::from_str("unvet-desktop.exe"));
    files.push(String::from_str("unvet-cli.exe"));
    files.push(String::from_str("unvet_desktop_lib.dll"));
    files.push(String::from_str("NPClient64.dll"));
    files.push(String::from_str("NPClient.dll"));
    files.push(String::from_str("TrackIR.exe"));
    files.push(String::from_str("unvet-uninstall-compatible-layers.exe"));
    assert(views_of(files@) =~= seq![
        "unvet-desktop.exe"@,
        "unvet-cli.exe"@,
        "unvet_desktop_lib.dll"@,
        "NPClient64.dll"@,
        "NPClient.dll"@,
        "TrackIR.exe"@,
        "unvet-uninstall-compatible-layers.exe"@,
    ]);
    files
}

/// The repository files copied into the package when present.
pub fn optional_root_files() -> (files: Vec<String>)
    ensures
        views_of(files@) == seq!["README.md"@, "LICENSE"@, "THIRD_PARTY_NOTICES.md"@],
{
    let mut files: Vec<String> = Vec::new();
    files.push(String::from_str("README.md"));
    files.push(String::from_str("LICENSE"));
    files.push(String::from_str("THIRD_PARTY_NOTICES.md"));
    assert(views_of(files@) =~= seq!["README.md"@, "LICENSE"@, "THIRD_PARTY_NOTICES.md"@]);
    files
}

/// Lines joined by line feeds.
pub open spec fn newline_joined(parts: Seq<Seq<char>>) -> Seq<char>
    decreases parts.len(),
{
    if parts.len() == 0 {
        Seq::empty()
    } else if parts.len() == 1 {
        parts[0]
    } else {
        newline_joined(parts.drop_last()) + "\n"@ + parts.last()
    }
}

/// The error reported when required artifacts are missing; `None` when
/// none is.
pub fn missing_artifacts_error(missing: &Vec<String>) -> (r: Option<String>)
    ensures
        missing@.len() == 0 <==> r is None,
        r matches Some(m) ==> m@ == "required release artifacts are missing:\n"@ + newline_joined(
            views_of(missing@),
        ),
{
    if missing.len() == 0 {
        return None;
    }
    let ghost parts = views_of(missing@);
    let mut joined = String::from_str(missing[0].as_str());
    let mut i: usize = 1;
    assert(parts.take(1) =~= seq![parts[0]]);
    while i < missing.len()
        invariant
            parts == views_of(missing@),
            1 <= i <= missing@.len(),
            joined@ == newline_joined(parts.take(i as int)),
        decreases missing.len() - i,
    {
        assert(parts.take(i + 1).drop_last() =~= parts.take(i as int));
        joined = joined.concat("\n").concat(missing[i].as_str());
        i = i + 1;
    }
    assert(parts.take(missing@.len() as int) =~= parts);
    Some(String::from_str("required release artifacts are missing:\n").concat(joined.as_str()))
}

} // verus!
