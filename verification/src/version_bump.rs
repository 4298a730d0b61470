//! The version bump of the release tooling: checking a version string and
//! rewriting the version in manifest, JSON and lock files.
//!
//! The patterns are matched by the `regex` crate and JSON documents are
//! checked by `serde_json`; what those calls return is named below, and the
//! rewriting around them is verified against those names.
use vstd::prelude::*;
use crate::text::{chars_of, lines_state, string_from_chars, text_lines};

verus! {

/// Whether `Regex::new` accepts the pattern.
pub uninterp spec fn regex_compiles(pattern: Seq<char>) -> bool;

/// What `Regex::is_match` answers for the pattern and haystack.
pub uninterp spec fn regex_is_match(pattern: Seq<char>, haystack: Seq<char>) -> bool;

/// The text of group 1 of the first match (`Regex::captures`), if any.
pub uninterp spec fn regex_group1(pattern: Seq<char>, haystack: Seq<char>) -> Option<Seq<char>>;

/// What `Regex::replacen` returns for the pattern, haystack, limit and
/// replacement.
pub uninterp spec fn regex_replacen(
    pattern: Seq<char>,
    haystack: Seq<char>,
    limit: usize,
    replacement: Seq<char>,
) -> Seq<char>;

/// Whether `serde_json::from_str::<serde_json::Value>` accepts the text.
pub uninterp spec fn json_parses(text: Seq<char>) -> bool;

/// `Regex::new`: whether the pattern compiles.
#[verifier::external_body]
fn regex_valid(pattern: &str) -> (b: bool)
    ensures
        b == regex_compiles(pattern@),
{
    regex::Regex::new(pattern).is_ok()
}

/// `Regex::new` and `Regex::is_match`: `None` when the pattern does not
/// compile, else whether the haystack holds a match.
#[verifier::external_body]
fn regex_match(pattern: &str, haystack: &str) -> (r: Option<bool>)
    ensures
        r is Some <==> regex_compiles(pattern@),
        r matches Some(b) ==> b == regex_is_match(pattern@, haystack@),
{
    match regex::Regex::new(pattern) {
        Ok(re) => Some(re.is_match(haystack)),
        Err(_) => None,
    }
}

/// `Regex::new` and `Regex::captures`: `None` when the pattern does not
/// compile, else the text of group 1 of the first match, if any.
#[verifier::external_body]
fn regex_first_group(pattern: &str, haystack: &str) -> (r: Option<Option<String>>)
    ensures
        r is Some <==> regex_compiles(pattern@),
        r matches Some(g) ==> match g {
            Some(s) => regex_group1(pattern@, haystack@) == Some(s@),
            None => regex_group1(pattern@, haystack@) is None,
        },
{
    match regex::Regex::new(pattern) {
        Ok(re) => match re.captures(haystack) {
            Some(caps) => Some(caps.get(1).map(|m| m.as_str().to_string())),
            None => Some(None),
        },
        Err(_) => None,
    }
}

/// `Regex::new` and `Regex::replacen`: `None` when the pattern does not
/// compile, else the haystack with at most `limit` matches (all when
/// `limit` is 0) replaced.
#[verifier::external_body]
fn regex_replace(pattern: &str, haystack: &str, limit: usize, replacement: &str) -> (r: Option<
    String,
>)
    ensures
        r is Some <==> regex_compiles(pattern@),
        r matches Some(s) ==> s@ == regex_replacen(pattern@, haystack@, limit, replacement@),
{
    match regex::Regex::new(pattern) {
        Ok(re) => Some(re.replacen(haystack, limit, replacement).into_owned()),
        Err(_) => None,
    }
}

/// `serde_json::from_str` into a `serde_json::Value`: whether the text is
/// one JSON document.
#[verifier::external_body]
fn json_is_valid(text: &str) -> (b: bool)
    ensures
        b == json_parses(text@),
{
    serde_json::from_str::<serde_json::Value>(text).is_ok()
}

/// The pattern a version must match: `MAJOR.MINOR.PATCH` without leading
/// zeros, with optional pre-release and build parts.
pub open spec fn semver_pattern() -> Seq<char> {
    "^(0|[1-9]\\d*)\\.(0|[1-9]\\d*)\\.(0|[1-9]\\d*)(?:-[0-9A-Za-z.-]+)?(?:\\+[0-9A-Za-z.-]+)?$"@
}

/// The message for a version that is not SemVer-like.
pub open spec fn bad_version_message(version: Seq<char>) -> Seq<char> {
    "version must be SemVer-like MAJOR.MINOR.PATCH, got: "@ + version
}

/// The outcome of the version check from whether the pattern matched.
pub fn version_check(matched: bool, version: &str) -> (r: Result<(), String>)
    ensures
        matched <==> r is Ok,
        r matches Err(m) ==> m@ == bad_version_message(version@),
{
    if matched {
        Ok(())
    } else {
        Err(String::from_str("version must be SemVer-like MAJOR.MINOR.PATCH, got: ").concat(version))
    }
}

/// Checks that a version is SemVer-like.
pub fn validate_version(version: &str) -> (r: Result<(), String>)
    ensures
        regex_compiles(semver_pattern()) ==> (r is Ok <==> regex_is_match(semver_pattern(), version@)),
        regex_compiles(semver_pattern()) && r is Err ==> (r matches Err(m) && m@ == bad_version_message(
            version@,
        )),
        !regex_compiles(semver_pattern()) ==> r is Err,
{
    let pattern = "^(0|[1-9]\\d*)\\.(0|[1-9]\\d*)\\.(0|[1-9]\\d*)(?:-[0-9A-Za-z.-]+)?(?:\\+[0-9A-Za-z.-]+)?$";
    assert(pattern@ == semver_pattern());
    match regex_match(pattern, version) {
        Some(matched) => version_check(matched, version),
        None => Err(String::from_str("invalid version pattern")),
    }
}

/// `s` with every `$` doubled, so that a replacement inserts it literally.
pub open spec fn escape_dollars(s: Seq<char>) -> Seq<char>
    decreases s.len(),
{
    if s.len() == 0 {
        Seq::empty()
    } else if s.last() == '$' {
        escape_dollars(s.drop_last()) + seq!['$', '$']
    } else {
        escape_dollars(s.drop_last()).push(s.last())
    }
}

/// The replacement that keeps group 1 and sets the quoted version.
pub open spec fn version_replacement(version: Seq<char>) -> Seq<char> {
    "${1}\""@ + escape_dollars(version) + "\""@
}

fn replacement_for(version: &str) -> (r: String)
    ensures
        r@ == version_replacement(version@),
{
    let v = chars_of(version);
    let mut out: Vec<char> = Vec::new();
    let mut i: usize = 0;
    while i < v.len()
        invariant
            v@ == version@,
            i <= v@.len(),
            out@ == escape_dollars(v@.take(i as int)),
        decreases v.len() - i,
    {
        assert(v@.take(i + 1).drop_last() =~= v@.take(i as int));
        if v[i] == '$' {
            out.push('$');
            out.push('$');
        } else {
            out.push(v[i]);
        }
        i = i + 1;
        assert(out@ =~= escape_dollars(v@.take(i as int)));
    }
    assert(v@.take(v@.len() as int) =~= v@);
    let escaped = string_from_chars(&out);
    String::from_str("${1}\"").concat(escaped.as_str()).concat("\"")
}

/// The version assignment of a manifest: `version = "..."` or
/// `version.workspace = "..."` at the start of a line.
pub open spec fn toml_version_pattern() -> Seq<char> {
    "(?m)^(version(?:\\.workspace)?\\s*=\\s*)\"[^\"]+\""@
}

/// Sets every version assignment of a manifest to `version`; a manifest
/// without one is refused.
pub fn update_toml_version(raw: &str, version: &str) -> (r: Result<String, String>)
    ensures
        regex_compiles(toml_version_pattern()) ==> (r is Ok <==> regex_is_match(
            toml_version_pattern(),
            raw@,
        )),
        r matches Ok(next) ==> next@ == regex_replacen(
            toml_version_pattern(),
            raw@,
            0,
            version_replacement(version@),
        ),
        regex_compiles(toml_version_pattern()) && r is Err ==> (r matches Err(m) && m@
            == "no package version assignment found"@),
        !regex_compiles(toml_version_pattern()) ==> r is Err,
{
    let pattern = "(?m)^(version(?:\\.workspace)?\\s*=\\s*)\"[^\"]+\"";
    assert(pattern@ == toml_version_pattern());
    let found = match regex_match(pattern, raw) {
        Some(b) => b,
        None => return Err(String::from_str("invalid version pattern")),
    };
    if !found {
        return Err(String::from_str("no package version assignment found"));
    }
    let rep = replacement_for(version);
    match regex_replace(pattern, raw, 0, rep.as_str()) {
        Some(next) => Ok(next),
        None => Err(String::from_str("invalid version pattern")),
    }
}

/// A `"version": "..."` property anywhere in a JSON document.
pub open spec fn json_version_pattern() -> Seq<char> {
    "(\"version\"\\s*:\\s*)\"[^\"]+\""@
}

/// Sets the first `max_replacements` version properties of a JSON document
/// to `version`. The document must parse before and after; a document
/// without a version property, or a limit of 0, is refused.
pub fn update_json_version(raw: &str, version: &str, max_replacements: usize) -> (r: Result<
    String,
    String,
>)
    ensures
        !json_parses(raw@) ==> (r matches Err(m) && m@ == "invalid JSON before version update"@),
        json_parses(raw@) && regex_compiles(json_version_pattern()) ==> {
            let next = regex_replacen(
                json_version_pattern(),
                raw@,
                max_replacements,
                version_replacement(version@),
            );
            if max_replacements == 0 || !regex_is_match(json_version_pattern(), raw@) {
                r matches Err(m) && m@ == "no JSON version property found"@
            } else if !json_parses(next) {
                r matches Err(m) && m@ == "invalid JSON after version update"@
            } else {
                r matches Ok(s) && s@ == next
            }
        },
        !regex_compiles(json_version_pattern()) ==> r is Err,
{
    if !json_is_valid(raw) {
        return Err(String::from_str("invalid JSON before version update"));
    }
    let pattern = "(\"version\"\\s*:\\s*)\"[^\"]+\"";
    assert(pattern@ == json_version_pattern());
    let found = match regex_match(pattern, raw) {
        Some(b) => b,
        None => return Err(String::from_str("invalid version pattern")),
    };
    if max_replacements == 0 || !found {
        return Err(String::from_str("no JSON version property found"));
    }
    let rep = replacement_for(version);
    let next = match regex_replace(pattern, raw, max_replacements, rep.as_str()) {
        Some(n) => n,
        None => return Err(String::from_str("invalid version pattern")),
    };
    if !json_is_valid(next.as_str()) {
        return Err(String::from_str("invalid JSON after version update"));
    }
    Ok(next)
}

/// A lock file's package name line, with the name as group 1.
pub open spec fn lock_name_pattern() -> Seq<char> {
    "^name = \"([^\"]+)\"$"@
}

/// A lock file's version line.
pub open spec fn lock_version_pattern() -> Seq<char> {
    "^version = \"[^\"]+\"$"@
}

/// Reading state of the lock file update: the package being read and the
/// count of versions changed.
pub struct LockScan {
    pub package: Option<Seq<char>>,
    pub changed: nat,
}

/// One line of the lock file update: the next state and the line written.
/// A package header forgets the package; a name line names it; the version
/// line of a local package is set to `version`.
pub open spec fn lock_line(st: LockScan, line: Seq<char>, version: Seq<char>, locals: Seq<Seq<char>>) -> (
    LockScan,
    Seq<char>,
) {
    if line == "[[package]]"@ {
        (LockScan { package: None, changed: st.changed }, line)
    } else if regex_group1(lock_name_pattern(), line) is Some {
        (LockScan { package: regex_group1(lock_name_pattern(), line), changed: st.changed }, line)
    } else if regex_is_match(lock_version_pattern(), line) && st.package is Some && locals.contains(
        st.package.unwrap(),
    ) {
        (LockScan { package: st.package, changed: st.changed + 1 }, "version = \""@ + version + "\""@)
    } else {
        (st, line)
    }
}

/// The lock file update over a sequence of lines: the final state and the
/// lines written, each followed by a line feed.
pub open spec fn lock_scan(lines: Seq<Seq<char>>, version: Seq<char>, locals: Seq<Seq<char>>) -> (
    LockScan,
    Seq<char>,
)
    decreases lines.len(),
{
    if lines.len() == 0 {
        (LockScan { package: None, changed: 0 }, Seq::empty())
    } else {
        let (st, out) = lock_scan(lines.drop_last(), version, locals);
        let (st2, line) = lock_line(st, lines.last(), version, locals);
        (st2, out + line + seq!['\n'])
    }
}

/// The rewritten lock file: the written lines, without the final line feed
/// when the original text had none.
pub open spec fn lock_output(raw: Seq<char>, written: Seq<char>) -> Seq<char> {
    if raw.len() > 0 && raw.last() == '\n' {
        written
    } else if written.len() > 0 {
        written.drop_last()
    } else {
        written
    }
}

fn is_local(name: &String, locals: &Vec<String>) -> (b: bool)
    ensures
        b == crate::passthrough::views_of(locals@).contains(name@),
{
    let ghost views = crate::passthrough::views_of(locals@);
    let mut i: usize = 0;
    while i < locals.len()
        invariant
            views == crate::passthrough::views_of(locals@),
            i <= locals@.len(),
            forall|k: int| 0 <= k < i ==> views[k] != name@,
        decreases locals.len() - i,
    {
        if *name == locals[i] {
            assert(views[i as int] == name@);
            return true;
        }
        i = i + 1;
    }
    false
}

fn push_all(out: &mut Vec<char>, s: &Vec<char>)
    ensures
        final(out)@ == old(out)@ + s@,
{
    let mut i: usize = 0;
    let ghost base = out@;
    while i < s.len()
        invariant
            i <= s@.len(),
            out@ == base + s@.take(i as int),
        decreases s.len() - i,
    {
        out.push(s[i]);
        i = i + 1;
        assert(out@ =~= base + s@.take(i as int));
    }
    assert(s@.take(s@.len() as int) =~= s@);
}

/// Handles one line; `None` when a pattern does not compile.
fn scan_line(
    package: &mut Option<String>,
    changed: &mut usize,
    line: &Vec<char>,
    version: &str,
    locals: &Vec<String>,
) -> (written: Option<Vec<char>>)
    requires
        *old(changed) < usize::MAX,
    ensures
        regex_compiles(lock_name_pattern()) && regex_compiles(lock_version_pattern()) <==> written
            is Some,
        written matches Some(w) ==> {
            let st = LockScan {
                package: match *old(package) {
                    Some(p) => Some(p@),
                    None => None,
                },
                changed: *old(changed) as nat,
            };
            let (st2, l2) = lock_line(st, line@, version@, crate::passthrough::views_of(locals@));
            &&& w@ == l2
            &&& st2.changed == *final(changed) as nat
            &&& st2.package == match *final(package) {
                Some(p) => Some(p@),
                None => None,
            }
        },
{
    let text = string_from_chars(line);
    let header = chars_of("[[package]]");
    let name = match regex_first_group("^name = \"([^\"]+)\"$", text.as_str()) {
        Some(g) => g,
        None => return None,
    };
    let is_version = match regex_match("^version = \"[^\"]+\"$", text.as_str()) {
        Some(b) => b,
        None => return None,
    };
    assert("^name = \"([^\"]+)\"$"@ == lock_name_pattern());
    assert("^version = \"[^\"]+\"$"@ == lock_version_pattern());
    if crate::text::chars_equal(line, &header) {
        *package = None;
        return Some(line.clone());
    }
    match name {
        Some(n) => {
            *package = Some(n);
            return Some(line.clone());
        },
        None => {},
    }
    let local = match package {
        Some(p) => is_local(p, locals),
        None => false,
    };
    if is_version && local {
        *changed = *changed + 1;
        let mut w = chars_of("version = \"");
        let v = chars_of(version);
        push_all(&mut w, &v);
        w.push('"');
        proof {
            reveal_strlit("\"");
        }
        assert(w@ =~= "version = \""@ + version@ + "\""@);
        Some(w)
    } else {
        Some(line.clone())
    }
}

/// Sets the version of every local package in a lock file to `version`;
/// other packages are left alone. A lock file without a local package
/// version is refused.
pub fn update_cargo_lock_versions(raw: &str, version: &str, local_package_names: &Vec<String>) -> (r:
    Result<String, String>)
    requires
        raw@.len() < usize::MAX,
    ensures
        ({
            let (st, written) = lock_scan(
                text_lines(raw@),
                version@,
                crate::passthrough::views_of(local_package_names@),
            );
            regex_compiles(lock_name_pattern()) && regex_compiles(lock_version_pattern()) ==> {
                &&& st.changed == 0 ==> (r matches Err(m) && m@
                    == "no local package versions found in lockfile"@)
                &&& st.changed > 0 ==> (r matches Ok(s) && s@ == lock_output(raw@, written))
            }
        }),
        !(regex_compiles(lock_name_pattern()) && regex_compiles(lock_version_pattern())) ==> r is Err,
{
    let name_pattern = "^name = \"([^\"]+)\"$";
    let version_pattern = "^version = \"[^\"]+\"$";
    assert(name_pattern@ == lock_name_pattern());
    assert(version_pattern@ == lock_version_pattern());
    if !regex_valid(name_pattern) || !regex_valid(version_pattern) {
        return Err(String::from_str("invalid lock file pattern"));
    }
    let chars = chars_of(raw);
    let ghost locals = crate::passthrough::views_of(local_package_names@);
    let mut out: Vec<char> = Vec::new();
    let mut current: Vec<char> = Vec::new();
    let mut package: Option<String> = None;
    let mut changed: usize = 0;
    let mut i: usize = 0;
    while i < chars.len()
        invariant
            chars@ == raw@,
            raw@.len() < usize::MAX,
            i <= chars@.len(),
            changed <= i,
            locals == crate::passthrough::views_of(local_package_names@),
            regex_compiles(lock_name_pattern()) && regex_compiles(lock_version_pattern()),
            current@ == lines_state(chars@.take(i as int)).1,
            ({
                let (st, written) = lock_scan(lines_state(chars@.take(i as int)).0, version@, locals);
                &&& written == out@
                &&& st.changed == changed as nat
                &&& st.package == match package {
                    Some(p) => Some(p@),
                    None => None,
                }
            }),
        decreases chars.len() - i,
    {
        let c = chars[i];
        let ghost prefix = chars@.take(i as int);
        assert(chars@.take(i + 1).drop_last() =~= prefix);
        if c == '\n' {
            let ghost done = lines_state(prefix).0;
            if current.len() > 0 && current[current.len() - 1] == '\r' {
                current.pop();
            }
            let written = match scan_line(&mut package, &mut changed, &current, version, local_package_names) {
                Some(w) => w,
                None => return Err(String::from_str("invalid lock file pattern")),
            };
            push_all(&mut out, &written);
            out.push('\n');
            assert(lines_state(chars@.take(i + 1)).0 == done.push(current@));
            assert(done.push(current@).drop_last() =~= done);
            current = Vec::new();
            assert(current@ =~= lines_state(chars@.take(i + 1)).1);
        } else {
            current.push(c);
        }
        i = i + 1;
    }
    assert(chars@.take(chars@.len() as int) =~= chars@);
    let ghost done = lines_state(raw@).0;
    if current.len() > 0 {
        let written = match scan_line(&mut package, &mut changed, &current, version, local_package_names) {
            Some(w) => w,
            None => return Err(String::from_str("invalid lock file pattern")),
        };
        push_all(&mut out, &written);
        out.push('\n');
        assert(text_lines(raw@) == done.push(current@));
        assert(done.push(current@).drop_last() =~= done);
    }
    if !(chars.len() > 0 && chars[chars.len() - 1] == '\n') && out.len() > 0 {
        out.pop();
    }
    if changed == 0 {
        return Err(String::from_str("no local package versions found in lockfile"));
    }
    Ok(string_from_chars(&out))
}

/// The lock file update leaves every line outside a local package's
/// version line as it was: only versions of local packages change.
pub proof fn law_lock_update_keeps_other_lines(
    st: LockScan,
    line: Seq<char>,
    version: Seq<char>,
    locals: Seq<Seq<char>>,
)
    requires
        !regex_is_match(lock_version_pattern(), line) || st.package is None || !locals.contains(
            st.package.unwrap(),
        ),
    ensures
        lock_line(st, line, version, locals).1 == line,
        lock_line(st, line, version, locals).0.changed == st.changed,
{
}

} // verus!
