//! The registry bookkeeping of the compatibility layers: the directory
//! value the TrackIR and FreeTrack keys hold, reading a value out of a
//! `reg query` listing, deciding whether a key belongs to this
//! installation, and the decisions of the tool that removes the layers.
use vstd::prelude::*;
use crate::text::{
    ascii_lower, chars_of, decimal, decimal_string, has_prefix, is_space, is_space_char,
    lower_chars, replace_chars, replace_char, starts_with_chars, string_from_chars, trim,
    trim_chars,
};

verus! {

/// `s` with a trailing backslash, added when missing.
pub open spec fn with_trailing_backslash(s: Seq<char>) -> Seq<char> {
    if s.len() > 0 && s.last() == '\\' {
        s
    } else {
        s.push('\\')
    }
}

fn push_backslash_if_missing(v: &mut Vec<char>)
    ensures
        final(v)@ == with_trailing_backslash(old(v)@),
{
    if v.len() == 0 || v[v.len() - 1] != '\\' {
        v.push('\\');
    }
}

/// The directory value written to and compared with the registry: the
/// directory's path with a trailing backslash.
pub fn normalize_registry_dir_value(path: &str) -> (value: String)
    ensures
        value@ == with_trailing_backslash(path@),
{
    let mut v = chars_of(path);
    push_backslash_if_missing(&mut v);
    string_from_chars(&v)
}

/// The whitespace-separated words of `s`, built left to right: a
/// non-space character extends the current word when the character before
/// it is not a space, and starts a new word otherwise.
pub open spec fn words(s: Seq<char>) -> Seq<Seq<char>>
    decreases s.len(),
{
    if s.len() == 0 {
        Seq::empty()
    } else {
        let w = words(s.drop_last());
        let c = s.last();
        if is_space(c) {
            w
        } else if s.len() >= 2 && !is_space(s[s.len() - 2]) {
            w.update(w.len() - 1, w.last().push(c))
        } else {
            w.push(seq![c])
        }
    }
}

proof fn lemma_words_nonempty(s: Seq<char>)
    requires
        s.len() > 0,
        !is_space(s.last()),
    ensures
        words(s).len() > 0,
    decreases s.len(),
{
    if s.len() >= 2 && !is_space(s[s.len() - 2]) {
        assert(s.drop_last().last() == s[s.len() - 2]);
        lemma_words_nonempty(s.drop_last());
    }
}

/// Words joined by single spaces.
pub open spec fn join_words(ws: Seq<Seq<char>>) -> Seq<char>
    decreases ws.len(),
{
    if ws.len() == 0 {
        Seq::empty()
    } else if ws.len() == 1 {
        ws[0]
    } else {
        join_words(ws.drop_last()) + seq![' '] + ws.last()
    }
}

/// The value a line of `reg query` output carries: the line is
/// `name type data...`, with a type starting with `REG_`; the data words
/// are joined by single spaces. Header lines (starting with `HKEY_`),
/// blank lines and lines without data carry none.
pub open spec fn spec_parse_registry_line(line: Seq<char>) -> Option<Seq<char>> {
    let t = trim(line);
    let ws = words(t);
    if t.len() == 0 || has_prefix(t, "HKEY_"@) || ws.len() < 2 || !has_prefix(ws[1], "REG_"@) {
        None
    } else if join_words(ws.skip(2)).len() == 0 {
        None
    } else {
        Some(join_words(ws.skip(2)))
    }
}

spec fn vec_views(list: Seq<Vec<char>>) -> Seq<Seq<char>> {
    list.map_values(|v: Vec<char>| v@)
}

fn split_words(v: &Vec<char>) -> (out: Vec<Vec<char>>)
    ensures
        vec_views(out@) == words(v@),
{
    let mut done: Vec<Vec<char>> = Vec::new();
    let mut current: Vec<char> = Vec::new();
    let mut in_word = false;
    let mut i: usize = 0;
    assert(vec_views(done@) =~= words(v@.take(0)));
    while i < v.len()
        invariant
            i <= v@.len(),
            in_word == (i > 0 && !is_space(v@[i - 1])),
            !in_word ==> vec_views(done@) == words(v@.take(i as int)) && current@.len() == 0,
            in_word ==> words(v@.take(i as int)).len() > 0 && vec_views(done@) == words(
                v@.take(i as int),
            ).drop_last() && current@ == words(v@.take(i as int)).last(),
        decreases v.len() - i,
    {
        let c = v[i];
        let ghost prev = v@.take(i as int);
        let ghost next = v@.take(i + 1);
        assert(next.drop_last() =~= prev);
        assert(next.last() == c);
        assert(i > 0 ==> next[next.len() - 2] == v@[i - 1]);
        if is_space_char(c) {
            if in_word {
                let ghost w = words(prev);
                let finished = current;
                current = Vec::new();
                done.push(finished);
                assert(vec_views(done@) =~= w.drop_last().push(w.last()));
                assert(w.drop_last().push(w.last()) =~= w);
            }
            assert(current@ =~= Seq::<char>::empty());
            in_word = false;
        } else {
            if in_word {
                let ghost w = words(prev);
                current.push(c);
                assert(words(next) == w.update(w.len() - 1, w.last().push(c)));
                assert(words(next).drop_last() =~= w.drop_last());
            } else {
                current.push(c);
                assert(current@ =~= seq![c]);
                assert(words(next) == words(prev).push(seq![c]));
                assert(words(next).drop_last() =~= words(prev));
            }
            in_word = true;
        }
        i = i + 1;
    }
    assert(v@.take(v@.len() as int) =~= v@);
    if in_word {
        let ghost w = words(v@);
        done.push(current);
        assert(vec_views(done@) =~= w.drop_last().push(w.last()));
        assert(w.drop_last().push(w.last()) =~= w);
    }
    done
}

fn join_from_third(ws: &Vec<Vec<char>>) -> (out: Vec<char>)
    requires
        ws@.len() >= 2,
    ensures
        out@ == join_words(vec_views(ws@).skip(2)),
{
    let ghost views = vec_views(ws@);
    let mut out: Vec<char> = Vec::new();
    let mut k: usize = 2;
    assert(views.subrange(2, 2) =~= Seq::<Seq<char>>::empty());
    while k < ws.len()
        invariant
            views == vec_views(ws@),
            2 <= k <= ws@.len(),
            out@ == join_words(views.subrange(2, k as int)),
        decreases ws.len() - k,
    {
        let ghost before = out@;
        assert(views.subrange(2, k + 1).drop_last() =~= views.subrange(2, k as int));
        assert(views.subrange(2, k + 1).last() == ws@[k as int]@);
        if k > 2 {
            out.push(' ');
        }
        let mut j: usize = 0;
        let ghost base = out@;
        while j < ws[k].len()
            invariant
                k < ws@.len(),
                j <= ws@[k as int]@.len(),
                out@ == base + ws@[k as int]@.take(j as int),
            decreases ws@[k as int]@.len() - j,
        {
            out.push(ws[k][j]);
            j = j + 1;
            assert(out@ =~= base + ws@[k as int]@.take(j as int));
        }
        assert(ws@[k as int]@.take(j as int) =~= ws@[k as int]@);
        if k == 2 {
            assert(out@ =~= ws@[2]@);
            assert(views.subrange(2, 3) =~= seq![ws@[2]@]);
        } else {
            assert(out@ =~= before + seq![' '] + ws@[k as int]@);
        }
        k = k + 1;
    }
    assert(views.subrange(2, ws@.len() as int) =~= views.skip(2));
    out
}

/// The value carried by one line of `reg query` output, if any.
pub fn parse_registry_query_line(line: &str) -> (r: Option<String>)
    ensures
        r is Some <==> spec_parse_registry_line(line@) is Some,
        r matches Some(d) ==> d@ == spec_parse_registry_line(line@).unwrap(),
{
    let trimmed = trim_chars(&chars_of(line));
    if trimmed.len() == 0 || starts_with_chars(&trimmed, &chars_of("HKEY_")) {
        return None;
    }
    let ws = split_words(&trimmed);
    if ws.len() < 2 {
        return None;
    }
    if !starts_with_chars(&ws[1], &chars_of("REG_")) {
        return None;
    }
    let data = join_from_third(&ws);
    if data.len() == 0 {
        None
    } else {
        Some(string_from_chars(&data))
    }
}

/// `s` without trailing space characters.
pub open spec fn strip_trailing_spaces(s: Seq<char>) -> Seq<char>
    decreases s.len(),
{
    if s.len() > 0 && s.last() == ' ' {
        strip_trailing_spaces(s.drop_last())
    } else {
        s
    }
}

/// A registry directory value in the form two values are compared in:
/// trimmed, with forward slashes turned into backslashes, trailing spaces
/// removed, a trailing backslash, in ASCII lower case.
pub open spec fn folded_registry_value(s: Seq<char>) -> Seq<char> {
    ascii_lower(with_trailing_backslash(strip_trailing_spaces(replace_char(trim(s), '/', '\\'))))
}

fn fold_registry_value(input: &str) -> (out: Vec<char>)
    ensures
        out@ == folded_registry_value(input@),
{
    let mut text = replace_chars(&trim_chars(&chars_of(input)), '/', '\\');
    while text.len() > 0 && text[text.len() - 1] == ' '
        invariant
            strip_trailing_spaces(text@) == strip_trailing_spaces(
                replace_char(trim(input@), '/', '\\'),
            ),
        decreases text.len(),
    {
        text.pop();
    }
    push_backslash_if_missing(&mut text);
    lower_chars(&text)
}

/// Whether a registry value names the target directory, compared after
/// folding both.
pub fn registry_value_matches_target(value: &str, target_dir: &str) -> (b: bool)
    ensures
        b == (folded_registry_value(value@) == folded_registry_value(target_dir@)),
{
    let a = fold_registry_value(value);
    let t = fold_registry_value(target_dir);
    crate::text::chars_equal(&a, &t)
}

/// The options of the removal tool.
#[derive(Debug, Clone, Copy, PartialEq, Eq, Structural)]
pub struct UninstallOptions {
    pub dry_run: bool,
    pub help: bool,
}

/// The options given by the arguments (the program name excluded), read
/// left to right; the first unknown argument is refused.
pub open spec fn spec_uninstall_args(args: Seq<Seq<char>>) -> Result<UninstallOptions, Seq<char>>
    decreases args.len(),
{
    if args.len() == 0 {
        Ok(UninstallOptions { dry_run: false, help: false })
    } else {
        match spec_uninstall_args(args.drop_last()) {
            Err(e) => Err(e),
            Ok(o) => {
                let a = args.last();
                if a == "--dry-run"@ {
                    Ok(UninstallOptions { dry_run: true, help: o.help })
                } else if a == "--help"@ || a == "-h"@ || a == "/?"@ {
                    Ok(UninstallOptions { dry_run: o.dry_run, help: true })
                } else {
                    Err(a)
                }
            },
        }
    }
}

fn is_literal(arg: &Vec<char>, lit: &str) -> (b: bool)
    ensures
        b == (arg@ == lit@),
{
    crate::text::chars_equal(arg, &chars_of(lit))
}

/// Reads the removal tool's arguments; an unknown argument is returned as
/// the error.
pub fn parse_uninstall_args(args: &Vec<String>) -> (r: Result<UninstallOptions, String>)
    ensures
        match spec_uninstall_args(crate::passthrough::views_of(args@)) {
            Ok(o) => r == Ok::<UninstallOptions, String>(o),
            Err(e) => r matches Err(a) && a@ == e,
        },
{
    let ghost views = crate::passthrough::views_of(args@);
    let mut options = UninstallOptions { dry_run: false, help: false };
    let mut i: usize = 0;
    assert(views.take(0) =~= Seq::<Seq<char>>::empty());
    while i < args.len()
        invariant
            views == crate::passthrough::views_of(args@),
            i <= args@.len(),
            spec_uninstall_args(views.take(i as int)) == Ok::<UninstallOptions, Seq<char>>(options),
        decreases args.len() - i,
    {
        let arg = chars_of(args[i].as_str());
        assert(views.take(i + 1).drop_last() =~= views.take(i as int));
        assert(views.take(i + 1).last() == arg@);
        if is_literal(&arg, "--dry-run") {
            options.dry_run = true;
        } else if is_literal(&arg, "--help") || is_literal(&arg, "-h") || is_literal(&arg, "/?") {
            options.help = true;
        } else {
            let bad = args[i].clone();
            proof {
                lemma_uninstall_args_error_sticks(views, i as int + 1);
            }
            return Err(bad);
        }
        i = i + 1;
    }
    assert(views.take(args@.len() as int) =~= views);
    Ok(options)
}

proof fn lemma_uninstall_args_error_sticks(args: Seq<Seq<char>>, k: int)
    requires
        0 < k <= args.len(),
        spec_uninstall_args(args.take(k)) is Err,
    ensures
        spec_uninstall_args(args) == spec_uninstall_args(args.take(k)),
    decreases args.len() - k,
{
    if k < args.len() {
        assert(args.take(k + 1).drop_last() =~= args.take(k));
        lemma_uninstall_args_error_sticks(args, k + 1);
    } else {
        assert(args.take(k) =~= args);
    }
}

/// The keys under the current user's hive through which games find the
/// TrackIR and FreeTrack compatibility layers.
pub fn trackir_registry_keys() -> (keys: Vec<String>)
    ensures
        crate::passthrough::views_of(keys@) == seq![
            "Software\\NaturalPoint\\NATURALPOINT\\NPClient Location"@,
            "Software\\NaturalPoint\\NATURALPOINT\\NPClient64 Location"@,
            "Software\\NaturalPoint\\NaturalPoint\\NPClient Location"@,
            "Software\\NaturalPoint\\NaturalPoint\\NPClient64 Location"@,
            "Software\\Freetrack\\FreeTrackClient"@,
            "Software\\Freetrack\\FreetrackClient"@,
        ],
{
    let mut keys: Vec<String> = Vec::new();
    keys.push(String::from_str("Software\\NaturalPoint\\NATURALPOINT\\NPClient Location"));
    keys.push(String::from_str("Software\\NaturalPoint\\NATURALPOINT\\NPClient64 Location"));
    keys.push(String::from_str("Software\\NaturalPoint\\NaturalPoint\\NPClient Location"));
    keys.push(String::from_str("Software\\NaturalPoint\\NaturalPoint\\NPClient64 Location"));
    keys.push(String::from_str("Software\\Freetrack\\FreeTrackClient"));
    keys.push(String::from_str("Software\\Freetrack\\FreetrackClient"));
    assert(crate::passthrough::views_of(keys@) =~= seq![
        "Software\\NaturalPoint\\NATURALPOINT\\NPClient Location"@,
        "Software\\NaturalPoint\\NATURALPOINT\\NPClient64 Location"@,
        "Software\\NaturalPoint\\NaturalPoint\\NPClient Location"@,
        "Software\\NaturalPoint\\NaturalPoint\\NPClient64 Location"@,
        "Software\\Freetrack\\FreeTrackClient"@,
        "Software\\Freetrack\\FreetrackClient"@,
    ]);
    keys
}

/// The name of the value that holds the installation directory.
pub fn installer_value_name() -> (name: String)
    ensures
        name@ == "Path"@,
{
    String::from_str("Path")
}

/// The compatibility files installed next to the executable.
pub fn compatibility_files() -> (files: Vec<String>)
    ensures
        crate::passthrough::views_of(files@) == seq![
            "NPClient64.dll"@,
            "NPClient.dll"@,
            "TrackIR.exe"@,
        ],
{
    let mut files: Vec<String> = Vec::new();
    files.push(String::from_str("NPClient64.dll"));
    files.push(String::from_str("NPClient.dll"));
    files.push(String::from_str("TrackIR.exe"));
    assert(crate::passthrough::views_of(files@) =~= seq![
        "NPClient64.dll"@,
        "NPClient.dll"@,
        "TrackIR.exe"@,
    ]);
    files
}

/// The full name of a key under the current user's hive.
pub fn full_registry_key(key_path: &str) -> (key: String)
    ensures
        key@ == "HKCU\\"@ + key_path@,
{
    String::from_str("HKCU\\").concat(key_path)
}

/// The `Path` subkey of a key, which also holds the directory.
pub fn path_subkey(full_key: &str) -> (key: String)
    ensures
        key@ == full_key@ + "\\Path"@,
{
    String::from_str(full_key).concat("\\Path")
}

/// Whether a key belongs to this installation: one of the values read from
/// it names the target directory.
pub fn owned_by_target(values: &Vec<Option<String>>, target_dir: &str) -> (b: bool)
    ensures
        b == exists|i: int|
            0 <= i < values@.len() && #[trigger] values@[i] is Some && folded_registry_value(
                values@[i].unwrap()@,
            ) == folded_registry_value(target_dir@),
{
    let mut i: usize = 0;
    while i < values.len()
        invariant
            i <= values@.len(),
            forall|k: int|
                0 <= k < i ==> !(#[trigger] values@[k] is Some && folded_registry_value(
                    values@[k].unwrap()@,
                ) == folded_registry_value(target_dir@)),
        decreases values.len() - i,
    {
        match &values[i] {
            Some(v) => {
                if registry_value_matches_target(v.as_str(), target_dir) {
                    return true;
                }
            },
            None => {},
        }
        i = i + 1;
    }
    false
}

/// What becomes of one registry key.
#[derive(Debug, Clone, Copy, PartialEq, Eq, Structural)]
pub enum KeyRemoval {
    /// The key does not exist.
    NotFound,
    /// The key points to another installation and is kept.
    NotOwned,
    /// The key would be removed (dry run).
    WouldRemove,
    /// The key is removed.
    Remove,
}

impl KeyRemoval {
    /// The key counts as removed in the summary.
    pub open spec fn counts_as_removed(self) -> bool {
        self == KeyRemoval::WouldRemove || self == KeyRemoval::Remove
    }
}

/// The decision for one key (see `plan_key_removal`).
pub open spec fn spec_plan_key_removal(exists: bool, owned: bool, dry_run: bool) -> KeyRemoval {
    if !exists {
        KeyRemoval::NotFound
    } else if !owned {
        KeyRemoval::NotOwned
    } else if dry_run {
        KeyRemoval::WouldRemove
    } else {
        KeyRemoval::Remove
    }
}

/// The decision for one key: only existing keys that point to this
/// installation are removed, and a dry run removes nothing.
pub fn plan_key_removal(exists: bool, owned: bool, dry_run: bool) -> (d: KeyRemoval)
    ensures
        d == spec_plan_key_removal(exists, owned, dry_run),
{
    if !exists {
        KeyRemoval::NotFound
    } else if !owned {
        KeyRemoval::NotOwned
    } else if dry_run {
        KeyRemoval::WouldRemove
    } else {
        KeyRemoval::Remove
    }
}

/// What becomes of one compatibility file.
#[derive(Debug, Clone, Copy, PartialEq, Eq, Structural)]
pub enum FileRemoval {
    Missing,
    WouldRemove,
    Remove,
}

/// The decision for one file (see `plan_file_removal`).
pub open spec fn spec_plan_file_removal(exists: bool, dry_run: bool) -> FileRemoval {
    if !exists {
        FileRemoval::Missing
    } else if dry_run {
        FileRemoval::WouldRemove
    } else {
        FileRemoval::Remove
    }
}

/// The removal tool touches only what belongs to this installation: a
/// key is removed only when it exists and one of its values names this
/// directory, and a dry run removes neither keys nor files.
pub proof fn law_removal_only_of_owned_keys(exists: bool, owned: bool, dry_run: bool)
    ensures
        spec_plan_key_removal(exists, owned, dry_run) == KeyRemoval::Remove ==> exists && owned
            && !dry_run,
        dry_run ==> spec_plan_key_removal(exists, owned, dry_run) != KeyRemoval::Remove,
        dry_run ==> spec_plan_file_removal(exists, dry_run) != FileRemoval::Remove,
        !owned ==> !spec_plan_key_removal(exists, owned, dry_run).counts_as_removed(),
{
}

/// The decision for one file: missing files are skipped, and a dry run
/// removes nothing.
pub fn plan_file_removal(exists: bool, dry_run: bool) -> (d: FileRemoval)
    ensures
        d == spec_plan_file_removal(exists, dry_run),
{
    if !exists {
        FileRemoval::Missing
    } else if dry_run {
        FileRemoval::WouldRemove
    } else {
        FileRemoval::Remove
    }
}

/// The counts the removal tool reports at the end.
#[derive(Debug, Clone, Copy, PartialEq, Eq, Structural)]
pub struct UninstallSummary {
    pub registry_removed: usize,
    pub registry_skipped: usize,
    pub files_removed: usize,
    pub files_missing: usize,
    pub had_error: bool,
}

impl UninstallSummary {
    /// Nothing counted yet.
    pub fn new() -> (s: Self)
        ensures
            s == (UninstallSummary {
                registry_removed: 0,
                registry_skipped: 0,
                files_removed: 0,
                files_missing: 0,
                had_error: false,
            }),
    {
        UninstallSummary {
            registry_removed: 0,
            registry_skipped: 0,
            files_removed: 0,
            files_missing: 0,
            had_error: false,
        }
    }

    /// Counts the handling of one key: `Some(d)` when it was decided (and
    /// carried out), `None` when reading or removing it failed.
    pub fn record_key(&mut self, outcome: Option<KeyRemoval>)
        requires
            old(self).registry_removed < usize::MAX,
            old(self).registry_skipped < usize::MAX,
        ensures
            match outcome {
                Some(d) => if d.counts_as_removed() {
                    *final(self) == UninstallSummary {
                        registry_removed: (old(self).registry_removed + 1) as usize,
                        ..*old(self)
                    }
                } else {
                    *final(self) == UninstallSummary {
                        registry_skipped: (old(self).registry_skipped + 1) as usize,
                        ..*old(self)
                    }
                },
                None => *final(self) == UninstallSummary { had_error: true, ..*old(self) },
            },
    {
        match outcome {
            Some(KeyRemoval::WouldRemove) | Some(KeyRemoval::Remove) => {
                self.registry_removed = self.registry_removed + 1;
            },
            Some(_) => {
                self.registry_skipped = self.registry_skipped + 1;
            },
            None => {
                self.had_error = true;
            },
        }
    }

    /// Counts the handling of one file: `Some(d)` when it was decided (and
    /// carried out), `None` when removing it failed.
    pub fn record_file(&mut self, outcome: Option<FileRemoval>)
        requires
            old(self).files_removed < usize::MAX,
            old(self).files_missing < usize::MAX,
        ensures
            match outcome {
                Some(FileRemoval::Missing) => *final(self) == UninstallSummary {
                    files_missing: (old(self).files_missing + 1) as usize,
                    ..*old(self)
                },
                Some(_) => *final(self) == UninstallSummary {
                    files_removed: (old(self).files_removed + 1) as usize,
                    ..*old(self)
                },
                None => *final(self) == UninstallSummary { had_error: true, ..*old(self) },
            },
    {
        match outcome {
            Some(FileRemoval::Missing) => {
                self.files_missing = self.files_missing + 1;
            },
            Some(_) => {
                self.files_removed = self.files_removed + 1;
            },
            None => {
                self.had_error = true;
            },
        }
    }

    /// The summary line printed at the end.
    pub fn summary_line(&self) -> (line: String)
        ensures
            line@ == "[summary] registry removed: "@ + decimal(self.registry_removed as nat)
                + ", registry skipped: "@ + decimal(self.registry_skipped as nat)
                + ", files removed: "@ + decimal(self.files_removed as nat) + ", files missing: "@
                + decimal(self.files_missing as nat),
    {
        let a = decimal_string(self.registry_removed as u64);
        let b = decimal_string(self.registry_skipped as u64);
        let c = decimal_string(self.files_removed as u64);
        let d = decimal_string(self.files_missing as u64);
        String::from_str("[summary] registry removed: ").concat(a.as_str()).concat(
            ", registry skipped: ",
        ).concat(b.as_str()).concat(", files removed: ").concat(c.as_str()).concat(
            ", files missing: ",
        ).concat(d.as_str())
    }
}

} // verus!
