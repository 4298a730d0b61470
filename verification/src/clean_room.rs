//! The clean-room scan of the release tooling: which files are scanned and
//! which of their lines match a deny rule. Patterns are matched without
//! regard to case by the `regex` crate; what that match answers is named
//! below and the scan around it is verified against that name.
use vstd::prelude::*;
use crate::text::{
    ascii_lower, chars_of, decimal, decimal_string, lines_of, lower_chars, string_from_chars,
    text_lines, trim, trim_chars,
};

verus! {

/// What a case-insensitive `regex::Regex` built by `RegexBuilder` answers
/// through `is_match` for the pattern and haystack.
pub uninterp spec fn regex_is_match_ignore_case(pattern: Seq<char>, haystack: Seq<char>) -> bool;

/// Whether `RegexBuilder` with case-insensitive matching accepts the
/// pattern.
pub uninterp spec fn regex_compiles_ignore_case(pattern: Seq<char>) -> bool;

/// `RegexBuilder::new(pattern).case_insensitive(true).build()`: whether
/// the pattern compiles.
#[verifier::external_body]
fn compiles_ignoring_case(pattern: &str) -> (b: bool)
    ensures
        b == regex_compiles_ignore_case(pattern@),
{
    regex::RegexBuilder::new(pattern).case_insensitive(true).build().is_ok()
}

/// `RegexBuilder::new(pattern).case_insensitive(true).build()` and
/// `Regex::is_match`: `None` when the pattern does not compile.
#[verifier::external_body]
fn match_ignoring_case(pattern: &str, haystack: &str) -> (r: Option<bool>)
    ensures
        r is Some <==> regex_compiles_ignore_case(pattern@),
        r matches Some(b) ==> b == regex_is_match_ignore_case(pattern@, haystack@),
{
    match regex::RegexBuilder::new(pattern).case_insensitive(true).build() {
        Ok(re) => Some(re.is_match(haystack)),
        Err(_) => None,
    }
}

/// A deny rule: a pattern and the reason reported for a line matching it.
#[derive(Debug, Clone)]
pub struct DenyRule {
    pub pattern: String,
    pub reason: String,
}

/// The rules, as character sequences.
pub open spec fn rule_views(rules: Seq<DenyRule>) -> Seq<(Seq<char>, Seq<char>)> {
    rules.map_values(|r: DenyRule| (r.pattern@, r.reason@))
}

fn rule(pattern: &str, reason: &str) -> (r: DenyRule)
    ensures
        r.pattern@ == pattern@,
        r.reason@ == reason@,
{
    DenyRule { pattern: String::from_str(pattern), reason: String::from_str(reason) }
}

/// The deny list: references to the proprietary SDK and its header, and
/// mentions of leaked, decompiled or private internal material.
pub fn deny_list() -> (rules: Vec<DenyRule>)
    ensures
        rule_views(rules@) == seq![
            ("TrackIR SDK"@, "proprietary SDK reference"@),
            ("NaturalPoint SDK"@, "proprietary SDK reference"@),
            ("#include\\s*[<\"]NPClient\\.h[>\"]"@, "SDK header reference"@),
            ("leaked\\s+code|leak(ed)?\\s+source"@, "leak-derived source reference"@),
            ("decompil(e|ed)|disassembl(y|ed)"@, "reverse-engineering source reference"@),
            (
                "private\\s+internal\\s+structure|proprietary\\s+internal"@,
                "private internal reference"@,
            ),
        ],
{
    let mut rules: Vec<DenyRule> = Vec::new();
    rules.push(rule("TrackIR SDK", "proprietary SDK reference"));
    rules.push(rule("NaturalPoint SDK", "proprietary SDK reference"));
    rules.push(rule("#include\\s*[<\"]NPClient\\.h[>\"]", "SDK header reference"));
    rules.push(rule("leaked\\s+code|leak(ed)?\\s+source", "leak-derived source reference"));
    rules.push(rule("decompil(e|ed)|disassembl(y|ed)", "reverse-engineering source reference"));
    rules.push(
        rule(
            "private\\s+internal\\s+structure|proprietary\\s+internal",
            "private internal reference",
        ),
    );
    assert(rule_views(rules@) =~= seq![
        ("TrackIR SDK"@, "proprietary SDK reference"@),
        ("NaturalPoint SDK"@, "proprietary SDK reference"@),
        ("#include\\s*[<\"]NPClient\\.h[>\"]"@, "SDK header reference"@),
        ("leaked\\s+code|leak(ed)?\\s+source"@, "leak-derived source reference"@),
        ("decompil(e|ed)|disassembl(y|ed)"@, "reverse-engineering source reference"@),
        (
            "private\\s+internal\\s+structure|proprietary\\s+internal"@,
            "private internal reference"@,
        ),
    ]);
    rules
}

/// The directories of the repository that are scanned, relative to its
/// root.
pub fn scan_roots() -> (roots: Vec<String>)
    ensures
        crate::passthrough::views_of(roots@) == seq!["crates"@, "apps"@, "config"@],
{
    let mut roots: Vec<String> = Vec::new();
    roots.push(String::from_str("crates"));
    roots.push(String::from_str("apps"));
    roots.push(String::from_str("config"));
    assert(crate::passthrough::views_of(roots@) =~= seq!["crates"@, "apps"@, "config"@]);
    roots
}

/// The file extensions that are scanned, in lower case.
pub open spec fn scanned_extensions() -> Seq<Seq<char>> {
    seq!["rs"@, "toml"@, "ts"@, "js"@, "svelte"@, "c"@, "cpp"@, "h"@, "hpp"@]
}

/// Whether a file with this extension is scanned; the extension's case does
/// not matter.
pub fn is_scanned_extension(ext: &str) -> (b: bool)
    ensures
        b == scanned_extensions().contains(ascii_lower(ext@)),
{
    let lowered = lower_chars(&chars_of(ext));
    let names = ["rs", "toml", "ts", "js", "svelte", "c", "cpp", "h", "hpp"];
    let ghost exts = scanned_extensions();
    let mut i: usize = 0;
    while i < 9
        invariant
            i <= 9,
            lowered@ == ascii_lower(ext@),
            exts == scanned_extensions(),
            forall|k: int| 0 <= k < 9 ==> #[trigger] names@[k]@ == exts[k],
            forall|k: int| 0 <= k < i ==> exts[k] != lowered@,
        decreases 9 - i,
    {
        if crate::text::chars_equal(&lowered, &chars_of(names[i])) {
            assert(exts[i as int] == lowered@);
            return true;
        }
        i = i + 1;
    }
    assert(!exts.contains(lowered@)) by {
        if exts.contains(lowered@) {
            let k = choose|k: int| 0 <= k < exts.len() && exts[k] == lowered@;
            assert(exts.len() == 9);
        }
    }
    false
}

/// A line that matched a rule: its number (from 1), the rule's reason and
/// the trimmed line.
#[derive(Debug, Clone)]
pub struct Hit {
    pub line: usize,
    pub reason: String,
    pub text: String,
}

/// A hit, with the strings as character sequences.
pub open spec fn hit_view(h: Hit) -> (nat, Seq<char>, Seq<char>) {
    (h.line as nat, h.reason@, h.text@)
}

/// The hits of one line, one per matching rule, in rule order.
pub open spec fn line_hits(line: Seq<char>, line_no: nat, rules: Seq<(Seq<char>, Seq<char>)>) -> Seq<
    (nat, Seq<char>, Seq<char>),
>
    decreases rules.len(),
{
    if rules.len() == 0 {
        Seq::empty()
    } else {
        line_hits(line, line_no, rules.drop_last()) + if regex_is_match_ignore_case(
            rules.last().0,
            line,
        ) {
            seq![(line_no, rules.last().1, trim(line))]
        } else {
            Seq::empty()
        }
    }
}

/// The hits of a sequence of lines, line by line.
pub open spec fn lines_hits(lines: Seq<Seq<char>>, rules: Seq<(Seq<char>, Seq<char>)>) -> Seq<
    (nat, Seq<char>, Seq<char>),
>
    decreases lines.len(),
{
    if lines.len() == 0 {
        Seq::empty()
    } else {
        lines_hits(lines.drop_last(), rules) + line_hits(lines.last(), lines.len(), rules)
    }
}

/// Whether every rule's pattern compiles.
pub open spec fn rules_compile(rules: Seq<(Seq<char>, Seq<char>)>) -> bool {
    forall|i: int| 0 <= i < rules.len() ==> #[trigger] regex_compiles_ignore_case(rules[i].0)
}

/// The lines of a file's content that match a deny rule; an error names
/// the first rule whose pattern does not compile.
pub fn scan_content(content: &str, rules: &Vec<DenyRule>) -> (r: Result<Vec<Hit>, String>)
    ensures
        rules_compile(rule_views(rules@)) ==> (r matches Ok(hits) && hits@.map_values(
            |h: Hit| hit_view(h),
        ) == lines_hits(text_lines(content@), rule_views(rules@))),
        !rules_compile(rule_views(rules@)) ==> r is Err,
{
    let mut k: usize = 0;
    while k < rules.len()
        invariant
            k <= rules@.len(),
            forall|j: int| 0 <= j < k ==> #[trigger] regex_compiles_ignore_case(rule_views(rules@)[j].0),
        decreases rules.len() - k,
    {
        if !compiles_ignoring_case(rules[k].pattern.as_str()) {
            assert(rule_views(rules@)[k as int].0 == rules@[k as int].pattern@);
            return Err(String::from_str("invalid deny-list pattern: ").concat(rules[k].pattern.as_str()));
        }
        k = k + 1;
    }
    assert(rules_compile(rule_views(rules@)));
    let lines = lines_of(content);
    let ghost all = text_lines(content@);
    let ghost rv = rule_views(rules@);
    let mut hits: Vec<Hit> = Vec::new();
    let mut li: usize = 0;
    assert(all.take(0) =~= Seq::<Seq<char>>::empty());
    while li < lines.len()
        invariant
            lines@.len() == all.len(),
            all == text_lines(content@),
            rv == rule_views(rules@),
            rules_compile(rv),
            forall|k: int| 0 <= k < lines@.len() ==> #[trigger] lines@[k]@ == all[k],
            li <= lines@.len(),
            hits@.map_values(|h: Hit| hit_view(h)) == lines_hits(all.take(li as int), rv),
        decreases lines.len() - li,
    {
        let line_no: usize = li + 1;
        let line_text = string_from_chars(&lines[li]);
        let trimmed = string_from_chars(&trim_chars(&lines[li]));
        let ghost before = hits@.map_values(|h: Hit| hit_view(h));
        let mut ri: usize = 0;
        assert(rv.take(0) =~= Seq::<(Seq<char>, Seq<char>)>::empty());
        while ri < rules.len()
            invariant
                rv == rule_views(rules@),
                rules_compile(rv),
                li < lines@.len(),
                lines@.len() == all.len(),
                line_no == li + 1,
                line_text@ == all[li as int],
                trimmed@ == trim(all[li as int]),
                ri <= rules@.len(),
                hits@.map_values(|h: Hit| hit_view(h)) == before + line_hits(
                    all[li as int],
                    (li + 1) as nat,
                    rv.take(ri as int),
                ),
            decreases rules.len() - ri,
        {
            assert(rv.take(ri + 1).drop_last() =~= rv.take(ri as int));
            assert(rv.take(ri + 1).last() == (rules@[ri as int].pattern@, rules@[ri as int].reason@));
            assert(regex_compiles_ignore_case(rv[ri as int].0));
            let matched = match match_ignoring_case(rules[ri].pattern.as_str(), line_text.as_str()) {
                Some(b) => b,
                None => false,
            };
            let ghost prev = hits@;
            if matched {
                hits.push(
                    Hit { line: line_no, reason: rules[ri].reason.clone(), text: trimmed.clone() },
                );
                assert(hits@.map_values(|h: Hit| hit_view(h)) =~= prev.map_values(
                    |h: Hit| hit_view(h),
                ).push(((li + 1) as nat, rules@[ri as int].reason@, trim(all[li as int]))));
            }
            ri = ri + 1;
            assert(hits@.map_values(|h: Hit| hit_view(h)) =~= before + line_hits(
                all[li as int],
                (li + 1) as nat,
                rv.take(ri as int),
            ));
        }
        assert(rv.take(rules@.len() as int) =~= rv);
        assert(all.take(li + 1).drop_last() =~= all.take(li as int));
        assert(all.take(li + 1).last() == all[li as int]);
        li = li + 1;
        assert(hits@.map_values(|h: Hit| hit_view(h)) =~= lines_hits(all.take(li as int), rv));
    }
    assert(all.take(all.len() as int) =~= all);
    Ok(hits)
}

/// The report line of a hit in `file`.
pub fn hit_report_line(file: &str, hit: &Hit) -> (line: String)
    ensures
        line@ == "- "@ + file@ + ":"@ + decimal(hit.line as nat) + " ["@ + hit.reason@ + "] "@
            + hit.text@,
{
    let n = decimal_string(hit.line as u64);
    String::from_str("- ").concat(file).concat(":").concat(n.as_str()).concat(" [").concat(
        hit.reason.as_str(),
    ).concat("] ").concat(hit.text.as_str())
}

} // verus!
