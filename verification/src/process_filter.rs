//! Process names: normalisation to a lower-case file name, the sorted
//! de-duplicated lists kept in settings, and the foreground-process send
//! filter.
use vstd::prelude::*;
use crate::config::{OutputSendFilterConfig, OutputSendFilterMode};
use crate::text::{
    after_last, after_last_chars, ascii_lower, chars_of, lower_chars, replace_char, replace_chars,
    string_from_chars, trim, trim_chars,
};

verus! {

/// The normalised form of a process name or path: trimmed, `/` read as
/// `\`, reduced to the trimmed part after the last `\`, ASCII lower-cased;
/// `None` when nothing is left.
pub open spec fn spec_normalize_process_name(name: Seq<char>) -> Option<Seq<char>> {
    let trimmed = trim(name);
    let file_name = trim(after_last(replace_char(trimmed, '/', '\\'), '\\'));
    if trimmed.len() == 0 || file_name.len() == 0 {
        None
    } else {
        Some(ascii_lower(file_name))
    }
}

/// Lexicographic order on character sequences (by code point), which is the
/// byte order of their UTF-8 encodings and so the order of `String`.
pub open spec fn seq_lt(a: Seq<char>, b: Seq<char>) -> bool
    decreases a.len(),
{
    if a.len() == 0 {
        b.len() > 0
    } else if b.len() == 0 {
        false
    } else if a[0] == b[0] {
        seq_lt(a.drop_first(), b.drop_first())
    } else {
        a[0] < b[0]
    }
}

/// Strictly increasing in `seq_lt` order (so sorted without repeats).
pub open spec fn strictly_sorted(s: Seq<Seq<char>>) -> bool {
    forall|i: int, j: int| 0 <= i < j < s.len() ==> seq_lt(#[trigger] s[i], #[trigger] s[j])
}

pub proof fn lemma_seq_lt_irreflexive(a: Seq<char>)
    ensures
        !seq_lt(a, a),
    decreases a.len(),
{
    if a.len() > 0 {
        lemma_seq_lt_irreflexive(a.drop_first());
    }
}

pub proof fn lemma_seq_lt_trichotomy(a: Seq<char>, b: Seq<char>)
    ensures
        a != b ==> seq_lt(a, b) || seq_lt(b, a),
        !(seq_lt(a, b) && seq_lt(b, a)),
    decreases a.len(),
{
    if a.len() > 0 && b.len() > 0 && a[0] == b[0] {
        lemma_seq_lt_trichotomy(a.drop_first(), b.drop_first());
        if a.drop_first() == b.drop_first() {
            assert(a =~= seq![a[0]] + a.drop_first());
            assert(b =~= seq![b[0]] + b.drop_first());
        }
    } else if a.len() == 0 && b.len() == 0 {
        assert(a =~= b);
    }
}

pub proof fn lemma_seq_lt_transitive(a: Seq<char>, b: Seq<char>, c: Seq<char>)
    requires
        seq_lt(a, b),
        seq_lt(b, c),
    ensures
        seq_lt(a, c),
    decreases a.len(),
{
    if a.len() > 0 && b.len() > 0 && c.len() > 0 {
        if a[0] == b[0] && b[0] == c[0] {
            lemma_seq_lt_transitive(a.drop_first(), b.drop_first(), c.drop_first());
        }
    }
}

/// Compares two character sequences in `seq_lt` order.
pub fn chars_lt(a: &Vec<char>, b: &Vec<char>) -> (r: bool)
    ensures
        r == seq_lt(a@, b@),
{
    let mut i: usize = 0;
    assert(a@.skip(0) =~= a@);
    assert(b@.skip(0) =~= b@);
    while i < a.len() && i < b.len() && a[i] == b[i]
        invariant
            i <= a@.len(),
            i <= b@.len(),
            seq_lt(a@, b@) == seq_lt(a@.skip(i as int), b@.skip(i as int)),
        decreases a.len() - i,
    {
        assert(a@.skip(i as int).drop_first() =~= a@.skip(i + 1));
        assert(b@.skip(i as int).drop_first() =~= b@.skip(i + 1));
        i = i + 1;
    }
    if i == a.len() {
        i < b.len()
    } else if i == b.len() {
        false
    } else {
        a[i] < b[i]
    }
}

fn chars_eq(a: &Vec<char>, b: &Vec<char>) -> (r: bool)
    ensures
        r == (a@ == b@),
{
    if a.len() != b.len() {
        return false;
    }
    let mut i: usize = 0;
    while i < a.len()
        invariant
            a@.len() == b@.len(),
            i <= a@.len(),
            forall|k: int| 0 <= k < i ==> a@[k] == b@[k],
        decreases a.len() - i,
    {
        if a[i] != b[i] {
            return false;
        }
        i = i + 1;
    }
    assert(a@ =~= b@);
    true
}

fn normalize_chars(name: &str) -> (r: Option<Vec<char>>)
    ensures
        match r {
            Some(v) => spec_normalize_process_name(name@) == Some(v@),
            None => spec_normalize_process_name(name@) is None,
        },
{
    let chars = chars_of(name);
    let trimmed = trim_chars(&chars);
    if trimmed.len() == 0 {
        return None;
    }
    let slashed = replace_chars(&trimmed, '/', '\\');
    let last = after_last_chars(&slashed, '\\');
    let file_name = trim_chars(&last);
    if file_name.len() == 0 {
        return None;
    }
    Some(lower_chars(&file_name))
}

/// Normalises a process name or path (see `spec_normalize_process_name`).
pub fn normalize_process_name(name: &str) -> (r: Option<String>)
    ensures
        match r {
            Some(s) => spec_normalize_process_name(name@) == Some(s@),
            None => spec_normalize_process_name(name@) is None,
        },
{
    match normalize_chars(name) {
        Some(v) => Some(string_from_chars(&v)),
        None => None,
    }
}

/// The character sequences held by a list of character vectors.
pub open spec fn char_vec_views(list: Seq<Vec<char>>) -> Seq<Seq<char>> {
    list.map_values(|v: Vec<char>| v@)
}

/// The character sequences held by a list of strings.
pub open spec fn string_views(list: Seq<String>) -> Seq<Seq<char>> {
    list.map_values(|s: String| s@)
}

/// `x` is the normalised form of one of `names`.
pub open spec fn is_normalized_member(names: Seq<String>, x: Seq<char>) -> bool {
    exists|i: int| 0 <= i < names.len() && spec_normalize_process_name(#[trigger] names[i]@) == Some(x)
}

/// Inserts `x` into a strictly sorted list unless it is already there.
fn insert_sorted(list: &mut Vec<Vec<char>>, x: Vec<char>)
    requires
        strictly_sorted(char_vec_views(old(list)@)),
    ensures
        strictly_sorted(char_vec_views(final(list)@)),
        forall|y: Seq<char>|
            #[trigger] char_vec_views(final(list)@).contains(y) <==> (char_vec_views(old(list)@).contains(y) || y == x@),
{
    let ghost before = char_vec_views(list@);
    let mut i: usize = 0;
    while i < list.len() && chars_lt(&list[i], &x)
        invariant
            i <= list@.len(),
            before == char_vec_views(list@),
            forall|k: int| 0 <= k < i ==> seq_lt(#[trigger] before[k], x@),
        decreases list.len() - i,
    {
        i = i + 1;
    }
    if i < list.len() && chars_eq(&list[i], &x) {
        assert(before[i as int] == x@);
        return;
    }
    proof {
        if i < list.len() {
            lemma_seq_lt_trichotomy(before[i as int], x@);
            assert(seq_lt(x@, before[i as int]));
        }
    }
    let ghost xs = x@;
    list.insert(i, x);
    proof {
        let after = char_vec_views(list@);
        assert(after =~= before.insert(i as int, xs));
        assert forall|a: int, b: int| 0 <= a < b < after.len() implies seq_lt(
            #[trigger] after[a],
            #[trigger] after[b],
        ) by {
            if b < i {
            } else if b == i {
                assert(after[a] == before[a]);
            } else if a == i {
                assert(after[b] == before[b - 1]);
                if b - 1 > i {
                    lemma_seq_lt_transitive(xs, before[i as int], before[b - 1]);
                }
            } else if a < i {
                assert(after[b] == before[b - 1]);
            } else {
                assert(after[a] == before[a - 1]);
                assert(after[b] == before[b - 1]);
            }
        }
        assert forall|y: Seq<char>| #[trigger] after.contains(y) <==> (before.contains(y) || y == xs) by {
            if after.contains(y) {
                let k = choose|k: int| 0 <= k < after.len() && after[k] == y;
                if k < i {
                    assert(before[k] == y);
                } else if k > i {
                    assert(before[k - 1] == y);
                }
            }
            if before.contains(y) {
                let k = choose|k: int| 0 <= k < before.len() && before[k] == y;
                if k < i {
                    assert(after[k] == y);
                } else {
                    assert(after[k + 1] == y);
                }
            }
            if y == xs {
                assert(after[i as int] == y);
            }
        }
    }
}

/// The normalised forms of `process_names`, sorted and without repeats.
pub fn sanitize_process_names(process_names: Vec<String>) -> (out: Vec<String>)
    ensures
        strictly_sorted(string_views(out@)),
        forall|x: Seq<char>|
            #[trigger] string_views(out@).contains(x) <==> is_normalized_member(
                process_names@,
                x,
            ),
{
    let mut list: Vec<Vec<char>> = Vec::new();
    let mut i: usize = 0;
    while i < process_names.len()
        invariant
            i <= process_names@.len(),
            strictly_sorted(char_vec_views(list@)),
            forall|x: Seq<char>|
                #[trigger] char_vec_views(list@).contains(x) <==> exists|k: int|
                    0 <= k < i && spec_normalize_process_name(#[trigger] process_names@[k]@)
                        == Some(x),
        decreases process_names.len() - i,
    {
        let ghost before = char_vec_views(list@);
        match normalize_chars(process_names[i].as_str()) {
            Some(v) => {
                insert_sorted(&mut list, v);
            },
            None => {},
        }
        proof {
            let after = char_vec_views(list@);
            assert forall|x: Seq<char>| #[trigger] after.contains(x) <==> exists|k: int|
                0 <= k < i + 1 && spec_normalize_process_name(#[trigger] process_names@[k]@)
                    == Some(x) by {
                if after.contains(x) && !before.contains(x) {
                    assert(spec_normalize_process_name(process_names@[i as int]@) == Some(x));
                }
                if exists|k: int|
                    0 <= k < i + 1 && spec_normalize_process_name(#[trigger] process_names@[k]@)
                        == Some(x) {
                    let k = choose|k: int|
                        0 <= k < i + 1 && spec_normalize_process_name(
                            #[trigger] process_names@[k]@,
                        ) == Some(x);
                    if k < i {
                        assert(before.contains(x));
                    }
                }
            }
        }
        i = i + 1;
    }
    let mut out: Vec<String> = Vec::new();
    let mut k: usize = 0;
    while k < list.len()
        invariant
            k <= list@.len(),
            out@.len() == k,
            forall|j: int| 0 <= j < k ==> #[trigger] out@[j]@ == list@[j]@,
        decreases list.len() - k,
    {
        out.push(string_from_chars(&list[k]));
        k = k + 1;
    }
    proof {
        let a = string_views(out@);
        let b = char_vec_views(list@);
        assert(a =~= b);
        assert forall|x: Seq<char>| #[trigger] a.contains(x) <==> is_normalized_member(
            process_names@,
            x,
        ) by {
            if is_normalized_member(process_names@, x) {
                let j = choose|j: int|
                    0 <= j < process_names@.len() && spec_normalize_process_name(
                        #[trigger] process_names@[j]@,
                    ) == Some(x);
                assert(exists|k: int|
                    0 <= k < process_names@.len() && spec_normalize_process_name(
                        #[trigger] process_names@[k]@,
                    ) == Some(x));
            }
        }
    }
    out
}

/// Whether the send filter lets output through while `active_process_name`
/// is in the foreground: always in unrestricted mode; in foreground mode only
/// when the active name and some configured name normalise to the same value.
pub open spec fn spec_process_name_matches_filter(
    filter: OutputSendFilterConfig,
    active_process_name: Option<Seq<char>>,
) -> bool {
    match filter.mode {
        OutputSendFilterMode::Unrestricted => true,
        OutputSendFilterMode::ForegroundProcess => match active_process_name {
            None => false,
            Some(name) => match spec_normalize_process_name(name) {
                None => false,
                Some(active) => is_normalized_member(filter.process_names@, active),
            },
        },
    }
}

pub fn process_name_matches_filter(
    filter: &OutputSendFilterConfig,
    active_process_name: Option<&str>,
) -> (r: bool)
    ensures
        r == spec_process_name_matches_filter(
            *filter,
            match active_process_name {
                Some(s) => Some(s@),
                None => None,
            },
        ),
{
    match filter.mode {
        OutputSendFilterMode::Unrestricted => true,
        OutputSendFilterMode::ForegroundProcess => {
            if active_process_name.is_none() {
                return false;
            }
            let name = active_process_name.unwrap();
            let active = match normalize_chars(name) {
                Some(a) => a,
                None => return false,
            };
            let mut i: usize = 0;
            while i < filter.process_names.len()
                invariant
                    i <= filter.process_names@.len(),
                    spec_normalize_process_name(name@) == Some(active@),
                    filter.mode == OutputSendFilterMode::ForegroundProcess,
                    active_process_name == Some(name),
                    forall|k: int|
                        0 <= k < i ==> spec_normalize_process_name(
                            #[trigger] filter.process_names@[k]@,
                        ) != Some(active@),
                decreases filter.process_names.len() - i,
            {
                match normalize_chars(filter.process_names[i].as_str()) {
                    Some(candidate) => {
                        if chars_eq(&candidate, &active) {
                            assert(spec_normalize_process_name(filter.process_names@[i as int]@)
                                == Some(active@));
                            assert(is_normalized_member(filter.process_names@, active@));
                            return true;
                        }
                    },
                    None => {},
                }
                i = i + 1;
            }
            false
        },
    }
}

/// Whether output may be sent now, and the foreground process it was decided on.
#[derive(Debug, Clone)]
pub struct SendFilterStatus {
    pub allowed: bool,
    pub active_process_name: Option<String>,
}

/// The send filter status. In unrestricted mode output is allowed and no
/// process is named; in foreground mode `foreground_path` (the image path of
/// the foreground process, when one was found) is normalised and matched
/// against the filter.
pub fn send_filter_status(filter: &OutputSendFilterConfig, foreground_path: Option<&str>) -> (r:
    SendFilterStatus)
    ensures
        filter.mode == OutputSendFilterMode::Unrestricted ==> r.allowed && r.active_process_name is None,
        filter.mode == OutputSendFilterMode::ForegroundProcess ==> {
            let active = match foreground_path {
                Some(p) => spec_normalize_process_name(p@),
                None => None,
            };
            &&& r.allowed == spec_process_name_matches_filter(*filter, active)
            &&& match r.active_process_name {
                Some(n) => active == Some(n@),
                None => active is None,
            }
        },
{
    match filter.mode {
        OutputSendFilterMode::Unrestricted => SendFilterStatus { allowed: true, active_process_name: None },
        OutputSendFilterMode::ForegroundProcess => {
            let active = match foreground_path {
                Some(p) => normalize_process_name(p),
                None => None,
            };
            let allowed = match &active {
                Some(a) => process_name_matches_filter(filter, Some(a.as_str())),
                None => false,
            };
            SendFilterStatus { allowed, active_process_name: active }
        },
    }
}

proof fn lemma_lower_char_facts(c: char)
    ensures
        crate::text::is_space(crate::text::lower_char(c)) == crate::text::is_space(c),
        crate::text::lower_char(crate::text::lower_char(c)) == crate::text::lower_char(c),
        (crate::text::lower_char(c) == '/') == (c == '/'),
        (crate::text::lower_char(c) == '\\') == (c == '\\'),
{
    if 'A' <= c && c <= 'Z' {
        assert(((c as u32) + 32) as char as u32 == (c as u32) + 32);
    }
}

proof fn lemma_trim_start_lower(s: Seq<char>)
    ensures
        crate::text::trim_start(ascii_lower(s)) == ascii_lower(crate::text::trim_start(s)),
    decreases s.len(),
{
    if s.len() > 0 {
        lemma_lower_char_facts(s[0]);
        assert(ascii_lower(s)[0] == crate::text::lower_char(s[0]));
        assert(ascii_lower(s).drop_first() =~= ascii_lower(s.drop_first()));
        lemma_trim_start_lower(s.drop_first());
    }
}

proof fn lemma_trim_end_lower(s: Seq<char>)
    ensures
        crate::text::trim_end(ascii_lower(s)) == ascii_lower(crate::text::trim_end(s)),
    decreases s.len(),
{
    if s.len() > 0 {
        lemma_lower_char_facts(s.last());
        assert(ascii_lower(s).last() == crate::text::lower_char(s.last()));
        assert(ascii_lower(s).drop_last() =~= ascii_lower(s.drop_last()));
        lemma_trim_end_lower(s.drop_last());
    }
}

proof fn lemma_lower_twice(s: Seq<char>)
    ensures
        ascii_lower(ascii_lower(s)) == ascii_lower(s),
{
    assert forall|i: int| 0 <= i < s.len() implies #[trigger] ascii_lower(ascii_lower(s))[i]
        == ascii_lower(s)[i] by {
        lemma_lower_char_facts(s[i]);
    }
    assert(ascii_lower(ascii_lower(s)) =~= ascii_lower(s));
}

proof fn lemma_lower_keeps_out(s: Seq<char>, c: char)
    requires
        c == '/' || c == '\\',
        !s.contains(c),
    ensures
        !ascii_lower(s).contains(c),
{
    if ascii_lower(s).contains(c) {
        let k = choose|k: int| 0 <= k < ascii_lower(s).len() && ascii_lower(s)[k] == c;
        lemma_lower_char_facts(s[k]);
        assert(s[k] == c);
    }
}

proof fn lemma_drop_keeps_out(s: Seq<char>, c: char)
    requires
        s.len() > 0,
        !s.contains(c),
    ensures
        !s.drop_first().contains(c),
        !s.drop_last().contains(c),
{
    if s.drop_first().contains(c) {
        let k = choose|k: int| 0 <= k < s.drop_first().len() && s.drop_first()[k] == c;
        assert(s[k + 1] == c);
    }
    if s.drop_last().contains(c) {
        let k = choose|k: int| 0 <= k < s.drop_last().len() && s.drop_last()[k] == c;
        assert(s[k] == c);
    }
}

proof fn lemma_trim_start_keeps_out(s: Seq<char>, c: char)
    requires
        !s.contains(c),
    ensures
        !crate::text::trim_start(s).contains(c),
    decreases s.len(),
{
    if s.len() > 0 {
        lemma_drop_keeps_out(s, c);
        lemma_trim_start_keeps_out(s.drop_first(), c);
    }
}

proof fn lemma_trim_end_keeps_out(s: Seq<char>, c: char)
    requires
        !s.contains(c),
    ensures
        !crate::text::trim_end(s).contains(c),
    decreases s.len(),
{
    if s.len() > 0 {
        lemma_drop_keeps_out(s, c);
        lemma_trim_end_keeps_out(s.drop_last(), c);
    }
}

proof fn lemma_trim_keeps_out(s: Seq<char>, c: char)
    requires
        !s.contains(c),
    ensures
        !trim(s).contains(c),
{
    lemma_trim_start_keeps_out(s, c);
    lemma_trim_end_keeps_out(crate::text::trim_start(s), c);
}

proof fn lemma_after_last_facts(s: Seq<char>, sep: char, c: char)
    ensures
        !after_last(s, sep).contains(sep),
        !s.contains(c) ==> !after_last(s, sep).contains(c),
        !s.contains(sep) ==> after_last(s, sep) == s,
    decreases s.len(),
{
    if s.len() > 0 {
        lemma_after_last_facts(s.drop_last(), sep, c);
        assert(!s.contains(c) ==> !s.drop_last().contains(c)) by {
            if !s.contains(c) && s.drop_last().contains(c) {
                let k = choose|k: int| 0 <= k < s.drop_last().len() && s.drop_last()[k] == c;
                assert(s[k] == c);
            }
        }
        assert(!s.contains(sep) ==> !s.drop_last().contains(sep)) by {
            if !s.contains(sep) && s.drop_last().contains(sep) {
                let k = choose|k: int| 0 <= k < s.drop_last().len() && s.drop_last()[k] == sep;
                assert(s[k] == sep);
            }
        }
        if s.last() != sep {
            let prev = after_last(s.drop_last(), sep);
            if prev.push(s.last()).contains(sep) {
                let k = choose|k: int| 0 <= k < prev.push(s.last()).len() && prev.push(s.last())[k] == sep;
                if k < prev.len() {
                    assert(prev[k] == sep);
                }
            }
            if !s.contains(c) && prev.push(s.last()).contains(c) {
                let k = choose|k: int| 0 <= k < prev.push(s.last()).len() && prev.push(s.last())[k] == c;
                if k < prev.len() {
                    assert(prev[k] == c);
                } else {
                    assert(s[s.len() - 1] == c);
                }
            }
            if !s.contains(sep) {
                assert(s.drop_last().push(s.last()) =~= s);
            }
        } else {
            assert(s[s.len() - 1] == sep);
        }
    }
}

proof fn lemma_replace_facts(s: Seq<char>)
    ensures
        !replace_char(s, '/', '\\').contains('/'),
        !s.contains('/') ==> replace_char(s, '/', '\\') == s,
{
    if replace_char(s, '/', '\\').contains('/') {
        let k = choose|k: int| 0 <= k < replace_char(s, '/', '\\').len() && replace_char(s, '/', '\\')[k] == '/';
    }
    if !s.contains('/') {
        assert forall|i: int| 0 <= i < s.len() implies #[trigger] replace_char(s, '/', '\\')[i] == s[i] by {
            if s[i] == '/' {
                assert(s.contains('/'));
            }
        }
        assert(replace_char(s, '/', '\\') =~= s);
    }
}

/// Normalising a normalised name gives it back: names kept in settings
/// and names read from the system compare in one canonical form.
pub proof fn law_normalize_is_idempotent(name: Seq<char>)
    requires
        spec_normalize_process_name(name) is Some,
    ensures
        spec_normalize_process_name(spec_normalize_process_name(name).unwrap()) == spec_normalize_process_name(
            name,
        ),
{
    let replaced = replace_char(trim(name), '/', '\\');
    let tail = after_last(replaced, '\\');
    let f = trim(tail);
    let x = ascii_lower(f);
    lemma_replace_facts(trim(name));
    lemma_after_last_facts(replaced, '\\', '/');
    lemma_trim_keeps_out(tail, '\\');
    lemma_trim_keeps_out(tail, '/');
    lemma_lower_keeps_out(f, '\\');
    lemma_lower_keeps_out(f, '/');
    lemma_trim_start_lower(f);
    lemma_trim_end_lower(crate::text::trim_start(f));
    crate::passthrough::lemma_trim_trim(tail);
    assert(trim(x) == ascii_lower(trim(f)));
    assert(trim(x) == x);
    lemma_replace_facts(x);
    lemma_after_last_facts(x, '\\', '/');
    lemma_lower_twice(f);
}

/// In foreground mode with no configured process, output is never let
/// through; in unrestricted mode it always is.
pub proof fn law_send_filter_extremes(filter: OutputSendFilterConfig, active: Option<Seq<char>>)
    ensures
        filter.mode == OutputSendFilterMode::Unrestricted ==> spec_process_name_matches_filter(
            filter,
            active,
        ),
        filter.mode == OutputSendFilterMode::ForegroundProcess && filter.process_names@.len() == 0
            ==> !spec_process_name_matches_filter(filter, active),
{
    if filter.mode == OutputSendFilterMode::ForegroundProcess && filter.process_names@.len() == 0 {
        if let Some(name) = active {
            if let Some(a) = spec_normalize_process_name(name) {
                assert(!is_normalized_member(filter.process_names@, a));
            }
        }
    }
}

} // verus!
