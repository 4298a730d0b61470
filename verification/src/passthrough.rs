//! Passthrough targets (`host:port`, or `[host]:port` for hosts holding a
//! colon): parsing, formatting, self-loop detection, and the cleaning of
//! the target list kept in settings.
use vstd::prelude::*;
use crate::text::{
    ascii_lower, chars_equal, chars_of, concat_chars, contains_char, decimal, decimal_chars,
    lower_chars, parse_u16, parse_u16_chars, string_from_chars, sub_chars, trim, trim_chars,
};

verus! {

/// The index of the first `c` in `s` (`s.len()` when there is none).
pub open spec fn first_index_of(s: Seq<char>, c: char) -> int
    decreases s.len(),
{
    if s.len() == 0 {
        0
    } else if s[0] == c {
        0
    } else {
        1 + first_index_of(s.drop_first(), c)
    }
}

/// The index of the last `c` in `s` (-1 when there is none).
pub open spec fn last_index_of(s: Seq<char>, c: char) -> int
    decreases s.len(),
{
    if s.len() == 0 {
        -1
    } else if s.last() == c {
        s.len() - 1
    } else {
        last_index_of(s.drop_last(), c)
    }
}

/// A port text accepted as a port: a `u16` other than zero.
pub open spec fn valid_port(port_text: Seq<char>) -> Option<u16> {
    match parse_u16(port_text) {
        Some(p) => if p != 0 {
            Some(p)
        } else {
            None
        },
        None => None,
    }
}

/// The `[host]:port` form: the host is what stands between `[` and the first
/// `]`, then `:` must follow, then a port text without another colon.
pub open spec fn spec_parse_bracketed(text: Seq<char>) -> Option<(Seq<char>, u16)> {
    let rest = text.drop_first();
    let end = first_index_of(rest, ']');
    if end >= rest.len() {
        None
    } else {
        let host = ascii_lower(trim(rest.take(end)));
        let after = rest.skip(end + 1);
        if host.len() == 0 || after.len() == 0 || after[0] != ':' {
            None
        } else {
            let port_text = trim(after.drop_first());
            if port_text.len() == 0 || port_text.contains(':') {
                None
            } else {
                match valid_port(port_text) {
                    Some(p) => Some((host, p)),
                    None => None,
                }
            }
        }
    }
}

/// The `host:port` form: split at the last colon; the host must be
/// non-empty and hold no colon.
pub open spec fn spec_parse_plain(text: Seq<char>) -> Option<(Seq<char>, u16)> {
    let k = last_index_of(text, ':');
    if k < 0 {
        None
    } else {
        let host = ascii_lower(trim(text.take(k)));
        let port_text = trim(text.skip(k + 1));
        if host.len() == 0 || host.contains(':') {
            None
        } else {
            match valid_port(port_text) {
                Some(p) => Some((host, p)),
                None => None,
            }
        }
    }
}

/// A target parsed into its lower-cased host and a port from 1 to 65535.
pub open spec fn spec_parse_target(raw: Seq<char>) -> Option<(Seq<char>, u16)> {
    let text = trim(raw);
    if text.len() == 0 {
        None
    } else if text[0] == '[' {
        spec_parse_bracketed(text)
    } else {
        spec_parse_plain(text)
    }
}

/// The text sent to for a host and port: `[host]:port` when the host holds a
/// colon, `host:port` otherwise.
pub open spec fn spec_format_target(host: Seq<char>, port: u16) -> Seq<char> {
    if host.contains(':') {
        seq!['['] + host + seq![']', ':'] + decimal(port as nat)
    } else {
        host + seq![':'] + decimal(port as nat)
    }
}

proof fn lemma_first_index_of_bounds(s: Seq<char>, c: char)
    ensures
        0 <= first_index_of(s, c) <= s.len(),
        first_index_of(s, c) < s.len() ==> s[first_index_of(s, c)] == c,
        forall|j: int| 0 <= j < first_index_of(s, c) ==> s[j] != c,
    decreases s.len(),
{
    if s.len() > 0 && s[0] != c {
        lemma_first_index_of_bounds(s.drop_first(), c);
        assert forall|j: int| 0 <= j < first_index_of(s, c) implies s[j] != c by {
            if j > 0 {
                assert(s[j] == s.drop_first()[j - 1]);
            }
        }
    }
}

fn find_first(v: &Vec<char>, c: char) -> (i: usize)
    ensures
        i == first_index_of(v@, c),
{
    let mut i: usize = 0;
    assert(v@.skip(0) =~= v@);
    while i < v.len() && v[i] != c
        invariant
            i <= v@.len(),
            first_index_of(v@, c) == i + first_index_of(v@.skip(i as int), c),
        decreases v.len() - i,
    {
        assert(v@.skip(i as int).drop_first() =~= v@.skip(i + 1));
        i = i + 1;
    }
    i
}

fn find_last(v: &Vec<char>, c: char) -> (k: Option<usize>)
    ensures
        match k {
            Some(k) => k == last_index_of(v@, c),
            None => last_index_of(v@, c) == -1,
        },
{
    let mut j: usize = v.len();
    assert(v@.take(j as int) =~= v@);
    while j > 0 && v[j - 1] != c
        invariant
            j <= v@.len(),
            last_index_of(v@, c) == last_index_of(v@.take(j as int), c),
        decreases j,
    {
        assert(v@.take(j as int).drop_last() =~= v@.take(j - 1));
        j = j - 1;
    }
    if j == 0 {
        None
    } else {
        Some(j - 1)
    }
}

fn valid_port_chars(port_text: &Vec<char>) -> (r: Option<u16>)
    ensures
        r == valid_port(port_text@),
{
    match parse_u16_chars(port_text) {
        Some(p) => if p != 0 {
            Some(p)
        } else {
            None
        },
        None => None,
    }
}

fn parse_target_chars(raw: &str) -> (r: Option<(Vec<char>, u16)>)
    ensures
        match r {
            Some((h, p)) => spec_parse_target(raw@) == Some((h@, p)),
            None => spec_parse_target(raw@) is None,
        },
{
    let chars = chars_of(raw);
    let text = trim_chars(&chars);
    if text.len() == 0 {
        return None;
    }
    if text[0] == '[' {
        let rest = sub_chars(&text, 1, text.len());
        assert(rest@ =~= text@.drop_first());
        let end = find_first(&rest, ']');
        proof {
            lemma_first_index_of_bounds(rest@, ']');
        }
        if end >= rest.len() {
            return None;
        }
        let inner = sub_chars(&rest, 0, end);
        let inner_trimmed = trim_chars(&inner);
        let host = lower_chars(&inner_trimmed);
        assert(inner@ =~= rest@.take(end as int));
        let after = sub_chars(&rest, end + 1, rest.len());
        assert(after@ =~= rest@.skip(end + 1));
        if host.len() == 0 || after.len() == 0 || after[0] != ':' {
            return None;
        }
        let port_raw = sub_chars(&after, 1, after.len());
        assert(port_raw@ =~= after@.drop_first());
        let port_text = trim_chars(&port_raw);
        if port_text.len() == 0 || contains_char(&port_text, ':') {
            return None;
        }
        match valid_port_chars(&port_text) {
            Some(p) => Some((host, p)),
            None => None,
        }
    } else {
        let k = match find_last(&text, ':') {
            Some(k) => k,
            None => return None,
        };
        proof {
            lemma_last_index_of_bounds(text@, ':');
        }
        let host_raw = sub_chars(&text, 0, k);
        assert(host_raw@ =~= text@.take(k as int));
        let host_trimmed = trim_chars(&host_raw);
        let host = lower_chars(&host_trimmed);
        let port_raw = sub_chars(&text, k + 1, text.len());
        assert(port_raw@ =~= text@.skip(k + 1));
        let port_text = trim_chars(&port_raw);
        if host.len() == 0 || contains_char(&host, ':') {
            return None;
        }
        match valid_port_chars(&port_text) {
            Some(p) => Some((host, p)),
            None => None,
        }
    }
}

proof fn lemma_last_index_of_bounds(s: Seq<char>, c: char)
    ensures
        -1 <= last_index_of(s, c) < s.len(),
    decreases s.len(),
{
    if s.len() > 0 && s.last() != c {
        lemma_last_index_of_bounds(s.drop_last(), c);
    }
}

/// Parses a passthrough target into its lower-cased host and port (see
/// `spec_parse_target`).
pub fn parse_target_host_port(raw: &str) -> (r: Option<(String, u16)>)
    ensures
        match r {
            Some((h, p)) => spec_parse_target(raw@) == Some((h@, p)),
            None => spec_parse_target(raw@) is None,
        },
{
    match parse_target_chars(raw) {
        Some((h, p)) => Some((string_from_chars(&h), p)),
        None => None,
    }
}

/// The desktop settings' name for `parse_target_host_port`.
pub fn parse_passthrough_target(raw: &str) -> (r: Option<(String, u16)>)
    ensures
        match r {
            Some((h, p)) => spec_parse_target(raw@) == Some((h@, p)),
            None => spec_parse_target(raw@) is None,
        },
{
    parse_target_host_port(raw)
}

fn format_target_chars(host: &Vec<char>, port: u16) -> (out: Vec<char>)
    ensures
        out@ == spec_format_target(host@, port),
{
    let digits = decimal_chars(port as u64);
    if contains_char(host, ':') {
        let mut open: Vec<char> = Vec::new();
        open.push('[');
        let mut close: Vec<char> = Vec::new();
        close.push(']');
        close.push(':');
        let a = concat_chars(&open, host);
        let b = concat_chars(&a, &close);
        let out = concat_chars(&b, &digits);
        assert(open@ =~= seq!['[']);
        assert(close@ =~= seq![']', ':']);
        out
    } else {
        let mut colon: Vec<char> = Vec::new();
        colon.push(':');
        let a = concat_chars(host, &colon);
        assert(colon@ =~= seq![':']);
        concat_chars(&a, &digits)
    }
}

/// The text to send to for a host and port (see `spec_format_target`).
pub fn format_target_for_send(host: &str, port: u16) -> (out: String)
    ensures
        out@ == spec_format_target(host@, port),
{
    let h = chars_of(host);
    string_from_chars(&format_target_chars(&h, port))
}

/// The desktop settings' name for `format_target_for_send`.
pub fn format_passthrough_target(host: &str, port: u16) -> (out: String)
    ensures
        out@ == spec_format_target(host@, port),
{
    format_target_for_send(host, port)
}

/// Hosts that reach this machine's own listener.
pub open spec fn is_local_host(host: Seq<char>) -> bool {
    ||| host == "127.0.0.1"@
    ||| host == "localhost"@
    ||| host == "::1"@
    ||| host == "0.0.0.0"@
    ||| host == "::"@
}

/// A target that would send packets back to the receiver itself.
pub fn is_self_loop_target(host: &str, port: u16, listen_port: u16) -> (b: bool)
    ensures
        b == (port == listen_port && is_local_host(host@)),
{
    if port != listen_port {
        return false;
    }
    let h = chars_of(host);
    let c1 = chars_of("127.0.0.1");
    let c2 = chars_of("localhost");
    let c3 = chars_of("::1");
    let c4 = chars_of("0.0.0.0");
    let c5 = chars_of("::");
    chars_equal(&h, &c1) || chars_equal(&h, &c2) || chars_equal(&h, &c3) || chars_equal(&h, &c4)
        || chars_equal(&h, &c5)
}

/// The error for a target that does not parse.
pub open spec fn invalid_target_message(trimmed: Seq<char>) -> Seq<char> {
    "invalid passthrough target `"@ + trimmed + "` (expected host:port with port 1-65535)"@
}

/// The cleaned target list: blank entries dropped, each other entry parsed
/// (the first that does not parse is the error) and formatted, and later
/// entries whose lower-cased form repeats an earlier one dropped.
pub open spec fn spec_sanitize_targets(targets: Seq<Seq<char>>) -> Result<Seq<Seq<char>>, Seq<char>>
    decreases targets.len(),
{
    if targets.len() == 0 {
        Ok(Seq::empty())
    } else {
        match spec_sanitize_targets(targets.drop_last()) {
            Err(e) => Err(e),
            Ok(acc) => {
                let trimmed = trim(targets.last());
                if trimmed.len() == 0 {
                    Ok(acc)
                } else {
                    match spec_parse_target(trimmed) {
                        None => Err(invalid_target_message(trimmed)),
                        Some((host, port)) => {
                            let formatted = spec_format_target(host, port);
                            if exists|j: int|
                                0 <= j < acc.len() && ascii_lower(#[trigger] acc[j]) == ascii_lower(
                                    formatted,
                                ) {
                                Ok(acc)
                            } else {
                                Ok(acc.push(formatted))
                            }
                        },
                    }
                }
            },
        }
    }
}

/// The character sequences of a list of strings.
pub open spec fn views_of(list: Seq<String>) -> Seq<Seq<char>> {
    list.map_values(|s: String| s@)
}

proof fn lemma_trim_idempotent_parse(raw: Seq<char>)
    ensures
        spec_parse_target(trim(raw)) == spec_parse_target(raw),
{
    lemma_trim_trim(raw);
}

proof fn lemma_trim_start_no_space(s: Seq<char>)
    requires
        s.len() == 0 || !crate::text::is_space(s[0]),
    ensures
        crate::text::trim_start(s) == s,
{
}

proof fn lemma_trim_end_keeps_start(s: Seq<char>)
    requires
        s.len() == 0 || !crate::text::is_space(s[0]),
    ensures
        crate::text::trim_end(s).len() == 0 || !crate::text::is_space(crate::text::trim_end(s)[0]),
        crate::text::trim_end(s).len() == 0 || crate::text::trim_end(s)[0] == s[0],
    decreases s.len(),
{
    if s.len() > 0 && crate::text::is_space(s.last()) {
        if s.len() > 1 {
            lemma_trim_end_keeps_start(s.drop_last());
        }
    }
}

proof fn lemma_trim_start_result(s: Seq<char>)
    ensures
        crate::text::trim_start(s).len() == 0 || !crate::text::is_space(
            crate::text::trim_start(s)[0],
        ),
    decreases s.len(),
{
    if s.len() > 0 && crate::text::is_space(s[0]) {
        lemma_trim_start_result(s.drop_first());
    }
}

proof fn lemma_trim_end_result(s: Seq<char>)
    ensures
        crate::text::trim_end(s).len() == 0 || !crate::text::is_space(crate::text::trim_end(s).last()),
        crate::text::trim_end(crate::text::trim_end(s)) == crate::text::trim_end(s),
    decreases s.len(),
{
    if s.len() > 0 && crate::text::is_space(s.last()) {
        lemma_trim_end_result(s.drop_last());
    }
}

/// Trimming twice is trimming once.
pub proof fn lemma_trim_trim(s: Seq<char>)
    ensures
        trim(trim(s)) == trim(s),
{
    let a = crate::text::trim_start(s);
    lemma_trim_start_result(s);
    lemma_trim_end_keeps_start(a);
    let b = crate::text::trim_end(a);
    lemma_trim_start_no_space(b);
    lemma_trim_end_result(a);
}

proof fn lemma_decimal(n: nat)
    ensures
        decimal(n).len() > 0,
        forall|i: int| 0 <= i < decimal(n).len() ==> crate::text::is_digit(#[trigger] decimal(n)[i]),
        crate::text::digits_value(decimal(n)) == n,
    decreases n,
{
    let d = (n % 10) as int;
    let c = crate::text::digit_char(d);
    assert(((48 + d) as u32) as char as u32 == 48 + d);
    assert(crate::text::digit_value(c) == d);
    if n >= 10 {
        lemma_decimal(n / 10);
        let prev = decimal(n / 10);
        assert(decimal(n) == prev.push(c));
        assert(decimal(n).drop_last() =~= prev);
        assert(decimal(n).last() == c);
        assert(crate::text::digits_value(decimal(n)) == crate::text::digits_value(prev) * 10
            + crate::text::digit_value(c));
        assert((n / 10) * 10 + n % 10 == n);
        assert forall|i: int| 0 <= i < decimal(n).len() implies crate::text::is_digit(
            #[trigger] decimal(n)[i],
        ) by {
            if i < prev.len() {
                assert(decimal(n)[i] == prev[i]);
            }
        }
    } else {
        assert(decimal(n) == seq![c]);
        assert(seq![c].drop_last() =~= Seq::<char>::empty());
        assert(crate::text::digits_value(seq![c]) == crate::text::digits_value(Seq::<char>::empty())
            * 10 + crate::text::digit_value(c));
    }
}

proof fn lemma_digits_are_plain(s: Seq<char>)
    requires
        forall|i: int| 0 <= i < s.len() ==> crate::text::is_digit(#[trigger] s[i]),
    ensures
        !s.contains(':'),
        !s.contains(']'),
        forall|i: int| 0 <= i < s.len() ==> !crate::text::is_space(#[trigger] s[i]),
        s.len() > 0 ==> s[0] != '+',
{
    assert forall|i: int| 0 <= i < s.len() implies !crate::text::is_space(#[trigger] s[i]) by {
        assert(crate::text::is_digit(s[i]));
    }
    if s.contains(':') {
        let k = choose|k: int| 0 <= k < s.len() && s[k] == ':';
        assert(crate::text::is_digit(s[k]));
    }
    if s.contains(']') {
        let k = choose|k: int| 0 <= k < s.len() && s[k] == ']';
        assert(crate::text::is_digit(s[k]));
    }
    if s.len() > 0 {
        assert(crate::text::is_digit(s[0]));
    }
}

proof fn lemma_port_text(p: u16)
    requires
        p != 0,
    ensures
        valid_port(decimal(p as nat)) == Some(p),
        trim(decimal(p as nat)) == decimal(p as nat),
        !decimal(p as nat).contains(':'),
        !decimal(p as nat).contains(']'),
{
    let d = decimal(p as nat);
    lemma_decimal(p as nat);
    lemma_digits_are_plain(d);
    assert(crate::text::strip_plus(d) == d);
    assert(crate::text::all_digits(d));
    lemma_trimmed_when_ends_are_plain(d);
}

proof fn lemma_trimmed_when_ends_are_plain(s: Seq<char>)
    requires
        s.len() > 0,
        !crate::text::is_space(s[0]),
        !crate::text::is_space(s.last()),
    ensures
        trim(s) == s,
{
    lemma_trim_start_no_space(s);
}

proof fn lemma_first_index_after_prefix(a: Seq<char>, b: Seq<char>, c: char)
    requires
        !a.contains(c),
    ensures
        first_index_of(a + b, c) == a.len() + first_index_of(b, c),
    decreases a.len(),
{
    if a.len() > 0 {
        assert(a[0] != c);
        assert((a + b).drop_first() =~= a.drop_first() + b);
        assert(!a.drop_first().contains(c)) by {
            if a.drop_first().contains(c) {
                let k = choose|k: int| 0 <= k < a.drop_first().len() && a.drop_first()[k] == c;
                assert(a[k + 1] == c);
            }
        }
        lemma_first_index_after_prefix(a.drop_first(), b, c);
    } else {
        assert(a + b =~= b);
    }
}

proof fn lemma_last_index_before_suffix(a: Seq<char>, b: Seq<char>, c: char)
    requires
        !b.contains(c),
    ensures
        last_index_of(a.push(c) + b, c) == a.len(),
    decreases b.len(),
{
    if b.len() > 0 {
        assert(b.last() != c);
        assert((a.push(c) + b).drop_last() =~= a.push(c) + b.drop_last());
        assert(!b.drop_last().contains(c)) by {
            if b.drop_last().contains(c) {
                let k = choose|k: int| 0 <= k < b.drop_last().len() && b.drop_last()[k] == c;
                assert(b[k] == c);
            }
        }
        lemma_last_index_before_suffix(a, b.drop_last(), c);
    } else {
        assert(a.push(c) + b =~= a.push(c));
    }
}

/// A host that formatting and parsing carry through unchanged: non-empty,
/// trimmed, lower-case, not starting with `[`, and without `]` when it holds
/// a colon.
pub open spec fn is_canonical_host(host: Seq<char>) -> bool {
    &&& host.len() > 0
    &&& trim(host) == host
    &&& ascii_lower(host) == host
    &&& host[0] != '['
    &&& host.contains(':') ==> !host.contains(']')
}

/// A target written out for sending or for settings reads back as the same
/// host and port.
pub proof fn law_format_then_parse(host: Seq<char>, port: u16)
    requires
        is_canonical_host(host),
        port != 0,
    ensures
        spec_parse_target(spec_format_target(host, port)) == Some((host, port)),
{
    let d = decimal(port as nat);
    lemma_port_text(port);
    lemma_decimal(port as nat);
    lemma_trim_start_result(host);
    lemma_trim_end_result(host);
    if host.contains(':') {
        let text = seq!['['] + host + seq![']', ':'] + d;
        assert(text[0] == '[');
        assert(text.last() == d.last());
        lemma_digits_are_plain(d);
        assert(!crate::text::is_space(d[d.len() - 1]));
        lemma_trimmed_when_ends_are_plain(text);
        let rest = text.drop_first();
        assert(rest =~= host + (seq![']', ':'] + d));
        lemma_first_index_after_prefix(host, seq![']', ':'] + d, ']');
        assert(first_index_of(seq![']', ':'] + d, ']') == 0);
        assert(rest.take(host.len() as int) =~= host);
        assert(rest.skip(host.len() as int + 1) =~= seq![':'] + d);
        assert((seq![':'] + d).drop_first() =~= d);
    } else {
        let text = host + seq![':'] + d;
        assert(text[0] == host[0]);
        assert(text.last() == d.last());
        lemma_digits_are_plain(d);
        assert(!crate::text::is_space(d[d.len() - 1]));
        lemma_trim_end_keeps_start(crate::text::trim_start(host));
        assert(!crate::text::is_space(host[0]));
        lemma_trimmed_when_ends_are_plain(text);
        assert(text =~= host.push(':') + d);
        lemma_last_index_before_suffix(host, d, ':');
        assert(text.take(host.len() as int) =~= host);
        assert(text.skip(host.len() as int + 1) =~= d);
    }
}

/// Cleans the passthrough target list kept in settings (see
/// `spec_sanitize_targets`).
pub fn sanitize_passthrough_targets(targets: Vec<String>) -> (r: Result<Vec<String>, String>)
    ensures
        match r {
            Ok(list) => spec_sanitize_targets(views_of(targets@)) == Ok::<Seq<Seq<char>>, Seq<char>>(
                views_of(list@),
            ),
            Err(e) => spec_sanitize_targets(views_of(targets@)) == Err::<Seq<Seq<char>>, Seq<char>>(e@),
        },
{
    let mut normalized: Vec<String> = Vec::new();
    let mut seen: Vec<Vec<char>> = Vec::new();
    let mut i: usize = 0;
    assert(views_of(targets@).take(0) =~= Seq::<Seq<char>>::empty());
    assert(views_of(normalized@) =~= Seq::<Seq<char>>::empty());
    while i < targets.len()
        invariant
            i <= targets@.len(),
            spec_sanitize_targets(views_of(targets@).take(i as int)) == Ok::<
                Seq<Seq<char>>,
                Seq<char>,
            >(views_of(normalized@)),
            seen@.len() == normalized@.len(),
            forall|j: int|
                0 <= j < seen@.len() ==> #[trigger] seen@[j]@ == ascii_lower(normalized@[j]@),
        decreases targets.len() - i,
    {
        let ghost prefix = views_of(targets@).take(i as int);
        let ghost next_prefix = views_of(targets@).take(i + 1);
        assert(next_prefix.drop_last() =~= prefix);
        assert(next_prefix.last() == targets@[i as int]@);
        let chars = chars_of(targets[i].as_str());
        let trimmed = trim_chars(&chars);
        assert(chars@ == next_prefix.last());
        if trimmed.len() == 0 {
            assert(spec_sanitize_targets(next_prefix) == Ok::<Seq<Seq<char>>, Seq<char>>(
                views_of(normalized@),
            ));
            i = i + 1;
            continue;
        }
        let trimmed_text = string_from_chars(&trimmed);
        let parsed = parse_target_chars(trimmed_text.as_str());
        proof {
            lemma_trim_idempotent_parse(chars@);
        }
        match parsed {
            None => {
                let message = String::from_str("invalid passthrough target `").concat(
                    trimmed_text.as_str(),
                ).concat("` (expected host:port with port 1-65535)");
                proof {
                    assert(spec_sanitize_targets(next_prefix) == Err::<Seq<Seq<char>>, Seq<char>>(
                        message@,
                    ));
                    lemma_sanitize_error_sticks(views_of(targets@), i + 1, message@);
                    assert(views_of(targets@).take(targets@.len() as int) =~= views_of(targets@));
                }
                return Err(message);
            },
            Some((host, port)) => {
                let ghost old_seen = seen@;
                let formatted = format_target_chars(&host, port);
                let lowered = lower_chars(&formatted);
                let mut found = false;
                let mut j: usize = 0;
                while j < seen.len()
                    invariant
                        j <= seen@.len(),
                        seen@.len() == normalized@.len(),
                        forall|q: int|
                            0 <= q < seen@.len() ==> #[trigger] seen@[q]@ == ascii_lower(
                                normalized@[q]@,
                            ),
                        found == exists|q: int|
                            0 <= q < j && ascii_lower(#[trigger] views_of(normalized@)[q])
                                == lowered@,
                    decreases seen.len() - j,
                {
                    if chars_equal(&seen[j], &lowered) {
                        found = true;
                    }
                    assert(views_of(normalized@)[j as int] == normalized@[j as int]@);
                    j = j + 1;
                }
                let ghost acc = views_of(normalized@);
                assert(found == exists|q: int|
                    0 <= q < acc.len() && ascii_lower(#[trigger] acc[q]) == ascii_lower(
                        formatted@,
                    ));
                if !found {
                    normalized.push(string_from_chars(&formatted));
                    seen.push(lowered);
                    assert(views_of(normalized@) =~= acc.push(formatted@));
                    assert forall|q: int|
                        0 <= q < seen@.len() implies #[trigger] seen@[q]@ == ascii_lower(
                            normalized@[q]@,
                        ) by {
                        if q < seen@.len() - 1 {
                            assert(seen@[q] == old_seen[q]);
                        }
                    }
                }
                assert(spec_sanitize_targets(next_prefix) == Ok::<Seq<Seq<char>>, Seq<char>>(
                    views_of(normalized@),
                ));
            },
        }
        i = i + 1;
    }
    assert(views_of(targets@).take(targets@.len() as int) =~= views_of(targets@));
    Ok(normalized)
}

/// Once the cleaning of a prefix fails, the cleaning of the whole list
/// fails with the same error.
proof fn lemma_sanitize_error_sticks(targets: Seq<Seq<char>>, k: int, e: Seq<char>)
    requires
        0 <= k <= targets.len(),
        spec_sanitize_targets(targets.take(k)) == Err::<Seq<Seq<char>>, Seq<char>>(e),
    ensures
        spec_sanitize_targets(targets.take(targets.len() as int)) == Err::<Seq<Seq<char>>, Seq<char>>(
            e,
        ),
    decreases targets.len() - k,
{
    if k < targets.len() {
        assert(targets.take(k + 1).drop_last() =~= targets.take(k));
        lemma_sanitize_error_sticks(targets, k + 1, e);
    }
}

/// The cleaned target list names each destination once: no two of its
/// entries are equal once lower-cased.
pub proof fn law_sanitized_targets_are_distinct(targets: Seq<Seq<char>>)
    requires
        spec_sanitize_targets(targets) is Ok,
    ensures
        forall|i: int, j: int|
            0 <= i < j < spec_sanitize_targets(targets)->Ok_0.len() ==> ascii_lower(
                #[trigger] spec_sanitize_targets(targets)->Ok_0[i],
            ) != ascii_lower(#[trigger] spec_sanitize_targets(targets)->Ok_0[j]),
    decreases targets.len(),
{
    if targets.len() > 0 {
        let prev = targets.drop_last();
        assert(spec_sanitize_targets(prev) is Ok);
        law_sanitized_targets_are_distinct(prev);
    }
}


/// The loopback addresses (`127.0.0.1`, `localhost`, `::1`) and the
/// wildcard addresses (`0.0.0.0`, `::`) all reach the receiver itself: a
/// target naming one of them on the listening port is a self-loop, and a
/// target on another port never is.
pub proof fn law_loopback_and_wildcard_hosts_are_local(host: Seq<char>, port: u16, listen_port: u16)
    ensures
        is_local_host("127.0.0.1"@),
        is_local_host("localhost"@),
        is_local_host("::1"@),
        is_local_host("0.0.0.0"@),
        is_local_host("::"@),
        (host == "127.0.0.1"@ || host == "localhost"@ || host == "::1"@ || host == "0.0.0.0"@
            || host == "::"@) <==> is_local_host(host),
        port != listen_port ==> !(port == listen_port && is_local_host(host)),
{
}
} // verus!
