//! Parsing of what Windows reports: power plans listed by `powercfg`, driver
//! dates and names, GPU vendors. The reading itself (processes, registry) is
//! done by the caller.

use vstd::prelude::*;

use crate::bridge::{DriverHealthInfo, DriverHealthReport};
use crate::text::{
    contains_str, lines_from, lowercase_of, owned, push_decimal, seq_contains, split_lines,
    str_eq, strings_of, to_lowercase, trim, trim_whitespace, decimal,
};

verus! {

// ───────────────────────── GUIDs ─────────────────────────

/// Whether `c` is an ASCII hex digit.
pub open spec fn is_hex(c: char) -> bool {
    ('0' <= c && c <= '9') || ('a' <= c && c <= 'f') || ('A' <= c && c <= 'F')
}

/// Whether `c` may appear in a GUID token.
pub open spec fn is_guid_char(c: char) -> bool {
    is_hex(c) || c == '-'
}

/// Whether `t` has the shape of a GUID: 36 characters, dashes at 8, 13, 18
/// and 23, hex digits elsewhere.
pub open spec fn guid_shaped(t: Seq<char>) -> bool {
    &&& t.len() == 36
    &&& forall|i: int|
        0 <= i < 36 ==> if i == 8 || i == 13 || i == 18 || i == 23 {
            #[trigger] t[i] == '-'
        } else {
            is_hex(t[i])
        }
}

fn hex_char(c: char) -> (b: bool)
    ensures
        b == is_hex(c),
{
    ('0' <= c && c <= '9') || ('a' <= c && c <= 'f') || ('A' <= c && c <= 'F')
}

/// Whether `t` is a GUID without braces.
pub fn is_guid(t: &str) -> (b: bool)
    ensures
        b == guid_shaped(t@),
{
    if t.unicode_len() != 36 {
        return false;
    }
    let mut i: usize = 0;
    while i < 36
        invariant
            t@.len() == 36,
            i <= 36,
            forall|k: int|
                0 <= k < i ==> if k == 8 || k == 13 || k == 18 || k == 23 {
                    #[trigger] t@[k] == '-'
                } else {
                    is_hex(t@[k])
                },
        decreases 36 - i,
    {
        let c = t.get_char(i);
        let ok = if i == 8 || i == 13 || i == 18 || i == 23 {
            c == '-'
        } else {
            hex_char(c)
        };
        if !ok {
            return false;
        }
        i = i + 1;
    }
    true
}

/// Whether a GUID token starts at `i`: a maximal run of GUID characters of
/// GUID shape.
pub open spec fn guid_token_at(s: Seq<char>, i: int) -> bool {
    &&& 0 <= i
    &&& i + 36 <= s.len()
    &&& (i == 0 || !is_guid_char(s[i - 1]))
    &&& guid_shaped(s.subrange(i, i + 36))
    &&& (i + 36 == s.len() || !is_guid_char(s[i + 36]))
}

/// ASCII lowercase of a character.
pub open spec fn ascii_lower(c: char) -> char {
    if 'A' <= c && c <= 'Z' {
        ((c as u32) + 32) as char
    } else {
        c
    }
}

/// The first GUID token of `s`, in lowercase.
pub open spec fn first_guid(s: Seq<char>) -> Option<Seq<char>> {
    if exists|i: int| guid_token_at(s, i) {
        let i = choose|i: int| guid_token_at(s, i) && forall|j: int| 0 <= j < i ==> !guid_token_at(s, j);
        Some(s.subrange(i, i + 36).map_values(|c: char| ascii_lower(c)))
    } else {
        None
    }
}

fn guid_char(c: char) -> (b: bool)
    ensures
        b == is_guid_char(c),
{
    hex_char(c) || c == '-'
}

fn lower_ascii(c: char) -> (r: char)
    ensures
        r == ascii_lower(c),
{
    if 'A' <= c && c <= 'Z' {
        let b: u8 = c as u8;
        assert(b == c as u32);
        (b + 32) as char
    } else {
        c
    }
}

/// There is at most one first GUID token.
proof fn lemma_first_token_unique(s: Seq<char>, a: int, b: int)
    requires
        guid_token_at(s, a) && forall|j: int| 0 <= j < a ==> !guid_token_at(s, j),
        guid_token_at(s, b) && forall|j: int| 0 <= j < b ==> !guid_token_at(s, j),
    ensures
        a == b,
{
}

/// The first GUID in a text (split at every character that cannot be part
/// of a GUID), in lowercase.
pub fn extract_guid(s: &str) -> (r: Option<String>)
    ensures
        match (r, first_guid(s@)) {
            (Some(g), Some(e)) => g@ == e,
            (None, None) => true,
            _ => false,
        },
{
    let n = s.unicode_len();
    if n < 36 {
        assert(!exists|i: int| guid_token_at(s@, i));
        return None;
    }
    let mut i: usize = 0;
    while i <= n - 36
        invariant
            n == s@.len(),
            36 <= n,
            i <= n - 35,
            forall|j: int| 0 <= j < i ==> !guid_token_at(s@, j),
        decreases n + 1 - i,
    {
        let before_ok = i == 0 || !guid_char(s.get_char(i - 1));
        let after_ok = i + 36 == n || !guid_char(s.get_char(i + 36));
        if before_ok && after_ok {
            let t = s.substring_char(i, i + 36);
            if is_guid(t) {
                assert(guid_token_at(s@, i as int));
                proof {
                    let c = choose|c: int| guid_token_at(s@, c) && forall|j: int| 0 <= j < c ==> !guid_token_at(s@, j);
                    lemma_first_token_unique(s@, c, i as int);
                }
                let mut out = String::new();
                let mut k: usize = 0;
                while k < 36
                    invariant
                        k <= 36,
                        t@.len() == 36,
                        out@ =~= t@.subrange(0, k as int).map_values(|c: char| ascii_lower(c)),
                    decreases 36 - k,
                {
                    let c = lower_ascii(t.get_char(k));
                    let ghost before = out@;
                    out.push(c);
                    assert(t@.subrange(0, k + 1).map_values(|c: char| ascii_lower(c)) =~= t@.subrange(0, k as int).map_values(|c: char| ascii_lower(c)).push(ascii_lower(t@[k as int])));
                    k = k + 1;
                }
                assert(t@.subrange(0, 36) =~= t@);
                return Some(out);
            }
        }
        i = i + 1;
    }
    assert(!exists|j: int| guid_token_at(s@, j)) by {
        if exists|j: int| guid_token_at(s@, j) {
            let j = choose|j: int| guid_token_at(s@, j);
            assert(j < i);
        }
    }
    None
}

// ───────────────────────── Power plans ─────────────────────────

/// The plan name on a `powercfg /list` line: the text between the first `(`
/// and the next `)`, trimmed; empty when absent.
pub open spec fn scheme_name(line: Seq<char>) -> Seq<char> {
    match crate::text::find_from(line, '(', 0) {
        Some(i) => match crate::text::find_from(line, ')', i + 1) {
            Some(j) => trim_whitespace(line.subrange(i + 1, j)),
            None => Seq::empty(),
        },
        None => Seq::empty(),
    }
}

/// The (GUID, name) plans of the first `n` lines.
pub open spec fn schemes_of(lines: Seq<Seq<char>>, n: nat) -> Seq<(Seq<char>, Seq<char>)>
    decreases n,
{
    if n == 0 || n > lines.len() {
        Seq::empty()
    } else {
        let prev = schemes_of(lines, (n - 1) as nat);
        match first_guid(lines[n - 1]) {
            Some(g) => prev.push((g, scheme_name(lines[n - 1]))),
            None => prev,
        }
    }
}

fn name_on_line(line: &str) -> (name: String)
    ensures
        name@ == scheme_name(line@),
{
    let n = line.unicode_len();
    match crate::text::find_char_from(line, '(', 0) {
        Some(i) => {
            proof {
                crate::text::lemma_find_from(line@, '(', 0);
            }
            assert(i < line@.len());
            match crate::text::find_char_from(line, ')', i + 1) {
                Some(j) => {
                    proof {
                        crate::text::lemma_find_from(line@, ')', i + 1);
                    }
                    assert(i + 1 <= j <= line@.len());
                    owned(trim(line.substring_char(i + 1, j)))
                },
                None => String::new(),
            }
        },
        None => String::new(),
    }
}

/// A plan as plain values.
pub open spec fn plan_view(p: (String, String)) -> (Seq<char>, Seq<char>) {
    (p.0@, p.1@)
}

/// The plans as plain values.
pub open spec fn plans_view(v: Seq<(String, String)>) -> Seq<(Seq<char>, Seq<char>)> {
    v.map_values(|p: (String, String)| plan_view(p))
}

fn push_scheme_of_line(v: &mut Vec<(String, String)>, line: &str)
    ensures
        plans_view(final(v)@) == match first_guid(line@) {
            Some(g) => plans_view(old(v)@).push((g, scheme_name(line@))),
            None => plans_view(old(v)@),
        },
{
    match extract_guid(line) {
        Some(g) => {
            let name = name_on_line(line);
            let ghost before = v@;
            v.push((g, name));
            assert(plans_view(v@) =~= plans_view(before).push((g@, name@)));
        },
        None => {},
    }
}

/// The power plans of a `powercfg /list` output: for each line holding a
/// GUID, the GUID in lowercase and the plan name (the text in parentheses).
pub fn list_schemes(text: &str) -> (v: Vec<(String, String)>)
    ensures
        plans_view(v@) == schemes_of(lines_from(text@, 0), lines_from(text@, 0).len()),
{
    let lines = split_lines(text);
    let ghost ls = lines_from(text@, 0);
    let mut v: Vec<(String, String)> = Vec::new();
    let mut i: usize = 0;
    while i < lines.len()
        invariant
            strings_of(lines@) == ls,
            i <= lines@.len(),
            plans_view(v@) == schemes_of(ls, i as nat),
        decreases lines@.len() - i,
    {
        assert(lines@[i as int]@ == ls[i as int]);
        push_scheme_of_line(&mut v, lines[i].as_str());
        i = i + 1;
    }
    v
}

/// How strongly a (lowercase) plan name means "high performance": 3 for
/// ultimate/maximum, 2 for high performance, 1 for any performance, else 0.
pub open spec fn perf_score(l: Seq<char>) -> u8 {
    if seq_contains(l, "ultimate"@) || seq_contains(l, "máximo"@) || seq_contains(l, "maximo"@)
        || seq_contains(l, "maximum"@) || (seq_contains(l, "desempenho"@) && (seq_contains(
        l,
        "máx"@,
    ) || seq_contains(l, "max"@))) {
        3
    } else if seq_contains(l, "high performance"@) || seq_contains(l, "alto desempenho"@) || (
    seq_contains(l, "high"@) && seq_contains(l, "perf"@)) || (seq_contains(l, "alto"@)
        && seq_contains(l, "desempenho"@)) {
        2
    } else if seq_contains(l, "desempenho"@) || seq_contains(l, "performance"@) {
        1
    } else {
        0
    }
}

/// Scores how much a power plan name means "high performance" (any case).
pub fn high_perf_score(name: &str) -> (s: u8)
    ensures
        s == perf_score(lowercase_of(name@)),
{
    let lower = to_lowercase(name);
    let l = lower.as_str();
    if contains_str(l, "ultimate") || contains_str(l, "máximo") || contains_str(l, "maximo")
        || contains_str(l, "maximum") || (contains_str(l, "desempenho") && (contains_str(l, "máx")
        || contains_str(l, "max"))) {
        return 3;
    }
    if contains_str(l, "high performance") || contains_str(l, "alto desempenho") || (contains_str(
        l,
        "high",
    ) && contains_str(l, "perf")) || (contains_str(l, "alto") && contains_str(l, "desempenho")) {
        return 2;
    }
    if contains_str(l, "desempenho") || contains_str(l, "performance") {
        return 1;
    }
    0
}

/// The score of plan `i`.
pub open spec fn plan_score(plans: Seq<(String, String)>, i: int) -> u8 {
    perf_score(lowercase_of(plans[i].1@))
}

/// Whether plan `i` is the chosen one: positive score, none higher, and none
/// as high after it.
pub open spec fn is_best_plan(plans: Seq<(String, String)>, i: int) -> bool {
    &&& 0 <= i < plans.len()
    &&& plan_score(plans, i) > 0
    &&& forall|j: int| 0 <= j < plans.len() ==> plan_score(plans, j) <= plan_score(plans, i)
    &&& forall|j: int| i < j < plans.len() ==> plan_score(plans, j) < plan_score(plans, i)
}

/// The existing high-performance plan with the best score (the last one
/// among equals), if any plan scores above 0.
pub fn find_high_perf_scheme(plans: &[(String, String)]) -> (r: Option<usize>)
    ensures
        r matches Some(i) ==> is_best_plan(plans@, i as int),
        r is None ==> forall|j: int| 0 <= j < plans@.len() ==> plan_score(plans@, j) == 0,
{
    let mut best: Option<usize> = None;
    let mut best_score: u8 = 0;
    let mut i: usize = 0;
    while i < plans.len()
        invariant
            i <= plans@.len(),
            best is None ==> best_score == 0,
            best matches Some(b) ==> b < i && best_score == plan_score(plans@, b as int) && best_score > 0,
            forall|j: int| 0 <= j < i ==> plan_score(plans@, j) <= best_score,
            best matches Some(b) ==> forall|j: int| b < j < i ==> plan_score(plans@, j) < best_score,
        decreases plans@.len() - i,
    {
        let s = high_perf_score(plans[i].1.as_str());
        if s > 0 && s >= best_score {
            best = Some(i);
            best_score = s;
        }
        i = i + 1;
    }
    best
}

// ───────────────────────── Drivers ─────────────────────────

/// Category of an inspected driver.
#[derive(Debug, Clone, Copy, PartialEq, Eq, Structural)]
pub enum DriverCategory {
    Gpu,
    Network,
    Audio,
}

/// One detected driver; optional fields are absent when Windows does not
/// report them.
#[derive(Debug, Clone)]
pub struct DriverInfo {
    pub category: DriverCategory,
    pub name: String,
    pub vendor: Option<String>,
    pub version: Option<String>,
    /// Driver date, as "YYYY-MM-DD" when it could be normalized.
    pub date: Option<String>,
}

/// Whether a (lowercase) adapter name is a virtual or generic adapter.
pub open spec fn virtual_name(l: Seq<char>) -> bool {
    seq_contains(l, "virtual"@) || seq_contains(l, "loopback"@) || seq_contains(l, "miniport"@)
        || seq_contains(l, "microsoft kernel"@) || seq_contains(l, "vpn"@)
}

/// Light heuristic that filters virtual and generic adapters out.
pub fn is_virtual_adapter(name: &str) -> (b: bool)
    ensures
        b == virtual_name(lowercase_of(name@)),
{
    let lower = to_lowercase(name);
    let l = lower.as_str();
    contains_str(l, "virtual") || contains_str(l, "loopback") || contains_str(l, "miniport")
        || contains_str(l, "microsoft kernel") || contains_str(l, "vpn")
}

/// Value of a string of ASCII digits.
pub open spec fn digits_value(s: Seq<char>) -> nat
    decreases s.len(),
{
    if s.len() == 0 {
        0
    } else {
        digits_value(s.drop_last()) * 10 + ((s.last() as u32) - 48) as nat
    }
}

/// Whether every character is an ASCII digit.
pub open spec fn all_digits(s: Seq<char>) -> bool {
    forall|i: int| 0 <= i < s.len() ==> '0' <= #[trigger] s[i] && s[i] <= '9'
}

/// A `u32` as `str::parse` reads it: an optional `+`, then at least one
/// digit, with a value that fits.
pub open spec fn parse_u32_spec(s: Seq<char>) -> Option<u32> {
    let d = if s.len() > 0 && s[0] == '+' { s.subrange(1, s.len() as int) } else { s };
    if d.len() > 0 && all_digits(d) && digits_value(d) <= u32::MAX {
        Some(digits_value(d) as u32)
    } else {
        None
    }
}

/// Reads a `u32` in decimal.
pub fn parse_u32(s: &str) -> (r: Option<u32>)
    ensures
        r == parse_u32_spec(s@),
{
    let n = s.unicode_len();
    let start: usize = if n > 0 && s.get_char(0) == '+' { 1 } else { 0 };
    let ghost d = if s@.len() > 0 && s@[0] == '+' { s@.subrange(1, s@.len() as int) } else { s@ };
    assert(d =~= s@.subrange(start as int, n as int));
    assert(parse_u32_spec(s@) == (if d.len() > 0 && all_digits(d) && digits_value(d) <= u32::MAX {
        Some(digits_value(d) as u32)
    } else {
        None
    }));
    if start >= n {
        return None;
    }
    let mut v: u64 = 0;
    let mut i: usize = start;
    while i < n
        invariant
            start <= i <= n,
            start < n,
            n == s@.len(),
            d =~= s@.subrange(start as int, n as int),
            all_digits(d.subrange(0, i - start)),
            parse_u32_spec(s@) == (if d.len() > 0 && all_digits(d) && digits_value(d) <= u32::MAX {
                Some(digits_value(d) as u32)
            } else {
                None
            }),
            v == digits_value(d.subrange(0, i - start)),
            v <= u32::MAX,
        decreases n - i,
    {
        let c = s.get_char(i);
        assert(d[i - start] == c);
        if !('0' <= c && c <= '9') {
            assert(!all_digits(d)) by {
                if all_digits(d) {
                    assert('0' <= d[i - start] && d[i - start] <= '9');
                }
            }
            return None;
        }
        let digit: u64 = ((c as u32) - 48) as u64;
        assert(d.subrange(0, i + 1 - start).drop_last() =~= d.subrange(0, i - start));
        assert(all_digits(d.subrange(0, i + 1 - start)));
        let nv = v * 10 + digit;
        assert(nv == digits_value(d.subrange(0, i + 1 - start)));
        if nv > 4294967295 {
            proof {
                if all_digits(d) {
                    lemma_digits_prefix_grows(d, (i + 1 - start) as nat);
                    assert(digits_value(d) > u32::MAX);
                }
            }
            assert(parse_u32_spec(s@) is None);
            return None;
        }
        v = nv;
        i = i + 1;
    }
    assert(d.subrange(0, n - start) =~= d);
    Some(v as u32)
}

/// The value of a digit string is at least the value of any prefix.
proof fn lemma_digits_prefix_grows(d: Seq<char>, k: nat)
    requires
        k <= d.len(),
        all_digits(d),
    ensures
        digits_value(d.subrange(0, k as int)) <= digits_value(d),
    decreases d.len() - k,
{
    if k < d.len() {
        lemma_digits_prefix_grows(d, k + 1);
        assert(d.subrange(0, k as int + 1).drop_last() =~= d.subrange(0, k as int));
    } else {
        assert(d.subrange(0, k as int) =~= d);
    }
}

/// Whether `c` separates the parts of a driver date.
pub open spec fn is_date_sep(c: char) -> bool {
    c == '-' || c == '/'
}

/// Index of the first date separator at or after `from`.
pub open spec fn find_sep(s: Seq<char>, from: int) -> Option<int>
    decreases s.len() - from,
{
    if from < 0 || from >= s.len() {
        None
    } else if is_date_sep(s[from]) {
        Some(from)
    } else {
        find_sep(s, from + 1)
    }
}

proof fn lemma_find_sep(s: Seq<char>, from: int)
    requires
        0 <= from,
    ensures
        find_sep(s, from) matches Some(i) ==> from <= i < s.len() && is_date_sep(s[i]),
    decreases s.len() - from,
{
    if from < s.len() && !is_date_sep(s[from]) {
        lemma_find_sep(s, from + 1);
    }
}

/// The three parts of a date split at `-` or `/`, when there are exactly three.
pub open spec fn date_parts(t: Seq<char>) -> Option<(Seq<char>, Seq<char>, Seq<char>)> {
    match find_sep(t, 0) {
        Some(a) => match find_sep(t, a + 1) {
            Some(b) => match find_sep(t, b + 1) {
                Some(_) => None,
                None => Some((t.subrange(0, a), t.subrange(a + 1, b), t.subrange(b + 1, t.len() as int))),
            },
            None => None,
        },
        None => None,
    }
}

/// A number written with at least two digits.
pub open spec fn two_digits(n: nat) -> Seq<char> {
    if n < 10 {
        "0"@ + decimal(n)
    } else {
        decimal(n)
    }
}

/// The normalized driver date: "M-D-YYYY" (or with `/`) becomes
/// "YYYY-MM-DD" when the parts are a plausible date; anything else is
/// returned trimmed, as it came.
pub open spec fn normalized_date(raw: Seq<char>) -> Seq<char> {
    let t = trim_whitespace(raw);
    match date_parts(t) {
        Some((ms, ds, ys)) => match (parse_u32_spec(ms), parse_u32_spec(ds), parse_u32_spec(ys)) {
            (Some(m), Some(d), Some(y)) => if y > 1900 && 1 <= m <= 12 && 1 <= d <= 31 {
                decimal(y as nat) + "-"@ + two_digits(m as nat) + "-"@ + two_digits(d as nat)
            } else {
                t
            },
            _ => t,
        },
        None => t,
    }
}

fn find_sep_from(s: &str, from: usize) -> (r: Option<usize>)
    requires
        from <= s@.len(),
    ensures
        match (r, find_sep(s@, from as int)) {
            (Some(i), Some(j)) => i == j,
            (None, None) => true,
            _ => false,
        },
{
    let n = s.unicode_len();
    let mut i = from;
    while i < n
        invariant
            from <= i <= n,
            n == s@.len(),
            find_sep(s@, from as int) == find_sep(s@, i as int),
        decreases n - i,
    {
        let c = s.get_char(i);
        if c == '-' || c == '/' {
            return Some(i);
        }
        i = i + 1;
    }
    None
}

fn push_two_digits(out: &mut String, n: u32)
    ensures
        final(out)@ == old(out)@ + two_digits(n as nat),
{
    if n < 10 {
        out.append("0");
    }
    push_decimal(out, n as u64);
}

/// Normalizes a driver date to "YYYY-MM-DD"; an unexpected format is
/// returned trimmed.
pub fn normalize_date(raw: &str) -> (r: String)
    ensures
        r@ == normalized_date(raw@),
{
    let t = trim(raw);
    let n = t.unicode_len();
    let a = match find_sep_from(t, 0) {
        Some(a) => a,
        None => {
            return owned(t);
        },
    };
    proof {
        lemma_find_sep(t@, 0);
    }
    let b = match find_sep_from(t, a + 1) {
        Some(b) => b,
        None => {
            return owned(t);
        },
    };
    proof {
        lemma_find_sep(t@, a + 1);
    }
    match find_sep_from(t, b + 1) {
        Some(_) => {
            return owned(t);
        },
        None => {},
    }
    let ms = t.substring_char(0, a);
    let ds = t.substring_char(a + 1, b);
    let ys = t.substring_char(b + 1, n);
    match (parse_u32(ms), parse_u32(ds), parse_u32(ys)) {
        (Some(m), Some(d), Some(y)) => {
            if y > 1900 && 1 <= m && m <= 12 && 1 <= d && d <= 31 {
                let mut out = String::new();
                push_decimal(&mut out, y as u64);
                out.append("-");
                push_two_digits(&mut out, m);
                out.append("-");
                push_two_digits(&mut out, d);
                assert(out@ =~= decimal(y as nat) + "-"@ + two_digits(m as nat) + "-"@ + two_digits(d as nat));
                out
            } else {
                owned(t)
            }
        },
        _ => owned(t),
    }
}

/// The vendor of a GPU from its driver description.
pub open spec fn vendor_of_desc(d: Seq<char>) -> Option<Seq<char>> {
    if seq_contains(d, "NVIDIA"@) || seq_contains(d, "nVidia"@) {
        Some("NVIDIA"@)
    } else if seq_contains(d, "AMD"@) || seq_contains(d, "Radeon"@) || seq_contains(d, "Advanced Micro"@) {
        Some("AMD"@)
    } else if seq_contains(d, "Intel"@) {
        Some("Intel"@)
    } else {
        None
    }
}

/// The GPU vendor named by a driver description, if it is a known one.
pub fn gpu_vendor(desc: &str) -> (v: Option<&'static str>)
    ensures
        match (v, vendor_of_desc(desc@)) {
            (Some(a), Some(b)) => a@ == b,
            (None, None) => true,
            _ => false,
        },
{
    if contains_str(desc, "NVIDIA") || contains_str(desc, "nVidia") {
        Some("NVIDIA")
    } else if contains_str(desc, "AMD") || contains_str(desc, "Radeon") || contains_str(desc, "Advanced Micro") {
        Some("AMD")
    } else if contains_str(desc, "Intel") {
        Some("Intel")
    } else {
        None
    }
}

/// The stored key of a driver category.
pub open spec fn driver_category_key(c: DriverCategory) -> Seq<char> {
    match c {
        DriverCategory::Gpu => "gpu"@,
        DriverCategory::Network => "network"@,
        DriverCategory::Audio => "audio"@,
    }
}

/// The drivers of one category, in order, as report entries.
pub open spec fn drivers_in(found: Seq<DriverInfo>, c: DriverCategory) -> Seq<Seq<char>> {
    found.filter(|d: DriverInfo| d.category == c).map_values(|d: DriverInfo| d.name@)
}

fn to_health(d: &DriverInfo) -> (h: DriverHealthInfo)
    ensures
        h.category@ == driver_category_key(d.category),
        h.name@ == d.name@,
{
    DriverHealthInfo {
        category: owned(match d.category {
            DriverCategory::Gpu => "gpu",
            DriverCategory::Network => "network",
            DriverCategory::Audio => "audio",
        }),
        name: owned(d.name.as_str()),
        vendor: d.vendor.clone(),
        version: d.version.clone(),
        date: d.date.clone(),
    }
}

/// Groups the detected drivers by category, keeping their order.
pub fn driver_report(found: &[DriverInfo]) -> (r: DriverHealthReport)
    ensures
        r.gpu@.map_values(|h: DriverHealthInfo| h.name@) == drivers_in(found@, DriverCategory::Gpu),
        r.network@.map_values(|h: DriverHealthInfo| h.name@) == drivers_in(found@, DriverCategory::Network),
        r.audio@.map_values(|h: DriverHealthInfo| h.name@) == drivers_in(found@, DriverCategory::Audio),
{
    let mut gpu: Vec<DriverHealthInfo> = Vec::new();
    let mut network: Vec<DriverHealthInfo> = Vec::new();
    let mut audio: Vec<DriverHealthInfo> = Vec::new();
    let ghost pg = |d: DriverInfo| d.category == DriverCategory::Gpu;
    let ghost pn = |d: DriverInfo| d.category == DriverCategory::Network;
    let ghost pa = |d: DriverInfo| d.category == DriverCategory::Audio;
    let mut i: usize = 0;
    while i < found.len()
        invariant
            i <= found@.len(),
            pg == (|d: DriverInfo| d.category == DriverCategory::Gpu),
            pn == (|d: DriverInfo| d.category == DriverCategory::Network),
            pa == (|d: DriverInfo| d.category == DriverCategory::Audio),
            gpu@.map_values(|h: DriverHealthInfo| h.name@) == found@.subrange(0, i as int).filter(pg).map_values(|d: DriverInfo| d.name@),
            network@.map_values(|h: DriverHealthInfo| h.name@) == found@.subrange(0, i as int).filter(pn).map_values(|d: DriverInfo| d.name@),
            audio@.map_values(|h: DriverHealthInfo| h.name@) == found@.subrange(0, i as int).filter(pa).map_values(|d: DriverInfo| d.name@),
        decreases found@.len() - i,
    {
        let d = &found[i];
        proof {
            crate::configs::lemma_filter_step(found@, i as int, pg);
            crate::configs::lemma_filter_step(found@, i as int, pn);
            crate::configs::lemma_filter_step(found@, i as int, pa);
        }
        let h = to_health(d);
        match d.category {
            DriverCategory::Gpu => {
                let ghost before = gpu@;
                gpu.push(h);
                assert(gpu@.map_values(|h: DriverHealthInfo| h.name@) =~= before.map_values(|h: DriverHealthInfo| h.name@).push(d.name@));
                assert(found@.subrange(0, i + 1).filter(pg).map_values(|d: DriverInfo| d.name@) =~= found@.subrange(0, i as int).filter(pg).map_values(|d: DriverInfo| d.name@).push(d.name@));
            },
            DriverCategory::Network => {
                let ghost before = network@;
                network.push(h);
                assert(network@.map_values(|h: DriverHealthInfo| h.name@) =~= before.map_values(|h: DriverHealthInfo| h.name@).push(d.name@));
                assert(found@.subrange(0, i + 1).filter(pn).map_values(|d: DriverInfo| d.name@) =~= found@.subrange(0, i as int).filter(pn).map_values(|d: DriverInfo| d.name@).push(d.name@));
            },
            DriverCategory::Audio => {
                let ghost before = audio@;
                audio.push(h);
                assert(audio@.map_values(|h: DriverHealthInfo| h.name@) =~= before.map_values(|h: DriverHealthInfo| h.name@).push(d.name@));
                assert(found@.subrange(0, i + 1).filter(pa).map_values(|d: DriverInfo| d.name@) =~= found@.subrange(0, i as int).filter(pa).map_values(|d: DriverInfo| d.name@).push(d.name@));
            },
        }
        i = i + 1;
    }
    assert(found@.subrange(0, found@.len() as int) =~= found@);
    DriverHealthReport { gpu, network, audio }
}


// ───────────────────────── Detected devices ─────────────────────────

/// A display adapter of a known vendor.
#[derive(Debug, Clone)]
pub struct GpuInfo {
    pub name: String,
    /// "NVIDIA" | "AMD" | "Intel"
    pub vendor: String,
}

/// Whether some adapter in `gs` has the name `n`.
pub open spec fn has_gpu_named(gs: Seq<(Seq<char>, Seq<char>)>, n: Seq<char>) -> bool {
    exists|k: int| 0 <= k < gs.len() && (#[trigger] gs[k]).0 == n
}

/// The adapters described by the display-class registry entries, in order:
/// a description that is not blank and names a known vendor, each name once.
pub open spec fn gpu_entries(descs: Seq<Option<Seq<char>>>) -> Seq<(Seq<char>, Seq<char>)>
    decreases descs.len(),
{
    if descs.len() == 0 {
        Seq::empty()
    } else {
        let rest = gpu_entries(descs.drop_last());
        match descs.last() {
            Some(d) => if trim_whitespace(d).len() > 0 && !has_gpu_named(rest, d) {
                match vendor_of_desc(d) {
                    Some(v) => rest.push((d, v)),
                    None => rest,
                }
            } else {
                rest
            },
            None => rest,
        }
    }
}

/// The views of a list of adapters.
pub open spec fn gpus_view(v: Seq<GpuInfo>) -> Seq<(Seq<char>, Seq<char>)> {
    v.map_values(|g: GpuInfo| (g.name@, g.vendor@))
}

/// The adapters of known vendors among the display-class descriptions read
/// from the registry (absent or unreadable entries as `None`).
pub fn gpus_from(descs: &[Option<String>]) -> (r: Vec<GpuInfo>)
    ensures
        gpus_view(r@) == gpu_entries(descs@.map_values(|o: Option<String>| match o {
            Some(s) => Some(s@),
            None => None,
        })),
{
    let ghost ds = descs@.map_values(|o: Option<String>| match o {
        Some(s) => Some(s@),
        None => None,
    });
    let mut gpus: Vec<GpuInfo> = Vec::new();
    let mut i: usize = 0;
    while i < descs.len()
        invariant
            i <= descs@.len(),
            ds == descs@.map_values(|o: Option<String>| match o {
                Some(s) => Some(s@),
                None => None,
            }),
            gpus_view(gpus@) == gpu_entries(ds.subrange(0, i as int)),
        decreases descs@.len() - i,
    {
        assert(ds.subrange(0, i + 1).drop_last() =~= ds.subrange(0, i as int));
        assert(ds.subrange(0, i + 1).last() == ds[i as int]);
        let ghost before = gpus_view(gpus@);
        if let Some(d) = &descs[i] {
            if trim(d.as_str()).unicode_len() > 0 {
                let mut seen = false;
                let mut k: usize = 0;
                while k < gpus.len()
                    invariant
                        k <= gpus@.len(),
                        before == gpus_view(gpus@),
                        seen == exists|q: int| 0 <= q < k && (#[trigger] gpus@[q]).name@ == d@,
                    decreases gpus@.len() - k,
                {
                    if str_eq(gpus[k].name.as_str(), d.as_str()) {
                        seen = true;
                    }
                    k = k + 1;
                }
                assert(seen == has_gpu_named(before, d@)) by {
                    if seen {
                        let q = choose|q: int| 0 <= q < gpus@.len() && (#[trigger] gpus@[q]).name@ == d@;
                        assert(before[q].0 == d@);
                    }
                    if has_gpu_named(before, d@) {
                        let q = choose|q: int| 0 <= q < before.len() && (#[trigger] before[q]).0 == d@;
                        assert(gpus@[q].name@ == d@);
                    }
                }
                if !seen {
                    if let Some(v) = gpu_vendor(d.as_str()) {
                        gpus.push(GpuInfo { name: owned(d.as_str()), vendor: owned(v) });
                        assert(gpus_view(gpus@) =~= before.push((d@, v@)));
                    }
                }
            }
        }
        i = i + 1;
    }
    assert(ds.subrange(0, ds.len() as int) =~= ds);
    gpus
}

/// A registry text value as a driver field: trimmed, absent when blank.
pub open spec fn field_of(o: Option<Seq<char>>) -> Option<Seq<char>> {
    match o {
        Some(s) => if trim_whitespace(s).len() > 0 {
            Some(trim_whitespace(s))
        } else {
            None
        },
        None => None,
    }
}

/// The raw registry values of one device-class instance.
#[derive(Debug, Clone)]
pub struct DriverValues {
    pub desc: Option<String>,
    pub provider: Option<String>,
    pub version: Option<String>,
    pub date: Option<String>,
}

/// A driver as plain values: (category, name, vendor, version, date).
pub open spec fn driver_view(d: DriverInfo) -> (DriverCategory, Seq<char>, Option<Seq<char>>, Option<Seq<char>>, Option<Seq<char>>) {
    (d.category, d.name@, opt_str(d.vendor), opt_str(d.version), opt_str(d.date))
}

/// The view of an optional string.
pub open spec fn opt_str(o: Option<String>) -> Option<Seq<char>> {
    match o {
        Some(s) => Some(s@),
        None => None,
    }
}

/// Whether some driver in `ds` has the name `n`.
pub open spec fn has_driver_named(ds: Seq<(DriverCategory, Seq<char>, Option<Seq<char>>, Option<Seq<char>>, Option<Seq<char>>)>, n: Seq<char>) -> bool {
    exists|k: int| 0 <= k < ds.len() && (#[trigger] ds[k]).1 == n
}

/// The drivers of one category from its instances, in order: a description
/// that is not blank and not a virtual adapter, each name once, with its
/// provider, version and normalized date when present.
pub open spec fn driver_entries(c: DriverCategory, rows: Seq<DriverValues>) -> Seq<(DriverCategory, Seq<char>, Option<Seq<char>>, Option<Seq<char>>, Option<Seq<char>>)>
    decreases rows.len(),
{
    if rows.len() == 0 {
        Seq::empty()
    } else {
        let rest = driver_entries(c, rows.drop_last());
        let r = rows.last();
        match field_of(opt_str(r.desc)) {
            Some(name) => if !virtual_name(lowercase_of(name)) && !has_driver_named(rest, name) {
                rest.push((c, name, field_of(opt_str(r.provider)), field_of(opt_str(r.version)), match field_of(opt_str(r.date)) {
                    Some(t) => Some(normalized_date(t)),
                    None => None,
                }))
            } else {
                rest
            },
            None => rest,
        }
    }
}

fn field(o: &Option<String>) -> (r: Option<String>)
    ensures
        opt_str(r) == field_of(opt_str(*o)),
{
    match o {
        Some(s) => {
            let t = trim(s.as_str());
            if t.unicode_len() > 0 {
                Some(owned(t))
            } else {
                None
            }
        },
        None => None,
    }
}

/// The drivers of one category from the values read for its instances.
pub fn drivers_from(category: DriverCategory, rows: &[DriverValues]) -> (r: Vec<DriverInfo>)
    ensures
        r@.map_values(|d: DriverInfo| driver_view(d)) == driver_entries(category, rows@),
{
    let mut out: Vec<DriverInfo> = Vec::new();
    let mut i: usize = 0;
    while i < rows.len()
        invariant
            i <= rows@.len(),
            out@.map_values(|d: DriverInfo| driver_view(d)) == driver_entries(category, rows@.subrange(0, i as int)),
        decreases rows@.len() - i,
    {
        assert(rows@.subrange(0, i + 1).drop_last() =~= rows@.subrange(0, i as int));
        assert(rows@.subrange(0, i + 1).last() == rows@[i as int]);
        let ghost before = out@.map_values(|d: DriverInfo| driver_view(d));
        let row = &rows[i];
        if let Some(name) = field(&row.desc) {
            if !is_virtual_adapter(name.as_str()) {
                let mut seen = false;
                let mut k: usize = 0;
                while k < out.len()
                    invariant
                        k <= out@.len(),
                        before == out@.map_values(|d: DriverInfo| driver_view(d)),
                        seen == exists|q: int| 0 <= q < k && (#[trigger] out@[q]).name@ == name@,
                    decreases out@.len() - k,
                {
                    if str_eq(out[k].name.as_str(), name.as_str()) {
                        seen = true;
                    }
                    k = k + 1;
                }
                assert(seen == has_driver_named(before, name@)) by {
                    if seen {
                        let q = choose|q: int| 0 <= q < out@.len() && (#[trigger] out@[q]).name@ == name@;
                        assert(before[q].1 == name@);
                    }
                    if has_driver_named(before, name@) {
                        let q = choose|q: int| 0 <= q < before.len() && (#[trigger] before[q]).1 == name@;
                        assert(out@[q].name@ == name@);
                    }
                }
                if !seen {
                    let date = match field(&row.date) {
                        Some(t) => Some(normalize_date(t.as_str())),
                        None => None,
                    };
                    let d = DriverInfo { category, name, vendor: field(&row.provider), version: field(&row.version), date };
                    let ghost dv = driver_view(d);
                    out.push(d);
                    assert(out@.map_values(|d: DriverInfo| driver_view(d)) =~= before.push(dv));
                }
            }
        }
        i = i + 1;
    }
    assert(rows@.subrange(0, rows@.len() as int) =~= rows@);
    out
}


/// Whether the output of `powercfg /list` mentions a plan (in any case).
pub fn scheme_listed_in(list_output: &str, guid: &str) -> (b: bool)
    ensures
        b == seq_contains(lowercase_of(list_output@), lowercase_of(guid@)),
{
    let out = to_lowercase(list_output);
    let g = to_lowercase(guid);
    contains_str(out.as_str(), g.as_str())
}

/// Decimal notation of a signed number.
pub open spec fn signed_decimal(n: int) -> Seq<char> {
    if n < 0 {
        "-"@ + decimal((-n) as nat)
    } else {
        decimal(n as nat)
    }
}

/// The message of a failed `powercfg /setactive`: its error output when not
/// blank, else its standard output, trimmed; the exit code when both are
/// blank (-1 without one).
pub open spec fn setactive_failure_of(stderr: Seq<char>, stdout: Seq<char>, code: Option<i32>) -> Seq<char> {
    let raw = if trim_whitespace(stderr).len() > 0 { stderr } else { stdout };
    let t = trim_whitespace(raw);
    "powercfg /setactive falhou: "@ + if t.len() == 0 {
        "código "@ + signed_decimal(match code {
            Some(c) => c as int,
            None => -1,
        })
    } else {
        t
    }
}

/// The message of a failed `powercfg /setactive`.
pub fn setactive_failure(stderr: &str, stdout: &str, code: Option<i32>) -> (m: String)
    ensures
        m@ == setactive_failure_of(stderr@, stdout@, code),
{
    let raw = if trim(stderr).unicode_len() > 0 { stderr } else { stdout };
    let t = trim(raw);
    let mut m = owned("powercfg /setactive falhou: ");
    if t.unicode_len() == 0 {
        m.append("código ");
        let c: i32 = match code {
            Some(c) => c,
            None => -1,
        };
        if c < 0 {
            m.append("-");
            let magnitude: u64 = (0i64 - (c as i64)) as u64;
            push_decimal(&mut m, magnitude);
        } else {
            push_decimal(&mut m, c as u64);
        }
    } else {
        m.append(t);
    }
    m
}

} // verus!
