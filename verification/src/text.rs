//! Character-level helpers on strings, stated over `Seq<char>` views.

use vstd::prelude::*;

verus! {

/// Appends one character to a string.
pub assume_specification[ String::push ](s: &mut String, ch: char)
    ensures
        final(s)@ == old(s)@.push(ch),
;

/// The characters of `s`, in order.
pub fn chars_of(s: &str) -> (v: Vec<char>)
    ensures
        v@ == s@,
{
    let n = s.unicode_len();
    let mut v: Vec<char> = Vec::new();
    let mut i: usize = 0;
    while i < n
        invariant
            n == s@.len(),
            i <= n,
            v@ == s@.subrange(0, i as int),
        decreases n - i,
    {
        let c = s.get_char(i);
        v.push(c);
        i = i + 1;
    }
    v
}

/// A string holding exactly the characters of `v`.
pub fn string_from_chars(v: &[char]) -> (s: String)
    ensures
        s@ == v@,
{
    let mut s = String::new();
    let mut i: usize = 0;
    while i < v.len()
        invariant
            i <= v@.len(),
            s@ == v@.subrange(0, i as int),
        decreases v@.len() - i,
    {
        s.push(v[i]);
        i = i + 1;
    }
    s
}

/// Whether two strings hold the same characters.
pub fn str_eq(a: &str, b: &str) -> (r: bool)
    ensures
        r == (a@ == b@),
{
    let n = a.unicode_len();
    let m = b.unicode_len();
    if n != m {
        return false;
    }
    let mut i: usize = 0;
    while i < n
        invariant
            n == a@.len(),
            m == b@.len(),
            n == m,
            i <= n,
            a@.subrange(0, i as int) == b@.subrange(0, i as int),
        decreases n - i,
    {
        if a.get_char(i) != b.get_char(i) {
            assert(a@[i as int] != b@[i as int]);
            return false;
        }
        assert(a@.subrange(0, i + 1) == a@.subrange(0, i as int).push(a@[i as int]));
        assert(b@.subrange(0, i + 1) == b@.subrange(0, i as int).push(b@[i as int]));
        i = i + 1;
    }
    assert(a@ == a@.subrange(0, n as int));
    assert(b@ == b@.subrange(0, n as int));
    true
}

/// A fresh owned copy of a string slice.
pub fn owned(s: &str) -> (r: String)
    ensures
        r@ == s@,
{
    s.to_owned()
}

/// Whether no two entries of `s` are equal.
pub open spec fn all_distinct(s: Seq<Seq<char>>) -> bool {
    forall|i: int, j: int| 0 <= i < j < s.len() ==> s[i] != s[j]
}

/// Two character sequences that differ in length or in their first character
/// are different.
pub proof fn lemma_heads_differ(a: Seq<char>, b: Seq<char>)
    requires
        a.len() != b.len() || (a.len() > 0 && b.len() > 0 && a[0] != b[0]),
    ensures
        a != b,
{
}

/// The ASCII digit of a value in 0..=9.
pub open spec fn digit_char(d: nat) -> char {
    ((d + 48) as u8) as char
}

/// Decimal notation of a natural number, without leading zeros.
pub open spec fn decimal(n: nat) -> Seq<char>
    decreases n,
{
    if n < 10 {
        seq![digit_char(n)]
    } else {
        decimal(n / 10).push(digit_char(n % 10))
    }
}

/// Appends the decimal notation of `n`.
pub fn push_decimal(s: &mut String, n: u64)
    ensures
        final(s)@ == old(s)@ + decimal(n as nat),
    decreases n,
{
    if n >= 10 {
        push_decimal(s, n / 10);
    }
    let d: u8 = (n % 10) as u8;
    let c: char = (d + 48) as char;
    assert(c == digit_char((n % 10) as nat));
    s.push(c);
    proof {
        if n >= 10 {
            assert(decimal(n as nat) == decimal((n / 10) as nat).push(digit_char((n % 10) as nat)));
        }
    }
}

/// Decimal notation of `n` as a new string.
pub fn decimal_string(n: u64) -> (r: String)
    ensures
        r@ == decimal(n as nat),
{
    let mut s = String::new();
    push_decimal(&mut s, n);
    assert(Seq::<char>::empty() + decimal(n as nat) == decimal(n as nat));
    s
}

/// Concatenation of two strings into a new one.
pub fn concat2(a: &str, b: &str) -> (r: String)
    ensures
        r@ == a@ + b@,
{
    let mut s = owned(a);
    s.append(b);
    s
}

/// The lowercase hexadecimal digit of a value in 0..=15.
pub open spec fn hex_digit_char(d: nat) -> char {
    if d < 10 {
        ((d + 48) as u8) as char
    } else {
        ((d + 87) as u8) as char
    }
}

/// The last `width` hexadecimal digits of `n` (lowercase, zero-padded).
pub open spec fn hex_fixed(n: nat, width: nat) -> Seq<char>
    decreases width,
{
    if width == 0 {
        Seq::empty()
    } else {
        hex_fixed(n / 16, (width - 1) as nat).push(hex_digit_char(n % 16))
    }
}

/// Appends the last `width` hexadecimal digits of `n`, zero-padded.
pub fn push_hex_fixed(s: &mut String, n: u64, width: u32)
    ensures
        final(s)@ == old(s)@ + hex_fixed(n as nat, width as nat),
    decreases width,
{
    if width > 0 {
        push_hex_fixed(s, n / 16, width - 1);
        let d: u8 = (n % 16) as u8;
        let c: char = if d < 10 {
            (d + 48) as char
        } else {
            (d + 87) as char
        };
        assert(c == hex_digit_char((n % 16) as nat));
        s.push(c);
        assert(hex_fixed(n as nat, width as nat) == hex_fixed((n / 16) as nat, (width - 1) as nat).push(
            hex_digit_char((n % 16) as nat),
        ));
    } else {
        assert(old(s)@ + hex_fixed(n as nat, 0) =~= old(s)@);
    }
}

/// Whether `needle` occurs in `hay` as a contiguous run.
pub open spec fn seq_contains(hay: Seq<char>, needle: Seq<char>) -> bool {
    exists|i: int| 0 <= i <= hay.len() - needle.len() && #[trigger] hay.subrange(i, i + needle.len()) == needle
}

/// Whether `needle` occurs in `hay`.
pub fn contains_str(hay: &str, needle: &str) -> (b: bool)
    ensures
        b == seq_contains(hay@, needle@),
{
    let n = hay.unicode_len();
    let m = needle.unicode_len();
    if m > n {
        return false;
    }
    let last = n - m;
    let mut i: usize = 0;
    loop
        invariant
            n == hay@.len(),
            m == needle@.len(),
            m <= n,
            last == n - m,
            i <= last,
            forall|k: int| 0 <= k < i ==> #[trigger] hay@.subrange(k, k + m) != needle@,
        decreases last - i,
    {
        let mut j: usize = 0;
        let mut same = true;
        assert(hay@.subrange(i as int, i as int) =~= needle@.subrange(0, 0));
        while j < m
            invariant
                n == hay@.len(),
                m == needle@.len(),
                i + m <= n,
                j <= m,
                same == (hay@.subrange(i as int, i + j) == needle@.subrange(0, j as int)),
            decreases m - j,
        {
            if same {
                if hay.get_char(i + j) != needle.get_char(j) {
                    assert(hay@.subrange(i as int, i + j + 1)[j as int] != needle@.subrange(0, j + 1)[j as int]);
                    same = false;
                } else {
                    assert(hay@.subrange(i as int, i + j + 1) =~= hay@.subrange(i as int, i + j).push(hay@[i + j]));
                    assert(needle@.subrange(0, j + 1) =~= needle@.subrange(0, j as int).push(needle@[j as int]));
                }
            } else {
                assert(hay@.subrange(i as int, i + j + 1).subrange(0, j as int) =~= hay@.subrange(i as int, i + j));
                assert(needle@.subrange(0, j + 1).subrange(0, j as int) =~= needle@.subrange(0, j as int));
            }
            j = j + 1;
        }
        assert(needle@.subrange(0, m as int) =~= needle@);
        if same {
            return true;
        }
        if i == last {
            return false;
        }
        i = i + 1;
    }
}

/// Index of the first `c` in `s` at or after `from`, if any.
pub open spec fn find_from(s: Seq<char>, c: char, from: int) -> Option<int>
    decreases s.len() - from,
{
    if from < 0 || from >= s.len() {
        None
    } else if s[from] == c {
        Some(from)
    } else {
        find_from(s, c, from + 1)
    }
}

/// A line without its line ending: a trailing carriage return before the
/// newline is dropped.
pub open spec fn strip_cr(line: Seq<char>) -> Seq<char> {
    if line.len() > 0 && line.last() == '\r' {
        line.drop_last()
    } else {
        line
    }
}

/// The lines of `s` from position `from` on (as `str::lines`): split at
/// `\n` or `\r\n`; a final line ending is optional.
pub open spec fn lines_from(s: Seq<char>, from: int) -> Seq<Seq<char>>
    decreases s.len() - from,
{
    if from < 0 || from >= s.len() {
        Seq::empty()
    } else {
        match find_from(s, '\n', from) {
            Some(i) => if from <= i < s.len() {
                seq![strip_cr(s.subrange(from, i))] + lines_from(s, i + 1)
            } else {
                Seq::empty()
            },
            None => seq![s.subrange(from, s.len() as int)],
        }
    }
}

/// Where `find_from` lands, when it lands.
pub proof fn lemma_find_from(s: Seq<char>, c: char, from: int)
    requires
        0 <= from,
    ensures
        find_from(s, c, from) matches Some(i) ==> from <= i < s.len() && s[i] == c && forall|k: int|
            from <= k < i ==> s[k] != c,
        find_from(s, c, from) is None ==> forall|k: int| from <= k < s.len() ==> s[k] != c,
    decreases s.len() - from,
{
    if from >= 0 && from < s.len() && s[from] != c {
        lemma_find_from(s, c, from + 1);
    }
}

/// The lines of a text, as `str::lines` gives them.
pub fn split_lines(s: &str) -> (v: Vec<String>)
    ensures
        strings_of(v@) == lines_from(s@, 0),
{
    let n = s.unicode_len();
    let mut v: Vec<String> = Vec::new();
    let mut start: usize = 0;
    while start < n
        invariant
            n == s@.len(),
            start <= n,
            strings_of(v@) + lines_from(s@, start as int) == lines_from(s@, 0),
        decreases n - start,
    {
        let mut i: usize = start;
        while i < n && s.get_char(i) != '\n'
            invariant
                start <= i <= n,
                n == s@.len(),
                forall|k: int| start <= k < i ==> s@[k] != '\n',
            decreases n - i,
        {
            i = i + 1;
        }
        proof {
            lemma_find_from_first(s@, '\n', start as int, i as int);
        }
        let ghost before = v@;
        if i < n {
            let mut end = i;
            if end > start && s.get_char(end - 1) == '\r' {
                end = end - 1;
            }
            let line = s.substring_char(start, end);
            assert(line@ == strip_cr(s@.subrange(start as int, i as int))) by {
                if i > start && s@[i - 1] == '\r' {
                    assert(s@.subrange(start as int, i as int).drop_last() =~= s@.subrange(start as int, i - 1));
                }
            }
            v.push(owned(line));
            assert(strings_of(v@) =~= strings_of(before).push(line@));
            assert(lines_from(s@, start as int) == seq![line@] + lines_from(s@, i + 1));
            assert(strings_of(v@) + lines_from(s@, i + 1) =~= strings_of(before) + lines_from(s@, start as int));
            start = i + 1;
        } else {
            let line = s.substring_char(start, n);
            v.push(owned(line));
            assert(strings_of(v@) =~= strings_of(before).push(line@));
            assert(lines_from(s@, start as int) == seq![line@]);
            assert(lines_from(s@, n as int) =~= Seq::<Seq<char>>::empty());
            assert(strings_of(v@) + lines_from(s@, n as int) =~= strings_of(before) + lines_from(s@, start as int));
            start = n;
        }
    }
    assert(lines_from(s@, start as int) =~= Seq::<Seq<char>>::empty());
    assert(strings_of(v@) + Seq::<Seq<char>>::empty() =~= strings_of(v@));
    v
}

/// The first `c` at or after `from` is at `i` when nothing before `i` matches.
proof fn lemma_find_from_first(s: Seq<char>, c: char, from: int, i: int)
    requires
        0 <= from <= i <= s.len(),
        forall|k: int| from <= k < i ==> s[k] != c,
        i < s.len() ==> s[i] == c,
    ensures
        i < s.len() ==> find_from(s, c, from) == Some(i),
        i == s.len() ==> find_from(s, c, from) is None,
    decreases i - from,
{
    if from < i {
        lemma_find_from_first(s, c, from + 1, i);
    }
}

/// The characters of each string of a list.
pub open spec fn strings_of(v: Seq<String>) -> Seq<Seq<char>> {
    v.map_values(|s: String| s@)
}

/// Whether `c` has the Unicode White_Space property (`char::is_whitespace`).
pub open spec fn is_ws(c: char) -> bool {
    ('\t' <= c && c <= '\r') || c == ' ' || c == '\u{85}' || c == '\u{a0}' || c == '\u{1680}'
        || ('\u{2000}' <= c && c <= '\u{200a}') || c == '\u{2028}' || c == '\u{2029}'
        || c == '\u{202f}' || c == '\u{205f}' || c == '\u{3000}'
}

/// Whether `c` has the Unicode White_Space property.
pub fn is_whitespace(c: char) -> (b: bool)
    ensures
        b == is_ws(c),
{
    ('\t' <= c && c <= '\r') || c == ' ' || c == '\u{85}' || c == '\u{a0}' || c == '\u{1680}'
        || ('\u{2000}' <= c && c <= '\u{200a}') || c == '\u{2028}' || c == '\u{2029}'
        || c == '\u{202f}' || c == '\u{205f}' || c == '\u{3000}'
}

/// The first position at or after `i` that is not whitespace, or the end.
pub open spec fn ws_prefix_end(s: Seq<char>, i: int) -> int
    decreases s.len() - i,
{
    if i < 0 || i >= s.len() || !is_ws(s[i]) {
        i
    } else {
        ws_prefix_end(s, i + 1)
    }
}

/// The end of `s[..j]` once its trailing whitespace is dropped.
pub open spec fn ws_suffix_start(s: Seq<char>, j: int) -> int
    decreases j,
{
    if j <= 0 || j > s.len() || !is_ws(s[j - 1]) {
        j
    } else {
        ws_suffix_start(s, j - 1)
    }
}

/// The string without its leading whitespace (`str::trim_start`).
pub open spec fn trim_start_of(s: Seq<char>) -> Seq<char> {
    s.subrange(ws_prefix_end(s, 0), s.len() as int)
}

/// The string with leading and trailing whitespace removed (`str::trim`).
pub open spec fn trim_whitespace(s: Seq<char>) -> Seq<char> {
    let a = ws_prefix_end(s, 0);
    let b = ws_suffix_start(s, s.len() as int);
    if a < b {
        s.subrange(a, b)
    } else {
        Seq::<char>::empty()
    }
}

fn prefix_end(s: &str) -> (a: usize)
    ensures
        a as int == ws_prefix_end(s@, 0),
        a <= s@.len(),
{
    let n = s.unicode_len();
    let mut i: usize = 0;
    while i < n && is_whitespace(s.get_char(i))
        invariant
            n == s@.len(),
            i <= n,
            ws_prefix_end(s@, 0) == ws_prefix_end(s@, i as int),
        decreases n - i,
    {
        i = i + 1;
    }
    i
}

/// Removes leading whitespace.
pub fn trim_start(s: &str) -> (r: &str)
    ensures
        r@ == trim_start_of(s@),
{
    let a = prefix_end(s);
    s.substring_char(a, s.unicode_len())
}

/// Removes leading and trailing whitespace.
pub fn trim(s: &str) -> (r: &str)
    ensures
        r@ == trim_whitespace(s@),
{
    let n = s.unicode_len();
    let a = prefix_end(s);
    let mut j: usize = n;
    while j > 0 && is_whitespace(s.get_char(j - 1))
        invariant
            n == s@.len(),
            j <= n,
            ws_suffix_start(s@, n as int) == ws_suffix_start(s@, j as int),
        decreases j,
    {
        j = j - 1;
    }
    if a < j {
        s.substring_char(a, j)
    } else {
        let e = s.substring_char(0, 0);
        assert(e@ =~= Seq::<char>::empty());
        e
    }
}

/// The lowercase form of a string (Unicode lowercase mapping).
pub uninterp spec fn lowercase_of(s: Seq<char>) -> Seq<char>;

/// Whether every character of `s` is ASCII.
pub open spec fn all_ascii(s: Seq<char>) -> bool {
    forall|i: int| 0 <= i < s.len() ==> (#[trigger] s[i] as u32) < 128
}

/// The ASCII lowercase of a character: `A`..=`Z` become `a`..=`z`, every
/// other character stays.
pub open spec fn ascii_lower(c: char) -> char {
    if 'A' <= c && c <= 'Z' {
        ((c as u32) + 32) as char
    } else {
        c
    }
}

/// `str::to_lowercase`: the lowercase form of a string. On ASCII text the
/// Unicode lowercase mapping is the ASCII one (`A`..=`Z` to `a`..=`z`, other
/// characters kept, one character for one).
#[verifier::external_body]
pub(crate) fn to_lowercase(s: &str) -> (r: String)
    ensures
        r@ == lowercase_of(s@),
        all_ascii(s@) ==> r@ == s@.map_values(|c: char| ascii_lower(c)),
{
    s.to_lowercase()
}


// ───────────────────────── Order ─────────────────────────

/// Lexicographic order by code point from position `i` on, the order of
/// `String` (byte order of UTF-8 is code point order).
pub open spec fn lex_less_from(a: Seq<char>, b: Seq<char>, i: int) -> bool
    decreases a.len() - i,
{
    if i >= a.len() {
        i < b.len()
    } else if i >= b.len() {
        false
    } else if a[i] != b[i] {
        a[i] < b[i]
    } else {
        lex_less_from(a, b, i + 1)
    }
}

/// Lexicographic order of strings.
pub open spec fn lex_less(a: Seq<char>, b: Seq<char>) -> bool {
    lex_less_from(a, b, 0)
}

/// No string is below itself.
pub proof fn lemma_lex_irreflexive(a: Seq<char>, i: int)
    ensures
        !lex_less_from(a, a, i),
    decreases a.len() - i,
{
    if i < a.len() {
        lemma_lex_irreflexive(a, i + 1);
    }
}

/// The order is transitive.
pub proof fn lemma_lex_transitive(a: Seq<char>, b: Seq<char>, c: Seq<char>, i: int)
    requires
        lex_less_from(a, b, i),
        lex_less_from(b, c, i),
    ensures
        lex_less_from(a, c, i),
    decreases a.len() - i,
{
    if i < a.len() && i < b.len() && i < c.len() && a[i] == b[i] && b[i] == c[i] {
        lemma_lex_transitive(a, b, c, i + 1);
    }
}

/// Two strings that neither precedes agree from `i` on.
pub proof fn lemma_lex_total(a: Seq<char>, b: Seq<char>, i: int)
    requires
        0 <= i <= a.len(),
        i <= b.len(),
        !lex_less_from(a, b, i),
        !lex_less_from(b, a, i),
    ensures
        a.len() == b.len(),
        forall|k: int| i <= k < a.len() ==> a[k] == b[k],
    decreases a.len() - i,
{
    if i < a.len() && i < b.len() {
        lemma_lex_total(a, b, i + 1);
    }
}

/// Two different strings are ordered one way or the other.
pub proof fn lemma_lex_trichotomy(a: Seq<char>, b: Seq<char>)
    requires
        a != b,
    ensures
        lex_less(a, b) || lex_less(b, a),
{
    if !lex_less(a, b) && !lex_less(b, a) {
        lemma_lex_total(a, b, 0);
        assert(a =~= b);
    }
}

/// Whether `a` precedes `b`.
pub fn str_less(a: &str, b: &str) -> (r: bool)
    ensures
        r == lex_less(a@, b@),
{
    let n = a.unicode_len();
    let m = b.unicode_len();
    let mut i: usize = 0;
    loop
        invariant
            n == a@.len(),
            m == b@.len(),
            i <= n,
            i <= m,
            lex_less(a@, b@) == lex_less_from(a@, b@, i as int),
        decreases n - i,
    {
        if i >= n {
            return i < m;
        }
        if i >= m {
            return false;
        }
        let x = a.get_char(i);
        let y = b.get_char(i);
        if x != y {
            return x < y;
        }
        i = i + 1;
    }
}

/// Whether a list of strings is strictly increasing.
pub open spec fn strictly_sorted(v: Seq<Seq<char>>) -> bool {
    forall|i: int, j: int| 0 <= i < j < v.len() ==> lex_less(#[trigger] v[i], #[trigger] v[j])
}

/// Adds `s` to a strictly increasing list unless it is there already.
pub fn insert_sorted(v: &mut Vec<String>, s: &str)
    requires
        strictly_sorted(strings_of(old(v)@)),
    ensures
        strictly_sorted(strings_of(final(v)@)),
        strings_of(final(v)@).to_set() == strings_of(old(v)@).to_set().insert(s@),
{
    let ghost old_v = strings_of(v@);
    let n = v.len();
    let mut i: usize = 0;
    while i < n && str_less(v[i].as_str(), s)
        invariant
            n == v@.len(),
            i <= n,
            strings_of(v@) == old_v,
            forall|k: int| 0 <= k < i ==> lex_less(#[trigger] old_v[k], s@),
        decreases n - i,
    {
        i = i + 1;
    }
    if i < n && str_eq(v[i].as_str(), s) {
        assert(old_v.to_set().insert(s@) =~= old_v.to_set()) by {
            assert(old_v[i as int] == s@);
        }
        return;
    }
    proof {
        if i < n {
            assert(old_v[i as int] != s@);
            lemma_lex_trichotomy(old_v[i as int], s@);
        }
    }
    v.insert(i, owned(s));
    let ghost w = strings_of(v@);
    assert(w =~= old_v.insert(i as int, s@));
    assert forall|a: int, b: int| 0 <= a < b < w.len() implies lex_less(#[trigger] w[a], #[trigger] w[b]) by {
        if b < i {
            assert(w[a] == old_v[a] && w[b] == old_v[b]);
        } else if b == i {
            assert(w[a] == old_v[a]);
        } else if a < i {
            assert(w[a] == old_v[a] && w[b] == old_v[b - 1]);
            if b - 1 > a {
            } else {
                assert(false);
            }
            if b - 1 >= i {
                if b - 1 > i {
                    lemma_lex_transitive(s@, old_v[i as int], old_v[b - 1], 0);
                }
                lemma_lex_transitive(old_v[a], s@, old_v[b - 1], 0);
            }
        } else if a == i {
            assert(w[b] == old_v[b - 1]);
            if b - 1 > i {
                lemma_lex_transitive(s@, old_v[i as int], old_v[b - 1], 0);
            }
        } else {
            assert(w[a] == old_v[a - 1] && w[b] == old_v[b - 1]);
        }
    }
    assert(w.to_set() =~= old_v.to_set().insert(s@)) by {
        assert forall|x: Seq<char>| w.to_set().contains(x) implies old_v.to_set().insert(s@).contains(x) by {
            let k = choose|k: int| 0 <= k < w.len() && w[k] == x;
            if k < i {
                assert(old_v[k] == x);
            } else if k > i {
                assert(old_v[k - 1] == x);
            }
        }
        assert forall|x: Seq<char>| old_v.to_set().insert(s@).contains(x) implies w.to_set().contains(x) by {
            if x == s@ {
                assert(w[i as int] == x);
            } else {
                let k = choose|k: int| 0 <= k < old_v.len() && old_v[k] == x;
                if k < i {
                    assert(w[k] == x);
                } else {
                    assert(w[k + 1] == x);
                }
            }
        }
    }
}


// ───────────────────────── Pieces and patterns ─────────────────────────

/// Index of the first `c` in `s` at or after `from`.
pub fn find_char_from(s: &str, c: char, from: usize) -> (r: Option<usize>)
    requires
        from <= s@.len(),
    ensures
        match r {
            Some(i) => find_from(s@, c, from as int) == Some(i as int),
            None => find_from(s@, c, from as int) is None,
        },
{
    let n = s.unicode_len();
    let mut i: usize = from;
    while i < n
        invariant
            n == s@.len(),
            from <= i <= n,
            find_from(s@, c, from as int) == find_from(s@, c, i as int),
        decreases n - i,
    {
        if s.get_char(i) == c {
            return Some(i);
        }
        i = i + 1;
    }
    None
}

/// The `k`-th piece of `s[from..]` split at `c` (as `str::split`), if there
/// are that many.
pub open spec fn piece_from(s: Seq<char>, c: char, from: int, k: nat) -> Option<Seq<char>>
    decreases k,
{
    match find_from(s, c, from) {
        Some(i) => if k == 0 {
            Some(s.subrange(from, i))
        } else {
            piece_from(s, c, i + 1, (k - 1) as nat)
        },
        None => if k == 0 {
            Some(s.subrange(from, s.len() as int))
        } else {
            None
        },
    }
}

/// The `k`-th piece of `s` split at `c`, if there are that many.
pub fn nth_piece(s: &str, c: char, k: usize) -> (r: Option<String>)
    ensures
        match r {
            Some(p) => piece_from(s@, c, 0, k as nat) == Some(p@),
            None => piece_from(s@, c, 0, k as nat) is None,
        },
{
    let n = s.unicode_len();
    let mut from: usize = 0;
    let mut j: usize = 0;
    while j <= k
        invariant
            n == s@.len(),
            from <= n,
            j <= k,
            piece_from(s@, c, 0, k as nat) == piece_from(s@, c, from as int, (k - j) as nat),
        decreases k + 1 - j,
    {
        proof {
            lemma_find_from(s@, c, from as int);
        }
        match find_char_from(s, c, from) {
            Some(i) => {
                if j == k {
                    return Some(owned(s.substring_char(from, i)));
                }
                from = i + 1;
            },
            None => {
                if j == k {
                    return Some(owned(s.substring_char(from, n)));
                }
                return None;
            },
        }
        j = j + 1;
    }
    None
}

/// Whether `needle` occurs in `hay` at `i`.
pub open spec fn occurs_at(hay: Seq<char>, needle: Seq<char>, i: int) -> bool {
    0 <= i && i + needle.len() <= hay.len() && hay.subrange(i, i + needle.len()) == needle
}

/// Whether `i` is the first place where `needle` occurs in `hay`.
pub open spec fn is_first_occurrence(hay: Seq<char>, needle: Seq<char>, i: int) -> bool {
    occurs_at(hay, needle, i) && forall|k: int| 0 <= k < i ==> !#[trigger] occurs_at(hay, needle, k)
}

/// The first place where `needle` occurs in `hay` (as `str::find`).
pub open spec fn first_occurrence(hay: Seq<char>, needle: Seq<char>) -> Option<int> {
    if exists|i: int| is_first_occurrence(hay, needle, i) {
        Some(choose|i: int| is_first_occurrence(hay, needle, i))
    } else {
        None
    }
}

/// Index of the first occurrence of `needle` in `hay`.
pub fn find_str(hay: &str, needle: &str) -> (r: Option<usize>)
    ensures
        match r {
            Some(i) => first_occurrence(hay@, needle@) == Some(i as int),
            None => first_occurrence(hay@, needle@) is None,
        },
{
    let n = hay.unicode_len();
    let m = needle.unicode_len();
    if m > n {
        assert(!exists|i: int| is_first_occurrence(hay@, needle@, i));
        return None;
    }
    let mut i: usize = 0;
    loop
        invariant
            n == hay@.len(),
            m == needle@.len(),
            m <= n,
            i <= n - m,
            forall|k: int| 0 <= k < i ==> !#[trigger] occurs_at(hay@, needle@, k),
        decreases n - m - i,
    {
        if str_eq(hay.substring_char(i, i + m), needle) {
            assert(is_first_occurrence(hay@, needle@, i as int));
            assert forall|k: int| is_first_occurrence(hay@, needle@, k) implies k == i as int by {
                if k > i {
                    assert(occurs_at(hay@, needle@, i as int));
                }
            }
            return Some(i);
        }
        if i == n - m {
            assert(!occurs_at(hay@, needle@, i as int));
            assert(!exists|k: int| is_first_occurrence(hay@, needle@, k)) by {
                if exists|k: int| is_first_occurrence(hay@, needle@, k) {
                    let k = choose|k: int| is_first_occurrence(hay@, needle@, k);
                    if k < i {
                        assert(!occurs_at(hay@, needle@, k));
                    }
                }
            }
            return None;
        }
        i = i + 1;
    }
}

/// `s` with each non-overlapping pair `a b`, left to right, replaced by `c`
/// (as `str::replace` with a two-character pattern).
pub open spec fn replace_pair(s: Seq<char>, a: char, b: char, c: char) -> Seq<char>
    decreases s.len(),
{
    if s.len() < 2 {
        s
    } else if s[0] == a && s[1] == b {
        seq![c] + replace_pair(s.subrange(2, s.len() as int), a, b, c)
    } else {
        seq![s[0]] + replace_pair(s.subrange(1, s.len() as int), a, b, c)
    }
}

/// Replaces each non-overlapping pair `a b` of `s`, left to right, by `c`.
pub fn replace_pair_in(s: &str, a: char, b: char, c: char) -> (r: String)
    ensures
        r@ == replace_pair(s@, a, b, c),
{
    let n = s.unicode_len();
    let mut out = String::new();
    let mut i: usize = 0;
    assert(s@.subrange(0, n as int) =~= s@);
    assert(out@ =~= Seq::<char>::empty());
    while i < n
        invariant
            n == s@.len(),
            i <= n,
            out@ + replace_pair(s@.subrange(i as int, n as int), a, b, c) == replace_pair(s@, a, b, c),
        decreases n - i,
    {
        let ghost rest = s@.subrange(i as int, n as int);
        let x = s.get_char(i);
        if i + 1 < n && x == a && s.get_char(i + 1) == b {
            assert(rest.subrange(2, rest.len() as int) =~= s@.subrange(i + 2, n as int));
            out.push(c);
            i = i + 2;
        } else {
            assert(rest.subrange(1, rest.len() as int) =~= s@.subrange(i + 1, n as int));
            proof {
                if rest.len() < 2 {
                    assert(rest =~= seq![x]);
                    assert(s@.subrange(i + 1, n as int) =~= Seq::<char>::empty());
                }
            }
            out.push(x);
            i = i + 1;
        }
    }
    assert(s@.subrange(n as int, n as int) =~= Seq::<char>::empty());
    out
}

} // verus!
