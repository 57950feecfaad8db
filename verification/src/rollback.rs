//! Reversible actions and their snapshot records.
//!
//! Every optimization is planned as a list of `ReversibleAction`s (old state →
//! new state). Before anything changes, each action becomes a snapshot entry
//! holding the old value as JSON; rollback restores from those entries and an
//! integrity hash guards them against tampering.

use std::collections::hash_map::DefaultHasher;
use std::hash::Hasher;

use vstd::prelude::*;
use vstd::std_specs::hash::DefaultHasherAdditionalSpecFns;

use crate::contracts::{RollbackOutcome, SelfTestReport, SelfTestStep};
use crate::platform::signed_decimal;
use crate::storage::SnapshotEntryRow;
use crate::text::{concat2, decimal, hex_fixed, owned, push_decimal, push_hex_fixed, str_eq};

verus! {

/// A lowercase hexadecimal digit.
pub open spec fn hex_lower(n: u32) -> char {
    if n < 10 {
        (('0' as u32) + n) as char
    } else {
        (('a' as u32) + n - 10) as char
    }
}

/// How serde_json writes one character inside a string literal: the quote
/// and the backslash escaped, backspace, tab, line feed, form feed and
/// carriage return by their short escapes, other control characters below
/// 0x20 as `\u00XX` (lowercase hex), every other character as itself.
pub open spec fn json_char_escape(c: char) -> Seq<char> {
    if c == '"' {
        seq!['\\', '"']
    } else if c == '\\' {
        seq!['\\', '\\']
    } else if c == '\x08' {
        seq!['\\', 'b']
    } else if c == '\t' {
        seq!['\\', 't']
    } else if c == '\n' {
        seq!['\\', 'n']
    } else if c == '\x0C' {
        seq!['\\', 'f']
    } else if c == '\r' {
        seq!['\\', 'r']
    } else if (c as u32) < 0x20 {
        seq!['\\', 'u', '0', '0', hex_lower((c as u32) / 16), hex_lower((c as u32) % 16)]
    } else {
        seq![c]
    }
}

/// The escaped contents of a string literal.
pub open spec fn json_escape(s: Seq<char>) -> Seq<char>
    decreases s.len(),
{
    if s.len() == 0 {
        Seq::empty()
    } else {
        json_escape(s.drop_last()) + json_char_escape(s.last())
    }
}

/// The JSON text of a string value as `serde_json::to_string` writes it: a
/// quote, the escaped contents, a quote.
pub open spec fn json_string_literal(s: Seq<char>) -> Seq<char> {
    seq!['"'] + json_escape(s) + seq!['"']
}

/// The string that a JSON string literal denotes, if the text is one.
pub uninterp spec fn json_string_decoded(text: Seq<char>) -> Option<Seq<char>>;

/// Serializes a string as a JSON string literal (`serde_json::to_string` on a
/// `str`). Writing a `str` into serde_json's in-memory buffer cannot fail: its
/// only error path is an I/O error of the `Vec<u8>` writer. The text is the
/// quoted, escaped string (`format_escaped_str` with the compact formatter),
/// and reading it back with serde_json gives the string again.
#[verifier::external_body]
fn json_string(s: &str) -> (r: String)
    ensures
        r@ == json_string_literal(s@),
        json_string_decoded(r@) == Some(s@),
{
    serde_json::to_string(s).unwrap_or_default()
}

/// Reads a JSON string literal (`serde_json::from_str::<String>`); `None`
/// when the text is not one.
#[verifier::external_body]
fn json_string_from(text: &str) -> (r: Option<String>)
    ensures
        opt_view(r) == json_string_decoded(text@),
{
    serde_json::from_str::<String>(text).ok()
}

/// A generic reversible action captured before a mutation.
#[derive(Debug, Clone)]
pub enum ReversibleAction {
    /// HKCU string value (absent = `None`).
    RegistryHkcu { subkey: String, name: String, old: Option<String>, new: Option<String> },
    /// HKCU DWORD value (absent = `None`).
    RegistryHkcuDword { subkey: String, name: String, old: Option<u32>, new: Option<u32> },
    /// HKLM DWORD value (absent = `None`); needs elevation.
    RegistryHklmDword { subkey: String, name: String, old: Option<u32>, new: Option<u32> },
    /// HKLM string value (absent = `None`); needs elevation.
    RegistryHklmString { subkey: String, name: String, old: Option<String>, new: Option<String> },
    /// Active power plan.
    PowerPlan { old_guid: String, new_guid: String },
    /// Moves `original` to `quarantine` (reversible cleanup; never deletes).
    FileQuarantine { original: String, quarantine: String, size: u64 },
    /// Purges the standby memory list (one-shot; nothing to restore).
    MemoryStandbyFlush,
}

/// Error of the rollback service.
#[derive(Debug, Clone)]
pub enum RollbackError {
    Storage(String),
    Platform(String),
    Json(String),
    NotFound(i64),
    Integrity,
    Validation(String),
}

/// The text of a rollback error as it is shown: the registry and validation
/// errors with their prefix, the missing snapshot with its id, storage and
/// JSON errors as their own message.
pub open spec fn rollback_error_text(e: RollbackError) -> Seq<char> {
    match e {
        RollbackError::Storage(m) => m@,
        RollbackError::Platform(m) => "registro: "@ + m@,
        RollbackError::Json(m) => m@,
        RollbackError::NotFound(id) => "snapshot "@ + signed_decimal(id as int) + " não encontrado"@,
        RollbackError::Integrity => "integridade do snapshot inválida"@,
        RollbackError::Validation(m) => "validação falhou: "@ + m@,
    }
}

impl RollbackError {
    /// The text of the error as it is shown.
    pub fn message(&self) -> (m: String)
        ensures
            m@ == rollback_error_text(*self),
    {
        match self {
            RollbackError::Storage(s) => owned(s.as_str()),
            RollbackError::Platform(s) => concat2("registro: ", s.as_str()),
            RollbackError::Json(s) => owned(s.as_str()),
            RollbackError::NotFound(id) => {
                let mut m = owned("snapshot ");
                if *id < 0 {
                    m.append("-");
                    let wide: i128 = *id as i128;
                    let magnitude: u64 = (0i128 - wide) as u64;
                    push_decimal(&mut m, magnitude);
                } else {
                    push_decimal(&mut m, *id as u64);
                }
                m.append(" não encontrado");
                m
            },
            RollbackError::Integrity => owned("integridade do snapshot inválida"),
            RollbackError::Validation(s) => concat2("validação falhou: ", s.as_str()),
        }
    }
}

// ───────────────────────── Snapshot entries ─────────────────────────

/// `{"value":<v>}` for an optional string value.
pub open spec fn reg_value_json(v: Option<Seq<char>>) -> Seq<char> {
    "{\"value\":"@ + match v {
        Some(s) => json_string_literal(s),
        None => "null"@,
    } + "}"@
}

/// `{"value":<n>}` for an optional DWORD value.
pub open spec fn dword_value_json(v: Option<u32>) -> Seq<char> {
    "{\"value\":"@ + match v {
        Some(n) => decimal(n as nat),
        None => "null"@,
    } + "}"@
}

/// `{"guid":<g>}` for a power plan.
pub open spec fn power_value_json(guid: Seq<char>) -> Seq<char> {
    "{\"guid\":"@ + json_string_literal(guid) + "}"@
}

/// `{"quarantine":<q>,"size":<n>}` for a quarantined file.
pub open spec fn file_value_json(quarantine: Seq<char>, size: u64) -> Seq<char> {
    "{\"quarantine\":"@ + json_string_literal(quarantine) + ",\"size\":"@ + decimal(size as nat)
        + "}"@
}

/// The views of an optional string.
pub open spec fn opt_view(o: Option<String>) -> Option<Seq<char>> {
    match o {
        Some(s) => Some(s@),
        None => None,
    }
}

/// A snapshot entry as plain values: (type, key, old JSON, new JSON).
pub type EntryView = (Seq<char>, Seq<char>, Option<Seq<char>>, Option<Seq<char>>);

impl SnapshotEntryRow {
    pub open spec fn view(self) -> EntryView {
        (self.target_type@, self.target_key@, opt_view(self.old_value_json), opt_view(
            self.new_value_json,
        ))
    }
}

/// The snapshot entry recorded for an action.
pub open spec fn entry_of(a: ReversibleAction) -> EntryView {
    match a {
        ReversibleAction::RegistryHkcu { subkey, name, old, new } => (
            "registry"@,
            subkey@ + "\\"@ + name@,
            Some(reg_value_json(opt_view(old))),
            Some(reg_value_json(opt_view(new))),
        ),
        ReversibleAction::RegistryHkcuDword { subkey, name, old, new } => (
            "registry_dword"@,
            subkey@ + "\\"@ + name@,
            Some(dword_value_json(old)),
            Some(dword_value_json(new)),
        ),
        ReversibleAction::RegistryHklmDword { subkey, name, old, new } => (
            "registry_hklm_dword"@,
            subkey@ + "\\"@ + name@,
            Some(dword_value_json(old)),
            Some(dword_value_json(new)),
        ),
        ReversibleAction::RegistryHklmString { subkey, name, old, new } => (
            "registry_hklm"@,
            subkey@ + "\\"@ + name@,
            Some(reg_value_json(opt_view(old))),
            Some(reg_value_json(opt_view(new))),
        ),
        ReversibleAction::PowerPlan { old_guid, new_guid } => (
            "power"@,
            "active_scheme"@,
            Some(power_value_json(old_guid@)),
            Some(power_value_json(new_guid@)),
        ),
        ReversibleAction::FileQuarantine { original, quarantine, size } => (
            "file"@,
            original@,
            Some(file_value_json(quarantine@, size)),
            None,
        ),
        ReversibleAction::MemoryStandbyFlush => ("memory"@, "standby_list"@, None, None),
    }
}

fn reg_json(v: &Option<String>) -> (r: String)
    ensures
        r@ == reg_value_json(opt_view(*v)),
        reg_value_exact(r@) == Some(opt_view(*v)),
{
    proof {
        reveal_strlit("{\"value\":");
        reveal_strlit("null");
        reveal_strlit("}");
        reveal_strlit("{\"value\":null}");
    }
    let mut s = owned("{\"value\":");
    match v {
        Some(x) => {
            let lit = json_string(x.as_str());
            s.append(lit.as_str());
            s.append("}");
            proof {
                let p = "{\"value\":"@;
                assert(s@ == p + lit@ + "}"@);
                assert(s@[9] == lit@[0]);
                assert(s@ != "{\"value\":null}"@);
                assert(s@.subrange(0, 9) =~= p);
                assert(between(s@, p) =~= lit@);
            }
        },
        None => {
            s.append("null");
            s.append("}");
            assert(s@ =~= "{\"value\":null}"@);
        },
    }
    s
}

fn dword_json(v: Option<u32>) -> (r: String)
    ensures
        r@ == dword_value_json(v),
        dword_value_exact(r@) == Some(v),
{
    proof {
        reveal_strlit("{\"value\":");
        reveal_strlit("null");
        reveal_strlit("}");
        reveal_strlit("{\"value\":null}");
    }
    let mut s = owned("{\"value\":");
    match v {
        Some(n) => {
            push_decimal(&mut s, n as u64);
            s.append("}");
            proof {
                let p = "{\"value\":"@;
                let d = decimal(n as nat);
                lemma_decimal_digits(n as nat);
                assert(s@ == p + d + "}"@);
                assert(s@[9] == d[0]);
                assert(s@ != "{\"value\":null}"@);
                assert(s@.subrange(0, 9) =~= p);
                assert(between(s@, p) =~= d);
            }
        },
        None => {
            s.append("null");
            s.append("}");
            assert(s@ =~= "{\"value\":null}"@);
        },
    }
    s
}

/// A digit character stands for its own value.
proof fn lemma_digit_char_value(k: nat)
    requires
        k < 10,
    ensures
        '0' <= crate::text::digit_char(k) && crate::text::digit_char(k) <= '9',
        (crate::text::digit_char(k) as u32) - 48 == k,
{
    let b: u8 = (k + 48) as u8;
    assert(b == k + 48);
    assert((b as char) as u32 == b);
}

/// The decimal notation of `n` is a non-empty run of digits worth `n`.
pub proof fn lemma_decimal_digits(n: nat)
    ensures
        decimal(n).len() > 0,
        crate::platform::all_digits(decimal(n)),
        crate::platform::digits_value(decimal(n)) == n,
    decreases n,
{
    if n >= 10 {
        lemma_decimal_digits(n / 10);
        lemma_digit_char_value(n % 10);
        let d = decimal(n / 10);
        let full = decimal(n);
        assert(full == d.push(crate::text::digit_char(n % 10)));
        assert(full.drop_last() =~= d);
        assert(full.last() == crate::text::digit_char(n % 10));
        assert(crate::platform::digits_value(full) == crate::platform::digits_value(d) * 10 + (n % 10));
        assert(n == (n / 10) * 10 + n % 10);
        assert forall|i: int| 0 <= i < full.len() implies '0' <= #[trigger] full[i] && full[i] <= '9' by {
            if i < d.len() {
                assert(full[i] == d[i]);
            }
        }
    } else {
        lemma_digit_char_value(n);
        let full = decimal(n);
        assert(full.drop_last() =~= Seq::<char>::empty());
        assert(crate::platform::digits_value(full.drop_last()) == 0);
    }
}

fn power_json(guid: &str) -> (r: String)
    ensures
        r@ == power_value_json(guid@),
        power_value_exact(r@) == Some(guid@),
{
    proof {
        reveal_strlit("{\"guid\":");
        reveal_strlit("}");
    }
    let mut s = owned("{\"guid\":");
    let lit = json_string(guid);
    s.append(lit.as_str());
    s.append("}");
    proof {
        let p = "{\"guid\":"@;
        assert(s@ == p + lit@ + "}"@);
        assert(s@.subrange(0, 8) =~= p);
        assert(between(s@, p) =~= lit@);
    }
    s
}

/// After a JSON string, the key and a run of digits, the key occurs last
/// right after the string.
proof fn lemma_last_size_key_after(lit: Seq<char>, d: Seq<char>)
    requires
        crate::platform::all_digits(d),
    ensures
        is_last_size_key(lit + ",\"size\":"@ + d, lit.len() as int),
{
    reveal_strlit(",\"size\":");
    let key = ",\"size\":"@;
    let rest = lit + key + d;
    let l = lit.len() as int;
    assert(rest.subrange(l, l + 8) =~= key);
    assert forall|j: int| l < j implies !#[trigger] size_key_at(rest, j) by {
        if size_key_at(rest, j) {
            assert(rest.subrange(j, j + 8)[0] == key[0]);
            if j < l + 8 {
                assert(rest[j] == key[j - l]);
            } else {
                assert(rest[j] == d[j - l - 8]);
            }
        }
    }
}

/// A recorded quarantine reads back as the path whose JSON string it holds.
proof fn lemma_file_value_round_trip(lit: Seq<char>, q: Seq<char>, size: nat)
    requires
        json_string_decoded(lit) == Some(q),
    ensures
        file_value_exact("{\"quarantine\":"@ + lit + ",\"size\":"@ + decimal(size) + "}"@) == Some(q),
{
    reveal_strlit("{\"quarantine\":");
    reveal_strlit("}");
    let p = "{\"quarantine\":"@;
    let key = ",\"size\":"@;
    let d = decimal(size);
    lemma_decimal_digits(size);
    lemma_last_size_key_after(lit, d);
    let rest = lit + key + d;
    let s = p + lit + key + d + "}"@;
    let l = lit.len() as int;
    assert(s =~= p + rest + "}"@);
    assert(s.subrange(0, 14) =~= p);
    assert(between(s, p) =~= rest);
    assert forall|k2: int| is_last_size_key(rest, k2) implies k2 == l by {
        lemma_last_size_key_unique(rest, l, k2);
    }
    assert(rest.len() == l + 8 + d.len()) by {
        assert(key.len() == 8) by { reveal_strlit(",\"size\":"); }
    }
    assert(rest.subrange(l + 8, rest.len() as int) =~= d) by {
        assert(key.len() == 8) by { reveal_strlit(",\"size\":"); }
    }
    assert(rest.subrange(0, l) =~= lit);
}

fn file_json(quarantine: &str, size: u64) -> (r: String)
    ensures
        r@ == file_value_json(quarantine@, size),
        file_value_exact(r@) == Some(quarantine@),
{
    let mut s = owned("{\"quarantine\":");
    let lit = json_string(quarantine);
    s.append(lit.as_str());
    s.append(",\"size\":");
    push_decimal(&mut s, size);
    s.append("}");
    proof {
        lemma_file_value_round_trip(lit@, quarantine@, size as nat);
    }
    s
}

fn key_of(subkey: &str, name: &str) -> (r: String)
    ensures
        r@ == subkey@ + "\\"@ + name@,
{
    let mut s = owned(subkey);
    s.append("\\");
    s.append(name);
    s
}

/// Whether the old value recorded for an action reads back as that value.
pub open spec fn old_recoverable(a: ReversibleAction) -> bool {
    match a {
        ReversibleAction::RegistryHkcu { old, .. } => reg_value_exact(reg_value_json(opt_view(old)))
            == Some(opt_view(old)),
        ReversibleAction::RegistryHklmString { old, .. } => reg_value_exact(
            reg_value_json(opt_view(old)),
        ) == Some(opt_view(old)),
        ReversibleAction::RegistryHkcuDword { old, .. } => dword_value_exact(dword_value_json(old))
            == Some(old),
        ReversibleAction::RegistryHklmDword { old, .. } => dword_value_exact(dword_value_json(old))
            == Some(old),
        ReversibleAction::PowerPlan { old_guid, .. } => power_value_exact(power_value_json(old_guid@))
            == Some(old_guid@),
        ReversibleAction::FileQuarantine { quarantine, size, .. } => file_value_exact(
            file_value_json(quarantine@, size),
        ) == Some(quarantine@),
        _ => true,
    }
}

/// The snapshot entry that records an action: its target and its old and new
/// values as JSON.
pub fn action_to_entry(a: &ReversibleAction) -> (e: SnapshotEntryRow)
    ensures
        e.view() == entry_of(*a),
        old_recoverable(*a),
{
    match a {
        ReversibleAction::RegistryHkcu { subkey, name, old, new } => SnapshotEntryRow {
            target_type: owned("registry"),
            target_key: key_of(subkey.as_str(), name.as_str()),
            old_value_json: Some(reg_json(old)),
            new_value_json: Some(reg_json(new)),
        },
        ReversibleAction::RegistryHkcuDword { subkey, name, old, new } => SnapshotEntryRow {
            target_type: owned("registry_dword"),
            target_key: key_of(subkey.as_str(), name.as_str()),
            old_value_json: Some(dword_json(*old)),
            new_value_json: Some(dword_json(*new)),
        },
        ReversibleAction::RegistryHklmDword { subkey, name, old, new } => SnapshotEntryRow {
            target_type: owned("registry_hklm_dword"),
            target_key: key_of(subkey.as_str(), name.as_str()),
            old_value_json: Some(dword_json(*old)),
            new_value_json: Some(dword_json(*new)),
        },
        ReversibleAction::RegistryHklmString { subkey, name, old, new } => SnapshotEntryRow {
            target_type: owned("registry_hklm"),
            target_key: key_of(subkey.as_str(), name.as_str()),
            old_value_json: Some(reg_json(old)),
            new_value_json: Some(reg_json(new)),
        },
        ReversibleAction::PowerPlan { old_guid, new_guid } => SnapshotEntryRow {
            target_type: owned("power"),
            target_key: owned("active_scheme"),
            old_value_json: Some(power_json(old_guid.as_str())),
            new_value_json: Some(power_json(new_guid.as_str())),
        },
        ReversibleAction::FileQuarantine { original, quarantine, size } => SnapshotEntryRow {
            target_type: owned("file"),
            target_key: owned(original.as_str()),
            old_value_json: Some(file_json(quarantine.as_str(), *size)),
            new_value_json: None,
        },
        ReversibleAction::MemoryStandbyFlush => SnapshotEntryRow {
            target_type: owned("memory"),
            target_key: owned("standby_list"),
            old_value_json: None,
            new_value_json: None,
        },
    }
}

/// The snapshot entries of a list of actions, in order.
pub fn actions_to_entries(actions: &[ReversibleAction]) -> (es: Vec<SnapshotEntryRow>)
    ensures
        es@.len() == actions@.len(),
        forall|i: int| 0 <= i < actions@.len() ==> #[trigger] es@[i].view() == entry_of(actions@[i]),
{
    let mut es: Vec<SnapshotEntryRow> = Vec::new();
    let mut i: usize = 0;
    while i < actions.len()
        invariant
            i <= actions@.len(),
            es@.len() == i,
            forall|k: int| 0 <= k < i ==> #[trigger] es@[k].view() == entry_of(actions@[k]),
        decreases actions@.len() - i,
    {
        es.push(action_to_entry(&actions[i]));
        i = i + 1;
    }
    es
}


// ───────────────────────── Integrity ─────────────────────────

/// The bytes hashed for one entry: its key, then its old value (the
/// encoding of `Hash` for `String` and `Option<String>`).
pub open spec fn entry_writes(key: Seq<char>, old: Option<Seq<char>>) -> Seq<Seq<u8>> {
    seq![vstd::utf8::encode_utf8(key), seq![0xffu8]] + match old {
        None => seq![seq![0u8, 0u8, 0u8, 0u8, 0u8, 0u8, 0u8, 0u8]],
        Some(v) => seq![
            seq![1u8, 0u8, 0u8, 0u8, 0u8, 0u8, 0u8, 0u8],
            vstd::utf8::encode_utf8(v),
            seq![0xffu8],
        ],
    }
}

/// The writes made to the hasher for a list of entries.
pub open spec fn integrity_writes(es: Seq<SnapshotEntryRow>) -> Seq<Seq<u8>>
    decreases es.len(),
{
    if es.len() == 0 {
        Seq::empty()
    } else {
        integrity_writes(es.drop_last()) + entry_writes(
            es.last().target_key@,
            opt_view(es.last().old_value_json),
        )
    }
}

/// The integrity hash of a list of entries: 16 lowercase hex digits of the
/// hash of every (target key, old value) pair.
pub open spec fn integrity_of(es: Seq<SnapshotEntryRow>) -> Seq<char> {
    hex_fixed(DefaultHasher::spec_finish(integrity_writes(es)) as nat, 16)
}

/// Deterministic integrity hash over (target key, old value JSON) of each
/// entry. `DefaultHasher::new()` uses fixed keys, so the hash is stable for a
/// given build.
pub fn integrity(entries: &[SnapshotEntryRow]) -> (h: String)
    ensures
        h@ == integrity_of(entries@),
{
    let mut hasher = DefaultHasher::new();
    let mut i: usize = 0;
    while i < entries.len()
        invariant
            i <= entries@.len(),
            hasher@ == integrity_writes(entries@.subrange(0, i as int)),
        decreases entries@.len() - i,
    {
        let e = &entries[i];
        let ghost before = hasher@;
        let end_mark: [u8; 1] = [0xffu8];
        let none_tag: [u8; 8] = [0u8, 0u8, 0u8, 0u8, 0u8, 0u8, 0u8, 0u8];
        let some_tag: [u8; 8] = [1u8, 0u8, 0u8, 0u8, 0u8, 0u8, 0u8, 0u8];
        assert(end_mark@ == seq![0xffu8]);
        assert(none_tag@ == seq![0u8, 0u8, 0u8, 0u8, 0u8, 0u8, 0u8, 0u8]);
        assert(some_tag@ == seq![1u8, 0u8, 0u8, 0u8, 0u8, 0u8, 0u8, 0u8]);
        hasher.write(e.target_key.as_str().as_bytes());
        hasher.write(end_mark.as_slice());
        match &e.old_value_json {
            None => {
                hasher.write(none_tag.as_slice());
            },
            Some(v) => {
                hasher.write(some_tag.as_slice());
                hasher.write(v.as_str().as_bytes());
                hasher.write(end_mark.as_slice());
            },
        }
        assert(entries@.subrange(0, i + 1).drop_last() =~= entries@.subrange(0, i as int));
        assert(hasher@ =~= before + entry_writes(e.target_key@, opt_view(e.old_value_json)));
        i = i + 1;
    }
    assert(entries@.subrange(0, entries@.len() as int) =~= entries@);
    let v = hasher.finish();
    let mut s = String::new();
    push_hex_fixed(&mut s, v, 16);
    assert(Seq::<char>::empty() + hex_fixed(v as nat, 16) =~= hex_fixed(v as nat, 16));
    s
}

/// Entries that agree on keys and old values make the same hasher writes.
proof fn lemma_writes_agree(a: Seq<SnapshotEntryRow>, b: Seq<SnapshotEntryRow>)
    requires
        a.len() == b.len(),
        forall|i: int|
            0 <= i < a.len() ==> (#[trigger] a[i]).target_key@ == b[i].target_key@ && opt_view(
                a[i].old_value_json,
            ) == opt_view(b[i].old_value_json),
    ensures
        integrity_writes(a) == integrity_writes(b),
    decreases a.len(),
{
    if a.len() > 0 {
        assert(a[a.len() - 1].target_key@ == b[b.len() - 1].target_key@);
        lemma_writes_agree(a.drop_last(), b.drop_last());
    }
}

/// The integrity hash depends only on the target keys and old values: entries
/// that agree on those hash alike, whatever their types and new values.
pub proof fn lemma_integrity_ignores_type_and_new_value(a: Seq<SnapshotEntryRow>, b: Seq<
    SnapshotEntryRow,
>)
    requires
        a.len() == b.len(),
        forall|i: int|
            0 <= i < a.len() ==> (#[trigger] a[i]).target_key@ == b[i].target_key@ && opt_view(
                a[i].old_value_json,
            ) == opt_view(b[i].old_value_json),
    ensures
        integrity_of(a) == integrity_of(b),
{
    lemma_writes_agree(a, b);
}


// ───────────────────────── Verification ─────────────────────────

/// What was read back from the system for one action after applying it.
#[derive(Debug)]
pub enum Observation {
    /// A string registry value (absent = `None`), or the read error.
    Text(Result<Option<String>, String>),
    /// A DWORD registry value (absent = `None`), or the read error.
    Dword(Result<Option<u32>, String>),
    /// The active power plan, when it could be read.
    ActiveScheme(Option<String>),
    /// Nothing is read back (files, memory purge).
    Nothing,
}

/// Whether an observation is the kind of reading an action needs.
pub open spec fn observes(a: ReversibleAction, o: Observation) -> bool {
    match a {
        ReversibleAction::RegistryHkcu { .. } => o is Text,
        ReversibleAction::RegistryHklmString { .. } => o is Text,
        ReversibleAction::RegistryHkcuDword { .. } => o is Dword,
        ReversibleAction::RegistryHklmDword { .. } => o is Dword,
        ReversibleAction::PowerPlan { .. } => o is ActiveScheme,
        ReversibleAction::FileQuarantine { .. } => o is Nothing,
        ReversibleAction::MemoryStandbyFlush => o is Nothing,
    }
}

/// Whether one action's new state is in effect, or the read error.
pub open spec fn check_of(a: ReversibleAction, o: Observation) -> Result<bool, Seq<char>> {
    match (a, o) {
        (ReversibleAction::RegistryHkcu { new, .. }, Observation::Text(r)) => match r {
            Ok(v) => Ok(opt_view(v) == opt_view(new)),
            Err(e) => Err(e@),
        },
        (ReversibleAction::RegistryHklmString { new, .. }, Observation::Text(r)) => match r {
            Ok(v) => Ok(opt_view(v) == opt_view(new)),
            Err(e) => Err(e@),
        },
        (ReversibleAction::RegistryHkcuDword { new, .. }, Observation::Dword(r)) => match r {
            Ok(v) => Ok(v == new),
            Err(e) => Err(e@),
        },
        (ReversibleAction::RegistryHklmDword { new, .. }, Observation::Dword(r)) => match r {
            Ok(v) => Ok(v == new),
            Err(e) => Err(e@),
        },
        (ReversibleAction::PowerPlan { new_guid, .. }, Observation::ActiveScheme(g)) => Ok(
            opt_view(g) == Some(new_guid@),
        ),
        _ => Ok(true),
    }
}

/// Outcome of verifying the actions from index `i` on: the first read error,
/// else false at the first action not in effect, else true.
pub open spec fn verify_from(
    actions: Seq<ReversibleAction>,
    obs: Seq<Observation>,
    i: int,
) -> Result<bool, Seq<char>>
    decreases actions.len() - i,
{
    if i < 0 || i >= actions.len() {
        Ok(true)
    } else {
        match check_of(actions[i], obs[i]) {
            Err(e) => Err(e),
            Ok(false) => Ok(false),
            Ok(true) => verify_from(actions, obs, i + 1),
        }
    }
}

fn opt_string_eq(a: &Option<String>, b: &Option<String>) -> (r: bool)
    ensures
        r == (opt_view(*a) == opt_view(*b)),
{
    match (a, b) {
        (Some(x), Some(y)) => str_eq(x.as_str(), y.as_str()),
        (None, None) => true,
        _ => false,
    }
}

fn check_one(a: &ReversibleAction, o: &Observation) -> (r: Result<bool, String>)
    ensures
        match (r, check_of(*a, *o)) {
            (Ok(x), Ok(y)) => x == y,
            (Err(x), Err(y)) => x@ == y,
            _ => false,
        },
{
    match (a, o) {
        (ReversibleAction::RegistryHkcu { new, .. }, Observation::Text(r)) => match r {
            Ok(v) => Ok(opt_string_eq(v, new)),
            Err(e) => Err(owned(e.as_str())),
        },
        (ReversibleAction::RegistryHklmString { new, .. }, Observation::Text(r)) => match r {
            Ok(v) => Ok(opt_string_eq(v, new)),
            Err(e) => Err(owned(e.as_str())),
        },
        (ReversibleAction::RegistryHkcuDword { new, .. }, Observation::Dword(r)) => match r {
            Ok(v) => Ok(*v == *new),
            Err(e) => Err(owned(e.as_str())),
        },
        (ReversibleAction::RegistryHklmDword { new, .. }, Observation::Dword(r)) => match r {
            Ok(v) => Ok(*v == *new),
            Err(e) => Err(owned(e.as_str())),
        },
        (ReversibleAction::PowerPlan { new_guid, .. }, Observation::ActiveScheme(g)) => match g {
            Some(x) => Ok(str_eq(x.as_str(), new_guid.as_str())),
            None => Ok(false),
        },
        _ => Ok(true),
    }
}

/// Checks that the NEW state of each action is in effect, from what was read
/// back for it. A read error aborts; files and memory purges are not checked.
pub fn verify_actions(actions: &[ReversibleAction], observed: &[Observation]) -> (r: Result<
    bool,
    RollbackError,
>)
    requires
        observed@.len() == actions@.len(),
        forall|i: int| 0 <= i < actions@.len() ==> observes(actions@[i], #[trigger] observed@[i]),
    ensures
        match (r, verify_from(actions@, observed@, 0)) {
            (Ok(x), Ok(y)) => x == y,
            (Err(RollbackError::Platform(x)), Err(y)) => x@ == y,
            _ => false,
        },
{
    let mut i: usize = 0;
    while i < actions.len()
        invariant
            i <= actions@.len(),
            observed@.len() == actions@.len(),
            verify_from(actions@, observed@, 0) == verify_from(actions@, observed@, i as int),
        decreases actions@.len() - i,
    {
        match check_one(&actions[i], &observed[i]) {
            Err(e) => {
                return Err(RollbackError::Platform(e));
            },
            Ok(false) => {
                return Ok(false);
            },
            Ok(true) => {},
        }
        i = i + 1;
    }
    Ok(true)
}


/// What verifying one action checks: a registry value read back is in
/// effect exactly when it equals the action's new value (`None` = absent),
/// whatever the old value; the active plan is in effect exactly when it is the
/// action's new plan; a failed registry read is reported as that error.
pub proof fn lemma_check_compares_with_new(a: ReversibleAction, o: Observation)
    requires
        observes(a, o),
    ensures
        o matches Observation::Dword(Ok(v)) ==> (a is RegistryHkcuDword ==> check_of(a, o) == Ok::<bool, Seq<char>>(
            v == a->RegistryHkcuDword_new,
        )),
        o matches Observation::Dword(Ok(v)) ==> (a is RegistryHklmDword ==> check_of(a, o) == Ok::<bool, Seq<char>>(
            v == a->RegistryHklmDword_new,
        )),
        o matches Observation::Text(Ok(v)) ==> (a is RegistryHkcu ==> check_of(a, o) == Ok::<bool, Seq<char>>(
            opt_view(v) == opt_view(a->RegistryHkcu_new),
        )),
        o matches Observation::Text(Ok(v)) ==> (a is RegistryHklmString ==> check_of(a, o) == Ok::<bool, Seq<char>>(
            opt_view(v) == opt_view(a->RegistryHklmString_new),
        )),
        o matches Observation::ActiveScheme(g) ==> (a is PowerPlan ==> check_of(a, o) == Ok::<bool, Seq<char>>(
            opt_view(g) == Some(a->new_guid@),
        )),
        o matches Observation::Dword(Err(e)) ==> check_of(a, o) == Err::<bool, Seq<char>>(e@),
        o matches Observation::Text(Err(e)) ==> check_of(a, o) == Err::<bool, Seq<char>>(e@),
        o is Nothing ==> check_of(a, o) == Ok::<bool, Seq<char>>(true),
{
    match (a, o) {
        (ReversibleAction::RegistryHkcuDword { new, .. }, Observation::Dword(Ok(v))) => {
            assert(check_of(a, o) == Ok::<bool, Seq<char>>(v == new));
        },
        (ReversibleAction::RegistryHklmDword { new, .. }, Observation::Dword(Ok(v))) => {
            assert(check_of(a, o) == Ok::<bool, Seq<char>>(v == new));
        },
        _ => {},
    }
}

/// A single action whose value reads back different from its new value makes
/// verification report `Ok(false)`; reading back the new value reports
/// `Ok(true)`.
pub proof fn lemma_single_dword_verification(a: ReversibleAction, v: Option<u32>)
    requires
        a is RegistryHkcuDword || a is RegistryHklmDword,
    ensures
        ({
            let new = match a {
                ReversibleAction::RegistryHkcuDword { new, .. } => new,
                ReversibleAction::RegistryHklmDword { new, .. } => new,
                _ => None,
            };
            verify_from(seq![a], seq![Observation::Dword(Ok(v))], 0) == Ok::<bool, Seq<char>>(v == new)
        }),
{
    assert(verify_from(seq![a], seq![Observation::Dword(Ok(v))], 1) == Ok::<bool, Seq<char>>(true));
}

/// Verifying from index `i` on succeeds exactly when the new state of every
/// action from `i` on is in effect.
proof fn lemma_verify_from_all(actions: Seq<ReversibleAction>, obs: Seq<Observation>, i: int)
    requires
        0 <= i <= actions.len(),
        obs.len() == actions.len(),
    ensures
        verify_from(actions, obs, i) == Ok::<bool, Seq<char>>(true) <==> forall|j: int|
            i <= j < actions.len() ==> check_of(actions[j], obs[j]) == Ok::<bool, Seq<char>>(true),
    decreases actions.len() - i,
{
    if i < actions.len() {
        lemma_verify_from_all(actions, obs, i + 1);
    }
}

/// Verification reports `Ok(true)` exactly when every action's new state is
/// in effect: every registry value reads back as its new value (`None` =
/// absent), every power-plan action's new plan is the active one; files and
/// memory purges are not checked.
pub proof fn lemma_verify_all_in_effect(actions: Seq<ReversibleAction>, obs: Seq<Observation>)
    requires
        obs.len() == actions.len(),
    ensures
        verify_from(actions, obs, 0) == Ok::<bool, Seq<char>>(true) <==> forall|j: int|
            0 <= j < actions.len() ==> check_of(actions[j], obs[j]) == Ok::<bool, Seq<char>>(true),
{
    lemma_verify_from_all(actions, obs, 0);
}

/// Whether an observation reads back exactly what a step wrote.
pub open spec fn reads_back(s: ApplyStep, o: Observation) -> bool {
    match s {
        ApplyStep::RegistryText { value, .. } => o matches Observation::Text(Ok(v)) && opt_view(v) == opt_view(value),
        ApplyStep::RegistryDword { value, .. } => o matches Observation::Dword(Ok(v)) && v == value,
        ApplyStep::PowerPlan { guid } => o matches Observation::ActiveScheme(Some(g)) && g@ == guid@,
        ApplyStep::Quarantine { .. } => o is Nothing,
        ApplyStep::FlushStandby => o is Nothing,
    }
}

/// After the actions were applied, when nothing else has written the values
/// since (every reading gives back what its step wrote), verification
/// reports `Ok(true)`.
pub proof fn lemma_applied_actions_verify(
    actions: Seq<ReversibleAction>,
    steps: Seq<ApplyStep>,
    obs: Seq<Observation>,
)
    requires
        steps.len() == actions.len(),
        obs.len() == actions.len(),
        forall|j: int| 0 <= j < actions.len() ==> apply_ok(actions[j], #[trigger] steps[j]),
        forall|j: int| 0 <= j < actions.len() ==> reads_back(steps[j], #[trigger] obs[j]),
    ensures
        forall|j: int| 0 <= j < actions.len() ==> observes(actions[j], #[trigger] obs[j]),
        verify_from(actions, obs, 0) == Ok::<bool, Seq<char>>(true),
{
    assert forall|j: int| 0 <= j < actions.len() implies check_of(actions[j], obs[j]) == Ok::<bool, Seq<char>>(true)
        && observes(actions[j], obs[j]) by {
        assert(apply_ok(actions[j], steps[j]));
        assert(reads_back(steps[j], obs[j]));
    }
    lemma_verify_all_in_effect(actions, obs);
}

// ───────────────────────── Restoration ─────────────────────────

/// What a rollback writes back for one snapshot entry.
#[derive(Debug)]
pub enum RestoreStep {
    /// Write (or delete, for `None`) a string value under HKCU or HKLM.
    RegistryText { hklm: bool, subkey: String, name: String, value: Option<String> },
    /// Write (or delete, for `None`) a DWORD value under HKCU or HKLM.
    RegistryDword { hklm: bool, subkey: String, name: String, value: Option<u32> },
    /// Make the plan active again.
    PowerPlan { guid: String },
    /// Move the file back from quarantine to its original place.
    File { quarantine: String, original: String },
    /// Nothing to restore (a one-shot action, or an unknown entry type).
    Nothing,
}

/// Whether `s` starts with `p`.
pub open spec fn has_prefix(s: Seq<char>, p: Seq<char>) -> bool {
    p.len() <= s.len() && s.subrange(0, p.len() as int) == p
}

/// The text between a known prefix and a final `}`.
pub open spec fn between(s: Seq<char>, p: Seq<char>) -> Seq<char> {
    s.subrange(p.len() as int, s.len() - 1)
}

/// Whether `s` is `p`, something, and a final `}`.
pub open spec fn framed(s: Seq<char>, p: Seq<char>) -> bool {
    has_prefix(s, p) && s.len() > p.len() && s.last() == '}'
}

/// The old string value recorded as `{"value":...}`.
pub open spec fn reg_value_exact(json: Seq<char>) -> Option<Option<Seq<char>>> {
    if json == "{\"value\":null}"@ {
        Some(None)
    } else if framed(json, "{\"value\":"@) {
        match json_string_decoded(between(json, "{\"value\":"@)) {
            Some(v) => Some(Some(v)),
            None => None,
        }
    } else {
        None
    }
}

/// A `u32` written in plain decimal digits.
pub open spec fn plain_u32(s: Seq<char>) -> Option<u32> {
    if s.len() > 0 && '0' <= s[0] && s[0] <= '9' {
        crate::platform::parse_u32_spec(s)
    } else {
        None
    }
}

/// The old DWORD value recorded as `{"value":...}`.
pub open spec fn dword_value_exact(json: Seq<char>) -> Option<Option<u32>> {
    if json == "{\"value\":null}"@ {
        Some(None)
    } else if framed(json, "{\"value\":"@) {
        match plain_u32(between(json, "{\"value\":"@)) {
            Some(n) => Some(Some(n)),
            None => None,
        }
    } else {
        None
    }
}

/// The plan recorded as `{"guid":...}`.
pub open spec fn power_value_exact(json: Seq<char>) -> Option<Seq<char>> {
    if framed(json, "{\"guid\":"@) {
        json_string_decoded(between(json, "{\"guid\":"@))
    } else {
        None
    }
}

/// Whether a character is JSON whitespace.
pub open spec fn is_json_ws(c: char) -> bool {
    c == ' ' || c == '\t' || c == '\n' || c == '\r'
}

/// The JSON text `s` without the whitespace between its tokens: whitespace
/// inside string literals (after an opening quote, up to the closing quote
/// that no backslash escapes) is kept. `in_str` and `esc` say whether `s`
/// starts inside a string literal, right after a backslash.
pub open spec fn compact_from(s: Seq<char>, in_str: bool, esc: bool) -> Seq<char>
    decreases s.len(),
{
    if s.len() == 0 {
        Seq::empty()
    } else {
        let c = s[0];
        let rest = s.subrange(1, s.len() as int);
        if in_str {
            if esc {
                seq![c] + compact_from(rest, true, false)
            } else if c == '\\' {
                seq![c] + compact_from(rest, true, true)
            } else if c == '"' {
                seq![c] + compact_from(rest, false, false)
            } else {
                seq![c] + compact_from(rest, true, false)
            }
        } else if is_json_ws(c) {
            compact_from(rest, false, false)
        } else if c == '"' {
            seq![c] + compact_from(rest, true, false)
        } else {
            seq![c] + compact_from(rest, false, false)
        }
    }
}

/// The JSON text without the whitespace between its tokens.
pub open spec fn compact_json(s: Seq<char>) -> Seq<char> {
    compact_from(s, false, false)
}

/// The old string value recorded as `{"value":...}`, with or without
/// whitespace between the tokens.
pub open spec fn reg_value_of(json: Seq<char>) -> Option<Option<Seq<char>>> {
    match reg_value_exact(json) {
        Some(v) => Some(v),
        None => reg_value_exact(compact_json(json)),
    }
}

/// The old DWORD value recorded as `{"value":...}`, with or without
/// whitespace between the tokens.
pub open spec fn dword_value_of(json: Seq<char>) -> Option<Option<u32>> {
    match dword_value_exact(json) {
        Some(v) => Some(v),
        None => dword_value_exact(compact_json(json)),
    }
}

/// The plan recorded as `{"guid":...}`, with or without whitespace between
/// the tokens.
pub open spec fn power_value_of(json: Seq<char>) -> Option<Seq<char>> {
    match power_value_exact(json) {
        Some(v) => Some(v),
        None => power_value_exact(compact_json(json)),
    }
}

/// The quarantine path recorded as `{"quarantine":...,"size":...}`, with or
/// without whitespace between the tokens.
pub open spec fn file_value_of(json: Seq<char>) -> Option<Seq<char>> {
    match file_value_exact(json) {
        Some(v) => Some(v),
        None => file_value_exact(compact_json(json)),
    }
}

/// One step of `compact_from` at position `i` of `s`.
proof fn lemma_compact_step(s: Seq<char>, i: int, in_str: bool, esc: bool)
    requires
        0 <= i < s.len(),
    ensures
        compact_from(s.subrange(i, s.len() as int), in_str, esc) == ({
            let c = s[i];
            let next = s.subrange(i + 1, s.len() as int);
            if in_str {
                if esc {
                    seq![c] + compact_from(next, true, false)
                } else if c == '\\' {
                    seq![c] + compact_from(next, true, true)
                } else if c == '"' {
                    seq![c] + compact_from(next, false, false)
                } else {
                    seq![c] + compact_from(next, true, false)
                }
            } else if is_json_ws(c) {
                compact_from(next, false, false)
            } else if c == '"' {
                seq![c] + compact_from(next, true, false)
            } else {
                seq![c] + compact_from(next, false, false)
            }
        }),
{
    let r = s.subrange(i, s.len() as int);
    assert(r.subrange(1, r.len() as int) =~= s.subrange(i + 1, s.len() as int));
    assert(r[0] == s[i]);
}

/// Removes the whitespace between the tokens of a JSON text.
fn compact(s: &str) -> (r: String)
    ensures
        r@ == compact_json(s@),
{
    let n = s.unicode_len();
    let mut out = String::new();
    let mut in_str = false;
    let mut esc = false;
    let mut i: usize = 0;
    proof {
        assert(s@.subrange(0, n as int) =~= s@);
        assert(out@ + compact_json(s@) =~= compact_json(s@));
    }
    while i < n
        invariant
            n == s@.len(),
            i <= n,
            out@ + compact_from(s@.subrange(i as int, n as int), in_str, esc) == compact_json(s@),
            !in_str ==> !esc,
        decreases n - i,
    {
        let c = s.get_char(i);
        let ghost rest = s@.subrange(i as int, n as int);
        proof {
            assert(rest[0] == c);
            assert(rest.subrange(1, rest.len() as int) =~= s@.subrange(i + 1, n as int));
        }
        let ghost before = out@;
        let ghost was_in = in_str;
        let ghost was_esc = esc;
        if in_str {
            out.push(c);
            if esc {
                esc = false;
            } else if c == '\\' {
                esc = true;
            } else if c == '"' {
                in_str = false;
            }
        } else if c == ' ' || c == '\t' || c == '\n' || c == '\r' {
        } else {
            out.push(c);
            if c == '"' {
                in_str = true;
            }
        }
        proof {
            let next = s@.subrange(i + 1, n as int);
            lemma_compact_step(s@, i as int, was_in, was_esc);
            if out@.len() == before.len() + 1 {
                assert(out@ =~= before + seq![c]);
                assert(compact_from(rest, was_in, was_esc) == seq![c] + compact_from(next, in_str, esc));
                assert(before + seq![c] + compact_from(next, in_str, esc) =~= before + (seq![c] + compact_from(next, in_str, esc)));
            } else {
                assert(compact_from(rest, was_in, was_esc) == compact_from(next, in_str, esc));
            }
        }
        i = i + 1;
    }
    proof {
        assert(s@.subrange(n as int, n as int) =~= Seq::<char>::empty());
        assert(out@ + Seq::<char>::empty() =~= out@);
    }
    out
}

fn parse_reg_value(json: &str) -> (r: Result<Option<String>, RollbackError>)
    ensures
        match (r, reg_value_of(json@)) {
            (Ok(v), Some(w)) => opt_view(v) == w,
            (Err(RollbackError::Json(m)), None) => m@ == "valor de registro inválido"@,
            _ => false,
        },
{
    match parse_reg_value_exact(json) {
        Ok(v) => Ok(v),
        Err(_) => {
            let c = compact(json);
            parse_reg_value_exact(c.as_str())
        },
    }
}

fn parse_dword_value(json: &str) -> (r: Result<Option<u32>, RollbackError>)
    ensures
        match (r, dword_value_of(json@)) {
            (Ok(v), Some(w)) => v == w,
            (Err(RollbackError::Json(m)), None) => m@ == "valor DWORD inválido"@,
            _ => false,
        },
{
    match parse_dword_value_exact(json) {
        Ok(v) => Ok(v),
        Err(_) => {
            let c = compact(json);
            parse_dword_value_exact(c.as_str())
        },
    }
}

fn parse_power_value(json: &str) -> (r: Result<String, RollbackError>)
    ensures
        match (r, power_value_of(json@)) {
            (Ok(v), Some(w)) => v@ == w,
            (Err(RollbackError::Json(m)), None) => m@ == "plano de energia inválido"@,
            _ => false,
        },
{
    match parse_power_value_exact(json) {
        Ok(v) => Ok(v),
        Err(_) => {
            let c = compact(json);
            parse_power_value_exact(c.as_str())
        },
    }
}

fn parse_file_value(json: &str) -> (r: Result<String, RollbackError>)
    ensures
        match (r, file_value_of(json@)) {
            (Ok(v), Some(w)) => v@ == w,
            (Err(RollbackError::Json(m)), None) => m@ == "arquivo em quarentena inválido"@,
            _ => false,
        },
{
    match parse_file_value_exact(json) {
        Ok(v) => Ok(v),
        Err(_) => {
            let c = compact(json);
            parse_file_value_exact(c.as_str())
        },
    }
}

/// The recorded old JSON of an entry, `{"value":null}` when absent.
pub open spec fn old_json_or_null(o: Option<Seq<char>>) -> Seq<char> {
    match o {
        Some(j) => j,
        None => "{\"value\":null}"@,
    }
}

fn starts_with(s: &str, p: &str) -> (b: bool)
    ensures
        b == has_prefix(s@, p@),
{
    let n = s.unicode_len();
    let m = p.unicode_len();
    if m > n {
        return false;
    }
    str_eq(s.substring_char(0, m), p)
}

fn framed_inner<'a>(s: &'a str, p: &str) -> (r: Option<&'a str>)
    ensures
        match r {
            Some(t) => framed(s@, p@) && t@ == between(s@, p@),
            None => !framed(s@, p@),
        },
{
    let n = s.unicode_len();
    let m = p.unicode_len();
    if n > m && starts_with(s, p) && s.get_char(n - 1) == '}' {
        Some(s.substring_char(m, n - 1))
    } else {
        None
    }
}

fn parse_plain_u32(s: &str) -> (r: Option<u32>)
    ensures
        r == plain_u32(s@),
{
    if s.unicode_len() > 0 {
        let c = s.get_char(0);
        if '0' <= c && c <= '9' {
            return crate::platform::parse_u32(s);
        }
    }
    None
}

fn parse_reg_value_exact(json: &str) -> (r: Result<Option<String>, RollbackError>)
    ensures
        match (r, reg_value_exact(json@)) {
            (Ok(v), Some(w)) => opt_view(v) == w,
            (Err(RollbackError::Json(m)), None) => m@ == "valor de registro inválido"@,
            _ => false,
        },
{
    if str_eq(json, "{\"value\":null}") {
        return Ok(None);
    }
    match framed_inner(json, "{\"value\":") {
        Some(lit) => match json_string_from(lit) {
            Some(v) => Ok(Some(v)),
            None => Err(RollbackError::Json(owned("valor de registro inválido"))),
        },
        None => Err(RollbackError::Json(owned("valor de registro inválido"))),
    }
}

fn parse_dword_value_exact(json: &str) -> (r: Result<Option<u32>, RollbackError>)
    ensures
        match (r, dword_value_exact(json@)) {
            (Ok(v), Some(w)) => v == w,
            (Err(RollbackError::Json(m)), None) => m@ == "valor DWORD inválido"@,
            _ => false,
        },
{
    if str_eq(json, "{\"value\":null}") {
        return Ok(None);
    }
    match framed_inner(json, "{\"value\":") {
        Some(digits) => match parse_plain_u32(digits) {
            Some(n) => Ok(Some(n)),
            None => Err(RollbackError::Json(owned("valor DWORD inválido"))),
        },
        None => Err(RollbackError::Json(owned("valor DWORD inválido"))),
    }
}

fn parse_power_value_exact(json: &str) -> (r: Result<String, RollbackError>)
    ensures
        match (r, power_value_exact(json@)) {
            (Ok(v), Some(w)) => v@ == w,
            (Err(RollbackError::Json(m)), None) => m@ == "plano de energia inválido"@,
            _ => false,
        },
{
    match framed_inner(json, "{\"guid\":") {
        Some(lit) => match json_string_from(lit) {
            Some(v) => Ok(v),
            None => Err(RollbackError::Json(owned("plano de energia inválido"))),
        },
        None => Err(RollbackError::Json(owned("plano de energia inválido"))),
    }
}

/// Whether `,"size":` occurs in `s` at `j`.
pub open spec fn size_key_at(s: Seq<char>, j: int) -> bool {
    0 <= j && j + 8 <= s.len() && s.subrange(j, j + 8) == ",\"size\":"@
}

/// Whether `i` is the last place where `,"size":` occurs in `s`.
pub open spec fn is_last_size_key(s: Seq<char>, i: int) -> bool {
    size_key_at(s, i) && forall|j: int| i < j ==> !#[trigger] size_key_at(s, j)
}

/// Index of the last occurrence of `,"size":` in `s`, if any.
fn rfind_size_key(s: &str) -> (r: Option<usize>)
    ensures
        match r {
            Some(i) => is_last_size_key(s@, i as int),
            None => forall|j: int| !#[trigger] size_key_at(s@, j),
        },
{
    let n = s.unicode_len();
    if n < 8 {
        return None;
    }
    let mut i: usize = n - 8;
    loop
        invariant
            n == s@.len(),
            8 <= n,
            i <= n - 8,
            forall|j: int| i < j ==> !#[trigger] size_key_at(s@, j),
        decreases i,
    {
        let t = s.substring_char(i, i + 8);
        if str_eq(t, ",\"size\":") {
            return Some(i);
        }
        if i == 0 {
            return None;
        }
        i = i - 1;
    }
}

/// The quarantine path recorded as `{"quarantine":...,"size":...}`.
pub open spec fn file_value_exact(json: Seq<char>) -> Option<Seq<char>> {
    let p = "{\"quarantine\":"@;
    let rest = between(json, p);
    if framed(json, p) && exists|k: int| is_last_size_key(rest, k) {
        let k = choose|k: int| is_last_size_key(rest, k);
        let digits = rest.subrange(k + 8, rest.len() as int);
        if digits.len() > 0 && crate::platform::all_digits(digits) {
            json_string_decoded(rest.subrange(0, k))
        } else {
            None
        }
    } else {
        None
    }
}

/// Two last occurrences are the same.
proof fn lemma_last_size_key_unique(s: Seq<char>, i: int, k: int)
    requires
        is_last_size_key(s, i),
        is_last_size_key(s, k),
    ensures
        i == k,
{
}

fn parse_file_value_exact(json: &str) -> (r: Result<String, RollbackError>)
    ensures
        match (r, file_value_exact(json@)) {
            (Ok(v), Some(w)) => v@ == w,
            (Err(RollbackError::Json(m)), None) => m@ == "arquivo em quarentena inválido"@,
            _ => false,
        },
{
    match framed_inner(json, "{\"quarantine\":") {
        Some(rest) => match rfind_size_key(rest) {
            Some(k) => {
                proof {
                    assert forall|k2: int| is_last_size_key(rest@, k2) implies k2 == k as int by {
                        lemma_last_size_key_unique(rest@, k as int, k2);
                    }
                }
                let rn = rest.unicode_len();
                let lit = rest.substring_char(0, k);
                match json_string_from(lit) {
                    Some(q) => {
                        let digits = rest.substring_char(k + 8, rn);
                        match all_digit_run(digits) {
                            true => Ok(q),
                            false => Err(RollbackError::Json(owned("arquivo em quarentena inválido"))),
                        }
                    },
                    None => Err(RollbackError::Json(owned("arquivo em quarentena inválido"))),
                }
            },
            None => Err(RollbackError::Json(owned("arquivo em quarentena inválido"))),
        },
        None => Err(RollbackError::Json(owned("arquivo em quarentena inválido"))),
    }
}

/// Whether `s` is a non-empty run of decimal digits.
fn all_digit_run(s: &str) -> (b: bool)
    ensures
        b == (s@.len() > 0 && crate::platform::all_digits(s@)),
{
    let n = s.unicode_len();
    if n == 0 {
        return false;
    }
    let mut i: usize = 0;
    while i < n
        invariant
            n == s@.len(),
            i <= n,
            forall|k: int| 0 <= k < i ==> '0' <= #[trigger] s@[k] && s@[k] <= '9',
        decreases n - i,
    {
        let c = s.get_char(i);
        if !('0' <= c && c <= '9') {
            return false;
        }
        i = i + 1;
    }
    true
}

/// The step that restores an entry: registry values from their recorded old
/// value (`{"value":null}` when none was recorded), the recorded power plan
/// (an empty one when none was recorded), the file back from its recorded
/// quarantine (an empty path when none was recorded); nothing for other entry
/// types. JSON that cannot be read (whitespace between tokens is accepted)
/// is a `Json` error naming the kind of value.
pub open spec fn restore_ok(e: SnapshotEntryRow, r: Result<RestoreStep, RollbackError>) -> bool {
    let t = e.target_type@;
    let old = old_json_or_null(opt_view(e.old_value_json));
    if t == "registry"@ || t == "registry_hklm"@ {
        match reg_value_of(old) {
            Some(v) => r matches Ok(RestoreStep::RegistryText { hklm, subkey, name, value }) && hklm == (t == "registry_hklm"@)
                && opt_view(value) == v && split_of(e.target_key@, subkey@, name@),
            None => r matches Err(RollbackError::Json(m)) && m@ == "valor de registro inválido"@,
        }
    } else if t == "registry_dword"@ || t == "registry_hklm_dword"@ {
        match dword_value_of(old) {
            Some(v) => r matches Ok(RestoreStep::RegistryDword { hklm, subkey, name, value }) && hklm == (t == "registry_hklm_dword"@)
                && value == v && split_of(e.target_key@, subkey@, name@),
            None => r matches Err(RollbackError::Json(m)) && m@ == "valor DWORD inválido"@,
        }
    } else if t == "power"@ {
        match opt_view(e.old_value_json) {
            None => r matches Ok(RestoreStep::PowerPlan { guid }) && guid@ == Seq::<char>::empty(),
            Some(j) => match power_value_of(j) {
                Some(g) => r matches Ok(RestoreStep::PowerPlan { guid }) && guid@ == g,
                None => r matches Err(RollbackError::Json(m)) && m@ == "plano de energia inválido"@,
            },
        }
    } else if t == "file"@ {
        match opt_view(e.old_value_json) {
            None => r matches Ok(RestoreStep::File { quarantine, original }) && quarantine@
                == Seq::<char>::empty() && original@ == e.target_key@,
            Some(j) => match file_value_of(j) {
                Some(q) => r matches Ok(RestoreStep::File { quarantine, original }) && quarantine@
                    == q && original@ == e.target_key@,
                None => r matches Err(RollbackError::Json(m)) && m@ == "arquivo em quarentena inválido"@,
            },
        }
    } else {
        r matches Ok(RestoreStep::Nothing)
    }
}

/// Whether (`sub`, `name`) is the split of `key` at its last backslash.
pub open spec fn split_of(key: Seq<char>, sub: Seq<char>, name: Seq<char>) -> bool {
    (exists|i: int| is_last_backslash(key, i) && sub == key.subrange(0, i) && name == key.subrange(
        i + 1,
        key.len() as int,
    )) || ((forall|k: int| 0 <= k < key.len() ==> key[k] != '\\') && sub == Seq::<char>::empty()
        && name == key)
}

/// What to write back for a snapshot entry.
pub fn restore_step(e: &SnapshotEntryRow) -> (r: Result<RestoreStep, RollbackError>)
    ensures
        restore_ok(*e, r),
{
    let old: &str = match &e.old_value_json {
        Some(j) => j.as_str(),
        None => "{\"value\":null}",
    };
    let t = e.target_type.as_str();
    if str_eq(t, "registry") || str_eq(t, "registry_hklm") {
        let v = parse_reg_value(old)?;
        let (sub, name) = split_key(e.target_key.as_str());
        Ok(RestoreStep::RegistryText { hklm: str_eq(t, "registry_hklm"), subkey: owned(sub), name: owned(name), value: v })
    } else if str_eq(t, "registry_dword") || str_eq(t, "registry_hklm_dword") {
        let v = parse_dword_value(old)?;
        let (sub, name) = split_key(e.target_key.as_str());
        Ok(RestoreStep::RegistryDword { hklm: str_eq(t, "registry_hklm_dword"), subkey: owned(sub), name: owned(name), value: v })
    } else if str_eq(t, "power") {
        match &e.old_value_json {
            Some(j) => {
                let g = parse_power_value(j.as_str())?;
                Ok(RestoreStep::PowerPlan { guid: g })
            },
            None => Ok(RestoreStep::PowerPlan { guid: String::new() }),
        }
    } else if str_eq(t, "file") {
        let original = owned(e.target_key.as_str());
        match &e.old_value_json {
            Some(j) => {
                let q = parse_file_value(j.as_str())?;
                Ok(RestoreStep::File { quarantine: q, original })
            },
            None => Ok(RestoreStep::File { quarantine: String::new(), original }),
        }
    } else {
        Ok(RestoreStep::Nothing)
    }
}

// ───────────────────────── Applying and rolling back ─────────────────────────

/// What applying an action writes: its new state.
#[derive(Debug)]
pub enum ApplyStep {
    /// Write (or delete, for `None`) a string value under HKCU or HKLM.
    RegistryText { hklm: bool, subkey: String, name: String, value: Option<String> },
    /// Write (or delete, for `None`) a DWORD value under HKCU or HKLM.
    RegistryDword { hklm: bool, subkey: String, name: String, value: Option<u32> },
    /// Make the plan active.
    PowerPlan { guid: String },
    /// Move the file into quarantine; its size counts as freed when it moves.
    Quarantine { original: String, quarantine: String, size: u64 },
    /// Purge the standby memory list.
    FlushStandby,
}

/// The step owed for an action: the new value under the same hive, subkey and
/// name, the new plan, the move into quarantine, or the purge.
pub open spec fn apply_ok(a: ReversibleAction, s: ApplyStep) -> bool {
    match a {
        ReversibleAction::RegistryHkcu { subkey, name, new, .. } => s matches ApplyStep::RegistryText { hklm, subkey: k, name: n, value }
            && !hklm && k@ == subkey@ && n@ == name@ && opt_view(value) == opt_view(new),
        ReversibleAction::RegistryHklmString { subkey, name, new, .. } => s matches ApplyStep::RegistryText { hklm, subkey: k, name: n, value }
            && hklm && k@ == subkey@ && n@ == name@ && opt_view(value) == opt_view(new),
        ReversibleAction::RegistryHkcuDword { subkey, name, new, .. } => s matches ApplyStep::RegistryDword { hklm, subkey: k, name: n, value }
            && !hklm && k@ == subkey@ && n@ == name@ && value == new,
        ReversibleAction::RegistryHklmDword { subkey, name, new, .. } => s matches ApplyStep::RegistryDword { hklm, subkey: k, name: n, value }
            && hklm && k@ == subkey@ && n@ == name@ && value == new,
        ReversibleAction::PowerPlan { new_guid, .. } => s matches ApplyStep::PowerPlan { guid } && guid@ == new_guid@,
        ReversibleAction::FileQuarantine { original, quarantine, size } => s matches ApplyStep::Quarantine { original: o, quarantine: q, size: z }
            && o@ == original@ && q@ == quarantine@ && z == size,
        ReversibleAction::MemoryStandbyFlush => s matches ApplyStep::FlushStandby,
    }
}

fn copy_opt(o: &Option<String>) -> (r: Option<String>)
    ensures
        opt_view(r) == opt_view(*o),
{
    match o {
        Some(v) => Some(owned(v.as_str())),
        None => None,
    }
}

/// What applying an action writes.
pub fn apply_step(a: &ReversibleAction) -> (s: ApplyStep)
    ensures
        apply_ok(*a, s),
{
    match a {
        ReversibleAction::RegistryHkcu { subkey, name, new, .. } => ApplyStep::RegistryText {
            hklm: false,
            subkey: owned(subkey.as_str()),
            name: owned(name.as_str()),
            value: copy_opt(new),
        },
        ReversibleAction::RegistryHklmString { subkey, name, new, .. } => ApplyStep::RegistryText {
            hklm: true,
            subkey: owned(subkey.as_str()),
            name: owned(name.as_str()),
            value: copy_opt(new),
        },
        ReversibleAction::RegistryHkcuDword { subkey, name, new, .. } => ApplyStep::RegistryDword {
            hklm: false,
            subkey: owned(subkey.as_str()),
            name: owned(name.as_str()),
            value: *new,
        },
        ReversibleAction::RegistryHklmDword { subkey, name, new, .. } => ApplyStep::RegistryDword {
            hklm: true,
            subkey: owned(subkey.as_str()),
            name: owned(name.as_str()),
            value: *new,
        },
        ReversibleAction::PowerPlan { new_guid, .. } => ApplyStep::PowerPlan { guid: owned(new_guid.as_str()) },
        ReversibleAction::FileQuarantine { original, quarantine, size } => ApplyStep::Quarantine {
            original: owned(original.as_str()),
            quarantine: owned(quarantine.as_str()),
            size: *size,
        },
        ReversibleAction::MemoryStandbyFlush => ApplyStep::FlushStandby,
    }
}

/// Whether the stored entries still carry the integrity hash recorded with
/// the snapshot; a rollback refuses tampered entries.
pub fn integrity_matches(entries: &[SnapshotEntryRow], stored: &str) -> (b: bool)
    ensures
        b == (integrity_of(entries@) == stored@),
{
    let h = integrity(entries);
    str_eq(h.as_str(), stored)
}

/// The outcome of a completed rollback.
pub fn rollback_outcome(snapshot_id: i64, restored: u32) -> (o: RollbackOutcome)
    ensures
        o.snapshot_id == snapshot_id,
        o.restored == restored,
        o.ok,
        o.message@ == "Estado restaurado e verificado com sucesso."@,
{
    RollbackOutcome { snapshot_id, restored, ok: true, message: owned("Estado restaurado e verificado com sucesso.") }
}

/// What a rollback does next.
#[derive(Debug)]
pub enum RollbackNext {
    /// Write back entry `index` as `step`, then read it back and confirm it.
    Restore { index: usize, step: RestoreStep },
    /// Every entry was restored and confirmed.
    Complete(RollbackOutcome),
    /// Stop with this error; nothing more is written.
    Abort(RollbackError),
}

/// The next move owed by a rollback of `entries` after `done` of them: see
/// `rollback_next`.
pub open spec fn rollback_next_ok(
    snapshot_id: i64,
    entries: Seq<SnapshotEntryRow>,
    stored_hash: Seq<char>,
    done: int,
    r: RollbackNext,
) -> bool {
    &&& (done == 0 && integrity_of(entries) != stored_hash ==> r matches RollbackNext::Abort(RollbackError::Integrity))
    &&& (done > 0 || integrity_of(entries) == stored_hash) && done == entries.len() ==> (r matches RollbackNext::Complete(o)
        && o.snapshot_id == snapshot_id && o.restored == entries.len() && o.ok
        && o.message@ == "Estado restaurado e verificado com sucesso."@)
    &&& ((done > 0 || integrity_of(entries) == stored_hash) && 0 <= done < entries.len() ==> match r {
        RollbackNext::Restore { index, step } => index == done && restore_ok(entries[done], Ok(step)),
        RollbackNext::Abort(e) => restore_ok(entries[done], Err(e)),
        RollbackNext::Complete(_) => false,
    })
}

/// The next move of a rollback of `entries` once the first `done` of them
/// were written back and confirmed. Before anything is written (`done == 0`)
/// the integrity gate runs: tampered entries abort the rollback with
/// `Integrity`. Then each entry in turn is written back, or aborts the
/// rollback when its recorded value cannot be read; when all are done the
/// outcome counts them.
pub fn rollback_next(snapshot_id: i64, entries: &[SnapshotEntryRow], stored_hash: &str, done: usize) -> (r: RollbackNext)
    requires
        done <= entries@.len(),
        entries@.len() <= u32::MAX,
    ensures
        rollback_next_ok(snapshot_id, entries@, stored_hash@, done as int, r),
{
    if done == 0 && !integrity_matches(entries, stored_hash) {
        return RollbackNext::Abort(RollbackError::Integrity);
    }
    if done == entries.len() {
        return RollbackNext::Complete(rollback_outcome(snapshot_id, done as u32));
    }
    match restore_step(&entries[done]) {
        Ok(step) => RollbackNext::Restore { index: done, step },
        Err(e) => RollbackNext::Abort(e),
    }
}

/// Whether an observation is the kind of reading a restore step is confirmed by.
pub open spec fn confirms_kind(s: RestoreStep, o: Observation) -> bool {
    match s {
        RestoreStep::RegistryText { .. } => o is Text,
        RestoreStep::RegistryDword { .. } => o is Dword,
        RestoreStep::PowerPlan { .. } => o is ActiveScheme,
        RestoreStep::File { .. } => o is Nothing,
        RestoreStep::Nothing => o is Nothing,
    }
}

/// Confirms a written-back entry from what was read back: the registry value
/// (absent = `None`) must be the restored one and the active plan the
/// restored plan, else a `Validation` error naming the target; a failed
/// registry read is a `Platform` error. Files are not read back.
pub fn restore_confirmed(s: &RestoreStep, target_key: &str, o: &Observation) -> (r: Result<(), RollbackError>)
    requires
        confirms_kind(*s, *o),
    ensures
        match (*s, *o) {
            (RestoreStep::RegistryText { value, .. }, Observation::Text(Ok(v))) => if opt_view(v) == opt_view(value) {
                r is Ok
            } else {
                r matches Err(RollbackError::Validation(m)) && m@ == "registry "@ + target_key@
            },
            (RestoreStep::RegistryText { .. }, Observation::Text(Err(e))) => r matches Err(RollbackError::Platform(m)) && m@ == e@,
            (RestoreStep::RegistryDword { value, .. }, Observation::Dword(Ok(v))) => if v == value {
                r is Ok
            } else {
                r matches Err(RollbackError::Validation(m)) && m@ == "registry_dword "@ + target_key@
            },
            (RestoreStep::RegistryDword { .. }, Observation::Dword(Err(e))) => r matches Err(RollbackError::Platform(m)) && m@ == e@,
            (RestoreStep::PowerPlan { guid }, Observation::ActiveScheme(g)) => if opt_view(g) == Some(guid@) {
                r is Ok
            } else {
                r matches Err(RollbackError::Validation(m)) && m@ == "plano de energia não confirmado"@
            },
            _ => r is Ok,
        },
{
    match (s, o) {
        (RestoreStep::RegistryText { value, .. }, Observation::Text(read)) => match read {
            Ok(v) => if opt_string_eq(v, value) {
                Ok(())
            } else {
                Err(RollbackError::Validation(concat2("registry ", target_key)))
            },
            Err(e) => Err(RollbackError::Platform(owned(e.as_str()))),
        },
        (RestoreStep::RegistryDword { value, .. }, Observation::Dword(read)) => match read {
            Ok(v) => if *v == *value {
                Ok(())
            } else {
                Err(RollbackError::Validation(concat2("registry_dword ", target_key)))
            },
            Err(e) => Err(RollbackError::Platform(owned(e.as_str()))),
        },
        (RestoreStep::PowerPlan { guid }, Observation::ActiveScheme(g)) => {
            let same = match g {
                Some(x) => str_eq(x.as_str(), guid.as_str()),
                None => false,
            };
            if same {
                Ok(())
            } else {
                Err(RollbackError::Validation(owned("plano de energia não confirmado")))
            }
        },
        _ => Ok(()),
    }
}

/// Whether an observation reads back exactly what a restore step wrote.
pub open spec fn restore_read_back(s: RestoreStep, o: Observation) -> bool {
    match s {
        RestoreStep::RegistryText { value, .. } => o matches Observation::Text(Ok(v)) && opt_view(v) == opt_view(value),
        RestoreStep::RegistryDword { value, .. } => o matches Observation::Dword(Ok(v)) && v == value,
        RestoreStep::PowerPlan { guid } => o matches Observation::ActiveScheme(Some(g)) && g@ == guid@,
        RestoreStep::File { .. } => o is Nothing,
        RestoreStep::Nothing => o is Nothing,
    }
}

/// Whether two restore steps write the same thing to the same place.
pub open spec fn same_restore(a: RestoreStep, b: RestoreStep) -> bool {
    match (a, b) {
        (
            RestoreStep::RegistryText { hklm: h1, subkey: k1, name: n1, value: v1 },
            RestoreStep::RegistryText { hklm: h2, subkey: k2, name: n2, value: v2 },
        ) => h1 == h2 && k1@ == k2@ && n1@ == n2@ && opt_view(v1) == opt_view(v2),
        (
            RestoreStep::RegistryDword { hklm: h1, subkey: k1, name: n1, value: v1 },
            RestoreStep::RegistryDword { hklm: h2, subkey: k2, name: n2, value: v2 },
        ) => h1 == h2 && k1@ == k2@ && n1@ == n2@ && v1 == v2,
        (RestoreStep::PowerPlan { guid: g1 }, RestoreStep::PowerPlan { guid: g2 }) => g1@ == g2@,
        (RestoreStep::File { quarantine: q1, original: o1 }, RestoreStep::File { quarantine: q2, original: o2 }) => q1@ == q2@ && o1@ == o2@,
        (RestoreStep::Nothing, RestoreStep::Nothing) => true,
        _ => false,
    }
}

/// A key has at most one split at its last backslash.
proof fn lemma_split_unique(key: Seq<char>, s1: Seq<char>, n1: Seq<char>, s2: Seq<char>, n2: Seq<char>)
    requires
        split_of(key, s1, n1),
        split_of(key, s2, n2),
    ensures
        s1 == s2,
        n1 == n2,
{
    if exists|i: int| is_last_backslash(key, i) {
        let i = choose|i: int| is_last_backslash(key, i);
        assert forall|j: int| is_last_backslash(key, j) implies j == i by {
            if j < i {
                assert(key[i] != '\\');
            } else if i < j {
                assert(key[j] != '\\');
            }
        }
    }
}

/// Restoring is idempotent: an entry always yields the same write-back (same
/// target, same absolute value, no delta), a written-back entry read back as
/// written is confirmed, so restoring it again leaves the same state and
/// succeeds again.
pub proof fn lemma_restore_idempotent(e: SnapshotEntryRow, s1: RestoreStep, s2: RestoreStep, o: Observation)
    requires
        restore_ok(e, Ok(s1)),
        restore_ok(e, Ok(s2)),
        restore_read_back(s1, o),
    ensures
        same_restore(s1, s2),
        restore_read_back(s2, o),
        confirms_kind(s2, o),
{
    match (s1, s2) {
        (RestoreStep::RegistryText { subkey: k1, name: n1, .. }, RestoreStep::RegistryText { subkey: k2, name: n2, .. }) => {
            lemma_split_unique(e.target_key@, k1@, n1@, k2@, n2@);
        },
        (RestoreStep::RegistryDword { subkey: k1, name: n1, .. }, RestoreStep::RegistryDword { subkey: k2, name: n2, .. }) => {
            lemma_split_unique(e.target_key@, k1@, n1@, k2@, n2@);
        },
        _ => {},
    }
}

/// The protection status shown for a number of snapshots.
pub fn protection_status(total: u32) -> (s: &'static str)
    ensures
        total == 0 ==> s@ == "Sem snapshots"@,
        total > 0 ==> s@ == "Protegido"@,
{
    if total == 0 {
        "Sem snapshots"
    } else {
        "Protegido"
    }
}

/// A self-test report: it passes when every step passed.
pub fn selftest_report(steps: Vec<SelfTestStep>) -> (r: SelfTestReport)
    ensures
        r.steps@ == steps@,
        r.passed == forall|i: int| 0 <= i < steps@.len() ==> (#[trigger] steps@[i]).ok,
{
    let mut passed = true;
    let mut i: usize = 0;
    while i < steps.len()
        invariant
            i <= steps@.len(),
            passed == forall|k: int| 0 <= k < i ==> (#[trigger] steps@[k]).ok,
        decreases steps@.len() - i,
    {
        passed = passed && steps[i].ok;
        i = i + 1;
    }
    SelfTestReport { steps, passed }
}

// ───────────────────────── Keys ─────────────────────────

/// Whether `i` is the last backslash of `s`.
pub open spec fn is_last_backslash(s: Seq<char>, i: int) -> bool {
    0 <= i < s.len() && s[i] == '\\' && forall|k: int| i < k < s.len() ==> s[k] != '\\'
}

/// Splits a full registry key at its last backslash into (subkey, value
/// name): "Control Panel\\Desktop\\MenuShowDelay" gives ("Control
/// Panel\\Desktop", "MenuShowDelay"). Without a backslash the subkey is empty.
pub fn split_key(full: &str) -> (r: (&str, &str))
    ensures
        (exists|i: int| is_last_backslash(full@, i) && r.0@ == full@.subrange(0, i) && r.1@
            == full@.subrange(i + 1, full@.len() as int)) || ((forall|k: int|
            0 <= k < full@.len() ==> full@[k] != '\\') && r.0@ == Seq::<char>::empty() && r.1@
            == full@),
{
    let n = full.unicode_len();
    let mut j: usize = n;
    while j > 0
        invariant
            j <= n,
            n == full@.len(),
            forall|k: int| j <= k < n ==> full@[k] != '\\',
        decreases j,
    {
        if full.get_char(j - 1) == '\\' {
            let i = j - 1;
            assert(is_last_backslash(full@, i as int));
            let sub = full.substring_char(0, i);
            let name = full.substring_char(i + 1, n);
            return (sub, name);
        }
        j = j - 1;
    }
    let empty = full.substring_char(0, 0);
    assert(empty@ =~= Seq::<char>::empty());
    (empty, full)
}

/// One step of the protection self-test report.
pub fn step(name: &str, detail: &str, ok: bool) -> (s: SelfTestStep)
    ensures
        s.name@ == name@,
        s.detail@ == detail@,
        s.ok == ok,
{
    SelfTestStep { name: owned(name), detail: owned(detail), ok }
}

// ───────────────────────── Laws ─────────────────────────

/// Splitting the key of a registry entry gives back its subkey and value name
/// whenever the value name holds no backslash.
pub proof fn lemma_split_key_inverts_key(subkey: Seq<char>, name: Seq<char>, r0: Seq<char>, r1: Seq<char>)
    requires
        forall|k: int| 0 <= k < name.len() ==> name[k] != '\\',
        ({
            let full = subkey + "\\"@ + name;
            (exists|i: int| is_last_backslash(full, i) && r0 == full.subrange(0, i) && r1
                == full.subrange(i + 1, full.len() as int)) || ((forall|k: int|
                0 <= k < full.len() ==> full[k] != '\\') && r0 == Seq::<char>::empty() && r1
                == full)
        }),
    ensures
        r0 == subkey,
        r1 == name,
{
    reveal_strlit("\\");
    let full = subkey + "\\"@ + name;
    let p = subkey.len() as int;
    assert(full[p] == '\\');
    assert(is_last_backslash(full, p)) by {
        assert forall|k: int| p < k < full.len() implies full[k] != '\\' by {
            assert(full[k] == name[k - p - 1]);
        }
    }
    if exists|i: int| is_last_backslash(full, i) && r0 == full.subrange(0, i) && r1
        == full.subrange(i + 1, full.len() as int) {
        let i = choose|i: int| is_last_backslash(full, i) && r0 == full.subrange(0, i) && r1
            == full.subrange(i + 1, full.len() as int);
        if i < p {
            assert(full[p] != '\\');
        } else if i > p {
            assert(full[i] == name[i - p - 1]);
        }
        assert(r0 =~= subkey);
        assert(r1 =~= name);
    } else {
        assert(full[p] != '\\');
    }
}

/// The value name of a registry action, empty for other actions.
pub open spec fn value_name(a: ReversibleAction) -> Seq<char> {
    match a {
        ReversibleAction::RegistryHkcu { name, .. } => name@,
        ReversibleAction::RegistryHkcuDword { name, .. } => name@,
        ReversibleAction::RegistryHklmDword { name, .. } => name@,
        ReversibleAction::RegistryHklmString { name, .. } => name@,
        _ => Seq::<char>::empty(),
    }
}

/// Whether a restore step writes back exactly what the action found before it
/// changed anything: the same hive, subkey, value name and old value for a
/// registry action, the old plan for a plan switch, the move from the recorded
/// quarantine back to the original path for a quarantined file, and nothing
/// for a one-shot action.
pub open spec fn undoes(a: ReversibleAction, r: Result<RestoreStep, RollbackError>) -> bool {
    match a {
        ReversibleAction::RegistryHkcu { subkey, name, old, .. } => r matches Ok(
            RestoreStep::RegistryText { hklm, subkey: s, name: n, value },
        ) && !hklm && s@ == subkey@ && n@ == name@ && opt_view(value) == opt_view(old),
        ReversibleAction::RegistryHklmString { subkey, name, old, .. } => r matches Ok(
            RestoreStep::RegistryText { hklm, subkey: s, name: n, value },
        ) && hklm && s@ == subkey@ && n@ == name@ && opt_view(value) == opt_view(old),
        ReversibleAction::RegistryHkcuDword { subkey, name, old, .. } => r matches Ok(
            RestoreStep::RegistryDword { hklm, subkey: s, name: n, value },
        ) && !hklm && s@ == subkey@ && n@ == name@ && value == old,
        ReversibleAction::RegistryHklmDword { subkey, name, old, .. } => r matches Ok(
            RestoreStep::RegistryDword { hklm, subkey: s, name: n, value },
        ) && hklm && s@ == subkey@ && n@ == name@ && value == old,
        ReversibleAction::PowerPlan { old_guid, .. } => r matches Ok(RestoreStep::PowerPlan { guid })
            && guid@ == old_guid@,
        ReversibleAction::FileQuarantine { original, quarantine, .. } => r matches Ok(
            RestoreStep::File { quarantine: q, original: o },
        ) && q@ == quarantine@ && o@ == original@,
        ReversibleAction::MemoryStandbyFlush => r matches Ok(RestoreStep::Nothing),
    }
}

/// The entry type names differ from one another (their lengths differ).
proof fn lemma_entry_types_distinct()
    ensures
        "registry"@.len() == 8,
        "registry_hklm"@.len() == 13,
        "registry_dword"@.len() == 14,
        "registry_hklm_dword"@.len() == 19,
        "power"@.len() == 5,
        "file"@.len() == 4,
        "memory"@.len() == 6,
{
    reveal_strlit("registry");
    reveal_strlit("registry_hklm");
    reveal_strlit("registry_dword");
    reveal_strlit("registry_hklm_dword");
    reveal_strlit("power");
    reveal_strlit("file");
    reveal_strlit("memory");
}

/// Restoring the snapshot entry of an action writes back what the action
/// found: the old registry value under the same hive, subkey and name, the
/// old power plan, or the file moved back from quarantine to its original
/// path. This holds whenever the value name holds no backslash (the entry key
/// joins subkey and name with one).
pub proof fn lemma_restore_undoes(
    a: ReversibleAction,
    e: SnapshotEntryRow,
    r: Result<RestoreStep, RollbackError>,
)
    requires
        e.view() == entry_of(a),
        old_recoverable(a),
        restore_ok(e, r),
        forall|k: int| 0 <= k < value_name(a).len() ==> value_name(a)[k] != '\\',
    ensures
        undoes(a, r),
{
    lemma_entry_types_distinct();
    match a {
        ReversibleAction::RegistryHkcu { subkey, name, .. } => {
            if let Ok(RestoreStep::RegistryText { subkey: s, name: n, .. }) = r {
                assert(value_name(a) == name@);
                lemma_split_key_inverts_key(subkey@, name@, s@, n@);
            }
        },
        ReversibleAction::RegistryHklmString { subkey, name, .. } => {
            if let Ok(RestoreStep::RegistryText { subkey: s, name: n, .. }) = r {
                assert(value_name(a) == name@);
                lemma_split_key_inverts_key(subkey@, name@, s@, n@);
            }
        },
        ReversibleAction::RegistryHkcuDword { subkey, name, .. } => {
            if let Ok(RestoreStep::RegistryDword { subkey: s, name: n, .. }) = r {
                assert(value_name(a) == name@);
                lemma_split_key_inverts_key(subkey@, name@, s@, n@);
            }
        },
        ReversibleAction::RegistryHklmDword { subkey, name, .. } => {
            if let Ok(RestoreStep::RegistryDword { subkey: s, name: n, .. }) = r {
                assert(value_name(a) == name@);
                lemma_split_key_inverts_key(subkey@, name@, s@, n@);
            }
        },
        _ => {},
    }
}


/// Whether a restore step puts back, at the place an apply step wrote, the
/// value found before it: same hive, subkey and name for registry values,
/// the file moved back along the same two paths, nothing to undo for a purge.
pub open spec fn restores_target(s: ApplyStep, r: Result<RestoreStep, RollbackError>) -> bool {
    match s {
        ApplyStep::RegistryText { hklm, subkey, name, .. } => r matches Ok(RestoreStep::RegistryText { hklm: h, subkey: k, name: n, .. })
            && h == hklm && k@ == subkey@ && n@ == name@,
        ApplyStep::RegistryDword { hklm, subkey, name, .. } => r matches Ok(RestoreStep::RegistryDword { hklm: h, subkey: k, name: n, .. })
            && h == hklm && k@ == subkey@ && n@ == name@,
        ApplyStep::PowerPlan { .. } => r matches Ok(RestoreStep::PowerPlan { .. }),
        ApplyStep::Quarantine { original, quarantine, .. } => r matches Ok(RestoreStep::File { quarantine: q, original: o })
            && q@ == quarantine@ && o@ == original@,
        ApplyStep::FlushStandby => r matches Ok(RestoreStep::Nothing),
    }
}

/// Rolling back undoes applying: the restore step of an action's snapshot
/// entry addresses exactly what the apply step of the action wrote, and puts
/// back the value found before (see `undoes`). This holds whenever the value
/// name holds no backslash.
pub proof fn lemma_rollback_undoes_apply(
    a: ReversibleAction,
    e: SnapshotEntryRow,
    s: ApplyStep,
    r: Result<RestoreStep, RollbackError>,
)
    requires
        e.view() == entry_of(a),
        old_recoverable(a),
        apply_ok(a, s),
        restore_ok(e, r),
        forall|k: int| 0 <= k < value_name(a).len() ==> value_name(a)[k] != '\\',
    ensures
        restores_target(s, r),
        undoes(a, r),
{
    lemma_restore_undoes(a, e, r);
}

/// Rolling back a snapshot that was taken of some actions and stored
/// untouched: the integrity gate passes, every entry is written back in
/// order (none aborts), each write-back puts back what its action found
/// (see `undoes`), and the rollback completes counting every entry. Each
/// written-back entry read back as written is confirmed by
/// `restore_confirmed`. A tampered snapshot is refused before anything is
/// written (the first clause of `rollback_next_ok`). This holds whenever no
/// registry value name holds a backslash.
pub proof fn lemma_snapshot_rollback(
    snapshot_id: i64,
    acts: Seq<ReversibleAction>,
    entries: Seq<SnapshotEntryRow>,
    stored_hash: Seq<char>,
    moves: Seq<RollbackNext>,
)
    requires
        entries.len() == acts.len(),
        entries.len() <= u32::MAX,
        forall|i: int| 0 <= i < acts.len() ==> #[trigger] entries[i].view() == entry_of(acts[i]),
        forall|i: int| 0 <= i < acts.len() ==> old_recoverable(#[trigger] acts[i]),
        forall|i: int, k: int|
            0 <= i < acts.len() && 0 <= k < value_name(acts[i]).len() ==> #[trigger] value_name(acts[i])[k] != '\\',
        stored_hash == integrity_of(entries),
        moves.len() == entries.len() + 1,
        forall|d: int| 0 <= d < moves.len() ==> rollback_next_ok(snapshot_id, entries, stored_hash, d, #[trigger] moves[d]),
    ensures
        forall|d: int|
            0 <= d < acts.len() ==> (#[trigger] moves[d] matches RollbackNext::Restore { index, step } && index == d
                && undoes(acts[d], Ok(step))),
        moves[acts.len() as int] matches RollbackNext::Complete(o) && o.snapshot_id == snapshot_id && o.restored
            == acts.len() && o.ok,
{
    assert forall|d: int| 0 <= d < acts.len() implies (#[trigger] moves[d] matches RollbackNext::Restore { index, step }
        && index == d && undoes(acts[d], Ok(step))) by {
        assert(rollback_next_ok(snapshot_id, entries, stored_hash, d, moves[d]));
        let a = acts[d];
        assert(entries[d].view() == entry_of(a));
        assert(old_recoverable(a));
        assert forall|k: int| 0 <= k < value_name(a).len() implies value_name(a)[k] != '\\' by {
            assert(value_name(acts[d])[k] != '\\');
        }
        match moves[d] {
            RollbackNext::Restore { index, step } => {
                lemma_restore_undoes(a, entries[d], Ok(step));
            },
            RollbackNext::Abort(e) => {
                lemma_restore_undoes(a, entries[d], Err(e));
            },
            RollbackNext::Complete(_) => {},
        }
    }
    assert(rollback_next_ok(snapshot_id, entries, stored_hash, acts.len() as int, moves[acts.len() as int]));
}

} // verus!
