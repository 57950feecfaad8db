//! Installed games, as the launchers record them. This module reads the
//! launchers' files and registry values handed to it (Steam library folders
//! and app manifests, Epic manifests, install directories) and builds the
//! game list; finding and reading those files is the caller's part.
use vstd::prelude::*;
use crate::text::{
    concat2, decimal, find_from, lines_from, lowercase_of, nth_piece, owned, piece_from, push_decimal,
    replace_pair, replace_pair_in, split_lines, str_eq, strings_of, to_lowercase, trim,
    trim_whitespace, trim_start, trim_start_of, find_str, first_occurrence, find_char_from,
    seq_contains, contains_str, lex_less, str_less, lemma_lex_transitive, lemma_lex_irreflexive,
};

verus! {

/// An installed game found through a launcher or on disk.
#[derive(Debug, Clone)]
pub struct InstalledGame {
    /// Unique key: "{launcher}:{id}".
    pub id: String,
    /// Name shown to the user.
    pub name: String,
    /// Process executable name (lowercase, without ".exe").
    pub exe: String,
    /// "steam" | "epic" | "riot" | "battlenet" | "ea" | "ubisoft" | "gog" | "rockstar"
    pub launcher: String,
    pub install_path: String,
}

/// A game as plain values: (id, name, exe, launcher, install_path).
pub open spec fn game_view(g: InstalledGame) -> (Seq<char>, Seq<char>, Seq<char>, Seq<char>, Seq<char>) {
    (g.id@, g.name@, g.exe@, g.launcher@, g.install_path@)
}

/// A key/value line of a Valve file (`"key" "value"`), trimmed: its key is
/// the text after the first quote, its value the text after the third.
pub open spec fn vdf_key(line: Seq<char>) -> Option<Seq<char>> {
    piece_from(trim_whitespace(line), '"', 0, 1)
}

/// The value of a Valve key/value line.
pub open spec fn vdf_value(line: Seq<char>) -> Option<Seq<char>> {
    piece_from(trim_whitespace(line), '"', 0, 3)
}

/// The library folder named by a line of `libraryfolders.vdf`: the
/// non-empty value of a `path` key (in any case), with doubled backslashes
/// made single.
pub open spec fn vdf_path_of(line: Seq<char>) -> Option<Seq<char>> {
    match vdf_key(line) {
        Some(k) => if lowercase_of(k) == "path"@ {
            match vdf_value(line) {
                Some(v) => if v.len() > 0 {
                    Some(replace_pair(v, '\\', '\\', '\\'))
                } else {
                    None
                },
                None => None,
            }
        } else {
            None
        },
        None => None,
    }
}

/// The library folders named by some lines, in order.
pub open spec fn vdf_paths(lines: Seq<Seq<char>>) -> Seq<Seq<char>>
    decreases lines.len(),
{
    if lines.len() == 0 {
        Seq::<Seq<char>>::empty()
    } else {
        vdf_paths(lines.drop_last()) + match vdf_path_of(lines.last()) {
            Some(p) => seq![p],
            None => Seq::<Seq<char>>::empty(),
        }
    }
}

fn vdf_path_line(line: &str) -> (r: Option<String>)
    ensures
        match r {
            Some(p) => vdf_path_of(line@) == Some(p@),
            None => vdf_path_of(line@) is None,
        },
{
    let t = trim(line);
    match nth_piece(t, '"', 1) {
        Some(k) => {
            let lower = to_lowercase(k.as_str());
            if !str_eq(lower.as_str(), "path") {
                return None;
            }
            match nth_piece(t, '"', 3) {
                Some(v) => {
                    if v.unicode_len() == 0 {
                        None
                    } else {
                        Some(replace_pair_in(v.as_str(), '\\', '\\', '\\'))
                    }
                },
                None => None,
            }
        },
        None => None,
    }
}

/// The library folders listed in the text of a `libraryfolders.vdf`.
pub fn parse_vdf_paths(content: &str) -> (r: Vec<String>)
    ensures
        strings_of(r@) == vdf_paths(lines_from(content@, 0)),
{
    let lines = split_lines(content);
    let ghost ls = lines_from(content@, 0);
    let mut paths: Vec<String> = Vec::new();
    let mut i: usize = 0;
    while i < lines.len()
        invariant
            strings_of(lines@) == ls,
            i <= lines@.len(),
            strings_of(paths@) == vdf_paths(ls.subrange(0, i as int)),
        decreases lines@.len() - i,
    {
        let ghost before = paths@;
        assert(ls.subrange(0, i + 1).drop_last() =~= ls.subrange(0, i as int));
        assert(ls[i as int] == lines@[i as int]@);
        match vdf_path_line(lines[i].as_str()) {
            Some(p) => {
                paths.push(p);
                assert(strings_of(paths@) =~= strings_of(before) + seq![paths@[before.len() as int]@]);
            },
            None => {
                assert(strings_of(paths@) =~= strings_of(before) + Seq::<Seq<char>>::empty());
            },
        }
        i = i + 1;
    }
    assert(ls.subrange(0, ls.len() as int) =~= ls);
    paths
}

/// The value of `key` in an app manifest (`.acf`) from line `i` on: the value
/// of the first line whose key matches (in any case); the search stops at the
/// first line without a quote.
pub open spec fn acf_from(lines: Seq<Seq<char>>, key_lower: Seq<char>, i: int) -> Option<Seq<char>>
    decreases lines.len() - i,
{
    if i < 0 || i >= lines.len() {
        None
    } else {
        match vdf_key(lines[i]) {
            None => None,
            Some(k) => if lowercase_of(k) == key_lower {
                vdf_value(lines[i])
            } else {
                acf_from(lines, key_lower, i + 1)
            },
        }
    }
}

/// The value of `key` in the text of an app manifest.
pub fn acf_value(content: &str, key: &str) -> (r: Option<String>)
    ensures
        match r {
            Some(v) => acf_from(lines_from(content@, 0), lowercase_of(key@), 0) == Some(v@),
            None => acf_from(lines_from(content@, 0), lowercase_of(key@), 0) is None,
        },
{
    let lines = split_lines(content);
    let ghost ls = lines_from(content@, 0);
    let key_lower = to_lowercase(key);
    let mut i: usize = 0;
    while i < lines.len()
        invariant
            strings_of(lines@) == ls,
            ls == lines_from(content@, 0),
            i <= lines@.len(),
            key_lower@ == lowercase_of(key@),
            acf_from(ls, key_lower@, 0) == acf_from(ls, key_lower@, i as int),
        decreases lines@.len() - i,
    {
        assert(ls[i as int] == lines@[i as int]@);
        let t = trim(lines[i].as_str());
        assert(vdf_key(ls[i as int]) == piece_from(t@, '"', 0, 1));
        assert(vdf_value(ls[i as int]) == piece_from(t@, '"', 0, 3));
        match nth_piece(t, '"', 1) {
            None => {
                assert(acf_from(ls, key_lower@, i as int) is None);
                return None;
            },
            Some(k) => {
                let lower = to_lowercase(k.as_str());
                if str_eq(lower.as_str(), key_lower.as_str()) {
                    assert(acf_from(ls, key_lower@, i as int) == vdf_value(ls[i as int]));
                    return nth_piece(t, '"', 3);
                }
            },
        }
        i = i + 1;
    }
    None
}


// ───────────────────────── Steam ─────────────────────────

/// `s` with every `from` replaced by `to`.
pub open spec fn replace_char_spec(s: Seq<char>, from: char, to: char) -> Seq<char> {
    s.map_values(|c: char| if c == from { to } else { c })
}

/// Replaces every `from` of `s` by `to`.
pub fn replace_char(s: &str, from: char, to: char) -> (r: String)
    ensures
        r@ == replace_char_spec(s@, from, to),
{
    let n = s.unicode_len();
    let mut out = String::new();
    let mut i: usize = 0;
    while i < n
        invariant
            n == s@.len(),
            i <= n,
            out@ == replace_char_spec(s@.subrange(0, i as int), from, to),
        decreases n - i,
    {
        let c = s.get_char(i);
        if c == from {
            out.push(to);
        } else {
            out.push(c);
        }
        assert(replace_char_spec(s@.subrange(0, i + 1), from, to) =~= replace_char_spec(s@.subrange(0, i as int), from, to).push(if c == from { to } else { c }));
        i = i + 1;
    }
    assert(s@.subrange(0, n as int) =~= s@);
    out
}

/// The Steam titles looked for: (name, app id, process).
pub open spec fn steam_table() -> Seq<(Seq<char>, u32, Seq<char>)> {
    seq![
        ("Counter-Strike 2"@, 730u32, "cs2"@),
        ("Dota 2"@, 570u32, "dota2"@),
        ("Apex Legends"@, 1172470u32, "r5apex"@),
        ("PUBG: Battlegrounds"@, 578080u32, "tslgame"@),
        ("Rocket League"@, 252950u32, "rocketleague"@),
        ("Rainbow Six Siege"@, 359550u32, "rainbowsix"@),
        ("Cyberpunk 2077"@, 1091500u32, "cyberpunk2077"@),
        ("Grand Theft Auto V"@, 271590u32, "gta5"@),
        ("Red Dead Redemption 2"@, 1174180u32, "rdr2"@),
        ("Elden Ring"@, 1245620u32, "eldenring"@),
        ("Team Fortress 2"@, 440u32, "hl2"@),
        ("Garry's Mod"@, 4000u32, "gmod"@),
        ("Rust"@, 252490u32, "rust"@),
        ("Warframe"@, 230410u32, "warframe"@),
        ("Monster Hunter: World"@, 582010u32, "monsterhunterworld"@),
        ("Deep Rock Galactic"@, 548430u32, "fsd"@),
        ("Hades"@, 1145360u32, "hades"@),
    ]
}

/// The views of a list of Steam titles.
pub open spec fn steam_view(v: Seq<(&str, u32, &str)>) -> Seq<(Seq<char>, u32, Seq<char>)> {
    v.map_values(|t: (&str, u32, &str)| (t.0@, t.1, t.2@))
}

/// The Steam titles looked for, in order.
pub fn steam_known() -> (v: Vec<(&'static str, u32, &'static str)>)
    ensures
        steam_view(v@) == steam_table(),
{
    let v: Vec<(&'static str, u32, &'static str)> = vec![
        ("Counter-Strike 2", 730, "cs2"),
        ("Dota 2", 570, "dota2"),
        ("Apex Legends", 1172470, "r5apex"),
        ("PUBG: Battlegrounds", 578080, "tslgame"),
        ("Rocket League", 252950, "rocketleague"),
        ("Rainbow Six Siege", 359550, "rainbowsix"),
        ("Cyberpunk 2077", 1091500, "cyberpunk2077"),
        ("Grand Theft Auto V", 271590, "gta5"),
        ("Red Dead Redemption 2", 1174180, "rdr2"),
        ("Elden Ring", 1245620, "eldenring"),
        ("Team Fortress 2", 440, "hl2"),
        ("Garry's Mod", 4000, "gmod"),
        ("Rust", 252490, "rust"),
        ("Warframe", 230410, "warframe"),
        ("Monster Hunter: World", 582010, "monsterhunterworld"),
        ("Deep Rock Galactic", 548430, "fsd"),
        ("Hades", 1145360, "hades"),
    ];
    assert(steam_view(v@) =~= steam_table());
    v
}

/// The Steam folder as the registry gives it, with `\` separators.
pub fn steam_root(raw: &str) -> (r: String)
    ensures
        r@ == replace_char_spec(raw@, '/', '\\'),
{
    replace_char(raw, '/', '\\')
}

/// The two library lists of a Steam folder, in the order they are read.
pub fn steam_vdf_files(root: &str) -> (r: (String, String))
    ensures
        r.0@ == root@ + "\\config\\libraryfolders.vdf"@,
        r.1@ == root@ + "\\steamapps\\libraryfolders.vdf"@,
{
    (concat2(root, "\\config\\libraryfolders.vdf"), concat2(root, "\\steamapps\\libraryfolders.vdf"))
}

/// Each library folder as its `steamapps` directory.
pub open spec fn with_steamapps(paths: Seq<Seq<char>>) -> Seq<Seq<char>> {
    paths.map_values(|p: Seq<char>| p + "\\steamapps"@)
}

/// The libraries: the Steam folder's own, then those listed in each library
/// file read, in order.
pub open spec fn steam_libraries_of(root: Seq<char>, contents: Seq<Seq<char>>) -> Seq<Seq<char>>
    decreases contents.len(),
{
    if contents.len() == 0 {
        seq![root + "\\steamapps"@]
    } else {
        steam_libraries_of(root, contents.drop_last()) + with_steamapps(vdf_paths(lines_from(contents.last(), 0)))
    }
}

/// The `steamapps` directories of every library, from the Steam folder and
/// the texts of the library files that could be read.
pub fn steam_libraries(root: &str, contents: &[String]) -> (r: Vec<String>)
    ensures
        strings_of(r@) == steam_libraries_of(root@, strings_of(contents@)),
{
    let mut libs: Vec<String> = Vec::new();
    libs.push(concat2(root, "\\steamapps"));
    let ghost cs = strings_of(contents@);
    assert(strings_of(libs@) =~= steam_libraries_of(root@, cs.subrange(0, 0)));
    let mut i: usize = 0;
    while i < contents.len()
        invariant
            cs == strings_of(contents@),
            i <= contents@.len(),
            strings_of(libs@) == steam_libraries_of(root@, cs.subrange(0, i as int)),
        decreases contents@.len() - i,
    {
        let paths = parse_vdf_paths(contents[i].as_str());
        let ghost start = strings_of(libs@);
        let mut j: usize = 0;
        while j < paths.len()
            invariant
                j <= paths@.len(),
                strings_of(libs@) == start + with_steamapps(strings_of(paths@).subrange(0, j as int)),
            decreases paths@.len() - j,
        {
            let ghost before = strings_of(libs@);
            libs.push(concat2(paths[j].as_str(), "\\steamapps"));
            assert(strings_of(libs@) =~= before.push(paths@[j as int]@ + "\\steamapps"@));
            assert(with_steamapps(strings_of(paths@).subrange(0, j + 1)) =~= with_steamapps(strings_of(paths@).subrange(0, j as int)).push(paths@[j as int]@ + "\\steamapps"@));
            j = j + 1;
        }
        assert(strings_of(paths@).subrange(0, paths@.len() as int) =~= strings_of(paths@));
        assert(cs.subrange(0, i + 1).drop_last() =~= cs.subrange(0, i as int));
        assert(cs.subrange(0, i + 1).last() == contents@[i as int]@);
        i = i + 1;
    }
    assert(cs.subrange(0, cs.len() as int) =~= cs);
    libs
}

/// The manifest of an app in a library: `<lib>\appmanifest_<id>.acf`.
pub fn steam_manifest(lib: &str, appid: u32) -> (r: String)
    ensures
        r@ == lib@ + "\\appmanifest_"@ + decimal(appid as nat) + ".acf"@,
{
    let mut s = concat2(lib, "\\appmanifest_");
    push_decimal(&mut s, appid as u64);
    s.append(".acf");
    s
}

/// The game for Steam title `k` found in library `lib`, installed under
/// `<lib>\common\<installdir>` when its manifest names the directory, else
/// at the library itself.
pub open spec fn steam_game_view(k: int, lib: Seq<char>, manifest: Option<Seq<char>>) -> (Seq<char>, Seq<char>, Seq<char>, Seq<char>, Seq<char>) {
    let t = steam_table()[k];
    let dir = match manifest {
        Some(c) => acf_from(lines_from(c, 0), lowercase_of("installdir"@), 0),
        None => None,
    };
    ("steam:"@ + decimal(t.1 as nat), t.0, t.2, "steam"@, match dir {
        Some(d) => lib + "\\common\\"@ + d,
        None => lib,
    })
}

/// Builds the game for Steam title `k` found in library `lib`, from the text
/// of its manifest when it could be read.
pub fn steam_game(k: usize, lib: &str, manifest: Option<&str>) -> (g: InstalledGame)
    requires
        k < 17,
    ensures
        game_view(g) == steam_game_view(k as int, lib@, match manifest {
            Some(c) => Some(c@),
            None => None,
        }),
{
    let known = steam_known();
    assert(known@.len() == steam_view(known@).len());
    assert(steam_view(known@)[k as int] == steam_table()[k as int]);
    let (name, appid, exe) = known[k];
    assert(name@ == steam_table()[k as int].0 && appid == steam_table()[k as int].1 && exe@ == steam_table()[k as int].2);
    let dir = match manifest {
        Some(c) => acf_value(c, "installdir"),
        None => None,
    };
    let install_path = match dir {
        Some(d) => {
            let mut p = concat2(lib, "\\common\\");
            p.append(d.as_str());
            p
        },
        None => owned(lib),
    };
    let mut id = owned("steam:");
    push_decimal(&mut id, appid as u64);
    InstalledGame { id, name: owned(name), exe: owned(exe), launcher: owned("steam"), install_path }
}


// ───────────────────────── Epic ─────────────────────────

/// The string value of `"key"` in a JSON text, read plainly: the first
/// `"key"`, then (after whitespace) a colon, then (after whitespace) a quoted
/// text up to the next quote, with `\\` made `\` and `\/` made `/`.
pub open spec fn json_field(json: Seq<char>, key: Seq<char>) -> Option<Seq<char>> {
    let pat = seq!['"'] + key + seq!['"'];
    match first_occurrence(json, pat) {
        None => None,
        Some(st) => {
            let rest = trim_start_of(json.subrange(st + pat.len(), json.len() as int));
            if rest.len() > 0 && rest[0] == ':' {
                let r2 = trim_start_of(rest.subrange(1, rest.len() as int));
                if r2.len() > 0 && r2[0] == '"' {
                    let inner = r2.subrange(1, r2.len() as int);
                    match find_from(inner, '"', 0) {
                        Some(e) => Some(replace_pair(replace_pair(inner.subrange(0, e), '\\', '\\', '\\'), '\\', '/', '/')),
                        None => None,
                    }
                } else {
                    None
                }
            } else {
                None
            }
        },
    }
}

/// The string value of `"key"` in a JSON text, read plainly.
pub fn json_str_field(json: &str, key: &str) -> (r: Option<String>)
    ensures
        match r {
            Some(v) => json_field(json@, key@) == Some(v@),
            None => json_field(json@, key@) is None,
        },
{
    let mut pat = owned("\"");
    pat.append(key);
    pat.append("\"");
    assert(pat@ == seq!['"'] + key@ + seq!['"']) by {
        reveal_strlit("\"");
    }
    let start = match find_str(json, pat.as_str()) {
        Some(i) => i,
        None => {
            return None;
        },
    };
    proof {
        let st = choose|i: int| crate::text::is_first_occurrence(json@, pat@, i);
        assert(crate::text::occurs_at(json@, pat@, st));
    }
    let n = json.unicode_len();
    let rest = trim_start(json.substring_char(start + pat.unicode_len(), n));
    let rn = rest.unicode_len();
    if rn == 0 || rest.get_char(0) != ':' {
        return None;
    }
    let r2 = trim_start(rest.substring_char(1, rn));
    let r2n = r2.unicode_len();
    if r2n == 0 || r2.get_char(0) != '"' {
        return None;
    }
    let inner = r2.substring_char(1, r2n);
    proof {
        crate::text::lemma_find_from(inner@, '"', 0);
    }
    match find_char_from(inner, '"', 0) {
        Some(e) => {
            let a = replace_pair_in(inner.substring_char(0, e), '\\', '\\', '\\');
            Some(replace_pair_in(a.as_str(), '\\', '/', '/'))
        },
        None => None,
    }
}

/// The Epic titles looked for: (key in the lowercase display name, process).
pub open spec fn epic_table() -> Seq<(Seq<char>, Seq<char>)> {
    seq![
        ("fortnite"@, "fortniteclient-win64-shipping"@),
        ("rocket league"@, "rocketleague"@),
        ("fall guys"@, "fallguys"@),
        ("the outer worlds"@, "outerworlds"@),
    ]
}

/// The first Epic title whose key occurs in `name_lower`, from `i` on.
pub open spec fn epic_match_from(name_lower: Seq<char>, i: int) -> Option<int>
    decreases 4 - i,
{
    if i < 0 || i >= 4 {
        None
    } else if seq_contains(name_lower, epic_table()[i].0) {
        Some(i)
    } else {
        epic_match_from(name_lower, i + 1)
    }
}

/// The game recorded by an Epic manifest (`.item`): a known title named by a
/// non-empty `DisplayName`, installed at `InstallLocation` (empty when
/// absent); none otherwise.
pub open spec fn epic_game_of(json: Seq<char>) -> Option<(Seq<char>, Seq<char>, Seq<char>, Seq<char>, Seq<char>)> {
    match json_field(json, "DisplayName"@) {
        Some(name) => if name.len() > 0 {
            match epic_match_from(lowercase_of(name), 0) {
                Some(k) => Some((
                    "epic:"@ + replace_char_spec(epic_table()[k].0, ' ', '_'),
                    name,
                    epic_table()[k].1,
                    "epic"@,
                    match json_field(json, "InstallLocation"@) {
                        Some(l) => l,
                        None => Seq::<char>::empty(),
                    },
                )),
                None => None,
            }
        } else {
            None
        },
        None => None,
    }
}

/// The game recorded by the text of an Epic manifest, if it is a known one.
pub fn epic_game(json: &str) -> (r: Option<InstalledGame>)
    ensures
        match r {
            Some(g) => epic_game_of(json@) == Some(game_view(g)),
            None => epic_game_of(json@) is None,
        },
{
    let name = match json_str_field(json, "DisplayName") {
        Some(n) => n,
        None => {
            return None;
        },
    };
    if name.unicode_len() == 0 {
        return None;
    }
    let location = match json_str_field(json, "InstallLocation") {
        Some(l) => l,
        None => String::new(),
    };
    let lower = to_lowercase(name.as_str());
    let keys: [(&str, &str); 4] = [
        ("fortnite", "fortniteclient-win64-shipping"),
        ("rocket league", "rocketleague"),
        ("fall guys", "fallguys"),
        ("the outer worlds", "outerworlds"),
    ];
    assert(forall|k: int| 0 <= k < 4 ==> keys@[k].0@ == epic_table()[k].0 && keys@[k].1@ == epic_table()[k].1);
    let mut i: usize = 0;
    while i < 4
        invariant
            i <= 4,
            forall|k: int| 0 <= k < 4 ==> keys@[k].0@ == epic_table()[k].0 && keys@[k].1@ == epic_table()[k].1,
            epic_match_from(lower@, 0) == epic_match_from(lower@, i as int),
            json_field(json@, "DisplayName"@) == Some(name@),
            name@.len() > 0,
            lower@ == lowercase_of(name@),
            location@ == match json_field(json@, "InstallLocation"@) {
                Some(l) => l,
                None => Seq::<char>::empty(),
            },
        decreases 4 - i,
    {
        let (key, exe) = keys[i];
        assert(key@ == epic_table()[i as int].0 && exe@ == epic_table()[i as int].1);
        if contains_str(lower.as_str(), key) {
            assert(epic_match_from(lower@, i as int) == Some(i as int));
            let mut id = owned("epic:");
            let k2 = replace_char(key, ' ', '_');
            id.append(k2.as_str());
            let g = InstalledGame { id, name, exe: owned(exe), launcher: owned("epic"), install_path: location };
            return Some(g);
        }
        i = i + 1;
    }
    None
}

// ───────────────────────── Fixed titles ─────────────────────────

/// The Riot titles: (folder under `C:\Riot Games`, name, process).
pub open spec fn riot_table() -> Seq<(Seq<char>, Seq<char>, Seq<char>)> {
    seq![
        ("VALORANT"@, "Valorant"@, "valorant-win64-shipping"@),
        ("League of Legends"@, "League of Legends"@, "leagueclient"@),
        ("Teamfight Tactics"@, "Teamfight Tactics"@, "leagueclient"@),
    ]
}

/// The Battle.net titles: (install folder, name, process).
pub open spec fn battlenet_table() -> Seq<(Seq<char>, Seq<char>, Seq<char>)> {
    seq![
        ("C:\\Program Files (x86)\\Overwatch"@, "Overwatch 2"@, "overwatch"@),
        ("C:\\Program Files (x86)\\Call of Duty"@, "Call of Duty"@, "cod"@),
        ("C:\\Program Files (x86)\\Diablo IV"@, "Diablo IV"@, "diablo4"@),
        ("C:\\Program Files (x86)\\World of Warcraft"@, "World of Warcraft"@, "wow"@),
        ("C:\\Program Files (x86)\\StarCraft II"@, "StarCraft II"@, "sc2"@),
    ]
}

/// The EA titles: (install folder, name, process).
pub open spec fn ea_table() -> Seq<(Seq<char>, Seq<char>, Seq<char>)> {
    seq![
        ("C:\\Program Files\\EA Games\\Battlefield 2042"@, "Battlefield 2042"@, "bf2042"@),
        ("C:\\Program Files\\EA Games\\FIFA 24"@, "EA SPORTS FC 24"@, "fc24"@),
        ("C:\\Program Files\\EA Games\\The Sims 4"@, "The Sims 4"@, "ts4"@),
    ]
}

/// The Rockstar titles: (install folder, name, process).
pub open spec fn rockstar_table() -> Seq<(Seq<char>, Seq<char>, Seq<char>)> {
    seq![
        ("C:\\Program Files\\Rockstar Games\\GTA V"@, "Grand Theft Auto V"@, "gta5"@),
        ("C:\\Program Files\\Rockstar Games\\Red Dead Redemption 2"@, "Red Dead Redemption 2"@, "rdr2"@),
    ]
}

/// The views of a title table.
pub open spec fn titles_view(v: Seq<(&str, &str, &str)>) -> Seq<(Seq<char>, Seq<char>, Seq<char>)> {
    v.map_values(|t: (&str, &str, &str)| (t.0@, t.1@, t.2@))
}

/// The Riot titles.
pub fn riot_titles() -> (v: Vec<(&'static str, &'static str, &'static str)>)
    ensures
        titles_view(v@) == riot_table(),
{
    let v: Vec<(&'static str, &'static str, &'static str)> = vec![
        ("VALORANT", "Valorant", "valorant-win64-shipping"),
        ("League of Legends", "League of Legends", "leagueclient"),
        ("Teamfight Tactics", "Teamfight Tactics", "leagueclient"),
    ];
    assert(titles_view(v@) =~= riot_table());
    v
}

/// The Battle.net titles.
pub fn battlenet_titles() -> (v: Vec<(&'static str, &'static str, &'static str)>)
    ensures
        titles_view(v@) == battlenet_table(),
{
    let v: Vec<(&'static str, &'static str, &'static str)> = vec![
        ("C:\\Program Files (x86)\\Overwatch", "Overwatch 2", "overwatch"),
        ("C:\\Program Files (x86)\\Call of Duty", "Call of Duty", "cod"),
        ("C:\\Program Files (x86)\\Diablo IV", "Diablo IV", "diablo4"),
        ("C:\\Program Files (x86)\\World of Warcraft", "World of Warcraft", "wow"),
        ("C:\\Program Files (x86)\\StarCraft II", "StarCraft II", "sc2"),
    ];
    assert(titles_view(v@) =~= battlenet_table());
    v
}

/// The EA titles.
pub fn ea_titles() -> (v: Vec<(&'static str, &'static str, &'static str)>)
    ensures
        titles_view(v@) == ea_table(),
{
    let v: Vec<(&'static str, &'static str, &'static str)> = vec![
        ("C:\\Program Files\\EA Games\\Battlefield 2042", "Battlefield 2042", "bf2042"),
        ("C:\\Program Files\\EA Games\\FIFA 24", "EA SPORTS FC 24", "fc24"),
        ("C:\\Program Files\\EA Games\\The Sims 4", "The Sims 4", "ts4"),
    ];
    assert(titles_view(v@) =~= ea_table());
    v
}

/// The Rockstar titles.
pub fn rockstar_titles() -> (v: Vec<(&'static str, &'static str, &'static str)>)
    ensures
        titles_view(v@) == rockstar_table(),
{
    let v: Vec<(&'static str, &'static str, &'static str)> = vec![
        ("C:\\Program Files\\Rockstar Games\\GTA V", "Grand Theft Auto V", "gta5"),
        ("C:\\Program Files\\Rockstar Games\\Red Dead Redemption 2", "Red Dead Redemption 2", "rdr2"),
    ];
    assert(titles_view(v@) =~= rockstar_table());
    v
}


/// The views of a list of games.
pub open spec fn games_view(v: Seq<InstalledGame>) -> Seq<(Seq<char>, Seq<char>, Seq<char>, Seq<char>, Seq<char>)> {
    v.map_values(|g: InstalledGame| game_view(g))
}

/// The game of a fixed title: id `<launcher>:<process>`, installed in its
/// folder.
pub open spec fn title_game_view(launcher: Seq<char>, t: (Seq<char>, Seq<char>, Seq<char>)) -> (Seq<char>, Seq<char>, Seq<char>, Seq<char>, Seq<char>) {
    (launcher + ":"@ + t.2, t.1, t.2, launcher, t.0)
}

/// The games of the titles whose folder is present, in table order.
pub open spec fn found_titles(launcher: Seq<char>, table: Seq<(Seq<char>, Seq<char>, Seq<char>)>, present: Seq<bool>) -> Seq<(Seq<char>, Seq<char>, Seq<char>, Seq<char>, Seq<char>)>
    decreases table.len(),
{
    if table.len() == 0 {
        Seq::empty()
    } else {
        found_titles(launcher, table.drop_last(), present) + if present[table.len() - 1] {
            seq![title_game_view(launcher, table.last())]
        } else {
            Seq::empty()
        }
    }
}

/// The games of a fixed title table whose folders are present.
pub fn titles_found(launcher: &str, table: &[(&str, &str, &str)], present: &[bool]) -> (r: Vec<InstalledGame>)
    requires
        present@.len() == table@.len(),
    ensures
        games_view(r@) == found_titles(launcher@, titles_view(table@), present@),
{
    let mut games: Vec<InstalledGame> = Vec::new();
    let ghost tv = titles_view(table@);
    let mut i: usize = 0;
    while i < table.len()
        invariant
            present@.len() == table@.len(),
            tv == titles_view(table@),
            i <= table@.len(),
            games_view(games@) == found_titles(launcher@, tv.subrange(0, i as int), present@),
        decreases table@.len() - i,
    {
        assert(tv.subrange(0, i + 1).drop_last() =~= tv.subrange(0, i as int));
        assert(tv.subrange(0, i + 1).last() == tv[i as int]);
        let ghost before = games_view(games@);
        if present[i] {
            let (path, name, exe) = table[i];
            let mut id = owned(launcher);
            id.append(":");
            id.append(exe);
            games.push(InstalledGame { id, name: owned(name), exe: owned(exe), launcher: owned(launcher), install_path: owned(path) });
            assert(games_view(games@) =~= before + seq![title_game_view(launcher@, tv[i as int])]);
        } else {
            assert(games_view(games@) =~= before + Seq::<(Seq<char>, Seq<char>, Seq<char>, Seq<char>, Seq<char>)>::empty());
        }
        i = i + 1;
    }
    assert(tv.subrange(0, tv.len() as int) =~= tv);
    games
}

/// Battle.net games: none when the launcher is not installed, else the
/// titles whose folder is present.
pub fn battlenet_games(installed: bool, present: &[bool]) -> (r: Vec<InstalledGame>)
    requires
        present@.len() == 5,
    ensures
        !installed ==> r@.len() == 0,
        installed ==> games_view(r@) == found_titles("battlenet"@, battlenet_table(), present@),
{
    if !installed {
        return Vec::new();
    }
    let t = battlenet_titles();
    assert(t@.len() == titles_view(t@).len());
    titles_found("battlenet", t.as_slice(), present)
}

/// EA games: none when the app is not installed, else the titles whose
/// folder is present.
pub fn ea_games(installed: bool, present: &[bool]) -> (r: Vec<InstalledGame>)
    requires
        present@.len() == 3,
    ensures
        !installed ==> r@.len() == 0,
        installed ==> games_view(r@) == found_titles("ea"@, ea_table(), present@),
{
    if !installed {
        return Vec::new();
    }
    let t = ea_titles();
    assert(t@.len() == titles_view(t@).len());
    titles_found("ea", t.as_slice(), present)
}

/// Rockstar games: the titles whose folder is present.
pub fn rockstar_games(present: &[bool]) -> (r: Vec<InstalledGame>)
    requires
        present@.len() == 2,
    ensures
        games_view(r@) == found_titles("rockstar"@, rockstar_table(), present@),
{
    let t = rockstar_titles();
    assert(t@.len() == titles_view(t@).len());
    titles_found("rockstar", t.as_slice(), present)
}

/// The folder of a Riot title.
pub fn riot_path(folder: &str) -> (r: String)
    ensures
        r@ == "C:\\Riot Games\\"@ + folder@,
{
    concat2("C:\\Riot Games\\", folder)
}

/// The game of a Riot title: id `riot:<folder in lowercase, spaces as _>`.
pub open spec fn riot_game_view(t: (Seq<char>, Seq<char>, Seq<char>)) -> (Seq<char>, Seq<char>, Seq<char>, Seq<char>, Seq<char>) {
    ("riot:"@ + replace_char_spec(lowercase_of(t.0), ' ', '_'), t.1, t.2, "riot"@, "C:\\Riot Games\\"@ + t.0)
}

/// The games of the Riot titles whose folder is present, in table order.
pub open spec fn riot_found(table: Seq<(Seq<char>, Seq<char>, Seq<char>)>, present: Seq<bool>) -> Seq<(Seq<char>, Seq<char>, Seq<char>, Seq<char>, Seq<char>)>
    decreases table.len(),
{
    if table.len() == 0 {
        Seq::empty()
    } else {
        riot_found(table.drop_last(), present) + if present[table.len() - 1] {
            seq![riot_game_view(table.last())]
        } else {
            Seq::empty()
        }
    }
}

/// Riot games: the titles whose folder is present.
pub fn riot_games(present: &[bool]) -> (r: Vec<InstalledGame>)
    requires
        present@.len() == 3,
    ensures
        games_view(r@) == riot_found(riot_table(), present@),
{
    let table = riot_titles();
    let ghost tv = titles_view(table@);
    assert(table@.len() == tv.len());
    let mut games: Vec<InstalledGame> = Vec::new();
    let mut i: usize = 0;
    while i < table.len()
        invariant
            present@.len() == 3,
            tv == titles_view(table@),
            tv == riot_table(),
            table@.len() == 3,
            i <= 3,
            games_view(games@) == riot_found(tv.subrange(0, i as int), present@),
        decreases 3 - i,
    {
        assert(tv.subrange(0, i + 1).drop_last() =~= tv.subrange(0, i as int));
        assert(tv.subrange(0, i + 1).last() == tv[i as int]);
        let ghost before = games_view(games@);
        if present[i] {
            let (folder, name, exe) = table[i];
            let lower = to_lowercase(folder);
            let key = replace_char(lower.as_str(), ' ', '_');
            let id = concat2("riot:", key.as_str());
            games.push(InstalledGame { id, name: owned(name), exe: owned(exe), launcher: owned("riot"), install_path: riot_path(folder) });
            assert(games_view(games@) =~= before + seq![riot_game_view(tv[i as int])]);
        } else {
            assert(games_view(games@) =~= before + Seq::<(Seq<char>, Seq<char>, Seq<char>, Seq<char>, Seq<char>)>::empty());
        }
        i = i + 1;
    }
    assert(tv.subrange(0, 3) =~= tv);
    games
}

/// The last `\`-separated segment of a path (the whole path without one).
pub open spec fn last_segment(s: Seq<char>) -> Seq<char> {
    if exists|i: int| crate::rollback::is_last_backslash(s, i) {
        s.subrange((choose|i: int| crate::rollback::is_last_backslash(s, i)) + 1, s.len() as int)
    } else {
        s
    }
}

fn last_segment_of(s: &str) -> (r: String)
    ensures
        r@ == last_segment(s@),
{
    let (_, name) = crate::rollback::split_key(s);
    proof {
        if exists|i: int| crate::rollback::is_last_backslash(s@, i) {
            let c = choose|i: int| crate::rollback::is_last_backslash(s@, i);
            if exists|i: int| crate::rollback::is_last_backslash(s@, i) && name@ == s@.subrange(i + 1, s@.len() as int) {
                let j = choose|i: int| crate::rollback::is_last_backslash(s@, i) && name@ == s@.subrange(i + 1, s@.len() as int);
                if c < j {
                    assert(s@[j] != '\\');
                } else if j < c {
                    assert(s@[c] != '\\');
                }
            } else {
                assert(s@[c] != '\\');
            }
        }
    }
    owned(name)
}

/// `s` without the characters `a` and `b`.
pub open spec fn without_chars(s: Seq<char>, a: char, b: char) -> Seq<char>
    decreases s.len(),
{
    if s.len() == 0 {
        s
    } else if s.last() != a && s.last() != b {
        without_chars(s.drop_last(), a, b).push(s.last())
    } else {
        without_chars(s.drop_last(), a, b)
    }
}

fn remove_chars(s: &str, a: char, b: char) -> (r: String)
    ensures
        r@ == without_chars(s@, a, b),
{
    let n = s.unicode_len();
    let mut out = String::new();
    let mut i: usize = 0;
    while i < n
        invariant
            n == s@.len(),
            i <= n,
            out@ == without_chars(s@.subrange(0, i as int), a, b),
        decreases n - i,
    {
        let c = s.get_char(i);
        assert(s@.subrange(0, i + 1).drop_last() =~= s@.subrange(0, i as int));
        assert(s@.subrange(0, i + 1).last() == c);
        if c != a && c != b {
            out.push(c);
        }
        i = i + 1;
    }
    assert(s@.subrange(0, n as int) =~= s@);
    out
}

/// A Ubisoft install: its name is the last folder of its install directory,
/// its process that name in lowercase without spaces and dashes.
pub open spec fn ubisoft_game_view(gid: Seq<char>, install_dir: Seq<char>) -> (Seq<char>, Seq<char>, Seq<char>, Seq<char>, Seq<char>) {
    let name = last_segment(replace_char_spec(install_dir, '/', '\\'));
    ("ubisoft:"@ + gid, name, without_chars(lowercase_of(name), ' ', '-'), "ubisoft"@, install_dir)
}

/// The game of a Ubisoft install.
pub fn ubisoft_game(gid: &str, install_dir: &str) -> (g: InstalledGame)
    ensures
        game_view(g) == ubisoft_game_view(gid@, install_dir@),
{
    let norm = replace_char(install_dir, '/', '\\');
    let name = last_segment_of(norm.as_str());
    let lower = to_lowercase(name.as_str());
    let exe = remove_chars(lower.as_str(), ' ', '-');
    InstalledGame { id: concat2("ubisoft:", gid), name, exe, launcher: owned("ubisoft"), install_path: owned(install_dir) }
}

/// `s` without any trailing ".exe" (as `trim_end_matches`).
pub open spec fn strip_exe(s: Seq<char>) -> Seq<char>
    decreases s.len(),
{
    if s.len() >= 4 && s.subrange(s.len() - 4, s.len() as int) == ".exe"@ {
        strip_exe(s.subrange(0, s.len() - 4))
    } else {
        s
    }
}

fn strip_exe_of(s: &str) -> (r: &str)
    ensures
        r@ == strip_exe(s@),
{
    let mut end: usize = s.unicode_len();
    assert(s@.subrange(0, end as int) =~= s@);
    while end >= 4 && str_eq(s.substring_char(end - 4, end), ".exe")
        invariant
            end <= s@.len(),
            strip_exe(s@) == strip_exe(s@.subrange(0, end as int)),
        decreases end,
    {
        assert(s@.subrange(0, end as int).subrange(end - 4, end as int) =~= s@.subrange(end - 4, end as int));
        assert(s@.subrange(0, end as int).subrange(0, end - 4) =~= s@.subrange(0, end - 4));
        end = end - 4;
    }
    assert(end >= 4 ==> s@.subrange(0, end as int).subrange(end - 4, end as int) =~= s@.subrange(end - 4, end as int));
    assert(s@.subrange(0, s@.len() as int) =~= s@);
    s.substring_char(0, end)
}

/// A GOG install: its process is the launch command's file name without
/// ".exe", in lowercase.
pub open spec fn gog_game_view(gid: Seq<char>, name: Seq<char>, path: Seq<char>, launch: Seq<char>) -> (Seq<char>, Seq<char>, Seq<char>, Seq<char>, Seq<char>) {
    ("gog:"@ + gid, name, lowercase_of(strip_exe(last_segment(replace_char_spec(launch, '/', '\\')))), "gog"@, path)
}

/// The game of a GOG install.
pub fn gog_game(gid: &str, name: &str, path: &str, launch: &str) -> (g: InstalledGame)
    ensures
        game_view(g) == gog_game_view(gid@, name@, path@, launch@),
{
    let norm = replace_char(launch, '/', '\\');
    let file = last_segment_of(norm.as_str());
    let exe = to_lowercase(strip_exe_of(file.as_str()));
    InstalledGame { id: concat2("gog:", gid), name: owned(name), exe, launcher: owned("gog"), install_path: owned(path) }
}


// ───────────────────────── Merging ─────────────────────────

/// Whether some game of `gs` has the id `id`.
pub open spec fn has_game_id(gs: Seq<InstalledGame>, id: Seq<char>) -> bool {
    exists|k: int| 0 <= k < gs.len() && (#[trigger] gs[k]).id@ == id
}

/// The games with each id kept at its first occurrence, in order.
pub open spec fn dedup_by_id(gs: Seq<InstalledGame>) -> Seq<InstalledGame>
    decreases gs.len(),
{
    if gs.len() == 0 {
        gs
    } else if has_game_id(gs.drop_last(), gs.last().id@) {
        dedup_by_id(gs.drop_last())
    } else {
        dedup_by_id(gs.drop_last()).push(gs.last())
    }
}

/// Names in order: equal or lexicographically before.
pub open spec fn name_le(a: Seq<char>, b: Seq<char>) -> bool {
    a == b || lex_less(a, b)
}

/// Whether some index of `p` maps to `w`.
pub open spec fn hits(p: Seq<int>, w: int) -> bool {
    exists|i: int| 0 <= i < p.len() && p[i] == w
}

/// Whether `r` is `d` stably sorted by name through the permutation `p`:
/// `r[i]` is `d[p[i]]`, names never decrease, and games of equal names keep
/// their order.
pub open spec fn stable_sorted_by_name(d: Seq<InstalledGame>, r: Seq<InstalledGame>, p: Seq<int>) -> bool {
    &&& r.len() == d.len() && p.len() == d.len()
    &&& forall|i: int| 0 <= i < p.len() ==> 0 <= #[trigger] p[i] < d.len()
    &&& forall|i: int, j: int| 0 <= i < j < p.len() ==> p[i] != p[j]
    &&& forall|w: int| 0 <= w < d.len() ==> #[trigger] hits(p, w)
    &&& forall|i: int| 0 <= i < r.len() ==> game_view(#[trigger] r[i]) == game_view(d[p[i]])
    &&& forall|i: int, j: int| 0 <= i < j < r.len() ==> name_le(#[trigger] r[i].name@, #[trigger] r[j].name@)
    &&& forall|i: int, j: int| 0 <= i < j < r.len() && r[i].name@ == r[j].name@ ==> p[i] < p[j]
}

/// Keeps the first game of each id.
fn dedup_games(games: Vec<InstalledGame>) -> (r: Vec<InstalledGame>)
    ensures
        r@ == dedup_by_id(games@),
{
    let ghost orig = games@;
    let n = games.len();
    let mut rest = games;
    let mut out: Vec<InstalledGame> = Vec::new();
    let mut i: usize = 0;
    while rest.len() > 0
        invariant
            n == orig.len(),
            i <= orig.len(),
            rest@ == orig.subrange(i as int, orig.len() as int),
            out@ == dedup_by_id(orig.subrange(0, i as int)),
            forall|id: Seq<char>| has_game_id(out@, id) == has_game_id(orig.subrange(0, i as int), id),
        decreases rest@.len(),
    {
        let g = rest.remove(0);
        assert(g == orig[i as int]);
        let ghost pre = orig.subrange(0, i as int);
        let ghost full = orig.subrange(0, i + 1);
        assert(full.drop_last() =~= pre);
        assert(full.last() == g);
        let mut seen = false;
        let mut k: usize = 0;
        while k < out.len()
            invariant
                k <= out@.len(),
                seen == exists|q: int| 0 <= q < k && (#[trigger] out@[q]).id@ == g.id@,
            decreases out@.len() - k,
        {
            if str_eq(out[k].id.as_str(), g.id.as_str()) {
                seen = true;
            }
            k = k + 1;
        }
        let ghost before = out@;
        assert(forall|id: Seq<char>| #[trigger] has_game_id(before, id) == has_game_id(pre, id));
        assert(seen == has_game_id(before, g.id@));
        if !seen {
            out.push(g);
        }
        proof {
            assert forall|id: Seq<char>| has_game_id(out@, id) == has_game_id(full, id) by {
                assert(has_game_id(before, id) == has_game_id(pre, id));
                if has_game_id(full, id) {
                    let q = choose|q: int| 0 <= q < full.len() && (#[trigger] full[q]).id@ == id;
                    if q < i {
                        assert(pre[q] == full[q]);
                        assert(has_game_id(pre, id));
                        let w = choose|w: int| 0 <= w < before.len() && (#[trigger] before[w]).id@ == id;
                        assert(out@[w] == before[w]);
                    } else if !seen {
                        assert(out@[before.len() as int] == g);
                    } else {
                        let w = choose|w: int| 0 <= w < before.len() && (#[trigger] before[w]).id@ == g.id@;
                        assert(out@[w] == before[w]);
                    }
                }
                if has_game_id(out@, id) {
                    let q = choose|q: int| 0 <= q < out@.len() && (#[trigger] out@[q]).id@ == id;
                    if q < before.len() {
                        assert(before[q] == out@[q]);
                        assert(has_game_id(before, id));
                        let w = choose|w: int| 0 <= w < pre.len() && (#[trigger] pre[w]).id@ == id;
                        assert(full[w] == pre[w]);
                    } else {
                        assert(full[i as int] == g);
                    }
                }
            }
        }
        i = i + 1;
        assert(rest@ =~= orig.subrange(i as int, orig.len() as int));
    }
    assert(orig.subrange(0, orig.len() as int) =~= orig);
    out
}


/// Sorts games by name, games of equal names keeping their order.
fn sort_by_name(d: Vec<InstalledGame>) -> (r: Vec<InstalledGame>)
    ensures
        exists|p: Seq<int>| stable_sorted_by_name(d@, r@, p),
{
    let ghost orig = d@;
    let n = d.len();
    let mut rest = d;
    let mut out: Vec<InstalledGame> = Vec::new();
    let ghost mut p: Seq<int> = Seq::empty();
    let mut k: usize = 0;
    while rest.len() > 0
        invariant
            n == orig.len(),
            k <= n,
            rest@ == orig.subrange(k as int, n as int),
            out@.len() == k,
            p.len() == k,
            forall|i: int| 0 <= i < p.len() ==> 0 <= #[trigger] p[i] < k,
            forall|i: int, j: int| 0 <= i < j < p.len() ==> p[i] != p[j],
            forall|w: int| 0 <= w < k ==> #[trigger] hits(p, w),
            forall|i: int| 0 <= i < out@.len() ==> #[trigger] out@[i] == orig[p[i]],
            forall|i: int, j: int| 0 <= i < j < out@.len() ==> name_le(#[trigger] out@[i].name@, #[trigger] out@[j].name@),
            forall|i: int, j: int| 0 <= i < j < out@.len() && out@[i].name@ == out@[j].name@ ==> p[i] < p[j],
        decreases rest@.len(),
    {
        let g = rest.remove(0);
        assert(g == orig[k as int]);
        let mut q: usize = 0;
        while q < out.len() && !str_less(g.name.as_str(), out[q].name.as_str())
            invariant
                q <= out@.len(),
                forall|t: int| 0 <= t < q ==> !lex_less(g.name@, (#[trigger] out@[t]).name@),
            decreases out@.len() - q,
        {
            q = q + 1;
        }
        let ghost old_out = out@;
        let ghost old_p = p;
        out.insert(q, g);
        proof {
            p = old_p.insert(q as int, k as int);
            let w = out@;
            assert(w =~= old_out.insert(q as int, g));
            assert forall|a: int, b: int| 0 <= a < b < w.len() implies name_le(#[trigger] w[a].name@, #[trigger] w[b].name@) by {
                if b < q {
                    assert(w[a] == old_out[a] && w[b] == old_out[b]);
                } else if b == q {
                    assert(w[a] == old_out[a]);
                    if old_out[a].name@ != g.name@ {
                        crate::text::lemma_lex_trichotomy(old_out[a].name@, g.name@);
                    }
                } else if a < q {
                    assert(w[a] == old_out[a] && w[b] == old_out[b - 1]);
                } else if a == q {
                    assert(w[b] == old_out[b - 1]);
                    assert(lex_less(g.name@, old_out[q as int].name@));
                    if b - 1 > q && old_out[q as int].name@ != old_out[b - 1].name@ {
                        lemma_lex_transitive(g.name@, old_out[q as int].name@, old_out[b - 1].name@, 0);
                    }
                } else {
                    assert(w[a] == old_out[a - 1] && w[b] == old_out[b - 1]);
                }
            }
            assert forall|a: int, b: int| 0 <= a < b < w.len() && w[a].name@ == w[b].name@ implies p[a] < p[b] by {
                if b < q {
                    assert(w[a] == old_out[a] && w[b] == old_out[b]);
                } else if b == q {
                } else if a < q {
                    assert(w[a] == old_out[a] && w[b] == old_out[b - 1]);
                } else if a == q {
                    assert(w[b] == old_out[b - 1]);
                    assert(lex_less(g.name@, old_out[q as int].name@));
                    if b - 1 > q && old_out[q as int].name@ != old_out[b - 1].name@ {
                        lemma_lex_transitive(g.name@, old_out[q as int].name@, old_out[b - 1].name@, 0);
                    }
                    lemma_lex_irreflexive(g.name@, 0);
                } else {
                    assert(w[a] == old_out[a - 1] && w[b] == old_out[b - 1]);
                }
            }
            assert forall|x: int| 0 <= x < k + 1 implies #[trigger] hits(p, x) by {
                if x == k {
                    assert(p[q as int] == x);
                } else {
                    assert(hits(old_p, x));
                    let i = choose|i: int| 0 <= i < old_p.len() && old_p[i] == x;
                    if i < q {
                        assert(p[i] == x);
                    } else {
                        assert(p[i + 1] == x);
                    }
                }
            }
            assert forall|a: int| 0 <= a < w.len() implies #[trigger] w[a] == orig[p[a]] by {
                if a < q {
                    assert(w[a] == old_out[a]);
                } else if a > q {
                    assert(w[a] == old_out[a - 1]);
                }
            }
        }
        k = k + 1;
        assert(rest@ =~= orig.subrange(k as int, n as int));
    }
    assert(stable_sorted_by_name(orig, out@, p));
    out
}

/// The games of all launchers merged: the first game of each id kept, then
/// sorted by name, games of equal names keeping their order.
fn merge_games(games: Vec<InstalledGame>) -> (r: Vec<InstalledGame>)
    ensures
        exists|p: Seq<int>| stable_sorted_by_name(dedup_by_id(games@), r@, p),
{
    let d = dedup_games(games);
    sort_by_name(d)
}


/// Dropping repeated ids leaves distinct ids and loses none.
proof fn lemma_dedup_by_id(gs: Seq<InstalledGame>)
    ensures
        forall|i: int, j: int| 0 <= i < j < dedup_by_id(gs).len() ==> (#[trigger] dedup_by_id(gs)[i]).id@ != (#[trigger] dedup_by_id(gs)[j]).id@,
        forall|id: Seq<char>| #[trigger] has_game_id(dedup_by_id(gs), id) == has_game_id(gs, id),
    decreases gs.len(),
{
    if gs.len() > 0 {
        let pre = gs.drop_last();
        lemma_dedup_by_id(pre);
        let d0 = dedup_by_id(pre);
        let d = dedup_by_id(gs);
        assert forall|id: Seq<char>| #[trigger] has_game_id(d, id) == has_game_id(gs, id) by {
            assert(has_game_id(d0, id) == has_game_id(pre, id));
            if has_game_id(gs, id) {
                let q = choose|q: int| 0 <= q < gs.len() && (#[trigger] gs[q]).id@ == id;
                if q < pre.len() {
                    assert(pre[q] == gs[q]);
                    let w = choose|w: int| 0 <= w < d0.len() && (#[trigger] d0[w]).id@ == id;
                    assert(d[w] == d0[w]);
                } else if has_game_id(pre, gs.last().id@) {
                    let w = choose|w: int| 0 <= w < d0.len() && (#[trigger] d0[w]).id@ == id;
                    assert(d[w] == d0[w]);
                } else {
                    assert(d[d0.len() as int] == gs.last());
                }
            }
            if has_game_id(d, id) {
                let q = choose|q: int| 0 <= q < d.len() && (#[trigger] d[q]).id@ == id;
                if q < d0.len() {
                    assert(d0[q] == d[q]);
                    let w = choose|w: int| 0 <= w < pre.len() && (#[trigger] pre[w]).id@ == id;
                    assert(gs[w] == pre[w]);
                } else {
                    assert(gs[gs.len() - 1] == d[q]);
                }
            }
        }
        if !has_game_id(pre, gs.last().id@) {
            assert forall|i: int, j: int| 0 <= i < j < d.len() implies (#[trigger] d[i]).id@ != (#[trigger] d[j]).id@ by {
                if j == d0.len() {
                    assert(d[i] == d0[i]);
                    if d0[i].id@ == gs.last().id@ {
                        assert(has_game_id(d0, gs.last().id@));
                    }
                } else {
                    assert(d[i] == d0[i] && d[j] == d0[j]);
                }
            }
        }
    }
}

/// Merging keeps one game per id: the merged games have distinct ids, and an
/// id is among them exactly when some launcher reported it.
pub proof fn lemma_merged_ids(games: Seq<InstalledGame>, r: Seq<InstalledGame>, p: Seq<int>)
    requires
        stable_sorted_by_name(dedup_by_id(games), r, p),
    ensures
        forall|i: int, j: int| 0 <= i < j < r.len() ==> (#[trigger] r[i]).id@ != (#[trigger] r[j]).id@,
        forall|id: Seq<char>| #[trigger] has_game_id(r, id) == has_game_id(games, id),
{
    lemma_dedup_by_id(games);
    let d = dedup_by_id(games);
    assert forall|i: int, j: int| 0 <= i < j < r.len() implies (#[trigger] r[i]).id@ != (#[trigger] r[j]).id@ by {
        assert(game_view(r[i]) == game_view(d[p[i]]));
        assert(game_view(r[j]) == game_view(d[p[j]]));
        if p[i] < p[j] {
            assert(d[p[i]].id@ != d[p[j]].id@);
        } else {
            assert(d[p[j]].id@ != d[p[i]].id@);
        }
    }
    assert forall|id: Seq<char>| #[trigger] has_game_id(r, id) == has_game_id(games, id) by {
        assert(has_game_id(d, id) == has_game_id(games, id));
        if has_game_id(r, id) {
            let q = choose|q: int| 0 <= q < r.len() && (#[trigger] r[q]).id@ == id;
            assert(game_view(r[q]) == game_view(d[p[q]]));
            assert(d[p[q]].id@ == id);
        }
        if has_game_id(d, id) {
            let w = choose|w: int| 0 <= w < d.len() && (#[trigger] d[w]).id@ == id;
            assert(hits(p, w));
            let q = choose|q: int| 0 <= q < p.len() && p[q] == w;
            assert(game_view(r[q]) == game_view(d[p[q]]));
        }
    }
}


/// The games of the launchers, concatenated in launcher order.
pub open spec fn all_launchers(v: Seq<Vec<InstalledGame>>) -> Seq<InstalledGame> {
    v.map_values(|g: Vec<InstalledGame>| g@).flatten()
}

/// The games of all launchers, given launcher by launcher: concatenated in
/// launcher order, the first game of each id kept, then sorted by name,
/// games of equal names keeping their order.
pub fn detect_all(by_launcher: Vec<Vec<InstalledGame>>) -> (r: Vec<InstalledGame>)
    ensures
        exists|p: Seq<int>| #[trigger] stable_sorted_by_name(dedup_by_id(all_launchers(by_launcher@)), r@, p),
{
    let ghost groups = by_launcher@.map_values(|v: Vec<InstalledGame>| v@);
    let n = by_launcher.len();
    let mut rest = by_launcher;
    let mut all: Vec<InstalledGame> = Vec::new();
    let mut i: usize = 0;
    while rest.len() > 0
        invariant
            n == groups.len(),
            i <= n,
            rest@.map_values(|v: Vec<InstalledGame>| v@) == groups.subrange(i as int, n as int),
            all@ == groups.subrange(0, i as int).flatten_alt(),
        decreases rest@.len(),
    {
        assert(rest@.map_values(|v: Vec<InstalledGame>| v@).len() == rest@.len());
        assert(rest@.map_values(|v: Vec<InstalledGame>| v@)[0] == rest@[0]@);
        let ghost old_rest = rest@;
        let mut g = rest.remove(0);
        assert(g@ == groups[i as int]);
        let ghost before = all@;
        all.append(&mut g);
        assert(groups.subrange(0, i + 1).drop_last() =~= groups.subrange(0, i as int));
        assert(all@ == before + groups[i as int]);
        i = i + 1;
        assert forall|k: int| 0 <= k < rest@.len() implies rest@[k]@ == groups.subrange(i as int, n as int)[k] by {
            assert(rest@[k] == old_rest[k + 1]);
            assert(old_rest.map_values(|v: Vec<InstalledGame>| v@)[k + 1] == old_rest[k + 1]@);
        }
        assert(rest@.map_values(|v: Vec<InstalledGame>| v@) =~= groups.subrange(i as int, n as int));
    }
    proof {
        assert(groups.subrange(0, n as int) =~= groups);
        groups.lemma_flatten_and_flatten_alt_are_equivalent();
        assert(all@ == all_launchers(by_launcher@));
    }
    merge_games(all)
}

} // verus!
