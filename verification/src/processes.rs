//! Matching of running processes against the tables of known overhead apps
//! (overlays, peripheral managers) and of known games, for the live monitor.
//! Read-only: nothing here touches a process.
use vstd::prelude::*;

use crate::configs::lemma_filter_step;
use crate::text::{concat2, contains_str, lowercase_of, owned, seq_contains, str_eq, to_lowercase};

verus! {

/// A running process as the system lists it: its id, the path of its
/// executable (empty when it cannot be read), the file stem of that path, and
/// the process name.
pub struct ProcessInfo {
    pub pid: u32,
    pub exe_path: String,
    pub exe_stem: String,
    pub name: String,
}

/// An overhead app found running.
pub struct HeavyAppDetected {
    pub name: String,
    /// The lowercase file stem of its executable.
    pub exe: String,
    /// "alto", "medio" or "baixo".
    pub impact: String,
    pub description: String,
}

/// A known game found running.
pub struct DetectedGame {
    pub pid: u32,
    pub name: String,
    pub exe: String,
}
pub const HEAVY_APP_COUNT: usize = 14;
pub const GAME_EXE_COUNT: usize = 25;
pub const KNOWN_GAME_COUNT: usize = 25;

/// The overhead apps: fragment of the executable or process name (lowercase),
/// display name, impact and description.
pub open spec fn heavy_table() -> Seq<(Seq<char>, Seq<char>, Seq<char>, Seq<char>)> {
    seq![
        ("discord"@, "Discord"@, "alto"@, "Overlay e cliente de voz. Injeta hooks em jogos e consome ~150 MB de RAM."@),
        ("gameoverlayui"@, "Steam Overlay"@, "medio"@, "Overlay da Steam injetado em jogos. Pode causar stutters em títulos sensíveis."@),
        ("nvidia share"@, "GeForce Overlay"@, "medio"@, "NVIDIA Share / ShadowPlay. Captura e overlay da GeForce Experience em segundo plano."@),
        ("nvdisplay.container"@, "NVIDIA Container"@, "baixo"@, "Serviços de driver NVIDIA. Necessário para GPU funcionar, mas pode ser atualizado."@),
        ("gamebar"@, "Xbox Game Bar"@, "medio"@, "Overlay do Windows com captura de tela e FPS counter. Consume CPU quando ativo."@),
        ("gamebarftserver"@, "Xbox Game Bar (FT Server)"@, "medio"@, "Componente do Xbox Game Bar. Ativo mesmo com overlay fechado."@),
        ("overwolf"@, "Overwolf"@, "alto"@, "Plataforma de overlay e apps de jogos. Injeta hooks em processos — alto consumo de CPU/RAM."@),
        ("curseforge"@, "CurseForge"@, "baixo"@, "Gerenciador de mods. Mantém serviço de sync ativo em segundo plano."@),
        ("msicenter"@, "MSI Center"@, "baixo"@, "Software de controle MSI (RGB, ventoinhas). Consome CPU em polling contínuo."@),
        ("armourycrate"@, "Armoury Crate (ASUS)"@, "baixo"@, "Software ASUS para controle de RGB e overclock. Múltiplos processos em segundo plano."@),
        ("razer synapse"@, "Razer Synapse"@, "baixo"@, "Software Razer para periféricos. Mantém múltiplos serviços ativos em segundo plano."@),
        ("rzsdkserver"@, "Razer SDK Server"@, "baixo"@, "Componente do Razer Synapse para integração com jogos."@),
        ("lghub"@, "Logitech G HUB"@, "baixo"@, "Software de periféricos Logitech. Usa Electron — ~150 MB de RAM e polling de USB."@),
        ("icue"@, "Corsair iCUE"@, "baixo"@, "Software Corsair para RGB e ventoinhas. Alto uso de CPU durante atualizações de efeito."@),
    ]
}

/// The games of the live monitor: fragment (lowercase) and display name.
pub open spec fn game_table() -> Seq<(Seq<char>, Seq<char>)> {
    seq![
        ("valorant"@, "VALORANT"@),
        ("cs2"@, "Counter-Strike 2"@),
        ("csgo"@, "CS:GO"@),
        ("fortniteclient"@, "Fortnite"@),
        ("league of legends"@, "League of Legends"@),
        ("leagueclient"@, "League of Legends"@),
        ("dota2"@, "Dota 2"@),
        ("r5apex"@, "Apex Legends"@),
        ("modernwarfare"@, "Call of Duty"@),
        ("cod"@, "Call of Duty"@),
        ("rainbowsix"@, "Rainbow Six Siege"@),
        ("tslgame"@, "PUBG"@),
        ("rocketleague"@, "Rocket League"@),
        ("overwatch"@, "Overwatch 2"@),
        ("eldenring"@, "Elden Ring"@),
        ("cyberpunk2077"@, "Cyberpunk 2077"@),
        ("rdr2"@, "Red Dead Redemption 2"@),
        ("gta5"@, "GTA V"@),
        ("javaw"@, "Minecraft"@),
        ("minecraft"@, "Minecraft"@),
        ("deadbydaylight"@, "Dead by Daylight"@),
        ("destiny2"@, "Destiny 2"@),
        ("battlefront"@, "Star Wars Battlefront II"@),
        ("squadgame"@, "Squad"@),
        ("tarkov"@, "Escape from Tarkov"@),
    ]
}

/// The executable fragments (lowercase) of known games for the game booster.
pub open spec fn known_game_fragments() -> Seq<Seq<char>> {
    seq![
        "valorant"@,
        "csgo"@,
        "cs2"@,
        "fortniteclient"@,
        "cod"@,
        "modernwarfare"@,
        "warzone"@,
        "r5apex"@,
        "league"@,
        "riotclient"@,
        "overwatch"@,
        "overwatch2"@,
        "eldenring"@,
        "cyberpunk2077"@,
        "rdr2"@,
        "gta5"@,
        "minecraft"@,
        "javaw"@,
        "dota2"@,
        "tslgame"@,
        "rocketleague"@,
        "rainbowsix"@,
        "deadbydaylight"@,
        "destiny2"@,
        "steam_api"@,
    ]
}

fn heavy_entry(k: usize) -> (e: (&'static str, &'static str, &'static str, &'static str))
    requires
        k < HEAVY_APP_COUNT,
    ensures
        e.0@ == heavy_table()[k as int].0,
        e.1@ == heavy_table()[k as int].1,
        e.2@ == heavy_table()[k as int].2,
        e.3@ == heavy_table()[k as int].3,
{
    match k {
        0 => ("discord", "Discord", "alto", "Overlay e cliente de voz. Injeta hooks em jogos e consome ~150 MB de RAM."),
        1 => ("gameoverlayui", "Steam Overlay", "medio", "Overlay da Steam injetado em jogos. Pode causar stutters em títulos sensíveis."),
        2 => ("nvidia share", "GeForce Overlay", "medio", "NVIDIA Share / ShadowPlay. Captura e overlay da GeForce Experience em segundo plano."),
        3 => ("nvdisplay.container", "NVIDIA Container", "baixo", "Serviços de driver NVIDIA. Necessário para GPU funcionar, mas pode ser atualizado."),
        4 => ("gamebar", "Xbox Game Bar", "medio", "Overlay do Windows com captura de tela e FPS counter. Consume CPU quando ativo."),
        5 => ("gamebarftserver", "Xbox Game Bar (FT Server)", "medio", "Componente do Xbox Game Bar. Ativo mesmo com overlay fechado."),
        6 => ("overwolf", "Overwolf", "alto", "Plataforma de overlay e apps de jogos. Injeta hooks em processos — alto consumo de CPU/RAM."),
        7 => ("curseforge", "CurseForge", "baixo", "Gerenciador de mods. Mantém serviço de sync ativo em segundo plano."),
        8 => ("msicenter", "MSI Center", "baixo", "Software de controle MSI (RGB, ventoinhas). Consome CPU em polling contínuo."),
        9 => ("armourycrate", "Armoury Crate (ASUS)", "baixo", "Software ASUS para controle de RGB e overclock. Múltiplos processos em segundo plano."),
        10 => ("razer synapse", "Razer Synapse", "baixo", "Software Razer para periféricos. Mantém múltiplos serviços ativos em segundo plano."),
        11 => ("rzsdkserver", "Razer SDK Server", "baixo", "Componente do Razer Synapse para integração com jogos."),
        12 => ("lghub", "Logitech G HUB", "baixo", "Software de periféricos Logitech. Usa Electron — ~150 MB de RAM e polling de USB."),
        _ => ("icue", "Corsair iCUE", "baixo", "Software Corsair para RGB e ventoinhas. Alto uso de CPU durante atualizações de efeito."),
    }
}

fn game_entry(k: usize) -> (e: (&'static str, &'static str))
    requires
        k < GAME_EXE_COUNT,
    ensures
        e.0@ == game_table()[k as int].0,
        e.1@ == game_table()[k as int].1,
{
    match k {
        0 => ("valorant", "VALORANT"),
        1 => ("cs2", "Counter-Strike 2"),
        2 => ("csgo", "CS:GO"),
        3 => ("fortniteclient", "Fortnite"),
        4 => ("league of legends", "League of Legends"),
        5 => ("leagueclient", "League of Legends"),
        6 => ("dota2", "Dota 2"),
        7 => ("r5apex", "Apex Legends"),
        8 => ("modernwarfare", "Call of Duty"),
        9 => ("cod", "Call of Duty"),
        10 => ("rainbowsix", "Rainbow Six Siege"),
        11 => ("tslgame", "PUBG"),
        12 => ("rocketleague", "Rocket League"),
        13 => ("overwatch", "Overwatch 2"),
        14 => ("eldenring", "Elden Ring"),
        15 => ("cyberpunk2077", "Cyberpunk 2077"),
        16 => ("rdr2", "Red Dead Redemption 2"),
        17 => ("gta5", "GTA V"),
        18 => ("javaw", "Minecraft"),
        19 => ("minecraft", "Minecraft"),
        20 => ("deadbydaylight", "Dead by Daylight"),
        21 => ("destiny2", "Destiny 2"),
        22 => ("battlefront", "Star Wars Battlefront II"),
        23 => ("squadgame", "Squad"),
        _ => ("tarkov", "Escape from Tarkov"),
    }
}

fn known_game_fragment(k: usize) -> (f: &'static str)
    requires
        k < KNOWN_GAME_COUNT,
    ensures
        f@ == known_game_fragments()[k as int],
{
    match k {
        0 => "valorant",
        1 => "csgo",
        2 => "cs2",
        3 => "fortniteclient",
        4 => "cod",
        5 => "modernwarfare",
        6 => "warzone",
        7 => "r5apex",
        8 => "league",
        9 => "riotclient",
        10 => "overwatch",
        11 => "overwatch2",
        12 => "eldenring",
        13 => "cyberpunk2077",
        14 => "rdr2",
        15 => "gta5",
        16 => "minecraft",
        17 => "javaw",
        18 => "dota2",
        19 => "tslgame",
        20 => "rocketleague",
        21 => "rainbowsix",
        22 => "deadbydaylight",
        23 => "destiny2",
        _ => "steam_api",
    }
}

/// The lowercase text a process is matched on: the stem of its executable and
/// its name, each lowercased, joined by a space.
pub open spec fn match_text(p: ProcessInfo) -> Seq<char> {
    lowercase_of(p.exe_stem@) + " "@ + lowercase_of(p.name@)
}

/// The match texts of a list of processes.
pub open spec fn match_texts(ps: Seq<ProcessInfo>) -> Seq<Seq<char>> {
    ps.map_values(|p: ProcessInfo| match_text(p))
}

/// The fragments of the overhead-app table.
pub open spec fn heavy_frags() -> Seq<Seq<char>> {
    heavy_table().map_values(|e: (Seq<char>, Seq<char>, Seq<char>, Seq<char>)| e.0)
}

/// The fragments of the game table.
pub open spec fn game_frags() -> Seq<Seq<char>> {
    game_table().map_values(|e: (Seq<char>, Seq<char>)| e.0)
}

/// Whether a text before position `j` contains `frag`.
pub open spec fn seen_before(cs: Seq<Seq<char>>, frag: Seq<char>, j: int) -> bool {
    exists|i: int| 0 <= i < j && #[trigger] seq_contains(cs[i], frag)
}

/// The pairs (text, fragment) where the text is the first one to contain the
/// fragment, from text `j` and fragment `k` on: texts in order, and for each
/// text its fragments in table order.
pub open spec fn first_matches(cs: Seq<Seq<char>>, frags: Seq<Seq<char>>, j: int, k: int) -> Seq<(int, int)>
    decreases cs.len() - j, frags.len() - k,
{
    if j < 0 || j >= cs.len() {
        Seq::empty()
    } else if k < 0 || k >= frags.len() {
        first_matches(cs, frags, j + 1, 0)
    } else if seq_contains(cs[j], frags[k]) && !seen_before(cs, frags[k], j) {
        seq![(j, k)] + first_matches(cs, frags, j, k + 1)
    } else {
        first_matches(cs, frags, j, k + 1)
    }
}

/// The impact rank of an overhead app: "alto" first, then "medio", then the rest.
pub open spec fn heavy_rank(k: int) -> int {
    let imp = heavy_table()[k].2;
    if imp == "alto"@ {
        0
    } else if imp == "medio"@ {
        1
    } else {
        2
    }
}

/// Whether a pair's app has the given rank.
pub open spec fn rank_is(r: int) -> spec_fn((int, int)) -> bool {
    |p: (int, int)| heavy_rank(p.1) == r
}

/// The pairs ordered by impact, keeping the order within each impact.
pub open spec fn by_impact(ps: Seq<(int, int)>) -> Seq<(int, int)> {
    ps.filter(rank_is(0)) + ps.filter(rank_is(1)) + ps.filter(rank_is(2))
}

/// The overhead apps found among `ps`: each app of the table once, for the
/// first process whose text contains its fragment, sorted by impact.
pub open spec fn heavy_found(ps: Seq<ProcessInfo>) -> Seq<(int, int)> {
    by_impact(first_matches(match_texts(ps), heavy_frags(), 0, 0))
}

/// The games found among `ps`: each game of the table once, for the first
/// process whose text contains its fragment.
pub open spec fn games_found(ps: Seq<ProcessInfo>) -> Seq<(int, int)> {
    first_matches(match_texts(ps), game_frags(), 0, 0)
}

/// The view of a list of index pairs.
pub open spec fn pairs_view(s: Seq<(usize, usize)>) -> Seq<(int, int)> {
    s.map_values(|p: (usize, usize)| (p.0 as int, p.1 as int))
}

proof fn lemma_seen_step(cs: Seq<Seq<char>>, frag: Seq<char>, j: int)
    requires
        0 <= j < cs.len(),
    ensures
        seen_before(cs, frag, j + 1) == (seen_before(cs, frag, j) || seq_contains(cs[j], frag)),
{
    if seen_before(cs, frag, j + 1) {
        let i = choose|i: int| 0 <= i < j + 1 && #[trigger] seq_contains(cs[i], frag);
        if i < j {
            assert(seen_before(cs, frag, j));
        }
    }
    if seen_before(cs, frag, j) {
        let i = choose|i: int| 0 <= i < j && #[trigger] seq_contains(cs[i], frag);
        assert(0 <= i < j + 1 && seq_contains(cs[i], frag));
    }
    if seq_contains(cs[j], frag) {
        assert(0 <= j < j + 1 && seq_contains(cs[j], frag));
    }
}

proof fn lemma_first_matches_bounds(cs: Seq<Seq<char>>, frags: Seq<Seq<char>>, j: int, k: int)
    ensures
        forall|i: int|
            0 <= i < first_matches(cs, frags, j, k).len() ==> 0 <= (#[trigger] first_matches(cs, frags, j, k)[i]).0 < cs.len()
                && 0 <= first_matches(cs, frags, j, k)[i].1 < frags.len(),
    decreases cs.len() - j, frags.len() - k,
{
    if j < 0 || j >= cs.len() {
    } else if k < 0 || k >= frags.len() {
        lemma_first_matches_bounds(cs, frags, j + 1, 0);
        assert(first_matches(cs, frags, j, k) == first_matches(cs, frags, j + 1, 0));
    } else {
        lemma_first_matches_bounds(cs, frags, j, k + 1);
        let rest = first_matches(cs, frags, j, k + 1);
        if !(seq_contains(cs[j], frags[k]) && !seen_before(cs, frags[k], j)) {
            assert(first_matches(cs, frags, j, k) == rest);
        }
        if seq_contains(cs[j], frags[k]) && !seen_before(cs, frags[k], j) {
            let s = first_matches(cs, frags, j, k);
            assert(s == seq![(j, k)] + rest);
            assert forall|i: int| 0 <= i < s.len() implies 0 <= (#[trigger] s[i]).0 < cs.len() && 0 <= s[i].1 < frags.len() by {
                if i > 0 {
                    assert(s[i] == rest[i - 1]);
                }
            }
        }
    }
}

proof fn lemma_filter_bounds(s: Seq<(int, int)>, pred: spec_fn((int, int)) -> bool, a: int, b: int)
    requires
        forall|i: int| 0 <= i < s.len() ==> 0 <= (#[trigger] s[i]).0 < a && 0 <= s[i].1 < b,
    ensures
        forall|i: int| 0 <= i < s.filter(pred).len() ==> 0 <= (#[trigger] s.filter(pred)[i]).0 < a && 0 <= s.filter(pred)[i].1 < b,
    decreases s.len(),
{
    reveal(Seq::filter);
    if s.len() > 0 {
        let d = s.drop_last();
        assert forall|i: int| 0 <= i < d.len() implies 0 <= (#[trigger] d[i]).0 < a && 0 <= d[i].1 < b by {
            assert(d[i] == s[i]);
        }
        lemma_filter_bounds(d, pred, a, b);
        assert(s.filter(pred) == if pred(s.last()) { d.filter(pred).push(s.last()) } else { d.filter(pred) });
    }
}

/// Every first match, from any text and fragment, over the given texts.
fn scan_first_matches(cs: &Vec<String>, frags: &Vec<&str>) -> (r: Vec<(usize, usize)>)
    ensures
        pairs_view(r@) == first_matches(cs@.map_values(|s: String| s@), frags@.map_values(|f: &str| f@), 0, 0),
{
    let ghost c = cs@.map_values(|s: String| s@);
    let ghost f = frags@.map_values(|x: &str| x@);
    let mut seen: Vec<bool> = Vec::new();
    while seen.len() < frags.len()
        invariant
            seen@.len() <= frags@.len(),
            forall|q: int| 0 <= q < seen@.len() ==> !(#[trigger] seen@[q]),
        decreases frags@.len() - seen@.len(),
    {
        seen.push(false);
    }
    let mut out: Vec<(usize, usize)> = Vec::new();
    let mut j: usize = 0;
    while j < cs.len()
        invariant
            j <= cs@.len(),
            c == cs@.map_values(|s: String| s@),
            f == frags@.map_values(|x: &str| x@),
            seen@.len() == frags@.len(),
            forall|q: int| 0 <= q < frags@.len() ==> #[trigger] seen@[q] == seen_before(c, f[q], j as int),
            pairs_view(out@) + first_matches(c, f, j as int, 0) == first_matches(c, f, 0, 0),
        decreases cs@.len() - j,
    {
        let mut k: usize = 0;
        while k < frags.len()
            invariant
                j < cs@.len(),
                k <= frags@.len(),
                c == cs@.map_values(|s: String| s@),
                f == frags@.map_values(|x: &str| x@),
                seen@.len() == frags@.len(),
                forall|q: int| 0 <= q < k ==> #[trigger] seen@[q] == seen_before(c, f[q], j + 1),
                forall|q: int| k <= q < frags@.len() ==> #[trigger] seen@[q] == seen_before(c, f[q], j as int),
                pairs_view(out@) + first_matches(c, f, j as int, k as int) == first_matches(c, f, 0, 0),
            decreases frags@.len() - k,
        {
            let hit = contains_str(cs[j].as_str(), frags[k]);
            proof {
                lemma_seen_step(c, f[k as int], j as int);
                assert(c[j as int] == cs@[j as int]@);
                assert(f[k as int] == frags@[k as int]@);
            }
            let was = seen[k];
            if hit && !was {
                let ghost before = pairs_view(out@);
                out.push((j, k));
                proof {
                    assert(pairs_view(out@) =~= before.push((j as int, k as int)));
                    assert(first_matches(c, f, j as int, k as int) == seq![(j as int, k as int)] + first_matches(c, f, j as int, k + 1));
                    assert(before + first_matches(c, f, j as int, k as int) =~= before.push((j as int, k as int))
                        + first_matches(c, f, j as int, k + 1));
                }
            }
            if hit {
                seen.set(k, true);
            }
            k = k + 1;
        }
        proof {
            assert(first_matches(c, f, j as int, frags@.len() as int) == first_matches(c, f, j + 1, 0));
        }
        j = j + 1;
    }
    proof {
        assert(first_matches(c, f, cs@.len() as int, 0) == Seq::<(int, int)>::empty());
        assert(pairs_view(out@) + Seq::<(int, int)>::empty() =~= pairs_view(out@));
    }
    out
}

/// The impact rank of app `k`.
fn rank_of(k: usize) -> (r: u8)
    requires
        k < HEAVY_APP_COUNT,
    ensures
        r as int == heavy_rank(k as int),
{
    let e = heavy_entry(k);
    if str_eq(e.2, "alto") {
        0
    } else if str_eq(e.2, "medio") {
        1
    } else {
        2
    }
}

/// Appends to `out` the pairs of `pairs` whose app has rank `r`, in order.
fn append_rank(pairs: &Vec<(usize, usize)>, r: u8, out: &mut Vec<(usize, usize)>)
    requires
        forall|i: int| 0 <= i < pairs@.len() ==> (#[trigger] pairs@[i]).1 < HEAVY_APP_COUNT,
    ensures
        pairs_view(final(out)@) == pairs_view(old(out)@) + pairs_view(pairs@).filter(rank_is(r as int)),
{
    let ghost p = pairs_view(pairs@);
    let ghost start = pairs_view(out@);
    let mut i: usize = 0;
    while i < pairs.len()
        invariant
            i <= pairs@.len(),
            p == pairs_view(pairs@),
            forall|m: int| 0 <= m < pairs@.len() ==> (#[trigger] pairs@[m]).1 < HEAVY_APP_COUNT,
            pairs_view(out@) == start + p.subrange(0, i as int).filter(rank_is(r as int)),
        decreases pairs@.len() - i,
    {
        proof {
            lemma_filter_step(p, i as int, rank_is(r as int));
        }
        let (j, k) = pairs[i];
        if rank_of(k) == r {
            let ghost before = pairs_view(out@);
            out.push((j, k));
            proof {
                assert(pairs_view(out@) =~= before.push((j as int, k as int)));
                assert(start + p.subrange(0, i as int).filter(rank_is(r as int)).push(p[i as int]) =~= (start
                    + p.subrange(0, i as int).filter(rank_is(r as int))).push(p[i as int]));
            }
        }
        i = i + 1;
    }
    proof {
        assert(p.subrange(0, p.len() as int) =~= p);
    }
}

/// The match texts of the processes, and the lowercased stems.
fn texts_of(procs: &[ProcessInfo]) -> (r: (Vec<String>, Vec<String>))
    ensures
        r.0@.map_values(|s: String| s@) == match_texts(procs@),
        r.1@.len() == procs@.len(),
        forall|j: int| 0 <= j < procs@.len() ==> (#[trigger] r.1@[j])@ == lowercase_of(procs@[j].exe_stem@),
{
    let mut texts: Vec<String> = Vec::new();
    let mut stems: Vec<String> = Vec::new();
    let mut j: usize = 0;
    while j < procs.len()
        invariant
            j <= procs@.len(),
            texts@.len() == j,
            stems@.len() == j,
            forall|m: int| 0 <= m < j ==> (#[trigger] texts@[m])@ == match_text(procs@[m]),
            forall|m: int| 0 <= m < j ==> (#[trigger] stems@[m])@ == lowercase_of(procs@[m].exe_stem@),
        decreases procs@.len() - j,
    {
        let stem = to_lowercase(procs[j].exe_stem.as_str());
        let name = to_lowercase(procs[j].name.as_str());
        let mut t = concat2(stem.as_str(), " ");
        t.append(name.as_str());
        texts.push(t);
        stems.push(stem);
        j = j + 1;
    }
    assert(texts@.map_values(|s: String| s@) =~= match_texts(procs@));
    (texts, stems)
}

/// The fragments of a table, in order.
fn heavy_fragments() -> (v: Vec<&'static str>)
    ensures
        v@.map_values(|x: &str| x@) == heavy_frags(),
{
    let mut v: Vec<&'static str> = Vec::new();
    let mut k: usize = 0;
    while k < HEAVY_APP_COUNT
        invariant
            k <= HEAVY_APP_COUNT,
            v@.len() == k,
            forall|m: int| 0 <= m < k ==> (#[trigger] v@[m])@ == heavy_table()[m].0,
        decreases HEAVY_APP_COUNT - k,
    {
        v.push(heavy_entry(k).0);
        k = k + 1;
    }
    assert(v@.map_values(|x: &str| x@) =~= heavy_frags());
    v
}

fn game_fragments() -> (v: Vec<&'static str>)
    ensures
        v@.map_values(|x: &str| x@) == game_frags(),
{
    let mut v: Vec<&'static str> = Vec::new();
    let mut k: usize = 0;
    while k < GAME_EXE_COUNT
        invariant
            k <= GAME_EXE_COUNT,
            v@.len() == k,
            forall|m: int| 0 <= m < k ==> (#[trigger] v@[m])@ == game_table()[m].0,
        decreases GAME_EXE_COUNT - k,
    {
        v.push(game_entry(k).0);
        k = k + 1;
    }
    assert(v@.map_values(|x: &str| x@) =~= game_frags());
    v
}

/// Whether a detected overhead app is entry `k` of the table, found in the
/// process whose lowercased stem is `stem`.
pub open spec fn heavy_is(h: HeavyAppDetected, k: int, stem: Seq<char>) -> bool {
    h.name@ == heavy_table()[k].1 && h.exe@ == stem && h.impact@ == heavy_table()[k].2
        && h.description@ == heavy_table()[k].3
}

/// Whether a detected game is entry `g` of the game table, run by process `p`.
pub open spec fn game_is(d: DetectedGame, g: int, p: ProcessInfo) -> bool {
    d.pid == p.pid && d.name@ == game_table()[g].1 && d.exe@ == p.exe_path@
}

/// Matches the running processes against the overhead-app and game tables
/// of the live monitor. Each app and each game is reported once, for the
/// first process (in the given order) whose lowercased executable stem and
/// name, joined by a space, contain its fragment; the apps are sorted by
/// impact (alto, medio, baixo), keeping that order within an impact.
pub fn match_processes(procs: &[ProcessInfo]) -> (r: (Vec<HeavyAppDetected>, Vec<DetectedGame>))
    ensures
        r.0@.len() == heavy_found(procs@).len(),
        forall|i: int|
            0 <= i < r.0@.len() ==> heavy_is(
                #[trigger] r.0@[i],
                heavy_found(procs@)[i].1,
                lowercase_of(procs@[heavy_found(procs@)[i].0].exe_stem@),
            ),
        r.1@.len() == games_found(procs@).len(),
        forall|i: int|
            0 <= i < r.1@.len() ==> game_is(#[trigger] r.1@[i], games_found(procs@)[i].1, procs@[games_found(procs@)[i].0]),
{
    let (texts, stems) = texts_of(procs);
    let hf = heavy_fragments();
    let gf = game_fragments();
    let hp = scan_first_matches(&texts, &hf);
    let gp = scan_first_matches(&texts, &gf);
    let ghost c = texts@.map_values(|s: String| s@);
    proof {
        lemma_first_matches_bounds(c, heavy_frags(), 0, 0);
        lemma_first_matches_bounds(c, game_frags(), 0, 0);
        assert forall|i: int| 0 <= i < hp@.len() implies (#[trigger] hp@[i]).1 < HEAVY_APP_COUNT by {
            assert(pairs_view(hp@)[i] == (hp@[i].0 as int, hp@[i].1 as int));
        }
    }
    let mut ordered: Vec<(usize, usize)> = Vec::new();
    append_rank(&hp, 0, &mut ordered);
    append_rank(&hp, 1, &mut ordered);
    append_rank(&hp, 2, &mut ordered);
    let ghost order = heavy_found(procs@);
    proof {
        assert(pairs_view(ordered@) =~= order);
        let p = pairs_view(hp@);
        assert(c.len() == procs@.len());
        assert forall|i: int| 0 <= i < p.len() implies 0 <= (#[trigger] p[i]).0 < procs@.len() && 0 <= p[i].1 < HEAVY_APP_COUNT by {
            assert(heavy_frags().len() == HEAVY_APP_COUNT);
        }
        lemma_filter_bounds(p, rank_is(0), procs@.len() as int, HEAVY_APP_COUNT as int);
        lemma_filter_bounds(p, rank_is(1), procs@.len() as int, HEAVY_APP_COUNT as int);
        lemma_filter_bounds(p, rank_is(2), procs@.len() as int, HEAVY_APP_COUNT as int);
        let f0 = p.filter(rank_is(0));
        let f1 = p.filter(rank_is(1));
        let f2 = p.filter(rank_is(2));
        assert forall|m: int| 0 <= m < order.len() implies 0 <= (#[trigger] order[m]).0 < procs@.len() && 0 <= order[m].1 < HEAVY_APP_COUNT by {
            if m < f0.len() {
                assert(order[m] == f0[m]);
            } else if m < f0.len() + f1.len() {
                assert(order[m] == f1[m - f0.len()]);
            } else {
                assert(order[m] == f2[m - f0.len() - f1.len()]);
            }
        }
    }
    let mut heavy: Vec<HeavyAppDetected> = Vec::new();
    let mut i: usize = 0;
    while i < ordered.len()
        invariant
            i <= ordered@.len(),
            pairs_view(ordered@) == order,
            order == heavy_found(procs@),
            stems@.len() == procs@.len(),
            forall|j: int| 0 <= j < procs@.len() ==> (#[trigger] stems@[j])@ == lowercase_of(procs@[j].exe_stem@),
            forall|m: int| 0 <= m < order.len() ==> 0 <= (#[trigger] order[m]).0 < procs@.len() && 0 <= order[m].1 < HEAVY_APP_COUNT,
            heavy@.len() == i,
            forall|m: int| 0 <= m < i ==> heavy_is(#[trigger] heavy@[m], order[m].1, lowercase_of(procs@[order[m].0].exe_stem@)),
        decreases ordered@.len() - i,
    {
        let (j, k) = ordered[i];
        proof {
            assert(order[i as int] == (j as int, k as int));
        }
        let e = heavy_entry(k);
        heavy.push(HeavyAppDetected {
            name: owned(e.1),
            exe: owned(stems[j].as_str()),
            impact: owned(e.2),
            description: owned(e.3),
        });
        i = i + 1;
    }
    let mut games: Vec<DetectedGame> = Vec::new();
    let mut i: usize = 0;
    while i < gp.len()
        invariant
            i <= gp@.len(),
            pairs_view(gp@) == games_found(procs@),
            forall|m: int| 0 <= m < games_found(procs@).len() ==> 0 <= (#[trigger] games_found(procs@)[m]).0 < procs@.len()
                && 0 <= games_found(procs@)[m].1 < GAME_EXE_COUNT,
            games@.len() == i,
            forall|m: int| 0 <= m < i ==> game_is(#[trigger] games@[m], games_found(procs@)[m].1, procs@[games_found(procs@)[m].0]),
        decreases gp@.len() - i,
    {
        let (j, g) = gp[i];
        proof {
            assert(games_found(procs@)[i as int] == (j as int, g as int));
        }
        let e = game_entry(g);
        games.push(DetectedGame { pid: procs[j].pid, name: owned(e.1), exe: owned(procs[j].exe_path.as_str()) });
        i = i + 1;
    }
    (heavy, games)
}

/// Whether a process runs a known game of the booster's list.
pub open spec fn runs_known_game(p: ProcessInfo) -> bool {
    exists|k: int| 0 <= k < known_game_fragments().len() && #[trigger] seq_contains(match_text(p), known_game_fragments()[k])
}

/// The view of a detected game: process id, name and executable.
pub open spec fn game_view(d: DetectedGame) -> (u32, Seq<char>, Seq<char>) {
    (d.pid, d.name@, d.exe@)
}

/// The processes running a known game (for the game booster), in the given
/// order: each with its own process name and executable path.
pub fn known_games_running(procs: &[ProcessInfo]) -> (r: Vec<DetectedGame>)
    ensures
        r@.map_values(|d: DetectedGame| game_view(d)) == procs@.filter(|p: ProcessInfo| runs_known_game(p)).map_values(
            |p: ProcessInfo| (p.pid, p.name@, p.exe_path@),
        ),
{
    let ghost pred = |p: ProcessInfo| runs_known_game(p);
    let mut out: Vec<DetectedGame> = Vec::new();
    let mut j: usize = 0;
    while j < procs.len()
        invariant
            j <= procs@.len(),
            pred == (|p: ProcessInfo| runs_known_game(p)),
            out@.map_values(|d: DetectedGame| game_view(d)) == procs@.subrange(0, j as int).filter(pred).map_values(
                |p: ProcessInfo| (p.pid, p.name@, p.exe_path@),
            ),
        decreases procs@.len() - j,
    {
        proof {
            lemma_filter_step(procs@, j as int, pred);
        }
        let stem = to_lowercase(procs[j].exe_stem.as_str());
        let name = to_lowercase(procs[j].name.as_str());
        let mut t = concat2(stem.as_str(), " ");
        t.append(name.as_str());
        let mut hit = false;
        let mut k: usize = 0;
        while k < KNOWN_GAME_COUNT
            invariant
                k <= KNOWN_GAME_COUNT,
                t@ == match_text(procs@[j as int]),
                hit == exists|q: int| 0 <= q < k && #[trigger] seq_contains(t@, known_game_fragments()[q]),
            decreases KNOWN_GAME_COUNT - k,
        {
            if contains_str(t.as_str(), known_game_fragment(k)) {
                hit = true;
            }
            k = k + 1;
        }
        let ghost before = out@.map_values(|d: DetectedGame| game_view(d));
        if hit {
            out.push(DetectedGame { pid: procs[j].pid, name: owned(procs[j].name.as_str()), exe: owned(procs[j].exe_path.as_str()) });
            proof {
                assert(out@.map_values(|d: DetectedGame| game_view(d)) =~= before.push(game_view(out@.last())));
            }
        }
        proof {
            assert(runs_known_game(procs@[j as int]) == hit);
            let sub = procs@.subrange(0, j as int).filter(pred);
            if hit {
                assert(sub.push(procs@[j as int]).map_values(|p: ProcessInfo| (p.pid, p.name@, p.exe_path@))
                    =~= sub.map_values(|p: ProcessInfo| (p.pid, p.name@, p.exe_path@)).push(
                    (procs@[j as int].pid, procs@[j as int].name@, procs@[j as int].exe_path@),
                ));
            }
        }
        j = j + 1;
    }
    proof {
        assert(procs@.subrange(0, procs@.len() as int) =~= procs@);
    }
    out
}

} // verus!
