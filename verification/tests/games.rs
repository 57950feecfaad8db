use tkspeed::games::{
    acf_value, battlenet_games, detect_all, ea_games, epic_game, gog_game, json_str_field,
    parse_vdf_paths, riot_games, rockstar_games, steam_game, steam_libraries, steam_manifest,
    steam_root, steam_vdf_files, ubisoft_game, InstalledGame,
};

const VDF: &str = "\"libraryfolders\"\n{\n\t\"0\"\n\t{\n\t\t\"path\"\t\t\"C:\\\\Program Files (x86)\\\\Steam\"\n\t\t\"label\"\t\t\"\"\n\t}\n\t\"1\"\n\t{\n\t\t\"PATH\"\t\t\"D:\\\\SteamLibrary\"\n\t\t\"path\"\t\t\"\"\n\t}\n}\n";

#[test]
fn vdf_paths_are_read_and_unescaped() {
    assert_eq!(
        parse_vdf_paths(VDF),
        vec!["C:\\Program Files (x86)\\Steam".to_string(), "D:\\SteamLibrary".to_string()]
    );
    assert!(parse_vdf_paths("").is_empty());
}

#[test]
fn steam_libraries_and_manifest() {
    let root = steam_root("c:/program files (x86)/steam");
    assert_eq!(root, "c:\\program files (x86)\\steam");
    let (a, b) = steam_vdf_files(&root);
    assert_eq!(a, "c:\\program files (x86)\\steam\\config\\libraryfolders.vdf");
    assert_eq!(b, "c:\\program files (x86)\\steam\\steamapps\\libraryfolders.vdf");
    let libs = steam_libraries(&root, &[VDF.to_string()]);
    assert_eq!(
        libs,
        vec![
            "c:\\program files (x86)\\steam\\steamapps".to_string(),
            "C:\\Program Files (x86)\\Steam\\steamapps".to_string(),
            "D:\\SteamLibrary\\steamapps".to_string(),
        ]
    );
    assert_eq!(steam_manifest("D:\\SteamLibrary\\steamapps", 730), "D:\\SteamLibrary\\steamapps\\appmanifest_730.acf");
}

#[test]
fn acf_value_stops_at_a_line_without_quotes() {
    let acf = "\"AppState\"\n{\n\t\"appid\"\t\t\"730\"\n\t\"installdir\"\t\t\"Counter-Strike Global Offensive\"\n}\n";
    assert_eq!(acf_value(acf, "installdir"), None);
    let flat = "\"appid\"\t\t\"730\"\n\"InstallDir\"\t\t\"Counter-Strike Global Offensive\"\n";
    assert_eq!(acf_value(flat, "installdir"), Some("Counter-Strike Global Offensive".to_string()));
    assert_eq!(acf_value(flat, "name"), None);
}

#[test]
fn steam_game_install_path() {
    let lib = "D:\\SteamLibrary\\steamapps";
    let flat = "\"installdir\"\t\t\"Counter-Strike Global Offensive\"\n";
    let g = steam_game(0, lib, Some(flat));
    assert_eq!(g.id, "steam:730");
    assert_eq!(g.name, "Counter-Strike 2");
    assert_eq!(g.exe, "cs2");
    assert_eq!(g.launcher, "steam");
    assert_eq!(g.install_path, "D:\\SteamLibrary\\steamapps\\common\\Counter-Strike Global Offensive");
    let h = steam_game(16, lib, None);
    assert_eq!(h.id, "steam:1145360");
    assert_eq!(h.install_path, lib);
}

#[test]
fn json_fields_are_read_plainly() {
    let json = "{ \"DisplayName\" :  \"Fortnite\", \"InstallLocation\": \"C:\\\\Program Files\\\\Epic Games\\\\Fortnite\", \"Url\": \"a\\/b\" }";
    assert_eq!(json_str_field(json, "DisplayName"), Some("Fortnite".to_string()));
    assert_eq!(json_str_field(json, "InstallLocation"), Some("C:\\Program Files\\Epic Games\\Fortnite".to_string()));
    assert_eq!(json_str_field(json, "Url"), Some("a/b".to_string()));
    assert_eq!(json_str_field(json, "Missing"), None);
    assert_eq!(json_str_field("{\"A\": 5}", "A"), None);
}

#[test]
fn epic_manifests_map_known_titles() {
    let g = epic_game("{\"DisplayName\": \"Rocket League®\", \"InstallLocation\": \"D:\\\\Games\\\\rocketleague\"}").unwrap();
    assert_eq!(g.id, "epic:rocket_league");
    assert_eq!(g.name, "Rocket League®");
    assert_eq!(g.exe, "rocketleague");
    assert_eq!(g.launcher, "epic");
    assert_eq!(g.install_path, "D:\\Games\\rocketleague");
    let f = epic_game("{\"DisplayName\": \"FORTNITE\"}").unwrap();
    assert_eq!(f.id, "epic:fortnite");
    assert_eq!(f.install_path, "");
    assert!(epic_game("{\"DisplayName\": \"Some Other Game\"}").is_none());
    assert!(epic_game("{\"DisplayName\": \"\"}").is_none());
}

#[test]
fn fixed_title_launchers() {
    let riot = riot_games(&[true, false, true]);
    assert_eq!(riot.len(), 2);
    assert_eq!(riot[0].id, "riot:valorant");
    assert_eq!(riot[0].install_path, "C:\\Riot Games\\VALORANT");
    assert_eq!(riot[1].id, "riot:teamfight_tactics");
    let bnet = battlenet_games(true, &[false, false, true, false, false]);
    assert_eq!(bnet.len(), 1);
    assert_eq!(bnet[0].id, "battlenet:diablo4");
    assert_eq!(bnet[0].name, "Diablo IV");
    assert_eq!(bnet[0].install_path, "C:\\Program Files (x86)\\Diablo IV");
    assert!(battlenet_games(false, &[true; 5]).is_empty());
    assert!(ea_games(false, &[true; 3]).is_empty());
    assert_eq!(ea_games(true, &[false, true, false])[0].id, "ea:fc24");
    let r = rockstar_games(&[true, true]);
    assert_eq!(r[1].id, "rockstar:rdr2");
}

#[test]
fn ubisoft_and_gog_names() {
    let u = ubisoft_game("635", "C:/Program Files (x86)/Ubisoft/Games/Rainbow Six-Siege");
    assert_eq!(u.id, "ubisoft:635");
    assert_eq!(u.name, "Rainbow Six-Siege");
    assert_eq!(u.exe, "rainbowsixsiege");
    assert_eq!(u.install_path, "C:/Program Files (x86)/Ubisoft/Games/Rainbow Six-Siege");
    let g = gog_game("1207658924", "The Witcher 3", "C:\\GOG\\Witcher 3", "C:/GOG/Witcher 3/bin/x64/Witcher3.EXE.exe");
    assert_eq!(g.id, "gog:1207658924");
    assert_eq!(g.exe, "witcher3.exe");
    assert_eq!(g.install_path, "C:\\GOG\\Witcher 3");
    let plain = gog_game("1", "X", "", "game.exe.exe");
    assert_eq!(plain.exe, "game");
}

fn game(id: &str, name: &str) -> InstalledGame {
    InstalledGame { id: id.into(), name: name.into(), exe: "x".into(), launcher: "l".into(), install_path: String::new() }
}

#[test]
fn merge_keeps_first_of_each_id_and_sorts_stably() {
    let merged = detect_all(vec![
        vec![game("steam:252950", "Rocket League")],
        vec![game("epic:fortnite", "Fortnite"), game("steam:252950", "Duplicate")],
        vec![],
        vec![game("epic:rocket_league", "Rocket League"), game("riot:valorant", "Valorant")],
    ]);
    let ids: Vec<&str> = merged.iter().map(|g| g.id.as_str()).collect();
    assert_eq!(ids, vec!["epic:fortnite", "steam:252950", "epic:rocket_league", "riot:valorant"]);
    assert!(detect_all(vec![]).is_empty());
    assert!(detect_all(vec![vec![], vec![]]).is_empty());
}
