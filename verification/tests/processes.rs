use tkspeed::processes::{known_games_running, match_processes, ProcessInfo};

fn p(pid: u32, path: &str, stem: &str, name: &str) -> ProcessInfo {
    ProcessInfo { pid, exe_path: path.into(), exe_stem: stem.into(), name: name.into() }
}

#[test]
fn heavy_apps_once_each_sorted_by_impact() {
    let procs = vec![
        p(1, "C:\\Corsair\\iCUE.exe", "iCUE", "iCUE.exe"),
        p(2, "C:\\Discord\\Discord.exe", "Discord", "Discord.exe"),
        p(3, "C:\\Discord\\Discord.exe", "Discord", "Discord.exe"),
        p(4, "C:\\Steam\\GameOverlayUI.exe", "GameOverlayUI", "GameOverlayUI.exe"),
        p(5, "", "", "notepad.exe"),
    ];
    let (heavy, games) = match_processes(&procs);
    let names: Vec<&str> = heavy.iter().map(|h| h.name.as_str()).collect();
    assert_eq!(names, vec!["Discord", "Steam Overlay", "Corsair iCUE"]);
    assert_eq!(heavy[0].exe, "discord");
    assert_eq!(heavy[0].impact, "alto");
    assert_eq!(heavy[2].impact, "baixo");
    assert!(games.is_empty());
}

#[test]
fn running_games_from_stem_or_name() {
    let procs = vec![
        p(10, "C:\\Riot\\VALORANT.exe", "VALORANT", "VALORANT.exe"),
        p(11, "", "", "League of Legends.exe"),
        p(12, "C:\\Riot\\VALORANT.exe", "VALORANT", "VALORANT.exe"),
    ];
    let (_, games) = match_processes(&procs);
    assert_eq!(games.len(), 2);
    assert_eq!((games[0].pid, games[0].name.as_str(), games[0].exe.as_str()), (10, "VALORANT", "C:\\Riot\\VALORANT.exe"));
    assert_eq!((games[1].pid, games[1].name.as_str()), (11, "League of Legends"));
}

#[test]
fn booster_lists_every_process_of_a_known_game() {
    let procs = vec![
        p(1, "C:\\g\\cs2.exe", "cs2", "cs2.exe"),
        p(2, "", "", "explorer.exe"),
        p(3, "C:\\g\\GTA5.exe", "GTA5", "GTA5.exe"),
        p(4, "C:\\g\\cs2.exe", "cs2", "cs2.exe"),
    ];
    let found = known_games_running(&procs);
    let pids: Vec<u32> = found.iter().map(|d| d.pid).collect();
    assert_eq!(pids, vec![1, 3, 4]);
    assert_eq!(found[1].name, "GTA5.exe");
    assert_eq!(found[1].exe, "C:\\g\\GTA5.exe");
}
