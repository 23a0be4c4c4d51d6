use lgtui::database::{decode_args, encode_args, get_db_path, GameRow, GameStats, PrefixRow, RunnerRow};
use lgtui::game::{Config, Game, GameStatus, Runner};
use lgtui::naming::{slugify, unique_game_id, validate_exec_path};
use lgtui::onboarding::{needs_onboarding, onboarding_config_path, onboarding_config_text, DiagnosticsResult};
use lgtui::prefix::{boot_args, prefix_path_for, prefix_status, PrefixConfig, WinePrefix};

fn game(id: &str, name: &str) -> Game {
    Game {
        id: id.to_string(),
        name: name.to_string(),
        exec_path: "/games/x/game.exe".to_string(),
        args: vec!["-windowed".to_string(), "--lang \"en\"".to_string()],
        wineprefix: Some("/pfx/x".to_string()),
        runner_id: None,
        playtime_secs: 3725,
        dxvk: true,
        vkd3d: false,
        mangohud: true,
        gamemode: false,
        is_installer: false,
        status: GameStatus::Running { pid: 77, since: 3 },
    }
}

#[test]
fn status_texts() {
    assert_eq!(GameStatus::Ready.to_display_string(), "Ready");
    assert_eq!(GameStatus::Running { pid: 4242, since: 0 }.to_display_string(), "Running (PID: 4242)");
    assert_eq!(GameStatus::Error("Exit code 1".to_string()).to_display_string(), "Error: Exit code 1");
    assert!(GameStatus::Running { pid: 1, since: 1 }.is_running());
    assert!(!GameStatus::Ready.is_running());
}

#[test]
fn first_start_configuration() {
    let c = Config::default_for_home(Some("/home/u"));
    assert_eq!(c.default_wineprefix, "/home/u/.local/share/lgtui/prefixes/default");
    assert_eq!(c.runner_download_dir, "/home/u/.local/share/lgtui/runners");
    assert!(c.games.is_empty());
    let ids: Vec<&str> = c.runners.iter().map(|r| r.id.as_str()).collect();
    assert_eq!(ids, vec!["proton-ge-9-5", "wine-staging-9-10", "proton-ge-8-25", "proton-9-beta"]);
    assert_eq!(c.runners[0].path, "/home/u/.local/share/lgtui/runners/GE-Proton9-5/proton");
    assert_eq!(c.runners[1].path, "/usr/bin/wine");
    assert!(c.runners[0].installed && c.runners[1].installed);
    assert!(!c.runners[2].installed && !c.runners[3].installed);
    let no_home = Config::default_for_home(None);
    assert_eq!(no_home.default_wineprefix, "./.lgtui/prefixes/default");
}

#[test]
fn stored_configuration_falls_back_to_first_start_values() {
    let c = Config::from_stored(Some("/p".to_string()), None, vec![game("a", "A")], Vec::new(), Some("/h"));
    assert_eq!(c.default_wineprefix, "/p");
    assert_eq!(c.runner_download_dir, "/h/.local/share/lgtui/runners");
    assert_eq!(c.games.len(), 1);
}

#[test]
fn storage_paths() {
    assert_eq!(Game::get_toml_path("/home/u", "doom"), "/home/u/.config/lgui/games/doom.toml");
    assert_eq!(get_db_path("/home/u"), "/home/u/.local/share/lgtui/lgtui.db");
    assert_eq!(PrefixConfig::get_config_path("/home/u"), "/home/u/.config/lgui/prefixes.toml");
    assert_eq!(prefix_path_for("/home/u", "work"), "/home/u/.local/share/lgtui/prefixes/work");
    assert_eq!(onboarding_config_path("/home/u"), "/home/u/.config/lgui/config.toml");
    assert_eq!(onboarding_config_text(), "onboarding_completed = true\n");
}

#[test]
fn arguments_survive_the_database_column() {
    let args = vec!["-a".to_string(), "two words".to_string(), "quote\"d".to_string()];
    let column = encode_args(&args);
    assert_eq!(column, serde_json::to_string(&args).unwrap());
    assert_eq!(decode_args(Some(column)), args);
    assert_eq!(decode_args(Some("not json".to_string())), Vec::<String>::new());
    assert_eq!(decode_args(None), Vec::<String>::new());
    assert_eq!(encode_args(&Vec::new()), "[]");
}

#[test]
fn game_row_round_trip() {
    let g = game("x", "X");
    let row = GameRow::of_game(&g);
    assert_eq!(row.dxvk, 1);
    assert_eq!(row.vkd3d, 0);
    let back = row.into_game();
    assert_eq!(back.id, g.id);
    assert_eq!(back.args, g.args);
    assert_eq!(back.wineprefix, g.wineprefix);
    assert_eq!(back.playtime_secs, 3725);
    assert!(back.dxvk && back.mangohud && !back.vkd3d && !back.gamemode);
    assert_eq!(back.status, GameStatus::Ready);
}

#[test]
fn runner_and_prefix_rows() {
    let r = Runner {
        id: "r".to_string(),
        name: "R".to_string(),
        version: "1".to_string(),
        path: "/r".to_string(),
        installed: true,
        download_url: Some("u".to_string()),
    };
    let back = RunnerRow::of_runner(&r).into_runner();
    assert_eq!(back.id, "r");
    assert!(back.installed);
    assert_eq!(back.download_url.as_deref(), Some("u"));
    let p = WinePrefix {
        name: "n".to_string(),
        path: "/p".to_string(),
        architecture: "win64".to_string(),
        status: "Booting...".to_string(),
    };
    let read = PrefixRow::of_prefix(&p).into_prefix(true);
    assert_eq!(read.status, "Ready");
    assert_eq!(PrefixRow::of_prefix(&p).into_prefix(false).status, "Not Initialized");
    assert_eq!(prefix_status(true), "Ready");
}

#[test]
fn saving_writes_settings_games_and_runners_in_order() {
    let mut c = Config::default_for_home(Some("/h"));
    c.games.push(game("g1", "G1"));
    let b = c.save();
    assert_eq!(b.settings[0], ("default_wineprefix".to_string(), "/h/.local/share/lgtui/prefixes/default".to_string()));
    assert_eq!(b.settings[1].0, "runner_download_dir");
    assert_eq!(b.games.len(), 1);
    assert_eq!(b.games[0].id, "g1");
    assert_eq!(b.runners.len(), 4);
    assert_eq!(b.runners[2].installed, 0);
}

#[test]
fn running_average_of_frame_rates() {
    let mut s = GameStats::empty("g");
    assert_eq!(s.after_session(80, 100), (80, 100));
    s.session_count = 3;
    s.avg_fps = 60;
    s.max_fps = 120;
    assert_eq!(s.after_session(90, 110), ((60 * 2 + 90) / 3, 120));
    s.avg_fps = 0;
    assert_eq!(s.after_session(90, 130), (90, 130));
}

#[test]
fn slugs_of_titles() {
    assert_eq!(slugify("Hello World!"), "hello-world");
    assert_eq!(slugify("  --The  Witcher 3: Wild Hunt--"), "the-witcher-3-wild-hunt");
    assert_eq!(slugify("ÄÖÜ Spiel"), "äöü-spiel");
    assert_eq!(slugify("!!!"), "");
    assert_eq!(slugify(""), "");
}

#[test]
fn executable_paths_are_checked() {
    assert!(validate_exec_path("/games/a b/game.exe"));
    assert!(!validate_exec_path("   "));
    assert!(!validate_exec_path("/games/*.exe"));
    assert!(!validate_exec_path("a|b"));
    assert!(!validate_exec_path("say \"hi\""));
}

#[test]
fn new_game_ids_never_collide() {
    let games = vec![game("doom", "Doom"), game("doom-1", "Doom"), game("quake", "Quake")];
    assert_eq!(unique_game_id(&games, "doom"), "doom-2");
    assert_eq!(unique_game_id(&games, "quake"), "quake-1");
    assert_eq!(unique_game_id(&games, "hexen"), "hexen");
}

#[test]
fn diagnostics() {
    let all = DiagnosticsResult::perform(true, true, true, false, true);
    assert!(all.gamemode);
    assert!(!all.has_missing());
    let some = DiagnosticsResult::perform(true, false, true, false, false);
    assert!(some.has_missing());
    assert!(!needs_onboarding());
}

#[test]
fn prefix_statuses_follow_the_registry_files() {
    let mk = |n: &str| WinePrefix {
        name: n.to_string(),
        path: format!("/p/{}", n),
        architecture: "win32".to_string(),
        status: String::new(),
    };
    let mut pc = PrefixConfig { prefixes: vec![mk("a"), mk("b")] };
    pc.apply_registry_presence(&vec![true, false]);
    assert_eq!(pc.prefixes[0].status, "Ready");
    assert_eq!(pc.prefixes[1].status, "Not Initialized");
    assert_eq!(pc.prefixes[1].name, "b");
    assert_eq!(boot_args("/x/proton"), vec!["run", "wine", "boot", "-u"]);
    assert_eq!(boot_args("/usr/bin/wine"), vec!["boot", "-u"]);
}

#[test]
fn slugs_of_ascii_titles_are_their_own_slugs() {
    for title in ["Hello World!", "  --The  Witcher 3: Wild Hunt--", "A_B-C", "x", "", "!!!"] {
        let once = slugify(title);
        assert!(once.chars().all(|c| c.is_ascii_lowercase() || c.is_ascii_digit() || c == '-'));
        assert!(!once.starts_with('-') && !once.ends_with('-') && !once.contains("--"));
        assert_eq!(slugify(&once), once);
    }
}
