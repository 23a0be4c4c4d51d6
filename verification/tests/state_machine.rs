use lgtui::app::{ActiveModal, App, Effect, Key, MenuItem, PaneFocus, RunnerState};
use lgtui::game::{Config, Game, GameStatus, Runner};
use lgtui::runner::AppEvent;

fn game(id: &str, name: &str, prefix: Option<&str>, runner: Option<&str>) -> Game {
    Game {
        id: id.to_string(),
        name: name.to_string(),
        exec_path: format!("/games/{}.exe", id),
        args: Vec::new(),
        wineprefix: prefix.map(|p| p.to_string()),
        runner_id: runner.map(|r| r.to_string()),
        playtime_secs: 0,
        dxvk: true,
        vkd3d: false,
        mangohud: false,
        gamemode: false,
        is_installer: false,
        status: GameStatus::Ready,
    }
}

fn app_with(games: Vec<Game>) -> App {
    let mut c = Config::default_for_home(Some("/home/u"));
    c.games = games;
    App::new(c, Vec::new(), "/home/u".to_string())
}

fn keys(a: &mut App, ks: &[Key]) -> Vec<Effect> {
    let mut all = Vec::new();
    for k in ks {
        all.extend(a.handle_key(*k, false));
    }
    all
}

fn typed(s: &str) -> Vec<Key> {
    s.chars().map(Key::Char).collect()
}

#[test]
fn initial_state() {
    let a = app_with(Vec::new());
    assert_eq!(a.focus, PaneFocus::LeftMenu);
    assert_eq!(a.current_menu(), MenuItem::Library);
    assert_eq!(a.runner_state, RunnerState::FetchingReleases);
    assert_eq!(a.winetricks_items.len(), 6);
    assert_eq!(a.winetricks_items[0].0, "winecfg");
    assert_eq!(a.settings_items[2], ("Enable MangoHud Globally".to_string(), "Enabled".to_string(), true));
    assert_eq!(a.script_path, "/home/u/.config/lgtui/install_deps.sh");
    assert!(a.onboarding.is_none());
}

#[test]
fn quit_key_stops_the_launcher() {
    let mut a = app_with(Vec::new());
    let e = a.handle_key(Key::Char('q'), false);
    assert!(a.should_quit);
    assert!(e.is_empty());
}

#[test]
fn menu_selection_wraps_around() {
    let mut a = app_with(Vec::new());
    keys(&mut a, &[Key::Up]);
    assert_eq!(a.menu_index, 5);
    assert_eq!(a.current_menu(), MenuItem::Settings);
    keys(&mut a, &[Key::Char('j')]);
    assert_eq!(a.menu_index, 0);
    keys(&mut a, &[Key::Down, Key::Down]);
    assert_eq!(a.current_menu(), MenuItem::PrefixManager);
    assert_eq!(MenuItem::from_index(17), MenuItem::Settings);
}

#[test]
fn tab_cycles_the_focus() {
    let mut a = app_with(Vec::new());
    keys(&mut a, &[Key::Tab]);
    assert_eq!(a.focus, PaneFocus::LibraryList);
    keys(&mut a, &[Key::Tab]);
    assert_eq!(a.focus, PaneFocus::MetadataPanel);
    keys(&mut a, &[Key::Tab]);
    assert_eq!(a.focus, PaneFocus::LeftMenu);
    keys(&mut a, &[Key::Down, Key::Tab, Key::Tab]);
    assert_eq!(a.focus, PaneFocus::LeftMenu);
}

#[test]
fn adding_a_game_through_the_dialog() {
    let mut a = app_with(vec![game("mygame", "Old", None, None)]);
    keys(&mut a, &[Key::Char('a')]);
    match &a.active_modal {
        Some(ActiveModal::AddGame(m)) => assert!(m.dxvk && !m.vkd3d && m.title.is_empty()),
        other => panic!("unexpected dialog {:?}", other),
    }
    keys(&mut a, &typed("My Game"));
    match &a.active_modal {
        // The space bar toggles options in this dialog; it types nothing.
        Some(ActiveModal::AddGame(m)) => {
            assert_eq!(m.title, "MyGame");
            assert_eq!(m.prefix_name, "mygame");
        }
        other => panic!("unexpected dialog {:?}", other),
    }
    keys(&mut a, &[Key::Tab]);
    keys(&mut a, &typed("/dl/SETUP.exe"));
    match &a.active_modal {
        Some(ActiveModal::AddGame(m)) => assert!(m.is_installer),
        other => panic!("unexpected dialog {:?}", other),
    }
    keys(&mut a, &[Key::Tab, Key::Tab, Key::Right, Key::Right]);
    let e = keys(&mut a, &[Key::Enter]);
    assert_eq!(e, vec![Effect::SaveGame { game_idx: 1 }, Effect::SaveConfig]);
    assert!(a.active_modal.is_none());
    assert_eq!(a.focus, PaneFocus::LibraryList);
    let g = &a.config.games[1];
    assert_eq!(g.id, "mygame-1");
    assert_eq!(g.name, "MyGame");
    assert_eq!(g.exec_path, "/dl/SETUP.exe");
    assert_eq!(g.wineprefix.as_deref(), Some("/home/u/.local/share/lgtui/prefixes/mygame"));
    assert_eq!(g.runner_id.as_deref(), Some("wine-staging-9-10"));
    assert!(g.is_installer && g.dxvk);
}

#[test]
fn an_invalid_dialog_is_not_accepted() {
    let mut a = app_with(Vec::new());
    keys(&mut a, &[Key::Char('a')]);
    keys(&mut a, &typed("Doom"));
    keys(&mut a, &[Key::Tab]);
    keys(&mut a, &typed("C:/doom|.exe"));
    let e = keys(&mut a, &[Key::Enter]);
    assert!(e.is_empty());
    assert!(a.config.games.is_empty());
    keys(&mut a, &[Key::Esc]);
    assert!(a.active_modal.is_none());
}

#[test]
fn deleting_a_game_with_its_own_prefix_asks_about_the_files() {
    let mut a = app_with(vec![game("a", "A", Some("/pfx/a"), None), game("b", "B", None, None)]);
    keys(&mut a, &[Key::Char('x')]);
    assert!(matches!(a.active_modal, Some(ActiveModal::DeleteGame { game_idx: 0, prompt_prefix: false, .. })));
    let first = keys(&mut a, &[Key::Enter]);
    assert!(first.is_empty());
    assert!(matches!(a.active_modal, Some(ActiveModal::DeleteGame { prompt_prefix: true, .. })));
    let e = keys(&mut a, &[Key::Char('y')]);
    assert_eq!(
        e,
        vec![
            Effect::DeleteGame { game_id: "a".to_string() },
            Effect::SaveConfig,
            Effect::RemoveDirectory { path: "/pfx/a".to_string() },
        ]
    );
    assert_eq!(a.config.games.len(), 1);
    assert_eq!(a.config.games[0].id, "b");
    assert_eq!(a.focus, PaneFocus::LibraryList);
}

#[test]
fn deleting_a_game_on_the_shared_prefix_asks_once() {
    let mut a = app_with(vec![game("a", "A", None, None)]);
    keys(&mut a, &[Key::Char('x')]);
    let e = keys(&mut a, &[Key::Enter]);
    assert_eq!(e, vec![Effect::DeleteGame { game_id: "a".to_string() }, Effect::SaveConfig]);
    assert!(a.config.games.is_empty());
    assert_eq!(a.selected_game_idx, 0);
}

#[test]
fn launching_uses_the_games_runner() {
    let mut a = app_with(vec![game("a", "A", None, Some("wine-staging-9-10")), game("b", "B", None, Some("missing"))]);
    keys(&mut a, &[Key::Tab]);
    let e = keys(&mut a, &[Key::Enter]);
    assert_eq!(e, vec![Effect::LaunchGame { game_idx: 0, runner_idx: Some(1) }]);
    let e2 = keys(&mut a, &[Key::Down, Key::Enter]);
    assert_eq!(e2, vec![Effect::LaunchGame { game_idx: 1, runner_idx: None }]);
}

#[test]
fn a_game_session_from_start_to_finish() {
    let mut a = app_with(vec![game("a", "My Game", None, None)]);
    let started = a.handle_event(AppEvent::GameStarted { game_id: "a".to_string(), pid: 99 });
    assert_eq!(started, vec![Effect::RecordGameLaunch { game_idx: 0 }]);
    assert_eq!(a.config.games[0].status, GameStatus::Running { pid: 99, since: 0 });
    a.tick();
    a.tick();
    assert_eq!(a.config.games[0].playtime_secs, 2);
    keys(&mut a, &[Key::Tab]);
    assert!(keys(&mut a, &[Key::Enter]).is_empty());
    let finished = a.handle_event(AppEvent::GameFinished { game_id: "a".to_string(), exit_code: 1 });
    assert_eq!(finished, vec![Effect::RecordGameExit { game_idx: 0, avg_fps: 81, max_fps: 103 }, Effect::SaveConfig]);
    assert_eq!(a.config.games[0].status, GameStatus::Error("Exit code 1".to_string()));
    a.tick();
    assert_eq!(a.config.games[0].playtime_secs, 2);
    assert!(a.handle_event(AppEvent::GameStarted { game_id: "zzz".to_string(), pid: 1 }).is_empty());
}

#[test]
fn fetched_releases_are_merged_into_the_runner_list() {
    let mut a = app_with(Vec::new());
    let update = Runner {
        id: "proton-ge-8-25".to_string(),
        name: "ignored".to_string(),
        version: "ignored".to_string(),
        path: "ignored".to_string(),
        installed: true,
        download_url: Some("https://example.invalid/a.tar.gz".to_string()),
    };
    let fresh = Runner { id: "ge-proton9-20".to_string(), name: "Proton-GE".to_string(), ..update.clone() };
    let e = a.handle_event(AppEvent::ReleasesFetched(vec![update, fresh]));
    assert_eq!(e, vec![Effect::SaveConfig]);
    assert_eq!(a.runner_state, RunnerState::Idle);
    assert_eq!(a.config.runners.len(), 5);
    assert_eq!(a.config.runners[2].version, "GE-Proton8-25");
    assert!(a.config.runners[2].installed);
    assert_eq!(a.config.runners[2].download_url.as_deref(), Some("https://example.invalid/a.tar.gz"));
    assert_eq!(a.config.runners[4].id, "ge-proton9-20");
}

#[test]
fn downloading_a_runner() {
    let mut a = app_with(Vec::new());
    a.handle_event(AppEvent::ReleasesFetched(Vec::new()));
    keys(&mut a, &[Key::Down, Key::Tab, Key::Down, Key::Down]);
    assert_eq!(a.selected_runner_idx, 2);
    let e = keys(&mut a, &[Key::Enter]);
    assert!(e.is_empty());
    assert_eq!(a.runner_state, RunnerState::Error("No download URL available for this runner".to_string()));
    a.config.runners[2].download_url = Some("u".to_string());
    let e = keys(&mut a, &[Key::Enter]);
    assert_eq!(
        e,
        vec![Effect::DownloadRunner {
            runner_idx: 2,
            dest_dir: "/home/u/.local/share/steam/compatibilitytools.d/GE-Proton8-25".to_string()
        }]
    );
    assert_eq!(a.runner_state, RunnerState::Downloading(0));
    assert_eq!(a.downloading_runner_id.as_deref(), Some("proton-ge-8-25"));
    a.handle_event(AppEvent::DownloadProgress(40));
    assert_eq!(a.runner_state, RunnerState::Downloading(40));
    a.handle_event(AppEvent::ExtractionStarted);
    let done = a.handle_event(AppEvent::DownloadFinished { runner_id: "proton-ge-8-25".to_string(), path: "/x/proton".to_string() });
    assert_eq!(done, vec![Effect::SaveConfig]);
    assert!(a.config.runners[2].installed);
    assert_eq!(a.config.runners[2].path, "/x/proton");
    assert!(a.downloading_runner_id.is_none());
    assert_eq!(a.runner_state, RunnerState::Idle);
}

#[test]
fn winetricks_runs_down_its_timer() {
    let mut a = app_with(vec![game("a", "A", Some("/pfx/a"), None)]);
    keys(&mut a, &[Key::Down, Key::Down, Key::Down, Key::Tab]);
    assert_eq!(a.current_menu(), MenuItem::Winetricks);
    keys(&mut a, &[Key::Enter]);
    assert!(a.winetricks_running);
    assert_eq!(a.winetricks_timer, Some(5));
    assert_eq!(a.winetricks_logs.last().unwrap(), "Executing: winetricks winecfg (Prefix: /pfx/a)");
    for _ in 0..5 {
        a.tick();
    }
    assert!(!a.winetricks_running);
    assert_eq!(a.winetricks_timer, None);
    let tail: Vec<&str> = a.winetricks_logs[1..].iter().map(|s| s.as_str()).collect();
    assert_eq!(
        tail,
        vec![
            "Executing: winetricks winecfg (Prefix: /pfx/a)",
            "Applying config override: block-4...",
            "Applying config override: block-2...",
            "Winetricks: Verb 'winecfg' applied successfully to prefix.",
        ]
    );
}

#[test]
fn winetricks_needs_a_game() {
    let mut a = app_with(Vec::new());
    keys(&mut a, &[Key::Down, Key::Down, Key::Down, Key::Tab, Key::Enter]);
    assert!(!a.winetricks_running);
    assert_eq!(a.winetricks_logs.last().unwrap(), "Winetricks Error: No games in library to configure.");
}

#[test]
fn creating_a_prefix() {
    let mut a = app_with(Vec::new());
    keys(&mut a, &[Key::Char('n')]);
    keys(&mut a, &typed(" work "));
    keys(&mut a, &[Key::Tab, Key::Char(' ')]);
    let e = keys(&mut a, &[Key::Enter]);
    assert_eq!(e, vec![Effect::SavePrefix { prefix_idx: 0 }]);
    let p = &a.custom_prefixes[0];
    assert_eq!(p.name, "work");
    assert_eq!(p.path, "/home/u/.local/share/lgtui/prefixes/work");
    assert_eq!(p.architecture, "win32");
    assert_eq!(p.status, "Not Initialized");
    a.handle_event(AppEvent::PrefixInitStarted { prefix_name: "work".to_string() });
    assert_eq!(a.custom_prefixes[0].status, "Booting...");
    a.handle_event(AppEvent::PrefixInitFinished { prefix_name: "work".to_string(), success: false, error: Some("boom".to_string()) });
    assert_eq!(a.custom_prefixes[0].status, "Error: boom");
}

#[test]
fn dependency_script_logs() {
    let mut a = app_with(Vec::new());
    let e = keys(&mut a, &[Key::Char('i')]);
    assert_eq!(e, vec![Effect::RunDependencyScript]);
    assert_eq!(a.current_menu(), MenuItem::DependencyInstaller);
    assert!(a.script_running);
    assert_eq!(a.script_logs, vec!["Executing: sh lgtui_install_deps.sh".to_string()]);
    assert!(keys(&mut a, &[Key::Enter]).is_empty());
    a.handle_event(AppEvent::ScriptStarted);
    a.handle_event(AppEvent::ScriptLine("hello".to_string()));
    a.handle_event(AppEvent::ScriptFinished(true));
    assert!(!a.script_running);
    assert_eq!(a.script_logs.last().unwrap(), "Dependency installation completed successfully!");
    assert_eq!(a.script_logs.len(), 4);
}

#[test]
fn help_closes_on_any_key() {
    let mut a = app_with(Vec::new());
    keys(&mut a, &[Key::Char('?')]);
    assert_eq!(a.active_modal, Some(ActiveModal::Help));
    keys(&mut a, &[Key::Char('q')]);
    assert!(a.active_modal.is_none());
    assert!(!a.should_quit);
}

#[test]
fn settings_switches_toggle() {
    let mut a = app_with(Vec::new());
    keys(&mut a, &[Key::Up, Key::Tab, Key::Down, Key::Down, Key::Char(' ')]);
    assert_eq!(a.settings_items[2].1, "Disabled");
    keys(&mut a, &[Key::Char(' ')]);
    assert_eq!(a.settings_items[2].1, "Enabled");
    keys(&mut a, &[Key::Up, Key::Char(' ')]);
    assert_eq!(a.settings_items[1].1, "/home/u/.local/share/lgtui/runners");
}

#[test]
fn backspace_removes_the_last_character() {
    let mut a = app_with(Vec::new());
    keys(&mut a, &[Key::Char('n')]);
    keys(&mut a, &typed("wörk"));
    keys(&mut a, &[Key::Backspace, Key::Backspace]);
    match &a.active_modal {
        Some(ActiveModal::CreatePrefix(m)) => assert_eq!(m.name_input, "wö"),
        other => panic!("unexpected dialog {:?}", other),
    }
    keys(&mut a, &[Key::Backspace, Key::Backspace, Key::Backspace]);
    match &a.active_modal {
        Some(ActiveModal::CreatePrefix(m)) => assert_eq!(m.name_input, ""),
        other => panic!("unexpected dialog {:?}", other),
    }
    assert!(keys(&mut a, &[Key::Enter]).is_empty());
    assert!(a.custom_prefixes.is_empty());
}

#[test]
fn declining_at_the_prefix_question_deletes_the_game_and_keeps_its_prefix() {
    for no in [Key::Char('n'), Key::Char('N'), Key::Esc] {
        let mut a = app_with(vec![game("a", "A", Some("/pfx/a"), None), game("b", "B", None, None)]);
        keys(&mut a, &[Key::Char('x'), Key::Enter]);
        assert!(matches!(a.active_modal, Some(ActiveModal::DeleteGame { prompt_prefix: true, .. })));
        let e = keys(&mut a, &[no]);
        assert_eq!(e, vec![Effect::DeleteGame { game_id: "a".to_string() }, Effect::SaveConfig]);
        assert_eq!(a.config.games.len(), 1);
        assert_eq!(a.config.games[0].id, "b");
        assert!(a.active_modal.is_none());
        assert_eq!(a.focus, PaneFocus::LibraryList);
    }
}

#[test]
fn declining_at_the_first_question_keeps_the_game() {
    for no in [Key::Char('n'), Key::Char('N'), Key::Esc] {
        let mut a = app_with(vec![game("a", "A", Some("/pfx/a"), None)]);
        keys(&mut a, &[Key::Char('x')]);
        assert!(keys(&mut a, &[no]).is_empty());
        assert!(a.active_modal.is_none());
        assert_eq!(a.config.games.len(), 1);
    }
}
