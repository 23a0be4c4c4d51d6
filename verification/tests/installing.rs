use lgtui::game::{Game, GameStatus, Runner};
use lgtui::installer::{
    asks_multiarch, choice_answer, detect_pm, install_command, packages_for, yes_no_answer, InstallChoices,
    UninstallPaths,
};
use lgtui::process::{
    choose_installed_exe, has_exe_extension, install_next, installed_game, InstallNext, InstallStep, installer_args, is_filtered_exe, join_spaced, launch_env,
    relocated_exec_path, runner_path_for, FoundExecutable, InstallPlan,
};

fn game() -> Game {
    Game {
        id: "my-game".to_string(),
        name: "My Game".to_string(),
        exec_path: "/dl/setup.exe".to_string(),
        args: vec!["-a".to_string(), "-b".to_string()],
        wineprefix: None,
        runner_id: None,
        playtime_secs: 0,
        dxvk: true,
        vkd3d: false,
        mangohud: false,
        gamemode: true,
        is_installer: true,
        status: GameStatus::Ready,
    }
}

fn proton() -> Runner {
    Runner {
        id: "p".to_string(),
        name: "Proton-GE".to_string(),
        version: "9".to_string(),
        path: "/c/GE-Proton9/proton".to_string(),
        installed: true,
        download_url: None,
    }
}

fn found(path: &str, name: Option<&str>, size: u64) -> FoundExecutable {
    FoundExecutable { path: path.to_string(), file_name: name.map(|s| s.to_string()), size }
}

#[test]
fn auxiliary_programs_are_recognised() {
    for name in ["unins000.exe", "UnInstall.exe", "vc_redist.x64.exe", "DXSETUP.exe", "CrashHandler.exe", "setup.exe", "Installer.exe", "Activation.exe", "register.exe", "helper64.exe"] {
        assert!(is_filtered_exe(name), "{}", name);
    }
    for name in ["game.exe", "Launcher.exe", "witcher3.exe"] {
        assert!(!is_filtered_exe(name), "{}", name);
    }
}

#[test]
fn the_largest_game_executable_is_chosen() {
    let list = vec![
        found("/t/a/unins000.exe", Some("unins000.exe"), 900),
        found("/t/a/game.exe", Some("game.exe"), 500),
        found("/t/a/other.exe", Some("other.exe"), 700),
        found("/t/a/same.exe", Some("same.exe"), 700),
    ];
    assert_eq!(choose_installed_exe(&list), Some(2));
    let only_aux = vec![found("/t/setup.exe", Some("setup.exe"), 10), found("/t/unins.exe", Some("unins.exe"), 30)];
    assert_eq!(choose_installed_exe(&only_aux), Some(1));
    let unnamed = vec![found("/t/x.exe", None, 1), found("/t/setup.exe", Some("setup.exe"), 99)];
    assert_eq!(choose_installed_exe(&unnamed), Some(0));
    assert_eq!(choose_installed_exe(&Vec::new()), None);
}

#[test]
fn launch_environment() {
    let g = Game { wineprefix: Some("/pfx".to_string()), ..game() };
    let env = launch_env(&g, "/usr/bin/wine");
    let pairs: Vec<(&str, &str)> = env.iter().map(|(a, b)| (a.as_str(), b.as_str())).collect();
    assert_eq!(
        pairs,
        vec![
            ("RUNNER", "/usr/bin/wine"),
            ("EXEC_PATH", "/dl/setup.exe"),
            ("DXVK", "1"),
            ("VKD3D", "0"),
            ("MANGOHUD", "0"),
            ("GAMEMODE", "1"),
            ("WINEPREFIX", "/pfx"),
            ("GAME_ARGS", "-a -b"),
        ]
    );
    assert_eq!(launch_env(&game(), "w").len(), 7);
    assert_eq!(join_spaced(&vec![]), "");
    assert_eq!(join_spaced(&vec!["one".to_string()]), "one");
    assert_eq!(runner_path_for(None), "/usr/bin/wine");
    assert_eq!(runner_path_for(Some(&proton())), "/c/GE-Proton9/proton");
}

#[test]
fn installer_plan() {
    let plan = InstallPlan::new(&game(), Some(&proton()), "/home/u");
    assert_eq!(plan.runner_path, "/c/GE-Proton9/proton");
    assert_eq!(plan.temp_prefix, "/home/u/.local/share/lgtui/prefixes/temp_install_my-game");
    assert_eq!(plan.scan_dir, "/home/u/.local/share/lgtui/prefixes/temp_install_my-game/drive_c");
    assert_eq!(plan.boot_args, vec!["run", "wine", "boot", "-u"]);
    assert_eq!(plan.install_args, vec!["run", "wine", "/dl/setup.exe"]);
    assert_eq!(plan.final_prefix, "/home/u/.local/share/lgtui/prefixes/my-game");
    let own = InstallPlan::new(&Game { wineprefix: Some("/mine".to_string()), ..game() }, None, "/home/u");
    assert_eq!(own.final_prefix, "/mine");
    assert_eq!(own.install_args, vec!["/dl/setup.exe"]);
    assert_eq!(installer_args("/usr/bin/wine", "x.exe"), vec!["x.exe"]);
}

#[test]
fn relocating_the_executable() {
    assert_eq!(
        relocated_exec_path("/t/p/drive_c/Game/game.exe", "/t/p", "/final").as_deref(),
        Some("/final/drive_c/Game/game.exe")
    );
    assert_eq!(relocated_exec_path("/elsewhere/game.exe", "/t/p", "/final"), None);
    assert_eq!(relocated_exec_path("/t/px/game.exe", "/t/p", "/final"), None);
    let g = installed_game(game(), "/final/game.exe".to_string(), "/final".to_string());
    assert!(!g.is_installer);
    assert_eq!(g.wineprefix.as_deref(), Some("/final"));
    assert_eq!(g.exec_path, "/final/game.exe");
    assert_eq!(g.id, "my-game");
}

#[test]
fn package_manager_and_answers() {
    assert_eq!(detect_pm(true, true, true), "pacman");
    assert_eq!(detect_pm(false, true, true), "apt");
    assert_eq!(detect_pm(false, false, true), "dnf");
    assert_eq!(detect_pm(false, false, false), "unknown");
    assert!(yes_no_answer("\n", true));
    assert!(!yes_no_answer("  ", false));
    assert!(yes_no_answer(" YES \n", false));
    assert!(yes_no_answer("y", false));
    assert!(!yes_no_answer("yeah", true));
    assert_eq!(choice_answer(" 1 \n", "2"), "1");
    assert_eq!(choice_answer("\n", "2"), "2");
    assert!(asks_multiarch("apt"));
    assert!(!asks_multiarch("dnf"));
}

#[test]
fn packages_per_distribution() {
    let all = InstallChoices { wine: true, wine_branch: "2".to_string(), winetricks: true, mangohud: true, gamemode: true };
    assert_eq!(
        packages_for("pacman", &all),
        vec!["wine-staging", "wine-mono", "wine-gecko", "winetricks", "mangohud", "lib32-mangohud", "gamemode", "lib32-gamemode"]
    );
    assert_eq!(packages_for("apt", &all), vec!["wine-development", "winetricks", "mangohud", "gamemode"]);
    let stable = InstallChoices { wine_branch: "1".to_string(), ..all.clone() };
    assert_eq!(packages_for("dnf", &stable), vec!["wine", "wine-mono-core", "wine-gecko", "winetricks", "mangohud", "gamemode"]);
    assert_eq!(packages_for("apt", &stable)[0], "wine");
    let none = InstallChoices { wine: false, wine_branch: "2".to_string(), winetricks: false, mangohud: false, gamemode: false };
    assert!(packages_for("pacman", &none).is_empty());
    let pk = vec!["a".to_string(), "b".to_string()];
    assert_eq!(install_command("pacman", &pk), Some(vec!["pacman", "-S", "--noconfirm", "--needed", "a", "b"].into_iter().map(String::from).collect()));
    assert_eq!(install_command("apt", &pk), Some(vec!["apt-get", "install", "-y", "a", "b"].into_iter().map(String::from).collect()));
    assert_eq!(install_command("unknown", &pk), None);
}

#[test]
fn uninstall_paths() {
    let p = UninstallPaths::new("/home/u");
    assert_eq!(p.desktop_entry, "/home/u/.local/share/applications/lgtui.desktop");
    assert_eq!(p.user_icon, "/home/u/.local/share/icons/hicolor/scalable/apps/lgtui.svg");
    assert_eq!(p.user_fallback_icon, "/home/u/.local/share/icons/lgtui.svg");
    assert_eq!(p.data_dir, "/home/u/.local/share/lgtui");
    assert_eq!(p.config_dir, "/home/u/.config/lgui");
}

#[test]
fn executables_are_found_by_extension() {
    for name in ["game.exe", "GAME.EXE", "a.b.Exe", "x.eXe"] {
        assert!(has_exe_extension(name), "{}", name);
    }
    for name in [".exe", "a.exe.bak", "exe", "a.", "", "game.ex", "game.exes"] {
        assert!(!has_exe_extension(name), "{}", name);
    }
    for name in ["game.exe", ".exe", "a.b.Exe", "a.", "noext"] {
        let std_says = std::path::Path::new(name)
            .extension()
            .and_then(|e| e.to_str())
            .map(|e| e.eq_ignore_ascii_case("exe"))
            .unwrap_or(false);
        assert_eq!(has_exe_extension(name), std_says, "{}", name);
    }
}

#[test]
fn installer_steps_and_exit_codes() {
    let order = [
        InstallStep::Prepare,
        InstallStep::Boot,
        InstallStep::Install,
        InstallStep::Scan,
        InstallStep::Relocate,
        InstallStep::Locate,
        InstallStep::Finish,
    ];
    for w in order.windows(2) {
        assert_eq!(install_next(w[0], true), InstallNext::Step(w[1]));
    }
    assert_eq!(install_next(InstallStep::Prepare, false), InstallNext::Stop(-1));
    assert_eq!(install_next(InstallStep::Boot, false), InstallNext::Stop(-1));
    assert_eq!(install_next(InstallStep::Install, false), InstallNext::Stop(-1));
    assert_eq!(install_next(InstallStep::Scan, false), InstallNext::Stop(-2));
    assert_eq!(install_next(InstallStep::Relocate, false), InstallNext::Stop(-3));
    assert_eq!(install_next(InstallStep::Locate, false), InstallNext::Stop(-4));
}
