use lgtui::app::{AddGameFocus, AddGameModalState, App, PaneFocus, RunnerState};
use lgtui::database::GameStats;
use lgtui::game::{Config, GameStatus};
use lgtui::prefix::WinePrefix;
use lgtui::view::{
    add_game_notice, dialog_runner_label, downloading_version, exec_field_tone, footer_hint, format_playtime,
    format_timestamp, fps_text, is_right_focused, last_played_text, prefix_badge, prefix_list_label,
    prefix_settings_label, runner_badge, runner_label, runner_text, script_log_tone, sessions_text,
    settings_label, settings_value, status_detail, status_marker, tail_start, winetricks_label,
    winetricks_log_tone, onboarding_footer, tool_status, AddGameNotice, OnboardingFooter, PrefixBadge, RunnerBadge, Tone,
};
use lgtui::onboarding::{DiagnosticsResult, OnboardingState, OnboardingStep};

fn app() -> App {
    App::new(Config::default_for_home(Some("/home/u")), Vec::new(), "/home/u".to_string())
}

fn modal() -> AddGameModalState {
    AddGameModalState {
        title: String::new(),
        exec_path: String::new(),
        prefix_name: String::new(),
        prefix_edited: false,
        selected_runner_idx: 0,
        dxvk: true,
        vkd3d: false,
        mangohud: false,
        gamemode: false,
        is_installer: false,
        focus: AddGameFocus::Title,
    }
}

#[test]
fn timestamps_as_calendar_dates() {
    assert_eq!(format_timestamp(0), "1970-01-01 00:00");
    assert_eq!(format_timestamp(86399), "1970-01-01 23:59");
    assert_eq!(format_timestamp(951782400), "2000-02-29 00:00");
    assert_eq!(format_timestamp(1709210096), "2024-02-29 12:34");
    assert_eq!(format_timestamp(1735689599), "2024-12-31 23:59");
    assert_eq!(format_timestamp(4102444800), "2100-01-01 00:00");
    assert_eq!(format_timestamp(4107542400), "2100-03-01 00:00");
}

#[test]
fn play_times() {
    assert_eq!(format_playtime(0), "0h 0m 0s");
    assert_eq!(format_playtime(3725), "1h 2m 5s");
    assert_eq!(format_playtime(360000), "100h 0m 0s");
}

#[test]
fn log_colours_and_tails() {
    assert_eq!(winetricks_log_tone("Winetricks Error: none"), Tone::Warn);
    assert_eq!(winetricks_log_tone("Executing: winetricks dxvk"), Tone::Info);
    assert_eq!(winetricks_log_tone("Verb 'x' applied successfully to prefix."), Tone::Success);
    assert_eq!(winetricks_log_tone("Applying config override"), Tone::Muted);
    assert_eq!(script_log_tone("[ERROR] no sudo"), Tone::Warn);
    assert_eq!(script_log_tone("Script execution started..."), Tone::Info);
    assert_eq!(script_log_tone("Dependency installation completed successfully!"), Tone::Success);
    assert_eq!(script_log_tone("plain"), Tone::Text);
    assert_eq!(tail_start(25, 10), 15);
    assert_eq!(tail_start(5, 10), 0);
}

#[test]
fn labels_are_padded() {
    assert_eq!(winetricks_label("dxvk", "Install DXVK"), "  dxvk             - Install DXVK");
    assert_eq!(settings_label("Abc"), format!("  {:<32} : ", "Abc"));
    assert_eq!(settings_value("Enabled", true), (" [✔] Enabled".to_string(), Tone::Success));
    assert_eq!(settings_value("Disabled", true), (" [ ] Disabled".to_string(), Tone::Muted));
    assert_eq!(settings_value("/p", false), (" /p".to_string(), Tone::Info));
    let p = WinePrefix {
        name: "work".to_string(),
        path: "/pf/work".to_string(),
        architecture: "win64".to_string(),
        status: "Booting...".to_string(),
    };
    assert_eq!(prefix_settings_label(&p), "  work         [win64] -> /pf/work");
    assert_eq!(prefix_list_label(&p), "  work             [win64]");
    assert_eq!(prefix_badge(&p.status), PrefixBadge::Booting);
    assert_eq!(prefix_badge("Ready"), PrefixBadge::Ready);
    assert_eq!(prefix_badge("Error: x"), PrefixBadge::NotInitialized);
}

#[test]
fn runner_list_badges() {
    let mut a = app();
    assert_eq!(runner_badge(&a, 0), RunnerBadge::Installed);
    assert_eq!(runner_badge(&a, 2), RunnerBadge::Available);
    a.downloading_runner_id = Some("proton-ge-8-25".to_string());
    a.runner_state = RunnerState::Downloading(10);
    assert_eq!(runner_badge(&a, 2), RunnerBadge::Downloading);
    a.runner_state = RunnerState::Extracting;
    assert_eq!(runner_badge(&a, 2), RunnerBadge::Extracting);
    assert_eq!(downloading_version(&a), "GE-Proton8-25");
    a.downloading_runner_id = None;
    assert_eq!(downloading_version(&a), "");
    assert_eq!(runner_label(&a.config.runners[1]), "Wine Staging (9.10)");
    assert_eq!(dialog_runner_label(&a, 0), "System Wine (Default)");
    assert_eq!(dialog_runner_label(&a, 2), "Wine Staging (9.10)");
    assert_eq!(dialog_runner_label(&a, 9), "Unknown Runner");
}

#[test]
fn game_details() {
    assert_eq!(status_marker(&GameStatus::Ready), Tone::Muted);
    assert_eq!(status_marker(&GameStatus::Running { pid: 1, since: 0 }), Tone::Success);
    assert_eq!(status_detail(&GameStatus::Ready), ("Ready to Play".to_string(), Tone::Success));
    assert_eq!(status_detail(&GameStatus::Running { pid: 12, since: 0 }), ("Running (PID: 12)".to_string(), Tone::Accent));
    assert_eq!(status_detail(&GameStatus::Error("e".to_string())), ("Error: e".to_string(), Tone::Warn));
    assert_eq!(runner_text(&None), "System default (Wine)");
    assert_eq!(runner_text(&Some("r".to_string())), "r");
    let mut s = GameStats::empty("g");
    assert_eq!(last_played_text(&s), "Never");
    s.last_played = Some(0);
    assert_eq!(last_played_text(&s), "1970-01-01 00:00");
    assert_eq!(sessions_text(3), "3 sessions");
    assert_eq!(fps_text(0), None);
    assert_eq!(fps_text(61).as_deref(), Some("61 FPS"));
}

#[test]
fn add_game_dialog_notes() {
    let mut m = modal();
    assert_eq!(add_game_notice(&m), AddGameNotice::MissingTitle);
    m.title = "Doom".to_string();
    assert_eq!(add_game_notice(&m), AddGameNotice::MissingPath);
    m.exec_path = "   ".to_string();
    assert_eq!(add_game_notice(&m), AddGameNotice::InvalidPath);
    m.exec_path = "/g/doom.exe".to_string();
    assert_eq!(add_game_notice(&m), AddGameNotice::Valid);
    m.title = "  ".to_string();
    assert_eq!(add_game_notice(&m), AddGameNotice::MissingTitle);
    m.title = "Doom".to_string();
    m.exec_path = "/g/*.exe".to_string();
    assert_eq!(add_game_notice(&m), AddGameNotice::InvalidPath);
    assert_eq!(exec_field_tone(&m), Tone::Warn);
    m.focus = AddGameFocus::ExecPath;
    assert_eq!(exec_field_tone(&m), Tone::Accent);
    m.focus = AddGameFocus::Title;
    m.exec_path = String::new();
    assert_eq!(exec_field_tone(&m), Tone::Dim);
}

#[test]
fn focus_and_footer() {
    let mut a = app();
    assert!(!is_right_focused(&a));
    assert_eq!(footer_hint(&a), "[Tab/l] Select Menu   [j/k] Navigate Menu   [a] Add Game   [i] Install Deps   [?] Help   [q] Quit");
    a.focus = PaneFocus::LibraryList;
    assert!(is_right_focused(&a));
    a.menu_index = 1;
    assert_eq!(footer_hint(&a), "[Enter] Install Runner   [j/k] Select   [Tab] Menu   [?] Help   [q] Quit");
    a.focus = PaneFocus::MetadataPanel;
    assert_eq!(footer_hint(&a), "[Tab] Cycle Focus   [?] Help   [q] Quit");
}

#[test]
fn first_start_assistant_texts() {
    assert_eq!(tool_status(true), ("Found", Tone::Success));
    assert_eq!(tool_status(false), ("Missing", Tone::Warn));
    let ob = |step| OnboardingState { step, selected_yes: true };
    assert_eq!(onboarding_footer(&ob(OnboardingStep::Welcome)), OnboardingFooter::Scanning);
    let all = DiagnosticsResult::perform(true, true, true, true, false);
    let some = DiagnosticsResult::perform(true, false, true, true, false);
    assert_eq!(onboarding_footer(&ob(OnboardingStep::ScanResult(all))), OnboardingFooter::ReadyToLaunch);
    assert_eq!(onboarding_footer(&ob(OnboardingStep::ScanResult(some))), OnboardingFooter::AskToInstall);
    let installing = |completed, success| OnboardingStep::Installing { logs: Vec::new(), completed, success };
    assert_eq!(onboarding_footer(&ob(installing(false, false))), OnboardingFooter::Installing);
    assert_eq!(onboarding_footer(&ob(installing(true, true))), OnboardingFooter::Succeeded);
    assert_eq!(onboarding_footer(&ob(installing(true, false))), OnboardingFooter::Failed);
}

#[test]
fn timestamps_sort_like_times() {
    let times = [0u64, 59, 60, 3599, 3600, 86399, 86400, 951782399, 951782400, 1709210096, 4102444800];
    for w in times.windows(2) {
        assert!(format_timestamp(w[0]) <= format_timestamp(w[1]));
    }
}
