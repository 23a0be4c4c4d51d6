use lgtui::runner::RunnerManager;

const LINK: &str = "https://github.com/GloriousEggroll/proton-ge-custom/releases/tag/";

fn feed(tags: &[&str]) -> String {
    let mut s = String::from("<feed>");
    for t in tags {
        s.push_str(&format!("<entry><link href=\"{}{}\"/></entry>", LINK, t));
    }
    s.push_str("</feed>");
    s
}

#[test]
fn release_tags_in_feed_order() {
    let f = feed(&["GE-Proton9-20", "GE-Proton9-19", "GE-Proton9-18"]);
    assert_eq!(RunnerManager::release_tags(&f), vec!["GE-Proton9-20", "GE-Proton9-19", "GE-Proton9-18"]);
}

#[test]
fn empty_and_repeated_tags_are_skipped() {
    let f = feed(&["A", "", "B", "A", "B", "C"]);
    assert_eq!(RunnerManager::release_tags(&f), vec!["A", "B", "C"]);
}

#[test]
fn a_link_without_closing_quote_ends_the_scan() {
    let f = format!("{}X\" {}Y\" {}Z", LINK, LINK, LINK);
    assert_eq!(RunnerManager::release_tags(&f), vec!["X", "Y"]);
    assert_eq!(RunnerManager::release_tags("no releases here"), Vec::<String>::new());
    assert_eq!(RunnerManager::release_tags(""), Vec::<String>::new());
}

#[test]
fn release_runner_entries() {
    let dir = RunnerManager::compat_tools_dir("/home/u");
    assert_eq!(dir, "/home/u/.local/share/steam/compatibilitytools.d");
    let r = RunnerManager::release_runner("GE-Proton9-20", &dir, false);
    assert_eq!(r.id, "ge-proton9-20");
    assert_eq!(r.name, "Proton-GE");
    assert_eq!(r.version, "GE-Proton9-20");
    assert_eq!(r.path, "/home/u/.local/share/steam/compatibilitytools.d/GE-Proton9-20/proton");
    assert!(!r.installed);
    assert_eq!(
        r.download_url.as_deref(),
        Some("https://github.com/GloriousEggroll/proton-ge-custom/releases/download/GE-Proton9-20/GE-Proton9-20.tar.gz")
    );
    assert_eq!(RunnerManager::release_dir(&dir, "T"), "/home/u/.local/share/steam/compatibilitytools.d/T");
    assert_eq!(RunnerManager::runner_executable("/r/T"), "/r/T/proton");
    let all = RunnerManager::release_runners(&vec!["A".to_string(), "B".to_string()], "/c", &vec![true, false]);
    assert_eq!(all.len(), 2);
    assert!(all[0].installed && !all[1].installed);
    assert_eq!(all[1].id, "b");
}

#[test]
fn download_percentages() {
    assert_eq!(RunnerManager::download_percentage(50, Some(200)), 25);
    assert_eq!(RunnerManager::download_percentage(200, Some(200)), 100);
    assert_eq!(RunnerManager::download_percentage(1, Some(3)), 33);
    assert_eq!(RunnerManager::download_percentage(5, None), 0);
    // More bytes than announced wrap as a byte does.
    assert_eq!(RunnerManager::download_percentage(300, Some(100)), 44);
}

#[test]
fn script_errors_are_marked() {
    assert_eq!(RunnerManager::script_error_line("no sudo"), "ERROR: no sudo");
}
