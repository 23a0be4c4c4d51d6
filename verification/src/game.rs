use vstd::prelude::*;

use crate::text::{concat, decimal, join_path, join_path_exec, push_decimal, string_from};

verus! {

/// The views of a list of strings.
pub open spec fn strs_view(v: Seq<String>) -> Seq<Seq<char>> {
    v.map_values(|s: String| s@)
}

/// The view of an optional string.
pub open spec fn opt_view(o: Option<String>) -> Option<Seq<char>> {
    match o {
        Some(s) => Some(s@),
        None => None,
    }
}

/// Whether a game is idle, running, or ended in an error.
#[derive(Debug, Clone, PartialEq, Eq, Default)]
pub enum GameStatus {
    #[default]
    Ready,
    Running { pid: u32, since: u64 },
    Error(String),
}

/// The text under which a status is shown.
pub open spec fn status_text(st: GameStatus) -> Seq<char> {
    match st {
        GameStatus::Ready => "Ready"@,
        GameStatus::Running { pid, .. } => "Running (PID: "@ + decimal(pid as nat) + ")"@,
        GameStatus::Error(e) => "Error: "@ + e@,
    }
}

impl GameStatus {
    /// The text under which the status is shown.
    pub fn to_display_string(&self) -> (r: String)
        ensures
            r@ == status_text(*self),
    {
        match self {
            GameStatus::Ready => string_from("Ready"),
            GameStatus::Running { pid, .. } => {
                let mut r = string_from("Running (PID: ");
                push_decimal(&mut r, *pid as u64);
                r.append(")");
                r
            },
            GameStatus::Error(e) => concat("Error: ", e.as_str()),
        }
    }

    pub open spec fn spec_is_running(&self) -> bool {
        self is Running
    }

    /// Whether the game is running.
    pub fn is_running(&self) -> (r: bool)
        ensures
            r == self.spec_is_running(),
    {
        match self {
            GameStatus::Running { .. } => true,
            _ => false,
        }
    }
}

/// A game of the library and how it is launched.
#[derive(Debug, Clone)]
pub struct Game {
    pub id: String,
    pub name: String,
    pub exec_path: String,
    pub args: Vec<String>,
    pub wineprefix: Option<String>,
    pub runner_id: Option<String>,
    pub playtime_secs: u64,
    pub dxvk: bool,
    pub vkd3d: bool,
    pub mangohud: bool,
    pub gamemode: bool,
    pub is_installer: bool,
    pub status: GameStatus,
}

/// A Wine or Proton build that games can run with.
#[derive(Debug, Clone)]
pub struct Runner {
    pub id: String,
    pub name: String,
    pub version: String,
    pub path: String,
    pub installed: bool,
    pub download_url: Option<String>,
}

/// Where the settings file of the game `game_id` lies, under the home
/// directory `home`.
pub open spec fn game_file_path(home: Seq<char>, game_id: Seq<char>) -> Seq<char> {
    join_path(join_path(home, ".config/lgui/games"@), game_id + ".toml"@)
}

impl Game {
    /// Where the settings file of the game `game_id` lies, under the home
    /// directory `home`.
    pub fn get_toml_path(home: &str, game_id: &str) -> (r: String)
        ensures
            r@ == game_file_path(home@, game_id@),
    {
        let dir = join_path_exec(home, ".config/lgui/games");
        let name = concat(game_id, ".toml");
        join_path_exec(dir.as_str(), name.as_str())
    }
}

/// The launcher's settings, games and runners.
#[derive(Debug, Clone)]
pub struct Config {
    pub default_wineprefix: String,
    pub runner_download_dir: String,
    pub games: Vec<Game>,
    pub runners: Vec<Runner>,
}

/// The directory under which the launcher keeps its data, for a given home
/// directory (`None` when `HOME` is not set).
pub open spec fn base_dir(home: Option<Seq<char>>) -> Seq<char> {
    match home {
        Some(h) => join_path(h, ".local/share/lgtui"@),
        None => "./.lgtui"@,
    }
}

/// Whether `r` holds exactly the given fields.
pub open spec fn runner_is(
    r: Runner,
    id: Seq<char>,
    name: Seq<char>,
    version: Seq<char>,
    path: Seq<char>,
    installed: bool,
) -> bool {
    &&& r.id@ == id
    &&& r.name@ == name
    &&& r.version@ == version
    &&& r.path@ == path
    &&& r.installed == installed
    &&& r.download_url is None
}

/// Whether `c` is the configuration that a first start creates.
pub open spec fn is_default_config(c: Config, home: Option<Seq<char>>) -> bool {
    let base = base_dir(home);
    &&& c.default_wineprefix@ == join_path(base, "prefixes/default"@)
    &&& c.runner_download_dir@ == join_path(base, "runners"@)
    &&& c.games@.len() == 0
    &&& c.runners@.len() == 4
    &&& runner_is(
        c.runners@[0],
        "proton-ge-9-5"@,
        "Proton-GE"@,
        "GE-Proton9-5"@,
        join_path(base, "runners/GE-Proton9-5/proton"@),
        true,
    )
    &&& runner_is(
        c.runners@[1],
        "wine-staging-9-10"@,
        "Wine Staging"@,
        "9.10"@,
        "/usr/bin/wine"@,
        true,
    )
    &&& runner_is(
        c.runners@[2],
        "proton-ge-8-25"@,
        "Proton-GE"@,
        "GE-Proton8-25"@,
        join_path(base, "runners/GE-Proton8-25/proton"@),
        false,
    )
    &&& runner_is(
        c.runners@[3],
        "proton-9-beta"@,
        "Proton (Beta)"@,
        "Proton 9.0 (Beta 3)"@,
        join_path(base, "runners/Proton-9.0-Beta/proton"@),
        false,
    )
}

fn make_runner(
    id: &str,
    name: &str,
    version: &str,
    path: String,
    installed: bool,
) -> (r: Runner)
    ensures
        runner_is(r, id@, name@, version@, path@, installed),
{
    Runner {
        id: string_from(id),
        name: string_from(name),
        version: string_from(version),
        path,
        installed,
        download_url: None,
    }
}

impl Config {
    /// The configuration of a first start, for the home directory `home`
    /// (`None` when it is unknown).
    pub fn default_for_home(home: Option<&str>) -> (c: Config)
        ensures
            is_default_config(c, match home {
                Some(h) => Some(h@),
                None => None,
            }),
    {
        let base = match home {
            Some(h) => join_path_exec(h, ".local/share/lgtui"),
            None => string_from("./.lgtui"),
        };
        let default_prefix = join_path_exec(base.as_str(), "prefixes/default");
        let download_dir = join_path_exec(base.as_str(), "runners");
        let mut runners: Vec<Runner> = Vec::new();
        runners.push(
            make_runner(
                "proton-ge-9-5",
                "Proton-GE",
                "GE-Proton9-5",
                join_path_exec(base.as_str(), "runners/GE-Proton9-5/proton"),
                true,
            ),
        );
        runners.push(
            make_runner(
                "wine-staging-9-10",
                "Wine Staging",
                "9.10",
                string_from("/usr/bin/wine"),
                true,
            ),
        );
        runners.push(
            make_runner(
                "proton-ge-8-25",
                "Proton-GE",
                "GE-Proton8-25",
                join_path_exec(base.as_str(), "runners/GE-Proton8-25/proton"),
                false,
            ),
        );
        runners.push(
            make_runner(
                "proton-9-beta",
                "Proton (Beta)",
                "Proton 9.0 (Beta 3)",
                join_path_exec(base.as_str(), "runners/Proton-9.0-Beta/proton"),
                false,
            ),
        );
        Config {
            default_wineprefix: default_prefix,
            runner_download_dir: download_dir,
            games: Vec::new(),
            runners,
        }
    }

    /// The configuration read back from storage: the two stored settings,
    /// each replaced by its first-start value when it was not stored, and
    /// the stored games and runners.
    pub fn from_stored(
        default_wineprefix: Option<String>,
        runner_download_dir: Option<String>,
        games: Vec<Game>,
        runners: Vec<Runner>,
        home: Option<&str>,
    ) -> (c: Config)
        ensures
            ({
                let d = base_dir(
                    match home {
                        Some(h) => Some(h@),
                        None => None,
                    },
                );
                &&& c.default_wineprefix@ == match default_wineprefix {
                    Some(s) => s@,
                    None => join_path(d, "prefixes/default"@),
                }
                &&& c.runner_download_dir@ == match runner_download_dir {
                    Some(s) => s@,
                    None => join_path(d, "runners"@),
                }
            }),
            c.games == games,
            c.runners == runners,
    {
        let wp = match default_wineprefix {
            Some(s) => s,
            None => Config::default_for_home(home).default_wineprefix,
        };
        let rd = match runner_download_dir {
            Some(s) => s,
            None => Config::default_for_home(home).runner_download_dir,
        };
        Config { default_wineprefix: wp, runner_download_dir: rd, games, runners }
    }
}

} // verus!
