use vstd::prelude::*;

use crate::game::{strs_view, Config, Game, GameStatus, Runner};
use crate::naming::{fresh_id, slug, slugify, unique_game_id};
use crate::onboarding::OnboardingState;
use crate::prefix::WinePrefix;
use crate::runner::AppEvent;
use crate::text::{
    blank, chars_of, contains, has_infix, is_blank, join_path, join_path_exec, push_decimal,
    str_eq, string_from, trim, trim_str,
};

verus! {

/// Which pane takes the arrow keys.
#[derive(Debug, Clone, Copy, PartialEq, Eq, Structural)]
pub enum PaneFocus {
    LeftMenu,
    LibraryList,
    MetadataPanel,
}

/// The screens of the left menu, in menu order.
#[derive(Debug, Clone, Copy, PartialEq, Eq, Structural)]
pub enum MenuItem {
    Library,
    RunnerManager,
    PrefixManager,
    Winetricks,
    DependencyInstaller,
    Settings,
}

/// The screen at a menu position; every position past the fifth is the
/// settings screen.
pub open spec fn menu_at(index: int) -> MenuItem {
    if index == 0 {
        MenuItem::Library
    } else if index == 1 {
        MenuItem::RunnerManager
    } else if index == 2 {
        MenuItem::PrefixManager
    } else if index == 3 {
        MenuItem::Winetricks
    } else if index == 4 {
        MenuItem::DependencyInstaller
    } else {
        MenuItem::Settings
    }
}

/// The menu position of a screen.
pub open spec fn menu_position(m: MenuItem) -> int {
    match m {
        MenuItem::Library => 0,
        MenuItem::RunnerManager => 1,
        MenuItem::PrefixManager => 2,
        MenuItem::Winetricks => 3,
        MenuItem::DependencyInstaller => 4,
        MenuItem::Settings => 5,
    }
}

impl MenuItem {
    /// The screen at a menu position.
    pub fn from_index(index: usize) -> (r: Self)
        ensures
            r == menu_at(index as int),
    {
        match index {
            0 => MenuItem::Library,
            1 => MenuItem::RunnerManager,
            2 => MenuItem::PrefixManager,
            3 => MenuItem::Winetricks,
            4 => MenuItem::DependencyInstaller,
            _ => MenuItem::Settings,
        }
    }

    /// The menu position of the screen.
    pub fn index(self) -> (r: usize)
        ensures
            r == menu_position(self),
    {
        match self {
            MenuItem::Library => 0,
            MenuItem::RunnerManager => 1,
            MenuItem::PrefixManager => 2,
            MenuItem::Winetricks => 3,
            MenuItem::DependencyInstaller => 4,
            MenuItem::Settings => 5,
        }
    }
}

/// A screen's position leads back to the screen, and every position in
/// the menu to a screen at that position.
pub proof fn lemma_menu_round_trip(m: MenuItem, index: int)
    ensures
        menu_at(menu_position(m)) == m,
        0 <= index < 6 ==> menu_position(menu_at(index)) == index,
{
}

/// What the runner download pane shows.
#[derive(Debug, Clone, PartialEq, Eq)]
pub enum RunnerState {
    Idle,
    FetchingReleases,
    Downloading(u8),
    Extracting,
    Error(String),
}

/// The field that takes typing in the new-prefix dialog.
#[derive(Debug, Clone, Copy, PartialEq, Eq, Structural)]
pub enum ModalFocus {
    NameInput,
    ArchToggle,
}

/// The new-prefix dialog.
#[derive(Debug, Clone, PartialEq, Eq)]
pub struct ModalState {
    pub name_input: String,
    pub is_64bit: bool,
    pub focus: ModalFocus,
}

/// The field under the cursor in the add-game dialog, in dialog order.
#[derive(Debug, Clone, Copy, PartialEq, Eq, Structural)]
pub enum AddGameFocus {
    Title,
    ExecPath,
    PrefixName,
    Runner,
    Dxvk,
    Vkd3d,
    MangoHud,
    GameMode,
    IsInstaller,
}

/// The add-game dialog.
#[derive(Debug, Clone, PartialEq, Eq)]
pub struct AddGameModalState {
    pub title: String,
    pub exec_path: String,
    pub prefix_name: String,
    pub prefix_edited: bool,
    /// 0 for the system Wine, `i + 1` for the `i`-th runner.
    pub selected_runner_idx: usize,
    pub dxvk: bool,
    pub vkd3d: bool,
    pub mangohud: bool,
    pub gamemode: bool,
    pub is_installer: bool,
    pub focus: AddGameFocus,
}

/// The dialog in front of the panes.
#[derive(Debug, Clone, PartialEq, Eq)]
pub enum ActiveModal {
    CreatePrefix(ModalState),
    AddGame(AddGameModalState),
    DeleteGame { game_idx: usize, delete_prefix: bool, prompt_prefix: bool },
    DeletePrefix { prefix_idx: usize, delete_files: bool, prompt_delete_files: bool },
    Help,
}

/// A key press, by the key alone.
#[derive(Debug, Clone, Copy, PartialEq, Eq, Structural)]
pub enum Key {
    Char(char),
    Enter,
    Esc,
    Tab,
    Backspace,
    Up,
    Down,
    Left,
    Right,
    Other,
}

/// Work that a step of the state machine leaves to the caller, to be done
/// in order after the step, on the state that the step left.
#[derive(Debug, Clone, PartialEq, Eq)]
pub enum Effect {
    /// Record that the first-start assistant is done.
    CompleteOnboarding,
    /// Start the dependency script at `script_path`.
    RunDependencyScript,
    /// Store the prefix at this position.
    SavePrefix { prefix_idx: usize },
    /// Remove the stored prefix of this name.
    DeletePrefix { name: String },
    /// Store the game at this position (its file and its row).
    SaveGame { game_idx: usize },
    /// Remove the stored game of this identifier (its file and its row).
    DeleteGame { game_id: String },
    /// Store the whole configuration.
    SaveConfig,
    /// Remove this directory and its contents, if it is a directory.
    RemoveDirectory { path: String },
    /// Launch the game at this position with the runner at this position,
    /// or with the system Wine.
    LaunchGame { game_idx: usize, runner_idx: Option<usize> },
    /// Download the runner at this position and unpack it into `dest_dir`.
    DownloadRunner { runner_idx: usize, dest_dir: String },
    /// Create or update the prefix at this position with the runner at this
    /// position, or with the system Wine.
    InitializePrefix { prefix_idx: usize, runner_idx: Option<usize> },
    /// Count a launch of the game at this position.
    RecordGameLaunch { game_idx: usize },
    /// Record the end of a session of the game at this position.
    RecordGameExit { game_idx: usize, avg_fps: u32, max_fps: u32 },
}

/// The state of the launcher's user interface.
pub struct App {
    pub config: Config,
    pub focus: PaneFocus,
    pub menu_index: usize,
    pub selected_game_idx: usize,
    pub selected_runner_idx: usize,
    pub selected_prefix_idx: usize,
    pub selected_winetricks_idx: usize,
    pub selected_settings_idx: usize,
    pub selected_metadata_idx: usize,
    pub downloading_runner_id: Option<String>,
    pub download_progress: u32,
    /// Each winetricks verb with its description.
    pub winetricks_items: Vec<(String, String)>,
    pub winetricks_logs: Vec<String>,
    pub winetricks_running: bool,
    pub winetricks_timer: Option<u32>,
    /// Each setting: its label, its value, whether it is an on/off switch.
    pub settings_items: Vec<(String, String, bool)>,
    pub custom_prefixes: Vec<WinePrefix>,
    pub active_modal: Option<ActiveModal>,
    pub script_logs: Vec<String>,
    pub script_running: bool,
    pub script_path: String,
    pub should_quit: bool,
    pub runner_state: RunnerState,
    pub onboarding: Option<OnboardingState>,
    /// The home directory under which paths are made.
    pub home: String,
}

// ---------------------------------------------------------------------------
// Invariants
// ---------------------------------------------------------------------------
/// Whether `i` is a position of a list of length `n`, or 0.
pub open spec fn index_ok(i: usize, n: int) -> bool {
    i == 0 || i < n
}

/// Whether every game has its own identifier.
pub open spec fn ids_distinct(games: Seq<Game>) -> bool {
    forall|i: int, j: int|
        0 <= i < games.len() && 0 <= j < games.len() && i != j ==> (#[trigger] games[i]).id@
            != (#[trigger] games[j]).id@
}

/// Whether an effect names positions that exist in the state `t`.
pub open spec fn effect_valid(t: App, e: Effect) -> bool {
    match e {
        Effect::SavePrefix { prefix_idx } => prefix_idx < t.custom_prefixes@.len(),
        Effect::SaveGame { game_idx } => game_idx < t.config.games@.len(),
        Effect::LaunchGame { game_idx, runner_idx } => game_idx < t.config.games@.len() && match runner_idx {
            Some(r) => r < t.config.runners@.len(),
            None => true,
        },
        Effect::DownloadRunner { runner_idx, .. } => runner_idx < t.config.runners@.len(),
        Effect::InitializePrefix { prefix_idx, runner_idx } => prefix_idx < t.custom_prefixes@.len()
            && match runner_idx {
            Some(r) => r < t.config.runners@.len(),
            None => true,
        },
        Effect::RecordGameLaunch { game_idx } => game_idx < t.config.games@.len(),
        Effect::RecordGameExit { game_idx, .. } => game_idx < t.config.games@.len(),
        _ => true,
    }
}

/// Whether all effects name positions that exist in `t`.
pub open spec fn effects_valid(t: App, es: Seq<Effect>) -> bool {
    forall|i: int| 0 <= i < es.len() ==> effect_valid(t, #[trigger] es[i])
}

impl App {
    /// The invariant of the state: every selection and every dialog names a
    /// position that exists (or 0 in an empty list), and the winetricks
    /// list is not empty.
    pub open spec fn wf(&self) -> bool {
        &&& self.winetricks_items@.len() > 0
        &&& self.selected_winetricks_idx < self.winetricks_items@.len()
        &&& index_ok(self.selected_game_idx, self.config.games@.len() as int)
        &&& index_ok(self.selected_runner_idx, self.config.runners@.len() as int)
        &&& index_ok(self.selected_prefix_idx, self.custom_prefixes@.len() as int)
        &&& match self.active_modal {
            Some(ActiveModal::DeleteGame { game_idx, .. }) => game_idx < self.config.games@.len(),
            Some(ActiveModal::DeletePrefix { prefix_idx, .. }) => prefix_idx
                < self.custom_prefixes@.len(),
            Some(ActiveModal::AddGame(m)) => m.selected_runner_idx <= self.config.runners@.len(),
            _ => true,
        }
    }

    /// The sizes that counting past a list must fit in a machine word.
    pub open spec fn within_capacity(&self) -> bool {
        &&& self.config.games@.len() < usize::MAX
        &&& self.config.runners@.len() < usize::MAX
        &&& self.custom_prefixes@.len() + self.settings_items@.len() < usize::MAX
    }

    /// The screen that the menu selection shows.
    pub open spec fn spec_current_menu(&self) -> MenuItem {
        menu_at(self.menu_index as int)
    }

    /// The screen that the menu selection shows.
    pub fn current_menu(&self) -> (r: MenuItem)
        ensures
            r == self.spec_current_menu(),
    {
        MenuItem::from_index(self.menu_index)
    }
}

/// The previous position in a cycle of `n` positions.
pub open spec fn cycle_prev(i: int, n: int) -> int {
    if i > 0 {
        i - 1
    } else {
        n - 1
    }
}

/// The next position in a cycle of `n` positions.
pub open spec fn cycle_next(i: int, n: int) -> int {
    if i < n - 1 {
        i + 1
    } else {
        0
    }
}

/// Moving down then up, or up then down, in a list comes back to where it
/// started.
pub proof fn lemma_cycle_round_trip(i: int, n: int)
    requires
        0 <= i < n,
    ensures
        cycle_prev(cycle_next(i, n), n) == i,
        cycle_next(cycle_prev(i, n), n) == i,
        0 <= cycle_next(i, n) < n,
        0 <= cycle_prev(i, n) < n,
{
}

// ---------------------------------------------------------------------------
// Actions
// ---------------------------------------------------------------------------
/// Whether `r` is the position of the first runner with identifier `id`,
/// or `None` where there is none.
pub open spec fn is_first_runner_with_id(rs: Seq<Runner>, id: Seq<char>, r: Option<usize>) -> bool {
    match r {
        Some(i) => i < rs.len() && rs[i as int].id@ == id && forall|j: int|
            0 <= j < i ==> (#[trigger] rs[j]).id@ != id,
        None => forall|j: int| 0 <= j < rs.len() ==> (#[trigger] rs[j]).id@ != id,
    }
}

/// Whether a runner is an installed Wine build: installed, with `wine` in
/// its path.
pub open spec fn is_installed_wine(r: Runner) -> bool {
    r.installed && has_infix(r.path@, "wine"@)
}

/// Whether `r` is the position of the first installed Wine runner, or
/// `None` where there is none.
pub open spec fn is_first_installed_wine(rs: Seq<Runner>, r: Option<usize>) -> bool {
    match r {
        Some(i) => i < rs.len() && is_installed_wine(rs[i as int]) && forall|j: int|
            0 <= j < i ==> !is_installed_wine(#[trigger] rs[j]),
        None => forall|j: int| 0 <= j < rs.len() ==> !is_installed_wine(#[trigger] rs[j]),
    }
}

fn first_runner_with_id(rs: &Vec<Runner>, id: &str) -> (r: Option<usize>)
    ensures
        is_first_runner_with_id(rs@, id@, r),
{
    let mut i: usize = 0;
    while i < rs.len()
        invariant
            i <= rs@.len(),
            forall|j: int| 0 <= j < i ==> (#[trigger] rs@[j]).id@ != id@,
        decreases rs@.len() - i,
    {
        if str_eq(rs[i].id.as_str(), id) {
            return Some(i);
        }
        i = i + 1;
    }
    None
}

fn first_installed_wine(rs: &Vec<Runner>) -> (r: Option<usize>)
    ensures
        is_first_installed_wine(rs@, r),
{
    let mut i: usize = 0;
    while i < rs.len()
        invariant
            i <= rs@.len(),
            forall|j: int| 0 <= j < i ==> !is_installed_wine(#[trigger] rs@[j]),
        decreases rs@.len() - i,
    {
        if rs[i].installed {
            let p = chars_of(rs[i].path.as_str());
            if contains(&p, "wine") {
                return Some(i);
            }
        }
        i = i + 1;
    }
    None
}

/// After launching the selected game: nothing changes; the game is
/// launched unless the library is empty or it is already running, with the
/// first runner whose identifier the game names.
pub open spec fn launch_post(s: App, t: App, e: Seq<Effect>) -> bool {
    &&& t == s
    &&& if s.config.games@.len() == 0 || s.config.games@[s.selected_game_idx as int].status is Running {
        e.len() == 0
    } else {
        let g = s.config.games@[s.selected_game_idx as int];
        &&& e.len() == 1
        &&& e[0] matches Effect::LaunchGame { game_idx, runner_idx }
        &&& game_idx == s.selected_game_idx
        &&& match g.runner_id {
            Some(rid) => is_first_runner_with_id(s.config.runners@, rid@, runner_idx),
            None => runner_idx is None,
        }
    }
}

/// The directory into which a runner of the given version is unpacked.
pub open spec fn runner_dest_dir(home: Seq<char>, version: Seq<char>) -> Seq<char> {
    join_path(join_path(home, ".local/share/steam/compatibilitytools.d"@), version)
}

/// After asking to download the selected runner: nothing happens for an
/// empty list, an installed runner, or while a download or an unpacking
/// runs; a runner without a download address sets an error; otherwise the
/// download of the runner starts.
pub open spec fn download_post(s: App, t: App, e: Seq<Effect>) -> bool {
    if s.config.runners@.len() == 0 || s.config.runners@[s.selected_runner_idx as int].installed
        || s.runner_state is Downloading || s.runner_state is Extracting {
        t == s && e.len() == 0
    } else {
        let r = s.config.runners@[s.selected_runner_idx as int];
        match r.download_url {
            None => {
                &&& t == App { runner_state: t.runner_state, ..s }
                &&& t.runner_state matches RunnerState::Error(msg)
                &&& msg@ == "No download URL available for this runner"@
                &&& e.len() == 0
            },
            Some(_) => {
                &&& t == App {
                    downloading_runner_id: t.downloading_runner_id,
                    download_progress: 0,
                    runner_state: RunnerState::Downloading(0),
                    ..s
                }
                &&& t.downloading_runner_id matches Some(id)
                &&& id@ == r.id@
                &&& e.len() == 1
                &&& e[0] matches Effect::DownloadRunner { runner_idx, dest_dir }
                &&& runner_idx == s.selected_runner_idx
                &&& dest_dir@ == runner_dest_dir(s.home@, r.version@)
            },
        }
    }
}

/// The log line that starts a winetricks verb on a prefix.
pub open spec fn winetricks_start_line(verb: Seq<char>, prefix: Seq<char>) -> Seq<char> {
    "Executing: winetricks "@ + verb + " (Prefix: "@ + prefix + ")"@
}

/// After asking to run the selected winetricks verb: nothing while one
/// runs; an error line without games; otherwise the verb starts on the
/// selected game's prefix (or the default prefix) with a five-tick timer.
pub open spec fn winetricks_post(s: App, t: App, e: Seq<Effect>) -> bool {
    &&& e.len() == 0
    &&& if s.winetricks_running {
        t == s
    } else if s.config.games@.len() == 0 {
        &&& t == App { winetricks_logs: t.winetricks_logs, ..s }
        &&& strs_view(t.winetricks_logs@) == strs_view(s.winetricks_logs@).push(
            "Winetricks Error: No games in library to configure."@,
        )
    } else {
        let g = s.config.games@[s.selected_game_idx as int];
        let verb = s.winetricks_items@[s.selected_winetricks_idx as int].0@;
        let prefix = match g.wineprefix {
            Some(p) => p@,
            None => s.config.default_wineprefix@,
        };
        &&& t == App {
            winetricks_logs: t.winetricks_logs,
            winetricks_running: true,
            winetricks_timer: Some(5),
            ..s
        }
        &&& strs_view(t.winetricks_logs@) == strs_view(s.winetricks_logs@).push(
            winetricks_start_line(verb, prefix),
        )
    }
}

/// After toggling the selected setting: an on/off setting flips between
/// `Enabled` and `Disabled` (any other value becomes `Enabled`); other
/// settings, and a selection past the settings, stay as they are.
pub open spec fn toggle_setting_post(s: App, t: App) -> bool {
    if s.selected_settings_idx >= s.settings_items@.len() || !s.settings_items@[s.selected_settings_idx as int].2 {
        t == s
    } else {
        let i = s.selected_settings_idx as int;
        let old_item = s.settings_items@[i];
        &&& t == App { settings_items: t.settings_items, ..s }
        &&& t.settings_items@.len() == s.settings_items@.len()
        &&& forall|j: int| 0 <= j < s.settings_items@.len() && j != i ==> #[trigger] t.settings_items@[j] == s.settings_items@[j]
        &&& t.settings_items@[i].0 == old_item.0
        &&& t.settings_items@[i].2 == old_item.2
        &&& t.settings_items@[i].1@ == if old_item.1@ == "Enabled"@ {
            "Disabled"@
        } else {
            "Enabled"@
        }
    }
}

/// After asking to initialize the prefix at `idx`: nothing for a missing
/// prefix or one that is booting; otherwise the prefix is booted with the
/// first installed Wine runner, or with the system Wine.
pub open spec fn init_prefix_post(s: App, t: App, e: Seq<Effect>, idx: usize) -> bool {
    &&& t == s
    &&& if idx >= s.custom_prefixes@.len() || s.custom_prefixes@[idx as int].status@ == "Booting..."@ {
        e.len() == 0
    } else {
        &&& e.len() == 1
        &&& e[0] matches Effect::InitializePrefix { prefix_idx, runner_idx }
        &&& prefix_idx == idx
        &&& is_first_installed_wine(s.config.runners@, runner_idx)
    }
}

/// After asking to run the dependency script: nothing while it runs;
/// otherwise it starts, with a fresh log.
pub open spec fn run_script_post(s: App, t: App, e: Seq<Effect>) -> bool {
    if s.script_running {
        t == s && e.len() == 0
    } else {
        &&& t == App { script_running: true, script_logs: t.script_logs, ..s }
        &&& strs_view(t.script_logs@) == seq!["Executing: sh lgtui_install_deps.sh"@]
        &&& e == seq![Effect::RunDependencyScript]
    }
}

/// The prefix directory that a new game gets for a typed prefix name: none
/// for a blank name.
pub open spec fn game_prefix_for(home: Seq<char>, prefix_name: Seq<char>) -> Option<Seq<char>> {
    if is_blank(prefix_name) {
        None
    } else {
        Some(join_path(join_path(join_path(home, ".local/share/lgtui"@), "prefixes"@), trim(prefix_name)))
    }
}

/// The runner identifier that a new game gets for the dialog's runner
/// choice: none for the system Wine or a choice past the list.
pub open spec fn game_runner_for(rs: Seq<Runner>, choice: usize) -> Option<Seq<char>> {
    if choice == 0 || choice - 1 >= rs.len() {
        None
    } else {
        Some(rs[choice - 1].id@)
    }
}

/// Whether `g` is the game that the add-game dialog `m` creates in `s`.
pub open spec fn is_new_game(s: App, m: AddGameModalState, g: Game) -> bool {
    &&& fresh_id(s.config.games@, slug(m.title@), g.id@)
    &&& g.name@ == trim(m.title@)
    &&& g.exec_path@ == trim(m.exec_path@)
    &&& g.args@.len() == 0
    &&& crate::game::opt_view(g.wineprefix) == game_prefix_for(s.home@, m.prefix_name@)
    &&& crate::game::opt_view(g.runner_id) == game_runner_for(s.config.runners@, m.selected_runner_idx)
    &&& g.playtime_secs == 0
    &&& g.dxvk == m.dxvk
    &&& g.vkd3d == m.vkd3d
    &&& g.mangohud == m.mangohud
    &&& g.gamemode == m.gamemode
    &&& g.is_installer == m.is_installer
    &&& g.status == GameStatus::Ready
}

/// After adding the game of the dialog `m`: the new game ends the library,
/// the dialog closes, the game list takes the focus, and the game and the
/// configuration are stored.
pub open spec fn add_game_post(s: App, t: App, e: Seq<Effect>, m: AddGameModalState) -> bool {
    &&& t == App {
        config: Config { games: t.config.games, ..s.config },
        active_modal: None,
        focus: PaneFocus::LibraryList,
        ..s
    }
    &&& t.config.games@.len() == s.config.games@.len() + 1
    &&& t.config.games@.drop_last() == s.config.games@
    &&& is_new_game(s, m, t.config.games@.last())
    &&& e == seq![Effect::SaveGame { game_idx: s.config.games@.len() as usize }, Effect::SaveConfig]
}

/// The selection after an entry is removed from a list that now has `n`
/// entries: kept where it still names an entry, else the last entry, or 0.
pub open spec fn clamp_selection(i: usize, n: int) -> usize {
    if i >= n && n > 0 {
        (n - 1) as usize
    } else if n == 0 {
        0
    } else {
        i
    }
}

/// After deleting the game at `idx` (and its prefix directory when
/// `delete_dir`): the game leaves the library, the selection stays in it,
/// the dialog closes and the game list takes the focus; the game's record
/// goes, the configuration is stored, and the prefix directory is removed
/// when asked. A position past the library only closes the dialog.
pub open spec fn delete_game_post(s: App, t: App, e: Seq<Effect>, idx: usize, delete_dir: bool) -> bool {
    if idx >= s.config.games@.len() {
        t == App { active_modal: None, ..s } && e.len() == 0
    } else {
        let g = s.config.games@[idx as int];
        let n = s.config.games@.len() - 1;
        &&& t == App {
            config: Config { games: t.config.games, ..s.config },
            selected_game_idx: clamp_selection(s.selected_game_idx, n),
            active_modal: None,
            focus: PaneFocus::LibraryList,
            ..s
        }
        &&& t.config.games@ == s.config.games@.remove(idx as int)
        &&& e.len() >= 2
        &&& e[0] == Effect::DeleteGame { game_id: g.id }
        &&& e[1] == Effect::SaveConfig
        &&& if delete_dir && g.wineprefix is Some {
            e.len() == 3 && e[2] == Effect::RemoveDirectory { path: g.wineprefix->0 }
        } else {
            e.len() == 2
        }
    }
}

/// After deleting the prefix at `idx` (and its directory when
/// `delete_dir`): the prefix leaves the list, the selection stays in it,
/// the dialog closes and the list takes the focus; the prefix's record
/// goes, and its directory is removed when asked. A position past the list
/// only closes the dialog.
pub open spec fn delete_prefix_post(s: App, t: App, e: Seq<Effect>, idx: usize, delete_dir: bool) -> bool {
    if idx >= s.custom_prefixes@.len() {
        t == App { active_modal: None, ..s } && e.len() == 0
    } else {
        let p = s.custom_prefixes@[idx as int];
        let n = s.custom_prefixes@.len() - 1;
        &&& t == App {
            custom_prefixes: t.custom_prefixes,
            selected_prefix_idx: clamp_selection(s.selected_prefix_idx, n),
            active_modal: None,
            focus: PaneFocus::LibraryList,
            ..s
        }
        &&& t.custom_prefixes@ == s.custom_prefixes@.remove(idx as int)
        &&& e.len() >= 1
        &&& e[0] == Effect::DeletePrefix { name: p.name }
        &&& if delete_dir {
            e.len() == 2 && e[1] == Effect::RemoveDirectory { path: p.path }
        } else {
            e.len() == 1
        }
    }
}

impl App {
    fn launch_selected_game(&self) -> (e: Vec<Effect>)
        requires
            self.wf(),
        ensures
            launch_post(*self, *self, e@),
    {
        let mut e: Vec<Effect> = Vec::new();
        if self.config.games.len() == 0 {
            return e;
        }
        let game = &self.config.games[self.selected_game_idx];
        if game.status.is_running() {
            return e;
        }
        let runner_idx = match &game.runner_id {
            Some(rid) => first_runner_with_id(&self.config.runners, rid.as_str()),
            None => None,
        };
        e.push(Effect::LaunchGame { game_idx: self.selected_game_idx, runner_idx });
        e
    }

    fn download_selected_runner(&mut self) -> (e: Vec<Effect>)
        requires
            old(self).wf(),
        ensures
            download_post(*old(self), *final(self), e@),
    {
        let mut e: Vec<Effect> = Vec::new();
        if self.config.runners.len() == 0 {
            return e;
        }
        let idx = self.selected_runner_idx;
        if self.config.runners[idx].installed {
            return e;
        }
        match self.runner_state {
            RunnerState::Downloading(_) | RunnerState::Extracting => {
                return e;
            },
            _ => {},
        }
        if self.config.runners[idx].download_url.is_none() {
            self.runner_state = RunnerState::Error(
                string_from("No download URL available for this runner"),
            );
            return e;
        }
        let d = join_path_exec(self.home.as_str(), ".local/share/steam/compatibilitytools.d");
        let dest_dir = join_path_exec(d.as_str(), self.config.runners[idx].version.as_str());
        self.downloading_runner_id = Some(self.config.runners[idx].id.clone());
        self.download_progress = 0;
        self.runner_state = RunnerState::Downloading(0);
        e.push(Effect::DownloadRunner { runner_idx: idx, dest_dir });
        e
    }

    fn run_selected_winetricks(&mut self) -> (e: Vec<Effect>)
        requires
            old(self).wf(),
        ensures
            winetricks_post(*old(self), *final(self), e@),
    {
        let e: Vec<Effect> = Vec::new();
        if self.winetricks_running {
            return e;
        }
        if self.config.games.len() == 0 {
            self.winetricks_logs.push(
                string_from("Winetricks Error: No games in library to configure."),
            );
            proof {
                assert(strs_view(self.winetricks_logs@) =~= strs_view(old(self).winetricks_logs@).push(
                    "Winetricks Error: No games in library to configure."@,
                ));
            }
            return e;
        }
        let game = &self.config.games[self.selected_game_idx];
        let mut line = string_from("Executing: winetricks ");
        line.append(self.winetricks_items[self.selected_winetricks_idx].0.as_str());
        line.append(" (Prefix: ");
        match &game.wineprefix {
            Some(p) => line.append(p.as_str()),
            None => line.append(self.config.default_wineprefix.as_str()),
        }
        line.append(")");
        self.winetricks_running = true;
        self.winetricks_timer = Some(5);
        self.winetricks_logs.push(line);
        proof {
            let g = old(self).config.games@[old(self).selected_game_idx as int];
            let verb = old(self).winetricks_items@[old(self).selected_winetricks_idx as int].0@;
            let prefix = match g.wineprefix {
                Some(p) => p@,
                None => old(self).config.default_wineprefix@,
            };
            assert(line@ =~= winetricks_start_line(verb, prefix));
            assert(strs_view(self.winetricks_logs@) =~= strs_view(old(self).winetricks_logs@).push(
                winetricks_start_line(verb, prefix),
            ));
        }
        e
    }

    fn toggle_selected_setting(&mut self)
        requires
            old(self).wf(),
        ensures
            toggle_setting_post(*old(self), *final(self)),
    {
        let i = self.selected_settings_idx;
        if i >= self.settings_items.len() {
            return;
        }
        if !self.settings_items[i].2 {
            return;
        }
        let (label, value, is_switch) = self.settings_items.remove(i);
        let next = if str_eq(value.as_str(), "Enabled") {
            string_from("Disabled")
        } else {
            string_from("Enabled")
        };
        self.settings_items.insert(i, (label, next, is_switch));
        proof {
            assert forall|j: int|
                0 <= j < old(self).settings_items@.len() && j != i implies #[trigger] self.settings_items@[j]
                == old(self).settings_items@[j] by {
                if j < i {
                } else {
                }
            }
        }
    }

    fn initialize_custom_prefix(&self, idx: usize) -> (e: Vec<Effect>)
        requires
            self.wf(),
        ensures
            init_prefix_post(*self, *self, e@, idx),
    {
        let mut e: Vec<Effect> = Vec::new();
        if idx >= self.custom_prefixes.len() {
            return e;
        }
        if str_eq(self.custom_prefixes[idx].status.as_str(), "Booting...") {
            return e;
        }
        let runner_idx = first_installed_wine(&self.config.runners);
        e.push(Effect::InitializePrefix { prefix_idx: idx, runner_idx });
        e
    }

    fn run_dependency_script(&mut self) -> (e: Vec<Effect>)
        ensures
            run_script_post(*old(self), *final(self), e@),
    {
        let mut e: Vec<Effect> = Vec::new();
        if self.script_running {
            return e;
        }
        self.script_running = true;
        self.script_logs.clear();
        self.script_logs.push(string_from("Executing: sh lgtui_install_deps.sh"));
        proof {
            assert(strs_view(self.script_logs@) =~= seq!["Executing: sh lgtui_install_deps.sh"@]);
        }
        e.push(Effect::RunDependencyScript);
        proof {
            assert(e@ =~= seq![Effect::RunDependencyScript]);
        }
        e
    }

    fn add_game_from_modal(&mut self, m: &AddGameModalState) -> (e: Vec<Effect>)
        requires
            old(self).config.games@.len() < usize::MAX,
        ensures
            add_game_post(*old(self), *final(self), e@, *m),
    {
        let base = slugify(m.title.as_str());
        let id = unique_game_id(&self.config.games, base.as_str());
        let wineprefix = if blank(m.prefix_name.as_str()) {
            None
        } else {
            let d = join_path_exec(self.home.as_str(), ".local/share/lgtui");
            let d2 = join_path_exec(d.as_str(), "prefixes");
            let name = trim_str(m.prefix_name.as_str());
            Some(join_path_exec(d2.as_str(), name.as_str()))
        };
        let runner_id = if m.selected_runner_idx == 0 || m.selected_runner_idx - 1
            >= self.config.runners.len() {
            None
        } else {
            Some(self.config.runners[m.selected_runner_idx - 1].id.clone())
        };
        let game = Game {
            id,
            name: trim_str(m.title.as_str()),
            exec_path: trim_str(m.exec_path.as_str()),
            args: Vec::new(),
            wineprefix,
            runner_id,
            playtime_secs: 0,
            dxvk: m.dxvk,
            vkd3d: m.vkd3d,
            mangohud: m.mangohud,
            gamemode: m.gamemode,
            is_installer: m.is_installer,
            status: GameStatus::Ready,
        };
        let n = self.config.games.len();
        self.config.games.push(game);
        self.active_modal = None;
        self.focus = PaneFocus::LibraryList;
        proof {
            assert(self.config.games@.drop_last() =~= old(self).config.games@);
        }
        let mut e: Vec<Effect> = Vec::new();
        e.push(Effect::SaveGame { game_idx: n });
        e.push(Effect::SaveConfig);
        proof {
            assert(e@ =~= seq![Effect::SaveGame { game_idx: n }, Effect::SaveConfig]);
        }
        e
    }

    fn execute_game_deletion(&mut self, game_idx: usize, delete_prefix_dir: bool) -> (e: Vec<Effect>)
        ensures
            delete_game_post(*old(self), *final(self), e@, game_idx, delete_prefix_dir),
    {
        let mut e: Vec<Effect> = Vec::new();
        if game_idx >= self.config.games.len() {
            self.active_modal = None;
            return e;
        }
        let game = self.config.games.remove(game_idx);
        let Game { id, wineprefix, .. } = game;
        e.push(Effect::DeleteGame { game_id: id });
        e.push(Effect::SaveConfig);
        if delete_prefix_dir {
            match wineprefix {
                Some(p) => {
                    e.push(Effect::RemoveDirectory { path: p });
                },
                None => {},
            }
        }
        let n = self.config.games.len();
        if self.selected_game_idx >= n && n > 0 {
            self.selected_game_idx = n - 1;
        } else if n == 0 {
            self.selected_game_idx = 0;
        }
        self.active_modal = None;
        self.focus = PaneFocus::LibraryList;
        e
    }

    fn execute_prefix_deletion(&mut self, prefix_idx: usize, delete_prefix_dir: bool) -> (e: Vec<Effect>)
        ensures
            delete_prefix_post(*old(self), *final(self), e@, prefix_idx, delete_prefix_dir),
    {
        let mut e: Vec<Effect> = Vec::new();
        if prefix_idx >= self.custom_prefixes.len() {
            self.active_modal = None;
            return e;
        }
        let prefix = self.custom_prefixes.remove(prefix_idx);
        let WinePrefix { name, path, .. } = prefix;
        e.push(Effect::DeletePrefix { name });
        if delete_prefix_dir {
            e.push(Effect::RemoveDirectory { path });
        }
        let n = self.custom_prefixes.len();
        if self.selected_prefix_idx >= n && n > 0 {
            self.selected_prefix_idx = n - 1;
        } else if n == 0 {
            self.selected_prefix_idx = 0;
        }
        self.active_modal = None;
        self.focus = PaneFocus::LibraryList;
        e
    }
}


// ---------------------------------------------------------------------------
// Dialogs
// ---------------------------------------------------------------------------
/// The other field of the new-prefix dialog.
pub open spec fn other_modal_focus(f: ModalFocus) -> ModalFocus {
    match f {
        ModalFocus::NameInput => ModalFocus::ArchToggle,
        ModalFocus::ArchToggle => ModalFocus::NameInput,
    }
}

/// The next field of the add-game dialog, wrapping around.
pub open spec fn next_add_game_focus(f: AddGameFocus) -> AddGameFocus {
    match f {
        AddGameFocus::Title => AddGameFocus::ExecPath,
        AddGameFocus::ExecPath => AddGameFocus::PrefixName,
        AddGameFocus::PrefixName => AddGameFocus::Runner,
        AddGameFocus::Runner => AddGameFocus::Dxvk,
        AddGameFocus::Dxvk => AddGameFocus::Vkd3d,
        AddGameFocus::Vkd3d => AddGameFocus::MangoHud,
        AddGameFocus::MangoHud => AddGameFocus::GameMode,
        AddGameFocus::GameMode => AddGameFocus::IsInstaller,
        AddGameFocus::IsInstaller => AddGameFocus::Title,
    }
}

/// The previous field of the add-game dialog, wrapping around.
pub open spec fn prev_add_game_focus(f: AddGameFocus) -> AddGameFocus {
    match f {
        AddGameFocus::Title => AddGameFocus::IsInstaller,
        AddGameFocus::ExecPath => AddGameFocus::Title,
        AddGameFocus::PrefixName => AddGameFocus::ExecPath,
        AddGameFocus::Runner => AddGameFocus::PrefixName,
        AddGameFocus::Dxvk => AddGameFocus::Runner,
        AddGameFocus::Vkd3d => AddGameFocus::Dxvk,
        AddGameFocus::MangoHud => AddGameFocus::Vkd3d,
        AddGameFocus::GameMode => AddGameFocus::MangoHud,
        AddGameFocus::IsInstaller => AddGameFocus::GameMode,
    }
}

/// Moving to the next field and back, or back and forth, in the add-game
/// dialog returns to the same field.
pub proof fn lemma_add_game_focus_round_trip(f: AddGameFocus)
    ensures
        prev_add_game_focus(next_add_game_focus(f)) == f,
        next_add_game_focus(prev_add_game_focus(f)) == f,
{
}

fn next_focus(f: AddGameFocus) -> (r: AddGameFocus)
    ensures
        r == next_add_game_focus(f),
{
    match f {
        AddGameFocus::Title => AddGameFocus::ExecPath,
        AddGameFocus::ExecPath => AddGameFocus::PrefixName,
        AddGameFocus::PrefixName => AddGameFocus::Runner,
        AddGameFocus::Runner => AddGameFocus::Dxvk,
        AddGameFocus::Dxvk => AddGameFocus::Vkd3d,
        AddGameFocus::Vkd3d => AddGameFocus::MangoHud,
        AddGameFocus::MangoHud => AddGameFocus::GameMode,
        AddGameFocus::GameMode => AddGameFocus::IsInstaller,
        AddGameFocus::IsInstaller => AddGameFocus::Title,
    }
}

fn prev_focus(f: AddGameFocus) -> (r: AddGameFocus)
    ensures
        r == prev_add_game_focus(f),
{
    match f {
        AddGameFocus::Title => AddGameFocus::IsInstaller,
        AddGameFocus::ExecPath => AddGameFocus::Title,
        AddGameFocus::PrefixName => AddGameFocus::ExecPath,
        AddGameFocus::Runner => AddGameFocus::PrefixName,
        AddGameFocus::Dxvk => AddGameFocus::Runner,
        AddGameFocus::Vkd3d => AddGameFocus::Dxvk,
        AddGameFocus::MangoHud => AddGameFocus::Vkd3d,
        AddGameFocus::GameMode => AddGameFocus::MangoHud,
        AddGameFocus::IsInstaller => AddGameFocus::GameMode,
    }
}

/// `s` with its dialog replaced.
pub open spec fn with_modal(s: App, m: Option<ActiveModal>) -> App {
    App { active_modal: m, ..s }
}

/// The text after removing its last character, if any.
pub open spec fn backspaced(x: Seq<char>) -> Seq<char> {
    if x.len() > 0 {
        x.drop_last()
    } else {
        x
    }
}

/// Whether `p` is the prefix that the new-prefix dialog `m` creates.
pub open spec fn is_new_prefix(home: Seq<char>, m: ModalState, p: WinePrefix) -> bool {
    &&& p.name@ == trim(m.name_input@)
    &&& p.path@ == join_path(join_path(home, ".local/share/lgtui/prefixes"@), trim(m.name_input@))
    &&& p.architecture@ == if m.is_64bit {
        "win64"@
    } else {
        "win32"@
    }
    &&& p.status@ == "Not Initialized"@
}

/// After a key in the new-prefix dialog `m`.
pub open spec fn create_prefix_key_post(s: App, t: App, e: Seq<Effect>, key: Key, m: ModalState) -> bool {
    match key {
        Key::Esc => t == with_modal(s, None) && e.len() == 0,
        Key::Tab | Key::Up | Key::Down => t == with_modal(
            s,
            Some(ActiveModal::CreatePrefix(ModalState { focus: other_modal_focus(m.focus), ..m })),
        ) && e.len() == 0,
        Key::Char(c) => e.len() == 0 && if c == ' ' {
            if m.focus == ModalFocus::ArchToggle {
                t == with_modal(
                    s,
                    Some(ActiveModal::CreatePrefix(ModalState { is_64bit: !m.is_64bit, ..m })),
                )
            } else {
                t == s
            }
        } else if m.focus == ModalFocus::NameInput {
            &&& t == with_modal(s, t.active_modal)
            &&& t.active_modal matches Some(ActiveModal::CreatePrefix(m2))
            &&& m2 == ModalState { name_input: m2.name_input, ..m }
            &&& m2.name_input@ == m.name_input@.push(c)
        } else {
            t == s
        },
        Key::Backspace => e.len() == 0 && if m.focus == ModalFocus::NameInput {
            &&& t == with_modal(s, t.active_modal)
            &&& t.active_modal matches Some(ActiveModal::CreatePrefix(m2))
            &&& m2 == ModalState { name_input: m2.name_input, ..m }
            &&& m2.name_input@ == backspaced(m.name_input@)
        } else {
            t == s
        },
        Key::Enter => if is_blank(m.name_input@) {
            t == s && e.len() == 0
        } else {
            &&& t == App { custom_prefixes: t.custom_prefixes, active_modal: None, ..s }
            &&& t.custom_prefixes@.len() == s.custom_prefixes@.len() + 1
            &&& t.custom_prefixes@.drop_last() == s.custom_prefixes@
            &&& is_new_prefix(s.home@, m, t.custom_prefixes@.last())
            &&& e == seq![Effect::SavePrefix { prefix_idx: s.custom_prefixes@.len() as usize }]
        },
        _ => t == s && e.len() == 0,
    }
}

/// Whether a lowercased executable path names an installer.
pub open spec fn names_installer(lower: Seq<char>) -> bool {
    crate::text::has_suffix(lower, "setup.exe"@) || crate::text::has_suffix(lower, "install.exe"@)
}

/// The add-game dialog `m` with the runner choice moved by one, backwards
/// or forwards, over the system Wine and the `n` runners.
pub open spec fn runner_choice_moved(m: AddGameModalState, n: int, forward: bool) -> AddGameModalState {
    let total = n + 1;
    AddGameModalState {
        selected_runner_idx: (if forward {
            (m.selected_runner_idx + 1) % total
        } else {
            (m.selected_runner_idx + total - 1) % total
        }) as usize,
        ..m
    }
}

/// The add-game dialog `m` after the space bar on a switch, or `m` itself
/// on a text field.
pub open spec fn switched(m: AddGameModalState, n: int) -> AddGameModalState {
    match m.focus {
        AddGameFocus::Runner => runner_choice_moved(m, n, true),
        AddGameFocus::Dxvk => AddGameModalState { dxvk: !m.dxvk, ..m },
        AddGameFocus::Vkd3d => AddGameModalState { vkd3d: !m.vkd3d, ..m },
        AddGameFocus::MangoHud => AddGameModalState { mangohud: !m.mangohud, ..m },
        AddGameFocus::GameMode => AddGameModalState { gamemode: !m.gamemode, ..m },
        AddGameFocus::IsInstaller => AddGameModalState { is_installer: !m.is_installer, ..m },
        _ => m,
    }
}

/// Whether `m2` is the add-game dialog `m` after its title became
/// `title`: the prefix name follows the title's slug until it is edited.
pub open spec fn title_edited(m: AddGameModalState, m2: AddGameModalState, title: Seq<char>) -> bool {
    &&& m2 == AddGameModalState { title: m2.title, prefix_name: m2.prefix_name, ..m }
    &&& m2.title@ == title
    &&& if m.prefix_edited {
        m2.prefix_name == m.prefix_name
    } else {
        m2.prefix_name@ == slug(title)
    }
}

/// Whether the field takes typed text.
pub open spec fn is_text_field(f: AddGameFocus) -> bool {
    f == AddGameFocus::Title || f == AddGameFocus::ExecPath || f == AddGameFocus::PrefixName
}

/// Whether `m2` is the add-game dialog `m` after typing `c` into its text
/// field: the title drives the prefix name until that is edited; a path
/// that ends in `setup.exe` or `install.exe` marks the game as an
/// installer.
pub open spec fn char_typed(m: AddGameModalState, m2: AddGameModalState, c: char) -> bool {
    match m.focus {
        AddGameFocus::Title => title_edited(m, m2, m.title@.push(c)),
        AddGameFocus::ExecPath => {
            &&& m2 == AddGameModalState { exec_path: m2.exec_path, is_installer: m2.is_installer, ..m }
            &&& m2.exec_path@ == m.exec_path@.push(c)
            &&& m2.is_installer == (m.is_installer || names_installer(
                crate::text::unicode_lowercase(m2.exec_path@),
            ))
        },
        _ => {
            &&& m2 == AddGameModalState { prefix_name: m2.prefix_name, prefix_edited: true, ..m }
            &&& m2.prefix_name@ == m.prefix_name@.push(c)
        },
    }
}

/// Whether `m2` is the add-game dialog `m` after a backspace in its text
/// field: on the path, the installer mark follows the path's ending.
pub open spec fn backspace_typed(m: AddGameModalState, m2: AddGameModalState) -> bool {
    match m.focus {
        AddGameFocus::Title => title_edited(m, m2, backspaced(m.title@)),
        AddGameFocus::ExecPath => {
            &&& m2 == AddGameModalState { exec_path: m2.exec_path, is_installer: m2.is_installer, ..m }
            &&& m2.exec_path@ == backspaced(m.exec_path@)
            &&& m2.is_installer == names_installer(crate::text::unicode_lowercase(m2.exec_path@))
        },
        _ => {
            &&& m2 == AddGameModalState { prefix_name: m2.prefix_name, prefix_edited: true, ..m }
            &&& m2.prefix_name@ == backspaced(m.prefix_name@)
        },
    }
}

fn path_names_installer(path: &str) -> (r: bool)
    ensures
        r == names_installer(crate::text::unicode_lowercase(path@)),
{
    let lower = crate::text::str_to_lowercase(path);
    let lc = chars_of(lower.as_str());
    crate::text::ends_with(&lc, "setup.exe") || crate::text::ends_with(&lc, "install.exe")
}

fn type_char(m: AddGameModalState, c: char) -> (m2: AddGameModalState)
    requires
        is_text_field(m.focus),
    ensures
        char_typed(m, m2, c),
{
    let mut m = m;
    match m.focus {
        AddGameFocus::Title => {
            crate::text::push_char(&mut m.title, c);
            if !m.prefix_edited {
                m.prefix_name = slugify(m.title.as_str());
            }
        },
        AddGameFocus::ExecPath => {
            crate::text::push_char(&mut m.exec_path, c);
            if path_names_installer(m.exec_path.as_str()) {
                m.is_installer = true;
            }
        },
        _ => {
            crate::text::push_char(&mut m.prefix_name, c);
            m.prefix_edited = true;
        },
    }
    m
}

fn type_backspace(m: AddGameModalState) -> (m2: AddGameModalState)
    requires
        is_text_field(m.focus),
    ensures
        backspace_typed(m, m2),
{
    let mut m = m;
    match m.focus {
        AddGameFocus::Title => {
            crate::text::pop_char(&mut m.title);
            if !m.prefix_edited {
                m.prefix_name = slugify(m.title.as_str());
            }
        },
        AddGameFocus::ExecPath => {
            crate::text::pop_char(&mut m.exec_path);
            m.is_installer = path_names_installer(m.exec_path.as_str());
        },
        _ => {
            crate::text::pop_char(&mut m.prefix_name);
            m.prefix_edited = true;
        },
    }
    m
}

fn switch_field(m: AddGameModalState, total: usize) -> (m2: AddGameModalState)
    requires
        total >= 1,
        m.selected_runner_idx < total,
    ensures
        m2 == switched(m, total - 1),
{
    let mut m = m;
    match m.focus {
        AddGameFocus::Runner => {
            m.selected_runner_idx = (m.selected_runner_idx + 1) % total;
        },
        AddGameFocus::Dxvk => {
            m.dxvk = !m.dxvk;
        },
        AddGameFocus::Vkd3d => {
            m.vkd3d = !m.vkd3d;
        },
        AddGameFocus::MangoHud => {
            m.mangohud = !m.mangohud;
        },
        AddGameFocus::GameMode => {
            m.gamemode = !m.gamemode;
        },
        AddGameFocus::IsInstaller => {
            m.is_installer = !m.is_installer;
        },
        _ => {},
    }
    m
}

/// The dialog that a key other than Enter leaves in place of the add-game
/// dialog `m`, with `n` runners to choose from: Esc closes it, Tab and the
/// arrows move between fields or along the runner choice, the space bar
/// flips a switch, and typing edits the text fields.
pub open spec fn add_game_edit(m: AddGameModalState, key: Key, n: int, r: Option<ActiveModal>) -> bool {
    match key {
        Key::Esc => r is None,
        Key::Tab | Key::Down => r == Some(
            ActiveModal::AddGame(AddGameModalState { focus: next_add_game_focus(m.focus), ..m }),
        ),
        Key::Up => r == Some(
            ActiveModal::AddGame(AddGameModalState { focus: prev_add_game_focus(m.focus), ..m }),
        ),
        Key::Left => r == Some(
            ActiveModal::AddGame(
                if m.focus == AddGameFocus::Runner {
                    runner_choice_moved(m, n, false)
                } else {
                    m
                },
            ),
        ),
        Key::Right => r == Some(
            ActiveModal::AddGame(
                if m.focus == AddGameFocus::Runner {
                    runner_choice_moved(m, n, true)
                } else {
                    m
                },
            ),
        ),
        Key::Char(c) => if c == ' ' {
            r == Some(ActiveModal::AddGame(switched(m, n)))
        } else if is_text_field(m.focus) {
            r matches Some(ActiveModal::AddGame(m2)) && char_typed(m, m2, c)
        } else {
            r == Some(ActiveModal::AddGame(m))
        },
        Key::Backspace => if is_text_field(m.focus) {
            r matches Some(ActiveModal::AddGame(m2)) && backspace_typed(m, m2)
        } else {
            r == Some(ActiveModal::AddGame(m))
        },
        _ => r == Some(ActiveModal::AddGame(m)),
    }
}

fn move_runner_choice(m: AddGameModalState, total: usize, forward: bool) -> (m2: AddGameModalState)
    requires
        total >= 1,
        m.selected_runner_idx < total,
    ensures
        m2 == runner_choice_moved(m, total - 1, forward),
{
    let mut m = m;
    if forward {
        m.selected_runner_idx = (m.selected_runner_idx + 1) % total;
    } else {
        let ghost i = m.selected_runner_idx as int;
        m.selected_runner_idx = if m.selected_runner_idx == 0 {
            total - 1
        } else {
            m.selected_runner_idx - 1
        };
        proof {
            let tt = total as int;
            if i == 0 {
                assert((i + tt - 1) % tt == tt - 1) by (nonlinear_arith)
                    requires
                        i == 0,
                        tt >= 1,
                ;
            } else {
                assert((i + tt - 1) % tt == i - 1) by (nonlinear_arith)
                    requires
                        1 <= i < tt,
                ;
            }
        }
    }
    m
}

fn edit_add_game(m: AddGameModalState, key: Key, total: usize) -> (r: Option<ActiveModal>)
    requires
        total >= 1,
        m.selected_runner_idx < total,
    ensures
        add_game_edit(m, key, total - 1, r),
{
    let mut m = m;
    match key {
        Key::Esc => {
            return None;
        },
        Key::Tab | Key::Down => {
            m.focus = next_focus(m.focus);
        },
        Key::Up => {
            m.focus = prev_focus(m.focus);
        },
        Key::Left => {
            if m.focus == AddGameFocus::Runner {
                m = move_runner_choice(m, total, false);
            }
        },
        Key::Right => {
            if m.focus == AddGameFocus::Runner {
                m = move_runner_choice(m, total, true);
            }
        },
        Key::Char(c) => {
            if c == ' ' {
                m = switch_field(m, total);
            } else if m.focus == AddGameFocus::Title || m.focus == AddGameFocus::ExecPath
                || m.focus == AddGameFocus::PrefixName {
                m = type_char(m, c);
            }
        },
        Key::Backspace => {
            if m.focus == AddGameFocus::Title || m.focus == AddGameFocus::ExecPath
                || m.focus == AddGameFocus::PrefixName {
                m = type_backspace(m);
            }
        },
        _ => {},
    }
    Some(ActiveModal::AddGame(m))
}

/// After a key in the add-game dialog `m`: Enter adds the game when the
/// title is not blank and the path is acceptable; other keys edit the
/// dialog.
pub open spec fn add_game_key_post(s: App, t: App, e: Seq<Effect>, key: Key, m: AddGameModalState) -> bool {
    if key == Key::Enter {
        if !is_blank(m.title@) && crate::naming::valid_exec_path(m.exec_path@) {
            add_game_post(s, t, e, m)
        } else {
            t == s && e.len() == 0
        }
    } else {
        &&& t == with_modal(s, t.active_modal)
        &&& add_game_edit(m, key, s.config.runners@.len() as int, t.active_modal)
        &&& e.len() == 0
    }
}

/// Whether the key confirms in a yes/no prompt: Enter, `y` or `Y`.
pub open spec fn is_yes_key(key: Key) -> bool {
    key == Key::Enter || key == Key::Char('y') || key == Key::Char('Y')
}

/// Whether the key declines in a yes/no prompt: `n` or `N`.
pub open spec fn is_no_key(key: Key) -> bool {
    key == Key::Char('n') || key == Key::Char('N')
}

/// After a key in the dialog that asks to delete the game at `idx`: yes
/// deletes the game, first asking about its prefix directory when the game
/// has a prefix other than the default one; Esc or no closes the dialog at
/// the first question, and at the question about the prefix deletes the
/// game and keeps its prefix directory.
pub open spec fn delete_game_key_post(
    s: App,
    t: App,
    e: Seq<Effect>,
    key: Key,
    idx: usize,
    delete_prefix: bool,
    prompt_prefix: bool,
) -> bool {
    if key == Key::Esc || is_no_key(key) {
        if prompt_prefix {
            delete_game_post(s, t, e, idx, false)
        } else {
            t == with_modal(s, None) && e.len() == 0
        }
    } else if is_yes_key(key) {
        if !prompt_prefix {
            let g = s.config.games@[idx as int];
            if g.wineprefix is Some && g.wineprefix->0@ != s.config.default_wineprefix@ {
                t == with_modal(
                    s,
                    Some(ActiveModal::DeleteGame { game_idx: idx, delete_prefix, prompt_prefix: true }),
                ) && e.len() == 0
            } else {
                delete_game_post(s, t, e, idx, false)
            }
        } else {
            delete_game_post(s, t, e, idx, true)
        }
    } else {
        t == s && e.len() == 0
    }
}

/// After a key in the dialog that asks to delete the prefix at `idx`;
/// `dir_exists` tells whether the prefix's directory exists. Esc closes it;
/// yes deletes the prefix, first asking about its directory when it
/// exists; no closes the dialog, or, when asked about the directory, deletes
/// the prefix and keeps the directory.
pub open spec fn delete_prefix_key_post(
    s: App,
    t: App,
    e: Seq<Effect>,
    key: Key,
    idx: usize,
    delete_files: bool,
    prompt: bool,
    dir_exists: bool,
) -> bool {
    if key == Key::Esc {
        t == with_modal(s, None) && e.len() == 0
    } else if is_yes_key(key) {
        if !prompt {
            if dir_exists {
                t == with_modal(
                    s,
                    Some(
                        ActiveModal::DeletePrefix {
                            prefix_idx: idx,
                            delete_files,
                            prompt_delete_files: true,
                        },
                    ),
                ) && e.len() == 0
            } else {
                delete_prefix_post(s, t, e, idx, false)
            }
        } else {
            delete_prefix_post(s, t, e, idx, true)
        }
    } else if is_no_key(key) {
        if !prompt {
            t == with_modal(s, None) && e.len() == 0
        } else {
            delete_prefix_post(s, t, e, idx, false)
        }
    } else {
        t == s && e.len() == 0
    }
}

/// After a key while a dialog is open; `dir_exists` tells whether the
/// directory of a prefix that a deletion dialog names exists.
pub open spec fn modal_key_post(s: App, t: App, e: Seq<Effect>, key: Key, dir_exists: bool) -> bool {
    match s.active_modal {
        Some(ActiveModal::CreatePrefix(m)) => create_prefix_key_post(s, t, e, key, m),
        Some(ActiveModal::AddGame(m)) => add_game_key_post(s, t, e, key, m),
        Some(ActiveModal::DeleteGame { game_idx, delete_prefix, prompt_prefix }) => delete_game_key_post(
            s,
            t,
            e,
            key,
            game_idx,
            delete_prefix,
            prompt_prefix,
        ),
        Some(ActiveModal::DeletePrefix { prefix_idx, delete_files, prompt_delete_files }) => delete_prefix_key_post(
            s,
            t,
            e,
            key,
            prefix_idx,
            delete_files,
            prompt_delete_files,
            dir_exists,
        ),
        Some(ActiveModal::Help) => t == with_modal(s, None) && e.len() == 0,
        None => false,
    }
}

impl App {
    fn create_prefix_key(&mut self, key: Key, m: ModalState) -> (e: Vec<Effect>)
        requires
            old(self).active_modal is None,
            old(self).custom_prefixes@.len() < usize::MAX,
        ensures
            create_prefix_key_post(
                with_modal(*old(self), Some(ActiveModal::CreatePrefix(m))),
                *final(self),
                e@,
                key,
                m,
            ),
    {
        let ghost s = with_modal(*old(self), Some(ActiveModal::CreatePrefix(m)));
        let mut e: Vec<Effect> = Vec::new();
        let mut m = m;
        match key {
            Key::Esc => {},
            Key::Tab | Key::Up | Key::Down => {
                m.focus = match m.focus {
                    ModalFocus::NameInput => ModalFocus::ArchToggle,
                    ModalFocus::ArchToggle => ModalFocus::NameInput,
                };
                self.active_modal = Some(ActiveModal::CreatePrefix(m));
            },
            Key::Char(c) => {
                if c == ' ' {
                    if m.focus == ModalFocus::ArchToggle {
                        m.is_64bit = !m.is_64bit;
                    }
                } else if m.focus == ModalFocus::NameInput {
                    crate::text::push_char(&mut m.name_input, c);
                }
                self.active_modal = Some(ActiveModal::CreatePrefix(m));
            },
            Key::Backspace => {
                if m.focus == ModalFocus::NameInput {
                    crate::text::pop_char(&mut m.name_input);
                }
                self.active_modal = Some(ActiveModal::CreatePrefix(m));
            },
            Key::Enter => {
                if blank(m.name_input.as_str()) {
                    self.active_modal = Some(ActiveModal::CreatePrefix(m));
                } else {
                    let name = trim_str(m.name_input.as_str());
                    let arch = if m.is_64bit {
                        string_from("win64")
                    } else {
                        string_from("win32")
                    };
                    let path = crate::prefix::prefix_path_for(self.home.as_str(), name.as_str());
                    let p = WinePrefix {
                        name,
                        path,
                        architecture: arch,
                        status: string_from("Not Initialized"),
                    };
                    let n = self.custom_prefixes.len();
                    self.custom_prefixes.push(p);
                    e.push(Effect::SavePrefix { prefix_idx: n });
                    proof {
                        assert(self.custom_prefixes@.drop_last() =~= old(self).custom_prefixes@);
                        assert(e@ =~= seq![Effect::SavePrefix { prefix_idx: n }]);
                    }
                }
            },
            _ => {
                self.active_modal = Some(ActiveModal::CreatePrefix(m));
            },
        }
        e
    }

    fn add_game_key(&mut self, key: Key, m: AddGameModalState) -> (e: Vec<Effect>)
        requires
            old(self).active_modal is None,
            old(self).config.games@.len() < usize::MAX,
            old(self).config.runners@.len() < usize::MAX,
            m.selected_runner_idx <= old(self).config.runners@.len(),
        ensures
            add_game_key_post(
                with_modal(*old(self), Some(ActiveModal::AddGame(m))),
                *final(self),
                e@,
                key,
                m,
            ),
    {
        if key == Key::Enter {
            if !blank(m.title.as_str()) && crate::naming::validate_exec_path(m.exec_path.as_str()) {
                return self.add_game_from_modal(&m);
            }
            self.active_modal = Some(ActiveModal::AddGame(m));
            return Vec::new();
        }
        let total = 1 + self.config.runners.len();
        self.active_modal = edit_add_game(m, key, total);
        Vec::new()
    }

    fn delete_game_key(&mut self, key: Key, idx: usize, delete_prefix: bool, prompt_prefix: bool) -> (e: Vec<Effect>)
        requires
            old(self).active_modal is None,
            idx < old(self).config.games@.len(),
        ensures
            delete_game_key_post(
                with_modal(
                    *old(self),
                    Some(ActiveModal::DeleteGame { game_idx: idx, delete_prefix, prompt_prefix }),
                ),
                *final(self),
                e@,
                key,
                idx,
                delete_prefix,
                prompt_prefix,
            ),
    {
        let is_no = match key {
            Key::Esc => true,
            Key::Char(c) => c == 'n' || c == 'N',
            _ => false,
        };
        let is_yes = match key {
            Key::Enter => true,
            Key::Char(c) => c == 'y' || c == 'Y',
            _ => false,
        };
        if is_no {
            if prompt_prefix {
                return self.execute_game_deletion(idx, false);
            }
            return Vec::new();
        }
        if is_yes {
            if !prompt_prefix {
                let ask = match &self.config.games[idx].wineprefix {
                    Some(p) => !str_eq(p.as_str(), self.config.default_wineprefix.as_str()),
                    None => false,
                };
                if ask {
                    self.active_modal = Some(
                        ActiveModal::DeleteGame { game_idx: idx, delete_prefix, prompt_prefix: true },
                    );
                    return Vec::new();
                }
                return self.execute_game_deletion(idx, false);
            } else {
                return self.execute_game_deletion(idx, true);
            }
        }
        self.active_modal = Some(ActiveModal::DeleteGame { game_idx: idx, delete_prefix, prompt_prefix });
        Vec::new()
    }

    fn delete_prefix_key(
        &mut self,
        key: Key,
        idx: usize,
        delete_files: bool,
        prompt: bool,
        dir_exists: bool,
    ) -> (e: Vec<Effect>)
        requires
            old(self).active_modal is None,
        ensures
            delete_prefix_key_post(
                with_modal(
                    *old(self),
                    Some(
                        ActiveModal::DeletePrefix {
                            prefix_idx: idx,
                            delete_files,
                            prompt_delete_files: prompt,
                        },
                    ),
                ),
                *final(self),
                e@,
                key,
                idx,
                delete_files,
                prompt,
                dir_exists,
            ),
    {
        let is_no = match key {
            Key::Char(c) => c == 'n' || c == 'N',
            _ => false,
        };
        let is_yes = match key {
            Key::Enter => true,
            Key::Char(c) => c == 'y' || c == 'Y',
            _ => false,
        };
        if key == Key::Esc {
            return Vec::new();
        }
        if is_yes {
            if !prompt {
                if dir_exists {
                    self.active_modal = Some(
                        ActiveModal::DeletePrefix { prefix_idx: idx, delete_files, prompt_delete_files: true },
                    );
                    return Vec::new();
                }
                return self.execute_prefix_deletion(idx, false);
            } else {
                return self.execute_prefix_deletion(idx, true);
            }
        }
        if is_no {
            if !prompt {
                return Vec::new();
            }
            return self.execute_prefix_deletion(idx, false);
        }
        self.active_modal = Some(
            ActiveModal::DeletePrefix { prefix_idx: idx, delete_files, prompt_delete_files: prompt },
        );
        Vec::new()
    }
}

// ---------------------------------------------------------------------------
// Keys
// ---------------------------------------------------------------------------
/// Whether a key moves up: the up arrow or `k`.
pub open spec fn is_up_key(k: Key) -> bool {
    k == Key::Up || k == Key::Char('k')
}

/// Whether a key moves down: the down arrow or `j`.
pub open spec fn is_down_key(k: Key) -> bool {
    k == Key::Down || k == Key::Char('j')
}

/// Whether a key moves left: the left arrow or `h`.
pub open spec fn is_left_key(k: Key) -> bool {
    k == Key::Left || k == Key::Char('h')
}

/// Whether a key moves right: the right arrow or `l`.
pub open spec fn is_right_key(k: Key) -> bool {
    k == Key::Right || k == Key::Char('l')
}

fn up_key(k: Key) -> (r: bool)
    ensures
        r == is_up_key(k),
{
    match k {
        Key::Up => true,
        Key::Char(c) => c == 'k',
        _ => false,
    }
}

fn down_key(k: Key) -> (r: bool)
    ensures
        r == is_down_key(k),
{
    match k {
        Key::Down => true,
        Key::Char(c) => c == 'j',
        _ => false,
    }
}

fn left_key(k: Key) -> (r: bool)
    ensures
        r == is_left_key(k),
{
    match k {
        Key::Left => true,
        Key::Char(c) => c == 'h',
        _ => false,
    }
}

fn right_key(k: Key) -> (r: bool)
    ensures
        r == is_right_key(k),
{
    match k {
        Key::Right => true,
        Key::Char(c) => c == 'l',
        _ => false,
    }
}

/// Whether a key flips the yes/no answer of the first-start assistant.
pub open spec fn is_answer_toggle_key(k: Key) -> bool {
    k == Key::Left || k == Key::Right || k == Key::Tab || k == Key::Up || k == Key::Down
}

/// The first-start assistant closes and records that it is done.
pub open spec fn onboarding_closed(s: App, t: App, e: Seq<Effect>) -> bool {
    t == App { onboarding: None, ..s } && e == seq![Effect::CompleteOnboarding]
}

/// The first-start assistant moves to its installing screen, with one
/// log line, and the dependency script starts (unless it already runs).
pub open spec fn install_started(s: App, t: App, e: Seq<Effect>, ob: OnboardingState) -> bool {
    &&& t.onboarding matches Some(ob2)
    &&& ob2.selected_yes == ob.selected_yes
    &&& ob2.step matches crate::onboarding::OnboardingStep::Installing { logs, completed, success }
    &&& strs_view(logs@) == seq!["Starting installation..."@]
    &&& !completed
    &&& !success
    &&& run_script_post(App { onboarding: t.onboarding, ..s }, t, e)
}

/// After a key while the first-start assistant `ob` is shown.
pub open spec fn onboarding_key_post(s: App, t: App, e: Seq<Effect>, key: Key, ob: OnboardingState) -> bool {
    match ob.step {
        crate::onboarding::OnboardingStep::Welcome => t == s && e.len() == 0,
        crate::onboarding::OnboardingStep::ScanResult(res) => if res.spec_has_missing() {
            if is_answer_toggle_key(key) {
                t == App {
                    onboarding: Some(OnboardingState { selected_yes: !ob.selected_yes, ..ob }),
                    ..s
                } && e.len() == 0
            } else if key == Key::Enter {
                if ob.selected_yes {
                    install_started(s, t, e, ob)
                } else {
                    onboarding_closed(s, t, e)
                }
            } else {
                t == s && e.len() == 0
            }
        } else if key == Key::Enter {
            onboarding_closed(s, t, e)
        } else {
            t == s && e.len() == 0
        },
        crate::onboarding::OnboardingStep::Installing { completed, .. } => if completed && key
            == Key::Enter {
            onboarding_closed(s, t, e)
        } else {
            t == s && e.len() == 0
        },
    }
}

/// The focus that Tab moves to: the list after the menu; the details
/// after the game list, or the menu after any other list; the menu after
/// the details.
pub open spec fn tab_focus(s: App) -> PaneFocus {
    match s.focus {
        PaneFocus::LeftMenu => PaneFocus::LibraryList,
        PaneFocus::LibraryList => if s.spec_current_menu() == MenuItem::Library {
            PaneFocus::MetadataPanel
        } else {
            PaneFocus::LeftMenu
        },
        PaneFocus::MetadataPanel => PaneFocus::LeftMenu,
    }
}

/// Whether `m` is the empty add-game dialog that `a` opens.
pub open spec fn is_fresh_add_game(m: AddGameModalState) -> bool {
    &&& m.title@.len() == 0
    &&& m.exec_path@.len() == 0
    &&& m.prefix_name@.len() == 0
    &&& !m.prefix_edited
    &&& m.selected_runner_idx == 0
    &&& m.dxvk
    &&& !m.vkd3d
    &&& !m.mangohud
    &&& !m.gamemode
    &&& !m.is_installer
    &&& m.focus == AddGameFocus::Title
}

/// A game with the flag at position `k` of the details pane flipped:
/// DXVK, VKD3D, MangoHud, GameMode.
pub open spec fn flag_flipped(g: Game, k: usize) -> Game {
    if k == 0 {
        Game { dxvk: !g.dxvk, ..g }
    } else if k == 1 {
        Game { vkd3d: !g.vkd3d, ..g }
    } else if k == 2 {
        Game { mangohud: !g.mangohud, ..g }
    } else if k == 3 {
        Game { gamemode: !g.gamemode, ..g }
    } else {
        g
    }
}

/// The selection after an up or down key in a non-empty list of `n`.
pub open spec fn moved_selection(i: usize, n: int, key: Key) -> usize {
    if is_up_key(key) {
        cycle_prev(i as int, n) as usize
    } else {
        cycle_next(i as int, n) as usize
    }
}

/// After a key in the game list.
pub open spec fn library_key_post(s: App, t: App, e: Seq<Effect>, key: Key) -> bool {
    if is_left_key(key) {
        t == App { focus: PaneFocus::LeftMenu, ..s } && e.len() == 0
    } else if is_right_key(key) {
        t == App { focus: PaneFocus::MetadataPanel, ..s } && e.len() == 0
    } else if is_up_key(key) || is_down_key(key) {
        e.len() == 0 && if s.config.games@.len() > 0 {
            t == App {
                selected_game_idx: moved_selection(s.selected_game_idx, s.config.games@.len() as int, key),
                ..s
            }
        } else {
            t == s
        }
    } else if key == Key::Enter {
        launch_post(s, t, e)
    } else {
        t == s && e.len() == 0
    }
}

/// After a key in the runner list.
pub open spec fn runners_key_post(s: App, t: App, e: Seq<Effect>, key: Key) -> bool {
    if is_left_key(key) {
        t == App { focus: PaneFocus::LeftMenu, ..s } && e.len() == 0
    } else if is_up_key(key) || is_down_key(key) {
        e.len() == 0 && if s.config.runners@.len() > 0 {
            t == App {
                selected_runner_idx: moved_selection(
                    s.selected_runner_idx,
                    s.config.runners@.len() as int,
                    key,
                ),
                ..s
            }
        } else {
            t == s
        }
    } else if key == Key::Enter {
        download_post(s, t, e)
    } else {
        t == s && e.len() == 0
    }
}

/// After a key in the prefix list.
pub open spec fn prefixes_key_post(s: App, t: App, e: Seq<Effect>, key: Key) -> bool {
    if is_left_key(key) {
        t == App { focus: PaneFocus::LeftMenu, ..s } && e.len() == 0
    } else if is_up_key(key) || is_down_key(key) {
        e.len() == 0 && if s.custom_prefixes@.len() > 0 {
            t == App {
                selected_prefix_idx: moved_selection(
                    s.selected_prefix_idx,
                    s.custom_prefixes@.len() as int,
                    key,
                ),
                ..s
            }
        } else {
            t == s
        }
    } else if key == Key::Enter {
        init_prefix_post(s, t, e, s.selected_prefix_idx)
    } else {
        t == s && e.len() == 0
    }
}

/// After a key in the winetricks list.
pub open spec fn winetricks_key_post(s: App, t: App, e: Seq<Effect>, key: Key) -> bool {
    if is_left_key(key) {
        t == App { focus: PaneFocus::LeftMenu, ..s } && e.len() == 0
    } else if is_up_key(key) || is_down_key(key) {
        e.len() == 0 && t == App {
            selected_winetricks_idx: moved_selection(
                s.selected_winetricks_idx,
                s.winetricks_items@.len() as int,
                key,
            ),
            ..s
        }
    } else if key == Key::Enter {
        winetricks_post(s, t, e)
    } else {
        t == s && e.len() == 0
    }
}

/// After a key in the dependency installer.
pub open spec fn installer_key_post(s: App, t: App, e: Seq<Effect>, key: Key) -> bool {
    if is_left_key(key) {
        t == App { focus: PaneFocus::LeftMenu, ..s } && e.len() == 0
    } else if key == Key::Enter {
        run_script_post(s, t, e)
    } else {
        t == s && e.len() == 0
    }
}

/// After a key in the settings list, which shows the settings and then the
/// prefixes.
pub open spec fn settings_key_post(s: App, t: App, e: Seq<Effect>, key: Key) -> bool {
    let ns = s.settings_items@.len() as int;
    let total = ns + s.custom_prefixes@.len();
    if is_left_key(key) {
        t == App { focus: PaneFocus::LeftMenu, ..s } && e.len() == 0
    } else if is_up_key(key) || is_down_key(key) {
        e.len() == 0 && if total > 0 {
            t == App {
                selected_settings_idx: moved_selection(s.selected_settings_idx, total, key),
                ..s
            }
        } else {
            t == s
        }
    } else if key == Key::Enter {
        if s.selected_settings_idx >= ns {
            init_prefix_post(s, t, e, (s.selected_settings_idx - ns) as usize)
        } else {
            t == s && e.len() == 0
        }
    } else if key == Key::Char(' ') {
        e.len() == 0 && if s.selected_settings_idx < ns {
            toggle_setting_post(s, t)
        } else {
            t == s
        }
    } else {
        t == s && e.len() == 0
    }
}

/// After a key in the game details pane.
pub open spec fn metadata_key_post(s: App, t: App, e: Seq<Effect>, key: Key) -> bool {
    if is_left_key(key) {
        t == App { focus: PaneFocus::LibraryList, ..s } && e.len() == 0
    } else if is_up_key(key) {
        t == App {
            selected_metadata_idx: if s.selected_metadata_idx > 0 {
                (s.selected_metadata_idx - 1) as usize
            } else {
                3
            },
            ..s
        } && e.len() == 0
    } else if is_down_key(key) {
        t == App {
            selected_metadata_idx: if s.selected_metadata_idx < 3 {
                (s.selected_metadata_idx + 1) as usize
            } else {
                0
            },
            ..s
        } && e.len() == 0
    } else if key == Key::Char(' ') {
        if s.selected_game_idx < s.config.games@.len() {
            let i = s.selected_game_idx as int;
            &&& t == App { config: Config { games: t.config.games, ..s.config }, ..s }
            &&& t.config.games@ == s.config.games@.update(
                i,
                flag_flipped(s.config.games@[i], s.selected_metadata_idx),
            )
            &&& e == seq![Effect::SaveGame { game_idx: s.selected_game_idx }, Effect::SaveConfig]
        } else {
            t == s && e.len() == 0
        }
    } else {
        t == s && e.len() == 0
    }
}

/// After a key that no dialog and no global binding takes: it goes to the
/// pane in focus.
pub open spec fn pane_key_post(s: App, t: App, e: Seq<Effect>, key: Key) -> bool {
    match s.focus {
        PaneFocus::LeftMenu => e.len() == 0 && if is_up_key(key) {
            t == App {
                menu_index: if s.menu_index > 0 {
                    (s.menu_index - 1) as usize
                } else {
                    5
                },
                ..s
            }
        } else if is_down_key(key) {
            t == App {
                menu_index: if s.menu_index < 5 {
                    (s.menu_index + 1) as usize
                } else {
                    0
                },
                ..s
            }
        } else if is_right_key(key) {
            t == App { focus: PaneFocus::LibraryList, ..s }
        } else {
            t == s
        },
        PaneFocus::LibraryList => match s.spec_current_menu() {
            MenuItem::Library => library_key_post(s, t, e, key),
            MenuItem::RunnerManager => runners_key_post(s, t, e, key),
            MenuItem::PrefixManager => prefixes_key_post(s, t, e, key),
            MenuItem::Winetricks => winetricks_key_post(s, t, e, key),
            MenuItem::DependencyInstaller => installer_key_post(s, t, e, key),
            MenuItem::Settings => settings_key_post(s, t, e, key),
        },
        PaneFocus::MetadataPanel => if s.spec_current_menu() == MenuItem::Library {
            metadata_key_post(s, t, e, key)
        } else {
            t == s && e.len() == 0
        },
    }
}

/// After a key with no dialog open: `q` quits, `a` opens the add-game
/// dialog, `i` runs the dependency installer, `?` shows the help, `x` asks
/// to delete the selected game or prefix, `n` opens the new-prefix dialog,
/// Tab moves the focus; other keys go to the pane in focus.
pub open spec fn global_key_post(s: App, t: App, e: Seq<Effect>, key: Key) -> bool {
    if key == Key::Char('q') {
        t == App { should_quit: true, ..s } && e.len() == 0
    } else if key == Key::Char('a') {
        &&& t == with_modal(s, t.active_modal)
        &&& t.active_modal matches Some(ActiveModal::AddGame(m))
        &&& is_fresh_add_game(m)
        &&& e.len() == 0
    } else if key == Key::Char('i') {
        run_script_post(
            App { menu_index: 4, focus: PaneFocus::LibraryList, ..s },
            t,
            e,
        )
    } else if key == Key::Char('?') {
        t == with_modal(s, Some(ActiveModal::Help)) && e.len() == 0
    } else if key == Key::Char('x') {
        e.len() == 0 && if s.spec_current_menu() == MenuItem::Library && s.config.games@.len() > 0 {
            t == with_modal(
                s,
                Some(
                    ActiveModal::DeleteGame {
                        game_idx: s.selected_game_idx,
                        delete_prefix: false,
                        prompt_prefix: false,
                    },
                ),
            )
        } else if s.spec_current_menu() == MenuItem::PrefixManager && s.custom_prefixes@.len() > 0 {
            t == with_modal(
                s,
                Some(
                    ActiveModal::DeletePrefix {
                        prefix_idx: s.selected_prefix_idx,
                        delete_files: false,
                        prompt_delete_files: false,
                    },
                ),
            )
        } else {
            t == s
        }
    } else if key == Key::Char('n') {
        &&& t == with_modal(s, t.active_modal)
        &&& t.active_modal matches Some(ActiveModal::CreatePrefix(m))
        &&& m.name_input@.len() == 0
        &&& m.is_64bit
        &&& m.focus == ModalFocus::NameInput
        &&& e.len() == 0
    } else if key == Key::Tab {
        t == App { focus: tab_focus(s), ..s } && e.len() == 0
    } else {
        pane_key_post(s, t, e, key)
    }
}

/// After a key: the first-start assistant takes every key while it is
/// shown, then an open dialog does, then the global bindings and the pane
/// in focus. `dir_exists` tells whether the directory of the prefix that a
/// deletion dialog names exists.
pub open spec fn key_post(s: App, t: App, e: Seq<Effect>, key: Key, dir_exists: bool) -> bool {
    match s.onboarding {
        Some(ob) => onboarding_key_post(s, t, e, key, ob),
        None => if s.active_modal is Some {
            modal_key_post(s, t, e, key, dir_exists)
        } else {
            global_key_post(s, t, e, key)
        },
    }
}

impl App {
    fn onboarding_key(&mut self, key: Key, ob: OnboardingState) -> (e: Vec<Effect>)
        requires
            old(self).onboarding is None,
            old(self).wf(),
        ensures
            final(self).wf(),
            effects_valid(*final(self), e@),
            ids_distinct(old(self).config.games@) ==> ids_distinct(final(self).config.games@),
            onboarding_key_post(
                App { onboarding: Some(ob), ..*old(self) },
                *final(self),
                e@,
                key,
                ob,
            ),
    {
        let mut ob = ob;
        let mut e: Vec<Effect> = Vec::new();
        match ob.step {
            crate::onboarding::OnboardingStep::Welcome => {
                self.onboarding = Some(ob);
                return e;
            },
            crate::onboarding::OnboardingStep::ScanResult(ref res) => {
                if res.has_missing() {
                    let toggle = match key {
                        Key::Left | Key::Right | Key::Tab | Key::Up | Key::Down => true,
                        _ => false,
                    };
                    if toggle {
                        ob.selected_yes = !ob.selected_yes;
                        self.onboarding = Some(ob);
                        return e;
                    }
                    if key == Key::Enter {
                        if ob.selected_yes {
                            let mut logs: Vec<String> = Vec::new();
                            logs.push(string_from("Starting installation..."));
                            proof {
                                assert(strs_view(logs@) =~= seq!["Starting installation..."@]);
                            }
                            ob.step = crate::onboarding::OnboardingStep::Installing {
                                logs,
                                completed: false,
                                success: false,
                            };
                            self.onboarding = Some(ob);
                            return self.run_dependency_script();
                        } else {
                            e.push(Effect::CompleteOnboarding);
                            proof {
                                assert(e@ =~= seq![Effect::CompleteOnboarding]);
                            }
                            return e;
                        }
                    }
                    self.onboarding = Some(ob);
                    return e;
                } else if key == Key::Enter {
                    e.push(Effect::CompleteOnboarding);
                    proof {
                        assert(e@ =~= seq![Effect::CompleteOnboarding]);
                    }
                    return e;
                }
                self.onboarding = Some(ob);
                return e;
            },
            crate::onboarding::OnboardingStep::Installing { completed, .. } => {
                if completed && key == Key::Enter {
                    e.push(Effect::CompleteOnboarding);
                    proof {
                        assert(e@ =~= seq![Effect::CompleteOnboarding]);
                    }
                    return e;
                }
                self.onboarding = Some(ob);
                return e;
            },
        }
    }

    fn modal_key(&mut self, key: Key, dir_exists: bool) -> (e: Vec<Effect>)
        requires
            old(self).active_modal is Some,
            old(self).wf(),
            old(self).within_capacity(),
        ensures
            modal_key_post(*old(self), *final(self), e@, key, dir_exists),
            final(self).wf(),
            effects_valid(*final(self), e@),
            ids_distinct(old(self).config.games@) ==> ids_distinct(final(self).config.games@),
    {
        let ghost s = *old(self);
        let modal = self.active_modal.take();
        let e = match modal {
            Some(ActiveModal::CreatePrefix(m)) => self.create_prefix_key(key, m),
            Some(ActiveModal::AddGame(m)) => self.add_game_key(key, m),
            Some(ActiveModal::DeleteGame { game_idx, delete_prefix, prompt_prefix }) => self.delete_game_key(
                key,
                game_idx,
                delete_prefix,
                prompt_prefix,
            ),
            Some(ActiveModal::DeletePrefix { prefix_idx, delete_files, prompt_delete_files }) => self.delete_prefix_key(
                key,
                prefix_idx,
                delete_files,
                prompt_delete_files,
                dir_exists,
            ),
            Some(ActiveModal::Help) => Vec::new(),
            None => Vec::new(),
        };
        proof {
            if ids_distinct(s.config.games@) {
                lemma_modal_keeps_ids(s, *self, e@, key, dir_exists);
            }
        }
        e
    }

    fn library_key(&mut self, key: Key) -> (e: Vec<Effect>)
        requires
            old(self).wf(),
        ensures
            library_key_post(*old(self), *final(self), e@, key),
    {
        if left_key(key) {
            self.focus = PaneFocus::LeftMenu;
        } else if right_key(key) {
            self.focus = PaneFocus::MetadataPanel;
        } else if up_key(key) || down_key(key) {
            let n = self.config.games.len();
            if n > 0 {
                let i = self.selected_game_idx;
                self.selected_game_idx = if up_key(key) {
                    if i > 0 {
                        i - 1
                    } else {
                        n - 1
                    }
                } else if i < n - 1 {
                    i + 1
                } else {
                    0
                };
            }
        } else if key == Key::Enter {
            return self.launch_selected_game();
        }
        Vec::new()
    }

    fn runners_key(&mut self, key: Key) -> (e: Vec<Effect>)
        requires
            old(self).wf(),
        ensures
            runners_key_post(*old(self), *final(self), e@, key),
    {
        if left_key(key) {
            self.focus = PaneFocus::LeftMenu;
        } else if up_key(key) || down_key(key) {
            let n = self.config.runners.len();
            if n > 0 {
                let i = self.selected_runner_idx;
                self.selected_runner_idx = if up_key(key) {
                    if i > 0 {
                        i - 1
                    } else {
                        n - 1
                    }
                } else if i < n - 1 {
                    i + 1
                } else {
                    0
                };
            }
        } else if key == Key::Enter {
            return self.download_selected_runner();
        }
        Vec::new()
    }

    fn prefixes_key(&mut self, key: Key) -> (e: Vec<Effect>)
        requires
            old(self).wf(),
        ensures
            prefixes_key_post(*old(self), *final(self), e@, key),
    {
        if left_key(key) {
            self.focus = PaneFocus::LeftMenu;
        } else if up_key(key) || down_key(key) {
            let n = self.custom_prefixes.len();
            if n > 0 {
                let i = self.selected_prefix_idx;
                self.selected_prefix_idx = if up_key(key) {
                    if i > 0 {
                        i - 1
                    } else {
                        n - 1
                    }
                } else if i < n - 1 {
                    i + 1
                } else {
                    0
                };
            }
        } else if key == Key::Enter {
            return self.initialize_custom_prefix(self.selected_prefix_idx);
        }
        Vec::new()
    }

    fn winetricks_key(&mut self, key: Key) -> (e: Vec<Effect>)
        requires
            old(self).wf(),
        ensures
            winetricks_key_post(*old(self), *final(self), e@, key),
    {
        if left_key(key) {
            self.focus = PaneFocus::LeftMenu;
        } else if up_key(key) || down_key(key) {
            let n = self.winetricks_items.len();
            let i = self.selected_winetricks_idx;
            self.selected_winetricks_idx = if up_key(key) {
                if i > 0 {
                    i - 1
                } else {
                    n - 1
                }
            } else if i < n - 1 {
                i + 1
            } else {
                0
            };
        } else if key == Key::Enter {
            return self.run_selected_winetricks();
        }
        Vec::new()
    }

    fn installer_key(&mut self, key: Key) -> (e: Vec<Effect>)
        ensures
            installer_key_post(*old(self), *final(self), e@, key),
    {
        if left_key(key) {
            self.focus = PaneFocus::LeftMenu;
        } else if key == Key::Enter {
            return self.run_dependency_script();
        }
        Vec::new()
    }

    fn settings_key(&mut self, key: Key) -> (e: Vec<Effect>)
        requires
            old(self).wf(),
            old(self).within_capacity(),
        ensures
            settings_key_post(*old(self), *final(self), e@, key),
    {
        let ns = self.settings_items.len();
        if left_key(key) {
            self.focus = PaneFocus::LeftMenu;
        } else if up_key(key) || down_key(key) {
            let n = ns + self.custom_prefixes.len();
            if n > 0 {
                let i = self.selected_settings_idx;
                self.selected_settings_idx = if up_key(key) {
                    if i > 0 {
                        i - 1
                    } else {
                        n - 1
                    }
                } else if i < n - 1 {
                    i + 1
                } else {
                    0
                };
            }
        } else if key == Key::Enter {
            if self.selected_settings_idx >= ns {
                return self.initialize_custom_prefix(self.selected_settings_idx - ns);
            }
        } else if key == Key::Char(' ') {
            if self.selected_settings_idx < ns {
                self.toggle_selected_setting();
            }
        }
        Vec::new()
    }

    fn metadata_key(&mut self, key: Key) -> (e: Vec<Effect>)
        ensures
            metadata_key_post(*old(self), *final(self), e@, key),
    {
        let mut e: Vec<Effect> = Vec::new();
        if left_key(key) {
            self.focus = PaneFocus::LibraryList;
        } else if up_key(key) {
            self.selected_metadata_idx = if self.selected_metadata_idx > 0 {
                self.selected_metadata_idx - 1
            } else {
                3
            };
        } else if down_key(key) {
            self.selected_metadata_idx = if self.selected_metadata_idx < 3 {
                self.selected_metadata_idx + 1
            } else {
                0
            };
        } else if key == Key::Char(' ') {
            let i = self.selected_game_idx;
            if i < self.config.games.len() {
                let mut g = self.config.games.remove(i);
                let k = self.selected_metadata_idx;
                if k == 0 {
                    g.dxvk = !g.dxvk;
                } else if k == 1 {
                    g.vkd3d = !g.vkd3d;
                } else if k == 2 {
                    g.mangohud = !g.mangohud;
                } else if k == 3 {
                    g.gamemode = !g.gamemode;
                }
                self.config.games.insert(i, g);
                proof {
                    assert(self.config.games@ =~= old(self).config.games@.update(
                        i as int,
                        flag_flipped(old(self).config.games@[i as int], k),
                    ));
                }
                e.push(Effect::SaveGame { game_idx: i });
                e.push(Effect::SaveConfig);
                proof {
                    assert(e@ =~= seq![Effect::SaveGame { game_idx: i }, Effect::SaveConfig]);
                }
            }
        }
        e
    }

    fn pane_key(&mut self, key: Key) -> (e: Vec<Effect>)
        requires
            old(self).wf(),
            old(self).within_capacity(),
        ensures
            pane_key_post(*old(self), *final(self), e@, key),
    {
        match self.focus {
            PaneFocus::LeftMenu => {
                if up_key(key) {
                    self.menu_index = if self.menu_index > 0 {
                        self.menu_index - 1
                    } else {
                        5
                    };
                } else if down_key(key) {
                    self.menu_index = if self.menu_index < 5 {
                        self.menu_index + 1
                    } else {
                        0
                    };
                } else if right_key(key) {
                    self.focus = PaneFocus::LibraryList;
                }
                Vec::new()
            },
            PaneFocus::LibraryList => match self.current_menu() {
                MenuItem::Library => self.library_key(key),
                MenuItem::RunnerManager => self.runners_key(key),
                MenuItem::PrefixManager => self.prefixes_key(key),
                MenuItem::Winetricks => self.winetricks_key(key),
                MenuItem::DependencyInstaller => self.installer_key(key),
                MenuItem::Settings => self.settings_key(key),
            },
            PaneFocus::MetadataPanel => {
                if self.current_menu() == MenuItem::Library {
                    self.metadata_key(key)
                } else {
                    Vec::new()
                }
            },
        }
    }

    fn global_key(&mut self, key: Key) -> (e: Vec<Effect>)
        requires
            old(self).wf(),
            old(self).within_capacity(),
            old(self).active_modal is None,
        ensures
            global_key_post(*old(self), *final(self), e@, key),
            final(self).wf(),
            effects_valid(*final(self), e@),
            ids_distinct(old(self).config.games@) ==> ids_distinct(final(self).config.games@),
    {
        match key {
            Key::Char('q') => {
                self.should_quit = true;
                Vec::new()
            },
            Key::Char('a') => {
                self.active_modal = Some(
                    ActiveModal::AddGame(
                        AddGameModalState {
                            title: String::new(),
                            exec_path: String::new(),
                            prefix_name: String::new(),
                            prefix_edited: false,
                            selected_runner_idx: 0,
                            dxvk: true,
                            vkd3d: false,
                            mangohud: false,
                            gamemode: false,
                            is_installer: false,
                            focus: AddGameFocus::Title,
                        },
                    ),
                );
                Vec::new()
            },
            Key::Char('i') => {
                self.menu_index = MenuItem::DependencyInstaller.index();
                self.focus = PaneFocus::LibraryList;
                self.run_dependency_script()
            },
            Key::Char('?') => {
                self.active_modal = Some(ActiveModal::Help);
                Vec::new()
            },
            Key::Char('x') => {
                let menu = self.current_menu();
                if menu == MenuItem::Library && self.config.games.len() > 0 {
                    self.active_modal = Some(
                        ActiveModal::DeleteGame {
                            game_idx: self.selected_game_idx,
                            delete_prefix: false,
                            prompt_prefix: false,
                        },
                    );
                } else if menu == MenuItem::PrefixManager && self.custom_prefixes.len() > 0 {
                    self.active_modal = Some(
                        ActiveModal::DeletePrefix {
                            prefix_idx: self.selected_prefix_idx,
                            delete_files: false,
                            prompt_delete_files: false,
                        },
                    );
                }
                Vec::new()
            },
            Key::Char('n') => {
                self.active_modal = Some(
                    ActiveModal::CreatePrefix(
                        ModalState {
                            name_input: String::new(),
                            is_64bit: true,
                            focus: ModalFocus::NameInput,
                        },
                    ),
                );
                Vec::new()
            },
            Key::Tab => {
                self.focus = match self.focus {
                    PaneFocus::LeftMenu => PaneFocus::LibraryList,
                    PaneFocus::LibraryList => {
                        if self.current_menu() == MenuItem::Library {
                            PaneFocus::MetadataPanel
                        } else {
                            PaneFocus::LeftMenu
                        }
                    },
                    PaneFocus::MetadataPanel => PaneFocus::LeftMenu,
                };
                Vec::new()
            },
            _ => self.pane_key(key),
        }
    }

    /// Takes a key press. `prefix_dir_exists` tells whether the directory of
    /// the prefix that an open deletion dialog names exists (it is read only
    /// there). The returned effects are to be carried out in order, on the
    /// state that the call leaves.
    pub fn handle_key(&mut self, key: Key, prefix_dir_exists: bool) -> (e: Vec<Effect>)
        requires
            old(self).wf(),
            old(self).within_capacity(),
        ensures
            key_post(*old(self), *final(self), e@, key, prefix_dir_exists),
            final(self).wf(),
            effects_valid(*final(self), e@),
            ids_distinct(old(self).config.games@) ==> ids_distinct(final(self).config.games@),
    {
        let ghost s = *old(self);
        let ob = self.onboarding.take();
        match ob {
            Some(ob) => {
                return self.onboarding_key(key, ob);
            },
            None => {},
        }
        if self.active_modal.is_some() {
            return self.modal_key(key, prefix_dir_exists);
        }
        self.global_key(key)
    }
}

// ---------------------------------------------------------------------------
// Game identifiers stay unique
// ---------------------------------------------------------------------------
proof fn lemma_ids_distinct_remove(games: Seq<Game>, idx: int)
    requires
        ids_distinct(games),
        0 <= idx < games.len(),
    ensures
        ids_distinct(games.remove(idx)),
{
    let r = games.remove(idx);
    assert forall|i: int, j: int| 0 <= i < r.len() && 0 <= j < r.len() && i != j implies (#[trigger] r[i]).id@
        != (#[trigger] r[j]).id@ by {
        let oi = if i < idx {
            i
        } else {
            i + 1
        };
        let oj = if j < idx {
            j
        } else {
            j + 1
        };
        assert(r[i] == games[oi]);
        assert(r[j] == games[oj]);
    }
}

proof fn lemma_ids_distinct_push(old_games: Seq<Game>, games: Seq<Game>)
    requires
        ids_distinct(old_games),
        games.len() == old_games.len() + 1,
        games.drop_last() == old_games,
        !crate::naming::id_taken(old_games, games.last().id@),
    ensures
        ids_distinct(games),
{
    assert forall|i: int, j: int| 0 <= i < games.len() && 0 <= j < games.len() && i != j implies (#[trigger] games[i]).id@
        != (#[trigger] games[j]).id@ by {
        let n = old_games.len() as int;
        if i < n && j < n {
            assert(games[i] == old_games[i]);
            assert(games[j] == old_games[j]);
        } else if i == n {
            assert(games[j] == old_games[j]);
        } else {
            assert(games[i] == old_games[i]);
        }
    }
}

proof fn lemma_fresh_not_taken(games: Seq<Game>, base: Seq<char>, id: Seq<char>)
    requires
        fresh_id(games, base, id),
    ensures
        !crate::naming::id_taken(games, id),
{
    let k = choose|k: nat| crate::naming::is_first_free(games, base, k) && id == crate::naming::id_candidate(base, k);
}

/// Adding a game through the dialog appends one game to the library,
/// leaves the others as they were, gives it the first of `slug`, `slug-1`,
/// `slug-2`, … that no game has, and so keeps the identifiers distinct.
pub proof fn lemma_added_game_is_fresh(s: App, t: App, e: Seq<Effect>, m: AddGameModalState)
    requires
        add_game_post(s, t, e, m),
        ids_distinct(s.config.games@),
    ensures
        t.config.games@ == s.config.games@.push(t.config.games@.last()),
        fresh_id(s.config.games@, slug(m.title@), t.config.games@.last().id@),
        !crate::naming::id_taken(s.config.games@, t.config.games@.last().id@),
        ids_distinct(t.config.games@),
{
    assert(t.config.games@ =~= s.config.games@.push(t.config.games@.last()));
    lemma_fresh_not_taken(s.config.games@, slug(m.title@), t.config.games@.last().id@);
    lemma_ids_distinct_push(s.config.games@, t.config.games@);
}

/// Deleting the game at a position of the library removes exactly that
/// game, keeps the others in order, and leaves the selection on a game
/// whenever one remains: where it was, or on the new last game.
pub proof fn lemma_deletion_keeps_selection(s: App, t: App, e: Seq<Effect>, idx: usize, d: bool)
    requires
        delete_game_post(s, t, e, idx, d),
        idx < s.config.games@.len(),
    ensures
        t.config.games@ == s.config.games@.remove(idx as int),
        t.selected_game_idx == if s.config.games@.len() == 1 {
            0
        } else if s.selected_game_idx >= s.config.games@.len() - 1 {
            (s.config.games@.len() - 2) as usize
        } else {
            s.selected_game_idx
        },
        t.config.games@.len() > 0 ==> t.selected_game_idx < t.config.games@.len(),
        t.active_modal is None,
        t.focus == PaneFocus::LibraryList,
{
}

/// The previous and next positions of a cycle of `n` are `i - 1` and
/// `i + 1` taken modulo `n`.
pub proof fn lemma_cycle_is_modular(i: int, n: int)
    requires
        0 <= i < n,
    ensures
        cycle_next(i, n) == (i + 1) % n,
        cycle_prev(i, n) == (i + n - 1) % n,
{
    if i + 1 < n {
        assert((i + 1) % n == i + 1) by (nonlinear_arith)
            requires
                0 <= i + 1 < n,
        ;
    } else {
        assert((i + 1) % n == 0) by (nonlinear_arith)
            requires
                i + 1 == n,
                n > 0,
        ;
    }
    if i > 0 {
        assert((i + n - 1) % n == i - 1) by (nonlinear_arith)
            requires
                0 < i < n,
        ;
    } else {
        assert((i + n - 1) % n == n - 1) by (nonlinear_arith)
            requires
                i == 0,
                n > 0,
        ;
    }
}

/// In the left menu, up (or `k`) and down (or `j`) move among the six
/// screens, wrapping at both ends, and change nothing else.
pub proof fn lemma_menu_wraps(s: App, t: App, e: Seq<Effect>, key: Key, d: bool)
    requires
        key_post(s, t, e, key, d),
        s.onboarding is None,
        s.active_modal is None,
        s.focus == PaneFocus::LeftMenu,
        s.menu_index <= 5,
        is_up_key(key) || is_down_key(key),
    ensures
        t == (App { menu_index: t.menu_index, ..s }),
        e.len() == 0,
        is_up_key(key) ==> t.menu_index == (s.menu_index + 5) % 6,
        is_down_key(key) ==> t.menu_index == (s.menu_index + 1) % 6,
        t.menu_index <= 5,
{
}

/// The selection that up and down move on a list screen, with the
/// length of its list: the games, the runners, the prefixes, the
/// winetricks verbs, or the settings followed by the prefixes.
pub open spec fn list_selection(s: App) -> (usize, int) {
    match s.spec_current_menu() {
        MenuItem::Library => (s.selected_game_idx, s.config.games@.len() as int),
        MenuItem::RunnerManager => (s.selected_runner_idx, s.config.runners@.len() as int),
        MenuItem::PrefixManager => (s.selected_prefix_idx, s.custom_prefixes@.len() as int),
        MenuItem::Winetricks => (s.selected_winetricks_idx, s.winetricks_items@.len() as int),
        MenuItem::DependencyInstaller => (0, 0),
        MenuItem::Settings => (
            s.selected_settings_idx,
            (s.settings_items@.len() + s.custom_prefixes@.len()) as int,
        ),
    }
}

/// `s` with the selection of its list screen set to `v`.
pub open spec fn with_list_selection(s: App, v: usize) -> App {
    match s.spec_current_menu() {
        MenuItem::Library => App { selected_game_idx: v, ..s },
        MenuItem::RunnerManager => App { selected_runner_idx: v, ..s },
        MenuItem::PrefixManager => App { selected_prefix_idx: v, ..s },
        MenuItem::Winetricks => App { selected_winetricks_idx: v, ..s },
        MenuItem::DependencyInstaller => s,
        MenuItem::Settings => App { selected_settings_idx: v, ..s },
    }
}

/// On a list screen, down (or `j`) moves the selection to the next entry
/// and up (or `k`) to the previous one, wrapping at both ends, so it stays
/// on an entry; an empty list keeps it; nothing else changes.
pub proof fn lemma_list_selection_wraps(s: App, t: App, e: Seq<Effect>, key: Key, d: bool)
    requires
        key_post(s, t, e, key, d),
        s.wf(),
        s.onboarding is None,
        s.active_modal is None,
        s.focus == PaneFocus::LibraryList,
        s.spec_current_menu() != MenuItem::DependencyInstaller,
        is_up_key(key) || is_down_key(key),
        list_selection(s).1 == 0 || list_selection(s).0 < list_selection(s).1,
    ensures
        e.len() == 0,
        list_selection(s).1 == 0 ==> t == s,
        list_selection(s).1 > 0 ==> {
            let (i, n) = list_selection(s);
            &&& is_down_key(key) ==> t == with_list_selection(s, ((i + 1) % n) as usize)
            &&& is_up_key(key) ==> t == with_list_selection(s, ((i + n - 1) % n) as usize)
            &&& list_selection(t).0 < n
        },
{
    let (i, n) = list_selection(s);
    if n > 0 {
        lemma_cycle_is_modular(i as int, n);
    }
}

/// In the add-game dialog, Tab or down moves to the next field and up to
/// the previous one, in the order title, path, prefix, runner, DXVK,
/// VKD3D, MangoHud, GameMode, installer, wrapping around; every other
/// field of the dialog is kept.
pub proof fn lemma_dialog_focus_cycles(s: App, t: App, e: Seq<Effect>, key: Key, d: bool)
    requires
        key_post(s, t, e, key, d),
        s.onboarding is None,
        s.active_modal matches Some(ActiveModal::AddGame(_)),
        key == Key::Tab || key == Key::Down || key == Key::Up,
    ensures
        e.len() == 0,
        ({
            let m = s.active_modal->0->AddGame_0;
            &&& t == with_modal(s, t.active_modal)
            &&& key == Key::Up ==> t.active_modal == Some(
                ActiveModal::AddGame(AddGameModalState { focus: prev_add_game_focus(m.focus), ..m }),
            )
            &&& key != Key::Up ==> t.active_modal == Some(
                ActiveModal::AddGame(AddGameModalState { focus: next_add_game_focus(m.focus), ..m }),
            )
        }),
{
}

proof fn lemma_modal_keeps_ids(s: App, t: App, e: Seq<Effect>, key: Key, d: bool)
    requires
        modal_key_post(s, t, e, key, d),
        ids_distinct(s.config.games@),
    ensures
        ids_distinct(t.config.games@),
{
    match s.active_modal {
        Some(ActiveModal::AddGame(m)) => {
            if key == Key::Enter && !is_blank(m.title@) && crate::naming::valid_exec_path(m.exec_path@) {
                lemma_fresh_not_taken(s.config.games@, slug(m.title@), t.config.games@.last().id@);
                lemma_ids_distinct_push(s.config.games@, t.config.games@);
            }
        },
        Some(ActiveModal::DeleteGame { game_idx, .. }) => {
            if game_idx < s.config.games@.len() {
                lemma_ids_distinct_remove(s.config.games@, game_idx as int);
            }
        },
        _ => {},
    }
}

// ---------------------------------------------------------------------------
// Background events
// ---------------------------------------------------------------------------
/// The position of the first game with identifier `id` at or after
/// `start`.
pub open spec fn game_index_from(gs: Seq<Game>, id: Seq<char>, start: int) -> Option<int>
    decreases gs.len() - start,
{
    if start < 0 || start >= gs.len() {
        None
    } else if gs[start].id@ == id {
        Some(start)
    } else {
        game_index_from(gs, id, start + 1)
    }
}

/// The position of the first runner with identifier `id` at or after
/// `start`.
pub open spec fn runner_index_from(rs: Seq<Runner>, id: Seq<char>, start: int) -> Option<int>
    decreases rs.len() - start,
{
    if start < 0 || start >= rs.len() {
        None
    } else if rs[start].id@ == id {
        Some(start)
    } else {
        runner_index_from(rs, id, start + 1)
    }
}

/// The position of the first prefix named `name` at or after `start`.
pub open spec fn prefix_index_from(ps: Seq<WinePrefix>, name: Seq<char>, start: int) -> Option<int>
    decreases ps.len() - start,
{
    if start < 0 || start >= ps.len() {
        None
    } else if ps[start].name@ == name {
        Some(start)
    } else {
        prefix_index_from(ps, name, start + 1)
    }
}

proof fn lemma_index_from_bounds_game(gs: Seq<Game>, id: Seq<char>, start: int)
    ensures
        game_index_from(gs, id, start) matches Some(i) ==> start <= i < gs.len() && gs[i].id@ == id,
    decreases gs.len() - start,
{
    if 0 <= start < gs.len() && gs[start].id@ != id {
        lemma_index_from_bounds_game(gs, id, start + 1);
    }
}

pub(crate) proof fn lemma_index_from_bounds_runner(rs: Seq<Runner>, id: Seq<char>, start: int)
    ensures
        runner_index_from(rs, id, start) matches Some(i) ==> start <= i < rs.len() && rs[i].id@ == id,
        runner_index_from(rs, id, start) is None && start >= 0 ==> forall|j: int| start <= j < rs.len() ==> (#[trigger] rs[j]).id@ != id,
    decreases rs.len() - start,
{
    if 0 <= start < rs.len() && rs[start].id@ != id {
        lemma_index_from_bounds_runner(rs, id, start + 1);
    }
}

proof fn lemma_index_from_bounds_prefix(ps: Seq<WinePrefix>, name: Seq<char>, start: int)
    ensures
        prefix_index_from(ps, name, start) matches Some(i) ==> start <= i < ps.len(),
    decreases ps.len() - start,
{
    if 0 <= start < ps.len() && ps[start].name@ != name {
        lemma_index_from_bounds_prefix(ps, name, start + 1);
    }
}

fn find_game(gs: &Vec<Game>, id: &str) -> (r: Option<usize>)
    ensures
        match r {
            Some(i) => game_index_from(gs@, id@, 0) == Some(i as int),
            None => game_index_from(gs@, id@, 0) is None,
        },
{
    proof {
        lemma_index_from_bounds_game(gs@, id@, 0);
    }
    let mut i: usize = 0;
    while i < gs.len()
        invariant
            i <= gs@.len(),
            game_index_from(gs@, id@, 0) == game_index_from(gs@, id@, i as int),
        decreases gs@.len() - i,
    {
        if str_eq(gs[i].id.as_str(), id) {
            return Some(i);
        }
        i = i + 1;
    }
    None
}

pub(crate) fn find_runner(rs: &Vec<Runner>, id: &str) -> (r: Option<usize>)
    ensures
        match r {
            Some(i) => runner_index_from(rs@, id@, 0) == Some(i as int),
            None => runner_index_from(rs@, id@, 0) is None,
        },
{
    proof {
        lemma_index_from_bounds_runner(rs@, id@, 0);
    }
    let mut i: usize = 0;
    while i < rs.len()
        invariant
            i <= rs@.len(),
            runner_index_from(rs@, id@, 0) == runner_index_from(rs@, id@, i as int),
        decreases rs@.len() - i,
    {
        if str_eq(rs[i].id.as_str(), id) {
            return Some(i);
        }
        i = i + 1;
    }
    None
}

fn find_prefix(ps: &Vec<WinePrefix>, name: &str) -> (r: Option<usize>)
    ensures
        match r {
            Some(i) => prefix_index_from(ps@, name@, 0) == Some(i as int),
            None => prefix_index_from(ps@, name@, 0) is None,
        },
{
    proof {
        lemma_index_from_bounds_prefix(ps@, name@, 0);
    }
    let mut i: usize = 0;
    while i < ps.len()
        invariant
            i <= ps@.len(),
            prefix_index_from(ps@, name@, 0) == prefix_index_from(ps@, name@, i as int),
        decreases ps@.len() - i,
    {
        if str_eq(ps[i].name.as_str(), name) {
            return Some(i);
        }
        i = i + 1;
    }
    None
}

/// The runner list after taking one fetched runner: a new identifier is
/// appended; a known one gets the fetched download address and installed
/// mark.
pub open spec fn runner_merged(rs: Seq<Runner>, f: Runner) -> Seq<Runner> {
    match runner_index_from(rs, f.id@, 0) {
        None => rs.push(f),
        Some(i) => rs.update(i, Runner { download_url: f.download_url, installed: f.installed, ..rs[i] }),
    }
}

/// The runner list after taking the fetched runners in order.
pub open spec fn runners_merged(rs: Seq<Runner>, fs: Seq<Runner>) -> Seq<Runner>
    decreases fs.len(),
{
    if fs.len() == 0 {
        rs
    } else {
        runner_merged(runners_merged(rs, fs.drop_last()), fs.last())
    }
}

/// Merging fetched runners keeps every runner of the list where it was,
/// under the same identifier, and leaves every fetched identifier in the
/// list.
pub proof fn lemma_merge_keeps_and_adds(rs: Seq<Runner>, fs: Seq<Runner>)
    ensures
        runners_merged(rs, fs).len() >= rs.len(),
        forall|i: int| 0 <= i < rs.len() ==> (#[trigger] runners_merged(rs, fs)[i]).id@ == rs[i].id@,
        forall|i: int| 0 <= i < fs.len() ==> exists|j: int| 0 <= j < runners_merged(rs, fs).len()
            && #[trigger] runners_merged(rs, fs)[j].id@ == (#[trigger] fs[i]).id@,
    decreases fs.len(),
{
    if fs.len() > 0 {
        let prev = runners_merged(rs, fs.drop_last());
        let f = fs.last();
        lemma_merge_keeps_and_adds(rs, fs.drop_last());
        lemma_index_from_bounds_runner(prev, f.id@, 0);
        let cur = runners_merged(rs, fs);
        assert(cur == runner_merged(prev, f));
        assert(cur.len() >= prev.len());
        assert forall|k: int| 0 <= k < prev.len() implies #[trigger] cur[k].id@ == prev[k].id@ by {
            match runner_index_from(prev, f.id@, 0) {
                None => {},
                Some(x) => {},
            }
        }
        assert forall|i: int| 0 <= i < rs.len() implies (#[trigger] cur[i]).id@ == rs[i].id@ by {
            assert(cur[i].id@ == prev[i].id@);
        }
        assert forall|i: int| 0 <= i < fs.len() implies exists|j: int| 0 <= j < cur.len()
            && #[trigger] cur[j].id@ == (#[trigger] fs[i]).id@ by {
            if i < fs.len() - 1 {
                assert(fs[i] == fs.drop_last()[i]);
                let j = choose|j: int| 0 <= j < prev.len() && #[trigger] prev[j].id@ == fs.drop_last()[i].id@;
                assert(cur[j].id@ == prev[j].id@);
            } else {
                match runner_index_from(prev, f.id@, 0) {
                    None => {
                        assert(cur[prev.len() as int] == f);
                    },
                    Some(x) => {
                        assert(cur[x].id@ == f.id@);
                    },
                }
            }
        }
    }
}

/// The length in bytes of the UTF-8 encoding of a text.
pub open spec fn utf8_len(s: Seq<char>) -> nat {
    (vstd::utf8::encode_utf8(s).len() as usize) as nat
}

/// The frame rates recorded for a session of a game whose name is `n`
/// bytes long: an average of 60 to 84, a maximum 15 to 24 above it.
pub open spec fn session_fps(n: nat) -> (u32, u32) {
    let avg = 60 + (n * 3) % 25;
    (avg as u32, (avg + 15 + n % 10) as u32)
}

/// Whether the assistant's installing log `o2` is `o` with one more line,
/// and, when `finished` holds a result, marked done with that result.
pub open spec fn onboarding_logged(
    o: Option<OnboardingState>,
    o2: Option<OnboardingState>,
    line: Seq<char>,
    finished: Option<bool>,
) -> bool {
    match o {
        Some(ob) => match ob.step {
            crate::onboarding::OnboardingStep::Installing { logs, completed, success } => {
                &&& o2 matches Some(ob2)
                &&& ob2.selected_yes == ob.selected_yes
                &&& ob2.step matches crate::onboarding::OnboardingStep::Installing {
                    logs: l2,
                    completed: c2,
                    success: s2,
                }
                &&& strs_view(l2@) == strs_view(logs@).push(line)
                &&& match finished {
                    Some(b) => c2 && s2 == b,
                    None => c2 == completed && s2 == success,
                }
            },
            _ => o2 == o,
        },
        None => o2 == o,
    }
}

/// The text that a failed prefix initialization leaves as its status.
pub open spec fn init_error_text(error: Option<Seq<char>>) -> Seq<char> {
    "Error: "@ + match error {
        Some(x) => x,
        None => Seq::empty(),
    }
}

/// The text that a finished dependency script adds to the logs.
pub open spec fn script_end_line(success: bool) -> Seq<char> {
    if success {
        "Dependency installation completed successfully!"@
    } else {
        "Dependency installation script exited with errors."@
    }
}

/// After a game of the library is changed at `i` only.
pub open spec fn game_changed(s: App, t: App, i: int) -> bool {
    &&& t == App { config: Config { games: t.config.games, ..s.config }, ..s }
    &&& t.config.games@ == s.config.games@.update(i, t.config.games@[i])
    &&& 0 <= i < s.config.games@.len()
}

/// After a background event.
pub open spec fn event_post(s: App, t: App, e: Seq<Effect>, ev: AppEvent) -> bool {
    match ev {
        AppEvent::GameStarted { game_id, pid } => match game_index_from(s.config.games@, game_id@, 0) {
            Some(i) => {
                &&& game_changed(s, t, i)
                &&& t.config.games@[i] == Game {
                    status: GameStatus::Running { pid, since: 0 },
                    ..s.config.games@[i]
                }
                &&& e == seq![Effect::RecordGameLaunch { game_idx: i as usize }]
            },
            None => t == s && e.len() == 0,
        },
        AppEvent::GameFinished { game_id, exit_code } => match game_index_from(
            s.config.games@,
            game_id@,
            0,
        ) {
            Some(i) => {
                let g = s.config.games@[i];
                let fps = session_fps(utf8_len(g.name@));
                &&& game_changed(s, t, i)
                &&& t.config.games@[i] == Game { status: t.config.games@[i].status, ..g }
                &&& if exit_code == 0 {
                    t.config.games@[i].status == GameStatus::Ready
                } else {
                    t.config.games@[i].status matches GameStatus::Error(msg) && msg@ == "Exit code "@
                        + crate::text::signed_decimal(exit_code as int)
                }
                &&& e == seq![
                    Effect::RecordGameExit { game_idx: i as usize, avg_fps: fps.0, max_fps: fps.1 },
                    Effect::SaveConfig,
                ]
            },
            None => t == s && e.len() == 0,
        },
        AppEvent::ReleasesFetched(fetched) => {
            &&& t == App {
                config: Config { runners: t.config.runners, ..s.config },
                runner_state: RunnerState::Idle,
                ..s
            }
            &&& t.config.runners@ == runners_merged(s.config.runners@, fetched@)
            &&& e == seq![Effect::SaveConfig]
        },
        AppEvent::DownloadProgress(pct) => t == App {
            download_progress: pct as u32,
            runner_state: RunnerState::Downloading(pct),
            ..s
        } && e.len() == 0,
        AppEvent::ExtractionStarted => t == App { runner_state: RunnerState::Extracting, ..s } && e.len()
            == 0,
        AppEvent::DownloadFinished { runner_id, path } => {
            let finished_ours = crate::game::opt_view(s.downloading_runner_id) == Some(runner_id@);
            &&& t == App {
                config: Config { runners: t.config.runners, ..s.config },
                downloading_runner_id: if finished_ours {
                    None
                } else {
                    s.downloading_runner_id
                },
                download_progress: if finished_ours {
                    0
                } else {
                    s.download_progress
                },
                runner_state: RunnerState::Idle,
                ..s
            }
            &&& t.config.runners@ == match runner_index_from(s.config.runners@, runner_id@, 0) {
                Some(i) => s.config.runners@.update(
                    i,
                    Runner { installed: true, path, ..s.config.runners@[i] },
                ),
                None => s.config.runners@,
            }
            &&& e == seq![Effect::SaveConfig]
        },
        AppEvent::DownloadError(err) => t == App {
            runner_state: RunnerState::Error(err),
            downloading_runner_id: None,
            ..s
        } && e.len() == 0,
        AppEvent::PrefixInitStarted { prefix_name } => e.len() == 0 && match prefix_index_from(
            s.custom_prefixes@,
            prefix_name@,
            0,
        ) {
            Some(i) => {
                &&& t == App { custom_prefixes: t.custom_prefixes, ..s }
                &&& t.custom_prefixes@ == s.custom_prefixes@.update(i, t.custom_prefixes@[i])
                &&& t.custom_prefixes@[i] == WinePrefix {
                    status: t.custom_prefixes@[i].status,
                    ..s.custom_prefixes@[i]
                }
                &&& t.custom_prefixes@[i].status@ == "Booting..."@
            },
            None => t == s,
        },
        AppEvent::PrefixInitFinished { prefix_name, success, error } => e.len() == 0 && match prefix_index_from(
            s.custom_prefixes@,
            prefix_name@,
            0,
        ) {
            Some(i) => {
                &&& t == App { custom_prefixes: t.custom_prefixes, ..s }
                &&& t.custom_prefixes@ == s.custom_prefixes@.update(i, t.custom_prefixes@[i])
                &&& t.custom_prefixes@[i] == WinePrefix {
                    status: t.custom_prefixes@[i].status,
                    ..s.custom_prefixes@[i]
                }
                &&& t.custom_prefixes@[i].status@ == if success {
                    "Ready"@
                } else {
                    init_error_text(crate::game::opt_view(error))
                }
            },
            None => t == s,
        },
        AppEvent::ScriptStarted => {
            &&& t == App {
                script_running: true,
                script_logs: t.script_logs,
                onboarding: t.onboarding,
                ..s
            }
            &&& strs_view(t.script_logs@) == strs_view(s.script_logs@).push(
                "Script execution started..."@,
            )
            &&& onboarding_logged(s.onboarding, t.onboarding, "Script execution started..."@, None)
            &&& e.len() == 0
        },
        AppEvent::ScriptLine(line) => {
            &&& t == App { script_logs: t.script_logs, onboarding: t.onboarding, ..s }
            &&& strs_view(t.script_logs@) == strs_view(s.script_logs@).push(line@)
            &&& onboarding_logged(s.onboarding, t.onboarding, line@, None)
            &&& e.len() == 0
        },
        AppEvent::ScriptFinished(success) => {
            &&& t == App {
                script_running: false,
                script_logs: t.script_logs,
                onboarding: t.onboarding,
                ..s
            }
            &&& strs_view(t.script_logs@) == strs_view(s.script_logs@).push(script_end_line(success))
            &&& onboarding_logged(s.onboarding, t.onboarding, script_end_line(success), Some(success))
            &&& e.len() == 0
        },
        AppEvent::OnboardingScanFinished(res) => e.len() == 0 && match s.onboarding {
            Some(ob) => t == App {
                onboarding: Some(
                    OnboardingState { step: crate::onboarding::OnboardingStep::ScanResult(res), ..ob },
                ),
                ..s
            },
            None => t == s,
        },
        AppEvent::InstallerFinished { game_id, exec_path, wineprefix } => match game_index_from(
            s.config.games@,
            game_id@,
            0,
        ) {
            Some(i) => {
                &&& game_changed(s, t, i)
                &&& t.config.games@[i] == Game {
                    exec_path,
                    wineprefix: Some(wineprefix),
                    is_installer: false,
                    status: GameStatus::Ready,
                    ..s.config.games@[i]
                }
                &&& e == seq![Effect::SaveGame { game_idx: i as usize }, Effect::SaveConfig]
            },
            None => t == s && e == seq![Effect::SaveConfig],
        },
    }
}

impl App {
    fn push_onboarding_line(&mut self, line: String, finished: Option<bool>)
        ensures
            *final(self) == (App { onboarding: final(self).onboarding, ..*old(self) }),
            onboarding_logged(old(self).onboarding, final(self).onboarding, line@, finished),
    {
        let ob = self.onboarding.take();
        match ob {
            Some(ob) => {
                let mut ob = ob;
                match ob.step {
                    crate::onboarding::OnboardingStep::Installing { logs, completed, success } => {
                        let mut logs = logs;
                        let ghost old_logs = logs@;
                        logs.push(line);
                        proof {
                            assert(strs_view(logs@) =~= strs_view(old_logs).push(line@));
                        }
                        let (c2, s2) = match finished {
                            Some(b) => (true, b),
                            None => (completed, success),
                        };
                        ob.step = crate::onboarding::OnboardingStep::Installing {
                            logs,
                            completed: c2,
                            success: s2,
                        };
                        self.onboarding = Some(ob);
                    },
                    _ => {
                        self.onboarding = Some(ob);
                    },
                }
            },
            None => {},
        }
    }

    fn push_script_line(&mut self, line: String)
        ensures
            *final(self) == (App { script_logs: final(self).script_logs, ..*old(self) }),
            strs_view(final(self).script_logs@) == strs_view(old(self).script_logs@).push(line@),
    {
        self.script_logs.push(line);
        proof {
            assert(strs_view(self.script_logs@) =~= strs_view(old(self).script_logs@).push(line@));
        }
    }

    fn merge_runners(&mut self, fetched: Vec<Runner>)
        ensures
            *final(self) == (App {
                config: Config { runners: final(self).config.runners, ..old(self).config },
                ..*old(self)
            }),
            final(self).config.runners@ == runners_merged(old(self).config.runners@, fetched@),
    {
        let ghost fs = fetched@;
        let mut rest = fetched;
        let mut k: usize = 0;
        let n = rest.len();
        while rest.len() > 0
            invariant
                n == fs.len(),
                k <= n,
                rest@ == fs.skip(k as int),
                *self == (App { config: Config { runners: self.config.runners, ..old(self).config }, ..*old(self) }),
                self.config.runners@ == runners_merged(old(self).config.runners@, fs.take(k as int)),
            decreases rest@.len(),
        {
            let f = rest.remove(0);
            proof {
                assert(f == fs[k as int]);
                assert(fs.take(k + 1).drop_last() =~= fs.take(k as int));
                assert(fs.take(k + 1).last() == f);
                lemma_index_from_bounds_runner(self.config.runners@, f.id@, 0);
            }
            let ghost before = self.config.runners@;
            match find_runner(&self.config.runners, f.id.as_str()) {
                None => {
                    self.config.runners.push(f);
                    proof {
                        assert(self.config.runners@ == runner_merged(before, f));
                    }
                },
                Some(i) => {
                    let Runner { download_url, installed, .. } = f;
                    let mut r = self.config.runners.remove(i);
                    r.download_url = download_url;
                    r.installed = installed;
                    self.config.runners.insert(i, r);
                    proof {
                        assert(self.config.runners@ =~= before.update(
                            i as int,
                            Runner { download_url: f.download_url, installed: f.installed, ..before[i as int] },
                        ));
                        assert(self.config.runners@ == runner_merged(before, f));
                    }
                },
            }
            proof {
                assert(runners_merged(old(self).config.runners@, fs.take(k + 1)) == runner_merged(
                    runners_merged(old(self).config.runners@, fs.take(k as int)),
                    fs[k as int],
                ));
            }
            k = k + 1;
            proof {
                assert(rest@ =~= fs.skip(k as int));
            }
        }
        proof {
            assert(fs.take(n as int) =~= fs);
        }
    }

    fn game_started(&mut self, game_id: String, pid: u32) -> (e: Vec<Effect>)
        requires
            old(self).wf(),
        ensures
            event_post(*old(self), *final(self), e@, AppEvent::GameStarted { game_id, pid }),
            final(self).wf(),
            effects_valid(*final(self), e@),
            ids_distinct(old(self).config.games@) ==> ids_distinct(final(self).config.games@),
    {
        proof {
            lemma_index_from_bounds_game(self.config.games@, game_id@, 0);
        }
        let mut e: Vec<Effect> = Vec::new();
        match find_game(&self.config.games, game_id.as_str()) {
            Some(i) => {
                let mut g = self.config.games.remove(i);
                g.status = GameStatus::Running { pid, since: 0 };
                self.config.games.insert(i, g);
                proof {
                    assert(self.config.games@ =~= old(self).config.games@.update(
                        i as int,
                        self.config.games@[i as int],
                    ));
                    assert(game_changed(*old(self), *self, i as int));
                    lemma_ids_update(old(self).config.games@, i as int, self.config.games@[i as int]);
                }
                e.push(Effect::RecordGameLaunch { game_idx: i });
                proof {
                    assert(e@ =~= seq![Effect::RecordGameLaunch { game_idx: i }]);
                }
            },
            None => {},
        }
        e
    }

    fn game_finished(&mut self, game_id: String, exit_code: i32) -> (e: Vec<Effect>)
        requires
            old(self).wf(),
        ensures
            event_post(*old(self), *final(self), e@, AppEvent::GameFinished { game_id, exit_code }),
            final(self).wf(),
            effects_valid(*final(self), e@),
            ids_distinct(old(self).config.games@) ==> ids_distinct(final(self).config.games@),
    {
        proof {
            lemma_index_from_bounds_game(self.config.games@, game_id@, 0);
        }
        let mut e: Vec<Effect> = Vec::new();
        match find_game(&self.config.games, game_id.as_str()) {
            Some(i) => {
                let mut g = self.config.games.remove(i);
                let n = g.name.as_str().len();
                if exit_code == 0 {
                    g.status = GameStatus::Ready;
                } else {
                    let mut msg = string_from("Exit code ");
                    crate::text::push_signed_decimal(&mut msg, exit_code as i64);
                    g.status = GameStatus::Error(msg);
                }
                let avg: usize = 60 + ((n % 25) * 3) % 25;
                let max: usize = avg + 15 + n % 10;
                proof {
                    assert(((n % 25) * 3) % 25 == (n * 3) % 25) by (nonlinear_arith);
                }
                self.config.games.insert(i, g);
                proof {
                    assert(self.config.games@ =~= old(self).config.games@.update(
                        i as int,
                        self.config.games@[i as int],
                    ));
                }
                proof {
                    assert(game_changed(*old(self), *self, i as int));
                    lemma_ids_update(old(self).config.games@, i as int, self.config.games@[i as int]);
                    let g0 = old(self).config.games@[i as int];
                    assert(self.config.games@[i as int] == Game { status: self.config.games@[i as int].status, ..g0 });
                    assert(n == utf8_len(g0.name@));
                }
                e.push(Effect::RecordGameExit { game_idx: i, avg_fps: avg as u32, max_fps: max as u32 });
                e.push(Effect::SaveConfig);
                proof {
                    assert(e@ =~= seq![
                        Effect::RecordGameExit { game_idx: i, avg_fps: avg as u32, max_fps: max as u32 },
                        Effect::SaveConfig,
                    ]);
                }
            },
            None => {},
        }
        e
    }

    fn prefix_status_changed(&mut self, prefix_name: &str, status: String)
        requires
            old(self).wf(),
        ensures
            final(self).wf(),
            final(self).config == old(self).config,
            match prefix_index_from(old(self).custom_prefixes@, prefix_name@, 0) {
                Some(i) => {
                    &&& *final(self) == (App { custom_prefixes: final(self).custom_prefixes, ..*old(self) })
                    &&& final(self).custom_prefixes@ == old(self).custom_prefixes@.update(
                        i,
                        final(self).custom_prefixes@[i],
                    )
                    &&& final(self).custom_prefixes@[i] == (WinePrefix {
                        status: final(self).custom_prefixes@[i].status,
                        ..old(self).custom_prefixes@[i]
                    })
                    &&& final(self).custom_prefixes@[i].status@ == status@
                },
                None => *final(self) == *old(self),
            },
    {
        proof {
            lemma_index_from_bounds_prefix(self.custom_prefixes@, prefix_name@, 0);
        }
        match find_prefix(&self.custom_prefixes, prefix_name) {
            Some(i) => {
                let mut p = self.custom_prefixes.remove(i);
                p.status = status;
                self.custom_prefixes.insert(i, p);
                proof {
                    assert(self.custom_prefixes@ =~= old(self).custom_prefixes@.update(
                        i as int,
                        self.custom_prefixes@[i as int],
                    ));
                }
            },
            None => {},
        }
    }

    fn releases_fetched(&mut self, fetched: Vec<Runner>) -> (e: Vec<Effect>)
        requires
            old(self).wf(),
        ensures
            event_post(*old(self), *final(self), e@, AppEvent::ReleasesFetched(fetched)),
            final(self).wf(),
            effects_valid(*final(self), e@),
            ids_distinct(old(self).config.games@) ==> ids_distinct(final(self).config.games@),
    {
        let ghost fs = fetched@;
        self.merge_runners(fetched);
        proof {
            lemma_merge_keeps_and_adds(old(self).config.runners@, fs);
        }
        self.runner_state = RunnerState::Idle;
        let mut e: Vec<Effect> = Vec::new();
        e.push(Effect::SaveConfig);
        proof {
            assert(e@ =~= seq![Effect::SaveConfig]);
        }
        e
    }

    fn download_finished(&mut self, runner_id: String, path: String) -> (e: Vec<Effect>)
        requires
            old(self).wf(),
        ensures
            event_post(*old(self), *final(self), e@, AppEvent::DownloadFinished { runner_id, path }),
            final(self).wf(),
            effects_valid(*final(self), e@),
            ids_distinct(old(self).config.games@) ==> ids_distinct(final(self).config.games@),
    {
        proof {
            lemma_index_from_bounds_runner(self.config.runners@, runner_id@, 0);
        }
        match find_runner(&self.config.runners, runner_id.as_str()) {
            Some(i) => {
                let mut r = self.config.runners.remove(i);
                r.installed = true;
                r.path = path;
                self.config.runners.insert(i, r);
                proof {
                    assert(self.config.runners@ =~= old(self).config.runners@.update(
                        i as int,
                        Runner { installed: true, path, ..old(self).config.runners@[i as int] },
                    ));
                }
            },
            None => {},
        }
        let ours = match &self.downloading_runner_id {
            Some(d) => str_eq(d.as_str(), runner_id.as_str()),
            None => false,
        };
        if ours {
            self.downloading_runner_id = None;
            self.download_progress = 0;
        }
        self.runner_state = RunnerState::Idle;
        let mut e: Vec<Effect> = Vec::new();
        e.push(Effect::SaveConfig);
        proof {
            assert(e@ =~= seq![Effect::SaveConfig]);
        }
        e
    }

    fn prefix_init_finished(&mut self, prefix_name: String, success: bool, error: Option<String>)
        requires
            old(self).wf(),
        ensures
            event_post(
                *old(self),
                *final(self),
                Seq::empty(),
                AppEvent::PrefixInitFinished { prefix_name, success, error },
            ),
            final(self).wf(),
            final(self).config == old(self).config,
    {
        let status = if success {
            string_from("Ready")
        } else {
            let mut t = string_from("Error: ");
            match &error {
                Some(x) => t.append(x.as_str()),
                None => {},
            }
            proof {
                assert(t@ =~= init_error_text(crate::game::opt_view(error)));
            }
            t
        };
        self.prefix_status_changed(prefix_name.as_str(), status);
    }

    fn script_event(&mut self, ev: AppEvent) -> (e: Vec<Effect>)
        requires
            ev is ScriptStarted || ev is ScriptLine || ev is ScriptFinished,
        ensures
            event_post(*old(self), *final(self), e@, ev),
            final(self).config == old(self).config,
            final(self).custom_prefixes == old(self).custom_prefixes,
            final(self).active_modal == old(self).active_modal,
            final(self).winetricks_items == old(self).winetricks_items,
            final(self).selected_game_idx == old(self).selected_game_idx,
            final(self).selected_runner_idx == old(self).selected_runner_idx,
            final(self).selected_prefix_idx == old(self).selected_prefix_idx,
            final(self).selected_winetricks_idx == old(self).selected_winetricks_idx,
            e.len() == 0,
    {
        match ev {
            AppEvent::ScriptStarted => {
                self.script_running = true;
                self.push_script_line(string_from("Script execution started..."));
                self.push_onboarding_line(string_from("Script execution started..."), None);
            },
            AppEvent::ScriptLine(line) => {
                let copy = line.clone();
                self.push_script_line(line);
                self.push_onboarding_line(copy, None);
            },
            AppEvent::ScriptFinished(success) => {
                self.script_running = false;
                let msg = if success {
                    "Dependency installation completed successfully!"
                } else {
                    "Dependency installation script exited with errors."
                };
                self.push_script_line(string_from(msg));
                self.push_onboarding_line(string_from(msg), Some(success));
            },
            _ => {},
        }
        Vec::new()
    }

    fn installer_finished(&mut self, game_id: String, exec_path: String, wineprefix: String) -> (e: Vec<Effect>)
        requires
            old(self).wf(),
        ensures
            event_post(
                *old(self),
                *final(self),
                e@,
                AppEvent::InstallerFinished { game_id, exec_path, wineprefix },
            ),
            final(self).wf(),
            effects_valid(*final(self), e@),
            ids_distinct(old(self).config.games@) ==> ids_distinct(final(self).config.games@),
    {
        proof {
            lemma_index_from_bounds_game(self.config.games@, game_id@, 0);
        }
        let mut e: Vec<Effect> = Vec::new();
        match find_game(&self.config.games, game_id.as_str()) {
            Some(i) => {
                let mut g = self.config.games.remove(i);
                g.exec_path = exec_path;
                g.wineprefix = Some(wineprefix);
                g.is_installer = false;
                g.status = GameStatus::Ready;
                self.config.games.insert(i, g);
                proof {
                    assert(self.config.games@ =~= old(self).config.games@.update(
                        i as int,
                        self.config.games@[i as int],
                    ));
                    lemma_ids_update(old(self).config.games@, i as int, self.config.games@[i as int]);
                }
                e.push(Effect::SaveGame { game_idx: i });
                e.push(Effect::SaveConfig);
                proof {
                    assert(e@ =~= seq![Effect::SaveGame { game_idx: i }, Effect::SaveConfig]);
                }
            },
            None => {
                e.push(Effect::SaveConfig);
                proof {
                    assert(e@ =~= seq![Effect::SaveConfig]);
                }
            },
        }
        e
    }

    /// Takes an event from the background work. The returned effects are to
    /// be carried out in order, on the state that the call leaves.
    pub fn handle_event(&mut self, ev: AppEvent) -> (e: Vec<Effect>)
        requires
            old(self).wf(),
        ensures
            event_post(*old(self), *final(self), e@, ev),
            final(self).wf(),
            effects_valid(*final(self), e@),
            ids_distinct(old(self).config.games@) ==> ids_distinct(final(self).config.games@),
    {
        match ev {
            AppEvent::GameStarted { game_id, pid } => self.game_started(game_id, pid),
            AppEvent::GameFinished { game_id, exit_code } => self.game_finished(game_id, exit_code),
            AppEvent::ReleasesFetched(fetched) => self.releases_fetched(fetched),
            AppEvent::DownloadProgress(pct) => {
                self.download_progress = pct as u32;
                self.runner_state = RunnerState::Downloading(pct);
                Vec::new()
            },
            AppEvent::ExtractionStarted => {
                self.runner_state = RunnerState::Extracting;
                Vec::new()
            },
            AppEvent::DownloadFinished { runner_id, path } => self.download_finished(runner_id, path),
            AppEvent::DownloadError(err) => {
                self.runner_state = RunnerState::Error(err);
                self.downloading_runner_id = None;
                Vec::new()
            },
            AppEvent::PrefixInitStarted { prefix_name } => {
                self.prefix_status_changed(prefix_name.as_str(), string_from("Booting..."));
                Vec::new()
            },
            AppEvent::PrefixInitFinished { prefix_name, success, error } => {
                self.prefix_init_finished(prefix_name, success, error);
                Vec::new()
            },
            AppEvent::ScriptStarted => self.script_event(AppEvent::ScriptStarted),
            AppEvent::ScriptLine(line) => self.script_event(AppEvent::ScriptLine(line)),
            AppEvent::ScriptFinished(success) => self.script_event(AppEvent::ScriptFinished(success)),
            AppEvent::OnboardingScanFinished(res) => {
                let ob = self.onboarding.take();
                match ob {
                    Some(ob) => {
                        let mut ob = ob;
                        ob.step = crate::onboarding::OnboardingStep::ScanResult(res);
                        self.onboarding = Some(ob);
                    },
                    None => {},
                }
                Vec::new()
            },
            AppEvent::InstallerFinished { game_id, exec_path, wineprefix } => self.installer_finished(
                game_id,
                exec_path,
                wineprefix,
            ),
        }
    }
}

proof fn lemma_ids_update(games: Seq<Game>, i: int, g: Game)
    requires
        0 <= i < games.len(),
        g.id == games[i].id,
    ensures
        ids_distinct(games) ==> ids_distinct(games.update(i, g)),
{
    let u = games.update(i, g);
    if ids_distinct(games) {
        assert forall|a: int, b: int| 0 <= a < u.len() && 0 <= b < u.len() && a != b implies (#[trigger] u[a]).id@
            != (#[trigger] u[b]).id@ by {
            assert(u[a].id == games[a].id);
            assert(u[b].id == games[b].id);
        }
    }
}


// ---------------------------------------------------------------------------
// The clock
// ---------------------------------------------------------------------------
/// A game after one second: a running game has played one second more.
pub open spec fn ticked(g: Game) -> Game {
    if g.status is Running {
        Game { playtime_secs: (g.playtime_secs + 1) as u64, ..g }
    } else {
        g
    }
}

/// Whether no running game has reached the largest playing time.
pub open spec fn playtimes_can_grow(games: Seq<Game>) -> bool {
    forall|i: int| 0 <= i < games.len() && (#[trigger] games[i]).status is Running ==> games[i].playtime_secs < u64::MAX
}

/// The log line of a winetricks run at `timer` ticks from its end.
pub open spec fn winetricks_progress_line(timer: u32) -> Seq<char> {
    "Applying config override: block-"@ + crate::text::decimal(timer as nat) + "..."@
}

/// The log line of a winetricks verb that has been applied.
pub open spec fn winetricks_done_line(verb: Seq<char>) -> Seq<char> {
    "Winetricks: Verb '"@ + verb + "' applied successfully to prefix."@
}

/// After one second: every running game counts one more second of play,
/// and a running winetricks verb counts down, logging every even count, and
/// ends with a log line when the count reaches one.
pub open spec fn tick_post(s: App, t: App) -> bool {
    &&& t.config.games@.len() == s.config.games@.len()
    &&& forall|i: int| 0 <= i < s.config.games@.len() ==> #[trigger] t.config.games@[i] == ticked(s.config.games@[i])
    &&& if s.winetricks_running && s.winetricks_timer is Some {
        let timer = s.winetricks_timer->0;
        if timer > 1 {
            &&& t == App {
                config: Config { games: t.config.games, ..s.config },
                winetricks_timer: Some((timer - 1) as u32),
                winetricks_logs: t.winetricks_logs,
                ..s
            }
            &&& strs_view(t.winetricks_logs@) == if timer % 2 == 0 {
                strs_view(s.winetricks_logs@).push(winetricks_progress_line(timer))
            } else {
                strs_view(s.winetricks_logs@)
            }
        } else {
            &&& t == App {
                config: Config { games: t.config.games, ..s.config },
                winetricks_running: false,
                winetricks_timer: None,
                winetricks_logs: t.winetricks_logs,
                ..s
            }
            &&& strs_view(t.winetricks_logs@) == strs_view(s.winetricks_logs@).push(
                winetricks_done_line(s.winetricks_items@[s.selected_winetricks_idx as int].0@),
            )
        }
    } else {
        t == App { config: Config { games: t.config.games, ..s.config }, ..s }
    }
}

/// A winetricks run that starts with its timer at 5, as starting a verb
/// sets it, is still running after four ticks (timer at 1) and ends at the
/// fifth, having logged `block-4`, `block-2` and the success line of the
/// selected verb, in that order.
pub proof fn lemma_winetricks_run_takes_five_ticks(
    s0: App,
    s1: App,
    s2: App,
    s3: App,
    s4: App,
    s5: App,
)
    requires
        s0.winetricks_running,
        s0.winetricks_timer == Some(5u32),
        tick_post(s0, s1),
        tick_post(s1, s2),
        tick_post(s2, s3),
        tick_post(s3, s4),
        tick_post(s4, s5),
    ensures
        s1.winetricks_running && s2.winetricks_running && s3.winetricks_running,
        s4.winetricks_running && s4.winetricks_timer == Some(1u32),
        !s5.winetricks_running && s5.winetricks_timer is None,
        strs_view(s5.winetricks_logs@) == strs_view(s0.winetricks_logs@) + seq![
            winetricks_progress_line(4),
            winetricks_progress_line(2),
            winetricks_done_line(s0.winetricks_items@[s0.selected_winetricks_idx as int].0@),
        ],
{
    assert(strs_view(s5.winetricks_logs@) =~= strs_view(s0.winetricks_logs@) + seq![
        winetricks_progress_line(4),
        winetricks_progress_line(2),
        winetricks_done_line(s0.winetricks_items@[s0.selected_winetricks_idx as int].0@),
    ]);
}

impl App {
    fn tick_games(&mut self)
        requires
            playtimes_can_grow(old(self).config.games@),
        ensures
            *final(self) == (App { config: Config { games: final(self).config.games, ..old(self).config }, ..*old(self) }),
            final(self).config.games@.len() == old(self).config.games@.len(),
            forall|i: int|
                0 <= i < old(self).config.games@.len() ==> #[trigger] final(self).config.games@[i] == ticked(
                    old(self).config.games@[i],
                ),
    {
        let n = self.config.games.len();
        let mut i: usize = 0;
        while i < n
            invariant
                n == old(self).config.games@.len(),
                i <= n,
                playtimes_can_grow(old(self).config.games@),
                *self == (App { config: Config { games: self.config.games, ..old(self).config }, ..*old(self) }),
                self.config.games@.len() == n,
                forall|k: int| 0 <= k < i ==> #[trigger] self.config.games@[k] == ticked(old(self).config.games@[k]),
                forall|k: int| i <= k < n ==> #[trigger] self.config.games@[k] == old(self).config.games@[k],
            decreases n - i,
        {
            let mut g = self.config.games.remove(i);
            if g.status.is_running() {
                g.playtime_secs = g.playtime_secs + 1;
            }
            self.config.games.insert(i, g);
            proof {
                assert forall|k: int| 0 <= k < i + 1 implies #[trigger] self.config.games@[k] == ticked(
                    old(self).config.games@[k],
                ) by {
                    if k < i {
                    }
                }
            }
            i = i + 1;
        }
    }

    /// Counts one second: playing time of running games, and the winetricks
    /// countdown.
    pub fn tick(&mut self)
        requires
            old(self).wf(),
            playtimes_can_grow(old(self).config.games@),
        ensures
            tick_post(*old(self), *final(self)),
            final(self).wf(),
            ids_distinct(old(self).config.games@) ==> ids_distinct(final(self).config.games@),
    {
        self.tick_games();
        proof {
            let og = old(self).config.games@;
            let ng = self.config.games@;
            if ids_distinct(og) {
                assert forall|a: int, b: int| 0 <= a < ng.len() && 0 <= b < ng.len() && a != b implies (#[trigger] ng[a]).id@
                    != (#[trigger] ng[b]).id@ by {
                    assert(ng[a] == ticked(og[a]));
                    assert(ng[b] == ticked(og[b]));
                }
            }
        }
        if self.winetricks_running {
            match self.winetricks_timer {
                Some(timer) => {
                    if timer > 1 {
                        self.winetricks_timer = Some(timer - 1);
                        if timer % 2 == 0 {
                            let mut line = string_from("Applying config override: block-");
                            push_decimal(&mut line, timer as u64);
                            line.append("...");
                            let ghost before = self.winetricks_logs@;
                            self.winetricks_logs.push(line);
                            proof {
                                assert(line@ =~= winetricks_progress_line(timer));
                                assert(strs_view(self.winetricks_logs@) =~= strs_view(before).push(
                                    winetricks_progress_line(timer),
                                ));
                            }
                        }
                    } else {
                        self.winetricks_running = false;
                        self.winetricks_timer = None;
                        let mut line = string_from("Winetricks: Verb '");
                        line.append(self.winetricks_items[self.selected_winetricks_idx].0.as_str());
                        line.append("' applied successfully to prefix.");
                        let ghost before = self.winetricks_logs@;
                        self.winetricks_logs.push(line);
                        proof {
                            assert(line@ =~= winetricks_done_line(
                                old(self).winetricks_items@[old(self).selected_winetricks_idx as int].0@,
                            ));
                            assert(strs_view(self.winetricks_logs@) =~= strs_view(before).push(
                                winetricks_done_line(
                                    old(self).winetricks_items@[old(self).selected_winetricks_idx as int].0@,
                                ),
                            ));
                        }
                    }
                },
                None => {},
            }
        }
    }
}

// ---------------------------------------------------------------------------
// Start
// ---------------------------------------------------------------------------
/// The winetricks verbs offered, with their descriptions.
pub open spec fn winetricks_catalog() -> Seq<(Seq<char>, Seq<char>)> {
    seq![
        ("winecfg"@, "Configure Wine prefix settings"@),
        ("winemine"@, "Launch WineMine"@),
        ("dxvk"@, "Install/Update DXVK in prefix"@),
        ("vkd3d"@, "Install/Update VKD3D-Proton in prefix"@),
        ("d3dcompiler_47"@, "Install d3dcompiler_47 DLL overrides"@),
        ("vcrun2015"@, "Install MSVC 2015 Redistributable"@),
    ]
}

/// Whether `a` is the state in which the launcher starts.
pub open spec fn is_initial(a: App, config: Config, prefixes: Seq<WinePrefix>, home: Seq<char>) -> bool {
    &&& a.config.default_wineprefix == config.default_wineprefix
    &&& a.config.runner_download_dir == config.runner_download_dir
    &&& a.config.games == config.games
    &&& a.config.runners == config.runners
    &&& a.focus == PaneFocus::LeftMenu
    &&& a.menu_index == 0
    &&& a.selected_game_idx == 0
    &&& a.selected_runner_idx == 0
    &&& a.selected_prefix_idx == 0
    &&& a.selected_winetricks_idx == 0
    &&& a.selected_settings_idx == 0
    &&& a.selected_metadata_idx == 0
    &&& a.downloading_runner_id is None
    &&& a.download_progress == 0
    &&& a.winetricks_items@.map_values(|p: (String, String)| (p.0@, p.1@)) == winetricks_catalog()
    &&& strs_view(a.winetricks_logs@) == seq!["LGTUI Winetricks console initialized..."@]
    &&& !a.winetricks_running
    &&& a.winetricks_timer is None
    &&& a.settings_items@.len() == 4
    &&& a.settings_items@[0].0@ == "Default Wineprefix Directory"@
    &&& a.settings_items@[0].1@ == config.default_wineprefix@
    &&& !a.settings_items@[0].2
    &&& a.settings_items@[1].0@ == "Runner Download Cache"@
    &&& a.settings_items@[1].1@ == config.runner_download_dir@
    &&& !a.settings_items@[1].2
    &&& a.settings_items@[2].0@ == "Enable MangoHud Globally"@
    &&& a.settings_items@[2].1@ == "Enabled"@
    &&& a.settings_items@[2].2
    &&& a.settings_items@[3].0@ == "Enable GameMode Globally"@
    &&& a.settings_items@[3].1@ == "Disabled"@
    &&& a.settings_items@[3].2
    &&& a.custom_prefixes@ == prefixes
    &&& a.active_modal is None
    &&& strs_view(a.script_logs@) == seq!["LGTUI Dependency Installer ready. Press [Enter] to run script."@]
    &&& !a.script_running
    &&& a.script_path@ == join_path(home, ".config/lgtui/install_deps.sh"@)
    &&& !a.should_quit
    &&& a.runner_state == RunnerState::FetchingReleases
    &&& a.onboarding is None
    &&& a.home@ == home
}

fn pair(a: &str, b: &str) -> (r: (String, String))
    ensures
        r.0@ == a@,
        r.1@ == b@,
{
    (string_from(a), string_from(b))
}

impl App {
    /// The state in which the launcher starts, with the stored
    /// configuration and prefixes, under the home directory `home`. The
    /// runner list shows that releases are being fetched.
    pub fn new(config: Config, custom_prefixes: Vec<WinePrefix>, home: String) -> (a: App)
        ensures
            is_initial(a, config, custom_prefixes@, home@),
            a.wf(),
    {
        let mut winetricks_items: Vec<(String, String)> = Vec::new();
        winetricks_items.push(pair("winecfg", "Configure Wine prefix settings"));
        winetricks_items.push(pair("winemine", "Launch WineMine"));
        winetricks_items.push(pair("dxvk", "Install/Update DXVK in prefix"));
        winetricks_items.push(pair("vkd3d", "Install/Update VKD3D-Proton in prefix"));
        winetricks_items.push(pair("d3dcompiler_47", "Install d3dcompiler_47 DLL overrides"));
        winetricks_items.push(pair("vcrun2015", "Install MSVC 2015 Redistributable"));
        proof {
            assert(winetricks_items@.map_values(|p: (String, String)| (p.0@, p.1@)) =~= winetricks_catalog());
        }
        let mut settings_items: Vec<(String, String, bool)> = Vec::new();
        settings_items.push(
            (
                string_from("Default Wineprefix Directory"),
                config.default_wineprefix.clone(),
                false,
            ),
        );
        settings_items.push(
            (string_from("Runner Download Cache"), config.runner_download_dir.clone(), false),
        );
        settings_items.push(
            (string_from("Enable MangoHud Globally"), string_from("Enabled"), true),
        );
        settings_items.push(
            (string_from("Enable GameMode Globally"), string_from("Disabled"), true),
        );
        let mut winetricks_logs: Vec<String> = Vec::new();
        winetricks_logs.push(string_from("LGTUI Winetricks console initialized..."));
        let mut script_logs: Vec<String> = Vec::new();
        script_logs.push(
            string_from("LGTUI Dependency Installer ready. Press [Enter] to run script."),
        );
        proof {
            assert(strs_view(winetricks_logs@) =~= seq!["LGTUI Winetricks console initialized..."@]);
            assert(strs_view(script_logs@) =~= seq![
                "LGTUI Dependency Installer ready. Press [Enter] to run script."@,
            ]);
        }
        let script_path = join_path_exec(home.as_str(), ".config/lgtui/install_deps.sh");
        let onboarding = if crate::onboarding::needs_onboarding() {
            Some(
                OnboardingState {
                    step: crate::onboarding::OnboardingStep::Welcome,
                    selected_yes: true,
                },
            )
        } else {
            None
        };
        App {
            config,
            focus: PaneFocus::LeftMenu,
            menu_index: 0,
            selected_game_idx: 0,
            selected_runner_idx: 0,
            selected_prefix_idx: 0,
            selected_winetricks_idx: 0,
            selected_settings_idx: 0,
            selected_metadata_idx: 0,
            downloading_runner_id: None,
            download_progress: 0,
            winetricks_items,
            winetricks_logs,
            winetricks_running: false,
            winetricks_timer: None,
            settings_items,
            custom_prefixes,
            active_modal: None,
            script_logs,
            script_running: false,
            script_path,
            should_quit: false,
            runner_state: RunnerState::FetchingReleases,
            onboarding,
            home,
        }
    }
}

// ---------------------------------------------------------------------------
// Laws of the state machine, over the contracts of its steps
// ---------------------------------------------------------------------------
proof fn lemma_first_game_with_id(gs: Seq<Game>, id: Seq<char>, start: int, i: int)
    requires
        0 <= start <= i < gs.len(),
        gs[i].id@ == id,
        forall|j: int| start <= j < i ==> (#[trigger] gs[j]).id@ != id,
    ensures
        game_index_from(gs, id, start) == Some(i),
    decreases i - start,
{
    if start < i {
        lemma_first_game_with_id(gs, id, start + 1, i);
    }
}

proof fn lemma_first_prefix_named(ps: Seq<WinePrefix>, name: Seq<char>, start: int, i: int)
    requires
        0 <= start <= i < ps.len(),
        ps[i].name@ == name,
        forall|j: int| start <= j < i ==> (#[trigger] ps[j]).name@ != name,
    ensures
        prefix_index_from(ps, name, start) == Some(i),
    decreases i - start,
{
    if start < i {
        lemma_first_prefix_named(ps, name, start + 1, i);
    }
}

/// Whether an effect removes a directory.
pub open spec fn removes_directory(x: Effect) -> bool {
    x is RemoveDirectory
}

/// In the prefix-deletion dialog, a directory is removed only when the
/// answer to the question about the prefix's files is yes (Enter, `y` or
/// `Y`). Answering `n` or `N` there removes the prefix from the list and
/// its record, keeps its directory, and closes the dialog.
pub proof fn lemma_prefix_files_kept_unless_confirmed(
    s: App,
    t: App,
    e: Seq<Effect>,
    key: Key,
    d: bool,
    idx: usize,
    files: bool,
    prompt: bool,
)
    requires
        key_post(s, t, e, key, d),
        s.onboarding is None,
        s.active_modal == Some(
            ActiveModal::DeletePrefix { prefix_idx: idx, delete_files: files, prompt_delete_files: prompt },
        ),
        idx < s.custom_prefixes@.len(),
    ensures
        (exists|k: int| 0 <= k < e.len() && removes_directory(#[trigger] e[k])) ==> prompt && (key
            == Key::Enter || key == Key::Char('y') || key == Key::Char('Y')),
        prompt && (key == Key::Char('n') || key == Key::Char('N')) ==> {
            &&& e == seq![Effect::DeletePrefix { name: s.custom_prefixes@[idx as int].name }]
            &&& t.custom_prefixes@ == s.custom_prefixes@.remove(idx as int)
            &&& t.active_modal is None
        },
        prompt && (key == Key::Enter || key == Key::Char('y') || key == Key::Char('Y')) ==> e == seq![
            Effect::DeletePrefix { name: s.custom_prefixes@[idx as int].name },
            Effect::RemoveDirectory { path: s.custom_prefixes@[idx as int].path },
        ],
{
    if prompt && (key == Key::Char('n') || key == Key::Char('N')) {
        assert(e =~= seq![Effect::DeletePrefix { name: s.custom_prefixes@[idx as int].name }]);
    }
    if prompt && (key == Key::Enter || key == Key::Char('y') || key == Key::Char('Y')) {
        assert(e =~= seq![
            Effect::DeletePrefix { name: s.custom_prefixes@[idx as int].name },
            Effect::RemoveDirectory { path: s.custom_prefixes@[idx as int].path },
        ]);
    }
    if !(prompt && (key == Key::Enter || key == Key::Char('y') || key == Key::Char('Y'))) {
        assert forall|k: int| 0 <= k < e.len() implies !removes_directory(#[trigger] e[k]) by {
            if prompt && (key == Key::Char('n') || key == Key::Char('N')) {
                assert(e[0] == Effect::DeletePrefix { name: s.custom_prefixes@[idx as int].name });
            }
        }
    }
}

/// In the game-deletion dialog, the game's prefix directory is removed only
/// after yes (Enter, `y` or `Y`) at the question about the prefix; Esc,
/// `n` or `N` there deletes the game and keeps its prefix directory.
pub proof fn lemma_game_prefix_kept_unless_confirmed(
    s: App,
    t: App,
    e: Seq<Effect>,
    key: Key,
    d: bool,
    idx: usize,
    del: bool,
    prompt: bool,
)
    requires
        key_post(s, t, e, key, d),
        s.onboarding is None,
        s.active_modal == Some(
            ActiveModal::DeleteGame { game_idx: idx, delete_prefix: del, prompt_prefix: prompt },
        ),
        idx < s.config.games@.len(),
    ensures
        (exists|k: int| 0 <= k < e.len() && removes_directory(#[trigger] e[k])) ==> prompt && (key
            == Key::Enter || key == Key::Char('y') || key == Key::Char('Y')),
        prompt && (key == Key::Esc || key == Key::Char('n') || key == Key::Char('N')) ==> {
            &&& e == seq![Effect::DeleteGame { game_id: s.config.games@[idx as int].id }, Effect::SaveConfig]
            &&& t.config.games@ == s.config.games@.remove(idx as int)
            &&& t.active_modal is None
        },
{
    if prompt && (key == Key::Esc || key == Key::Char('n') || key == Key::Char('N')) {
        assert(e =~= seq![Effect::DeleteGame { game_id: s.config.games@[idx as int].id }, Effect::SaveConfig]);
    }
    if !(prompt && (key == Key::Enter || key == Key::Char('y') || key == Key::Char('Y'))) {
        assert forall|k: int| 0 <= k < e.len() implies !removes_directory(#[trigger] e[k]) by {
            if e.len() > 0 {
                assert(e.len() == 2);
                assert(e[0] is DeleteGame && e[1] is SaveConfig);
            }
        }
    }
}

/// Space on a switch of the add-game dialog flips exactly the option that
/// the switch names and keeps every other field of the dialog.
pub proof fn lemma_space_flips_the_focused_switch(
    s: App,
    t: App,
    e: Seq<Effect>,
    d: bool,
    m: AddGameModalState,
)
    requires
        key_post(s, t, e, Key::Char(' '), d),
        s.onboarding is None,
        s.active_modal == Some(ActiveModal::AddGame(m)),
        m.focus == AddGameFocus::Dxvk || m.focus == AddGameFocus::Vkd3d || m.focus
            == AddGameFocus::MangoHud || m.focus == AddGameFocus::GameMode || m.focus
            == AddGameFocus::IsInstaller,
    ensures
        e.len() == 0,
        t == with_modal(s, t.active_modal),
        t.active_modal matches Some(ActiveModal::AddGame(m2)) && {
            &&& m2.dxvk == (if m.focus == AddGameFocus::Dxvk { !m.dxvk } else { m.dxvk })
            &&& m2.vkd3d == (if m.focus == AddGameFocus::Vkd3d { !m.vkd3d } else { m.vkd3d })
            &&& m2.mangohud == (if m.focus == AddGameFocus::MangoHud { !m.mangohud } else { m.mangohud })
            &&& m2.gamemode == (if m.focus == AddGameFocus::GameMode { !m.gamemode } else { m.gamemode })
            &&& m2.is_installer == (if m.focus == AddGameFocus::IsInstaller {
                !m.is_installer
            } else {
                m.is_installer
            })
            &&& m2.title == m.title
            &&& m2.exec_path == m.exec_path
            &&& m2.prefix_name == m.prefix_name
            &&& m2.prefix_edited == m.prefix_edited
            &&& m2.selected_runner_idx == m.selected_runner_idx
            &&& m2.focus == m.focus
        },
{
}

/// When a game's run ends, the first game with its identifier is ready
/// again if the exit code is 0, and shows `Exit code N` as its error
/// otherwise; nothing else of the library changes, and the session is
/// recorded for that game before the configuration is stored.
pub proof fn lemma_finished_game_status(
    s: App,
    t: App,
    e: Seq<Effect>,
    game_id: String,
    exit_code: i32,
    i: int,
)
    requires
        event_post(s, t, e, AppEvent::GameFinished { game_id, exit_code }),
        0 <= i < s.config.games@.len(),
        s.config.games@[i].id@ == game_id@,
        forall|j: int| 0 <= j < i ==> (#[trigger] s.config.games@[j]).id@ != game_id@,
    ensures
        exit_code == 0 ==> t.config.games@[i].status == GameStatus::Ready,
        exit_code != 0 ==> (t.config.games@[i].status matches GameStatus::Error(msg) && msg@
            == "Exit code "@ + crate::text::signed_decimal(exit_code as int)),
        t.config.games@[i] == (Game { status: t.config.games@[i].status, ..s.config.games@[i] }),
        t.config.games@.len() == s.config.games@.len(),
        forall|j: int| 0 <= j < s.config.games@.len() && j != i ==> t.config.games@[j] == s.config.games@[j],
        e.len() == 2,
        e[0] matches Effect::RecordGameExit { game_idx, .. } && game_idx == i as usize,
        e[1] == Effect::SaveConfig,
{
    lemma_first_game_with_id(s.config.games@, game_id@, 0, i);
}

/// When the boot of a prefix ends, the first prefix of that name is
/// `Ready` on success and shows `Error: ` and the error otherwise; nothing
/// else changes and no effect follows.
pub proof fn lemma_prefix_init_status(
    s: App,
    t: App,
    e: Seq<Effect>,
    prefix_name: String,
    success: bool,
    error: Option<String>,
    i: int,
)
    requires
        event_post(s, t, e, AppEvent::PrefixInitFinished { prefix_name, success, error }),
        0 <= i < s.custom_prefixes@.len(),
        s.custom_prefixes@[i].name@ == prefix_name@,
        forall|j: int| 0 <= j < i ==> (#[trigger] s.custom_prefixes@[j]).name@ != prefix_name@,
    ensures
        success ==> t.custom_prefixes@[i].status@ == "Ready"@,
        !success ==> t.custom_prefixes@[i].status@ == "Error: "@ + match error {
            Some(x) => x@,
            None => Seq::empty(),
        },
        t.custom_prefixes@[i] == (WinePrefix { status: t.custom_prefixes@[i].status, ..s.custom_prefixes@[i] }),
        t.custom_prefixes@.len() == s.custom_prefixes@.len(),
        forall|j: int|
            0 <= j < s.custom_prefixes@.len() && j != i ==> t.custom_prefixes@[j] == s.custom_prefixes@[j],
        e.len() == 0,
{
    lemma_first_prefix_named(s.custom_prefixes@, prefix_name@, 0, i);
}

/// A tick adds one second of play time to exactly the running games; every
/// other game, and every other field of every game, stays as it was.
pub proof fn lemma_tick_counts_running_games_only(s: App, t: App)
    requires
        tick_post(s, t),
        playtimes_can_grow(s.config.games@),
    ensures
        t.config.games@.len() == s.config.games@.len(),
        forall|i: int|
            0 <= i < s.config.games@.len() ==> {
                let g = #[trigger] s.config.games@[i];
                &&& t.config.games@[i].playtime_secs == if g.status is Running {
                    g.playtime_secs + 1
                } else {
                    g.playtime_secs as int
                }
                &&& t.config.games@[i] == (Game { playtime_secs: t.config.games@[i].playtime_secs, ..g })
            },
{
    assert forall|i: int| 0 <= i < s.config.games@.len() implies {
        let g = #[trigger] s.config.games@[i];
        &&& t.config.games@[i].playtime_secs == if g.status is Running {
            g.playtime_secs + 1
        } else {
            g.playtime_secs as int
        }
        &&& t.config.games@[i] == (Game { playtime_secs: t.config.games@[i].playtime_secs, ..g })
    } by {
        assert(t.config.games@[i] == ticked(s.config.games@[i]));
    }
}

/// Space in the game details flips exactly the option under the cursor of
/// the selected game (DXVK, VKD3D, MangoHud, GameMode, in that order) and
/// stores the game and the configuration; the other games, and the other
/// fields of the selected one, stay as they were.
pub proof fn lemma_details_space_flips_one_option(s: App, t: App, e: Seq<Effect>, d: bool)
    requires
        key_post(s, t, e, Key::Char(' '), d),
        s.onboarding is None,
        s.active_modal is None,
        s.focus == PaneFocus::MetadataPanel,
        s.spec_current_menu() == MenuItem::Library,
        s.selected_game_idx < s.config.games@.len(),
        s.selected_metadata_idx <= 3,
    ensures
        ({
            let i = s.selected_game_idx as int;
            let k = s.selected_metadata_idx;
            let g = s.config.games@[i];
            let h = t.config.games@[i];
            &&& t.config.games@.len() == s.config.games@.len()
            &&& forall|j: int| 0 <= j < s.config.games@.len() && j != i ==> t.config.games@[j] == s.config.games@[j]
            &&& h.dxvk == (if k == 0 { !g.dxvk } else { g.dxvk })
            &&& h.vkd3d == (if k == 1 { !g.vkd3d } else { g.vkd3d })
            &&& h.mangohud == (if k == 2 { !g.mangohud } else { g.mangohud })
            &&& h.gamemode == (if k == 3 { !g.gamemode } else { g.gamemode })
            &&& h == (Game { dxvk: h.dxvk, vkd3d: h.vkd3d, mangohud: h.mangohud, gamemode: h.gamemode, ..g })
            &&& e == seq![Effect::SaveGame { game_idx: s.selected_game_idx }, Effect::SaveConfig]
        }),
{
}

/// When a game starts, the first game with its identifier is shown running
/// with the reported process, its launch is recorded, and nothing else
/// changes.
pub proof fn lemma_started_game_runs(
    s: App,
    t: App,
    e: Seq<Effect>,
    game_id: String,
    pid: u32,
    i: int,
)
    requires
        event_post(s, t, e, AppEvent::GameStarted { game_id, pid }),
        0 <= i < s.config.games@.len(),
        s.config.games@[i].id@ == game_id@,
        forall|j: int| 0 <= j < i ==> (#[trigger] s.config.games@[j]).id@ != game_id@,
    ensures
        t.config.games@[i].status == (GameStatus::Running { pid, since: 0 }),
        t.config.games@[i] == (Game { status: t.config.games@[i].status, ..s.config.games@[i] }),
        t.config.games@.len() == s.config.games@.len(),
        forall|j: int| 0 <= j < s.config.games@.len() && j != i ==> t.config.games@[j] == s.config.games@[j],
        e == seq![Effect::RecordGameLaunch { game_idx: i as usize }],
{
    lemma_first_game_with_id(s.config.games@, game_id@, 0, i);
}

/// When a download finishes, the first runner with its identifier is
/// installed at the reported path, the other runners stay as they were,
/// and the runner list is idle again; the download in progress is cleared
/// exactly when it is the one that finished.
pub proof fn lemma_finished_download_installs(
    s: App,
    t: App,
    e: Seq<Effect>,
    runner_id: String,
    path: String,
    i: int,
)
    requires
        event_post(s, t, e, AppEvent::DownloadFinished { runner_id, path }),
        0 <= i < s.config.runners@.len(),
        s.config.runners@[i].id@ == runner_id@,
        forall|j: int| 0 <= j < i ==> (#[trigger] s.config.runners@[j]).id@ != runner_id@,
    ensures
        t.config.runners@[i].installed,
        t.config.runners@[i].path == path,
        t.config.runners@[i] == (Runner {
            installed: true,
            path: t.config.runners@[i].path,
            ..s.config.runners@[i]
        }),
        t.config.runners@.len() == s.config.runners@.len(),
        forall|j: int|
            0 <= j < s.config.runners@.len() && j != i ==> t.config.runners@[j] == s.config.runners@[j],
        t.runner_state == RunnerState::Idle,
        (s.downloading_runner_id matches Some(x) && x@ == runner_id@) ==> t.downloading_runner_id is None
            && t.download_progress == 0,
        !(s.downloading_runner_id matches Some(x) && x@ == runner_id@) ==> t.downloading_runner_id
            == s.downloading_runner_id,
        e == seq![Effect::SaveConfig],
{
    lemma_first_runner_with_id(s.config.runners@, runner_id@, 0, i);
}

proof fn lemma_first_runner_with_id(rs: Seq<Runner>, id: Seq<char>, start: int, i: int)
    requires
        0 <= start <= i < rs.len(),
        rs[i].id@ == id,
        forall|j: int| start <= j < i ==> (#[trigger] rs[j]).id@ != id,
    ensures
        runner_index_from(rs, id, start) == Some(i),
    decreases i - start,
{
    if start < i {
        lemma_first_runner_with_id(rs, id, start + 1, i);
    }
}

/// When the dependency script ends, it no longer counts as running, and
/// its log gains one line: the success line when it succeeded, the error
/// line otherwise.
pub proof fn lemma_script_end_logged(s: App, t: App, e: Seq<Effect>, success: bool)
    requires
        event_post(s, t, e, AppEvent::ScriptFinished(success)),
    ensures
        !t.script_running,
        t.script_logs@.len() == s.script_logs@.len() + 1,
        forall|j: int| 0 <= j < s.script_logs@.len() ==> t.script_logs@[j]@ == s.script_logs@[j]@,
        success ==> t.script_logs@.last()@ == "Dependency installation completed successfully!"@,
        !success ==> t.script_logs@.last()@ == "Dependency installation script exited with errors."@,
        e.len() == 0,
{
    assert(strs_view(t.script_logs@).len() == t.script_logs@.len());
    assert forall|j: int| 0 <= j < s.script_logs@.len() implies t.script_logs@[j]@ == s.script_logs@[j]@ by {
        assert(strs_view(t.script_logs@)[j] == strs_view(s.script_logs@)[j]);
    }
    assert(strs_view(t.script_logs@)[t.script_logs@.len() - 1] == t.script_logs@.last()@);
}

/// A game added through the dialog takes the dialog's settings: the title
/// and path without surrounding space, the four options and the installer
/// mark as set, no arguments, no play time, ready to play; the games
/// already there stay as they were.
pub proof fn lemma_added_game_takes_dialog_settings(
    s: App,
    t: App,
    e: Seq<Effect>,
    d: bool,
    m: AddGameModalState,
)
    requires
        key_post(s, t, e, Key::Enter, d),
        s.onboarding is None,
        s.active_modal == Some(ActiveModal::AddGame(m)),
        !is_blank(m.title@),
        crate::naming::valid_exec_path(m.exec_path@),
    ensures
        t.config.games@.len() == s.config.games@.len() + 1,
        forall|j: int| 0 <= j < s.config.games@.len() ==> t.config.games@[j] == s.config.games@[j],
        ({
            let g = t.config.games@.last();
            &&& g.name@ == crate::text::trim(m.title@)
            &&& g.exec_path@ == crate::text::trim(m.exec_path@)
            &&& g.dxvk == m.dxvk
            &&& g.vkd3d == m.vkd3d
            &&& g.mangohud == m.mangohud
            &&& g.gamemode == m.gamemode
            &&& g.is_installer == m.is_installer
            &&& g.args@.len() == 0
            &&& g.playtime_secs == 0
            &&& g.status == GameStatus::Ready
        }),
        t.active_modal is None,
{
    assert forall|j: int| 0 <= j < s.config.games@.len() implies t.config.games@[j] == s.config.games@[j] by {
        assert(t.config.games@.drop_last()[j] == t.config.games@[j]);
    }
}

} // verus!
