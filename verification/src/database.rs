use vstd::prelude::*;

use crate::game::{opt_view, strs_view, Config, Game, GameStatus, Runner};
use crate::prefix::{prefix_status, prefix_status_text, WinePrefix};
use crate::text::{join_path, join_path_exec, string_from};

verus! {

#[verifier::external_type_specification]
#[verifier::external_body]
pub struct ExJsonError(serde_json::Error);

/// The JSON text that `serde_json::to_string` writes for a list of strings.
pub uninterp spec fn json_of_strings(args: Seq<Seq<char>>) -> Seq<char>;

/// What `serde_json::from_str` reads from a text as a list of strings:
/// `None` where the text is not a JSON array of strings.
pub uninterp spec fn strings_of_json(text: Seq<char>) -> Option<Seq<Seq<char>>>;

/// `serde_json::to_string` on a list of strings. Writing strings into an
/// in-memory buffer cannot fail, so the call succeeds; its text is named by
/// `json_of_strings`.
#[verifier::external_body]
fn args_to_json(args: &Vec<String>) -> (r: Result<String, serde_json::Error>)
    ensures
        r.is_ok(),
        r.is_ok() ==> r.unwrap()@ == json_of_strings(strs_view(args@)),
{
    serde_json::to_string(args)
}

/// `serde_json::from_str` into a list of strings. It succeeds exactly where
/// `strings_of_json` has a value, and gives that value; it reads back what
/// `serde_json::to_string` wrote for a list of strings.
#[verifier::external_body]
fn args_from_json(text: &str) -> (r: Result<Vec<String>, serde_json::Error>)
    ensures
        r.is_ok() == strings_of_json(text@).is_some(),
        r.is_ok() ==> strs_view(r.unwrap()@) == strings_of_json(text@).unwrap(),
        forall|x: Seq<Seq<char>>|
            #[trigger] json_of_strings(x) == text@ ==> (r.is_ok() && strs_view(r.unwrap()@) == x),
{
    serde_json::from_str::<Vec<String>>(text)
}

/// The arguments that a stored `args` column holds: none where the column
/// is empty or is not a JSON list of strings.
pub open spec fn decoded_args(column: Option<Seq<char>>) -> Seq<Seq<char>> {
    match column {
        Some(text) => match strings_of_json(text) {
            Some(v) => v,
            None => Seq::empty(),
        },
        None => Seq::empty(),
    }
}

/// The `args` column written for a list of arguments.
pub fn encode_args(args: &Vec<String>) -> (r: String)
    ensures
        r@ == json_of_strings(strs_view(args@)),
{
    match args_to_json(args) {
        Ok(s) => s,
        Err(_) => string_from("[]"),
    }
}

/// The arguments read from an `args` column.
pub fn decode_args(column: Option<String>) -> (r: Vec<String>)
    ensures
        strs_view(r@) == decoded_args(opt_view(column)),
        forall|x: Seq<Seq<char>>|
            #[trigger] json_of_strings(x) == (match column {
                Some(s) => s@,
                None => Seq::empty(),
            }) && column is Some ==> strs_view(r@) == x,
{
    match column {
        Some(text) => match args_from_json(text.as_str()) {
            Ok(v) => v,
            Err(_) => {
                let v: Vec<String> = Vec::new();
                assert(strs_view(v@) =~= Seq::<Seq<char>>::empty());
                v
            },
        },
        None => {
            let v: Vec<String> = Vec::new();
            assert(strs_view(v@) =~= Seq::<Seq<char>>::empty());
            v
        },
    }
}

/// The database value of a flag.
pub open spec fn flag_value(b: bool) -> i32 {
    if b {
        1
    } else {
        0
    }
}

fn flag(b: bool) -> (r: i32)
    ensures
        r == flag_value(b),
{
    if b {
        1
    } else {
        0
    }
}

/// A row of the `games` table.
#[derive(Debug, Clone)]
pub struct GameRow {
    pub id: String,
    pub name: String,
    pub exec_path: String,
    pub args_json: Option<String>,
    pub wineprefix: Option<String>,
    pub runner_id: Option<String>,
    pub playtime_secs: u64,
    pub dxvk: i32,
    pub vkd3d: i32,
    pub mangohud: i32,
    pub gamemode: i32,
    pub is_installer: i32,
}

/// A row of the `runners` table.
#[derive(Debug, Clone)]
pub struct RunnerRow {
    pub id: String,
    pub name: String,
    pub version: String,
    pub path: String,
    pub installed: i32,
    pub download_url: Option<String>,
}

/// A row of the `prefixes` table.
#[derive(Debug, Clone)]
pub struct PrefixRow {
    pub name: String,
    pub path: String,
    pub architecture: String,
}

/// Whether `r` is the row written for the game `g`.
pub open spec fn row_encodes(r: GameRow, g: Game) -> bool {
    &&& r.id@ == g.id@
    &&& r.name@ == g.name@
    &&& r.exec_path@ == g.exec_path@
    &&& opt_view(r.args_json) == Some(json_of_strings(strs_view(g.args@)))
    &&& opt_view(r.wineprefix) == opt_view(g.wineprefix)
    &&& opt_view(r.runner_id) == opt_view(g.runner_id)
    &&& r.playtime_secs == g.playtime_secs
    &&& r.dxvk == flag_value(g.dxvk)
    &&& r.vkd3d == flag_value(g.vkd3d)
    &&& r.mangohud == flag_value(g.mangohud)
    &&& r.gamemode == flag_value(g.gamemode)
    &&& r.is_installer == flag_value(g.is_installer)
}

/// Whether `g` is the game read from the row `r`.
pub open spec fn game_decodes(g: Game, r: GameRow) -> bool {
    &&& g.id@ == r.id@
    &&& g.name@ == r.name@
    &&& g.exec_path@ == r.exec_path@
    &&& strs_view(g.args@) == decoded_args(opt_view(r.args_json))
    &&& (forall|x: Seq<Seq<char>>|
        opt_view(r.args_json) == Some(#[trigger] json_of_strings(x)) ==> strs_view(g.args@) == x)
    &&& opt_view(g.wineprefix) == opt_view(r.wineprefix)
    &&& opt_view(g.runner_id) == opt_view(r.runner_id)
    &&& g.playtime_secs == r.playtime_secs
    &&& g.dxvk == (r.dxvk != 0)
    &&& g.vkd3d == (r.vkd3d != 0)
    &&& g.mangohud == (r.mangohud != 0)
    &&& g.gamemode == (r.gamemode != 0)
    &&& g.is_installer == (r.is_installer != 0)
    &&& g.status == GameStatus::Ready
}

/// Whether `r` is the row written for the runner `x`.
pub open spec fn runner_row_encodes(r: RunnerRow, x: Runner) -> bool {
    &&& r.id@ == x.id@
    &&& r.name@ == x.name@
    &&& r.version@ == x.version@
    &&& r.path@ == x.path@
    &&& r.installed == flag_value(x.installed)
    &&& opt_view(r.download_url) == opt_view(x.download_url)
}

/// Whether `x` is the runner read from the row `r`.
pub open spec fn runner_decodes(x: Runner, r: RunnerRow) -> bool {
    &&& x.id@ == r.id@
    &&& x.name@ == r.name@
    &&& x.version@ == r.version@
    &&& x.path@ == r.path@
    &&& x.installed == (r.installed != 0)
    &&& opt_view(x.download_url) == opt_view(r.download_url)
}

fn clone_opt(o: &Option<String>) -> (r: Option<String>)
    ensures
        opt_view(r) == opt_view(*o),
{
    match o {
        Some(s) => Some(s.clone()),
        None => None,
    }
}

impl GameRow {
    /// The row written for a game.
    pub fn of_game(g: &Game) -> (r: GameRow)
        ensures
            row_encodes(r, *g),
    {
        GameRow {
            id: g.id.clone(),
            name: g.name.clone(),
            exec_path: g.exec_path.clone(),
            args_json: Some(encode_args(&g.args)),
            wineprefix: clone_opt(&g.wineprefix),
            runner_id: clone_opt(&g.runner_id),
            playtime_secs: g.playtime_secs,
            dxvk: flag(g.dxvk),
            vkd3d: flag(g.vkd3d),
            mangohud: flag(g.mangohud),
            gamemode: flag(g.gamemode),
            is_installer: flag(g.is_installer),
        }
    }

    /// The game read from a row; a game read back is not running.
    pub fn into_game(self) -> (g: Game)
        ensures
            game_decodes(g, self),
    {
        let ghost column = opt_view(self.args_json);
        let args = decode_args(self.args_json);
        Game {
            id: self.id,
            name: self.name,
            exec_path: self.exec_path,
            args,
            wineprefix: self.wineprefix,
            runner_id: self.runner_id,
            playtime_secs: self.playtime_secs,
            dxvk: self.dxvk != 0,
            vkd3d: self.vkd3d != 0,
            mangohud: self.mangohud != 0,
            gamemode: self.gamemode != 0,
            is_installer: self.is_installer != 0,
            status: GameStatus::Ready,
        }
    }
}

impl RunnerRow {
    /// The row written for a runner.
    pub fn of_runner(x: &Runner) -> (r: RunnerRow)
        ensures
            runner_row_encodes(r, *x),
    {
        RunnerRow {
            id: x.id.clone(),
            name: x.name.clone(),
            version: x.version.clone(),
            path: x.path.clone(),
            installed: flag(x.installed),
            download_url: clone_opt(&x.download_url),
        }
    }

    /// The runner read from a row.
    pub fn into_runner(self) -> (x: Runner)
        ensures
            runner_decodes(x, self),
    {
        Runner {
            id: self.id,
            name: self.name,
            version: self.version,
            path: self.path,
            installed: self.installed != 0,
            download_url: self.download_url,
        }
    }
}

impl PrefixRow {
    /// The row written for a prefix.
    pub fn of_prefix(p: &WinePrefix) -> (r: PrefixRow)
        ensures
            r.name@ == p.name@,
            r.path@ == p.path@,
            r.architecture@ == p.architecture@,
    {
        PrefixRow {
            name: p.name.clone(),
            path: p.path.clone(),
            architecture: p.architecture.clone(),
        }
    }

    /// The prefix read from a row; its status says whether its registry
    /// file (`user.reg`) exists.
    pub fn into_prefix(self, registry_present: bool) -> (p: WinePrefix)
        ensures
            p.name == self.name,
            p.path == self.path,
            p.architecture == self.architecture,
            p.status@ == prefix_status_text(registry_present),
    {
        WinePrefix {
            name: self.name,
            path: self.path,
            architecture: self.architecture,
            status: prefix_status(registry_present),
        }
    }
}

/// A game read back from its own row has the game's stored fields; only its
/// status starts over as `Ready`.
pub proof fn lemma_game_row_round_trip(g: Game, row: GameRow, back: Game)
    requires
        row_encodes(row, g),
        game_decodes(back, row),
    ensures
        back.id@ == g.id@,
        back.name@ == g.name@,
        back.exec_path@ == g.exec_path@,
        strs_view(back.args@) == strs_view(g.args@),
        opt_view(back.wineprefix) == opt_view(g.wineprefix),
        opt_view(back.runner_id) == opt_view(g.runner_id),
        back.playtime_secs == g.playtime_secs,
        back.dxvk == g.dxvk,
        back.vkd3d == g.vkd3d,
        back.mangohud == g.mangohud,
        back.gamemode == g.gamemode,
        back.is_installer == g.is_installer,
        back.status == GameStatus::Ready,
{
    let x = strs_view(g.args@);
    assert(opt_view(row.args_json) == Some(json_of_strings(x)));
}

/// A runner read back from its own row is the runner written.
pub proof fn lemma_runner_row_round_trip(x: Runner, row: RunnerRow, back: Runner)
    requires
        runner_row_encodes(row, x),
        runner_decodes(back, row),
    ensures
        back.id@ == x.id@,
        back.name@ == x.name@,
        back.version@ == x.version@,
        back.path@ == x.path@,
        back.installed == x.installed,
        opt_view(back.download_url) == opt_view(x.download_url),
{
}

/// The playing statistics of a game.
#[derive(Debug, Clone, Default)]
pub struct GameStats {
    pub game_id: String,
    pub avg_fps: u32,
    pub max_fps: u32,
    /// Unix time in seconds.
    pub last_played: Option<u64>,
    pub session_count: u32,
}

/// The average frame rate after a session with average `avg`, given the
/// stored average `stored_avg` over `sessions` launches (this one counted):
/// the new average where no earlier average counts, the running average
/// otherwise.
pub open spec fn next_average(stored_avg: u32, sessions: u32, avg: u32) -> int {
    if sessions <= 1 || stored_avg == 0 {
        avg as int
    } else {
        (stored_avg * (sessions - 1) + avg) / (sessions as int)
    }
}

impl GameStats {
    /// The statistics of a game that has none stored.
    pub fn empty(game_id: &str) -> (s: GameStats)
        ensures
            s.game_id@ == game_id@,
            s.avg_fps == 0,
            s.max_fps == 0,
            s.last_played is None,
            s.session_count == 0,
    {
        GameStats {
            game_id: string_from(game_id),
            avg_fps: 0,
            max_fps: 0,
            last_played: None,
            session_count: 0,
        }
    }

    /// The average and maximum frame rates to store after a session that
    /// reported `avg_fps` and `max_fps`.
    pub fn after_session(&self, avg_fps: u32, max_fps: u32) -> (r: (u32, u32))
        requires
            self.session_count > 1 && self.avg_fps != 0 ==> self.avg_fps * (self.session_count
                - 1) + avg_fps <= u32::MAX,
        ensures
            r.0 == next_average(self.avg_fps, self.session_count, avg_fps),
            r.1 == if self.max_fps >= max_fps {
                self.max_fps
            } else {
                max_fps
            },
    {
        let new_avg = if self.session_count <= 1 || self.avg_fps == 0 {
            avg_fps
        } else {
            let total = self.session_count;
            proof {
                assert(self.avg_fps * (total - 1) <= self.avg_fps * (total - 1) + avg_fps);
            }
            (self.avg_fps * (total - 1) + avg_fps) / total
        };
        let new_max = if self.max_fps >= max_fps {
            self.max_fps
        } else {
            max_fps
        };
        (new_avg, new_max)
    }
}

/// Where the database lies, under the home directory `home`.
pub fn get_db_path(home: &str) -> (r: String)
    ensures
        r@ == join_path(join_path(home@, ".local/share/lgtui"@), "lgtui.db"@),
{
    let d = join_path_exec(home, ".local/share/lgtui");
    join_path_exec(d.as_str(), "lgtui.db")
}

/// The rows that saving a configuration writes, in order: the two settings,
/// then each game, then each runner.
#[derive(Debug, Clone)]
pub struct SaveBatch {
    pub settings: Vec<(String, String)>,
    pub games: Vec<GameRow>,
    pub runners: Vec<RunnerRow>,
}

/// Whether `b` holds the rows written for the configuration `c`: the two
/// settings, then a row for each game and for each runner, in order.
pub open spec fn is_save_batch(b: SaveBatch, c: Config) -> bool {
    &&& b.settings@.len() == 2
    &&& b.settings@[0].0@ == "default_wineprefix"@
    &&& b.settings@[0].1@ == c.default_wineprefix@
    &&& b.settings@[1].0@ == "runner_download_dir"@
    &&& b.settings@[1].1@ == c.runner_download_dir@
    &&& b.games@.len() == c.games@.len()
    &&& forall|i: int| 0 <= i < c.games@.len() ==> row_encodes(#[trigger] b.games@[i], c.games@[i])
    &&& b.runners@.len() == c.runners@.len()
    &&& forall|i: int|
        0 <= i < c.runners@.len() ==> runner_row_encodes(#[trigger] b.runners@[i], c.runners@[i])
}

/// Whether two games agree on everything that is stored of a game.
pub open spec fn same_stored_game(a: Game, b: Game) -> bool {
    &&& a.id@ == b.id@
    &&& a.name@ == b.name@
    &&& a.exec_path@ == b.exec_path@
    &&& strs_view(a.args@) == strs_view(b.args@)
    &&& opt_view(a.wineprefix) == opt_view(b.wineprefix)
    &&& opt_view(a.runner_id) == opt_view(b.runner_id)
    &&& a.playtime_secs == b.playtime_secs
    &&& a.dxvk == b.dxvk
    &&& a.vkd3d == b.vkd3d
    &&& a.mangohud == b.mangohud
    &&& a.gamemode == b.gamemode
    &&& a.is_installer == b.is_installer
}

/// Whether two runners agree on every field.
pub open spec fn same_runner(a: Runner, b: Runner) -> bool {
    &&& a.id@ == b.id@
    &&& a.name@ == b.name@
    &&& a.version@ == b.version@
    &&& a.path@ == b.path@
    &&& a.installed == b.installed
    &&& opt_view(a.download_url) == opt_view(b.download_url)
}

/// Reading back the rows that saving a configuration writes gives the
/// configuration back: its two settings, and each game (not running) and
/// each runner with all their stored fields.
pub proof fn lemma_saved_config_reads_back(
    c: Config,
    b: SaveBatch,
    games: Seq<Game>,
    runners: Seq<Runner>,
)
    requires
        is_save_batch(b, c),
        games.len() == b.games@.len(),
        forall|i: int| 0 <= i < games.len() ==> game_decodes(#[trigger] games[i], b.games@[i]),
        runners.len() == b.runners@.len(),
        forall|i: int| 0 <= i < runners.len() ==> runner_decodes(#[trigger] runners[i], b.runners@[i]),
    ensures
        b.settings@[0].1@ == c.default_wineprefix@,
        b.settings@[1].1@ == c.runner_download_dir@,
        games.len() == c.games@.len(),
        forall|i: int|
            0 <= i < games.len() ==> same_stored_game(#[trigger] games[i], c.games@[i])
                && games[i].status == GameStatus::Ready,
        runners.len() == c.runners@.len(),
        forall|i: int| 0 <= i < runners.len() ==> same_runner(#[trigger] runners[i], c.runners@[i]),
{
    assert forall|i: int| 0 <= i < games.len() implies same_stored_game(#[trigger] games[i], c.games@[i])
        && games[i].status == GameStatus::Ready by {
        assert(row_encodes(b.games@[i], c.games@[i]));
        lemma_game_row_round_trip(c.games@[i], b.games@[i], games[i]);
    }
    assert forall|i: int| 0 <= i < runners.len() implies same_runner(#[trigger] runners[i], c.runners@[i]) by {
        assert(runner_row_encodes(b.runners@[i], c.runners@[i]));
    }
}

impl Config {
    /// The rows that saving the configuration writes.
    pub fn save(&self) -> (b: SaveBatch)
        ensures
            is_save_batch(b, *self),
    {
        let mut settings: Vec<(String, String)> = Vec::new();
        settings.push((string_from("default_wineprefix"), self.default_wineprefix.clone()));
        settings.push((string_from("runner_download_dir"), self.runner_download_dir.clone()));
        let mut games: Vec<GameRow> = Vec::new();
        let mut i: usize = 0;
        while i < self.games.len()
            invariant
                i <= self.games@.len(),
                games@.len() == i,
                forall|k: int| 0 <= k < i ==> row_encodes(#[trigger] games@[k], self.games@[k]),
            decreases self.games@.len() - i,
        {
            games.push(GameRow::of_game(&self.games[i]));
            i = i + 1;
        }
        let mut runners: Vec<RunnerRow> = Vec::new();
        let mut j: usize = 0;
        while j < self.runners.len()
            invariant
                j <= self.runners@.len(),
                runners@.len() == j,
                forall|k: int|
                    0 <= k < j ==> runner_row_encodes(#[trigger] runners@[k], self.runners@[k]),
            decreases self.runners@.len() - j,
        {
            runners.push(RunnerRow::of_runner(&self.runners[j]));
            j = j + 1;
        }
        SaveBatch { settings, games, runners }
    }
}

} // verus!
