use vstd::prelude::*;

use crate::game::{opt_view, strs_view, Game, Runner};
use crate::prefix::{boot_args, boot_args_spec};
use crate::text::{
    ascii_lower,
    chars_of, concat, contains, has_infix, has_prefix, join_path, join_path_exec, starts_with,
    str_to_lowercase, string_from, unicode_lowercase,
};

verus! {

/// What the installer reports when the runner could not prepare or run it.
pub const INSTALL_FAILED: i32 = -1;

/// What the installer reports when no executable was found after it ran.
pub const NO_EXECUTABLE_FOUND: i32 = -2;

/// What the installer reports when its prefix could not be moved in place.
pub const RELOCATION_FAILED: i32 = -3;

/// What the installer reports when the executable did not lie in its prefix.
pub const EXECUTABLE_OUTSIDE_PREFIX: i32 = -4;

// ---------------------------------------------------------------------------
// Launching a game
// ---------------------------------------------------------------------------
/// The runner that a game without a runner of its own is started with.
pub open spec fn system_wine() -> Seq<char> {
    "/usr/bin/wine"@
}

/// The runner executable for an optional runner entry.
pub open spec fn runner_path_spec(runner: Option<Runner>) -> Seq<char> {
    match runner {
        Some(r) => r.path@,
        None => system_wine(),
    }
}

/// The path of the runner to start a game with: the given runner's, or the
/// system Wine.
pub fn runner_path_for(runner: Option<&Runner>) -> (r: String)
    ensures
        r@ == runner_path_spec(
            match runner {
                Some(x) => Some(*x),
                None => None,
            },
        ),
{
    match runner {
        Some(x) => x.path.clone(),
        None => string_from("/usr/bin/wine"),
    }
}

/// `1` for an enabled option, `0` otherwise.
pub open spec fn flag_text(b: bool) -> Seq<char> {
    if b {
        "1"@
    } else {
        "0"@
    }
}

/// Words joined with single spaces, as `[String]::join(" ")` does.
pub open spec fn spaced(words: Seq<Seq<char>>) -> Seq<char>
    decreases words.len(),
{
    if words.len() == 0 {
        Seq::empty()
    } else if words.len() == 1 {
        words[0]
    } else {
        spaced(words.drop_last()) + " "@ + words.last()
    }
}

/// The views of a list of name and value pairs.
pub open spec fn pairs_view(v: Seq<(String, String)>) -> Seq<(Seq<char>, Seq<char>)> {
    v.map_values(|p: (String, String)| (p.0@, p.1@))
}

/// The environment that the launch script receives for `game`, started with
/// the runner at `runner_path`.
pub open spec fn launch_env_spec(game: Game, runner_path: Seq<char>) -> Seq<(Seq<char>, Seq<char>)> {
    seq![
        ("RUNNER"@, runner_path),
        ("EXEC_PATH"@, game.exec_path@),
        ("DXVK"@, flag_text(game.dxvk)),
        ("VKD3D"@, flag_text(game.vkd3d)),
        ("MANGOHUD"@, flag_text(game.mangohud)),
        ("GAMEMODE"@, flag_text(game.gamemode)),
    ] + match game.wineprefix {
        Some(p) => seq![("WINEPREFIX"@, p@)],
        None => Seq::empty(),
    } + seq![("GAME_ARGS"@, spaced(strs_view(game.args@)))]
}

/// The words joined with single spaces.
pub fn join_spaced(words: &Vec<String>) -> (r: String)
    ensures
        r@ == spaced(strs_view(words@)),
{
    let mut r = String::new();
    let mut i: usize = 0;
    while i < words.len()
        invariant
            i <= words@.len(),
            r@ == spaced(strs_view(words@).take(i as int)),
        decreases words@.len() - i,
    {
        let ghost before = strs_view(words@).take(i as int);
        if i > 0 {
            r.append(" ");
        }
        r.append(words[i].as_str());
        proof {
            let after = strs_view(words@).take(i + 1);
            assert(after.drop_last() =~= before);
            if i == 0 {
                assert(r@ =~= after[0]);
            } else {
                assert(r@ =~= spaced(after));
            }
        }
        i = i + 1;
    }
    assert(strs_view(words@).take(words@.len() as int) =~= strs_view(words@));
    r
}

fn flag_string(b: bool) -> (r: String)
    ensures
        r@ == flag_text(b),
{
    if b {
        string_from("1")
    } else {
        string_from("0")
    }
}

fn env_pair(name: &str, value: String) -> (r: (String, String))
    ensures
        r.0@ == name@,
        r.1 == value,
{
    (string_from(name), value)
}

/// The environment of the launch script for `game`, started with the runner
/// at `runner_path`: the runner, the executable, the four options as `1` or
/// `0`, the prefix when the game has one, and the arguments joined by
/// spaces.
pub fn launch_env(game: &Game, runner_path: &str) -> (r: Vec<(String, String)>)
    ensures
        pairs_view(r@) == launch_env_spec(*game, runner_path@),
{
    let mut r: Vec<(String, String)> = Vec::new();
    r.push(env_pair("RUNNER", string_from(runner_path)));
    r.push(env_pair("EXEC_PATH", game.exec_path.clone()));
    r.push(env_pair("DXVK", flag_string(game.dxvk)));
    r.push(env_pair("VKD3D", flag_string(game.vkd3d)));
    r.push(env_pair("MANGOHUD", flag_string(game.mangohud)));
    r.push(env_pair("GAMEMODE", flag_string(game.gamemode)));
    match &game.wineprefix {
        Some(p) => {
            r.push(env_pair("WINEPREFIX", p.clone()));
        },
        None => {},
    }
    r.push(env_pair("GAME_ARGS", join_spaced(&game.args)));
    assert(pairs_view(r@) =~= launch_env_spec(*game, runner_path@));
    r
}

// ---------------------------------------------------------------------------
// Running an installer
// ---------------------------------------------------------------------------
/// The arguments that make a runner start the installer `exec_path`
/// (through `run wine` for a Proton runner).
pub open spec fn installer_args_spec(runner_path: Seq<char>, exec_path: Seq<char>) -> Seq<
    Seq<char>,
> {
    if has_infix(runner_path, "proton"@) {
        seq!["run"@, "wine"@, exec_path]
    } else {
        seq![exec_path]
    }
}

/// The launcher's data directory under the home directory.
pub open spec fn data_dir(home: Seq<char>) -> Seq<char> {
    join_path(home, ".local/share/lgtui"@)
}

/// The prefix in which the installer of the game `id` first runs.
pub open spec fn temp_prefix_spec(home: Seq<char>, id: Seq<char>) -> Seq<char> {
    join_path(join_path(data_dir(home), "prefixes"@), "temp_install_"@ + id)
}

/// The prefix that an installed game keeps: its own, when it names one, or
/// one named after it in the launcher's prefix directory.
pub open spec fn final_prefix_spec(home: Seq<char>, game: Game) -> Seq<char> {
    match game.wineprefix {
        Some(p) => p@,
        None => join_path(join_path(data_dir(home), "prefixes"@), game.id@),
    }
}

/// How the installer of a game is run and where its result goes.
#[derive(Debug, Clone)]
pub struct InstallPlan {
    /// The runner that boots the prefix and runs the installer.
    pub runner_path: String,
    /// The fresh prefix in which the installer runs.
    pub temp_prefix: String,
    /// The directory searched for the installed executable.
    pub scan_dir: String,
    /// The arguments that boot the fresh prefix.
    pub boot_args: Vec<String>,
    /// The arguments that run the installer.
    pub install_args: Vec<String>,
    /// Where the prefix is moved once the installer is done.
    pub final_prefix: String,
}

/// Whether `plan` is the plan for installing `game` with the runner at
/// `runner_path`, for the home directory `home`.
pub open spec fn is_install_plan(
    plan: InstallPlan,
    game: Game,
    runner_path: Seq<char>,
    home: Seq<char>,
) -> bool {
    let temp = temp_prefix_spec(home, game.id@);
    &&& plan.runner_path@ == runner_path
    &&& plan.temp_prefix@ == temp
    &&& plan.scan_dir@ == join_path(temp, "drive_c"@)
    &&& strs_view(plan.boot_args@) == boot_args_spec(runner_path)
    &&& strs_view(plan.install_args@) == installer_args_spec(runner_path, game.exec_path@)
    &&& plan.final_prefix@ == final_prefix_spec(home, game)
}

/// The arguments that make the runner at `runner_path` start an installer.
pub fn installer_args(runner_path: &str, exec_path: &str) -> (r: Vec<String>)
    ensures
        strs_view(r@) == installer_args_spec(runner_path@, exec_path@),
{
    let cs = chars_of(runner_path);
    let mut r: Vec<String> = Vec::new();
    if contains(&cs, "proton") {
        r.push(string_from("run"));
        r.push(string_from("wine"));
    }
    r.push(string_from(exec_path));
    assert(strs_view(r@) =~= installer_args_spec(runner_path@, exec_path@));
    r
}

impl InstallPlan {
    /// The plan for installing `game` with `runner` (the system Wine when
    /// there is none), for the home directory `home`.
    pub fn new(game: &Game, runner: Option<&Runner>, home: &str) -> (plan: InstallPlan)
        ensures
            is_install_plan(
                plan,
                *game,
                runner_path_spec(
                    match runner {
                        Some(x) => Some(*x),
                        None => None,
                    },
                ),
                home@,
            ),
    {
        let runner_path = runner_path_for(runner);
        let data = join_path_exec(home, ".local/share/lgtui");
        let prefixes = join_path_exec(data.as_str(), "prefixes");
        let temp_name = concat("temp_install_", game.id.as_str());
        let temp_prefix = join_path_exec(prefixes.as_str(), temp_name.as_str());
        let scan_dir = join_path_exec(temp_prefix.as_str(), "drive_c");
        let boot = boot_args(runner_path.as_str());
        let install = installer_args(runner_path.as_str(), game.exec_path.as_str());
        let final_prefix = match &game.wineprefix {
            Some(p) => p.clone(),
            None => join_path_exec(prefixes.as_str(), game.id.as_str()),
        };
        InstallPlan {
            runner_path,
            temp_prefix,
            scan_dir,
            boot_args: boot,
            install_args: install,
            final_prefix,
        }
    }
}

// ---------------------------------------------------------------------------
// Choosing the installed executable
// ---------------------------------------------------------------------------
/// An executable that the search of an installed prefix found.
#[derive(Debug, Clone)]
pub struct FoundExecutable {
    pub path: String,
    /// The file's name, when it is valid text.
    pub file_name: Option<String>,
    /// The file's size in bytes.
    pub size: u64,
}

/// Whether a lowercase file name marks an uninstaller, a redistributable,
/// a helper or a setup program rather than the game.
pub open spec fn is_auxiliary_lowercase(lower: Seq<char>) -> bool {
    ||| has_prefix(lower, "unins"@)
    ||| has_infix(lower, "uninstall"@)
    ||| has_infix(lower, "redist"@)
    ||| has_infix(lower, "vc_redist"@)
    ||| has_infix(lower, "vcredist"@)
    ||| has_infix(lower, "dxsetup"@)
    ||| has_infix(lower, "helper"@)
    ||| has_infix(lower, "crashhandler"@)
    ||| has_infix(lower, "crashpad"@)
    ||| has_infix(lower, "register"@)
    ||| has_infix(lower, "activation"@)
    ||| has_infix(lower, "setup"@)
    ||| has_infix(lower, "install"@)
}

/// Whether a file name, compared without case, marks an auxiliary program.
pub open spec fn is_auxiliary_name(name: Seq<char>) -> bool {
    is_auxiliary_lowercase(unicode_lowercase(name))
}

/// Whether a found executable may be the game: its name is not valid text,
/// or it does not mark an auxiliary program.
pub open spec fn may_be_game(e: FoundExecutable) -> bool {
    match e.file_name {
        Some(n) => !is_auxiliary_name(n@),
        None => true,
    }
}

/// Whether `i` is the first index of `s` whose size is the largest among
/// the entries that `pick` admits, `i` itself admitted.
pub open spec fn is_first_largest(
    s: Seq<FoundExecutable>,
    pick: spec_fn(FoundExecutable) -> bool,
    i: int,
) -> bool {
    &&& 0 <= i < s.len()
    &&& pick(s[i])
    &&& forall|j: int| 0 <= j < s.len() && #[trigger] pick(s[j]) ==> s[j].size <= s[i].size
    &&& forall|j: int| 0 <= j < i && #[trigger] pick(s[j]) ==> s[j].size < s[i].size
}

/// Every entry.
pub open spec fn any_entry(e: FoundExecutable) -> bool {
    true
}

/// The extension of a file name as `Path::extension` gives it: what follows
/// the last `.`, unless that `.` begins the name or there is none.
pub open spec fn extension_of(name: Seq<char>) -> Option<Seq<char>> {
    if exists|i: int| 0 < i < name.len() && name[i] == '.' {
        let i = choose|i: int|
            0 < i < name.len() && name[i] == '.' && forall|j: int| i < j < name.len() ==> name[j] != '.';
        Some(name.subrange(i + 1, name.len() as int))
    } else {
        None
    }
}

/// Whether a file name has the extension `exe`, compared without ASCII case.
pub open spec fn is_exe_name(name: Seq<char>) -> bool {
    match extension_of(name) {
        Some(ext) => ext.len() == 3 && ascii_lower(ext[0]) == 'e' && ascii_lower(ext[1]) == 'x'
            && ascii_lower(ext[2]) == 'e',
        None => false,
    }
}

fn lower_ascii(c: char) -> (r: char)
    ensures
        r == ascii_lower(c),
{
    if 'A' <= c && c <= 'Z' {
        ((c as u8) + 32) as char
    } else {
        c
    }
}

/// Whether a file name has the extension `exe`, in any ASCII case, as the
/// search of an installed prefix counts executables.
pub fn has_exe_extension(name: &str) -> (r: bool)
    ensures
        r == is_exe_name(name@),
{
    let cs = chars_of(name);
    let n = cs.len();
    let mut i = n;
    while i > 0
        invariant
            cs@ == name@,
            n == cs@.len(),
            i <= n,
            forall|j: int| i <= j < n ==> cs@[j] != '.',
        ensures
            i <= n,
            i == 0 || cs@[i - 1] == '.',
            forall|j: int| i <= j < n ==> cs@[j] != '.',
        decreases i,
    {
        if cs[i - 1] == '.' {
            break ;
        }
        i = i - 1;
    }
    if i <= 1 {
        proof {
            assert(!exists|k: int| 0 < k < name@.len() && name@[k] == '.') by {
                if exists|k: int| 0 < k < name@.len() && name@[k] == '.' {
                    let k = choose|k: int| 0 < k < name@.len() && name@[k] == '.';
                    if i == 1 {
                        assert(cs@[0] == '.' || k >= 1);
                    }
                }
            }
        }
        return false;
    }
    let dot = i - 1;
    proof {
        assert(0 < dot < name@.len() && name@[dot as int] == '.');
        let c = choose|k: int|
            0 < k < name@.len() && name@[k] == '.' && forall|j: int| k < j < name@.len() ==> name@[j]
                != '.';
        assert(c == dot as int) by {
            if c < dot {
            } else if c > dot {
            }
        }
        assert(name@.subrange(dot + 1, n as int).len() == n - dot - 1);
    }
    if n - dot - 1 != 3 {
        return false;
    }
    proof {
        let ext = name@.subrange(dot + 1, n as int);
        assert(ext[0] == cs@[dot + 1]);
        assert(ext[1] == cs@[dot + 2]);
        assert(ext[2] == cs@[dot + 3]);
    }
    lower_ascii(cs[dot + 1]) == 'e' && lower_ascii(cs[dot + 2]) == 'x' && lower_ascii(cs[dot + 3]) == 'e'
}

/// Whether a file name, compared without case, marks an uninstaller, a
/// redistributable, a helper or a setup program.
pub fn is_filtered_exe(filename: &str) -> (r: bool)
    ensures
        r == is_auxiliary_name(filename@),
{
    let lower = str_to_lowercase(filename);
    let cs = chars_of(lower.as_str());
    starts_with(&cs, "unins") || contains(&cs, "uninstall") || contains(&cs, "redist") || contains(
        &cs,
        "vc_redist",
    ) || contains(&cs, "vcredist") || contains(&cs, "dxsetup") || contains(&cs, "helper")
        || contains(&cs, "crashhandler") || contains(&cs, "crashpad") || contains(&cs, "register")
        || contains(&cs, "activation") || contains(&cs, "setup") || contains(&cs, "install")
}

fn may_be_game_exec(e: &FoundExecutable) -> (r: bool)
    ensures
        r == may_be_game(*e),
{
    match &e.file_name {
        Some(n) => !is_filtered_exe(n.as_str()),
        None => true,
    }
}

/// The executable that the installer is taken to have installed: the
/// largest of those that may be the game, the first of them on a tie; when
/// none may be, the largest of all, the first on a tie; `None` when nothing
/// was found.
pub fn choose_installed_exe(found: &Vec<FoundExecutable>) -> (r: Option<usize>)
    ensures
        r is None <==> found@.len() == 0,
        r matches Some(i) ==> {
            if exists|j: int| 0 <= j < found@.len() && #[trigger] may_be_game(found@[j]) {
                is_first_largest(found@, |e: FoundExecutable| may_be_game(e), i as int)
            } else {
                is_first_largest(found@, |e: FoundExecutable| any_entry(e), i as int)
            }
        },
{
    let ghost kept = |e: FoundExecutable| may_be_game(e);
    let ghost all = |e: FoundExecutable| any_entry(e);
    let mut best_kept: Option<usize> = None;
    let mut best_any: Option<usize> = None;
    let mut i: usize = 0;
    while i < found.len()
        invariant
            i <= found@.len(),
            kept == (|e: FoundExecutable| may_be_game(e)),
            all == (|e: FoundExecutable| any_entry(e)),
            match best_kept {
                Some(b) => is_first_largest(found@.take(i as int), kept, b as int),
                None => forall|j: int| 0 <= j < i ==> !may_be_game(#[trigger] found@[j]),
            },
            match best_any {
                Some(b) => is_first_largest(found@.take(i as int), all, b as int),
                None => i == 0,
            },
        decreases found@.len() - i,
    {
        let ghost before = found@.take(i as int);
        let ghost after = found@.take(i + 1);
        assert(after.drop_last() =~= before);
        let size = found[i].size;
        let keep = may_be_game_exec(&found[i]);
        match best_any {
            Some(b) => {
                if size > found[b].size {
                    best_any = Some(i);
                }
            },
            None => {
                best_any = Some(i);
            },
        }
        if keep {
            match best_kept {
                Some(b) => {
                    if size > found[b].size {
                        best_kept = Some(i);
                    }
                },
                None => {
                    best_kept = Some(i);
                },
            }
        }
        proof {
            assert forall|j: int| 0 <= j < i + 1 implies #[trigger] after[j] == found@[j] by {}
        }
        i = i + 1;
    }
    assert(found@.take(found@.len() as int) =~= found@);
    match best_kept {
        Some(b) => Some(b),
        None => best_any,
    }
}

// ---------------------------------------------------------------------------
// Moving the installed game in place
// ---------------------------------------------------------------------------
/// What `Path::strip_prefix` returns for a path and a base: the rest of the
/// path after the base's components, when the base's components begin it.
pub uninterp spec fn path_without_base(path: Seq<char>, base: Seq<char>) -> Option<Seq<char>>;

/// `Path::strip_prefix`, whose result is named by `path_without_base`.
#[verifier::external_body]
fn strip_base(path: &str, base: &str) -> (r: Option<String>)
    ensures
        opt_view(r) == path_without_base(path@, base@),
{
    match std::path::Path::new(path).strip_prefix(base) {
        Ok(rest) => Some(rest.to_string_lossy().to_string()),
        Err(_) => None,
    }
}

/// Where the executable `chosen`, found under the temporary prefix, lies
/// once the prefix has moved to `final_prefix`.
pub open spec fn relocated_spec(rest: Option<Seq<char>>, final_prefix: Seq<char>) -> Option<
    Seq<char>,
> {
    match rest {
        Some(r) => Some(join_path(final_prefix, r)),
        None => None,
    }
}

/// Where the executable `chosen`, found under the prefix `temp_prefix`,
/// lies once that prefix has moved to `final_prefix`; `None` when it does
/// not lie under `temp_prefix`.
pub fn relocated_exec_path(chosen: &str, temp_prefix: &str, final_prefix: &str) -> (r: Option<
    String,
>)
    ensures
        opt_view(r) == relocated_spec(path_without_base(chosen@, temp_prefix@), final_prefix@),
{
    match strip_base(chosen, temp_prefix) {
        Some(rest) => Some(join_path_exec(final_prefix, rest.as_str())),
        None => None,
    }
}

/// The game that an installer became: started from `exec_path` in the
/// prefix `wineprefix`, and no longer an installer.
pub fn installed_game(game: Game, exec_path: String, wineprefix: String) -> (r: Game)
    ensures
        r == (Game { exec_path, wineprefix: Some(wineprefix), is_installer: false, ..game }),
{
    Game { exec_path, wineprefix: Some(wineprefix), is_installer: false, ..game }
}

// ---------------------------------------------------------------------------
// The installer pipeline, step by step
// ---------------------------------------------------------------------------
/// The steps of the installer pipeline, in the order they run.
#[derive(Debug, Clone, Copy, PartialEq, Eq, Structural)]
pub enum InstallStep {
    /// Make a fresh, empty temporary prefix.
    Prepare,
    /// Boot the temporary prefix with the runner.
    Boot,
    /// Run the installer in the temporary prefix.
    Install,
    /// Search the prefix for the installed executable and choose one.
    Scan,
    /// Move the prefix to its final place.
    Relocate,
    /// Find where the chosen executable lies in the moved prefix.
    Locate,
    /// Store the game and report it installed.
    Finish,
}

/// What follows a step: the next step, or the end of the pipeline with the
/// exit code that is reported for the game.
#[derive(Debug, Clone, Copy, PartialEq, Eq, Structural)]
pub enum InstallNext {
    Step(InstallStep),
    Stop(i32),
}

/// What follows the step `step` when it succeeded (`ok`) or failed: on
/// success the next step in order; on failure the step's exit code — the
/// generic failure while preparing, booting or installing, then no
/// executable found, relocation failed, executable outside its prefix.
pub open spec fn install_next_spec(step: InstallStep, ok: bool) -> InstallNext {
    match step {
        InstallStep::Prepare => if ok { InstallNext::Step(InstallStep::Boot) } else { InstallNext::Stop(INSTALL_FAILED) },
        InstallStep::Boot => if ok { InstallNext::Step(InstallStep::Install) } else { InstallNext::Stop(INSTALL_FAILED) },
        InstallStep::Install => if ok { InstallNext::Step(InstallStep::Scan) } else { InstallNext::Stop(INSTALL_FAILED) },
        InstallStep::Scan => if ok { InstallNext::Step(InstallStep::Relocate) } else { InstallNext::Stop(NO_EXECUTABLE_FOUND) },
        InstallStep::Relocate => if ok { InstallNext::Step(InstallStep::Locate) } else { InstallNext::Stop(RELOCATION_FAILED) },
        InstallStep::Locate => if ok { InstallNext::Step(InstallStep::Finish) } else { InstallNext::Stop(EXECUTABLE_OUTSIDE_PREFIX) },
        InstallStep::Finish => InstallNext::Step(InstallStep::Finish),
    }
}

/// What follows a step of the installer pipeline, given whether it
/// succeeded.
pub fn install_next(step: InstallStep, ok: bool) -> (r: InstallNext)
    ensures
        r == install_next_spec(step, ok),
{
    match step {
        InstallStep::Prepare => if ok { InstallNext::Step(InstallStep::Boot) } else { InstallNext::Stop(INSTALL_FAILED) },
        InstallStep::Boot => if ok { InstallNext::Step(InstallStep::Install) } else { InstallNext::Stop(INSTALL_FAILED) },
        InstallStep::Install => if ok { InstallNext::Step(InstallStep::Scan) } else { InstallNext::Stop(INSTALL_FAILED) },
        InstallStep::Scan => if ok { InstallNext::Step(InstallStep::Relocate) } else { InstallNext::Stop(NO_EXECUTABLE_FOUND) },
        InstallStep::Relocate => if ok { InstallNext::Step(InstallStep::Locate) } else { InstallNext::Stop(RELOCATION_FAILED) },
        InstallStep::Locate => if ok { InstallNext::Step(InstallStep::Finish) } else { InstallNext::Stop(EXECUTABLE_OUTSIDE_PREFIX) },
        InstallStep::Finish => InstallNext::Step(InstallStep::Finish),
    }
}

/// The position of a step in the pipeline.
pub open spec fn step_rank(step: InstallStep) -> int {
    match step {
        InstallStep::Prepare => 0,
        InstallStep::Boot => 1,
        InstallStep::Install => 2,
        InstallStep::Scan => 3,
        InstallStep::Relocate => 4,
        InstallStep::Locate => 5,
        InstallStep::Finish => 6,
    }
}

/// The pipeline only moves forward, one step at a time, until it finishes;
/// a failure anywhere before the end stops it with a negative exit code,
/// so an installer that fails is never reported as installed.
pub proof fn lemma_install_pipeline_advances(step: InstallStep, ok: bool)
    requires
        step != InstallStep::Finish,
    ensures
        ok ==> (install_next_spec(step, ok) matches InstallNext::Step(n) && step_rank(n) == step_rank(step) + 1),
        !ok ==> (install_next_spec(step, ok) matches InstallNext::Stop(code) && code < 0),
{
}

} // verus!
