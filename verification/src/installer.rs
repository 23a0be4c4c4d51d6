use vstd::prelude::*;

use crate::game::strs_view;
use crate::text::{
    chars_of, join_path, join_path_exec, str_eq, str_to_lowercase, string_from, trim, trim_str,
    unicode_lowercase,
};

verus! {

/// The package manager found on the system, by which of `pacman`,
/// `apt-get` and `dnf` exists (in `/usr/bin` or `/bin`), in that order of
/// preference.
pub open spec fn package_manager_spec(has_pacman: bool, has_apt_get: bool, has_dnf: bool) -> Seq<
    char,
> {
    if has_pacman {
        "pacman"@
    } else if has_apt_get {
        "apt"@
    } else if has_dnf {
        "dnf"@
    } else {
        "unknown"@
    }
}

/// The package manager to install with: `pacman`, `apt`, `dnf` or
/// `unknown`, from which of their programs exist.
pub fn detect_pm(has_pacman: bool, has_apt_get: bool, has_dnf: bool) -> (r: &'static str)
    ensures
        r@ == package_manager_spec(has_pacman, has_apt_get, has_dnf),
{
    if has_pacman {
        "pacman"
    } else if has_apt_get {
        "apt"
    } else if has_dnf {
        "dnf"
    } else {
        "unknown"
    }
}

/// The answer to a yes-or-no question: the default on an empty answer,
/// otherwise yes exactly for `y` or `yes`, compared without case and
/// surrounding space.
pub open spec fn yes_no_spec(input: Seq<char>, default: bool) -> bool {
    let answer = unicode_lowercase(trim(input));
    if answer.len() == 0 {
        default
    } else {
        answer == "y"@ || answer == "yes"@
    }
}

/// The answer typed for a yes-or-no question whose default is `default`.
pub fn yes_no_answer(input: &str, default: bool) -> (r: bool)
    ensures
        r == yes_no_spec(input@, default),
{
    let trimmed = trim_str(input);
    let answer = str_to_lowercase(trimmed.as_str());
    let cs = chars_of(answer.as_str());
    if cs.len() == 0 {
        return default;
    }
    str_eq(answer.as_str(), "y") || str_eq(answer.as_str(), "yes")
}

/// The answer to a question with a default: the typed text without its
/// surrounding space, or the default when nothing else was typed.
pub open spec fn choice_spec(input: Seq<char>, default: Seq<char>) -> Seq<char> {
    if trim(input).len() == 0 {
        default
    } else {
        trim(input)
    }
}

/// The answer typed for a question whose default is `default`.
pub fn choice_answer(input: &str, default: &str) -> (r: String)
    ensures
        r@ == choice_spec(input@, default@),
{
    let trimmed = trim_str(input);
    let cs = chars_of(trimmed.as_str());
    if cs.len() == 0 {
        string_from(default)
    } else {
        trimmed
    }
}

/// What the user chose to install.
#[derive(Debug, Clone)]
pub struct InstallChoices {
    pub wine: bool,
    /// `2` for the staging branch, anything else for the stable one.
    pub wine_branch: String,
    pub winetricks: bool,
    pub mangohud: bool,
    pub gamemode: bool,
}

/// The Wine packages to install for the choices, with the package manager
/// `pm`.
pub open spec fn wine_packages_spec(pm: Seq<char>, c: InstallChoices) -> Seq<Seq<char>> {
    if !c.wine {
        Seq::empty()
    } else if pm == "pacman"@ {
        (if c.wine_branch@ == "2"@ {
            seq!["wine-staging"@]
        } else {
            seq!["wine"@]
        }) + seq!["wine-mono"@, "wine-gecko"@]
    } else if pm == "apt"@ {
        if c.wine_branch@ == "2"@ {
            seq!["wine-development"@]
        } else {
            seq!["wine"@]
        }
    } else if pm == "dnf"@ {
        seq!["wine"@, "wine-mono-core"@, "wine-gecko"@]
    } else {
        Seq::empty()
    }
}

/// The tool packages to install for the choices: Winetricks, MangoHud and
/// GameMode, the latter two with their 32-bit libraries under `pacman`.
pub open spec fn tool_packages_spec(pm: Seq<char>, c: InstallChoices) -> Seq<Seq<char>> {
    let tricks: Seq<Seq<char>> = if c.winetricks {
        seq!["winetricks"@]
    } else {
        Seq::empty()
    };
    let hud: Seq<Seq<char>> = if !c.mangohud {
        Seq::empty()
    } else if pm == "pacman"@ {
        seq!["mangohud"@, "lib32-mangohud"@]
    } else {
        seq!["mangohud"@]
    };
    let mode: Seq<Seq<char>> = if !c.gamemode {
        Seq::empty()
    } else if pm == "pacman"@ {
        seq!["gamemode"@, "lib32-gamemode"@]
    } else {
        seq!["gamemode"@]
    };
    tricks + hud + mode
}

/// The packages to install for the choices, with the package manager `pm`.
pub open spec fn packages_spec(pm: Seq<char>, c: InstallChoices) -> Seq<Seq<char>> {
    wine_packages_spec(pm, c) + tool_packages_spec(pm, c)
}

fn push_str(v: &mut Vec<String>, s: &str)
    ensures
        strs_view(final(v)@) == strs_view(old(v)@).push(s@),
{
    let ghost before = v@;
    v.push(string_from(s));
    assert(strs_view(v@) =~= strs_view(before).push(s@));
}

fn wine_packages(pm: &str, choices: &InstallChoices) -> (r: Vec<String>)
    ensures
        strs_view(r@) == wine_packages_spec(pm@, *choices),
{
    let mut r: Vec<String> = Vec::new();
    if !choices.wine {
        assert(strs_view(r@) =~= Seq::<Seq<char>>::empty());
        return r;
    }
    let staging = str_eq(choices.wine_branch.as_str(), "2");
    if str_eq(pm, "pacman") {
        if staging {
            push_str(&mut r, "wine-staging");
        } else {
            push_str(&mut r, "wine");
        }
        push_str(&mut r, "wine-mono");
        push_str(&mut r, "wine-gecko");
    } else if str_eq(pm, "apt") {
        if staging {
            push_str(&mut r, "wine-development");
        } else {
            push_str(&mut r, "wine");
        }
    } else if str_eq(pm, "dnf") {
        push_str(&mut r, "wine");
        push_str(&mut r, "wine-mono-core");
        push_str(&mut r, "wine-gecko");
    }
    assert(strs_view(r@) =~= wine_packages_spec(pm@, *choices));
    r
}

fn add_tool_packages(r: &mut Vec<String>, pm: &str, choices: &InstallChoices)
    ensures
        strs_view(final(r)@) == strs_view(old(r)@) + tool_packages_spec(pm@, *choices),
{
    let pacman = str_eq(pm, "pacman");
    let ghost start = strs_view(r@);
    if choices.winetricks {
        push_str(r, "winetricks");
    }
    let ghost after_tricks = strs_view(r@);
    if choices.mangohud {
        push_str(r, "mangohud");
        if pacman {
            push_str(r, "lib32-mangohud");
        }
    }
    let ghost after_hud = strs_view(r@);
    if choices.gamemode {
        push_str(r, "gamemode");
        if pacman {
            push_str(r, "lib32-gamemode");
        }
    }
    assert(strs_view(r@) =~= start + tool_packages_spec(pm@, *choices));
}

/// The packages to install for the choices, with the package manager `pm`:
/// Wine in the chosen branch with its companions, Winetricks, MangoHud and
/// GameMode, with their 32-bit libraries under `pacman`.
pub fn packages_for(pm: &str, choices: &InstallChoices) -> (r: Vec<String>)
    ensures
        strs_view(r@) == packages_spec(pm@, *choices),
{
    let mut r = wine_packages(pm, choices);
    add_tool_packages(&mut r, pm, choices);
    r
}

/// The command, after `sudo`, that installs `packages` with the package
/// manager `pm`; `None` for an unknown one.
pub open spec fn install_command_spec(pm: Seq<char>, packages: Seq<Seq<char>>) -> Option<
    Seq<Seq<char>>,
> {
    if pm == "pacman"@ {
        Some(seq!["pacman"@, "-S"@, "--noconfirm"@, "--needed"@] + packages)
    } else if pm == "apt"@ {
        Some(seq!["apt-get"@, "install"@, "-y"@] + packages)
    } else if pm == "dnf"@ {
        Some(seq!["dnf"@, "install"@, "-y"@] + packages)
    } else {
        None
    }
}

/// The views of an optional list of strings.
pub open spec fn opt_strs_view(o: Option<Vec<String>>) -> Option<Seq<Seq<char>>> {
    match o {
        Some(v) => Some(strs_view(v@)),
        None => None,
    }
}

/// The command, after `sudo`, that installs `packages` with `pm`.
pub fn install_command(pm: &str, packages: &Vec<String>) -> (r: Option<Vec<String>>)
    ensures
        opt_strs_view(r) == install_command_spec(pm@, strs_view(packages@)),
{
    let mut r: Vec<String> = Vec::new();
    if str_eq(pm, "pacman") {
        push_str(&mut r, "pacman");
        push_str(&mut r, "-S");
        push_str(&mut r, "--noconfirm");
        push_str(&mut r, "--needed");
    } else if str_eq(pm, "apt") {
        push_str(&mut r, "apt-get");
        push_str(&mut r, "install");
        push_str(&mut r, "-y");
    } else if str_eq(pm, "dnf") {
        push_str(&mut r, "dnf");
        push_str(&mut r, "install");
        push_str(&mut r, "-y");
    } else {
        return None;
    }
    let ghost head = strs_view(r@);
    let mut i: usize = 0;
    while i < packages.len()
        invariant
            i <= packages@.len(),
            strs_view(r@) == head + strs_view(packages@).take(i as int),
        decreases packages@.len() - i,
    {
        push_str(&mut r, packages[i].as_str());
        assert(strs_view(packages@).take(i + 1) =~= strs_view(packages@).take(i as int).push(
            packages@[i as int]@,
        ));
        assert(head + strs_view(packages@).take(i + 1) =~= (head + strs_view(packages@).take(
            i as int,
        )).push(packages@[i as int]@));
        i = i + 1;
    }
    assert(strs_view(packages@).take(packages@.len() as int) =~= strs_view(packages@));
    Some(r)
}

/// Whether the 32-bit architecture question is asked: only with `apt`.
pub fn asks_multiarch(pm: &str) -> (r: bool)
    ensures
        r == (pm@ == "apt"@),
{
    str_eq(pm, "apt")
}

/// The files and directories that uninstalling removes, under the home
/// directory.
#[derive(Debug, Clone)]
pub struct UninstallPaths {
    pub desktop_entry: String,
    pub user_icon: String,
    pub user_fallback_icon: String,
    pub data_dir: String,
    pub config_dir: String,
}

impl UninstallPaths {
    /// The launcher's files under the home directory `home`.
    pub fn new(home: &str) -> (r: UninstallPaths)
        ensures
            r.desktop_entry@ == join_path(home@, ".local/share/applications/lgtui.desktop"@),
            r.user_icon@ == join_path(home@, ".local/share/icons/hicolor/scalable/apps/lgtui.svg"@),
            r.user_fallback_icon@ == join_path(home@, ".local/share/icons/lgtui.svg"@),
            r.data_dir@ == join_path(home@, ".local/share/lgtui"@),
            r.config_dir@ == join_path(home@, ".config/lgui"@),
    {
        UninstallPaths {
            desktop_entry: join_path_exec(home, ".local/share/applications/lgtui.desktop"),
            user_icon: join_path_exec(home, ".local/share/icons/hicolor/scalable/apps/lgtui.svg"),
            user_fallback_icon: join_path_exec(home, ".local/share/icons/lgtui.svg"),
            data_dir: join_path_exec(home, ".local/share/lgtui"),
            config_dir: join_path_exec(home, ".config/lgui"),
        }
    }
}

} // verus!
