use vstd::prelude::*;

use crate::app::{
    find_runner, runner_index_from, AddGameFocus, AddGameModalState, App, MenuItem, PaneFocus,
    RunnerState,
};
use crate::database::GameStats;
use crate::game::{opt_view, GameStatus, Runner};
use crate::naming::{valid_exec_path, validate_exec_path};
use crate::onboarding::{OnboardingState, OnboardingStep};
use crate::prefix::WinePrefix;
use crate::text::{
    blank, chars_of, concat, contains, decimal, has_infix, is_blank, push_char, push_decimal,
    push_padded, str_eq, string_from, zero_pad,
};

verus! {

// ---------------------------------------------------------------------------
// Dates
// ---------------------------------------------------------------------------
/// Whether `y` is a leap year of the Gregorian calendar.
pub open spec fn is_leap_year(y: int) -> bool {
    (y % 4 == 0 && y % 100 != 0) || y % 400 == 0
}

/// The number of days of the year `y`.
pub open spec fn year_days(y: int) -> int {
    if is_leap_year(y) {
        366
    } else {
        365
    }
}

/// The number of days from 1970-01-01 to January 1st of the year `y`
/// (`y >= 1970`).
pub open spec fn days_to_year(y: int) -> int
    decreases y - 1970,
{
    if y <= 1970 {
        0
    } else {
        days_to_year(y - 1) + year_days(y - 1)
    }
}

/// The number of days of the month `m` (1 to 12) of the year `y`.
pub open spec fn month_days(y: int, m: int) -> int {
    if m == 2 {
        if is_leap_year(y) {
            29
        } else {
            28
        }
    } else if m == 4 || m == 6 || m == 9 || m == 11 {
        30
    } else {
        31
    }
}

/// The number of days of the year `y` before the first of the month `m`.
pub open spec fn days_to_month(y: int, m: int) -> int {
    let common: int = if m <= 1 {
        0
    } else if m == 2 {
        31
    } else if m == 3 {
        59
    } else if m == 4 {
        90
    } else if m == 5 {
        120
    } else if m == 6 {
        151
    } else if m == 7 {
        181
    } else if m == 8 {
        212
    } else if m == 9 {
        243
    } else if m == 10 {
        273
    } else if m == 11 {
        304
    } else {
        334
    };
    if m > 2 && is_leap_year(y) {
        common + 1
    } else {
        common
    }
}

/// Whether `y-m-d` is the date `days` days after 1970-01-01.
pub open spec fn is_date_of(days: int, y: int, m: int, d: int) -> bool {
    &&& 1970 <= y
    &&& 1 <= m <= 12
    &&& 1 <= d <= month_days(y, m)
    &&& days == days_to_year(y) + days_to_month(y, m) + d - 1
}

/// A date and a time of day as `YYYY-MM-DD HH:MM`.
pub open spec fn timestamp_text(y: int, m: int, d: int, hour: int, minute: int) -> Seq<char> {
    zero_pad(decimal(y as nat), 4) + "-"@ + zero_pad(decimal(m as nat), 2) + "-"@ + zero_pad(
        decimal(d as nat),
        2,
    ) + " "@ + zero_pad(decimal(hour as nat), 2) + ":"@ + zero_pad(decimal(minute as nat), 2)
}

proof fn lemma_days_to_year_grows(a: int, b: int)
    requires
        1970 <= a <= b,
    ensures
        days_to_year(b) >= days_to_year(a) + (b - a) * 365,
    decreases b - a,
{
    if a < b {
        lemma_days_to_year_grows(a, b - 1);
    }
}

/// A number of days after 1970-01-01 names one date only.
pub proof fn lemma_date_unique(days: int, y1: int, m1: int, d1: int, y2: int, m2: int, d2: int)
    requires
        is_date_of(days, y1, m1, d1),
        is_date_of(days, y2, m2, d2),
    ensures
        y1 == y2 && m1 == m2 && d1 == d2,
{
    if y1 < y2 {
        lemma_days_to_year_grows(y1 + 1, y2);
    } else if y2 < y1 {
        lemma_days_to_year_grows(y2 + 1, y1);
    }
}

/// Whether the date `y1-m1-d1` comes before `y2-m2-d2`.
pub open spec fn date_before(y1: int, m1: int, d1: int, y2: int, m2: int, d2: int) -> bool {
    y1 < y2 || (y1 == y2 && (m1 < m2 || (m1 == m2 && d1 < d2)))
}

/// A later day count names a later date.
pub proof fn lemma_later_day_later_date(
    x: int,
    y1: int,
    m1: int,
    d1: int,
    z: int,
    y2: int,
    m2: int,
    d2: int,
)
    requires
        x < z,
        is_date_of(x, y1, m1, d1),
        is_date_of(z, y2, m2, d2),
    ensures
        date_before(y1, m1, d1, y2, m2, d2),
{
    if y2 < y1 {
        lemma_days_to_year_grows(y2 + 1, y1);
    } else if y1 == y2 && m2 < m1 {
    } else if y1 < y2 {
    }
}

/// A later Unix time never shows an earlier date, hour or minute: the
/// fields that `format_timestamp` writes, read in the order it writes them,
/// never go back as the time goes on.
pub proof fn lemma_later_time_later_stamp(
    a: u64,
    b: u64,
    y1: int,
    m1: int,
    d1: int,
    y2: int,
    m2: int,
    d2: int,
)
    requires
        a <= b,
        is_date_of((a / 86400) as int, y1, m1, d1),
        is_date_of((b / 86400) as int, y2, m2, d2),
    ensures
        ({
            let h1 = (a % 86400) / 3600;
            let h2 = (b % 86400) / 3600;
            let n1 = (a % 86400) % 3600 / 60;
            let n2 = (b % 86400) % 3600 / 60;
            ||| date_before(y1, m1, d1, y2, m2, d2)
            ||| (y1 == y2 && m1 == m2 && d1 == d2 && (h1 < h2 || (h1 == h2 && n1 <= n2)))
        }),
{
    assert(a / 86400 <= b / 86400) by (nonlinear_arith)
        requires
            a <= b,
    ;
    if a / 86400 < b / 86400 {
        lemma_later_day_later_date(
            (a / 86400) as int,
            y1,
            m1,
            d1,
            (b / 86400) as int,
            y2,
            m2,
            d2,
        );
    } else {
        lemma_date_unique((a / 86400) as int, y1, m1, d1, y2, m2, d2);
        let ra = a % 86400;
        let rb = b % 86400;
        assert(ra <= rb) by (nonlinear_arith)
            requires
                a <= b,
                a / 86400 == b / 86400,
                ra == a % 86400,
                rb == b % 86400,
        ;
        assert(ra / 3600 <= rb / 3600) by (nonlinear_arith)
            requires
                ra <= rb,
        ;
        if ra / 3600 == rb / 3600 {
            assert(ra % 3600 <= rb % 3600) by (nonlinear_arith)
                requires
                    ra <= rb,
                    ra / 3600 == rb / 3600,
            ;
            assert((ra % 3600) / 60 <= (rb % 3600) / 60) by (nonlinear_arith)
                requires
                    ra % 3600 <= rb % 3600,
            ;
        }
    }
}

fn leap(y: u64) -> (r: bool)
    ensures
        r == is_leap_year(y as int),
{
    (y % 4 == 0 && y % 100 != 0) || y % 400 == 0
}

fn month_length(y: u64, m: u64) -> (r: u64)
    ensures
        r == month_days(y as int, m as int),
{
    if m == 2 {
        if leap(y) {
            29
        } else {
            28
        }
    } else if m == 4 || m == 6 || m == 9 || m == 11 {
        30
    } else {
        31
    }
}

/// A Unix time as the UTC date and time `YYYY-MM-DD HH:MM`.
pub fn format_timestamp(secs: u64) -> (r: String)
    ensures
        exists|y: int, m: int, d: int|
            #[trigger] is_date_of((secs / 86400) as int, y, m, d) && r@ == timestamp_text(
                y,
                m,
                d,
                ((secs % 86400) / 3600) as int,
                ((secs % 86400) % 3600 / 60) as int,
            ),
{
    let days = secs / 86400;
    let seconds_in_day = secs % 86400;
    let hours = seconds_in_day / 3600;
    let minutes = (seconds_in_day % 3600) / 60;
    let mut year: u64 = 1970;
    let mut days_left: u64 = days;
    loop
        invariant
            1970 <= year,
            year - 1970 <= days - days_left,
            days_left <= days,
            days <= u64::MAX / 86400,
            days == days_to_year(year as int) + days_left,
        ensures
            1970 <= year,
            days == days_to_year(year as int) + days_left,
            days_left < year_days(year as int),
        decreases days_left,
    {
        let year_length: u64 = if leap(year) {
            366
        } else {
            365
        };
        if days_left < year_length {
            break ;
        }
        days_left = days_left - year_length;
        year = year + 1;
    }
    let ghost year_start = days_left;
    let mut month: u64 = 1;
    while month < 12 && days_left >= month_length(year, month)
        invariant
            1 <= month <= 12,
            year_start < year_days(year as int),
            days_left + days_to_month(year as int, month as int) == year_start,
        decreases 12 - month,
    {
        days_left = days_left - month_length(year, month);
        month = month + 1;
    }
    let day = days_left + 1;
    assert(is_date_of(days as int, year as int, month as int, day as int));
    let mut r = String::new();
    push_padded(&mut r, year, 4);
    r.append("-");
    push_padded(&mut r, month, 2);
    r.append("-");
    push_padded(&mut r, day, 2);
    r.append(" ");
    push_padded(&mut r, hours, 2);
    r.append(":");
    push_padded(&mut r, minutes, 2);
    assert(r@ =~= timestamp_text(
        year as int,
        month as int,
        day as int,
        hours as int,
        minutes as int,
    ));
    r
}

/// A duration in seconds as hours, minutes and seconds.
pub open spec fn playtime_text(secs: nat) -> Seq<char> {
    decimal(secs / 3600) + "h "@ + decimal((secs % 3600) / 60) + "m "@ + decimal(secs % 60) + "s"@
}

/// A play time as `{hours}h {minutes}m {seconds}s`.
pub fn format_playtime(secs: u64) -> (r: String)
    ensures
        r@ == playtime_text(secs as nat),
{
    let mut r = String::new();
    push_decimal(&mut r, secs / 3600);
    r.append("h ");
    push_decimal(&mut r, (secs % 3600) / 60);
    r.append("m ");
    push_decimal(&mut r, secs % 60);
    r.append("s");
    assert(r@ =~= playtime_text(secs as nat));
    r
}

// ---------------------------------------------------------------------------
// Focus
// ---------------------------------------------------------------------------
/// Whether the right pane has the focus: one of its lists holds it and no
/// dialog is open.
pub open spec fn right_focused(app: App) -> bool {
    (app.focus == PaneFocus::LibraryList || app.focus == PaneFocus::MetadataPanel)
        && app.active_modal is None
}

/// Whether the right pane has the focus.
pub fn is_right_focused(app: &App) -> (r: bool)
    ensures
        r == right_focused(*app),
{
    (app.focus == PaneFocus::LibraryList || app.focus == PaneFocus::MetadataPanel)
        && app.active_modal.is_none()
}

// ---------------------------------------------------------------------------
// Colours and badges
// ---------------------------------------------------------------------------
/// The colour roles of the interface.
#[derive(Debug, Clone, Copy, PartialEq, Eq, Structural)]
pub enum Tone {
    /// Ordinary text.
    Text,
    /// Secondary text.
    Muted,
    /// Labels and notes.
    Info,
    /// What went well or is enabled.
    Success,
    /// Warnings and errors.
    Warn,
    /// The active border and what is being worked on.
    Accent,
    /// The border of what has not the focus.
    Dim,
}

/// The colour of a line of the winetricks log.
pub open spec fn winetricks_log_tone_spec(line: Seq<char>) -> Tone {
    if has_infix(line, "Error"@) {
        Tone::Warn
    } else if has_infix(line, "Executing"@) {
        Tone::Info
    } else if has_infix(line, "applied successfully"@) {
        Tone::Success
    } else {
        Tone::Muted
    }
}

/// The colour of a line of the winetricks log.
pub fn winetricks_log_tone(line: &str) -> (r: Tone)
    ensures
        r == winetricks_log_tone_spec(line@),
{
    let cs = chars_of(line);
    if contains(&cs, "Error") {
        Tone::Warn
    } else if contains(&cs, "Executing") {
        Tone::Info
    } else if contains(&cs, "applied successfully") {
        Tone::Success
    } else {
        Tone::Muted
    }
}

/// The colour of a line of the dependency script's log.
pub open spec fn script_log_tone_spec(line: Seq<char>) -> Tone {
    if has_infix(line, "ERROR"@) || has_infix(line, "errors"@) {
        Tone::Warn
    } else if has_infix(line, "Executing"@) || has_infix(line, "started"@) {
        Tone::Info
    } else if has_infix(line, "completed successfully"@) || has_infix(line, "Successfully"@) {
        Tone::Success
    } else {
        Tone::Text
    }
}

/// The colour of a line of the dependency script's log.
pub fn script_log_tone(line: &str) -> (r: Tone)
    ensures
        r == script_log_tone_spec(line@),
{
    let cs = chars_of(line);
    if contains(&cs, "ERROR") || contains(&cs, "errors") {
        Tone::Warn
    } else if contains(&cs, "Executing") || contains(&cs, "started") {
        Tone::Info
    } else if contains(&cs, "completed successfully") || contains(&cs, "Successfully") {
        Tone::Success
    } else {
        Tone::Text
    }
}

/// The first of the last `n` positions of a list of length `len`.
pub fn tail_start(len: usize, n: usize) -> (r: usize)
    ensures
        r == if len > n {
            len - n
        } else {
            0
        },
{
    if len > n {
        len - n
    } else {
        0
    }
}

/// What the runner list shows before a runner's name.
#[derive(Debug, Clone, Copy, PartialEq, Eq, Structural)]
pub enum RunnerBadge {
    Installed,
    Extracting,
    Downloading,
    Available,
}

/// The badge of the `i`-th runner: installed, being extracted or
/// downloaded (when it is the runner being downloaded), or available.
pub open spec fn runner_badge_spec(app: App, i: int) -> RunnerBadge {
    let r = app.config.runners@[i];
    if r.installed {
        RunnerBadge::Installed
    } else if opt_view(app.downloading_runner_id) == Some(r.id@) {
        if app.runner_state is Extracting {
            RunnerBadge::Extracting
        } else {
            RunnerBadge::Downloading
        }
    } else {
        RunnerBadge::Available
    }
}

/// The badge of the `i`-th runner.
pub fn runner_badge(app: &App, i: usize) -> (r: RunnerBadge)
    requires
        i < app.config.runners@.len(),
    ensures
        r == runner_badge_spec(*app, i as int),
{
    let runner = &app.config.runners[i];
    if runner.installed {
        return RunnerBadge::Installed;
    }
    let downloading = match &app.downloading_runner_id {
        Some(id) => str_eq(id.as_str(), runner.id.as_str()),
        None => false,
    };
    if downloading {
        match app.runner_state {
            RunnerState::Extracting => RunnerBadge::Extracting,
            _ => RunnerBadge::Downloading,
        }
    } else {
        RunnerBadge::Available
    }
}

/// A runner as `name (version)`.
pub open spec fn runner_label_spec(r: Runner) -> Seq<char> {
    r.name@ + " ("@ + r.version@ + ")"@
}

/// A runner as `name (version)`.
pub fn runner_label(r: &Runner) -> (s: String)
    ensures
        s@ == runner_label_spec(*r),
{
    let mut s = concat(r.name.as_str(), " (");
    s.append(r.version.as_str());
    s.append(")");
    s
}

/// The version of the runner being downloaded: that of the first runner
/// with its identifier, or nothing.
pub open spec fn downloading_version_spec(app: App) -> Seq<char> {
    let id = match app.downloading_runner_id {
        Some(s) => s@,
        None => Seq::empty(),
    };
    match runner_index_from(app.config.runners@, id, 0) {
        Some(i) => app.config.runners@[i].version@,
        None => Seq::empty(),
    }
}

/// The version of the runner being downloaded, shown over the progress bar.
pub fn downloading_version(app: &App) -> (r: String)
    ensures
        r@ == downloading_version_spec(*app),
{
    let id = match &app.downloading_runner_id {
        Some(s) => s.clone(),
        None => String::new(),
    };
    proof {
        crate::app::lemma_index_from_bounds_runner(app.config.runners@, id@, 0);
    }
    match find_runner(&app.config.runners, id.as_str()) {
        Some(i) => app.config.runners[i].version.clone(),
        None => String::new(),
    }
}

/// What the prefix lists show of a prefix's status.
#[derive(Debug, Clone, Copy, PartialEq, Eq, Structural)]
pub enum PrefixBadge {
    Ready,
    Booting,
    NotInitialized,
}

/// The badge for a prefix status text.
pub open spec fn prefix_badge_spec(status: Seq<char>) -> PrefixBadge {
    if status == "Ready"@ {
        PrefixBadge::Ready
    } else if status == "Booting..."@ {
        PrefixBadge::Booting
    } else {
        PrefixBadge::NotInitialized
    }
}

/// The badge for a prefix status text.
pub fn prefix_badge(status: &str) -> (r: PrefixBadge)
    ensures
        r == prefix_badge_spec(status@),
{
    if str_eq(status, "Ready") {
        PrefixBadge::Ready
    } else if str_eq(status, "Booting...") {
        PrefixBadge::Booting
    } else {
        PrefixBadge::NotInitialized
    }
}

// ---------------------------------------------------------------------------
// Labels
// ---------------------------------------------------------------------------
/// `s` padded with spaces on the right to at least `width` characters.
pub open spec fn pad_right(s: Seq<char>, width: nat) -> Seq<char> {
    if s.len() < width {
        s + Seq::new((width - s.len()) as nat, |i: int| ' ')
    } else {
        s
    }
}

/// Appends `t` padded with spaces on the right to at least `width`
/// characters.
pub fn push_padded_right(s: &mut String, t: &str, width: usize)
    ensures
        final(s)@ == old(s)@ + pad_right(t@, width as nat),
{
    s.append(t);
    let n = chars_of(t).len();
    let ghost mid = s@;
    if n < width {
        let mut k: usize = 0;
        while k < width - n
            invariant
                n < width,
                k <= width - n,
                s@ == mid + Seq::new(k as nat, |i: int| ' '),
            decreases width - n - k,
        {
            push_char(s, ' ');
            k = k + 1;
            assert(s@ =~= mid + Seq::new(k as nat, |i: int| ' '));
        }
    }
    assert(s@ =~= old(s)@ + pad_right(t@, width as nat));
}

/// A winetricks entry of the list: its verb padded to 16 characters, then
/// its description.
pub open spec fn winetricks_label_spec(verb: Seq<char>, desc: Seq<char>) -> Seq<char> {
    "  "@ + pad_right(verb, 16) + " - "@ + desc
}

/// A winetricks entry of the list.
pub fn winetricks_label(verb: &str, desc: &str) -> (r: String)
    ensures
        r@ == winetricks_label_spec(verb@, desc@),
{
    let mut r = string_from("  ");
    push_padded_right(&mut r, verb, 16);
    r.append(" - ");
    r.append(desc);
    r
}

/// A setting's label padded to 32 characters.
pub open spec fn settings_label_spec(label: Seq<char>) -> Seq<char> {
    "  "@ + pad_right(label, 32) + " : "@
}

/// A setting's label as the settings list shows it.
pub fn settings_label(label: &str) -> (r: String)
    ensures
        r@ == settings_label_spec(label@),
{
    let mut r = string_from("  ");
    push_padded_right(&mut r, label, 32);
    r.append(" : ");
    r
}

/// A setting's value as shown: a ticked or empty box for a switch, then
/// the value.
pub open spec fn settings_value_spec(value: Seq<char>, is_switch: bool) -> (Seq<char>, Tone) {
    if is_switch {
        if value == "Enabled"@ {
            (" [✔] "@ + value, Tone::Success)
        } else {
            (" [ ] "@ + value, Tone::Muted)
        }
    } else {
        (" "@ + value, Tone::Info)
    }
}

/// A setting's value as shown, with its colour.
pub fn settings_value(value: &str, is_switch: bool) -> (r: (String, Tone))
    ensures
        (r.0@, r.1) == settings_value_spec(value@, is_switch),
{
    if is_switch {
        if str_eq(value, "Enabled") {
            (concat(" [✔] ", value), Tone::Success)
        } else {
            (concat(" [ ] ", value), Tone::Muted)
        }
    } else {
        (concat(" ", value), Tone::Info)
    }
}

/// A prefix of the settings list: name, architecture and path.
pub open spec fn prefix_settings_label_spec(p: WinePrefix) -> Seq<char> {
    "  "@ + pad_right(p.name@, 12) + " ["@ + pad_right(p.architecture@, 5) + "] -> "@ + p.path@
}

/// A prefix as the settings list shows it.
pub fn prefix_settings_label(p: &WinePrefix) -> (r: String)
    ensures
        r@ == prefix_settings_label_spec(*p),
{
    let mut r = string_from("  ");
    push_padded_right(&mut r, p.name.as_str(), 12);
    r.append(" [");
    push_padded_right(&mut r, p.architecture.as_str(), 5);
    r.append("] -> ");
    r.append(p.path.as_str());
    r
}

/// A prefix of the prefix manager's list: name and architecture.
pub open spec fn prefix_list_label_spec(p: WinePrefix) -> Seq<char> {
    "  "@ + pad_right(p.name@, 16) + " ["@ + pad_right(p.architecture@, 5) + "]"@
}

/// A prefix as the prefix manager's list shows it.
pub fn prefix_list_label(p: &WinePrefix) -> (r: String)
    ensures
        r@ == prefix_list_label_spec(*p),
{
    let mut r = string_from("  ");
    push_padded_right(&mut r, p.name.as_str(), 16);
    r.append(" [");
    push_padded_right(&mut r, p.architecture.as_str(), 5);
    r.append("]");
    r
}

// ---------------------------------------------------------------------------
// The game library
// ---------------------------------------------------------------------------
/// The colour of the marker before a game's name.
pub open spec fn status_marker_tone(st: GameStatus) -> Tone {
    match st {
        GameStatus::Ready => Tone::Muted,
        GameStatus::Running { .. } => Tone::Success,
        GameStatus::Error(_) => Tone::Warn,
    }
}

/// The colour of the marker before a game's name.
pub fn status_marker(st: &GameStatus) -> (r: Tone)
    ensures
        r == status_marker_tone(*st),
{
    match st {
        GameStatus::Ready => Tone::Muted,
        GameStatus::Running { .. } => Tone::Success,
        GameStatus::Error(_) => Tone::Warn,
    }
}

/// A game's status as its details show it.
pub open spec fn status_detail_spec(st: GameStatus) -> (Seq<char>, Tone) {
    match st {
        GameStatus::Ready => ("Ready to Play"@, Tone::Success),
        GameStatus::Running { pid, .. } => (
            "Running (PID: "@ + decimal(pid as nat) + ")"@,
            Tone::Accent,
        ),
        GameStatus::Error(e) => ("Error: "@ + e@, Tone::Warn),
    }
}

/// A game's status as its details show it, with its colour.
pub fn status_detail(st: &GameStatus) -> (r: (String, Tone))
    ensures
        (r.0@, r.1) == status_detail_spec(*st),
{
    match st {
        GameStatus::Ready => (string_from("Ready to Play"), Tone::Success),
        GameStatus::Running { pid, .. } => {
            let mut s = string_from("Running (PID: ");
            push_decimal(&mut s, *pid as u64);
            s.append(")");
            (s, Tone::Accent)
        },
        GameStatus::Error(e) => (concat("Error: ", e.as_str()), Tone::Warn),
    }
}

/// The text shown for an optional setting, or its fallback.
pub open spec fn or_text(o: Option<String>, fallback: Seq<char>) -> Seq<char> {
    match o {
        Some(s) => s@,
        None => fallback,
    }
}

/// A game's runner as its details show it.
pub fn runner_text(runner_id: &Option<String>) -> (r: String)
    ensures
        r@ == or_text(*runner_id, "System default (Wine)"@),
{
    match runner_id {
        Some(s) => s.clone(),
        None => string_from("System default (Wine)"),
    }
}

/// A game's prefix as its details show it.
pub fn prefix_text(wineprefix: &Option<String>) -> (r: String)
    ensures
        r@ == or_text(*wineprefix, "Default shared prefix"@),
{
    match wineprefix {
        Some(s) => s.clone(),
        None => string_from("Default shared prefix"),
    }
}

/// When a game was last played, as its statistics show it: the date and
/// time, or `Never`.
pub fn last_played_text(stats: &GameStats) -> (r: String)
    ensures
        stats.last_played is None ==> r@ == "Never"@,
        stats.last_played matches Some(t) ==> exists|y: int, m: int, d: int|
            #[trigger] is_date_of((t / 86400) as int, y, m, d) && r@ == timestamp_text(
                y,
                m,
                d,
                ((t % 86400) / 3600) as int,
                ((t % 86400) % 3600 / 60) as int,
            ),
{
    match stats.last_played {
        Some(t) => format_timestamp(t),
        None => string_from("Never"),
    }
}

/// The number of launches as `{n} sessions`.
pub fn sessions_text(n: u32) -> (r: String)
    ensures
        r@ == decimal(n as nat) + " sessions"@,
{
    let mut r = String::new();
    push_decimal(&mut r, n as u64);
    r.append(" sessions");
    r
}

/// A frame rate as `{n} FPS`, or `None` when none was measured (shown as
/// `N/A`).
pub fn fps_text(fps: u32) -> (r: Option<String>)
    ensures
        fps == 0 ==> r is None,
        fps > 0 ==> (r matches Some(s) && s@ == decimal(fps as nat) + " FPS"@),
{
    if fps == 0 {
        None
    } else {
        let mut r = String::new();
        push_decimal(&mut r, fps as u64);
        r.append(" FPS");
        Some(r)
    }
}

// ---------------------------------------------------------------------------
// The add-game dialog
// ---------------------------------------------------------------------------
/// The runner shown in the add-game dialog: the system Wine for 0, the
/// `(i - 1)`-th runner for `i`, or an unknown one past the list.
pub open spec fn dialog_runner_spec(runners: Seq<Runner>, i: int) -> Seq<char> {
    if i == 0 {
        "System Wine (Default)"@
    } else if i - 1 < runners.len() {
        runner_label_spec(runners[i - 1])
    } else {
        "Unknown Runner"@
    }
}

/// The runner shown in the add-game dialog.
pub fn dialog_runner_label(app: &App, selected: usize) -> (r: String)
    ensures
        r@ == dialog_runner_spec(app.config.runners@, selected as int),
{
    if selected == 0 {
        string_from("System Wine (Default)")
    } else if selected - 1 < app.config.runners.len() {
        runner_label(&app.config.runners[selected - 1])
    } else {
        string_from("Unknown Runner")
    }
}

/// The note under the add-game dialog's fields.
#[derive(Debug, Clone, Copy, PartialEq, Eq, Structural)]
pub enum AddGameNotice {
    /// The typed executable path is not valid: blank, or holding a
    /// forbidden character.
    InvalidPath,
    /// The title is still empty.
    MissingTitle,
    /// No executable path is typed yet.
    MissingPath,
    /// The game can be added.
    Valid,
}

/// The note for the dialog's contents: a typed path that is not valid
/// comes first, then an empty title, then a missing path; the contents are
/// valid when the title is not blank and the path is valid.
pub open spec fn add_game_notice_spec(m: AddGameModalState) -> AddGameNotice {
    if m.exec_path@.len() > 0 && !valid_exec_path(m.exec_path@) {
        AddGameNotice::InvalidPath
    } else if is_blank(m.title@) {
        AddGameNotice::MissingTitle
    } else if m.exec_path@.len() == 0 {
        AddGameNotice::MissingPath
    } else {
        AddGameNotice::Valid
    }
}

/// The note for the dialog's contents. It reads `Valid` exactly when Enter
/// adds the game: the title is not blank and the path is valid.
pub fn add_game_notice(m: &AddGameModalState) -> (r: AddGameNotice)
    ensures
        r == add_game_notice_spec(*m),
        (r == AddGameNotice::Valid) == (!is_blank(m.title@) && valid_exec_path(m.exec_path@)),
{
    let typed = chars_of(m.exec_path.as_str()).len() > 0;
    if typed && !validate_exec_path(m.exec_path.as_str()) {
        AddGameNotice::InvalidPath
    } else if blank(m.title.as_str()) {
        AddGameNotice::MissingTitle
    } else if !typed {
        proof {
            assert(is_blank(m.exec_path@));
        }
        AddGameNotice::MissingPath
    } else {
        AddGameNotice::Valid
    }
}

/// The border of the dialog's executable field: active under the cursor,
/// a warning for a typed path that is not valid, dim otherwise.
pub open spec fn exec_field_tone_spec(m: AddGameModalState) -> Tone {
    if m.focus == AddGameFocus::ExecPath {
        Tone::Accent
    } else if m.exec_path@.len() > 0 && !valid_exec_path(m.exec_path@) {
        Tone::Warn
    } else {
        Tone::Dim
    }
}

/// The border of the dialog's executable field.
pub fn exec_field_tone(m: &AddGameModalState) -> (r: Tone)
    ensures
        r == exec_field_tone_spec(*m),
{
    if m.focus == AddGameFocus::ExecPath {
        Tone::Accent
    } else if chars_of(m.exec_path.as_str()).len() > 0 && !validate_exec_path(
        m.exec_path.as_str(),
    ) {
        Tone::Warn
    } else {
        Tone::Dim
    }
}

// ---------------------------------------------------------------------------
// The footer
// ---------------------------------------------------------------------------
/// The key hints of the footer, by the focus and the screen.
pub open spec fn footer_hint_spec(focus: PaneFocus, menu: MenuItem) -> Seq<char> {
    match focus {
        PaneFocus::LeftMenu => "[Tab/l] Select Menu   [j/k] Navigate Menu   [a] Add Game   [i] Install Deps   [?] Help   [q] Quit"@,
        PaneFocus::LibraryList => match menu {
            MenuItem::Library => "[Enter] Launch Game   [Tab] Cycle Focus   [a] Add Game   [x] Delete Game   [?] Help   [q] Quit"@,
            MenuItem::RunnerManager => "[Enter] Install Runner   [j/k] Select   [Tab] Menu   [?] Help   [q] Quit"@,
            MenuItem::PrefixManager => "[Enter] Init Prefix   [x] Delete Prefix   [n] New Prefix   [j/k] Select   [Tab] Menu   [?] Help   [q] Quit"@,
            MenuItem::Winetricks => "[Enter] Apply Verb   [j/k] Select   [Tab] Menu   [?] Help   [q] Quit"@,
            MenuItem::DependencyInstaller => "[Enter] Run Installer Script   [Tab] Menu   [?] Help   [q] Quit"@,
            MenuItem::Settings => "[Space] Toggle   [Enter] Init Prefix   [n] New Prefix   [j/k] Navigate   [Tab] Menu   [?] Help   [q] Quit"@,
        },
        PaneFocus::MetadataPanel => match menu {
            MenuItem::Library => "[Space] Toggle Option   [j/k] Navigate Config   [Tab] Cycle Focus   [?] Help   [q] Quit"@,
            _ => "[Tab] Cycle Focus   [?] Help   [q] Quit"@,
        },
    }
}

/// The key hints of the footer for the current focus and screen.
pub fn footer_hint(app: &App) -> (r: &'static str)
    ensures
        r@ == footer_hint_spec(app.focus, app.spec_current_menu()),
{
    let menu = app.current_menu();
    match app.focus {
        PaneFocus::LeftMenu => "[Tab/l] Select Menu   [j/k] Navigate Menu   [a] Add Game   [i] Install Deps   [?] Help   [q] Quit",
        PaneFocus::LibraryList => match menu {
            MenuItem::Library => "[Enter] Launch Game   [Tab] Cycle Focus   [a] Add Game   [x] Delete Game   [?] Help   [q] Quit",
            MenuItem::RunnerManager => "[Enter] Install Runner   [j/k] Select   [Tab] Menu   [?] Help   [q] Quit",
            MenuItem::PrefixManager => "[Enter] Init Prefix   [x] Delete Prefix   [n] New Prefix   [j/k] Select   [Tab] Menu   [?] Help   [q] Quit",
            MenuItem::Winetricks => "[Enter] Apply Verb   [j/k] Select   [Tab] Menu   [?] Help   [q] Quit",
            MenuItem::DependencyInstaller => "[Enter] Run Installer Script   [Tab] Menu   [?] Help   [q] Quit",
            MenuItem::Settings => "[Space] Toggle   [Enter] Init Prefix   [n] New Prefix   [j/k] Navigate   [Tab] Menu   [?] Help   [q] Quit",
        },
        PaneFocus::MetadataPanel => match menu {
            MenuItem::Library => "[Space] Toggle Option   [j/k] Navigate Config   [Tab] Cycle Focus   [?] Help   [q] Quit",
            _ => "[Tab] Cycle Focus   [?] Help   [q] Quit",
        },
    }
}

// ---------------------------------------------------------------------------
// The first-start assistant
// ---------------------------------------------------------------------------
/// What the assistant shows of a tool: `Found` or `Missing`.
pub open spec fn tool_status_spec(found: bool) -> (Seq<char>, Tone) {
    if found {
        ("Found"@, Tone::Success)
    } else {
        ("Missing"@, Tone::Warn)
    }
}

/// What the assistant shows of a tool, with its colour.
pub fn tool_status(found: bool) -> (r: (&'static str, Tone))
    ensures
        (r.0@, r.1) == tool_status_spec(found),
{
    if found {
        ("Found", Tone::Success)
    } else {
        ("Missing", Tone::Warn)
    }
}

/// The bottom line of the assistant.
#[derive(Debug, Clone, Copy, PartialEq, Eq, Structural)]
pub enum OnboardingFooter {
    /// The system is being searched for the tools.
    Scanning,
    /// Some tool is missing: the yes and no buttons.
    AskToInstall,
    /// Every tool is there: Enter opens the library.
    ReadyToLaunch,
    /// The dependency script runs.
    Installing,
    /// The script succeeded: Enter opens the library.
    Succeeded,
    /// The script failed: Enter continues anyway.
    Failed,
}

/// The bottom line of the assistant for its screen.
pub open spec fn onboarding_footer_spec(step: OnboardingStep) -> OnboardingFooter {
    match step {
        OnboardingStep::Welcome => OnboardingFooter::Scanning,
        OnboardingStep::ScanResult(res) => if res.spec_has_missing() {
            OnboardingFooter::AskToInstall
        } else {
            OnboardingFooter::ReadyToLaunch
        },
        OnboardingStep::Installing { completed, success, .. } => if !completed {
            OnboardingFooter::Installing
        } else if success {
            OnboardingFooter::Succeeded
        } else {
            OnboardingFooter::Failed
        },
    }
}

/// The bottom line of the assistant.
pub fn onboarding_footer(ob: &OnboardingState) -> (r: OnboardingFooter)
    ensures
        r == onboarding_footer_spec(ob.step),
{
    match &ob.step {
        OnboardingStep::Welcome => OnboardingFooter::Scanning,
        OnboardingStep::ScanResult(res) => if res.has_missing() {
            OnboardingFooter::AskToInstall
        } else {
            OnboardingFooter::ReadyToLaunch
        },
        OnboardingStep::Installing { completed, success, .. } => if !*completed {
            OnboardingFooter::Installing
        } else if *success {
            OnboardingFooter::Succeeded
        } else {
            OnboardingFooter::Failed
        },
    }
}

} // verus!
