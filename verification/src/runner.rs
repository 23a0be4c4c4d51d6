use vstd::prelude::*;

use crate::game::{opt_view, strs_view, Runner};
use crate::onboarding::DiagnosticsResult;
use crate::text::{
    chars_of, concat, find_from, find_from_exec, join_path, join_path_exec, occurs_at, str_eq,
    str_to_lowercase, string_from, string_of, unicode_lowercase,
};

verus! {

/// What the background work reports to the user interface.
#[derive(Debug)]
pub enum AppEvent {
    GameStarted { game_id: String, pid: u32 },
    GameFinished { game_id: String, exit_code: i32 },
    ReleasesFetched(Vec<Runner>),
    DownloadProgress(u8),
    ExtractionStarted,
    DownloadFinished { runner_id: String, path: String },
    DownloadError(String),
    PrefixInitStarted { prefix_name: String },
    PrefixInitFinished { prefix_name: String, success: bool, error: Option<String> },
    ScriptStarted,
    ScriptLine(String),
    ScriptFinished(bool),
    OnboardingScanFinished(DiagnosticsResult),
    InstallerFinished { game_id: String, exec_path: String, wineprefix: String },
}

/// The runner downloads and the release feed.
pub struct RunnerManager;

// ---------------------------------------------------------------------------
// The release feed
// ---------------------------------------------------------------------------
/// The address under which the release feed links each Proton-GE release,
/// followed by the release's tag.
pub open spec fn release_link() -> Seq<char> {
    "https://github.com/GloriousEggroll/proton-ge-custom/releases/tag/"@
}

/// The tags that `feed` links from index `start` on, in order: each is the
/// text between an occurrence of the release link and the next `"`.  The
/// scan stops at the first link that no `"` follows.  (The guard on `end`
/// always holds, as the link is not empty; it makes the recursion visibly
/// finite.)
pub open spec fn linked_tags(feed: Seq<char>, start: int) -> Seq<Seq<char>>
    decreases feed.len() + 1 - start,
{
    match find_from(feed, release_link(), start) {
        None => Seq::empty(),
        Some(i) => {
            let tag_start = i + release_link().len();
            match find_from(feed, seq!['"'], tag_start) {
                None => Seq::empty(),
                Some(end) => if start < end <= feed.len() && tag_start <= end {
                    seq![feed.subrange(tag_start, end)] + linked_tags(feed, end)
                } else {
                    Seq::empty()
                },
            }
        }
    }
}

/// The non-empty tags of `tags`, each once, in the order of their first
/// occurrence.
pub open spec fn new_tags(tags: Seq<Seq<char>>) -> Seq<Seq<char>>
    decreases tags.len(),
{
    if tags.len() == 0 {
        Seq::empty()
    } else {
        let kept = new_tags(tags.drop_last());
        let t = tags.last();
        if t.len() > 0 && !kept.contains(t) {
            kept.push(t)
        } else {
            kept
        }
    }
}

/// The releases that a feed offers: its linked tags, without empty ones and
/// repetitions.
pub open spec fn feed_releases(feed: Seq<char>) -> Seq<Seq<char>> {
    new_tags(linked_tags(feed, 0))
}

/// Where the releases of the feed are unpacked, under the home directory.
pub open spec fn compat_tools_dir_spec(home: Seq<char>) -> Seq<char> {
    join_path(home, ".local/share/steam/compatibilitytools.d"@)
}

/// The address of a release's archive.
pub open spec fn release_archive_url(tag: Seq<char>) -> Seq<char> {
    "https://github.com/GloriousEggroll/proton-ge-custom/releases/download/"@ + tag + "/"@ + tag
        + ".tar.gz"@
}

/// Whether `r` is the runner entry of the release `tag`, unpacked (or to be
/// unpacked) under `compat_dir`.
pub open spec fn is_release_runner(
    r: Runner,
    tag: Seq<char>,
    compat_dir: Seq<char>,
    installed: bool,
) -> bool {
    &&& r.id@ == unicode_lowercase(tag)
    &&& r.name@ == "Proton-GE"@
    &&& r.version@ == tag
    &&& r.path@ == join_path(join_path(compat_dir, tag), "proton"@)
    &&& r.installed == installed
    &&& opt_view(r.download_url) == Some(release_archive_url(tag))
}

/// The download progress shown for `downloaded` bytes out of `total` (when
/// the size is known): the percentage, truncated to a byte as `as u8` does.
pub open spec fn progress_percent(downloaded: u64, total: Option<u64>) -> int {
    match total {
        Some(t) => (downloaded * 100) / (t as int) % 256,
        None => 0,
    }
}

/// `new_tags` keeps exactly the non-empty tags, and each only once.
proof fn lemma_new_tags(tags: Seq<Seq<char>>)
    ensures
        new_tags(tags).no_duplicates(),
        forall|x: Seq<char>| #[trigger]
            new_tags(tags).contains(x) <==> (tags.contains(x) && x.len() > 0),
    decreases tags.len(),
{
    if tags.len() > 0 {
        let rest = tags.drop_last();
        let t = tags.last();
        lemma_new_tags(rest);
        let kept = new_tags(rest);
        assert forall|x: Seq<char>| #[trigger] tags.contains(x) <==> (rest.contains(x) || x == t) by {
            if tags.contains(x) {
                let k = choose|k: int| 0 <= k < tags.len() && tags[k] == x;
                if k < tags.len() - 1 {
                    assert(rest[k] == x);
                }
            }
            if rest.contains(x) {
                let k = choose|k: int| 0 <= k < rest.len() && rest[k] == x;
                assert(tags[k] == x);
            }
            if x == t {
                assert(tags[tags.len() - 1] == x);
            }
        }
        if t.len() > 0 && !kept.contains(t) {
            let pushed = kept.push(t);
            assert forall|x: Seq<char>| #[trigger] pushed.contains(x) <==> (kept.contains(x) || x == t) by {
                if pushed.contains(x) {
                    let k = choose|k: int| 0 <= k < pushed.len() && pushed[k] == x;
                    if k < kept.len() {
                        assert(kept[k] == x);
                    }
                }
                if kept.contains(x) {
                    let k = choose|k: int| 0 <= k < kept.len() && kept[k] == x;
                    assert(pushed[k] == x);
                }
                if x == t {
                    assert(pushed[kept.len() as int] == x);
                }
            }
            assert forall|i: int, j: int| 0 <= i < pushed.len() && 0 <= j < pushed.len() && i != j
                implies pushed[i] != pushed[j] by {
                if i < kept.len() && j < kept.len() {
                } else if i < kept.len() {
                    assert(kept[i] == pushed[i]);
                } else {
                    assert(kept[j] == pushed[j]);
                }
            }
        }
    } else {
        assert(new_tags(tags) =~= Seq::<Seq<char>>::empty());
    }
}

/// The releases of a feed are exactly its non-empty linked tags, and none of
/// them is listed twice.
pub proof fn lemma_feed_releases_distinct(feed: Seq<char>)
    ensures
        feed_releases(feed).no_duplicates(),
        forall|tag: Seq<char>| #[trigger]
            feed_releases(feed).contains(tag) <==> (linked_tags(feed, 0).contains(tag) && tag.len()
                > 0),
{
    lemma_new_tags(linked_tags(feed, 0));
}

/// Whether some string of `v` holds the characters of `s`.
fn holds_string(v: &Vec<String>, s: &str) -> (r: bool)
    ensures
        r == strs_view(v@).contains(s@),
{
    let mut i: usize = 0;
    while i < v.len()
        invariant
            i <= v@.len(),
            forall|k: int| 0 <= k < i ==> v@[k]@ != s@,
        decreases v@.len() - i,
    {
        if str_eq(v[i].as_str(), s) {
            assert(strs_view(v@)[i as int] == s@);
            return true;
        }
        i = i + 1;
    }
    assert forall|k: int| 0 <= k < strs_view(v@).len() implies strs_view(v@)[k] != s@ by {
        assert(v@[k]@ != s@);
    }
    false
}

impl RunnerManager {
    /// The releases that the release feed `feed` offers, newest first as the
    /// feed lists them: the tag after each release link, up to the next `"`,
    /// skipping empty tags and tags already taken.
    pub fn release_tags(feed: &str) -> (r: Vec<String>)
        ensures
            strs_view(r@) == feed_releases(feed@),
    {
        let text = chars_of(feed);
        let link = chars_of("https://github.com/GloriousEggroll/proton-ge-custom/releases/tag/");
        proof {
            reveal_strlit("https://github.com/GloriousEggroll/proton-ge-custom/releases/tag/");
        }
        let quote: Vec<char> = vec!['"'];
        let mut tags: Vec<String> = Vec::new();
        let ghost mut seen: Seq<Seq<char>> = Seq::empty();
        let mut start: usize = 0;
        let n = text.len();
        assert(seen + linked_tags(feed@, 0) =~= linked_tags(feed@, 0));
        loop
            invariant
                text@ == feed@,
                link@ == release_link(),
                link@.len() > 0,
                quote@ == seq!['"'],
                start <= text@.len(),
                n == text@.len(),
                linked_tags(feed@, 0) == seen + linked_tags(feed@, start as int),
                strs_view(tags@) == new_tags(seen),
            ensures
                linked_tags(feed@, 0) == seen,
                strs_view(tags@) == new_tags(seen),
            decreases text@.len() - start,
        {
            let found = find_from_exec(&text, &link, start);
            match found {
                None => {
                    assert(seen + linked_tags(feed@, start as int) =~= seen);
                    break ;
                },
                Some(idx) => {
                    let tag_start = idx + link.len();
                    let closing = find_from_exec(&text, &quote, tag_start);
                    match closing {
                        None => {
                            assert(seen + linked_tags(feed@, start as int) =~= seen);
                            break ;
                        },
                        Some(end) => {
                            assert(occurs_at(text@, quote@, end as int));
                            let ghost tag_view = feed@.subrange(tag_start as int, end as int);
                            assert(linked_tags(feed@, start as int) == seq![tag_view]
                                + linked_tags(feed@, end as int));
                            let tag = string_of(&text, tag_start, end);
                            let known = holds_string(&tags, tag.as_str());
                            let ghost old_tags = tags@;
                            if tag_start < end && !known {
                                tags.push(tag);
                            }
                            proof {
                                let next = seen.push(tag_view);
                                assert(next.drop_last() =~= seen);
                                if tag_start < end && !known {
                                    assert(strs_view(tags@) =~= strs_view(old_tags).push(
                                        tag_view,
                                    ));
                                }
                                assert(seen + (seq![tag_view] + linked_tags(feed@, end as int))
                                    =~= next + linked_tags(feed@, end as int));
                                seen = next;
                            }
                            start = end;
                        },
                    }
                },
            }
        }
        tags
    }

    /// The directory under which the feed's releases are unpacked, for the
    /// home directory `home`.
    pub fn compat_tools_dir(home: &str) -> (r: String)
        ensures
            r@ == compat_tools_dir_spec(home@),
    {
        join_path_exec(home, ".local/share/steam/compatibilitytools.d")
    }

    /// The directory that the release `tag` unpacks into.
    pub fn release_dir(compat_dir: &str, tag: &str) -> (r: String)
        ensures
            r@ == join_path(compat_dir@, tag@),
    {
        join_path_exec(compat_dir, tag)
    }

    /// The Proton executable inside an unpacked runner directory.
    pub fn runner_executable(dir: &str) -> (r: String)
        ensures
            r@ == join_path(dir@, "proton"@),
    {
        join_path_exec(dir, "proton")
    }

    /// The runner entry of the release `tag`, unpacked under `compat_dir`
    /// (`installed` tells whether its directory and executable exist).
    pub fn release_runner(tag: &str, compat_dir: &str, installed: bool) -> (r: Runner)
        ensures
            is_release_runner(r, tag@, compat_dir@, installed),
    {
        let dir = join_path_exec(compat_dir, tag);
        let path = join_path_exec(dir.as_str(), "proton");
        let mut url = concat(
            "https://github.com/GloriousEggroll/proton-ge-custom/releases/download/",
            tag,
        );
        url.append("/");
        url.append(tag);
        url.append(".tar.gz");
        Runner {
            id: str_to_lowercase(tag),
            name: string_from("Proton-GE"),
            version: string_from(tag),
            path,
            installed,
            download_url: Some(url),
        }
    }

    /// The runner entries of the releases `tags`, unpacked under
    /// `compat_dir`; `installed[i]` tells whether the `i`-th is unpacked.
    pub fn release_runners(tags: &Vec<String>, compat_dir: &str, installed: &Vec<bool>) -> (r: Vec<
        Runner,
    >)
        requires
            installed@.len() == tags@.len(),
        ensures
            r@.len() == tags@.len(),
            forall|i: int|
                0 <= i < tags@.len() ==> is_release_runner(
                    #[trigger] r@[i],
                    tags@[i]@,
                    compat_dir@,
                    installed@[i],
                ),
    {
        let mut r: Vec<Runner> = Vec::new();
        let mut i: usize = 0;
        while i < tags.len()
            invariant
                installed@.len() == tags@.len(),
                i <= tags@.len(),
                r@.len() == i,
                forall|k: int|
                    0 <= k < i ==> is_release_runner(
                        #[trigger] r@[k],
                        tags@[k]@,
                        compat_dir@,
                        installed@[k],
                    ),
            decreases tags@.len() - i,
        {
            r.push(RunnerManager::release_runner(tags[i].as_str(), compat_dir, installed[i]));
            i = i + 1;
        }
        r
    }

    /// A line that the dependency script wrote to its error output, as the
    /// log shows it.
    pub fn script_error_line(line: &str) -> (r: String)
        ensures
            r@ == "ERROR: "@ + line@,
    {
        concat("ERROR: ", line)
    }

    /// The progress shown after `downloaded` bytes of an archive of `total`
    /// bytes (`None` when the server gave no size).
    pub fn download_percentage(downloaded: u64, total: Option<u64>) -> (r: u8)
        requires
            total matches Some(t) ==> t > 0 && downloaded * 100 <= u64::MAX,
        ensures
            r == progress_percent(downloaded, total),
    {
        match total {
            Some(t) => {
                let q = downloaded * 100 / t;
                (q % 256) as u8
            },
            None => 0,
        }
    }
}

/// While no more bytes arrived than the archive holds, the progress shown is
/// a percentage: at most 100, and 100 once everything arrived.
pub proof fn lemma_progress_is_a_percentage(downloaded: u64, total: u64)
    requires
        0 < total,
        downloaded <= total,
    ensures
        0 <= progress_percent(downloaded, Some(total)) <= 100,
        downloaded == total ==> progress_percent(downloaded, Some(total)) == 100,
{
    assert(downloaded * 100 / (total as int) <= 100) by (nonlinear_arith)
        requires
            0 < total,
            downloaded <= total,
    ;
    assert(downloaded * 100 / (total as int) >= 0) by (nonlinear_arith)
        requires
            0 < total,
    ;
    if downloaded == total {
        assert(total * 100 / (total as int) == 100) by (nonlinear_arith)
            requires
                0 < total,
        ;
    }
}

} // verus!
