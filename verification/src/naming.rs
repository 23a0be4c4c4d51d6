use vstd::prelude::*;
use vstd::set_lib::{lemma_int_range, lemma_len_subset, lemma_map_size, set_int_range};

use crate::game::Game;
use crate::text::{
    ascii_lower, ascii_lowered, char_is_alphanumeric, is_ascii_alnum, is_ascii_text, chars_of, decimal, is_blank, push_char, push_decimal, str_eq,
    str_to_lowercase, unicode_alphanumeric, unicode_lowercase, string_from,
};

verus! {

// ---------------------------------------------------------------------------
// Slugs
// ---------------------------------------------------------------------------
/// Reading `cs` from the left, the slug built so far and whether a run of
/// separators has been seen since its last character: every alphanumeric
/// character is kept, every run of other characters becomes one `-`
/// between two kept characters.
pub open spec fn slug_scan(cs: Seq<char>) -> (Seq<char>, bool)
    decreases cs.len(),
{
    if cs.len() == 0 {
        (Seq::empty(), false)
    } else {
        let (out, pending) = slug_scan(cs.drop_last());
        let c = cs.last();
        if unicode_alphanumeric(c) {
            (
                if pending && out.len() > 0 {
                    out.push('-')
                } else {
                    out
                }.push(c),
                false,
            )
        } else {
            (out, true)
        }
    }
}

/// The slug of an already lowercased text: its runs of alphanumeric
/// characters joined by `-`.
pub open spec fn slug_of_lowercase(cs: Seq<char>) -> Seq<char> {
    slug_scan(cs).0
}

/// The slug of a text: that of its lowercase form.
pub open spec fn slug(s: Seq<char>) -> Seq<char> {
    slug_of_lowercase(unicode_lowercase(s))
}

/// `slug_scan` for an ASCII text, where the alphanumeric characters are the
/// ASCII letters and digits.
pub open spec fn ascii_slug_scan(cs: Seq<char>) -> (Seq<char>, bool)
    decreases cs.len(),
{
    if cs.len() == 0 {
        (Seq::empty(), false)
    } else {
        let (out, pending) = ascii_slug_scan(cs.drop_last());
        let c = cs.last();
        if is_ascii_alnum(c) {
            (
                if pending && out.len() > 0 {
                    out.push('-')
                } else {
                    out
                }.push(c),
                false,
            )
        } else {
            (out, true)
        }
    }
}

/// The slug of an ASCII text: its runs of letters and digits, made small,
/// joined by `-`.
pub open spec fn ascii_slug(s: Seq<char>) -> Seq<char> {
    ascii_slug_scan(ascii_lowered(s)).0
}

/// The slug of an already lowercased text.
pub fn slugify_lowercase(lower: &str) -> (r: String)
    ensures
        r@ == slug_of_lowercase(lower@),
        is_ascii_text(lower@) ==> r@ == ascii_slug_scan(lower@).0,
{
    let cs = chars_of(lower);
    let mut out = String::new();
    let mut pending = false;
    let mut nonempty = false;
    let mut i: usize = 0;
    while i < cs.len()
        invariant
            cs@ == lower@,
            i <= cs@.len(),
            nonempty == (out@.len() > 0),
            (out@, pending) == slug_scan(cs@.take(i as int)),
            is_ascii_text(cs@.take(i as int)) ==> (out@, pending) == ascii_slug_scan(
                cs@.take(i as int),
            ),
        decreases cs@.len() - i,
    {
        assert(cs@.take(i + 1).drop_last() =~= cs@.take(i as int));
        proof {
            if is_ascii_text(cs@.take(i + 1)) {
                assert forall|k: int| 0 <= k < i implies (#[trigger] cs@.take(i as int)[k] as u32)
                    < 128 by {
                    assert(cs@.take(i as int)[k] == cs@.take(i + 1)[k]);
                }
                assert(cs@.take(i + 1)[i as int] == cs@[i as int]);
            }
        }
        let c = cs[i];
        if char_is_alphanumeric(c) {
            if pending && nonempty {
                push_char(&mut out, '-');
            }
            push_char(&mut out, c);
            nonempty = true;
            pending = false;
        } else {
            pending = true;
        }
        i = i + 1;
    }
    assert(cs@.take(cs@.len() as int) =~= cs@);
    out
}

/// Turns a title into an identifier: lowercase, with every run of
/// characters that are not alphanumeric replaced by one `-` and none at
/// either end.
pub fn slugify(s: &str) -> (r: String)
    ensures
        r@ == slug(s@),
        is_ascii_text(s@) ==> r@ == ascii_slug(s@),
{
    let lower = str_to_lowercase(s);
    proof {
        if is_ascii_text(s@) {
            lemma_ascii_lower_text(s@);
        }
    }
    slugify_lowercase(lower.as_str())
}

/// Making an ASCII text small keeps it ASCII and leaves no capital letter.
proof fn lemma_ascii_lower_text(s: Seq<char>)
    requires
        is_ascii_text(s),
    ensures
        is_ascii_text(ascii_lowered(s)),
        forall|i: int|
            0 <= i < s.len() ==> !('A' <= #[trigger] ascii_lowered(s)[i]
                <= 'Z'),
{
    let m = ascii_lowered(s);
    assert forall|i: int| 0 <= i < m.len() implies (#[trigger] m[i] as u32) < 128 && !('A' <= m[i] <= 'Z') by {
        assert(m[i] == ascii_lower(s[i]));
        assert((s[i] as u32) < 128);
    }
}

/// The ASCII slug scan keeps only ASCII letters and digits of its input,
/// with single `-` between runs, none first and none last; a pending
/// separator is only ever followed by a kept character.
proof fn lemma_ascii_scan_shape(cs: Seq<char>)
    ensures
        ({
            let o = ascii_slug_scan(cs).0;
            &&& forall|i: int|
                0 <= i < o.len() ==> #[trigger] o[i] == '-' || (is_ascii_alnum(o[i]) && cs.contains(
                    o[i],
                ))
            &&& o.len() > 0 ==> is_ascii_alnum(o[0]) && is_ascii_alnum(o.last())
            &&& forall|i: int| 0 <= i < o.len() - 1 && #[trigger] o[i] == '-' ==> is_ascii_alnum(o[i + 1])
        }),
    decreases cs.len(),
{
    if cs.len() > 0 {
        let rest = cs.drop_last();
        lemma_ascii_scan_shape(rest);
        let (out, pending) = ascii_slug_scan(rest);
        let c = cs.last();
        assert forall|x: char| rest.contains(x) implies cs.contains(x) by {
            let k = choose|k: int| 0 <= k < rest.len() && rest[k] == x;
            assert(cs[k] == x);
        }
        if is_ascii_alnum(c) {
            let mid = if pending && out.len() > 0 {
                out.push('-')
            } else {
                out
            };
            let o = mid.push(c);
            assert(cs[cs.len() - 1] == c);
            assert forall|i: int| 0 <= i < o.len() implies #[trigger] o[i] == '-' || (is_ascii_alnum(
                o[i],
            ) && cs.contains(o[i])) by {
                if i < out.len() {
                    assert(o[i] == out[i]);
                }
            }
            if out.len() > 0 {
                assert(o[0] == out[0]);
            }
            assert forall|i: int| 0 <= i < o.len() - 1 && #[trigger] o[i] == '-' implies is_ascii_alnum(
                o[i + 1],
            ) by {
                if i < out.len() - 1 {
                    assert(o[i] == out[i]);
                    assert(o[i + 1] == out[i + 1]);
                } else if i == out.len() - 1 {
                    assert(o[i] == out[i]);
                }
            }
        }
    }
}

/// A text of ASCII letters, digits and `-` that begins with a letter or
/// digit and has one after every `-` scans to itself, save a final `-`,
/// which stays pending.
proof fn lemma_ascii_scan_fixed(o: Seq<char>)
    requires
        forall|i: int| 0 <= i < o.len() ==> #[trigger] o[i] == '-' || is_ascii_alnum(o[i]),
        o.len() > 0 ==> is_ascii_alnum(o[0]),
        forall|i: int| 0 <= i < o.len() - 1 && #[trigger] o[i] == '-' ==> is_ascii_alnum(o[i + 1]),
    ensures
        ascii_slug_scan(o) == if o.len() > 0 && o.last() == '-' {
            (o.drop_last(), true)
        } else {
            (o, false)
        },
    decreases o.len(),
{
    if o.len() > 0 {
        let p = o.drop_last();
        assert forall|i: int| 0 <= i < p.len() implies #[trigger] p[i] == '-' || is_ascii_alnum(p[i]) by {
            assert(p[i] == o[i]);
        }
        assert forall|i: int| 0 <= i < p.len() - 1 && #[trigger] p[i] == '-' implies is_ascii_alnum(
            p[i + 1],
        ) by {
            assert(p[i] == o[i]);
            assert(p[i + 1] == o[i + 1]);
        }
        if p.len() > 0 {
            assert(p[0] == o[0]);
        }
        lemma_ascii_scan_fixed(p);
        let c = o.last();
        if is_ascii_alnum(c) {
            if p.len() > 0 && p.last() == '-' {
                assert(p.len() >= 2) by {
                    assert(p[0] == o[0]);
                }
                assert(p.drop_last().push('-').push(c) =~= o);
            } else {
                assert(p.push(c) =~= o);
            }
        } else {
            assert(c == '-');
            assert(o[o.len() - 1] == '-');
            if p.len() > 0 {
                assert(o[o.len() - 2] == p.last());
                if p.last() == '-' {
                    assert(is_ascii_alnum(o[o.len() - 1]));
                }
            }
        }
    }
}

/// For an ASCII title, the slug is made of small ASCII letters, digits and
/// single `-` between them, none first or last; it is ASCII itself, and its
/// own slug is itself, so slugifying twice changes nothing.
pub proof fn lemma_ascii_slug(s: Seq<char>)
    requires
        is_ascii_text(s),
    ensures
        ({
            let o = ascii_slug(s);
            &&& forall|i: int|
                0 <= i < o.len() ==> ('a' <= #[trigger] o[i] <= 'z') || ('0' <= o[i] <= '9') || o[i]
                    == '-'
            &&& o.len() > 0 ==> o[0] != '-' && o.last() != '-'
            &&& forall|i: int| 0 <= i < o.len() - 1 && #[trigger] o[i] == '-' ==> o[i + 1] != '-'
            &&& is_ascii_text(o)
            &&& ascii_slug(o) == o
        }),
{
    let m = ascii_lowered(s);
    lemma_ascii_lower_text(s);
    lemma_ascii_scan_shape(m);
    let o = ascii_slug(s);
    assert forall|i: int| 0 <= i < o.len() implies ('a' <= #[trigger] o[i] <= 'z') || ('0' <= o[i]
        <= '9') || o[i] == '-' by {
        if o[i] != '-' {
            let k = choose|k: int| 0 <= k < m.len() && m[k] == o[i];
            assert(!('A' <= m[k] <= 'Z'));
        }
    }
    assert forall|i: int| 0 <= i < o.len() implies (#[trigger] o[i] as u32) < 128 by {
        assert(('a' <= o[i] <= 'z') || ('0' <= o[i] <= '9') || o[i] == '-');
    }
    let mo = ascii_lowered(o);
    assert(mo =~= o) by {
        assert forall|i: int| 0 <= i < o.len() implies mo[i] == o[i] by {
            assert(('a' <= o[i] <= 'z') || ('0' <= o[i] <= '9') || o[i] == '-');
        }
    }
    assert forall|i: int| 0 <= i < o.len() implies #[trigger] o[i] == '-' || is_ascii_alnum(o[i]) by {
        assert(('a' <= o[i] <= 'z') || ('0' <= o[i] <= '9') || o[i] == '-');
    }
    lemma_ascii_scan_fixed(o);
}

/// Whether `o` is made of alphanumeric characters and `-`, begins and ends
/// with an alphanumeric character, and has an alphanumeric character after
/// every `-`.
pub open spec fn is_clean_slug(o: Seq<char>) -> bool {
    &&& forall|i: int| 0 <= i < o.len() ==> unicode_alphanumeric(#[trigger] o[i]) || o[i] == '-'
    &&& o.len() > 0 ==> unicode_alphanumeric(o[0]) && unicode_alphanumeric(o.last())
    &&& forall|i: int| 0 <= i < o.len() - 1 && #[trigger] o[i] == '-' ==> unicode_alphanumeric(o[i + 1])
}

/// Every slug is clean: it is made of alphanumeric characters and `-`,
/// begins and ends with an alphanumeric character, and has an alphanumeric
/// character after every `-`.
pub proof fn lemma_slug_is_clean(cs: Seq<char>)
    ensures
        is_clean_slug(slug_of_lowercase(cs)),
    decreases cs.len(),
{
    if cs.len() > 0 {
        lemma_slug_is_clean(cs.drop_last());
        let (out, pending) = slug_scan(cs.drop_last());
        let c = cs.last();
        if unicode_alphanumeric(c) {
            let mid = if pending && out.len() > 0 {
                out.push('-')
            } else {
                out
            };
            let o = mid.push(c);
            assert(o == slug_of_lowercase(cs));
            assert forall|i: int| 0 <= i < o.len() implies unicode_alphanumeric(#[trigger] o[i])
                || o[i] == '-' by {
                if i < out.len() {
                    assert(o[i] == out[i]);
                }
            }
            if out.len() > 0 {
                assert(o[0] == out[0]);
            }
            assert forall|i: int| 0 <= i < o.len() - 1 && #[trigger] o[i] == '-' implies unicode_alphanumeric(
                o[i + 1],
            ) by {
                if i < out.len() - 1 {
                    assert(o[i] == out[i]);
                    assert(o[i + 1] == out[i + 1]);
                } else if i == out.len() - 1 {
                    assert(o[i] == out[i]);
                }
            }
        }
    }
}

// ---------------------------------------------------------------------------
// Executable paths
// ---------------------------------------------------------------------------
/// The characters that a path typed for a game may not hold.
pub open spec fn is_forbidden_path_char(c: char) -> bool {
    c == '*' || c == '?' || c == '"' || c == '<' || c == '>' || c == '|'
}

/// Whether a typed executable path is acceptable: not blank, and free of
/// `*`, `?`, `"`, `<`, `>` and `|`.
pub open spec fn valid_exec_path(p: Seq<char>) -> bool {
    &&& !is_blank(p)
    &&& forall|i: int| 0 <= i < p.len() ==> !is_forbidden_path_char(#[trigger] p[i])
}

/// Whether a typed executable path is acceptable.
pub fn validate_exec_path(path: &str) -> (r: bool)
    ensures
        r == valid_exec_path(path@),
{
    if crate::text::blank(path) {
        return false;
    }
    let cs = chars_of(path);
    let mut i: usize = 0;
    while i < cs.len()
        invariant
            cs@ == path@,
            !is_blank(path@),
            i <= cs@.len(),
            forall|k: int| 0 <= k < i ==> !is_forbidden_path_char(#[trigger] cs@[k]),
        decreases cs@.len() - i,
    {
        let c = cs[i];
        if c == '*' || c == '?' || c == '"' || c == '<' || c == '>' || c == '|' {
            assert(is_forbidden_path_char(path@[i as int]));
            return false;
        }
        i = i + 1;
    }
    true
}

// ---------------------------------------------------------------------------
// Unique game identifiers
// ---------------------------------------------------------------------------
/// The `k`-th identifier tried for a new game: `base`, then `base-1`,
/// `base-2`, and so on.
pub open spec fn id_candidate(base: Seq<char>, k: nat) -> Seq<char> {
    if k == 0 {
        base
    } else {
        base + "-"@ + decimal(k)
    }
}

/// Whether a game of the list has the identifier `id`.
pub open spec fn id_taken(games: Seq<Game>, id: Seq<char>) -> bool {
    exists|i: int| 0 <= i < games.len() && (#[trigger] games[i]).id@ == id
}

/// Whether the `k`-th candidate is the first one that no game has.
pub open spec fn is_first_free(games: Seq<Game>, base: Seq<char>, k: nat) -> bool {
    &&& !id_taken(games, id_candidate(base, k))
    &&& forall|j: nat| j < k ==> id_taken(games, #[trigger] id_candidate(base, j))
}

/// The identifier that a new game gets: the first candidate that no game
/// has.
pub open spec fn fresh_id(games: Seq<Game>, base: Seq<char>, id: Seq<char>) -> bool {
    exists|k: nat| is_first_free(games, base, k) && id == id_candidate(base, k)
}

proof fn lemma_digit_injective(a: nat, b: nat)
    requires
        a < 10,
        b < 10,
        crate::text::digit_char(a) == crate::text::digit_char(b),
    ensures
        a == b,
{
    assert(((a + 48) as u8) as u32 == (a + 48));
    assert(((b + 48) as u8) as u32 == (b + 48));
}

proof fn lemma_decimal_len(n: nat)
    ensures
        decimal(n).len() >= 1,
        n >= 10 ==> decimal(n).len() >= 2,
    decreases n,
{
    if n >= 10 {
        lemma_decimal_len(n / 10);
    }
}

/// Different numbers have different decimal representations.
pub proof fn lemma_decimal_injective(a: nat, b: nat)
    requires
        decimal(a) == decimal(b),
    ensures
        a == b,
    decreases a,
{
    lemma_decimal_len(a);
    lemma_decimal_len(b);
    if a < 10 && b < 10 {
        assert(decimal(a) == seq![crate::text::digit_char(a)]);
        assert(decimal(b) == seq![crate::text::digit_char(b)]);
        assert(decimal(a)[0] == decimal(b)[0]);
        assert(decimal(a)[0] == crate::text::digit_char(a));
        assert(decimal(b)[0] == crate::text::digit_char(b));
        lemma_digit_injective(a, b);
    } else if a >= 10 && b >= 10 {
        assert(decimal(a) == decimal(a / 10).push(crate::text::digit_char(a % 10)));
        assert(decimal(b) == decimal(b / 10).push(crate::text::digit_char(b % 10)));
        assert(decimal(a).drop_last() == decimal(a / 10));
        assert(decimal(b).drop_last() == decimal(b / 10));
        assert(decimal(a).last() == decimal(b).last());
        assert(decimal(a).last() == crate::text::digit_char(a % 10));
        assert(decimal(b).last() == crate::text::digit_char(b % 10));
        lemma_digit_injective(a % 10, b % 10);
        lemma_decimal_injective(a / 10, b / 10);
    } else {
        assert(decimal(a).len() != decimal(b).len());
    }
}

proof fn lemma_candidates_distinct(base: Seq<char>, j: nat, k: nat)
    requires
        j != k,
    ensures
        id_candidate(base, j) != id_candidate(base, k),
{
    lemma_decimal_len(j);
    lemma_decimal_len(k);
    if j > 0 && k > 0 {
        if id_candidate(base, j) == id_candidate(base, k) {
            let p = base + "-"@;
            assert(id_candidate(base, j).subrange(p.len() as int, id_candidate(base, j).len() as int)
                =~= decimal(j));
            assert(id_candidate(base, k).subrange(p.len() as int, id_candidate(base, k).len() as int)
                =~= decimal(k));
            lemma_decimal_injective(j, k);
        }
    } else {
        assert(id_candidate(base, j).len() != id_candidate(base, k).len());
    }
}

/// At most as many candidates as there are games can be taken.
proof fn lemma_taken_candidates_bound(games: Seq<Game>, base: Seq<char>, k: nat)
    requires
        forall|j: nat| j < k ==> id_taken(games, #[trigger] id_candidate(base, j)),
    ensures
        k <= games.len(),
{
    let owner = |j: int| choose|i: int| 0 <= i < games.len() && games[i].id@ == id_candidate(base, j as nat);
    let x = set_int_range(0, k as int);
    let y = x.map(owner);
    lemma_int_range(0, k as int);
    lemma_int_range(0, games.len() as int);
    assert forall|j: int| x.contains(j) implies 0 <= #[trigger] owner(j) < games.len() && games[owner(j)].id@
        == id_candidate(base, j as nat) by {
        assert(id_taken(games, id_candidate(base, j as nat)));
    }
    assert forall|a: int, b: int| x.contains(a) && x.contains(b) && #[trigger] owner(a) == #[trigger] owner(b)
        implies a == b by {
        if a != b {
            lemma_candidates_distinct(base, a as nat, b as nat);
        }
    }
    assert(vstd::relations::injective_on(owner, x));
    lemma_map_size(x, y, owner);
    assert(y.subset_of(set_int_range(0, games.len() as int)));
    lemma_len_subset(y, set_int_range(0, games.len() as int));
}

/// Whether a game of the list has the identifier `id`.
pub fn id_in_use(games: &Vec<Game>, id: &str) -> (r: bool)
    ensures
        r == id_taken(games@, id@),
{
    let mut i: usize = 0;
    while i < games.len()
        invariant
            i <= games@.len(),
            forall|k: int| 0 <= k < i ==> games@[k].id@ != id@,
        decreases games@.len() - i,
    {
        if str_eq(games[i].id.as_str(), id) {
            return true;
        }
        i = i + 1;
    }
    false
}

/// The `k`-th identifier tried for a new game.
fn candidate(base: &str, k: usize) -> (r: String)
    ensures
        r@ == id_candidate(base@, k as nat),
{
    if k == 0 {
        string_from(base)
    } else {
        let mut r = string_from(base);
        r.append("-");
        push_decimal(&mut r, k as u64);
        r
    }
}

/// The identifier for a new game whose slug is `base`: `base` itself if no
/// game has it, else the first of `base-1`, `base-2`, ... that no game has.
pub fn unique_game_id(games: &Vec<Game>, base: &str) -> (r: String)
    requires
        games@.len() < usize::MAX,
    ensures
        fresh_id(games@, base@, r@),
        !id_taken(games@, r@),
{
    let mut k: usize = 0;
    let mut id = candidate(base, 0);
    while id_in_use(games, id.as_str())
        invariant
            games@.len() < usize::MAX,
            k <= games@.len(),
            id@ == id_candidate(base@, k as nat),
            forall|j: nat| j < k ==> id_taken(games@, #[trigger] id_candidate(base@, j)),
        decreases games@.len() - k,
    {
        proof {
            assert forall|j: nat| j < k + 1 implies id_taken(games@, #[trigger] id_candidate(base@, j)) by {
                if j == k {
                    assert(id_candidate(base@, j) == id@);
                }
            }
            lemma_taken_candidates_bound(games@, base@, (k + 1) as nat);
        }
        k = k + 1;
        id = candidate(base, k);
    }
    assert(is_first_free(games@, base@, k as nat));
    id
}

} // verus!
