//! Unknown-game heuristic: a best-guess classification of processes that the
//! catalog does not know, and the derivation of a display name from an
//! executable name.

use vstd::prelude::*;
use vstd::string::StrSliceExecFns;
use vstd::string::StringExecFns;

use crate::catalog::game_process_catalog;
use crate::catalog::spec_catalog;
use crate::text::chars_eq_str;
use crate::text::seq_contains;
use crate::text::seq_ends_with;
use crate::text::str_contains;
use crate::text::str_ends_with;
use crate::text::str_eq;
use crate::text::string_from_chars;

verus! {

/// Exact process names that are never guessed to be a game, however
/// suggestive their name: common system, browser and tool processes.
pub open spec fn spec_deny_list() -> Seq<Seq<char>> {
    seq![
        "explorer.exe"@,
        "svchost.exe"@,
        "searchhost.exe"@,
        "dwm.exe"@,
        "chrome.exe"@,
        "firefox.exe"@,
        "msedge.exe"@,
        "steam.exe"@,
        "steamwebhelper.exe"@,
        "battle.net.exe"@,
        "epicgameslauncher.exe"@,
        "discord.exe"@,
        "spotify.exe"@,
        "obs64.exe"@,
        "code.exe"@,
    ]
}

/// The deny list as executable data, in the order of [`spec_deny_list`].
pub fn deny_list() -> (r: Vec<&'static str>)
    ensures
        r@.len() == spec_deny_list().len(),
        forall|i: int| 0 <= i < r@.len() ==> #[trigger] r@[i]@ == spec_deny_list()[i],
{
    let r: Vec<&'static str> = vec![
        "explorer.exe",
        "svchost.exe",
        "searchhost.exe",
        "dwm.exe",
        "chrome.exe",
        "firefox.exe",
        "msedge.exe",
        "steam.exe",
        "steamwebhelper.exe",
        "battle.net.exe",
        "epicgameslauncher.exe",
        "discord.exe",
        "spotify.exe",
        "obs64.exe",
        "code.exe",
    ];
    r
}

/// Substrings that mark an auxiliary process of a legitimate application
/// rather than the application itself.
pub open spec fn spec_infra_markers() -> Seq<Seq<char>> {
    seq![
        "helper"@,
        "service"@,
        "host"@,
        "webview"@,
        "crash"@,
        "report"@,
        "updater"@,
        "installer"@,
    ]
}

/// The infrastructure markers as executable data, in the order of
/// [`spec_infra_markers`].
pub fn infra_markers() -> (r: Vec<&'static str>)
    ensures
        r@.len() == spec_infra_markers().len(),
        forall|i: int| 0 <= i < r@.len() ==> #[trigger] r@[i]@ == spec_infra_markers()[i],
{
    let r: Vec<&'static str> = vec![
        "helper",
        "service",
        "host",
        "webview",
        "crash",
        "report",
        "updater",
        "installer",
    ];
    r
}

/// Substrings suggestive of a game client.
pub open spec fn spec_game_hints() -> Seq<Seq<char>> {
    seq!["shipping"@, "client"@, "battle"@, "game"@]
}

/// The game hints as executable data, in the order of [`spec_game_hints`].
pub fn game_hints() -> (r: Vec<&'static str>)
    ensures
        r@.len() == spec_game_hints().len(),
        forall|i: int| 0 <= i < r@.len() ==> #[trigger] r@[i]@ == spec_game_hints()[i],
{
    let r: Vec<&'static str> = vec!["shipping", "client", "battle", "game"];
    r
}

/// Is the name exactly one of the deny-listed processes?
pub open spec fn spec_is_denied(s: Seq<char>) -> bool {
    exists|i: int| 0 <= i < spec_deny_list().len() && spec_deny_list()[i] == s
}

/// Does the name contain an infrastructure marker?
pub open spec fn spec_has_infra_marker(s: Seq<char>) -> bool {
    exists|i: int| 0 <= i < spec_infra_markers().len() && seq_contains(s, spec_infra_markers()[i])
}

/// Does the name contain a game hint?
pub open spec fn spec_has_game_hint(s: Seq<char>) -> bool {
    exists|i: int| 0 <= i < spec_game_hints().len() && seq_contains(s, spec_game_hints()[i])
}

/// Is the name the executable name of some catalog entry?
pub open spec fn spec_claimed_by_catalog(s: Seq<char>) -> bool {
    exists|i: int| 0 <= i < spec_catalog().len() && spec_catalog()[i].0 == s
}

/// Executable test for [`spec_is_denied`].
pub fn is_deny_listed(name: &str) -> (r: bool)
    ensures
        r == spec_is_denied(name@),
{
    let list = deny_list();
    let mut i: usize = 0;
    while i < list.len()
        invariant
            i <= list@.len(),
            list@.len() == spec_deny_list().len(),
            forall|t: int| 0 <= t < list@.len() ==> #[trigger] list@[t]@ == spec_deny_list()[t],
            forall|t: int| 0 <= t < i ==> spec_deny_list()[t] != name@,
        decreases list@.len() - i,
    {
        if str_eq(name, list[i]) {
            return true;
        }
        i = i + 1;
    }
    false
}

/// Executable test for [`spec_has_infra_marker`].
pub fn has_infra_marker(name: &str) -> (r: bool)
    ensures
        r == spec_has_infra_marker(name@),
{
    let list = infra_markers();
    let mut i: usize = 0;
    while i < list.len()
        invariant
            i <= list@.len(),
            list@.len() == spec_infra_markers().len(),
            forall|t: int| 0 <= t < list@.len() ==> #[trigger] list@[t]@ == spec_infra_markers()[t],
            forall|t: int| 0 <= t < i ==> !seq_contains(name@, spec_infra_markers()[t]),
        decreases list@.len() - i,
    {
        if str_contains(name, list[i]) {
            return true;
        }
        i = i + 1;
    }
    false
}

/// Executable test for [`spec_has_game_hint`].
pub fn has_game_hint(name: &str) -> (r: bool)
    ensures
        r == spec_has_game_hint(name@),
{
    let list = game_hints();
    let mut i: usize = 0;
    while i < list.len()
        invariant
            i <= list@.len(),
            list@.len() == spec_game_hints().len(),
            forall|t: int| 0 <= t < list@.len() ==> #[trigger] list@[t]@ == spec_game_hints()[t],
            forall|t: int| 0 <= t < i ==> !seq_contains(name@, spec_game_hints()[t]),
        decreases list@.len() - i,
    {
        if str_contains(name, list[i]) {
            return true;
        }
        i = i + 1;
    }
    false
}

/// Executable test for [`spec_claimed_by_catalog`].
pub fn is_claimed_by_catalog(name: &str) -> (r: bool)
    ensures
        r == spec_claimed_by_catalog(name@),
{
    let catalog = game_process_catalog();
    let mut i: usize = 0;
    while i < catalog.len()
        invariant
            i <= catalog@.len(),
            catalog@.len() == spec_catalog().len(),
            forall|t: int|
                0 <= t < catalog@.len() ==> #[trigger] catalog@[t].0@ == spec_catalog()[t].0
                    && catalog@[t].1@ == spec_catalog()[t].1,
            forall|t: int| 0 <= t < i ==> spec_catalog()[t].0 != name@,
        decreases catalog@.len() - i,
    {
        if str_eq(name, catalog[i].0) {
            return true;
        }
        i = i + 1;
    }
    false
}

/// A process name is an unknown-game candidate when it carries the platform
/// executable suffix, is claimed by no catalog entry, is not deny-listed,
/// carries no infrastructure marker, and contains a game hint.
pub open spec fn spec_is_unknown_candidate(s: Seq<char>) -> bool {
    &&& seq_ends_with(s, ".exe"@)
    &&& !spec_claimed_by_catalog(s)
    &&& !spec_is_denied(s)
    &&& !spec_has_infra_marker(s)
    &&& spec_has_game_hint(s)
}

/// Executable test for [`spec_is_unknown_candidate`].
pub fn is_unknown_candidate(name: &str) -> (r: bool)
    ensures
        r == spec_is_unknown_candidate(name@),
{
    str_ends_with(name, ".exe") && !is_claimed_by_catalog(name) && !is_deny_listed(name)
        && !has_infra_marker(name) && has_game_hint(name)
}

/// Characters that separate tokens inside an executable name.
pub open spec fn is_sep(c: char) -> bool {
    c == '-' || c == '_' || c == '.' || c == ' '
}

/// Executable test for [`is_sep`].
fn is_sep_char(c: char) -> (r: bool)
    ensures
        r == is_sep(c),
{
    c == '-' || c == '_' || c == '.' || c == ' '
}

/// `s` with a trailing `.exe` suffix removed.
pub open spec fn spec_strip_exe(s: Seq<char>) -> Seq<char> {
    if seq_ends_with(s, ".exe"@) {
        s.take(s.len() - 4)
    } else {
        s
    }
}

/// The maximal separator-free, non-empty tokens of `s`, in order.
pub open spec fn tokens_of(s: Seq<char>) -> Seq<Seq<char>>
    decreases s.len(),
{
    if s.len() == 0 {
        Seq::empty()
    } else {
        let rest = tokens_of(s.drop_last());
        let c = s.last();
        if is_sep(c) {
            rest
        } else if s.len() == 1 || is_sep(s[s.len() - 2]) {
            rest.push(seq![c])
        } else {
            rest.update(rest.len() - 1, rest.last().push(c))
        }
    }
}

/// Every token is non-empty, and a string ending in a non-separator yields
/// at least one token.
proof fn lemma_tokens_structure(s: Seq<char>)
    ensures
        forall|i: int| 0 <= i < tokens_of(s).len() ==> #[trigger] tokens_of(s)[i].len() > 0,
        s.len() > 0 && !is_sep(s.last()) ==> tokens_of(s).len() > 0,
    decreases s.len(),
{
    if s.len() > 0 {
        let p = s.drop_last();
        lemma_tokens_structure(p);
        let c = s.last();
        let rest = tokens_of(p);
        if is_sep(c) {
        } else if s.len() == 1 || is_sep(s[s.len() - 2]) {
            assert(tokens_of(s) == rest.push(seq![c]));
            assert(seq![c].len() == 1);
            assert(forall|i: int|
                0 <= i < tokens_of(s).len() ==> #[trigger] tokens_of(s)[i].len() > 0) by {
                assert(forall|i: int|
                    0 <= i < rest.len() ==> #[trigger] rest.push(seq![c])[i] == rest[i]);
            }
        } else {
            assert(p.len() > 0 && p.last() == s[s.len() - 2]);
            assert(rest.len() > 0);
            let updated = rest.update(rest.len() - 1, rest.last().push(c));
            assert(tokens_of(s) == updated);
            assert(forall|i: int|
                0 <= i < updated.len() ==> #[trigger] updated[i].len() > 0) by {
                assert(updated[updated.len() - 1].len() > 0);
                assert(forall|i: int|
                    0 <= i < updated.len() - 1 ==> #[trigger] updated[i] == rest[i]);
            }
        }
    }
}

/// Noise tokens removed from a derived name.
pub open spec fn spec_is_noise(t: Seq<char>) -> bool {
    t == "win64"@ || t == "win32"@ || t == "shipping"@ || t == "client"@ || t == "launcher"@ || t
        == "game"@
}

/// Executable test for [`spec_is_noise`].
fn is_noise_token(t: &Vec<char>) -> (r: bool)
    ensures
        r == spec_is_noise(t@),
{
    chars_eq_str(t, "win64") || chars_eq_str(t, "win32") || chars_eq_str(t, "shipping")
        || chars_eq_str(t, "client") || chars_eq_str(t, "launcher") || chars_eq_str(t, "game")
}

/// `ts` with noise tokens removed.
pub open spec fn drop_noise(ts: Seq<Seq<char>>) -> Seq<Seq<char>>
    decreases ts.len(),
{
    if ts.len() == 0 {
        Seq::empty()
    } else {
        let rest = drop_noise(ts.drop_last());
        if spec_is_noise(ts.last()) {
            rest
        } else {
            rest.push(ts.last())
        }
    }
}

/// Dropping noise keeps every remaining token non-empty.
proof fn lemma_drop_noise_nonempty(ts: Seq<Seq<char>>)
    requires
        forall|i: int| 0 <= i < ts.len() ==> #[trigger] ts[i].len() > 0,
    ensures
        forall|i: int| 0 <= i < drop_noise(ts).len() ==> #[trigger] drop_noise(ts)[i].len() > 0,
    decreases ts.len(),
{
    if ts.len() > 0 {
        let p = ts.drop_last();
        assert(forall|i: int| 0 <= i < p.len() ==> #[trigger] p[i].len() > 0);
        lemma_drop_noise_nonempty(p);
        let rest = drop_noise(p);
        if spec_is_noise(ts.last()) {
            assert(drop_noise(ts) == rest);
        } else {
            assert(drop_noise(ts) == rest.push(ts.last()));
            assert(ts.last().len() > 0);
            assert(forall|i: int|
                0 <= i < rest.len() ==> #[trigger] rest.push(ts.last())[i] == rest[i]);
        }
    }
}

/// An ASCII letter upper-cased; any other character unchanged.
pub open spec fn upper_char(c: char) -> char {
    if c == 'a' {
        'A'
    } else if c == 'b' {
        'B'
    } else if c == 'c' {
        'C'
    } else if c == 'd' {
        'D'
    } else if c == 'e' {
        'E'
    } else if c == 'f' {
        'F'
    } else if c == 'g' {
        'G'
    } else if c == 'h' {
        'H'
    } else if c == 'i' {
        'I'
    } else if c == 'j' {
        'J'
    } else if c == 'k' {
        'K'
    } else if c == 'l' {
        'L'
    } else if c == 'm' {
        'M'
    } else if c == 'n' {
        'N'
    } else if c == 'o' {
        'O'
    } else if c == 'p' {
        'P'
    } else if c == 'q' {
        'Q'
    } else if c == 'r' {
        'R'
    } else if c == 's' {
        'S'
    } else if c == 't' {
        'T'
    } else if c == 'u' {
        'U'
    } else if c == 'v' {
        'V'
    } else if c == 'w' {
        'W'
    } else if c == 'x' {
        'X'
    } else if c == 'y' {
        'Y'
    } else if c == 'z' {
        'Z'
    } else {
        c
    }
}

/// Executable form of [`upper_char`].
fn upper_char_exec(c: char) -> (r: char)
    ensures
        r == upper_char(c),
{
    match c {
        'a' => 'A',
        'b' => 'B',
        'c' => 'C',
        'd' => 'D',
        'e' => 'E',
        'f' => 'F',
        'g' => 'G',
        'h' => 'H',
        'i' => 'I',
        'j' => 'J',
        'k' => 'K',
        'l' => 'L',
        'm' => 'M',
        'n' => 'N',
        'o' => 'O',
        'p' => 'P',
        'q' => 'Q',
        'r' => 'R',
        's' => 'S',
        't' => 'T',
        'u' => 'U',
        'v' => 'V',
        'w' => 'W',
        'x' => 'X',
        'y' => 'Y',
        'z' => 'Z',
        _ => c,
    }
}

/// A token with its first character upper-cased.
pub open spec fn title_of(t: Seq<char>) -> Seq<char> {
    seq![upper_char(t[0])] + t.skip(1)
}

/// The title-cased tokens joined with single spaces.
pub open spec fn spec_join_title(ts: Seq<Seq<char>>) -> Seq<char>
    decreases ts.len(),
{
    if ts.len() == 0 {
        Seq::empty()
    } else if ts.len() == 1 {
        title_of(ts[0])
    } else {
        spec_join_title(ts.drop_last()) + seq![' '] + title_of(ts.last())
    }
}

/// The tokens that survive extension stripping, tokenization and noise
/// removal.
pub open spec fn spec_kept_tokens(s: Seq<char>) -> Seq<Seq<char>> {
    drop_noise(tokens_of(spec_strip_exe(s)))
}

/// The display name derived from an executable name: its kept tokens,
/// title-cased and joined with spaces, or a constant placeholder when no
/// token survives.
pub open spec fn spec_suggested_name(s: Seq<char>) -> Seq<char> {
    if spec_kept_tokens(s).len() == 0 {
        "Unknown Game"@
    } else {
        spec_join_title(spec_kept_tokens(s))
    }
}

/// The views of a vector of character vectors.
pub open spec fn token_views(v: Seq<Vec<char>>) -> Seq<Seq<char>> {
    v.map_values(|t: Vec<char>| t@)
}

fn tokens_exec(s: &str) -> (v: Vec<Vec<char>>)
    ensures
        token_views(v@) == tokens_of(s@),
    decreases s@.len(),
{
    let l = s.unicode_len();
    if l == 0 {
        let v: Vec<Vec<char>> = Vec::new();
        proof {
            assert(token_views(v@) =~= tokens_of(s@));
        }
        v
    } else {
        let prefix = s.substring_char(0, l - 1);
        proof {
            assert(prefix@ =~= s@.drop_last());
        }
        let c = s.get_char(l - 1);
        let mut v = tokens_exec(prefix);
        if is_sep_char(c) {
            v
        } else {
            let prev_is_sep = if l == 1 {
                true
            } else {
                is_sep_char(s.get_char(l - 2))
            };
            if prev_is_sep {
                let mut t: Vec<char> = Vec::new();
                t.push(c);
                proof {
                    assert(t@ =~= seq![c]);
                }
                v.push(t);
                proof {
                    assert(token_views(v@) =~= tokens_of(s@));
                }
                v
            } else {
                proof {
                    lemma_tokens_structure(prefix@);
                }
                let t_opt = v.pop();
                let mut t = match t_opt {
                    Option::Some(t) => t,
                    Option::None => Vec::new(),
                };
                t.push(c);
                v.push(t);
                proof {
                    assert(token_views(v@) =~= tokens_of(s@));
                }
                v
            }
        }
    }
}

fn copy_chars(t: &Vec<char>) -> (r: Vec<char>)
    ensures
        r@ == t@,
{
    let mut r: Vec<char> = Vec::new();
    let mut i: usize = 0;
    while i < t.len()
        invariant
            i <= t@.len(),
            r@ == t@.take(i as int),
        decreases t@.len() - i,
    {
        r.push(t[i]);
        proof {
            assert(t@.take(i as int).push(t@[i as int]) =~= t@.take(i + 1));
        }
        i = i + 1;
    }
    proof {
        assert(t@.take(t@.len() as int) =~= t@);
    }
    r
}

fn drop_noise_exec(ts: &Vec<Vec<char>>) -> (v: Vec<Vec<char>>)
    ensures
        token_views(v@) == drop_noise(token_views(ts@)),
{
    let mut v: Vec<Vec<char>> = Vec::new();
    let mut i: usize = 0;
    while i < ts.len()
        invariant
            i <= ts@.len(),
            token_views(v@) == drop_noise(token_views(ts@).take(i as int)),
        decreases ts@.len() - i,
    {
        proof {
            assert(token_views(ts@).take(i + 1).drop_last() =~= token_views(ts@).take(i as int));
            assert(token_views(ts@).take(i + 1).last() == ts@[i as int]@);
        }
        if !is_noise_token(&ts[i]) {
            let t = copy_chars(&ts[i]);
            v.push(t);
            proof {
                assert(token_views(v@) =~= drop_noise(token_views(ts@).take(i + 1)));
            }
        }
        i = i + 1;
    }
    proof {
        assert(token_views(ts@).take(ts@.len() as int) =~= token_views(ts@));
    }
    v
}

fn title_join_exec(ts: &Vec<Vec<char>>) -> (out: Vec<char>)
    requires
        forall|i: int| 0 <= i < token_views(ts@).len() ==> #[trigger] token_views(ts@)[i].len()
            > 0,
    ensures
        out@ == spec_join_title(token_views(ts@)),
{
    let mut out: Vec<char> = Vec::new();
    let mut i: usize = 0;
    while i < ts.len()
        invariant
            i <= ts@.len(),
            forall|t: int| 0 <= t < token_views(ts@).len() ==> #[trigger] token_views(
                ts@,
            )[t].len() > 0,
            out@ == spec_join_title(token_views(ts@).take(i as int)),
        decreases ts@.len() - i,
    {
        let ghost before = out@;
        proof {
            assert(token_views(ts@)[i as int] == ts@[i as int]@);
            assert(ts@[i as int]@.len() > 0);
        }
        if i > 0 {
            out.push(' ');
        }
        let t = &ts[i];
        out.push(upper_char_exec(t[0]));
        proof {
            assert(t@.subrange(1, 1) =~= Seq::<char>::empty());
            assert(out@ =~= (if i > 0 {
                before + seq![' ']
            } else {
                before
            }) + seq![upper_char(t@[0])] + t@.subrange(1, 1));
        }
        let mut j: usize = 1;
        while j < t.len()
            invariant
                1 <= j <= t@.len(),
                t@.len() > 0,
                t@ == ts@[i as int]@,
                i < ts@.len(),
                out@ == (if i > 0 {
                    before + seq![' ']
                } else {
                    before
                }) + seq![upper_char(t@[0])] + t@.subrange(1, j as int),
            decreases t@.len() - j,
        {
            out.push(t[j]);
            proof {
                assert(t@.subrange(1, j as int).push(t@[j as int]) =~= t@.subrange(1, j + 1));
            }
            j = j + 1;
        }
        proof {
            assert(t@.subrange(1, t@.len() as int) =~= t@.skip(1));
            assert(token_views(ts@).take(i + 1).drop_last() =~= token_views(ts@).take(i as int));
            assert(token_views(ts@).take(i + 1).last() == ts@[i as int]@);
            assert(out@ =~= spec_join_title(token_views(ts@).take(i + 1)));
        }
        i = i + 1;
    }
    proof {
        assert(token_views(ts@).take(ts@.len() as int) =~= token_views(ts@));
    }
    out
}

/// Derive a human-readable display name from an executable name: strip the
/// `.exe` suffix, split on separators, drop noise tokens, title-case what
/// remains and join with spaces; when nothing remains, a constant
/// placeholder.
pub fn suggested_name_from_executable(name: &str) -> (r: String)
    ensures
        r@ == spec_suggested_name(name@),
{
    let l = name.unicode_len();
    proof {
        reveal_strlit(".exe");
    }
    let stripped: &str = if str_ends_with(name, ".exe") {
        name.substring_char(0, l - 4)
    } else {
        name
    };
    proof {
        assert(stripped@ =~= spec_strip_exe(name@));
    }
    let tokens = tokens_exec(stripped);
    let kept = drop_noise_exec(&tokens);
    if kept.len() == 0 {
        String::from_str("Unknown Game")
    } else {
        proof {
            lemma_tokens_structure(stripped@);
            lemma_drop_noise_nonempty(tokens_of(stripped@));
        }
        string_from_chars(title_join_exec(&kept))
    }
}

/// A best-guess classification of a process the catalog does not know.
#[derive(Debug, Clone, PartialEq)]
pub struct UnknownGame {
    /// The process name that looked like a game client.
    pub executable: String,
    /// The display name derived from it.
    pub suggested_name: String,
}

/// Index of the first unknown-game candidate at or after position `j` in the
/// snapshot, if any.
pub open spec fn unknown_from(snap: Seq<Seq<char>>, j: int) -> Option<int>
    decreases snap.len() - j,
{
    if j < 0 || j >= snap.len() {
        None
    } else if spec_is_unknown_candidate(snap[j]) {
        Some(j)
    } else {
        unknown_from(snap, j + 1)
    }
}

/// Index of the first unknown-game candidate in the snapshot, if any.
pub open spec fn spec_unknown_index(snap: Seq<Seq<char>>) -> Option<int> {
    unknown_from(snap, 0)
}

/// Whatever index the scan reports is a genuine candidate.
proof fn lemma_unknown_from_is_candidate(snap: Seq<Seq<char>>, j: int)
    ensures
        unknown_from(snap, j) matches Some(k) ==> j <= k < snap.len() && spec_is_unknown_candidate(
            snap[k],
        ),
    decreases snap.len() - j,
{
    if 0 <= j < snap.len() && !spec_is_unknown_candidate(snap[j]) {
        lemma_unknown_from_is_candidate(snap, j + 1);
    }
}

/// A deny-listed process name is never classified as an unknown game, even
/// when it contains a game hint: the reported candidate is never one of the
/// deny-listed names.
pub proof fn lemma_deny_listed_never_unknown(snap: Seq<Seq<char>>, k: int)
    requires
        spec_unknown_index(snap) == Some(k),
    ensures
        0 <= k < snap.len(),
        !spec_is_denied(snap[k]),
{
    lemma_unknown_from_is_candidate(snap, 0);
}

/// Scan the snapshot for the first process that looks like an unclaimed game
/// client, and derive a display name for it.
pub fn detect_unknown_game(running: &Vec<String>) -> (r: Option<UnknownGame>)
    ensures
        ({
            let snap = crate::detect::snap_view(running@);
            match r {
                Option::None => spec_unknown_index(snap) is None,
                Option::Some(u) => spec_unknown_index(snap) matches Some(j) && u.executable@
                    == snap[j] && u.suggested_name@ == spec_suggested_name(snap[j]),
            }
        }),
{
    let ghost snap = crate::detect::snap_view(running@);
    let mut j: usize = 0;
    while j < running.len()
        invariant
            j <= running@.len(),
            snap == crate::detect::snap_view(running@),
            unknown_from(snap, 0) == unknown_from(snap, j as int),
        decreases running@.len() - j,
    {
        proof {
            assert(snap[j as int] == running@[j as int]@);
        }
        if is_unknown_candidate(running[j].as_str()) {
            let executable = running[j].clone();
            let suggested_name = suggested_name_from_executable(running[j].as_str());
            return Option::Some(UnknownGame { executable, suggested_name });
        }
        j = j + 1;
    }
    Option::None
}

} // verus!
