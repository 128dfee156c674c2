//! Known-game detection: a first-match scan of the catalog against a snapshot
//! of lower-cased process names.

use vstd::prelude::*;
use vstd::string::StringExecFns;

use crate::catalog::game_process_catalog;
use crate::catalog::spec_catalog;
use crate::text::str_eq;

verus! {

/// The outcome of one detection pass over a process snapshot.
#[derive(Debug, Clone, PartialEq)]
pub enum GameDetection {
    NotDetected,
    Known { game: String, executable: String },
}

/// A snapshot of process names as a sequence of character sequences.
pub open spec fn snap_view(running: Seq<String>) -> Seq<Seq<char>> {
    running.map_values(|s: String| s@)
}

/// Does the snapshot hold exactly the name `name`?
pub open spec fn snapshot_has(snap: Seq<Seq<char>>, name: Seq<char>) -> bool {
    exists|j: int| 0 <= j < snap.len() && snap[j] == name
}

/// Index of the first catalog entry at or after position `k` whose executable
/// name occurs in the snapshot, if any.
pub open spec fn match_from(snap: Seq<Seq<char>>, k: int) -> Option<int>
    decreases spec_catalog().len() - k,
{
    if k < 0 || k >= spec_catalog().len() {
        None
    } else if snapshot_has(snap, spec_catalog()[k].0) {
        Some(k)
    } else {
        match_from(snap, k + 1)
    }
}

/// Index of the first catalog entry matched by the snapshot, if any.
pub open spec fn spec_match_index(snap: Seq<Seq<char>>) -> Option<int> {
    match_from(snap, 0)
}

/// Does the snapshot hold the name `name`? Decided by a linear scan.
pub fn snapshot_contains(running: &Vec<String>, name: &str) -> (r: bool)
    ensures
        r == snapshot_has(snap_view(running@), name@),
{
    let mut j: usize = 0;
    while j < running.len()
        invariant
            j <= running@.len(),
            forall|t: int| 0 <= t < j ==> snap_view(running@)[t] != name@,
        decreases running@.len() - j,
    {
        if str_eq(running[j].as_str(), name) {
            assert(snap_view(running@)[j as int] == name@);
            return true;
        }
        j = j + 1;
    }
    false
}

/// Scan the snapshot against the catalog; the first catalog entry (in catalog
/// declaration order) whose executable name occurs in the snapshot wins.
pub fn detect_running_game(running: &Vec<String>) -> (r: GameDetection)
    ensures
        ({
            let m = spec_match_index(snap_view(running@));
            match r {
                GameDetection::NotDetected => m is None,
                GameDetection::Known { game, executable } => m matches Some(i) && executable@
                    == spec_catalog()[i].0 && game@ == spec_catalog()[i].1,
            }
        }),
{
    let ghost snap = snap_view(running@);
    if running.len() == 0 {
        proof {
            lemma_empty_snapshot_matches_nothing(snap, 0);
        }
        return GameDetection::NotDetected;
    }
    let catalog = game_process_catalog();
    let mut k: usize = 0;
    while k < catalog.len()
        invariant
            snap == snap_view(running@),
            k <= catalog@.len(),
            catalog@.len() == spec_catalog().len(),
            forall|i: int|
                0 <= i < catalog@.len() ==> #[trigger] catalog@[i].0@ == spec_catalog()[i].0
                    && catalog@[i].1@ == spec_catalog()[i].1,
            match_from(snap, 0) == match_from(snap, k as int),
        decreases catalog@.len() - k,
    {
        if snapshot_contains(running, catalog[k].0) {
            return GameDetection::Known {
                game: String::from_str(catalog[k].1),
                executable: String::from_str(catalog[k].0),
            };
        }
        k = k + 1;
    }
    GameDetection::NotDetected
}

/// No catalog entry matches the empty snapshot.
pub proof fn lemma_empty_snapshot_matches_nothing(snap: Seq<Seq<char>>, k: int)
    requires
        snap.len() == 0,
    ensures
        match_from(snap, k) is None,
    decreases spec_catalog().len() - k,
{
    if 0 <= k < spec_catalog().len() {
        lemma_empty_snapshot_matches_nothing(snap, k + 1);
    }
}

/// Whenever some catalog entry at or after `k` occurs in the snapshot, the
/// scan starting at `k` finds a matching entry, no later than that one.
proof fn lemma_match_from_finds(snap: Seq<Seq<char>>, k: int, i: int)
    requires
        0 <= k <= i < spec_catalog().len(),
        snapshot_has(snap, spec_catalog()[i].0),
    ensures
        match_from(snap, k) matches Some(m) && k <= m <= i && snapshot_has(
            snap,
            spec_catalog()[m].0,
        ),
    decreases i - k,
{
    if !snapshot_has(snap, spec_catalog()[k].0) {
        lemma_match_from_finds(snap, k + 1, i);
    }
}

/// A snapshot holding the executable name of some catalog entry is always
/// detected: the scan reports a match, at that entry or an earlier one, and
/// the reported entry's name really occurs in the snapshot. Extra unrelated
/// names in the snapshot cannot change this.
pub proof fn lemma_known_game_is_detected(snap: Seq<Seq<char>>, i: int)
    requires
        0 <= i < spec_catalog().len(),
        snapshot_has(snap, spec_catalog()[i].0),
    ensures
        spec_match_index(snap) matches Some(m) && 0 <= m <= i && snapshot_has(
            snap,
            spec_catalog()[m].0,
        ),
{
    lemma_match_from_finds(snap, 0, i);
}

/// The empty snapshot is never detected as a game.
pub proof fn lemma_empty_snapshot_detects_nothing(snap: Seq<Seq<char>>)
    requires
        snap.len() == 0,
    ensures
        spec_match_index(snap) is None,
{
    lemma_empty_snapshot_matches_nothing(snap, 0);
}

/// Catalog order determines precedence: when two catalog entries both occur
/// in the snapshot, the reported match is never later than the earlier of the
/// two.
pub proof fn lemma_catalog_order_precedence(snap: Seq<Seq<char>>, i: int, j: int)
    requires
        0 <= i < j < spec_catalog().len(),
        snapshot_has(snap, spec_catalog()[i].0),
        snapshot_has(snap, spec_catalog()[j].0),
    ensures
        spec_match_index(snap) matches Some(m) && m <= i,
{
    lemma_match_from_finds(snap, 0, i);
}

} // verus!
