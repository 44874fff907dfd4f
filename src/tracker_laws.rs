use vstd::prelude::*;

use crate::progress::TrackerType;
use crate::tracker::{
    absent, changed_first, is_first, progressed, same_transfer, without_id, FileProgress,
    FileProgression, TransferId,
};

verus! {

/// After the entries of identity `id` are removed, none is left.
pub proof fn lemma_removed_id_is_absent(s: Seq<FileProgress>, id: TransferId)
    ensures
        absent(without_id(s, id), id),
    decreases s.len(),
{
    if s.len() > 0 {
        let rest = s.drop_first();
        lemma_removed_id_is_absent(rest, id);
        if s[0].id != id {
            let w = without_id(rest, id);
            assert forall|j: int| 0 <= j < w.len() + 1 implies (seq![s[0]] + w)[j].id != id by {
                if j > 0 {
                    assert((seq![s[0]] + w)[j] == w[j - 1]);
                }
            }
        }
    }
}

/// A report for a transfer that was removed changes nothing: after
/// `remove_file_upload(id, t)`, `update_file_upload(id, ev, t)` leaves the
/// entries of direction `t` as they are.
pub proof fn lemma_update_after_remove_is_noop(
    s: Seq<FileProgress>,
    after: Seq<FileProgress>,
    id: TransferId,
    ev: FileProgression,
    tracker: TrackerType,
)
    requires
        changed_first(
            without_id(s, id),
            after,
            id,
            |a: FileProgress, b: FileProgress| progressed(a, b, ev, tracker),
        ),
    ensures
        after == without_id(s, id),
{
    lemma_removed_id_is_absent(s, id);
}

proof fn lemma_first_is_unique(s: Seq<FileProgress>, id: TransferId, i: int, k: int)
    requires
        is_first(s, id, i),
        is_first(s, id, k),
    ensures
        i == k,
{
    if i < k {
        assert(s[i].id != id);
    } else if k < i {
        assert(s[k].id != id);
    }
}

/// Applying the same progress report twice gives the same entries as
/// applying it once: the same counts, the same phase, and a description
/// made again, character for character, from the same counts.
pub proof fn lemma_repeated_progress_report(
    s0: Seq<FileProgress>,
    s1: Seq<FileProgress>,
    s2: Seq<FileProgress>,
    id: TransferId,
    ev: FileProgression,
    tracker: TrackerType,
)
    requires
        ev is CurrentProgress,
        changed_first(s0, s1, id, |a: FileProgress, b: FileProgress| progressed(a, b, ev, tracker)),
        changed_first(s1, s2, id, |a: FileProgress, b: FileProgress| progressed(a, b, ev, tracker)),
    ensures
        s2.len() == s1.len(),
        forall|j: int|
            0 <= j < s1.len() ==> {
                &&& same_transfer(s1[j], #[trigger] s2[j])
                &&& s2[j].size == s1[j].size
                &&& s2[j].total_size == s1[j].total_size
                &&& s2[j].progress == s1[j].progress
                &&& s2[j].description@ == s1[j].description@
            },
{
    if absent(s0, id) {
        assert(s1 == s0);
    } else {
        let i = choose|i: int|
            is_first(s0, id, i) && s1.len() == s0.len() && progressed(s0[i], s1[i], ev, tracker)
                && (forall|j: int| 0 <= j < s0.len() && j != i ==> s1[j] == s0[j]);
        assert(is_first(s1, id, i)) by {
            assert forall|j: int| 0 <= j < i implies s1[j].id != id by {
                assert(s1[j] == s0[j]);
            }
        }
        assert(!absent(s1, id));
        let k = choose|k: int|
            is_first(s1, id, k) && s2.len() == s1.len() && progressed(s1[k], s2[k], ev, tracker)
                && (forall|j: int| 0 <= j < s1.len() && j != k ==> s2[j] == s1[j]);
        lemma_first_is_unique(s1, id, i, k);
    }
}

} // verus!
