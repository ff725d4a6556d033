use vstd::prelude::*;

use crate::operation::TrashEntry;

verus! {

/// Whether some trash entry records `path` as its original location.
pub open spec fn has_match(entries: Seq<TrashEntry>, path: String) -> bool {
    exists|i: int| 0 <= i < entries.len() && (#[trigger] entries[i]).original_path@ == path@
}

/// The entry chosen for `path` among the first `n` trash entries: the
/// first index holding the greatest deletion time among the entries
/// whose recorded original path is `path`. `None` when none matches.
pub open spec fn best_upto(entries: Seq<TrashEntry>, path: String, n: int) -> Option<int>
    decreases n,
{
    if n <= 0 {
        None
    } else {
        let prev = best_upto(entries, path, n - 1);
        if entries[n - 1].original_path@ == path@ {
            match prev {
                None => Some(n - 1),
                Some(b) => if entries[n - 1].time_deleted > entries[b].time_deleted {
                    Some(n - 1)
                } else {
                    Some(b)
                },
            }
        } else {
            prev
        }
    }
}

/// The entry an undo restores for `path`: the most recently deleted
/// match, ties broken towards the earlier list position.
pub open spec fn best_match(entries: Seq<TrashEntry>, path: String) -> Option<int> {
    best_upto(entries, path, entries.len() as int)
}

/// The list of entries an undo of `deleted` restores: for each deleted
/// path that still has a match in the trash, exactly its best match, in
/// the order the paths were deleted.
pub open spec fn restore_plan_spec(entries: Seq<TrashEntry>, deleted: Seq<String>) -> Seq<
    TrashEntry,
>
    decreases deleted.len(),
{
    if deleted.len() == 0 {
        Seq::empty()
    } else {
        let rest = restore_plan_spec(entries, deleted.drop_last());
        match best_match(entries, deleted.last()) {
            Some(b) => rest.push(entries[b]),
            None => rest,
        }
    }
}

/// The chosen match is a real match, and it is the most recent one:
/// every other entry recorded under the same original path was deleted
/// no later, and every earlier list position strictly earlier. A path
/// without a match in the trash gets nothing restored.
pub proof fn lemma_best_match_is_most_recent(entries: Seq<TrashEntry>, path: String)
    ensures
        best_match(entries, path) matches Some(b) ==> 0 <= b < entries.len() && entries[
            b
        ].original_path@ == path@ && (forall|j: int|
            0 <= j < entries.len() && (#[trigger] entries[j]).original_path@ == path@
                ==> entries[j].time_deleted <= entries[b].time_deleted) && (forall|j: int|
            0 <= j < b && (#[trigger] entries[j]).original_path@ == path@ ==> entries[
                j
            ].time_deleted < entries[b].time_deleted),
        best_match(entries, path) is None ==> !has_match(entries, path),
{
    lemma_best_upto(entries, path, entries.len() as int);
}

proof fn lemma_best_upto(entries: Seq<TrashEntry>, path: String, n: int)
    requires
        n <= entries.len(),
    ensures
        best_upto(entries, path, n) matches Some(b) ==> 0 <= b < n && entries[b].original_path@
            == path@ && (forall|j: int|
            0 <= j < n && (#[trigger] entries[j]).original_path@ == path@ ==> entries[
                j
            ].time_deleted <= entries[b].time_deleted) && (forall|j: int|
            0 <= j < b && (#[trigger] entries[j]).original_path@ == path@ ==> entries[
                j
            ].time_deleted < entries[b].time_deleted),
        best_upto(entries, path, n) is None ==> forall|j: int|
            0 <= j < n ==> (#[trigger] entries[j]).original_path@ != path@,
    decreases n,
{
    if n > 0 {
        lemma_best_upto(entries, path, n - 1);
    }
}

/// An exact copy of one trash entry.
fn clone_trash_entry(e: &TrashEntry) -> (r: TrashEntry)
    ensures
        r == *e,
{
    TrashEntry {
        id: e.id.clone(),
        original_path: e.original_path.clone(),
        time_deleted: e.time_deleted,
    }
}

/// Undo-delete reconciliation. Trash entries are looked up by original
/// path rather than kept as live handles, so an undo re-scans the trash
/// (`entries` is that scan, in scan order) and restores, for each path
/// in the recently deleted set, exactly the matching entry that was
/// deleted most recently.
pub fn undo_restore_items(entries: &Vec<TrashEntry>, deleted: &Vec<String>) -> (r: Vec<TrashEntry>)
    ensures
        r@ == restore_plan_spec(entries@, deleted@),
{
    let mut r: Vec<TrashEntry> = Vec::new();
    let mut k: usize = 0;
    while k < deleted.len()
        invariant
            k <= deleted.len(),
            r@ == restore_plan_spec(entries@, deleted@.take(k as int)),
        decreases deleted.len() - k,
    {
        proof {
            assert(deleted@.take(k + 1).drop_last() =~= deleted@.take(k as int));
            assert(deleted@.take(k + 1).last() == deleted@[k as int]);
        }
        let path = &deleted[k];
        let mut best: Option<usize> = None;
        let mut i: usize = 0;
        while i < entries.len()
            invariant
                k < deleted.len(),
                *path == deleted@[k as int],
                i <= entries.len(),
                match best {
                    Some(b) => best_upto(entries@, deleted@[k as int], i as int) == Some(b as int)
                        && b < entries@.len(),
                    None => best_upto(entries@, deleted@[k as int], i as int) is None,
                },
            decreases entries.len() - i,
        {
            if entries[i].original_path == *path {
                match best {
                    None => {
                        best = Some(i);
                    },
                    Some(b) => {
                        if entries[i].time_deleted > entries[b].time_deleted {
                            best = Some(i);
                        }
                    },
                }
            }
            i = i + 1;
        }
        match best {
            Some(b) => {
                r.push(clone_trash_entry(&entries[b]));
            },
            None => {},
        }
        k = k + 1;
    }
    proof {
        assert(deleted@.take(deleted@.len() as int) =~= deleted@);
    }
    r
}

} // verus!
