//! The store as two tables, what a plan does to them where every step
//! succeeds, and what then holds of a reconciliation.

use vstd::prelude::*;

use crate::anilist::{EntryView, MediaListView};
use crate::image::has_extension;
use crate::models::{AnimeView, ListItemView};
use crate::reconcile::{
    anime_of, entries_actions, entry_actions, is_listed, is_stale, keeps_to,
    lemma_reconciliation_keeps_to, list_actions, listed_ids, reconciliation, retained_entries,
    row_of, stale_rows, ActionView,
};

verus! {

/// The stored tables: anime records by anime id, list rows by user id and
/// anime id.
pub struct Store {
    pub anime: Map<i32, AnimeView>,
    pub lists: Map<(i32, i32), ListItemView>,
}

/// The store after a step that succeeded. A write replaces the record under
/// the same key.
pub open spec fn apply(store: Store, action: ActionView) -> Store {
    match action {
        ActionView::Delete { user_id, anime_id } => Store {
            lists: store.lists.remove((user_id, anime_id)),
            ..store
        },
        ActionView::StoreAnime { anime, .. } => Store {
            anime: store.anime.insert(anime.anime_id, anime),
            ..store
        },
        ActionView::StoreRow { row } => Store {
            lists: store.lists.insert((row.user_id, row.anime_id), row),
            ..store
        },
        ActionView::Reject { .. } => store,
    }
}

/// The store after every step of a plan succeeded, one after the other.
pub open spec fn run(store: Store, plan: Seq<ActionView>) -> Store
    decreases plan.len(),
{
    if plan.len() == 0 {
        store
    } else {
        apply(run(store, plan.drop_last()), plan.last())
    }
}

/// `stored` holds every list row that the store has for the user.
pub open spec fn holds_rows_of(stored: Seq<ListItemView>, store: Store, id: i32) -> bool {
    forall|anime_id: i32| #[trigger]
        store.lists.contains_key((id, anime_id)) ==> exists|k: int|
            0 <= k < stored.len() && stored[k].user_id == id && #[trigger] stored[k].anime_id
                == anime_id
}

/// Every list row of the store has its anime record.
pub open spec fn rows_have_anime(store: Store) -> bool {
    forall|key: (i32, i32)| #[trigger]
        store.lists.contains_key(key) ==> store.anime.contains_key(key.1)
}

/// Every entry of a sub-list that counts has a cover address with an
/// extension.
pub open spec fn covers_have_extensions(lists: Seq<MediaListView>) -> bool {
    forall|k: int|
        0 <= k < retained_entries(lists).len() ==> has_extension(
            #[trigger] retained_entries(lists)[k].media.cover,
        )
}

/// Some of the entries holds the media under a cover address with an
/// extension.
pub open spec fn writes(entries: Seq<EntryView>, anime_id: i32) -> bool {
    exists|k: int|
        0 <= k < entries.len() && #[trigger] entries[k].media.id == anime_id && has_extension(
            entries[k].media.cover,
        )
}

/// The entry at `k` is the last of the entries that is written for its
/// media.
pub open spec fn is_last_write(entries: Seq<EntryView>, k: int) -> bool {
    &&& 0 <= k < entries.len()
    &&& has_extension(entries[k].media.cover)
    &&& forall|later: int|
        k < later < entries.len() && has_extension(entries[later].media.cover)
            ==> #[trigger] entries[later].media.id != entries[k].media.id
}

/// Some stored row of the user holds the media.
pub open spec fn is_stored(stored: Seq<ListItemView>, id: i32, anime_id: i32) -> bool {
    exists|k: int|
        0 <= k < stored.len() && stored[k].user_id == id && #[trigger] stored[k].anime_id
            == anime_id
}

/// Running one plan after another is running both in a row.
pub proof fn lemma_run_concat(store: Store, first: Seq<ActionView>, second: Seq<ActionView>)
    ensures
        run(store, first + second) == run(run(store, first), second),
    decreases second.len(),
{
    if second.len() == 0 {
        assert(first + second =~= first);
    } else {
        lemma_run_concat(store, first, second.drop_last());
        assert((first + second).drop_last() =~= first + second.drop_last());
        assert((first + second).last() == second.last());
    }
}

/// What the deletion of the stale rows does: the stale rows of the user
/// that were handed in are gone, and nothing else has changed.
pub proof fn lemma_run_stale_rows(
    store: Store,
    lists: Seq<MediaListView>,
    id: i32,
    stored: Seq<ListItemView>,
)
    ensures
        run(store, stale_rows(lists, id, stored)).anime == store.anime,
        forall|key: (i32, i32)| #[trigger]
            run(store, stale_rows(lists, id, stored)).lists.contains_key(key) <==> (
            store.lists.contains_key(key) && !(key.0 == id && !is_listed(lists, key.1)
                && is_stored(stored, id, key.1))),
        forall|key: (i32, i32)| #[trigger]
            run(store, stale_rows(lists, id, stored)).lists.contains_key(key) ==> run(
                store,
                stale_rows(lists, id, stored),
            ).lists[key] == store.lists[key],
    decreases stored.len(),
{
    if stored.len() > 0 {
        let front = stored.drop_last();
        let last = stored.last();
        lemma_run_stale_rows(store, lists, id, front);
        let before = run(store, stale_rows(lists, id, front));
        let after = run(store, stale_rows(lists, id, stored));
        if is_stale(lists, id, last) {
            let deletion = ActionView::Delete { user_id: id, anime_id: last.anime_id };
            assert(stale_rows(lists, id, stored).drop_last() =~= stale_rows(lists, id, front));
            assert(after == apply(before, deletion));
        }
        assert forall|key: (i32, i32)| #[trigger]
            after.lists.contains_key(key) <==> (store.lists.contains_key(key) && !(key.0 == id
                && !is_listed(lists, key.1) && is_stored(stored, id, key.1))) by {
            if is_stored(stored, id, key.1) {
                let k = choose|k: int|
                    0 <= k < stored.len() && stored[k].user_id == id && #[trigger] stored[k].anime_id
                        == key.1;
                if k < stored.len() - 1 {
                    assert(front[k].anime_id == key.1);
                }
            }
            if is_stored(front, id, key.1) {
                let k = choose|k: int|
                    0 <= k < front.len() && front[k].user_id == id && #[trigger] front[k].anime_id
                        == key.1;
                assert(stored[k].anime_id == key.1);
            }
            if is_stale(lists, id, last) && key == (id, last.anime_id) {
                assert(stored[stored.len() - 1].anime_id == key.1);
            }
        }
    }
}

/// What one written entry does to the store: its anime record and its list
/// row stand under their keys, and nothing else has changed. A rejected
/// entry changes nothing.
pub proof fn lemma_run_entry(store: Store, id: i32, entry: EntryView)
    ensures
        run(store, entry_actions(id, entry)) == if has_extension(entry.media.cover) {
            Store {
                anime: store.anime.insert(entry.media.id, anime_of(entry.media)),
                lists: store.lists.insert((id, entry.media.id), row_of(id, entry)),
            }
        } else {
            store
        },
{
    let plan = entry_actions(id, entry);
    if has_extension(entry.media.cover) {
        assert(plan.drop_last().drop_last() =~= Seq::<ActionView>::empty());
        assert(run(store, plan.drop_last().drop_last()) == store);
        assert(run(store, plan.drop_last()) == apply(store, plan[0]));
    } else {
        assert(plan.drop_last() =~= Seq::<ActionView>::empty());
        assert(run(store, plan.drop_last()) == store);
    }
}

/// What the writing of some entries does: for every media that is written,
/// the anime record and the list row of the user stand as the last entry
/// that holds the media gives them, and nothing else has changed.
pub proof fn lemma_run_entries(store: Store, id: i32, entries: Seq<EntryView>)
    ensures
        forall|key: (i32, i32)| #[trigger]
            run(store, entries_actions(id, entries)).lists.contains_key(key) <==> (
            store.lists.contains_key(key) || (key.0 == id && writes(entries, key.1))),
        forall|key: (i32, i32)|
            store.lists.contains_key(key) && !(key.0 == id && writes(entries, key.1)) ==> (
            #[trigger] run(store, entries_actions(id, entries)).lists[key]) == store.lists[key],
        forall|anime_id: i32| #[trigger]
            run(store, entries_actions(id, entries)).anime.contains_key(anime_id) <==> (
            store.anime.contains_key(anime_id) || writes(entries, anime_id)),
        forall|anime_id: i32|
            store.anime.contains_key(anime_id) && !writes(entries, anime_id) ==> (#[trigger] run(
                store,
                entries_actions(id, entries),
            ).anime[anime_id]) == store.anime[anime_id],
        forall|k: int| #[trigger]
            is_last_write(entries, k) ==> run(store, entries_actions(id, entries)).lists[(
                id,
                entries[k].media.id,
            )] == row_of(id, entries[k]) && run(
                store,
                entries_actions(id, entries),
            ).anime[entries[k].media.id] == anime_of(entries[k].media),
    decreases entries.len(),
{
    if entries.len() > 0 {
        let front = entries.drop_last();
        let last = entries.last();
        lemma_run_entries(store, id, front);
        let before = run(store, entries_actions(id, front));
        let after = run(store, entries_actions(id, entries));
        lemma_run_concat(store, entries_actions(id, front), entry_actions(id, last));
        lemma_run_entry(before, id, last);
        assert forall|anime_id: i32|
            writes(entries, anime_id) <==> (writes(front, anime_id) || (last.media.id == anime_id
                && has_extension(last.media.cover))) by {
            if writes(entries, anime_id) {
                let k = choose|k: int|
                    0 <= k < entries.len() && #[trigger] entries[k].media.id == anime_id
                        && has_extension(entries[k].media.cover);
                if k < entries.len() - 1 {
                    assert(front[k].media.id == anime_id);
                }
            }
            if writes(front, anime_id) {
                let k = choose|k: int|
                    0 <= k < front.len() && #[trigger] front[k].media.id == anime_id
                        && has_extension(front[k].media.cover);
                assert(entries[k].media.id == anime_id);
            }
            if last.media.id == anime_id && has_extension(last.media.cover) {
                assert(entries[entries.len() - 1].media.id == anime_id);
            }
        }
        assert forall|k: int| #[trigger] is_last_write(entries, k) implies after.lists[(
            id,
            entries[k].media.id,
        )] == row_of(id, entries[k]) && after.anime[entries[k].media.id] == anime_of(
            entries[k].media,
        ) by {
            if k < entries.len() - 1 {
                assert(front[k] == entries[k]);
                assert forall|later: int|
                    k < later < front.len() && has_extension(
                        front[later].media.cover,
                    ) implies #[trigger] front[later].media.id != front[k].media.id by {
                    assert(entries[later].media.id != entries[k].media.id);
                }
                assert(is_last_write(front, k));
                if has_extension(last.media.cover) {
                    assert(entries[entries.len() - 1].media.id != entries[k].media.id);
                }
            }
        }
    }
}

/// A media that is written has a last entry that is written for it.
pub proof fn lemma_last_write_exists(entries: Seq<EntryView>, anime_id: i32)
    requires
        writes(entries, anime_id),
    ensures
        exists|k: int| #[trigger] is_last_write(entries, k) && entries[k].media.id == anime_id,
    decreases entries.len(),
{
    let last = entries.last();
    if last.media.id == anime_id && has_extension(last.media.cover) {
        assert(is_last_write(entries, entries.len() - 1));
    } else {
        let front = entries.drop_last();
        let w = choose|k: int|
            0 <= k < entries.len() && #[trigger] entries[k].media.id == anime_id && has_extension(
                entries[k].media.cover,
            );
        assert(front[w].media.id == anime_id);
        lemma_last_write_exists(front, anime_id);
        let k = choose|k: int| #[trigger] is_last_write(front, k) && front[k].media.id == anime_id;
        assert(entries[k] == front[k]);
        assert forall|later: int|
            k < later < entries.len() && has_extension(
                entries[later].media.cover,
            ) implies #[trigger] entries[later].media.id != entries[k].media.id by {
            if later < entries.len() - 1 {
                assert(front[later].media.id != front[k].media.id);
            }
        }
        assert(is_last_write(entries, k));
    }
}

/// A media that is written is listed; where every cover address has an
/// extension, a media that is listed is written.
pub proof fn lemma_writes_listed(lists: Seq<MediaListView>, anime_id: i32)
    ensures
        writes(retained_entries(lists), anime_id) ==> is_listed(lists, anime_id),
        covers_have_extensions(lists) && is_listed(lists, anime_id) ==> writes(
            retained_entries(lists),
            anime_id,
        ),
{
    let entries = retained_entries(lists);
    if writes(entries, anime_id) {
        let k = choose|k: int|
            0 <= k < entries.len() && #[trigger] entries[k].media.id == anime_id && has_extension(
                entries[k].media.cover,
            );
        assert(listed_ids(lists)[k] == anime_id);
    }
    if covers_have_extensions(lists) && is_listed(lists, anime_id) {
        let k = choose|k: int|
            0 <= k < listed_ids(lists).len() && listed_ids(lists)[k] == anime_id;
        assert(entries[k].media.id == anime_id);
        assert(has_extension(entries[k].media.cover));
    }
}

/// After a reconciliation the user has no row for a media that stands in no
/// sub-list that counts, whatever lists it stood in before and whatever
/// other sub-lists hold it now.
pub proof fn lemma_unlisted_rows_vanish(
    store: Store,
    id: i32,
    lists: Seq<MediaListView>,
    stored: Seq<ListItemView>,
)
    requires
        holds_rows_of(stored, store, id),
    ensures
        forall|anime_id: i32|
            !is_listed(lists, anime_id) ==> !(#[trigger] run(
                store,
                reconciliation(id, lists, stored),
            ).lists.contains_key((id, anime_id))),
{
    let entries = retained_entries(lists);
    let swept = run(store, stale_rows(lists, id, stored));
    let after = run(store, reconciliation(id, lists, stored));
    lemma_run_concat(store, stale_rows(lists, id, stored), list_actions(id, lists));
    lemma_run_stale_rows(store, lists, id, stored);
    lemma_run_entries(swept, id, entries);
    assert forall|anime_id: i32| !is_listed(lists, anime_id) implies !(
    #[trigger] after.lists.contains_key((id, anime_id))) by {
        lemma_writes_listed(lists, anime_id);
        if store.lists.contains_key((id, anime_id)) {
            assert(is_stored(stored, id, anime_id));
            assert(!swept.lists.contains_key((id, anime_id)));
        }
    }
}

/// After a reconciliation the user has a row for a media exactly when the
/// media stands in a sub-list that counts, and the row is the one that the
/// last entry holding the media gives.
pub proof fn lemma_reconcile_converges(
    store: Store,
    id: i32,
    lists: Seq<MediaListView>,
    stored: Seq<ListItemView>,
)
    requires
        holds_rows_of(stored, store, id),
        covers_have_extensions(lists),
    ensures
        forall|anime_id: i32| #[trigger]
            run(store, reconciliation(id, lists, stored)).lists.contains_key((id, anime_id))
                <==> is_listed(lists, anime_id),
        forall|k: int| #[trigger]
            is_last_write(retained_entries(lists), k) ==> run(
                store,
                reconciliation(id, lists, stored),
            ).lists[(id, retained_entries(lists)[k].media.id)] == row_of(
                id,
                retained_entries(lists)[k],
            ),
{
    let entries = retained_entries(lists);
    let swept = run(store, stale_rows(lists, id, stored));
    let after = run(store, reconciliation(id, lists, stored));
    lemma_run_concat(store, stale_rows(lists, id, stored), list_actions(id, lists));
    lemma_run_entries(swept, id, entries);
    lemma_unlisted_rows_vanish(store, id, lists, stored);
    assert forall|anime_id: i32| #[trigger]
        after.lists.contains_key((id, anime_id)) <==> is_listed(lists, anime_id) by {
        lemma_writes_listed(lists, anime_id);
    }
}

/// A reconciliation leaves the rows of every other user as they were.
pub proof fn lemma_other_users_untouched(
    store: Store,
    id: i32,
    lists: Seq<MediaListView>,
    stored: Seq<ListItemView>,
)
    ensures
        forall|key: (i32, i32)|
            key.0 != id ==> (#[trigger] run(
                store,
                reconciliation(id, lists, stored),
            ).lists.contains_key(key) <==> store.lists.contains_key(key)),
        forall|key: (i32, i32)|
            key.0 != id && store.lists.contains_key(key) ==> (#[trigger] run(
                store,
                reconciliation(id, lists, stored),
            ).lists[key]) == store.lists[key],
{
    let entries = retained_entries(lists);
    let swept = run(store, stale_rows(lists, id, stored));
    lemma_run_concat(store, stale_rows(lists, id, stored), list_actions(id, lists));
    lemma_run_stale_rows(store, lists, id, stored);
    lemma_run_entries(swept, id, entries);
}

/// Where every list row had its anime record before a reconciliation, every
/// list row has it afterwards.
pub proof fn lemma_rows_keep_their_anime(
    store: Store,
    id: i32,
    lists: Seq<MediaListView>,
    stored: Seq<ListItemView>,
)
    requires
        rows_have_anime(store),
    ensures
        rows_have_anime(run(store, reconciliation(id, lists, stored))),
{
    let entries = retained_entries(lists);
    let swept = run(store, stale_rows(lists, id, stored));
    let after = run(store, reconciliation(id, lists, stored));
    lemma_run_concat(store, stale_rows(lists, id, stored), list_actions(id, lists));
    lemma_run_stale_rows(store, lists, id, stored);
    lemma_run_entries(swept, id, entries);
    assert forall|key: (i32, i32)| #[trigger] after.lists.contains_key(key) implies
        after.anime.contains_key(key.1) by {
        if swept.lists.contains_key(key) {
            assert(store.lists.contains_key(key));
        }
    }
}

/// A second reconciliation against the same remote lists changes nothing,
/// whichever rows are handed to it as stored.
pub proof fn lemma_reconcile_idempotent(
    store: Store,
    id: i32,
    lists: Seq<MediaListView>,
    stored: Seq<ListItemView>,
    again: Seq<ListItemView>,
)
    requires
        holds_rows_of(stored, store, id),
    ensures
        run(run(store, reconciliation(id, lists, stored)), reconciliation(id, lists, again)) == run(
            store,
            reconciliation(id, lists, stored),
        ),
{
    let entries = retained_entries(lists);
    let swept = run(store, stale_rows(lists, id, stored));
    let after = run(store, reconciliation(id, lists, stored));
    lemma_run_concat(store, stale_rows(lists, id, stored), list_actions(id, lists));
    lemma_run_entries(swept, id, entries);
    lemma_unlisted_rows_vanish(store, id, lists, stored);

    let swept_again = run(after, stale_rows(lists, id, again));
    let after_again = run(after, reconciliation(id, lists, again));
    lemma_run_concat(after, stale_rows(lists, id, again), list_actions(id, lists));
    lemma_run_stale_rows(after, lists, id, again);
    assert(swept_again.lists =~= after.lists);
    assert(swept_again == after);
    lemma_run_entries(after, id, entries);

    assert forall|key: (i32, i32)| #[trigger]
        after_again.lists.contains_key(key) implies after_again.lists[key]
        == after.lists[key] by {
        if key.0 == id && writes(entries, key.1) {
            lemma_last_write_exists(entries, key.1);
            let k = choose|k: int| #[trigger]
                is_last_write(entries, k) && entries[k].media.id == key.1;
            assert(after.lists[(id, entries[k].media.id)] == row_of(id, entries[k]));
            assert(after_again.lists[(id, entries[k].media.id)] == row_of(id, entries[k]));
        }
    }
    assert(after_again.lists =~= after.lists);
    assert forall|anime_id: i32| #[trigger]
        after_again.anime.contains_key(anime_id) implies after_again.anime[anime_id]
        == after.anime[anime_id] by {
        if writes(entries, anime_id) {
            lemma_last_write_exists(entries, anime_id);
            let k = choose|k: int| #[trigger]
                is_last_write(entries, k) && entries[k].media.id == anime_id;
            assert(after.anime[entries[k].media.id] == anime_of(entries[k].media));
            assert(after_again.anime[entries[k].media.id] == anime_of(entries[k].media));
        }
    }
    assert(after_again.anime =~= after.anime);
}

/// The store after a plan of which the steps marked in `done` succeeded and
/// the others failed. A step that failed changes nothing.
pub open spec fn run_some(store: Store, plan: Seq<ActionView>, done: Seq<bool>) -> Store
    decreases plan.len(),
{
    if plan.len() == 0 {
        store
    } else if done[plan.len() - 1] {
        apply(run_some(store, plan.drop_last(), done), plan.last())
    } else {
        run_some(store, plan.drop_last(), done)
    }
}

/// Whichever steps of a reconciliation fail, the failures stay where they
/// are: the rows of every other user are as they were, no row of a media
/// that is listed is lost, and no row of a media that is not listed comes
/// to be.
pub proof fn lemma_failures_stay_local(
    store: Store,
    id: i32,
    lists: Seq<MediaListView>,
    stored: Seq<ListItemView>,
    done: Seq<bool>,
)
    ensures
        forall|key: (i32, i32)|
            key.0 != id ==> (#[trigger] run_some(
                store,
                reconciliation(id, lists, stored),
                done,
            ).lists.contains_key(key) <==> store.lists.contains_key(key)),
        forall|key: (i32, i32)|
            key.0 != id && store.lists.contains_key(key) ==> (#[trigger] run_some(
                store,
                reconciliation(id, lists, stored),
                done,
            ).lists[key]) == store.lists[key],
        forall|anime_id: i32|
            is_listed(lists, anime_id) && store.lists.contains_key((id, anime_id))
                ==> #[trigger] run_some(
                store,
                reconciliation(id, lists, stored),
                done,
            ).lists.contains_key((id, anime_id)),
        forall|anime_id: i32|
            !is_listed(lists, anime_id) && !store.lists.contains_key((id, anime_id)) ==> !(
            #[trigger] run_some(store, reconciliation(id, lists, stored), done).lists.contains_key(
                (id, anime_id),
            )),
{
    lemma_reconciliation_keeps_to(id, lists, stored);
    lemma_run_some_keeps_to(store, reconciliation(id, lists, stored), done, id, lists);
}

/// What a plan that keeps to the rows of the user does to the list rows,
/// whichever of its steps fail.
pub proof fn lemma_run_some_keeps_to(
    store: Store,
    plan: Seq<ActionView>,
    done: Seq<bool>,
    id: i32,
    lists: Seq<MediaListView>,
)
    requires
        keeps_to(plan, id, lists),
    ensures
        forall|key: (i32, i32)|
            key.0 != id ==> (#[trigger] run_some(store, plan, done).lists.contains_key(key)
                <==> store.lists.contains_key(key)),
        forall|key: (i32, i32)|
            key.0 != id && store.lists.contains_key(key) ==> (#[trigger] run_some(
                store,
                plan,
                done,
            ).lists[key]) == store.lists[key],
        forall|anime_id: i32|
            is_listed(lists, anime_id) && store.lists.contains_key((id, anime_id))
                ==> #[trigger] run_some(store, plan, done).lists.contains_key((id, anime_id)),
        forall|anime_id: i32|
            !is_listed(lists, anime_id) && !store.lists.contains_key((id, anime_id)) ==> !(
            #[trigger] run_some(store, plan, done).lists.contains_key((id, anime_id))),
    decreases plan.len(),
{
    if plan.len() > 0 {
        let front = plan.drop_last();
        assert forall|k: int| 0 <= k < front.len() implies match #[trigger] front[k] {
            ActionView::Delete { user_id, anime_id } => user_id == id && !is_listed(
                lists,
                anime_id,
            ),
            ActionView::StoreRow { row } => row.user_id == id && is_listed(lists, row.anime_id),
            _ => true,
        } by {
            assert(front[k] == plan[k]);
        }
        lemma_run_some_keeps_to(store, front, done, id, lists);
        let last = plan[plan.len() - 1];
        let before = run_some(store, front, done);
        let after = run_some(store, plan, done);
        assert(after == if done[plan.len() - 1] {
            apply(before, last)
        } else {
            before
        });
        assert forall|key: (i32, i32)| key.0 != id implies (#[trigger] after.lists.contains_key(
            key,
        ) <==> store.lists.contains_key(key)) && (store.lists.contains_key(key)
            ==> after.lists[key] == store.lists[key]) by {
            assert(before.lists.contains_key(key) <==> store.lists.contains_key(key));
            if store.lists.contains_key(key) {
                assert(before.lists[key] == store.lists[key]);
            }
        }
    }
}

/// A plan of which every step succeeds is a plan that is run.
pub proof fn lemma_run_some_all(store: Store, plan: Seq<ActionView>, done: Seq<bool>)
    requires
        forall|k: int| 0 <= k < plan.len() ==> done[k],
    ensures
        run_some(store, plan, done) == run(store, plan),
    decreases plan.len(),
{
    if plan.len() > 0 {
        lemma_run_some_all(store, plan.drop_last(), done);
    }
}

} // verus!
