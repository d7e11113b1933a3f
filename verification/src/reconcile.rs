//! The reconciliation of one user's stored list with their remote list:
//! which sub-lists count, which stored rows have gone stale, and which
//! records are written for the entries that count.

use vstd::prelude::*;
use vstd::string::*;

use crate::anilist;
use crate::anilist::{Entry, EntryView, Media, MediaList, MediaListView, MediaView};
use crate::date::{construct_date, whole_date};
use crate::image::{
    extension, has_extension, image_url, storage_url, try_get_ext, upload_of, upload_with_ext,
    ImageTypes, Upload, UploadView,
};
use crate::models;
use crate::models::{Anime, AnimeView, ListItem, ListItemView};
use crate::text::{contains, lowercase, str_contains, to_lowercase};

verus! {

/// A lower-cased sub-list name counts when it holds `completed` or
/// `watching`.
pub open spec fn matches_retained(lowered: Seq<char>) -> bool {
    contains(lowered, "completed"@) || contains(lowered, "watching"@)
}

/// A sub-list counts when the lower-case form of its name does.
pub open spec fn is_retained(name: Seq<char>) -> bool {
    matches_retained(lowercase(name))
}

/// The media ids of some entries, in their order.
pub open spec fn entry_ids(entries: Seq<EntryView>) -> Seq<i32> {
    entries.map_values(|entry: EntryView| entry.media.id)
}

/// The entries of every sub-list that counts, in the order of the lists and
/// of their entries.
pub open spec fn retained_entries(lists: Seq<MediaListView>) -> Seq<EntryView>
    decreases lists.len(),
{
    if lists.len() == 0 {
        Seq::empty()
    } else if is_retained(lists.last().name) {
        retained_entries(lists.drop_last()) + lists.last().entries
    } else {
        retained_entries(lists.drop_last())
    }
}

/// The media ids of the entries of every sub-list that counts.
pub open spec fn listed_ids(lists: Seq<MediaListView>) -> Seq<i32> {
    entry_ids(retained_entries(lists))
}

/// The media stands in a sub-list that counts.
pub open spec fn is_listed(lists: Seq<MediaListView>, anime_id: i32) -> bool {
    listed_ids(lists).contains(anime_id)
}

/// Ascending order.
pub open spec fn ascending(ids: Seq<i32>) -> bool {
    forall|i: int, j: int| 0 <= i <= j < ids.len() ==> ids[i] <= ids[j]
}

/// A media is listed exactly when some entry of some sub-list that counts
/// holds it.
pub proof fn lemma_listed_ids(lists: Seq<MediaListView>, anime_id: i32)
    ensures
        is_listed(lists, anime_id) <==> exists|i: int, j: int|
            0 <= i < lists.len() && is_retained(lists[i].name) && 0 <= j
                < lists[i].entries.len() && #[trigger] lists[i].entries[j].media.id == anime_id,
    decreases lists.len(),
{
    if lists.len() > 0 {
        let front = lists.drop_last();
        let last = lists.last();
        lemma_listed_ids(front, anime_id);
        if is_listed(lists, anime_id) {
            let at = choose|at: int|
                0 <= at < listed_ids(lists).len() && listed_ids(lists)[at] == anime_id;
            if at < listed_ids(front).len() {
                assert(listed_ids(front)[at] == anime_id);
                assert(is_listed(front, anime_id));
                let (i, j) = choose|i: int, j: int|
                    0 <= i < front.len() && is_retained(front[i].name) && 0 <= j
                        < front[i].entries.len() && #[trigger] front[i].entries[j].media.id
                        == anime_id;
                assert(lists[i].entries[j].media.id == anime_id);
            } else {
                let j = at - listed_ids(front).len();
                assert(lists[lists.len() - 1].entries[j].media.id == anime_id);
            }
        }
        if exists|i: int, j: int|
            0 <= i < lists.len() && is_retained(lists[i].name) && 0 <= j < lists[i].entries.len()
                && #[trigger] lists[i].entries[j].media.id == anime_id {
            let (i, j) = choose|i: int, j: int|
                0 <= i < lists.len() && is_retained(lists[i].name) && 0 <= j
                    < lists[i].entries.len() && #[trigger] lists[i].entries[j].media.id
                    == anime_id;
            if i < lists.len() - 1 {
                assert(front[i].entries[j].media.id == anime_id);
                assert(is_listed(front, anime_id));
                let at = choose|at: int|
                    0 <= at < listed_ids(front).len() && listed_ids(front)[at] == anime_id;
                assert(listed_ids(lists)[at] == anime_id);
            } else {
                assert(listed_ids(lists)[listed_ids(front).len() + j] == anime_id);
            }
        }
    }
}

/// What is done for some entries and then for others is what is done for
/// all of them in a row.
pub proof fn lemma_entries_actions_concat(id: i32, a: Seq<EntryView>, b: Seq<EntryView>)
    ensures
        entries_actions(id, a + b) == entries_actions(id, a) + entries_actions(id, b),
    decreases b.len(),
{
    if b.len() == 0 {
        assert(a + b =~= a);
        assert(entries_actions(id, a) + entries_actions(id, b) =~= entries_actions(id, a));
    } else {
        lemma_entries_actions_concat(id, a, b.drop_last());
        assert((a + b).drop_last() =~= a + b.drop_last());
        assert((a + b).last() == b.last());
        assert(entries_actions(id, a + b) =~= entries_actions(id, a) + entries_actions(id, b));
    }
}

/// Whether a lower-cased sub-list name counts.
pub fn matches_retained_name(lowered: &str) -> (b: bool)
    ensures
        b == matches_retained(lowered@),
{
    str_contains(lowered, "completed") || str_contains(lowered, "watching")
}

/// Whether a sub-list counts, by its name.
pub fn is_retained_name(name: &str) -> (b: bool)
    ensures
        b == is_retained(name@),
{
    let lowered = to_lowercase(name);
    matches_retained_name(lowered.as_str())
}

/// Calls `sort_unstable` of std's slices on the ids. The contract claims
/// that the ids come back in ascending order and that each id is held as
/// often as before.
#[verifier::external_body]
fn sort_ids(ids: &mut Vec<i32>)
    ensures
        ascending(final(ids)@),
        final(ids)@.to_multiset() == old(ids)@.to_multiset(),
{
    ids.sort_unstable();
}

/// The media ids of the entries of every sub-list that counts, in ascending
/// order.
pub fn retained_ids(lists: &Vec<MediaList>) -> (ids: Vec<i32>)
    ensures
        ascending(ids@),
        ids@.to_multiset() == listed_ids(lists.deep_view()).to_multiset(),
        forall|anime_id: i32| ids@.contains(anime_id) <==> is_listed(lists.deep_view(), anime_id),
{
    let ghost all = lists.deep_view();
    let mut ids: Vec<i32> = Vec::new();
    let mut i: usize = 0;
    while i < lists.len()
        invariant
            i <= lists.len(),
            all == lists.deep_view(),
            ids@ == listed_ids(all.take(i as int)),
        decreases lists.len() - i,
    {
        let list = &lists[i];
        let ghost front = ids@;
        assert(all.take(i + 1).drop_last() =~= all.take(i as int));
        assert(all.take(i + 1).last() == list@);
        if is_retained_name(list.name.as_str()) {
            assert(listed_ids(all.take(i + 1)) =~= front + entry_ids(list@.entries));
            let ghost entries = list.entries.deep_view();
            let mut j: usize = 0;
            while j < list.entries.len()
                invariant
                    j <= list.entries.len(),
                    entries == list.entries.deep_view(),
                    ids@ == front + entry_ids(entries.take(j as int)),
                decreases list.entries.len() - j,
            {
                ids.push(list.entries[j].media.id);
                j += 1;
                assert(ids@ =~= front + entry_ids(entries.take(j as int)));
            }
            assert(entries.take(j as int) =~= entries);
        } else {
            assert(ids@ =~= front);
        }
        i += 1;
    }
    assert(all.take(i as int) =~= all);
    let ghost unsorted = ids@;
    sort_ids(&mut ids);
    proof {
        assert forall|anime_id: i32| ids@.contains(anime_id) <==> is_listed(all, anime_id) by {
            vstd::seq_lib::to_multiset_contains(ids@, anime_id);
            vstd::seq_lib::to_multiset_contains(unsorted, anime_id);
        }
    }
    ids
}

/// Whether `anime_id` is among ids in ascending order, by halving the range
/// in which it can stand.
pub fn binary_search(ids: &Vec<i32>, anime_id: i32) -> (found: bool)
    requires
        ascending(ids@),
    ensures
        found == ids@.contains(anime_id),
{
    let mut low: usize = 0;
    let mut high: usize = ids.len();
    while low < high
        invariant
            low <= high <= ids.len(),
            ascending(ids@),
            forall|k: int| 0 <= k < low ==> ids@[k] < anime_id,
            forall|k: int| high <= k < ids.len() ==> ids@[k] > anime_id,
        decreases high - low,
    {
        let mid: usize = low + (high - low) / 2;
        let probe: i32 = ids[mid];
        if probe == anime_id {
            return true;
        } else if probe < anime_id {
            low = mid + 1;
        } else {
            high = mid;
        }
    }
    false
}

/// One step of a reconciliation, to be carried out against the store.
#[derive(Clone, Debug, PartialEq, Eq)]
pub enum Action {
    /// Delete the list row of this user and anime.
    Delete { user_id: i32, anime_id: i32 },
    /// Write the anime record; once it is stored, re-host its cover.
    StoreAnime { anime: Anime, cover: Upload },
    /// Write the list row.
    StoreRow { row: ListItem },
    /// Nothing can be written for this entry: the address of its cover has
    /// no extension.
    Reject { user_id: i32, anime_id: i32 },
}

/// [`Action`] as the contracts see it: every text is the sequence of its characters.
pub enum ActionView {
    Delete { user_id: i32, anime_id: i32 },
    StoreAnime { anime: AnimeView, cover: UploadView },
    StoreRow { row: ListItemView },
    Reject { user_id: i32, anime_id: i32 },
}

impl View for Action {
    type V = ActionView;

    open spec fn view(&self) -> ActionView {
        match self {
            Action::Delete { user_id, anime_id } => ActionView::Delete {
                user_id: *user_id,
                anime_id: *anime_id,
            },
            Action::StoreAnime { anime, cover } => ActionView::StoreAnime {
                anime: anime@,
                cover: cover@,
            },
            Action::StoreRow { row } => ActionView::StoreRow { row: row@ },
            Action::Reject { user_id, anime_id } => ActionView::Reject {
                user_id: *user_id,
                anime_id: *anime_id,
            },
        }
    }
}

impl DeepView for Action {
    type V = ActionView;

    open spec fn deep_view(&self) -> ActionView {
        self.view()
    }
}

/// What is done first for a new or returning user: their avatar is
/// re-hosted, then their profile is written.
#[derive(Clone, Debug, PartialEq, Eq)]
pub struct ProfileSync {
    pub avatar: Upload,
    pub user: models::User,
}

/// [`ProfileSync`] as the contracts see it: every text is the sequence of its characters.
pub struct ProfileSyncView {
    pub avatar: UploadView,
    pub user: models::UserView,
}

impl View for ProfileSync {
    type V = ProfileSyncView;

    open spec fn view(&self) -> ProfileSyncView {
        ProfileSyncView { avatar: self.avatar@, user: self.user@ }
    }
}

/// The anime record of a media whose cover address has an extension.
pub open spec fn anime_of(media: MediaView) -> AnimeView {
    AnimeView {
        anime_id: media.id,
        description: media.description,
        cover_s3: image_url(ImageTypes::Anime, media.id as int, extension(media.cover)),
        cover_anilist: media.cover,
        average: media.average_score,
        native: media.title.native,
        romaji: media.title.romaji,
        english: media.title.english,
    }
}

/// The list row of a user for one remote entry.
pub open spec fn row_of(id: i32, entry: EntryView) -> ListItemView {
    ListItemView {
        user_id: id,
        anime_id: entry.media.id,
        user_title: entry.media.title.user_preferred,
        start_day: whole_date(entry.started_at),
        end_day: whole_date(entry.completed_at),
        score: entry.score_raw,
    }
}

/// The profile of a remote user whose avatar address has an extension.
pub open spec fn profile_of(user: anilist::UserView) -> ProfileSyncView {
    ProfileSyncView {
        avatar: upload_of(ImageTypes::User, user.id as int, user.avatar),
        user: models::UserView {
            user_id: user.id,
            name: user.name,
            avatar_s3: image_url(ImageTypes::User, user.id as int, extension(user.avatar)),
            avatar_anilist: user.avatar,
        },
    }
}

/// What is done for one entry of a sub-list that counts: the anime record
/// is written, then the list row; an entry whose cover address has no
/// extension is rejected.
pub open spec fn entry_actions(id: i32, entry: EntryView) -> Seq<ActionView> {
    if has_extension(entry.media.cover) {
        seq![
            ActionView::StoreAnime {
                anime: anime_of(entry.media),
                cover: upload_of(ImageTypes::Anime, entry.media.id as int, entry.media.cover),
            },
            ActionView::StoreRow { row: row_of(id, entry) },
        ]
    } else {
        seq![ActionView::Reject { user_id: id, anime_id: entry.media.id }]
    }
}

/// What is done for some entries, one after the other.
pub open spec fn entries_actions(id: i32, entries: Seq<EntryView>) -> Seq<ActionView>
    decreases entries.len(),
{
    if entries.len() == 0 {
        Seq::empty()
    } else {
        entries_actions(id, entries.drop_last()) + entry_actions(id, entries.last())
    }
}

/// What is done for the entries of every sub-list that counts, in the order
/// of the lists and of their entries.
pub open spec fn list_actions(id: i32, lists: Seq<MediaListView>) -> Seq<ActionView> {
    entries_actions(id, retained_entries(lists))
}

/// A stored row is stale when it belongs to the user and its media stands
/// in no sub-list that counts.
pub open spec fn is_stale(lists: Seq<MediaListView>, id: i32, row: ListItemView) -> bool {
    row.user_id == id && !is_listed(lists, row.anime_id)
}

/// The deletion of every stale row among the stored rows, in their order.
pub open spec fn stale_rows(lists: Seq<MediaListView>, id: i32, stored: Seq<ListItemView>) -> Seq<
    ActionView,
>
    decreases stored.len(),
{
    if stored.len() == 0 {
        Seq::empty()
    } else if is_stale(lists, id, stored.last()) {
        stale_rows(lists, id, stored.drop_last()).push(
            ActionView::Delete { user_id: id, anime_id: stored.last().anime_id },
        )
    } else {
        stale_rows(lists, id, stored.drop_last())
    }
}

/// The whole reconciliation of one user: stale rows are deleted first, then
/// the entries that count are written.
pub open spec fn reconciliation(id: i32, lists: Seq<MediaListView>, stored: Seq<ListItemView>) -> Seq<
    ActionView,
> {
    stale_rows(lists, id, stored) + list_actions(id, lists)
}

/// The deletions that are planned are those of the stored rows of the user
/// whose media stands in no sub-list that counts, and no others.
pub proof fn lemma_stale_rows(
    lists: Seq<MediaListView>,
    id: i32,
    stored: Seq<ListItemView>,
    action: ActionView,
)
    ensures
        stale_rows(lists, id, stored).contains(action) <==> (action is Delete
            && action->Delete_user_id == id && !is_listed(lists, action->Delete_anime_id)
            && exists|k: int|
            0 <= k < stored.len() && stored[k].user_id == id && #[trigger] stored[k].anime_id
                == action->Delete_anime_id),
    decreases stored.len(),
{
    if stored.len() > 0 {
        let front = stored.drop_last();
        let last = stored.last();
        let plan = stale_rows(lists, id, stored);
        let before = stale_rows(lists, id, front);
        lemma_stale_rows(lists, id, front, action);
        if plan.contains(action) {
            let at = choose|at: int| 0 <= at < plan.len() && plan[at] == action;
            if at < before.len() {
                assert(before[at] == action);
                let k = choose|k: int|
                    0 <= k < front.len() && front[k].user_id == id && #[trigger] front[k].anime_id
                        == action->Delete_anime_id;
                assert(stored[k].anime_id == action->Delete_anime_id);
            } else {
                assert(stored[stored.len() - 1].anime_id == action->Delete_anime_id);
            }
        }
        if action is Delete && action->Delete_user_id == id && !is_listed(
            lists,
            action->Delete_anime_id,
        ) && exists|k: int|
            0 <= k < stored.len() && stored[k].user_id == id && #[trigger] stored[k].anime_id
                == action->Delete_anime_id {
            let k = choose|k: int|
                0 <= k < stored.len() && stored[k].user_id == id && #[trigger] stored[k].anime_id
                    == action->Delete_anime_id;
            if k < stored.len() - 1 {
                assert(front[k].anime_id == action->Delete_anime_id);
                assert(before.contains(action));
                let at = choose|at: int| 0 <= at < before.len() && before[at] == action;
                assert(plan[at] == action);
            } else {
                assert(plan[plan.len() - 1] == action);
            }
        }
    }
}

/// The steps of the plan touch only the rows of the user: they delete only
/// rows of media that are not listed and write only rows of media that are.
pub open spec fn keeps_to(plan: Seq<ActionView>, id: i32, lists: Seq<MediaListView>) -> bool {
    forall|k: int|
        0 <= k < plan.len() ==> match #[trigger] plan[k] {
            ActionView::Delete { user_id, anime_id } => user_id == id && !is_listed(
                lists,
                anime_id,
            ),
            ActionView::StoreRow { row } => row.user_id == id && is_listed(lists, row.anime_id),
            _ => true,
        }
}

/// What is planned for some entries holds no deletion, and every list row
/// in it is the row of one of the entries.
pub proof fn lemma_entries_actions_members(id: i32, entries: Seq<EntryView>, at: int)
    requires
        0 <= at < entries_actions(id, entries).len(),
    ensures
        !(entries_actions(id, entries)[at] is Delete),
        entries_actions(id, entries)[at] is StoreRow ==> exists|e: int|
            0 <= e < entries.len() && entries_actions(id, entries)[at] == (ActionView::StoreRow {
                row: row_of(id, #[trigger] entries[e]),
            }),
    decreases entries.len(),
{
    let front = entries.drop_last();
    let last = entries.last();
    if at < entries_actions(id, front).len() {
        lemma_entries_actions_members(id, front, at);
        if entries_actions(id, entries)[at] is StoreRow {
            let e = choose|e: int|
                0 <= e < front.len() && entries_actions(id, front)[at] == (ActionView::StoreRow {
                    row: row_of(id, #[trigger] front[e]),
                });
            assert(entries[e] == front[e]);
        }
    } else {
        assert(entries[entries.len() - 1] == last);
    }
}

/// The plan of a reconciliation touches only the rows of the user, deletes
/// only rows of media that are not listed and writes only rows of media
/// that are.
pub proof fn lemma_reconciliation_keeps_to(
    id: i32,
    lists: Seq<MediaListView>,
    stored: Seq<ListItemView>,
)
    ensures
        keeps_to(reconciliation(id, lists, stored), id, lists),
{
    let deletions = stale_rows(lists, id, stored);
    let entries = retained_entries(lists);
    let plan = reconciliation(id, lists, stored);
    assert forall|k: int| 0 <= k < plan.len() implies match #[trigger] plan[k] {
        ActionView::Delete { user_id, anime_id } => user_id == id && !is_listed(lists, anime_id),
        ActionView::StoreRow { row } => row.user_id == id && is_listed(lists, row.anime_id),
        _ => true,
    } by {
        if k < deletions.len() {
            assert(deletions[k] == plan[k]);
            assert(deletions.contains(plan[k]));
            lemma_stale_rows(lists, id, stored, plan[k]);
        } else {
            let at = k - deletions.len();
            assert(entries_actions(id, entries)[at] == plan[k]);
            lemma_entries_actions_members(id, entries, at);
            if plan[k] is StoreRow {
                let e = choose|e: int|
                    0 <= e < entries.len() && plan[k] == (ActionView::StoreRow {
                        row: row_of(id, entries[e]),
                    });
                assert(listed_ids(lists)[e] == entries[e].media.id);
            }
        }
    }
}

/// The list row of a user for one remote entry, with both dates resolved
/// all or nothing.
pub fn list_row(id: i32, entry: &Entry) -> (row: ListItem)
    ensures
        row@ == row_of(id, entry@),
{
    ListItem {
        user_id: id,
        anime_id: entry.media.id,
        user_title: entry.media.title.user_preferred.clone(),
        start_day: construct_date(entry.started_at),
        end_day: construct_date(entry.completed_at),
        score: entry.score_raw,
    }
}

/// The anime record of a media, where the address of its cover has an
/// extension.
pub fn anime_record(media: &Media) -> (res: Option<Anime>)
    ensures
        res is Some <==> has_extension(media@.cover),
        res is Some ==> res->0@ == anime_of(media@),
{
    match try_get_ext(media.cover_image.large.as_str()) {
        None => None,
        Some(ext) => Some(anime_with_ext(media, &ext)),
    }
}

fn anime_with_ext(media: &Media, ext: &String) -> (anime: Anime)
    requires
        has_extension(media@.cover),
        ext@ == extension(media@.cover),
    ensures
        anime@ == anime_of(media@),
{
    Anime {
        anime_id: media.id,
        description: media.description.clone(),
        cover_s3: storage_url(ImageTypes::Anime, media.id, ext.as_str()),
        cover_anilist: media.cover_image.large.clone(),
        average: media.average_score,
        native: media.title.native.clone(),
        romaji: media.title.romaji.clone(),
        english: media.title.english.clone(),
    }
}

/// Plans the first step for a user that the catalog knows: the re-hosting
/// of their avatar and the profile to write. An avatar address without an
/// extension gives no plan.
pub fn update_user_profile(user: anilist::User) -> (res: Option<ProfileSync>)
    ensures
        res is Some <==> has_extension(user@.avatar),
        res is Some ==> res->0@ == profile_of(user@),
{
    match try_get_ext(user.avatar.large.as_str()) {
        None => None,
        Some(ext) => {
            let avatar = upload_with_ext(ImageTypes::User, user.id, user.avatar.large.as_str(), &ext);
            let new_user = models::User {
                user_id: user.id,
                name: user.name,
                avatar_s3: storage_url(ImageTypes::User, user.id, ext.as_str()),
                avatar_anilist: user.avatar.large,
            };
            Some(ProfileSync { avatar, user: new_user })
        },
    }
}

/// Appends to `plan` what is done for one entry of a sub-list that counts.
fn push_entry_actions(plan: &mut Vec<Action>, id: i32, entry: &Entry)
    ensures
        final(plan).deep_view() == old(plan).deep_view() + entry_actions(id, entry@),
{
    let media = &entry.media;
    match try_get_ext(media.cover_image.large.as_str()) {
        None => {
            plan.push(Action::Reject { user_id: id, anime_id: media.id });
        },
        Some(ext) => {
            let anime = anime_with_ext(media, &ext);
            let cover = upload_with_ext(
                ImageTypes::Anime,
                media.id,
                media.cover_image.large.as_str(),
                &ext,
            );
            plan.push(Action::StoreAnime { anime, cover });
            plan.push(Action::StoreRow { row: list_row(id, entry) });
        },
    }
    assert(plan.deep_view() =~= old(plan).deep_view() + entry_actions(id, entry@));
}

/// Plans the deletion of the rows that have gone stale: every stored row of
/// the user whose media stands in no sub-list that counts, found by a
/// binary search among the ids that are listed.
pub fn delete_entries(lists: &Vec<MediaList>, id: i32, stored: &Vec<ListItem>) -> (plan: Vec<
    Action,
>)
    ensures
        plan.deep_view() == stale_rows(lists.deep_view(), id, stored.deep_view()),
{
    let ids = retained_ids(lists);
    let ghost all = lists.deep_view();
    let ghost rows = stored.deep_view();
    let mut plan: Vec<Action> = Vec::new();
    let mut i: usize = 0;
    while i < stored.len()
        invariant
            i <= stored.len(),
            rows == stored.deep_view(),
            ascending(ids@),
            forall|anime_id: i32| ids@.contains(anime_id) <==> is_listed(all, anime_id),
            plan.deep_view() == stale_rows(all, id, rows.take(i as int)),
        decreases stored.len() - i,
    {
        let row = &stored[i];
        let ghost before = plan.deep_view();
        assert(rows.take(i + 1).drop_last() =~= rows.take(i as int));
        assert(rows.take(i + 1).last() == row@);
        if row.user_id == id && !binary_search(&ids, row.anime_id) {
            plan.push(Action::Delete { user_id: id, anime_id: row.anime_id });
            assert(plan.deep_view() =~= before.push(
                ActionView::Delete { user_id: id, anime_id: row.anime_id },
            ));
        } else {
            assert(plan.deep_view() =~= before);
        }
        i += 1;
    }
    assert(rows.take(i as int) =~= rows);
    plan
}

/// Plans the reconciliation of one user from their remote lists and their
/// stored rows: first the deletion of every stale row, then, for every entry
/// of a sub-list that counts, the writing of its anime record and of its
/// list row.
pub fn update_entries(id: i32, lists: &Vec<MediaList>, stored: &Vec<ListItem>) -> (plan: Vec<
    Action,
>)
    ensures
        plan.deep_view() == reconciliation(id, lists.deep_view(), stored.deep_view()),
{
    let mut plan = delete_entries(lists, id, stored);
    let ghost all = lists.deep_view();
    let ghost deletions = plan.deep_view();
    let mut i: usize = 0;
    while i < lists.len()
        invariant
            i <= lists.len(),
            all == lists.deep_view(),
            plan.deep_view() == deletions + list_actions(id, all.take(i as int)),
        decreases lists.len() - i,
    {
        let list = &lists[i];
        let ghost front = plan.deep_view();
        assert(all.take(i + 1).drop_last() =~= all.take(i as int));
        assert(all.take(i + 1).last() == list@);
        if is_retained_name(list.name.as_str()) {
            let ghost entries = list.entries.deep_view();
            let mut j: usize = 0;
            while j < list.entries.len()
                invariant
                    j <= list.entries.len(),
                    entries == list.entries.deep_view(),
                    plan.deep_view() == front + entries_actions(id, entries.take(j as int)),
                decreases list.entries.len() - j,
            {
                assert(entries.take(j + 1).drop_last() =~= entries.take(j as int));
                assert(entries.take(j + 1).last() == list.entries[j as int]@);
                push_entry_actions(&mut plan, id, &list.entries[j]);
                j += 1;
                assert(plan.deep_view() =~= front + entries_actions(id, entries.take(j as int)));
            }
            assert(entries.take(j as int) =~= entries);
            proof {
                lemma_entries_actions_concat(id, retained_entries(all.take(i as int)), entries);
            }
            assert(plan.deep_view() =~= deletions + list_actions(id, all.take(i + 1)));
        } else {
            assert(plan.deep_view() =~= front);
        }
        i += 1;
    }
    assert(all.take(i as int) =~= all);
    plan
}

} // verus!
