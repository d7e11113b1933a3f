//! The rows that are stored, the joined row that is read back, and the
//! answer that is made of the joined rows of one user.

use vstd::prelude::*;
use vstd::std_specs::convert::FromSpecImpl;

use crate::date::Day;

verus! {

/// One row of the join of list entries, users and anime, as it is read back.
#[derive(Clone, Debug, PartialEq, Eq)]
pub struct ListResult {
    pub user_id: i32,
    pub name: String,
    pub avatar_s3: String,
    pub avatar_anilist: String,
    pub anime_id: i32,
    pub description: String,
    pub cover_s3: String,
    pub cover_anilist: String,
    pub average: Option<i16>,
    pub native: Option<String>,
    pub romaji: Option<String>,
    pub english: Option<String>,
    pub user_title: Option<String>,
    pub start_day: Option<Day>,
    pub end_day: Option<Day>,
    pub score: Option<i16>,
}

/// A stored user profile.
#[derive(Clone, Debug, PartialEq, Eq)]
pub struct User {
    pub user_id: i32,
    pub name: String,
    pub avatar_s3: String,
    pub avatar_anilist: String,
}

/// A stored anime record.
#[derive(Clone, Debug, PartialEq, Eq)]
pub struct Anime {
    pub anime_id: i32,
    pub description: String,
    pub cover_s3: String,
    pub cover_anilist: String,
    pub average: Option<i16>,
    pub native: Option<String>,
    pub romaji: Option<String>,
    pub english: Option<String>,
}

/// A stored list entry: one anime on the list of one user.
#[derive(Clone, Debug, PartialEq, Eq)]
pub struct ListItem {
    pub user_id: i32,
    pub anime_id: i32,
    pub user_title: Option<String>,
    pub start_day: Option<Day>,
    pub end_day: Option<Day>,
    pub score: Option<i16>,
}

/// A joined row, split into the three records it was joined from.
#[derive(Clone, Debug, PartialEq, Eq)]
pub struct ListItemMap {
    pub user: User,
    pub anime: Anime,
    pub list_item: ListItem,
}

/// The answer to a request for the list of one user.
#[derive(Clone, Debug, PartialEq, Eq)]
pub struct RestResponse {
    pub users: ResponseList,
}

/// The list of one user, under their name and stored avatar.
#[derive(Clone, Debug, PartialEq, Eq)]
pub struct ResponseList {
    pub id: String,
    pub avatar: String,
    pub list: Vec<ResponseItem>,
}

/// One anime on the list of a user, as it is answered.
#[derive(Clone, Debug, PartialEq, Eq)]
pub struct ResponseItem {
    pub user_title: Option<String>,
    pub start_day: Option<Day>,
    pub end_day: Option<Day>,
    pub score: Option<i16>,
    pub average: Option<i16>,
    pub native: Option<String>,
    pub romaji: Option<String>,
    pub english: Option<String>,
    pub description: String,
    pub cover: String,
    pub id: i32,
}

/// [`ListResult`] as the contracts see it: every text is the sequence of its characters.
pub struct ListResultView {
    pub user_id: i32,
    pub name: Seq<char>,
    pub avatar_s3: Seq<char>,
    pub avatar_anilist: Seq<char>,
    pub anime_id: i32,
    pub description: Seq<char>,
    pub cover_s3: Seq<char>,
    pub cover_anilist: Seq<char>,
    pub average: Option<i16>,
    pub native: Option<Seq<char>>,
    pub romaji: Option<Seq<char>>,
    pub english: Option<Seq<char>>,
    pub user_title: Option<Seq<char>>,
    pub start_day: Option<Day>,
    pub end_day: Option<Day>,
    pub score: Option<i16>,
}

/// [`User`] as the contracts see it: every text is the sequence of its characters.
pub struct UserView {
    pub user_id: i32,
    pub name: Seq<char>,
    pub avatar_s3: Seq<char>,
    pub avatar_anilist: Seq<char>,
}

/// [`Anime`] as the contracts see it: every text is the sequence of its characters.
pub struct AnimeView {
    pub anime_id: i32,
    pub description: Seq<char>,
    pub cover_s3: Seq<char>,
    pub cover_anilist: Seq<char>,
    pub average: Option<i16>,
    pub native: Option<Seq<char>>,
    pub romaji: Option<Seq<char>>,
    pub english: Option<Seq<char>>,
}

/// [`ListItem`] as the contracts see it: every text is the sequence of its characters.
pub struct ListItemView {
    pub user_id: i32,
    pub anime_id: i32,
    pub user_title: Option<Seq<char>>,
    pub start_day: Option<Day>,
    pub end_day: Option<Day>,
    pub score: Option<i16>,
}

/// [`ListItemMap`] as the contracts see it: every text is the sequence of its characters.
pub struct ListItemMapView {
    pub user: UserView,
    pub anime: AnimeView,
    pub list_item: ListItemView,
}

/// [`ResponseItem`] as the contracts see it: every text is the sequence of its characters.
pub struct ResponseItemView {
    pub user_title: Option<Seq<char>>,
    pub start_day: Option<Day>,
    pub end_day: Option<Day>,
    pub score: Option<i16>,
    pub average: Option<i16>,
    pub native: Option<Seq<char>>,
    pub romaji: Option<Seq<char>>,
    pub english: Option<Seq<char>>,
    pub description: Seq<char>,
    pub cover: Seq<char>,
    pub id: i32,
}

/// [`ResponseList`] as the contracts see it: every text is the sequence of its characters.
pub struct ResponseListView {
    pub id: Seq<char>,
    pub avatar: Seq<char>,
    pub list: Seq<ResponseItemView>,
}

/// [`RestResponse`] as the contracts see it: every text is the sequence of its characters.
pub struct RestResponseView {
    pub users: ResponseListView,
}

impl View for ListResult {
    type V = ListResultView;

    open spec fn view(&self) -> ListResultView {
        ListResultView {
            user_id: self.user_id,
            name: self.name@,
            avatar_s3: self.avatar_s3@,
            avatar_anilist: self.avatar_anilist@,
            anime_id: self.anime_id,
            description: self.description@,
            cover_s3: self.cover_s3@,
            cover_anilist: self.cover_anilist@,
            average: self.average,
            native: self.native.deep_view(),
            romaji: self.romaji.deep_view(),
            english: self.english.deep_view(),
            user_title: self.user_title.deep_view(),
            start_day: self.start_day,
            end_day: self.end_day,
            score: self.score,
        }
    }
}

impl DeepView for ListResult {
    type V = ListResultView;

    open spec fn deep_view(&self) -> ListResultView {
        self.view()
    }
}

impl View for User {
    type V = UserView;

    open spec fn view(&self) -> UserView {
        UserView {
            user_id: self.user_id,
            name: self.name@,
            avatar_s3: self.avatar_s3@,
            avatar_anilist: self.avatar_anilist@,
        }
    }
}

impl View for Anime {
    type V = AnimeView;

    open spec fn view(&self) -> AnimeView {
        AnimeView {
            anime_id: self.anime_id,
            description: self.description@,
            cover_s3: self.cover_s3@,
            cover_anilist: self.cover_anilist@,
            average: self.average,
            native: self.native.deep_view(),
            romaji: self.romaji.deep_view(),
            english: self.english.deep_view(),
        }
    }
}

impl View for ListItem {
    type V = ListItemView;

    open spec fn view(&self) -> ListItemView {
        ListItemView {
            user_id: self.user_id,
            anime_id: self.anime_id,
            user_title: self.user_title.deep_view(),
            start_day: self.start_day,
            end_day: self.end_day,
            score: self.score,
        }
    }
}

impl DeepView for ListItem {
    type V = ListItemView;

    open spec fn deep_view(&self) -> ListItemView {
        self.view()
    }
}

impl View for ListItemMap {
    type V = ListItemMapView;

    open spec fn view(&self) -> ListItemMapView {
        ListItemMapView { user: self.user@, anime: self.anime@, list_item: self.list_item@ }
    }
}

impl View for ResponseItem {
    type V = ResponseItemView;

    open spec fn view(&self) -> ResponseItemView {
        ResponseItemView {
            user_title: self.user_title.deep_view(),
            start_day: self.start_day,
            end_day: self.end_day,
            score: self.score,
            average: self.average,
            native: self.native.deep_view(),
            romaji: self.romaji.deep_view(),
            english: self.english.deep_view(),
            description: self.description@,
            cover: self.cover@,
            id: self.id,
        }
    }
}

impl DeepView for ResponseItem {
    type V = ResponseItemView;

    open spec fn deep_view(&self) -> ResponseItemView {
        self.view()
    }
}

impl View for ResponseList {
    type V = ResponseListView;

    open spec fn view(&self) -> ResponseListView {
        ResponseListView { id: self.id@, avatar: self.avatar@, list: self.list.deep_view() }
    }
}

impl View for RestResponse {
    type V = RestResponseView;

    open spec fn view(&self) -> RestResponseView {
        RestResponseView { users: self.users@ }
    }
}

impl DeepView for RestResponse {
    type V = RestResponseView;

    open spec fn deep_view(&self) -> RestResponseView {
        self.view()
    }
}

/// The three records a joined row was joined from.
pub open spec fn split_row(row: ListResultView) -> ListItemMapView {
    ListItemMapView {
        user: UserView {
            user_id: row.user_id,
            name: row.name,
            avatar_s3: row.avatar_s3,
            avatar_anilist: row.avatar_anilist,
        },
        anime: AnimeView {
            anime_id: row.anime_id,
            description: row.description,
            cover_s3: row.cover_s3,
            cover_anilist: row.cover_anilist,
            average: row.average,
            native: row.native,
            romaji: row.romaji,
            english: row.english,
        },
        list_item: ListItemView {
            user_id: row.user_id,
            anime_id: row.anime_id,
            user_title: row.user_title,
            start_day: row.start_day,
            end_day: row.end_day,
            score: row.score,
        },
    }
}

/// What is answered for one joined row: the entry of the user beside the
/// record of the anime, under the stored address of its cover.
pub open spec fn answer_item(row: ListItemMapView) -> ResponseItemView {
    ResponseItemView {
        user_title: row.list_item.user_title,
        start_day: row.list_item.start_day,
        end_day: row.list_item.end_day,
        score: row.list_item.score,
        average: row.anime.average,
        native: row.anime.native,
        romaji: row.anime.romaji,
        english: row.anime.english,
        description: row.anime.description,
        cover: row.anime.cover_s3,
        id: row.anime.anime_id,
    }
}

/// What is answered for the joined rows of one user: nothing where there is
/// no row, else every row in order under the name and stored avatar that the
/// first row gives.
pub open spec fn answer(rows: Seq<ListResultView>) -> Option<RestResponseView> {
    if rows.len() == 0 {
        None
    } else {
        Some(
            RestResponseView {
                users: ResponseListView {
                    id: rows[0].name,
                    avatar: rows[0].avatar_s3,
                    list: rows.map_values(|row: ListResultView| answer_item(split_row(row))),
                },
            },
        )
    }
}

impl From<&ListResult> for ListItemMap {
    fn from(list: &ListResult) -> (res: ListItemMap)
        ensures
            res@ == split_row(list@),
    {
        let user = User {
            user_id: list.user_id,
            name: list.name.clone(),
            avatar_s3: list.avatar_s3.clone(),
            avatar_anilist: list.avatar_anilist.clone(),
        };

        let anime = Anime {
            anime_id: list.anime_id,
            description: list.description.clone(),
            cover_s3: list.cover_s3.clone(),
            cover_anilist: list.cover_anilist.clone(),
            average: list.average,
            native: list.native.clone(),
            romaji: list.romaji.clone(),
            english: list.english.clone(),
        };

        let list_item = ListItem {
            user_id: list.user_id,
            anime_id: list.anime_id,
            user_title: list.user_title.clone(),
            start_day: list.start_day,
            end_day: list.end_day,
            score: list.score,
        };

        ListItemMap { user, anime, list_item }
    }
}

impl FromSpecImpl<&ListResult> for ListItemMap {
    open spec fn obeys_from_spec() -> bool {
        true
    }

    open spec fn from_spec(list: &ListResult) -> ListItemMap {
        ListItemMap {
            user: User {
                user_id: list.user_id,
                name: list.name,
                avatar_s3: list.avatar_s3,
                avatar_anilist: list.avatar_anilist,
            },
            anime: Anime {
                anime_id: list.anime_id,
                description: list.description,
                cover_s3: list.cover_s3,
                cover_anilist: list.cover_anilist,
                average: list.average,
                native: list.native,
                romaji: list.romaji,
                english: list.english,
            },
            list_item: ListItem {
                user_id: list.user_id,
                anime_id: list.anime_id,
                user_title: list.user_title,
                start_day: list.start_day,
                end_day: list.end_day,
                score: list.score,
            },
        }
    }
}

impl From<&ListItemMap> for ResponseItem {
    fn from(list_item: &ListItemMap) -> (res: ResponseItem)
        ensures
            res@ == answer_item(list_item@),
    {
        ResponseItem {
            user_title: list_item.list_item.user_title.clone(),
            start_day: list_item.list_item.start_day,
            end_day: list_item.list_item.end_day,
            score: list_item.list_item.score,
            average: list_item.anime.average,
            native: list_item.anime.native.clone(),
            romaji: list_item.anime.romaji.clone(),
            english: list_item.anime.english.clone(),
            description: list_item.anime.description.clone(),
            cover: list_item.anime.cover_s3.clone(),
            id: list_item.anime.anime_id,
        }
    }
}

impl FromSpecImpl<&ListItemMap> for ResponseItem {
    open spec fn obeys_from_spec() -> bool {
        true
    }

    open spec fn from_spec(list_item: &ListItemMap) -> ResponseItem {
        ResponseItem {
            user_title: list_item.list_item.user_title,
            start_day: list_item.list_item.start_day,
            end_day: list_item.list_item.end_day,
            score: list_item.list_item.score,
            average: list_item.anime.average,
            native: list_item.anime.native,
            romaji: list_item.anime.romaji,
            english: list_item.anime.english,
            description: list_item.anime.description,
            cover: list_item.anime.cover_s3,
            id: list_item.anime.anime_id,
        }
    }
}

/// Makes the answer to a request for the list of one user out of the joined
/// rows that were read for them.
pub fn get_list(rows: &Vec<ListResult>) -> (res: Option<RestResponse>)
    ensures
        res.deep_view() == answer(rows.deep_view()),
{
    if rows.len() == 0 {
        return None;
    }
    let mut list: Vec<ResponseItem> = Vec::new();
    let mut i: usize = 0;
    while i < rows.len()
        invariant
            i <= rows.len(),
            list.len() == i,
            forall|k: int| 0 <= k < i ==> list[k]@ == answer_item(split_row(rows[k]@)),
        decreases rows.len() - i,
    {
        let joined = ListItemMap::from(&rows[i]);
        list.push(ResponseItem::from(&joined));
        i += 1;
    }
    let response = RestResponse {
        users: ResponseList {
            id: rows[0].name.clone(),
            avatar: rows[0].avatar_s3.clone(),
            list,
        },
    };
    assert(response@.users.list =~= rows.deep_view().map_values(
        |row: ListResultView| answer_item(split_row(row)),
    ));
    Some(response)
}

} // verus!
