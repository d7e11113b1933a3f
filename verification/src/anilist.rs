//! The remote catalog: the shape of what it returns and the text of the two
//! queries that are sent to it.

use vstd::prelude::*;
use vstd::string::*;

use crate::text::{decimal, push_decimal};

verus! {

/// A date of which any part may be missing.
#[derive(Clone, Copy, Debug, PartialEq, Eq, Structural)]
pub struct Date {
    pub year: Option<i32>,
    pub month: Option<i32>,
    pub day: Option<i32>,
}

/// A remote image reference.
#[derive(Clone, Debug, PartialEq, Eq)]
pub struct Avatar {
    pub large: String,
}

/// A remote image reference.
#[derive(Clone, Debug, PartialEq, Eq)]
pub struct CoverImage {
    pub large: String,
}

/// The titles under which the catalog knows a media.
#[derive(Clone, Debug, PartialEq, Eq)]
pub struct Title {
    pub user_preferred: Option<String>,
    pub english: Option<String>,
    pub romaji: Option<String>,
    pub native: Option<String>,
}

/// A media as the catalog describes it.
#[derive(Clone, Debug, PartialEq, Eq)]
pub struct Media {
    pub id: i32,
    pub title: Title,
    pub description: String,
    pub cover_image: CoverImage,
    pub average_score: Option<i16>,
}

/// One entry of a user's sub-list.
#[derive(Clone, Debug, PartialEq, Eq)]
pub struct Entry {
    pub score_raw: Option<i16>,
    pub started_at: Date,
    pub completed_at: Date,
    pub media: Media,
}

/// A named sub-list of a user's collection.
#[derive(Clone, Debug, PartialEq, Eq)]
pub struct MediaList {
    pub name: String,
    pub entries: Vec<Entry>,
}

/// A user as the catalog describes them.
#[derive(Clone, Debug, PartialEq, Eq)]
pub struct User {
    pub id: i32,
    pub name: String,
    pub avatar: Avatar,
}

/// [`Title`] as the contracts see it: every text is the sequence of its characters.
pub struct TitleView {
    pub user_preferred: Option<Seq<char>>,
    pub english: Option<Seq<char>>,
    pub romaji: Option<Seq<char>>,
    pub native: Option<Seq<char>>,
}

/// [`Media`] as the contracts see it: every text is the sequence of its characters.
pub struct MediaView {
    pub id: i32,
    pub title: TitleView,
    pub description: Seq<char>,
    pub cover: Seq<char>,
    pub average_score: Option<i16>,
}

/// [`Entry`] as the contracts see it: every text is the sequence of its characters.
pub struct EntryView {
    pub score_raw: Option<i16>,
    pub started_at: Date,
    pub completed_at: Date,
    pub media: MediaView,
}

/// [`MediaList`] as the contracts see it: every text is the sequence of its characters.
pub struct MediaListView {
    pub name: Seq<char>,
    pub entries: Seq<EntryView>,
}

/// [`User`] as the contracts see it: every text is the sequence of its characters.
pub struct UserView {
    pub id: i32,
    pub name: Seq<char>,
    pub avatar: Seq<char>,
}

impl View for Title {
    type V = TitleView;

    open spec fn view(&self) -> TitleView {
        TitleView {
            user_preferred: self.user_preferred.deep_view(),
            english: self.english.deep_view(),
            romaji: self.romaji.deep_view(),
            native: self.native.deep_view(),
        }
    }
}

impl View for Media {
    type V = MediaView;

    open spec fn view(&self) -> MediaView {
        MediaView {
            id: self.id,
            title: self.title@,
            description: self.description@,
            cover: self.cover_image.large@,
            average_score: self.average_score,
        }
    }
}

impl View for Entry {
    type V = EntryView;

    open spec fn view(&self) -> EntryView {
        EntryView {
            score_raw: self.score_raw,
            started_at: self.started_at,
            completed_at: self.completed_at,
            media: self.media@,
        }
    }
}

impl DeepView for Entry {
    type V = EntryView;

    open spec fn deep_view(&self) -> EntryView {
        self.view()
    }
}

impl View for MediaList {
    type V = MediaListView;

    open spec fn view(&self) -> MediaListView {
        MediaListView { name: self.name@, entries: self.entries.deep_view() }
    }
}

impl DeepView for MediaList {
    type V = MediaListView;

    open spec fn deep_view(&self) -> MediaListView {
        self.view()
    }
}

impl View for User {
    type V = UserView;

    open spec fn view(&self) -> UserView {
        UserView { id: self.id, name: self.name@, avatar: self.avatar.large@ }
    }
}

/// The identity query up to the place of the user name.
pub const USER_QUERY_HEAD: &'static str = "query {\n  \tUser(name: \"";

/// The identity query behind the user name.
pub const USER_QUERY_TAIL: &'static str =
    "\") {\n\t  id\n      name\n      avatar {\n        large\n      }\n\t}\n  }";

/// The list query up to the place of the user id.
pub const LIST_QUERY_HEAD: &'static str = "query {\n    MediaListCollection(userId: ";

/// The list query behind the user id.
pub const LIST_QUERY_TAIL: &'static str =
    ", type: ANIME) {\n      lists {\n        name\n        entries {\n          ...mediaListEntry\n        }\n      }\n    }\n  }\n\n  fragment mediaListEntry on MediaList {\n    scoreRaw: score(format: POINT_100)\n    startedAt {\n      year\n      month\n      day\n    }\n    completedAt {\n      year\n      month\n      day\n    }\n    media {\n\t  id\n      title {\n        userPreferred\n        english\n        romaji\n        native\n      }\n      description(asHtml: true)\n      coverImage {\n        large\n      }\n      averageScore\n      siteUrl\n      }\n    }";

/// The text of the identity query for a user name.
pub open spec fn user_query_of(username: Seq<char>) -> Seq<char> {
    USER_QUERY_HEAD@ + username + USER_QUERY_TAIL@
}

/// The text of the list query for a user id.
pub open spec fn list_query_of(id: int) -> Seq<char> {
    LIST_QUERY_HEAD@ + decimal(id) + LIST_QUERY_TAIL@
}

/// The query that resolves a user name to an identity: the name is set
/// between the two fixed parts as it is given.
pub fn user_query(username: &str) -> (query: String)
    ensures
        query@ == user_query_of(username@),
{
    let mut query = String::from_str(USER_QUERY_HEAD);
    query.append(username);
    query.append(USER_QUERY_TAIL);
    query
}

/// The query that fetches the whole list collection of an identity: the
/// decimal numeral of the id is set between the two fixed parts.
pub fn list_query(id: i32) -> (query: String)
    ensures
        query@ == list_query_of(id as int),
{
    let mut query = String::from_str(LIST_QUERY_HEAD);
    push_decimal(&mut query, id);
    query.append(LIST_QUERY_TAIL);
    query
}

} // verus!
