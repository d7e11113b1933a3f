use anihistory::anilist::{Avatar, CoverImage, Date, Entry, Media, MediaList, Title, User};
use anihistory::date::Day;
use anihistory::machine::{step, user, Body, Command, Event, Reply, State};
use anihistory::models::{get_list, ListItem, ListItemMap, ListResult, ResponseItem};
use anihistory::reconcile::{update_user_profile, Action};

fn text(status: u16, words: &str) -> Reply {
    Reply { status, body: Body::Text { text: words.to_string() } }
}

fn remote_user(id: i32, avatar: &str) -> User {
    User { id, name: "someone".to_string(), avatar: Avatar { large: avatar.to_string() } }
}

fn entry(id: i32) -> Entry {
    Entry {
        score_raw: None,
        started_at: Date { year: None, month: None, day: None },
        completed_at: Date { year: None, month: None, day: None },
        media: Media {
            id,
            title: Title { user_preferred: None, english: None, romaji: None, native: None },
            description: String::new(),
            cover_image: CoverImage { large: format!("https://img.example/{}.jpg", id) },
            average_score: None,
        },
    }
}

fn joined(user_id: i32, name: &str, anime_id: i32) -> ListResult {
    ListResult {
        user_id,
        name: name.to_string(),
        avatar_s3: format!("https://store.example/user_{}.png", user_id),
        avatar_anilist: format!("https://img.example/{}.png", user_id),
        anime_id,
        description: format!("about {}", anime_id),
        cover_s3: format!("https://store.example/anime_{}.jpg", anime_id),
        cover_anilist: format!("https://img.example/{}.jpg", anime_id),
        average: Some(71),
        native: Some("native".to_string()),
        romaji: None,
        english: Some("english".to_string()),
        user_title: Some("mine".to_string()),
        start_day: Some(Day { year: 2020, month: 1, day: 2 }),
        end_day: None,
        score: Some(88),
    }
}

#[test]
fn unknown_user_is_not_found() {
    let (state, command) =
        step(State::Idle, Event::Trigger { username: "nobody".to_string() });
    assert_eq!(state, State::Resolving);
    match command {
        Command::ResolveIdentity { query } => assert!(query.contains("User(name: \"nobody\")")),
        other => panic!("unexpected command {:?}", other),
    }
    let (state, command) = step(state, Event::Identity { user: None });
    assert_eq!(state, State::Done);
    assert_eq!(command, Command::Answer { reply: text(404, "User not found") });
    let (state, command) = step(state, Event::Converged);
    assert_eq!(state, State::Done);
    assert_eq!(command, Command::Ignore);
}

#[test]
fn catalog_failure_is_an_error() {
    let (state, command) =
        step(State::Resolving, Event::Failure { error: "connection reset".to_string() });
    assert_eq!(state, State::Failed);
    assert_eq!(command, Command::Answer { reply: text(500, "User not found") });
}

#[test]
fn known_user_is_accepted_after_the_profile() {
    let found = remote_user(9, "https://img.example/avatars/9.png");
    let (state, command) = step(State::Resolving, Event::Identity { user: Some(found) });
    assert_eq!(state, State::ProfileSync { user_id: 9 });
    match command {
        Command::SyncProfile { sync } => {
            assert_eq!(sync.user.user_id, 9);
            assert_eq!(sync.user.name, "someone");
            assert_eq!(
                sync.user.avatar_s3,
                "https://s3.amazonaws.com/anihistory-images/assets/images/user_9.png"
            );
            assert_eq!(sync.user.avatar_anilist, "https://img.example/avatars/9.png");
            assert_eq!(sync.avatar.source_url, "https://img.example/avatars/9.png");
            assert_eq!(sync.avatar.key, "assets/images/user_9.png");
            assert_eq!(sync.avatar.content_type, "image/png");
        }
        other => panic!("unexpected command {:?}", other),
    }
    let (state, command) = step(state, Event::ProfileStored);
    assert_eq!(state, State::ListFetch { user_id: 9 });
    match command {
        Command::Accept { reply, query } => {
            assert_eq!(reply, text(202, "Added to the queue"));
            assert!(query.contains("MediaListCollection(userId: 9, type: ANIME)"));
        }
        other => panic!("unexpected command {:?}", other),
    }
}

#[test]
fn profile_failure_is_answered_with_its_error() {
    let (state, command) = step(
        State::ProfileSync { user_id: 9 },
        Event::Failure { error: "error saving user".to_string() },
    );
    assert_eq!(state, State::Failed);
    assert_eq!(command, Command::Answer { reply: text(500, "error saving user") });
}

#[test]
fn avatar_without_extension_fails_the_request() {
    let (state, command) = step(
        State::Resolving,
        Event::Identity { user: Some(remote_user(9, "https://img.example/avatar")) },
    );
    assert_eq!(state, State::Failed);
    assert_eq!(
        command,
        Command::Answer { reply: text(500, "the address of the avatar has no extension") }
    );
    assert_eq!(update_user_profile(remote_user(9, "https://img.example/avatar")), None);
}

#[test]
fn lists_then_rows_then_plan() {
    let lists = vec![
        MediaList { name: "Watching".to_string(), entries: vec![entry(5)] },
        MediaList { name: "Dropped".to_string(), entries: vec![entry(8)] },
    ];
    let (state, command) =
        step(State::ListFetch { user_id: 9 }, Event::Lists { lists: lists.clone() });
    assert_eq!(state, State::Diffing { user_id: 9, lists });
    assert_eq!(command, Command::ReadRows { user_id: 9 });

    let stored = vec![ListItem {
        user_id: 9,
        anime_id: 8,
        user_title: None,
        start_day: None,
        end_day: None,
        score: None,
    }];
    let (state, command) = step(state, Event::Rows { rows: stored });
    assert_eq!(state, State::Converging { user_id: 9 });
    match command {
        Command::Converge { plan } => {
            assert_eq!(plan.len(), 3);
            assert_eq!(plan[0], Action::Delete { user_id: 9, anime_id: 8 });
            assert!(matches!(plan[1], Action::StoreAnime { .. }));
            assert!(matches!(plan[2], Action::StoreRow { .. }));
        }
        other => panic!("unexpected command {:?}", other),
    }
    let (state, command) = step(state, Event::Converged);
    assert_eq!(state, State::Done);
    assert_eq!(command, Command::Finish);
}

#[test]
fn failures_behind_the_answer_are_logged() {
    let (state, command) =
        step(State::ListFetch { user_id: 9 }, Event::Failure { error: "timeout".to_string() });
    assert_eq!(state, State::Failed);
    assert_eq!(command, Command::Log { error: "timeout".to_string() });

    let (state, command) = step(
        State::Diffing { user_id: 9, lists: Vec::new() },
        Event::Failure { error: "pool closed".to_string() },
    );
    assert_eq!(state, State::Failed);
    assert_eq!(command, Command::Log { error: "pool closed".to_string() });

    let (state, command) =
        step(State::Converging { user_id: 9 }, Event::Failure { error: "gone".to_string() });
    assert_eq!(state, State::Failed);
    assert_eq!(command, Command::Log { error: "gone".to_string() });
}

#[test]
fn events_out_of_turn_change_nothing() {
    let (state, command) = step(State::Idle, Event::Converged);
    assert_eq!(state, State::Idle);
    assert_eq!(command, Command::Ignore);
    let (state, command) = step(State::Resolving, Event::ProfileStored);
    assert_eq!(state, State::Resolving);
    assert_eq!(command, Command::Ignore);
    let (state, command) =
        step(State::ProfileSync { user_id: 4 }, Event::Rows { rows: Vec::new() });
    assert_eq!(state, State::ProfileSync { user_id: 4 });
    assert_eq!(command, Command::Ignore);
    let (state, command) =
        step(State::Failed, Event::Trigger { username: "someone".to_string() });
    assert_eq!(state, State::Failed);
    assert_eq!(command, Command::Ignore);
}

#[test]
fn list_of_a_user_is_answered() {
    let rows = vec![joined(9, "someone", 5), joined(9, "someone", 6)];
    let reply = user(Ok(rows.clone()));
    assert_eq!(reply.status, 200);
    match reply.body {
        Body::List { list } => {
            assert_eq!(list.users.id, "someone");
            assert_eq!(list.users.avatar, "https://store.example/user_9.png");
            assert_eq!(list.users.list.len(), 2);
            assert_eq!(list.users.list[0].id, 5);
            assert_eq!(list.users.list[1].id, 6);
            assert_eq!(list.users.list[0].cover, "https://store.example/anime_5.jpg");
            assert_eq!(list.users.list[0].description, "about 5");
            assert_eq!(list.users.list[0].user_title, Some("mine".to_string()));
            assert_eq!(list.users.list[0].start_day, Some(Day { year: 2020, month: 1, day: 2 }));
            assert_eq!(list.users.list[0].end_day, None);
            assert_eq!(list.users.list[0].score, Some(88));
            assert_eq!(list.users.list[0].average, Some(71));
            assert_eq!(list.users.list[0].native, Some("native".to_string()));
            assert_eq!(list.users.list[0].romaji, None);
            assert_eq!(list.users.list[0].english, Some("english".to_string()));
        }
        other => panic!("unexpected body {:?}", other),
    }
    assert_eq!(get_list(&rows).unwrap().users.list.len(), 2);
}

#[test]
fn no_rows_is_not_found() {
    assert_eq!(user(Ok(Vec::new())), text(404, "User or list not found"));
    assert_eq!(get_list(&Vec::new()), None);
}

#[test]
fn store_failure_is_an_internal_error() {
    assert_eq!(user(Err("pool timed out".to_string())), text(500, "Internal server error"));
}

#[test]
fn joined_row_splits_into_three_records() {
    let row = joined(9, "someone", 5);
    let split = ListItemMap::from(&row);
    assert_eq!(split.user.user_id, 9);
    assert_eq!(split.user.name, "someone");
    assert_eq!(split.user.avatar_s3, "https://store.example/user_9.png");
    assert_eq!(split.user.avatar_anilist, "https://img.example/9.png");
    assert_eq!(split.anime.anime_id, 5);
    assert_eq!(split.anime.cover_anilist, "https://img.example/5.jpg");
    assert_eq!(split.list_item.user_id, 9);
    assert_eq!(split.list_item.anime_id, 5);
    assert_eq!(split.list_item.score, Some(88));
    let item = ResponseItem::from(&split);
    assert_eq!(item.id, 5);
    assert_eq!(item.cover, "https://store.example/anime_5.jpg");
    assert_eq!(item.average, Some(71));
}
