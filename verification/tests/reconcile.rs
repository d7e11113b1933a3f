use anihistory::anilist::{CoverImage, Date, Entry, Media, MediaList, Title};
use anihistory::date::Day;
use anihistory::models::ListItem;
use anihistory::reconcile::{
    anime_record, binary_search, delete_entries, is_retained_name, list_row,
    matches_retained_name, retained_ids, update_entries, Action,
};

fn no_date() -> Date {
    Date { year: None, month: None, day: None }
}

fn entry(id: i32, cover: &str) -> Entry {
    Entry {
        score_raw: Some(80),
        started_at: Date { year: Some(2020), month: Some(1), day: Some(1) },
        completed_at: no_date(),
        media: Media {
            id,
            title: Title {
                user_preferred: Some(format!("title {}", id)),
                english: Some(format!("english {}", id)),
                romaji: None,
                native: Some(format!("native {}", id)),
            },
            description: format!("about {}", id),
            cover_image: CoverImage { large: cover.to_string() },
            average_score: Some(75),
        },
    }
}

fn plain(id: i32) -> Entry {
    entry(id, &format!("https://img.example/cover_image/large/{}.jpg", id))
}

fn list(name: &str, entries: Vec<Entry>) -> MediaList {
    MediaList { name: name.to_string(), entries }
}

fn row(user_id: i32, anime_id: i32) -> ListItem {
    ListItem { user_id, anime_id, user_title: None, start_day: None, end_day: None, score: None }
}

fn deleted(plan: &Vec<Action>) -> Vec<i32> {
    let mut ids = Vec::new();
    for action in plan {
        if let Action::Delete { anime_id, .. } = action {
            ids.push(*anime_id);
        }
    }
    ids
}

fn written(plan: &Vec<Action>) -> Vec<i32> {
    let mut ids = Vec::new();
    for action in plan {
        if let Action::StoreRow { row } = action {
            ids.push(row.anime_id);
        }
    }
    ids
}

#[test]
fn names_that_count() {
    assert!(is_retained_name("Completed"));
    assert!(is_retained_name("Watching"));
    assert!(is_retained_name("WATCHING"));
    assert!(is_retained_name("Completed TV"));
    assert!(is_retained_name("Rewatching"));
    assert!(is_retained_name("my completed movies"));
}

#[test]
fn names_that_do_not_count() {
    assert!(!is_retained_name("Planning"));
    assert!(!is_retained_name("Dropped"));
    assert!(!is_retained_name("Paused"));
    assert!(!is_retained_name(""));
    assert!(!is_retained_name("Complete"));
    assert!(!is_retained_name("Watch"));
}

#[test]
fn lowered_names_are_matched_as_they_are() {
    assert!(matches_retained_name("completed"));
    assert!(matches_retained_name("watching"));
    assert!(!matches_retained_name("Watching"));
    assert!(!matches_retained_name("COMPLETED"));
    assert!(!matches_retained_name("planning"));
}

#[test]
fn retained_ids_come_in_ascending_order() {
    let lists = vec![
        list("Watching", vec![plain(12), plain(5)]),
        list("Planning", vec![plain(1), plain(99)]),
        list("Completed", vec![plain(7), plain(3), plain(12)]),
    ];
    assert_eq!(retained_ids(&lists), vec![3, 5, 7, 12, 12]);
    assert_eq!(retained_ids(&Vec::new()), Vec::<i32>::new());
    assert_eq!(retained_ids(&vec![list("Dropped", vec![plain(4)])]), Vec::<i32>::new());
}

#[test]
fn binary_search_finds_what_is_there() {
    let ids = vec![-4, 5, 9, 12, 12, 30];
    for id in [-4, 5, 9, 12, 30] {
        assert!(binary_search(&ids, id));
    }
    for id in [-5, 0, 6, 10, 13, 31, i32::MAX, i32::MIN] {
        assert!(!binary_search(&ids, id));
    }
    assert!(!binary_search(&Vec::new(), 1));
    assert!(binary_search(&vec![1], 1));
    assert!(!binary_search(&vec![1], 2));
}

#[test]
fn binary_search_diff() {
    let lists = vec![list("Completed", vec![plain(12), plain(5)])];
    let stored = vec![row(1, 5), row(1, 9), row(1, 12)];
    let plan = update_entries(1, &lists, &stored);
    assert_eq!(deleted(&plan), vec![9]);
    assert_eq!(written(&plan), vec![12, 5]);
    assert_eq!(delete_entries(&lists, 1, &stored), vec![Action::Delete { user_id: 1, anime_id: 9 }]);
}

#[test]
fn rows_of_other_lists_are_not_kept() {
    let lists = vec![
        list("Dropped", vec![plain(9)]),
        list("Planning", vec![plain(10)]),
        list("Watching", vec![plain(5)]),
    ];
    let stored = vec![row(1, 9), row(1, 10), row(1, 5)];
    let plan = update_entries(1, &lists, &stored);
    assert_eq!(deleted(&plan), vec![9, 10]);
    assert_eq!(written(&plan), vec![5]);
}

#[test]
fn rows_of_other_users_are_left_alone() {
    let lists = vec![list("Watching", vec![plain(5)])];
    let stored = vec![row(2, 9), row(1, 9), row(3, 5)];
    assert_eq!(delete_entries(&lists, 1, &stored), vec![Action::Delete { user_id: 1, anime_id: 9 }]);
}

#[test]
fn nothing_remote_deletes_every_row() {
    let stored = vec![row(1, 5), row(1, 9)];
    let plan = update_entries(1, &Vec::new(), &stored);
    assert_eq!(
        plan,
        vec![
            Action::Delete { user_id: 1, anime_id: 5 },
            Action::Delete { user_id: 1, anime_id: 9 },
        ]
    );
}

#[test]
fn deletions_come_before_writes() {
    let lists = vec![list("Watching", vec![plain(5)]), list("Completed", vec![plain(6)])];
    let stored = vec![row(1, 5), row(1, 9)];
    let plan = update_entries(1, &lists, &stored);
    assert_eq!(plan.len(), 5);
    assert!(matches!(plan[0], Action::Delete { user_id: 1, anime_id: 9 }));
    assert!(matches!(plan[1], Action::StoreAnime { .. }));
    assert!(matches!(plan[2], Action::StoreRow { .. }));
    assert!(matches!(plan[3], Action::StoreAnime { .. }));
    assert!(matches!(plan[4], Action::StoreRow { .. }));
}

#[test]
fn records_of_an_entry() {
    let lists = vec![list("Watching", vec![plain(5)])];
    let plan = update_entries(42, &lists, &Vec::new());
    assert_eq!(plan.len(), 2);
    match &plan[0] {
        Action::StoreAnime { anime, cover } => {
            assert_eq!(anime.anime_id, 5);
            assert_eq!(anime.description, "about 5");
            assert_eq!(
                anime.cover_s3,
                "https://s3.amazonaws.com/anihistory-images/assets/images/anime_5.jpg"
            );
            assert_eq!(anime.cover_anilist, "https://img.example/cover_image/large/5.jpg");
            assert_eq!(anime.average, Some(75));
            assert_eq!(anime.native, Some("native 5".to_string()));
            assert_eq!(anime.romaji, None);
            assert_eq!(anime.english, Some("english 5".to_string()));
            assert_eq!(cover.source_url, "https://img.example/cover_image/large/5.jpg");
            assert_eq!(cover.bucket, "anihistory-images");
            assert_eq!(cover.key, "assets/images/anime_5.jpg");
            assert_eq!(cover.content_type, "image/jpeg");
            assert_eq!(cover.acl, "public-read");
            assert_eq!(cover.stored_url, anime.cover_s3);
        }
        other => panic!("unexpected step {:?}", other),
    }
    match &plan[1] {
        Action::StoreRow { row } => {
            assert_eq!(row.user_id, 42);
            assert_eq!(row.anime_id, 5);
            assert_eq!(row.user_title, Some("title 5".to_string()));
            assert_eq!(row.start_day, Some(Day { year: 2020, month: 1, day: 1 }));
            assert_eq!(row.end_day, None);
            assert_eq!(row.score, Some(80));
        }
        other => panic!("unexpected step {:?}", other),
    }
}

#[test]
fn list_row_resolves_dates_all_or_nothing() {
    let mut e = plain(5);
    e.started_at = Date { year: Some(2020), month: Some(2), day: Some(30) };
    e.completed_at = Date { year: Some(2021), month: Some(3), day: Some(4) };
    e.score_raw = None;
    let row = list_row(7, &e);
    assert_eq!(row.start_day, None);
    assert_eq!(row.end_day, Some(Day { year: 2021, month: 3, day: 4 }));
    assert_eq!(row.score, None);
    assert_eq!(row.user_id, 7);
}

#[test]
fn anime_record_needs_an_extension() {
    assert_eq!(anime_record(&entry(5, "https://img.example/cover").media), None);
    let anime = anime_record(&entry(5, "https://img.example/cover.png").media).unwrap();
    assert_eq!(
        anime.cover_s3,
        "https://s3.amazonaws.com/anihistory-images/assets/images/anime_5.png"
    );
}

#[test]
fn entry_without_extension_is_rejected() {
    let lists = vec![list("Watching", vec![entry(5, "https://img.example/cover"), plain(6)])];
    let plan = update_entries(1, &lists, &vec![row(1, 5)]);
    assert_eq!(plan.len(), 3);
    assert_eq!(plan[0], Action::Reject { user_id: 1, anime_id: 5 });
    assert!(matches!(plan[1], Action::StoreAnime { .. }));
    assert_eq!(written(&plan), vec![6]);
    assert_eq!(deleted(&plan), Vec::<i32>::new());
}

#[test]
fn entries_are_written_in_remote_order() {
    let lists = vec![
        list("Completed", vec![plain(30), plain(10)]),
        list("Paused", vec![plain(20)]),
        list("Watching", vec![plain(10), plain(5)]),
    ];
    let plan = update_entries(1, &lists, &Vec::new());
    assert_eq!(written(&plan), vec![30, 10, 10, 5]);
}
