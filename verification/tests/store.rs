use std::collections::BTreeMap;

use anihistory::anilist::{CoverImage, Date, Entry, Media, MediaList, Title};
use anihistory::models::{Anime, ListItem};
use anihistory::reconcile::{update_entries, Action};
use anihistory::report::{Report, Step};

struct Tables {
    anime: BTreeMap<i32, Anime>,
    lists: BTreeMap<(i32, i32), ListItem>,
    uploads: Vec<String>,
}

fn empty() -> Tables {
    Tables { anime: BTreeMap::new(), lists: BTreeMap::new(), uploads: Vec::new() }
}

fn rows_of(tables: &Tables, id: i32) -> Vec<ListItem> {
    tables.lists.values().filter(|row| row.user_id == id).cloned().collect()
}

fn carry_out(tables: &mut Tables, id: i32, plan: Vec<Action>) -> Report {
    let mut report = Report::new(id);
    for action in plan {
        match &action {
            Action::Delete { user_id, anime_id } => {
                tables.lists.remove(&(*user_id, *anime_id));
            }
            Action::StoreAnime { anime, .. } => {
                tables.anime.insert(anime.anime_id, anime.clone());
            }
            Action::StoreRow { row } => {
                tables.lists.insert((row.user_id, row.anime_id), row.clone());
            }
            Action::Reject { .. } => {}
        }
        if let Some(upload) = report.record(action, Ok(())) {
            tables.uploads.push(upload.key);
        }
    }
    report
}

fn reconcile(tables: &mut Tables, id: i32, lists: &Vec<MediaList>) -> Report {
    let stored = rows_of(tables, id);
    let plan = update_entries(id, lists, &stored);
    carry_out(tables, id, plan)
}

fn entry(id: i32, score: i16) -> Entry {
    Entry {
        score_raw: Some(score),
        started_at: Date { year: Some(2019), month: Some(4), day: Some(7) },
        completed_at: Date { year: Some(2019), month: None, day: None },
        media: Media {
            id,
            title: Title {
                user_preferred: Some(format!("title {}", id)),
                english: None,
                romaji: Some(format!("romaji {}", id)),
                native: None,
            },
            description: format!("about {}", id),
            cover_image: CoverImage { large: format!("https://img.example/large/{}.png", id) },
            average_score: None,
        },
    }
}

fn list(name: &str, entries: Vec<Entry>) -> MediaList {
    MediaList { name: name.to_string(), entries }
}

fn ids_of(tables: &Tables, id: i32) -> Vec<i32> {
    rows_of(tables, id).iter().map(|row| row.anime_id).collect()
}

#[test]
fn rows_match_the_lists_that_count() {
    let mut tables = empty();
    let lists = vec![
        list("Completed", vec![entry(3, 90), entry(1, 50)]),
        list("Planning", vec![entry(2, 0)]),
        list("Watching", vec![entry(7, 70)]),
    ];
    reconcile(&mut tables, 1, &lists);
    assert_eq!(ids_of(&tables, 1), vec![1, 3, 7]);
    assert_eq!(tables.anime.keys().cloned().collect::<Vec<i32>>(), vec![1, 3, 7]);
}

#[test]
fn a_second_run_changes_nothing() {
    let mut tables = empty();
    tables.lists.insert(
        (1, 44),
        ListItem {
            user_id: 1,
            anime_id: 44,
            user_title: None,
            start_day: None,
            end_day: None,
            score: None,
        },
    );
    let lists = vec![
        list("Completed", vec![entry(3, 90), entry(1, 50)]),
        list("Watching", vec![entry(3, 10)]),
    ];
    reconcile(&mut tables, 1, &lists);
    let rows = tables.lists.clone();
    let anime = tables.anime.clone();
    let second = reconcile(&mut tables, 1, &lists);
    assert_eq!(tables.lists, rows);
    assert_eq!(tables.anime, anime);
    assert_eq!(ids_of(&tables, 1), vec![1, 3]);
    assert_eq!(tables.lists[&(1, 3)].score, Some(10));
    assert_eq!(second.failures, Vec::new());
    assert_eq!(second.succeeded, 6);
}

#[test]
fn a_row_from_a_list_that_no_longer_counts_goes() {
    let mut tables = empty();
    reconcile(&mut tables, 1, &vec![list("Watching", vec![entry(5, 1)])]);
    assert_eq!(ids_of(&tables, 1), vec![5]);
    reconcile(&mut tables, 1, &vec![list("Dropped", vec![entry(5, 1)])]);
    assert_eq!(ids_of(&tables, 1), Vec::<i32>::new());
}

#[test]
fn other_users_keep_their_rows() {
    let mut tables = empty();
    reconcile(&mut tables, 2, &vec![list("Watching", vec![entry(5, 1), entry(6, 2)])]);
    reconcile(&mut tables, 1, &vec![list("Watching", vec![entry(5, 9)])]);
    reconcile(&mut tables, 1, &Vec::new());
    assert_eq!(ids_of(&tables, 2), vec![5, 6]);
    assert_eq!(tables.lists[&(2, 5)].score, Some(1));
    assert_eq!(ids_of(&tables, 1), Vec::<i32>::new());
}

#[test]
fn every_row_has_its_anime() {
    let mut tables = empty();
    let lists = vec![
        list("Completed", vec![entry(3, 90), entry(1, 50)]),
        list("Watching", vec![entry(7, 70)]),
    ];
    reconcile(&mut tables, 1, &lists);
    reconcile(&mut tables, 1, &vec![list("Completed", vec![entry(9, 90)])]);
    for (_, anime_id) in tables.lists.keys() {
        assert!(tables.anime.contains_key(anime_id));
    }
}

#[test]
fn watching_is_kept_and_dropped_is_not() {
    let mut tables = empty();
    let lists = vec![list("Watching", vec![entry(5, 60)]), list("Dropped", vec![entry(8, 20)])];
    let report = reconcile(&mut tables, 1, &lists);
    assert_eq!(tables.lists.len(), 1);
    assert_eq!(tables.anime.len(), 1);
    assert!(tables.lists.contains_key(&(1, 5)));
    assert!(tables.anime.contains_key(&5));
    assert_eq!(tables.uploads, vec!["assets/images/anime_5.png".to_string()]);
    assert_eq!(report.failures, Vec::new());

    let again = reconcile(&mut tables, 1, &vec![list("Dropped", vec![entry(8, 20)])]);
    assert_eq!(tables.lists.len(), 0);
    assert_eq!(again.failures, Vec::new());
    assert_eq!(again.succeeded, 1);
}

#[test]
fn failures_are_kept_and_do_not_stop_the_run() {
    let lists = vec![list("Watching", vec![entry(5, 60), entry(6, 61)])];
    let stored = vec![ListItem {
        user_id: 1,
        anime_id: 9,
        user_title: None,
        start_day: None,
        end_day: None,
        score: None,
    }];
    let plan = update_entries(1, &lists, &stored);
    let mut report = Report::new(1);
    let mut uploads = Vec::new();
    for (index, action) in plan.into_iter().enumerate() {
        let outcome = if index == 0 || index == 1 {
            Err(format!("step {} failed", index))
        } else {
            Ok(())
        };
        if let Some(upload) = report.record(action, outcome) {
            uploads.push(upload.key);
        }
    }
    assert_eq!(report.user_id, 1);
    assert_eq!(report.succeeded, 3);
    assert_eq!(report.failures.len(), 2);
    assert_eq!(report.failures[0].anime_id, 9);
    assert_eq!(report.failures[0].step, Step::Delete);
    assert_eq!(report.failures[0].error, "step 0 failed");
    assert_eq!(report.failures[1].anime_id, 5);
    assert_eq!(report.failures[1].step, Step::StoreAnime);
    assert_eq!(report.failures[1].error, "step 1 failed");
    assert_eq!(uploads, vec!["assets/images/anime_6.png".to_string()]);
}

#[test]
fn a_rejected_entry_is_a_failure() {
    let mut report = Report::new(3);
    let next = report.record(Action::Reject { user_id: 3, anime_id: 8 }, Ok(()));
    assert_eq!(next, None);
    assert_eq!(report.succeeded, 0);
    assert_eq!(report.failures.len(), 1);
    assert_eq!(report.failures[0].anime_id, 8);
    assert_eq!(report.failures[0].step, Step::Reject);
    assert_eq!(report.failures[0].error, "the address of the cover has no extension");
}

#[test]
fn the_count_of_successes_stops_at_the_top() {
    let mut report = Report::new(3);
    report.succeeded = u64::MAX - 1;
    report.record(Action::Delete { user_id: 3, anime_id: 8 }, Ok(()));
    assert_eq!(report.succeeded, u64::MAX);
    report.record(Action::Delete { user_id: 3, anime_id: 9 }, Ok(()));
    assert_eq!(report.succeeded, u64::MAX);
    assert_eq!(report.failures, Vec::new());
}

#[test]
fn a_new_report_is_empty() {
    let report = Report::new(11);
    assert_eq!(report.user_id, 11);
    assert_eq!(report.succeeded, 0);
    assert_eq!(report.failures, Vec::new());
}

fn carry_out_some(tables: &mut Tables, id: i32, plan: Vec<Action>, fails: &[usize]) -> Report {
    let mut report = Report::new(id);
    for (index, action) in plan.into_iter().enumerate() {
        let outcome = if fails.contains(&index) {
            Err("the store is away".to_string())
        } else {
            match &action {
                Action::Delete { user_id, anime_id } => {
                    tables.lists.remove(&(*user_id, *anime_id));
                }
                Action::StoreAnime { anime, .. } => {
                    tables.anime.insert(anime.anime_id, anime.clone());
                }
                Action::StoreRow { row } => {
                    tables.lists.insert((row.user_id, row.anime_id), row.clone());
                }
                Action::Reject { .. } => {}
            }
            Ok(())
        };
        report.record(action, outcome);
    }
    report
}

#[test]
fn failures_stay_local() {
    let lists = vec![list("Watching", vec![entry(5, 60), entry(6, 61)])];
    for failing in 0..64usize {
        let fails: Vec<usize> = (0..6).filter(|bit| failing & (1 << bit) != 0).collect();
        let mut tables = empty();
        reconcile(&mut tables, 2, &vec![list("Completed", vec![entry(5, 1), entry(9, 2)])]);
        reconcile(&mut tables, 1, &vec![list("Completed", vec![entry(5, 3), entry(9, 4)])]);
        let others = rows_of(&tables, 2);
        let stored = rows_of(&tables, 1);
        let plan = update_entries(1, &lists, &stored);
        assert_eq!(plan.len(), 5);
        let report = carry_out_some(&mut tables, 1, plan, &fails);
        assert_eq!(rows_of(&tables, 2), others);
        assert!(tables.lists.contains_key(&(1, 5)));
        for (user_id, anime_id) in tables.lists.keys() {
            if *user_id == 1 {
                assert!(*anime_id == 5 || *anime_id == 6 || *anime_id == 9);
                if *anime_id == 9 {
                    assert!(fails.contains(&0));
                }
            }
        }
        assert_eq!(report.failures.len(), fails.iter().filter(|index| **index < 5).count());
        assert_eq!(report.succeeded as usize + report.failures.len(), 5);
    }
}
