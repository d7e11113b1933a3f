use anihistory::anilist::{list_query, user_query};
use anihistory::text::{chars_of, contains_chars, push_decimal, push_digits, rfind_from};
use anihistory::text::{str_contains, string_of};

#[test]
fn substring_search() {
    assert!(str_contains("completed tv", "completed"));
    assert!(str_contains("rewatching", "watching"));
    assert!(str_contains("abc", ""));
    assert!(str_contains("", ""));
    assert!(str_contains("abc", "abc"));
    assert!(str_contains("aab", "ab"));
    assert!(!str_contains("abc", "abcd"));
    assert!(!str_contains("", "a"));
    assert!(!str_contains("watchin", "watching"));
    assert!(!str_contains("Watching", "watching"));
}

#[test]
fn substring_search_over_characters() {
    let hay: Vec<char> = "héllo wörld".chars().collect();
    let needle: Vec<char> = "wör".chars().collect();
    assert!(contains_chars(&hay, &needle));
    let other: Vec<char> = "wor".chars().collect();
    assert!(!contains_chars(&hay, &other));
}

#[test]
fn characters_of_a_text() {
    assert_eq!(chars_of("añb"), vec!['a', 'ñ', 'b']);
    assert_eq!(chars_of(""), Vec::<char>::new());
}

#[test]
fn part_of_a_text() {
    let cs = chars_of("large/12345.jpg");
    assert_eq!(string_of(&cs, 6, 11), "12345");
    assert_eq!(string_of(&cs, 0, 0), "");
    assert_eq!(string_of(&cs, 12, 15), "jpg");
}

#[test]
fn last_occurrence_of_a_character() {
    let cs = chars_of("a/b/c.d");
    assert_eq!(rfind_from(&cs, 0, '/'), Some(3));
    assert_eq!(rfind_from(&cs, 4, '/'), None);
    assert_eq!(rfind_from(&cs, 4, '.'), Some(5));
    assert_eq!(rfind_from(&cs, 7, '.'), None);
    assert_eq!(rfind_from(&cs, 0, 'x'), None);
}

#[test]
fn decimal_numerals() {
    let mut s = String::new();
    push_decimal(&mut s, 0);
    assert_eq!(s, "0");
    let mut s = String::from("id=");
    push_decimal(&mut s, 12345);
    assert_eq!(s, "id=12345");
    let mut s = String::new();
    push_decimal(&mut s, -7);
    assert_eq!(s, "-7");
    let mut s = String::new();
    push_decimal(&mut s, i32::MIN);
    assert_eq!(s, "-2147483648");
    let mut s = String::new();
    push_decimal(&mut s, i32::MAX);
    assert_eq!(s, "2147483647");
    let mut s = String::new();
    push_digits(&mut s, 1000);
    assert_eq!(s, "1000");
    let mut s = String::new();
    push_digits(&mut s, u32::MAX);
    assert_eq!(s, "4294967295");
}

#[test]
fn decimal_numerals_agree_with_std() {
    for i in [-1000000, -101, -10, -9, -1, 0, 1, 9, 10, 11, 99, 100, 101, 2020, 999999] {
        let mut s = String::new();
        push_decimal(&mut s, i);
        assert_eq!(s, format!("{}", i));
    }
}

#[test]
fn identity_query_holds_the_name() {
    assert_eq!(
        user_query("someone"),
        "query {\n  \tUser(name: \"someone\") {\n\t  id\n      name\n      avatar {\n        large\n      }\n\t}\n  }"
    );
}

#[test]
fn identity_query_takes_the_name_as_it_is() {
    let query = user_query("{}");
    assert!(query.starts_with("query {\n  \tUser(name: \"{}\") {"));
    assert_eq!(user_query("").matches("name: \"\"").count(), 1);
}

#[test]
fn list_query_holds_the_id() {
    let query = list_query(4242);
    assert!(query.starts_with("query {\n    MediaListCollection(userId: 4242, type: ANIME) {\n      lists {"));
    assert!(query.ends_with("      averageScore\n      siteUrl\n      }\n    }"));
    assert!(query.contains("scoreRaw: score(format: POINT_100)"));
    assert!(query.contains("media {\n\t  id\n      title {"));
    assert_eq!(query.len(), list_query(1000).len());
    assert_eq!(query.len(), list_query(1).len() + 3);
}

#[test]
fn list_query_of_a_negative_id() {
    assert!(list_query(-3).contains("userId: -3, type: ANIME"));
}
