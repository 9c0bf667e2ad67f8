use music_manager::{find_category, move_setup, str_contains, search, FilerError};

fn names(list: &[&str]) -> Vec<String> {
    list.iter().map(|s| s.to_string()).collect()
}

#[test]
fn zero_matches_is_category_not_found() {
    let dirs = names(&["Rock", "Jazz", "Classical"]);
    assert_eq!(find_category(&dirs, "Metal"), Err(FilerError::CategoryNotFound));
}

#[test]
fn empty_listing_is_category_not_found() {
    let dirs: Vec<String> = Vec::new();
    assert_eq!(find_category(&dirs, "Rock"), Err(FilerError::CategoryNotFound));
}

#[test]
fn one_match_is_returned() {
    let dirs = names(&["Rock", "Jazz"]);
    assert_eq!(find_category(&dirs, "Jaz"), Ok("Jazz".to_string()));
}

#[test]
fn several_matches_pick_the_first_in_listing_order() {
    let dirs = names(&["Progressive Rock", "Rock", "Post-Rock"]);
    assert_eq!(find_category(&dirs, "Rock"), Ok("Progressive Rock".to_string()));
}

#[test]
fn matching_is_case_sensitive() {
    let dirs = names(&["rock"]);
    assert_eq!(find_category(&dirs, "Rock"), Err(FilerError::CategoryNotFound));
}

#[test]
fn move_setup_prefers_the_matching_category() {
    let dirs = names(&["Rock", "Jazz"]);
    assert_eq!(move_setup(&dirs, "Rock", true), Ok(Some("Rock".to_string())));
}

#[test]
fn move_setup_falls_back_to_the_default_dir() {
    let dirs = names(&["Rock", "Jazz"]);
    assert_eq!(move_setup(&dirs, "Metal", true), Ok(None));
}

#[test]
fn move_setup_without_default_dir_is_a_hard_failure() {
    let dirs = names(&["Rock", "Jazz"]);
    assert_eq!(move_setup(&dirs, "Metal", false), Err(FilerError::DefaultDirMissing));
}

#[test]
fn substring_search_finds_inner_matches() {
    assert!(str_contains("Progressive Rock", "gress"));
    assert!(str_contains("Rock", "Rock"));
    assert!(str_contains("Rock", ""));
    assert!(!str_contains("Rock", "Rocks"));
    assert!(!str_contains("", "a"));
}

#[test]
fn search_keeps_all_matches_in_order() {
    let content = names(&["Post-Rock", "Jazz", "Rockabilly", "Pop"]);
    let found = search("Rock", content);
    assert_eq!(found, names(&["Post-Rock", "Rockabilly"]));
}
