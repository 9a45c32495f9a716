use mint_lib::installation::{NoParentDirectory, DBSZ_APP_ID};
use mint_lib::order::{compare_text, text_precedes};
use mint_lib::text::{decimal_text, starts_with};
use std::cmp::Ordering;
use mint_lib::DBSZInstallation;

#[test]
fn root_is_parent_of_game_path() {
    let installation = DBSZInstallation::from_game_path("/games/DBSZ/SparkingZERO").unwrap();
    assert_eq!(installation.root, "/games/DBSZ");
}

#[test]
fn root_of_a_path_with_trailing_separator() {
    let installation = DBSZInstallation::from_game_path("/games/DBSZ/SparkingZERO/").unwrap();
    assert_eq!(installation.root, "/games/DBSZ");
}

#[test]
fn root_of_a_single_relative_name_is_empty() {
    let installation = DBSZInstallation::from_game_path("SparkingZERO").unwrap();
    assert_eq!(installation.root, "");
}

#[test]
fn root_directory_is_no_game_path() {
    let error = DBSZInstallation::from_game_path("/").unwrap_err();
    assert_eq!(error, NoParentDirectory { path: "/".to_string() });
}

#[test]
fn empty_path_is_no_game_path() {
    let error = DBSZInstallation::from_game_path("").unwrap_err();
    assert_eq!(error.path, "");
}

#[test]
fn installation_of_an_app_directory() {
    let installation =
        DBSZInstallation::from_app_dir("/steam/steamapps/common/DRAGON BALL Sparking! ZERO").unwrap();
    assert_eq!(installation.root, "/steam/steamapps/common/DRAGON BALL Sparking! ZERO");
    let relative = DBSZInstallation::from_app_dir("").unwrap();
    assert_eq!(relative.root, "");
}

#[test]
fn directories_under_the_root() {
    let installation = DBSZInstallation::from_game_path("/games/DBSZ/SparkingZERO").unwrap();
    assert_eq!(installation.mods_path(), "/games/DBSZ/Mods");
    assert_eq!(installation.paks_path(), "/games/DBSZ/Content/Paks");
    assert_eq!(installation.pak_mods_path(), "/games/DBSZ/Content/Paks/~mods");
    assert_eq!(installation.binaries_directory(), "/games/DBSZ/Binaries/Win64");
}

#[test]
fn directories_under_a_relative_root() {
    let installation = DBSZInstallation { root: "game".to_string() };
    assert_eq!(installation.mods_path(), "game/Mods");
    assert_eq!(installation.paks_path(), "game/Content/Paks");
    assert_eq!(installation.pak_mods_path(), "game/Content/Paks/~mods");
    assert_eq!(installation.binaries_directory(), "game/Binaries/Win64");
}

#[test]
fn directories_are_computed_again_on_each_call() {
    let mut installation = DBSZInstallation { root: "/a".to_string() };
    assert_eq!(installation.mods_path(), "/a/Mods");
    installation.root = "/b".to_string();
    assert_eq!(installation.mods_path(), "/b/Mods");
}

#[test]
fn app_number_of_the_game() {
    assert_eq!(DBSZ_APP_ID, 1790600);
}

#[test]
fn prefix_test_on_text() {
    assert!(starts_with("abc", ""));
    assert!(starts_with("abc", "a"));
    assert!(starts_with("abc", "abc"));
    assert!(!starts_with("abc", "abcd"));
    assert!(!starts_with("abc", "b"));
    assert!(!starts_with("", "a"));
    assert!(starts_with("", ""));
    for (text, prefix) in [("größe", "grö"), ("größe", "gro"), ("日本語", "日本"), ("日本語", "本")] {
        assert_eq!(starts_with(text, prefix), text.starts_with(prefix), "{text} {prefix}");
    }
}

#[test]
fn numbers_in_base_ten() {
    assert_eq!(decimal_text(0), "0");
    assert_eq!(decimal_text(7), "7");
    assert_eq!(decimal_text(10), "10");
    assert_eq!(decimal_text(1790600), "1790600");
    assert_eq!(decimal_text(u32::MAX), "4294967295");
}

#[test]
fn three_way_comparison_of_text() {
    assert_eq!(compare_text("a", "b"), Ordering::Less);
    assert_eq!(compare_text("b", "a"), Ordering::Greater);
    assert_eq!(compare_text("same", "same"), Ordering::Equal);
    assert_eq!(compare_text("", ""), Ordering::Equal);
    assert!(text_precedes("Z", "a"));
    assert!(text_precedes("a", "\u{e9}"));
    assert!(text_precedes("\u{ffff}", "\u{10000}"));
    assert!(!text_precedes("\u{10000}", "\u{ffff}"));
    assert!(!text_precedes("a", "a"));
}
