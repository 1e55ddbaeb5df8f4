//! The sequence-to-shots table on its own.

use vpin_dialog::LevelMap;

fn strings(words: &[&str]) -> Vec<String> {
    words.iter().map(|w| w.to_string()).collect()
}

#[test]
fn new_map_is_empty() {
    let map = LevelMap::new();
    assert_eq!(map.len(), 0);
    assert_eq!(map.keys(), Vec::<String>::new());
    assert_eq!(map.get("RD"), None);
}

#[test]
fn keys_keep_insertion_order() {
    let mut map = LevelMap::new();
    map.insert("RD".to_string(), strings(&["0001"]));
    map.insert("AA".to_string(), strings(&["0002"]));
    map.insert("BB".to_string(), strings(&["0003"]));
    assert_eq!(map.keys(), strings(&["RD", "AA", "BB"]));
    assert_eq!(map.len(), 3);
}

#[test]
fn get_returns_the_stored_shots_in_order() {
    let mut map = LevelMap::new();
    map.insert("RD".to_string(), strings(&["0001", "0002", "9999"]));
    assert_eq!(map.get("RD"), Some(&strings(&["0001", "0002", "9999"])));
    assert_eq!(map.get("AA"), None);
}

#[test]
fn inserting_an_existing_key_replaces_its_shots_in_place() {
    let mut map = LevelMap::new();
    map.insert("RD".to_string(), strings(&["0001"]));
    map.insert("AA".to_string(), strings(&["0002"]));
    map.insert("RD".to_string(), strings(&["7777", "8888"]));
    assert_eq!(map.len(), 2);
    assert_eq!(map.keys(), strings(&["RD", "AA"]));
    assert_eq!(map.get("RD"), Some(&strings(&["7777", "8888"])));
    assert_eq!(map.get("AA"), Some(&strings(&["0002"])));
}

#[test]
fn empty_shot_lists_are_kept() {
    let mut map = LevelMap::new();
    map.insert("RD".to_string(), Vec::new());
    assert_eq!(map.get("RD"), Some(&Vec::new()));
}
