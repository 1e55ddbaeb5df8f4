//! The cascade between the sequence selector, the shot selector and the
//! level read back.

use vpin_dialog::LevelMap;
use vpin_dialog::VpinDialog;

fn strings(words: &[&str]) -> Vec<String> {
    words.iter().map(|w| w.to_string()).collect()
}

fn dev01_map() -> LevelMap {
    let mut map = LevelMap::new();
    map.insert("RD".to_string(), strings(&["0001", "0002", "0003", "9999"]));
    map.insert("AA".to_string(), strings(&["0001", "0002", "0003", "0004"]));
    map
}

fn dev01_dialog() -> VpinDialog {
    let mut dialog = VpinDialog::create("DEV01", "modelpublish-1.2.0");
    dialog.set_levels_map(dev01_map());
    dialog.set_levels_alt();
    dialog
}

#[test]
fn sequence_selector_lists_placeholder_then_keys() {
    let dialog = dev01_dialog();
    assert_eq!(dialog.seqs_cb().count(), 3);
    assert_eq!(dialog.seqs_cb().item_text(0), "All Sequences".to_string());
    assert_eq!(dialog.seqs_cb().item_text(1), "RD".to_string());
    assert_eq!(dialog.seqs_cb().item_text(2), "AA".to_string());
    assert_eq!(dialog.seqs_cb().current_index(), 0);
}

#[test]
fn seqs_returns_the_stored_keys() {
    let dialog = dev01_dialog();
    assert_eq!(dialog.seqs(), strings(&["RD", "AA"]));
}

#[test]
fn selecting_a_sequence_fills_the_shot_selector() {
    let mut dialog = dev01_dialog();
    dialog.select_sequence(1);
    let shots = dialog.shots_cb();
    assert_eq!(shots.count(), 5);
    assert_eq!(shots.item_text(0), "All Shots".to_string());
    assert_eq!(shots.item_text(1), "0001".to_string());
    assert_eq!(shots.item_text(2), "0002".to_string());
    assert_eq!(shots.item_text(3), "0003".to_string());
    assert_eq!(shots.item_text(4), "9999".to_string());
    assert_eq!(shots.current_index(), 0);
}

#[test]
fn selecting_the_placeholder_resets_the_shot_selector() {
    let mut dialog = dev01_dialog();
    dialog.select_sequence(2);
    dialog.select_shot(3);
    dialog.select_sequence(0);
    assert_eq!(dialog.shots_cb().count(), 1);
    assert_eq!(dialog.shots_cb().item_text(0), "All Shots".to_string());
    assert_eq!(dialog.shots_cb().current_index(), 0);
    // a second reset changes nothing more
    dialog.select_sequence(0);
    assert_eq!(dialog.shots_cb().count(), 1);
    assert_eq!(dialog.shots_cb().item_text(0), "All Shots".to_string());
}

#[test]
fn level_for_sequence_and_shot() {
    let mut dialog = dev01_dialog();
    dialog.select_sequence(1);
    dialog.select_shot(4);
    assert_eq!(dialog.selected_level(), Some("DEV01.RD.9999".to_string()));
}

#[test]
fn level_for_sequence_alone() {
    let mut dialog = dev01_dialog();
    dialog.select_sequence(2);
    assert_eq!(dialog.selected_level(), Some("DEV01.AA".to_string()));
}

#[test]
fn no_level_before_any_selection() {
    let dialog = dev01_dialog();
    assert_eq!(dialog.selected_level(), None);
}

#[test]
fn shot_placeholder_yields_sequence_level() {
    let mut dialog = dev01_dialog();
    dialog.select_sequence(1);
    dialog.select_shot(2);
    dialog.select_shot(0);
    assert_eq!(dialog.selected_level(), Some("DEV01.RD".to_string()));
}

#[test]
fn back_to_placeholder_yields_no_level() {
    let mut dialog = dev01_dialog();
    dialog.select_sequence(1);
    dialog.select_shot(4);
    dialog.select_sequence(0);
    assert_eq!(dialog.selected_level(), None);
}

#[test]
fn unknown_sequence_name_leaves_placeholder_only() {
    let mut dialog = dev01_dialog();
    dialog.set_shots_for_seq("XX");
    assert_eq!(dialog.shots_cb().count(), 1);
    assert_eq!(dialog.shots_cb().item_text(0), "All Shots".to_string());
}

#[test]
fn set_levels_takes_an_explicit_list() {
    let mut dialog = VpinDialog::create("DEV01", "modelpublish-1.2.0");
    dialog.set_levels(strings(&["RD", "AA", "BB"]));
    assert_eq!(dialog.seqs_cb().count(), 4);
    assert_eq!(dialog.seqs_cb().item_text(0), "All Sequences".to_string());
    assert_eq!(dialog.seqs_cb().item_text(3), "BB".to_string());
    assert_eq!(dialog.shots_cb().count(), 1);
}

#[test]
fn sequence_without_entry_keeps_level_without_shot() {
    let mut dialog = VpinDialog::create("DEV01", "modelpublish-1.2.0");
    // the selector names a sequence the stored table does not know
    dialog.set_levels(strings(&["ZZ"]));
    dialog.select_sequence(1);
    assert_eq!(dialog.shots_cb().count(), 1);
    assert_eq!(dialog.selected_level(), Some("DEV01.ZZ".to_string()));
}

#[test]
fn set_levels_map_alone_touches_no_selector() {
    let mut dialog = VpinDialog::create("DEV01", "modelpublish-1.2.0");
    dialog.set_levels_map(dev01_map());
    assert_eq!(dialog.seqs_cb().count(), 1);
    assert_eq!(dialog.seqs_cb().item_text(0), "All Sequences".to_string());
    assert_eq!(dialog.shots_cb().count(), 1);
    assert_eq!(dialog.seqs(), strings(&["RD", "AA"]));
}

#[test]
fn clear_shots_empties_the_shot_selector() {
    let mut dialog = dev01_dialog();
    dialog.select_sequence(1);
    dialog.clear_shots();
    assert_eq!(dialog.shots_cb().count(), 0);
    assert_eq!(dialog.selected_level(), Some("DEV01.RD".to_string()));
}
