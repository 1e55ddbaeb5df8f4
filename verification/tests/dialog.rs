//! Dialog defaults, role selection and the modal result.

use vpin_dialog::FocusTarget;
use vpin_dialog::VpinDialog;

fn strings(words: &[&str]) -> Vec<String> {
    words.iter().map(|w| w.to_string()).collect()
}

#[test]
fn default_state() {
    let dialog = VpinDialog::create("DEV01", "modelpublish-1.2.0");
    assert_eq!(dialog.show_name(), "DEV01");
    assert_eq!(dialog.distribution(), "modelpublish-1.2.0");
    assert_eq!(dialog.selected_level(), None);
    assert_eq!(dialog.selected_site(), "".to_string());
    assert_eq!(dialog.selected_roles(), None);
    assert_eq!(dialog.result(), 0);
    assert!(!dialog.roles_checked());
    assert!(!dialog.roles_enabled());
    assert_eq!(dialog.seqs_cb().count(), 1);
    assert_eq!(dialog.seqs_cb().item_text(0), "All Sequences".to_string());
    assert_eq!(dialog.shots_cb().count(), 1);
    assert_eq!(dialog.shots_cb().item_text(0), "All Shots".to_string());
    assert_eq!(dialog.sites_cb().count(), 0);
}

#[test]
fn sites_first_entry_is_default() {
    let mut dialog = VpinDialog::create("DEV01", "modelpublish-1.2.0");
    dialog.set_sites(strings(&["hyderabad", "montreal"]));
    assert_eq!(dialog.selected_site(), "hyderabad".to_string());
    assert_eq!(dialog.sites_cb().count(), 2);
    assert_eq!(dialog.sites_cb().item_text(1), "montreal".to_string());
}

#[test]
fn selecting_a_site_reads_back() {
    let mut dialog = VpinDialog::create("DEV01", "modelpublish-1.2.0");
    dialog.set_sites(strings(&["hyderabad", "montreal", "playa"]));
    dialog.select_site(2);
    assert_eq!(dialog.selected_site(), "playa".to_string());
}

#[test]
fn unchecked_roles_mean_any_role() {
    let mut dialog = VpinDialog::create("DEV01", "modelpublish-1.2.0");
    dialog.set_roles(strings(&["model", "anim", "rig"]));
    assert_eq!(dialog.selected_roles(), None);
    // highlighting plays no part while the checkbox stays unchecked
    dialog.set_role_selected(0, false);
    dialog.set_role_selected(2, false);
    assert_eq!(dialog.selected_roles(), None);
}

#[test]
fn set_roles_highlights_every_entry() {
    let mut dialog = VpinDialog::create("DEV01", "modelpublish-1.2.0");
    dialog.set_roles(strings(&["model", "anim", "rig"]));
    dialog.set_roles_checked(true);
    assert_eq!(dialog.selected_roles(), Some(strings(&["model", "anim", "rig"])));
}

#[test]
fn checked_but_nothing_highlighted_is_empty_not_any() {
    let mut dialog = VpinDialog::create("DEV01", "modelpublish-1.2.0");
    dialog.set_roles(strings(&["model", "anim"]));
    dialog.set_roles_checked(true);
    dialog.set_role_selected(0, false);
    dialog.set_role_selected(1, false);
    assert_eq!(dialog.selected_roles(), Some(Vec::new()));
}

#[test]
fn highlighted_subset_reads_back_in_order() {
    let mut dialog = VpinDialog::create("DEV01", "modelpublish-1.2.0");
    dialog.set_roles(strings(&["model", "anim", "rig", "fx"]));
    dialog.set_roles_checked(true);
    dialog.set_role_selected(1, false);
    dialog.set_role_selected(2, false);
    assert_eq!(dialog.selected_roles(), Some(strings(&["model", "fx"])));
}

#[test]
fn checkbox_drives_role_list_enabling_and_focus() {
    let mut dialog = VpinDialog::create("DEV01", "modelpublish-1.2.0");
    dialog.set_roles_checked(true);
    assert!(dialog.roles_checked());
    assert!(dialog.roles_enabled());
    assert_eq!(dialog.focus(), FocusTarget::RolesList);
    dialog.set_roles_checked(false);
    assert!(!dialog.roles_checked());
    assert!(!dialog.roles_enabled());
    assert_eq!(dialog.focus(), FocusTarget::Cleared);
}

#[test]
fn roles_focus_moves_to_the_filter() {
    let mut dialog = VpinDialog::create("DEV01", "modelpublish-1.2.0");
    dialog.set_roles_focus();
    assert_eq!(dialog.focus(), FocusTarget::RolesFilter);
}

#[test]
fn accept_and_close_set_the_modal_result() {
    let mut dialog = VpinDialog::create("DEV01", "modelpublish-1.2.0");
    assert_eq!(dialog.result(), 0);
    dialog.accept();
    assert_eq!(dialog.result(), 1);
    assert!(dialog.close());
    assert_eq!(dialog.result(), 0);
    dialog.accept();
    dialog.reject();
    assert_eq!(dialog.result(), 0);
}
