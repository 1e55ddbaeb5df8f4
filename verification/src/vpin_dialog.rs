//! The version-pin dialog controller.
//!
//! [`VpinDialog`] owns the dialog's whole state and is the one place it is
//! mutated: the caller seeds it with roles, sites and a [`LevelMap`], user
//! events arrive as method calls (a GUI front end forwards each widget signal
//! to the matching method and repaints from the state read back), and once
//! the dialog is confirmed the selection is read back through
//! [`VpinDialog::selected_roles`], [`VpinDialog::selected_site`] and
//! [`VpinDialog::selected_level`].  Every method promises to perform exactly
//! the transition that [`crate::cascade`] defines for it.

use vstd::prelude::*;

use crate::cascade;
use crate::cascade::DialogView;
use crate::cascade::FocusTarget;
use crate::level_map::LevelMap;
use crate::text::texts;
use crate::widgets::ComboBoxState;
use crate::widgets::ComboBoxView;
use crate::widgets::RoleListState;

verus! {

use vstd::string::StringExecFns;

/// The modal dialog for adding a version pin: role, level and site
/// selection, with the cascade between the selectors.
pub struct VpinDialog {
    show: String,
    distribution: String,
    roles_checked: bool,
    roles_enabled: bool,
    roles_list: RoleListState,
    seqs_cbox: ComboBoxState,
    shots_cbox: ComboBoxState,
    sites_cbox: ComboBoxState,
    levels: LevelMap,
    focus: FocusTarget,
    result_code: i32,
}

impl View for VpinDialog {
    type V = DialogView;

    closed spec fn view(&self) -> DialogView {
        DialogView {
            show: self.show@,
            distribution: self.distribution@,
            roles_checked: self.roles_checked,
            roles_enabled: self.roles_enabled,
            roles: self.roles_list@,
            seqs: self.seqs_cbox@,
            shots: self.shots_cbox@,
            sites: self.sites_cbox@,
            levels: self.levels@,
            focus: self.focus,
            result_code: self.result_code as int,
        }
    }
}

impl VpinDialog {
    /// Create the dialog for one show and one distribution: the sequence and
    /// shot selectors hold their placeholders, the role list is empty and
    /// disabled, and no site or level data is stored yet.
    pub fn create(show: &str, distribution: &str) -> (dialog: VpinDialog)
        ensures
            dialog@ == cascade::init(show@, distribution@),
            dialog@.wf(),
    {
        let mut seqs_cbox = ComboBoxState::new();
        seqs_cbox.add_item("All Sequences".to_owned());
        let mut shots_cbox = ComboBoxState::new();
        shots_cbox.add_item("All Shots".to_owned());
        let dialog = VpinDialog {
            show: show.to_owned(),
            distribution: distribution.to_owned(),
            roles_checked: false,
            roles_enabled: false,
            roles_list: RoleListState::new(),
            seqs_cbox,
            shots_cbox,
            sites_cbox: ComboBoxState::new(),
            levels: LevelMap::new(),
            focus: FocusTarget::RolesList,
            result_code: 0,
        };
        proof {
            assert(dialog@ =~~= cascade::init(show@, distribution@));
        }
        dialog
    }

    /// The show this dialog pins versions for.
    pub fn show_name(&self) -> (name: &str)
        ensures
            name@ == self@.show,
    {
        self.show.as_str()
    }

    /// The distribution named in the dialog's header.
    pub fn distribution(&self) -> (name: &str)
        ensures
            name@ == self@.distribution,
    {
        self.distribution.as_str()
    }

    /// Replace the role list's entries; they all arrive highlighted.
    pub fn set_roles(&mut self, roles: Vec<String>)
        requires
            old(self)@.wf(),
        ensures
            final(self)@ == cascade::with_roles(old(self)@, texts(roles@)),
            final(self)@.wf(),
    {
        self.roles_list.set_items(roles);
        self.roles_list.select_all();
        proof {
            assert(self@ =~~= cascade::with_roles(old(self)@, texts(roles@)));
        }
    }

    /// Replace the site selector's entries; the first becomes current.
    pub fn set_sites(&mut self, sites: Vec<String>)
        requires
            old(self)@.wf(),
        ensures
            final(self)@ == cascade::with_sites(old(self)@, texts(sites@)),
            final(self)@.wf(),
    {
        self.sites_cbox.clear();
        self.sites_cbox.add_items_cloned(&sites);
        proof {
            assert(self@ =~~= cascade::with_sites(old(self)@, texts(sites@)));
        }
    }

    /// Replace the stored level table; the selectors keep what they show
    /// until [`VpinDialog::set_levels_alt`] or a sequence selection reads
    /// the new table.
    pub fn set_levels_map(&mut self, levels: LevelMap)
        requires
            old(self)@.wf(),
        ensures
            final(self)@ == cascade::with_levels_map(old(self)@, levels@),
            final(self)@.wf(),
    {
        self.levels = levels;
        proof {
            assert(self@ =~~= cascade::with_levels_map(old(self)@, self.levels@));
        }
    }

    /// Copies of the stored level table's sequence names, in stored order.
    pub fn seqs(&self) -> (sequences: Vec<String>)
        ensures
            texts(sequences@) == crate::level_map::keys_of(self@.levels),
    {
        self.levels.keys()
    }

    /// Repopulate the sequence selector with the placeholder followed by the
    /// given sequence names, and reset the shot selector.
    pub fn set_levels(&mut self, levels: Vec<String>)
        requires
            old(self)@.wf(),
        ensures
            final(self)@ == cascade::with_levels(old(self)@, texts(levels@)),
            final(self)@.wf(),
    {
        self.seqs_cbox.clear();
        self.seqs_cbox.add_item("All Sequences".to_owned());
        self.seqs_cbox.add_items_cloned(&levels);
        self.reset_shots();
        proof {
            assert(self@.seqs.items =~= seq![cascade::seq_placeholder()] + texts(levels@));
            assert(self@ =~~= cascade::with_levels(old(self)@, texts(levels@)));
        }
    }

    /// Repopulate the sequence selector from the stored level table's keys,
    /// placeholder first, and reset the shot selector.
    pub fn set_levels_alt(&mut self)
        requires
            old(self)@.wf(),
        ensures
            final(self)@ == cascade::with_levels_alt(old(self)@),
            final(self)@.wf(),
    {
        let keys = self.levels.keys();
        self.seqs_cbox.clear();
        self.seqs_cbox.add_item("All Sequences".to_owned());
        self.seqs_cbox.add_items_cloned(&keys);
        self.reset_shots();
        proof {
            assert(self@.seqs.items =~= seq![cascade::seq_placeholder()] + crate::level_map::keys_of(
                old(self)@.levels,
            ));
            assert(self@ =~~= cascade::with_levels_alt(old(self)@));
        }
    }

    /// Empty the shot selector outright.
    pub fn clear_shots(&mut self)
        requires
            old(self)@.wf(),
        ensures
            final(self)@ == cascade::with_cleared_shots(old(self)@),
            final(self)@.wf(),
    {
        self.shots_cbox.clear();
        proof {
            assert(self@ =~~= cascade::with_cleared_shots(old(self)@));
        }
    }

    /// Refill the shot selector for one sequence name: the placeholder, then
    /// the shots the level table stores for it; an unknown name leaves the
    /// placeholder alone (no error).
    pub fn set_shots_for_seq(&mut self, sequence: &str)
        requires
            old(self)@.wf(),
        ensures
            final(self)@ == cascade::with_shots_for_seq(old(self)@, sequence@),
            final(self)@.wf(),
    {
        self.shots_cbox.clear();
        self.shots_cbox.add_item("All Shots".to_owned());
        let found = self.levels.get(sequence);
        match found {
            Some(shots) => {
                self.shots_cbox.add_items_cloned(shots);
            },
            None => {},
        }
        proof {
            assert(self@.shots.items =~= cascade::shots_contents_for(old(self)@.levels, sequence@));
            assert(self@ =~~= cascade::with_shots_for_seq(old(self)@, sequence@));
        }
    }

    /// The user chose the sequence at `index`: make it current, then cascade
    /// into the shot selector — the placeholder position resets it, any
    /// other position refills it from the level table under that entry's
    /// text.
    pub fn select_sequence(&mut self, index: usize)
        requires
            old(self)@.wf(),
            index < old(self)@.seqs.items.len(),
        ensures
            final(self)@ == cascade::after_select_sequence(old(self)@, index as int),
            final(self)@.wf(),
    {
        self.seqs_cbox.set_current(index);
        if index == 0 {
            self.reset_shots();
        } else {
            assert(self@.wf());
            let sequence = self.seqs_cbox.current_text();
            self.set_shots_for_seq(sequence.as_str());
        }
        proof {
            assert(self@ =~~= cascade::after_select_sequence(old(self)@, index as int));
        }
    }

    /// The user chose the shot at `index`: make it current.
    pub fn select_shot(&mut self, index: usize)
        requires
            old(self)@.wf(),
            index < old(self)@.shots.items.len(),
        ensures
            final(self)@ == cascade::with_selected_shot(old(self)@, index as int),
            final(self)@.wf(),
    {
        self.shots_cbox.set_current(index);
        proof {
            assert(self@ =~~= cascade::with_selected_shot(old(self)@, index as int));
        }
    }

    /// The user chose the site at `index`: make it current.
    pub fn select_site(&mut self, index: usize)
        requires
            old(self)@.wf(),
            index < old(self)@.sites.items.len(),
        ensures
            final(self)@ == cascade::with_selected_site(old(self)@, index as int),
            final(self)@.wf(),
    {
        self.sites_cbox.set_current(index);
        proof {
            assert(self@ =~~= cascade::with_selected_site(old(self)@, index as int));
        }
    }

    /// The user toggled the "specify roles" checkbox: checking it enables
    /// the role list and its filter and asks for focus on the list,
    /// unchecking disables both and drops the focus request.
    pub fn set_roles_checked(&mut self, checked: bool)
        requires
            old(self)@.wf(),
        ensures
            final(self)@ == cascade::with_roles_checked(old(self)@, checked),
            final(self)@.wf(),
    {
        self.roles_checked = checked;
        self.roles_enabled = checked;
        self.focus = if checked {
            FocusTarget::RolesList
        } else {
            FocusTarget::Cleared
        };
        proof {
            assert(self@ =~~= cascade::with_roles_checked(old(self)@, checked));
        }
    }

    /// The user highlighted or unhighlighted the role at `index`.
    pub fn set_role_selected(&mut self, index: usize, selected: bool)
        requires
            old(self)@.wf(),
            index < old(self)@.roles.items.len(),
        ensures
            final(self)@ == cascade::with_role_selected(old(self)@, index as int, selected),
            final(self)@.wf(),
    {
        self.roles_list.set_selected(index, selected);
        proof {
            assert(self@ =~~= cascade::with_role_selected(old(self)@, index as int, selected));
        }
    }

    /// Ask for focus on the role filter line edit.
    pub fn set_roles_focus(&mut self)
        requires
            old(self)@.wf(),
        ensures
            final(self)@ == cascade::with_roles_focus(old(self)@),
            final(self)@.wf(),
    {
        self.focus = FocusTarget::RolesFilter;
        proof {
            assert(self@ =~~= cascade::with_roles_focus(old(self)@));
        }
    }

    /// Whether the "specify roles" checkbox is checked.
    pub fn roles_checked(&self) -> (checked: bool)
        ensures
            checked == self@.roles_checked,
    {
        self.roles_checked
    }

    /// Whether the role list and its filter accept input.
    pub fn roles_enabled(&self) -> (enabled: bool)
        ensures
            enabled == self@.roles_enabled,
    {
        self.roles_enabled
    }

    /// How many entries the role list holds.
    pub fn role_count(&self) -> (count: usize)
        ensures
            count == self@.roles.items.len(),
    {
        self.roles_list.count()
    }

    /// The outstanding focus request.
    pub fn focus(&self) -> (focus: FocusTarget)
        ensures
            focus == self@.focus,
    {
        self.focus
    }

    /// The sequence selector, for reading what it shows.
    pub fn seqs_cb(&self) -> (cb: &ComboBoxState)
        ensures
            cb@ == self@.seqs,
    {
        &self.seqs_cbox
    }

    /// The shot selector, for reading what it shows.
    pub fn shots_cb(&self) -> (cb: &ComboBoxState)
        ensures
            cb@ == self@.shots,
    {
        &self.shots_cbox
    }

    /// The site selector, for reading what it shows.
    pub fn sites_cb(&self) -> (cb: &ComboBoxState)
        ensures
            cb@ == self@.sites,
    {
        &self.sites_cbox
    }

    /// The roles read back: nothing while the checkbox is unchecked ("apply
    /// to any role"); otherwise copies of the highlighted role names, in
    /// list order — possibly an empty list, which means "no roles".
    pub fn selected_roles(&self) -> (found: Option<Vec<String>>)
        requires
            self@.wf(),
        ensures
            found is Some <==> cascade::spec_selected_roles(self@) is Some,
            found is Some ==> texts(found->0@) == cascade::spec_selected_roles(self@)->0,
    {
        if self.roles_checked {
            Some(self.roles_list.selected_items())
        } else {
            None
        }
    }

    /// The site read back: the site selector's current text, or the empty
    /// string while no sites were set.
    pub fn selected_site(&self) -> (site: String)
        requires
            self@.wf(),
        ensures
            site@ == cascade::spec_selected_site(self@),
    {
        self.sites_cbox.current_text()
    }

    /// The level read back: nothing while the sequence selector sits at its
    /// placeholder; otherwise `show.sequence`, extended to
    /// `show.sequence.shot` when a shot beyond the placeholder is chosen.
    pub fn selected_level(&self) -> (level: Option<String>)
        requires
            self@.wf(),
        ensures
            match level {
                Some(text) => cascade::spec_selected_level(self@) == Some(text@),
                None => cascade::spec_selected_level(self@) is None,
            },
    {
        if self.seqs_cbox.current_index() == 0 {
            None
        } else {
            let mut text = self.show.clone();
            text.append(".");
            let seq_text = self.seqs_cbox.current_text();
            text.append(seq_text.as_str());
            if self.shots_cbox.current_index() > 0 {
                text.append(".");
                let shot_text = self.shots_cbox.current_text();
                text.append(shot_text.as_str());
            }
            Some(text)
        }
    }

    /// Confirm the dialog: the modal result becomes the accepted code.
    pub fn accept(&mut self)
        requires
            old(self)@.wf(),
        ensures
            final(self)@ == cascade::accepted(old(self)@),
            final(self)@.wf(),
    {
        self.result_code = 1;
        proof {
            assert(self@ =~~= cascade::accepted(old(self)@));
        }
    }

    /// Dismiss the dialog: the modal result becomes the rejected code.
    pub fn reject(&mut self)
        requires
            old(self)@.wf(),
        ensures
            final(self)@ == cascade::closed(old(self)@),
            final(self)@.wf(),
    {
        self.result_code = 0;
        proof {
            assert(self@ =~~= cascade::closed(old(self)@));
        }
    }

    /// Dismiss the dialog: the modal result becomes the rejected code, and
    /// the close request reports success.
    pub fn close(&mut self) -> (closed: bool)
        requires
            old(self)@.wf(),
        ensures
            final(self)@ == cascade::closed(old(self)@),
            final(self)@.wf(),
            closed,
    {
        self.result_code = 0;
        proof {
            assert(self@ =~~= cascade::closed(old(self)@));
        }
        true
    }

    /// The modal result so far: the rejected code until the dialog is
    /// confirmed.
    pub fn result(&self) -> (code: i32)
        ensures
            code as int == self@.result_code,
    {
        self.result_code
    }

    /// Reset the shot selector to its placeholder alone.
    fn reset_shots(&mut self)
        ensures
            final(self)@ == (DialogView {
                shots: ComboBoxView { items: seq![cascade::shot_placeholder()], current: 0 },
                ..old(self)@
            }),
    {
        self.shots_cbox.clear();
        self.shots_cbox.add_item("All Shots".to_owned());
        proof {
            assert(self@ =~~= (DialogView {
                shots: ComboBoxView { items: seq![cascade::shot_placeholder()], current: 0 },
                ..old(self)@
            }));
        }
    }
}

} // verus!
