//! The dialog's state machine.
//!
//! [`DialogView`] is the mathematical state of the dialog: what each selector
//! shows, what is selected, the role checkbox, the stored level table and the
//! modal result.  The functions here say exactly how each user action or
//! caller-driven setter transforms that state (the cascade: toggling the role
//! checkbox enables the role list, choosing a sequence repopulates the shot
//! selector), and how the confirmed selection is read back from it.  The
//! executable dialog in [`crate::vpin_dialog`] promises, method by method,
//! to follow these functions; the proof functions at the end state the
//! properties the machine guarantees.

use vstd::prelude::*;

use crate::level_map::LevelEntryView;
use crate::level_map::get_of;
use crate::level_map::has_key;
use crate::level_map::keys_of;
use crate::widgets::ComboBoxView;
use crate::widgets::RoleListView;
use crate::widgets::lemma_picked_all_selected;

verus! {

/// Which widget the dialog last asked the window system to focus.
#[derive(Clone, Copy, Debug, PartialEq, Eq)]
pub enum FocusTarget {
    /// No focus request is outstanding.
    Cleared,
    /// The multi-select role list.
    RolesList,
    /// The role filter line edit.
    RolesFilter,
}

/// The display text standing for "no particular sequence".
pub open spec fn seq_placeholder() -> Seq<char> {
    "All Sequences"@
}

/// The display text standing for "no particular shot".
pub open spec fn shot_placeholder() -> Seq<char> {
    "All Shots"@
}

/// The modal result of a dialog that was dismissed, or not yet confirmed.
pub open spec fn rejected_code() -> int {
    0
}

/// The modal result of a dialog that was confirmed.
pub open spec fn accepted_code() -> int {
    1
}

/// The whole state of the dialog.
#[verifier::ext_equal]
pub ghost struct DialogView {
    /// The show every level belongs to; fixed at creation.
    pub show: Seq<char>,
    /// The distribution named in the dialog's header; fixed at creation.
    pub distribution: Seq<char>,
    /// Whether the "specify roles" checkbox is checked.
    pub roles_checked: bool,
    /// Whether the role list and its filter accept input.
    pub roles_enabled: bool,
    /// The role list and its highlighted entries.
    pub roles: RoleListView,
    /// The sequence selector; its first entry is the sequence placeholder.
    pub seqs: ComboBoxView,
    /// The shot selector, repopulated whenever a sequence is chosen.
    pub shots: ComboBoxView,
    /// The site selector.
    pub sites: ComboBoxView,
    /// The stored sequence-to-shots table.
    pub levels: Seq<LevelEntryView>,
    /// The outstanding focus request.
    pub focus: FocusTarget,
    /// The modal result so far.
    pub result_code: int,
}

impl DialogView {
    /// What every reachable dialog state satisfies: the selectors are
    /// well-formed, the sequence selector always starts with its placeholder,
    /// and the shot selector starts with its placeholder whenever it is not
    /// empty.
    pub open spec fn wf(self) -> bool {
        &&& self.roles.wf()
        &&& self.seqs.wf()
        &&& self.shots.wf()
        &&& self.sites.wf()
        &&& self.seqs.items.len() >= 1
        &&& self.seqs.items[0] == seq_placeholder()
        &&& self.shots.items.len() >= 1 ==> self.shots.items[0] == shot_placeholder()
        &&& self.result_code == rejected_code() || self.result_code == accepted_code()
    }
}

/// A freshly created dialog: placeholders alone in the sequence and shot
/// selectors, everything else empty, roles disabled, not confirmed.
pub open spec fn init(show: Seq<char>, distribution: Seq<char>) -> DialogView {
    DialogView {
        show,
        distribution,
        roles_checked: false,
        roles_enabled: false,
        roles: RoleListView { items: Seq::empty(), selected: Seq::empty() },
        seqs: ComboBoxView { items: seq![seq_placeholder()], current: 0 },
        shots: ComboBoxView { items: seq![shot_placeholder()], current: 0 },
        sites: ComboBoxView { items: Seq::empty(), current: 0 },
        levels: Seq::empty(),
        focus: FocusTarget::RolesList,
        result_code: rejected_code(),
    }
}

/// Replace the role list: the new entries arrive all highlighted.
pub open spec fn with_roles(d: DialogView, roles: Seq<Seq<char>>) -> DialogView {
    DialogView {
        roles: RoleListView { items: roles, selected: Seq::new(roles.len(), |i: int| true) },
        ..d
    }
}

/// Replace the site selector's entries; the first one becomes current.
pub open spec fn with_sites(d: DialogView, sites: Seq<Seq<char>>) -> DialogView {
    DialogView { sites: ComboBoxView { items: sites, current: 0 }, ..d }
}

/// Replace the stored level table; no selector changes by itself.
pub open spec fn with_levels_map(d: DialogView, levels: Seq<LevelEntryView>) -> DialogView {
    DialogView { levels, ..d }
}

/// Repopulate the sequence selector with the placeholder followed by the
/// given sequence names, and reset the shot selector to its placeholder.
pub open spec fn with_levels(d: DialogView, sequences: Seq<Seq<char>>) -> DialogView {
    DialogView {
        seqs: ComboBoxView { items: seq![seq_placeholder()] + sequences, current: 0 },
        shots: ComboBoxView { items: seq![shot_placeholder()], current: 0 },
        ..d
    }
}

/// Repopulate the sequence selector from the stored level table's keys.
pub open spec fn with_levels_alt(d: DialogView) -> DialogView {
    with_levels(d, keys_of(d.levels))
}

/// Empty the shot selector outright (not even the placeholder stays).
pub open spec fn with_cleared_shots(d: DialogView) -> DialogView {
    DialogView { shots: ComboBoxView { items: Seq::empty(), current: 0 }, ..d }
}

/// What the shot selector shows for a sequence name: the placeholder, then
/// the stored shots of that sequence; a name with no entry contributes none.
pub open spec fn shots_contents_for(levels: Seq<LevelEntryView>, sequence: Seq<char>) -> Seq<
    Seq<char>,
> {
    match get_of(levels, sequence) {
        Some(shots) => seq![shot_placeholder()] + shots,
        None => seq![shot_placeholder()],
    }
}

/// Repopulate the shot selector for the given sequence name.
pub open spec fn with_shots_for_seq(d: DialogView, sequence: Seq<char>) -> DialogView {
    DialogView {
        shots: ComboBoxView { items: shots_contents_for(d.levels, sequence), current: 0 },
        ..d
    }
}

/// The cascade on a sequence selection: position `at` becomes current; the
/// placeholder position resets the shot selector to its placeholder alone,
/// any other position refills it from the stored table under that entry's
/// text.
pub open spec fn after_select_sequence(d: DialogView, at: int) -> DialogView {
    if at == 0 {
        DialogView {
            seqs: ComboBoxView { items: d.seqs.items, current: 0 },
            shots: ComboBoxView { items: seq![shot_placeholder()], current: 0 },
            ..d
        }
    } else {
        DialogView {
            seqs: ComboBoxView { items: d.seqs.items, current: at },
            shots: ComboBoxView {
                items: shots_contents_for(d.levels, d.seqs.items[at]),
                current: 0,
            },
            ..d
        }
    }
}

/// Move the shot selector's current position.
pub open spec fn with_selected_shot(d: DialogView, at: int) -> DialogView {
    DialogView { shots: ComboBoxView { items: d.shots.items, current: at }, ..d }
}

/// Move the site selector's current position.
pub open spec fn with_selected_site(d: DialogView, at: int) -> DialogView {
    DialogView { sites: ComboBoxView { items: d.sites.items, current: at }, ..d }
}

/// The cascade on the role checkbox: checking it enables the role list and
/// its filter and asks for focus on the list; unchecking disables both and
/// drops the focus request.
pub open spec fn with_roles_checked(d: DialogView, checked: bool) -> DialogView {
    DialogView {
        roles_checked: checked,
        roles_enabled: checked,
        focus: if checked {
            FocusTarget::RolesList
        } else {
            FocusTarget::Cleared
        },
        ..d
    }
}

/// Highlight or unhighlight one role list entry.
pub open spec fn with_role_selected(d: DialogView, at: int, selected: bool) -> DialogView {
    DialogView {
        roles: RoleListView {
            items: d.roles.items,
            selected: d.roles.selected.update(at, selected),
        },
        ..d
    }
}

/// Ask for focus on the role filter.
pub open spec fn with_roles_focus(d: DialogView) -> DialogView {
    DialogView { focus: FocusTarget::RolesFilter, ..d }
}

/// Confirm the dialog.
pub open spec fn accepted(d: DialogView) -> DialogView {
    DialogView { result_code: accepted_code(), ..d }
}

/// Dismiss the dialog.
pub open spec fn closed(d: DialogView) -> DialogView {
    DialogView { result_code: rejected_code(), ..d }
}

/// The roles read back after confirmation: nothing at all while the checkbox
/// is unchecked (meaning "apply to any role"), otherwise exactly the
/// highlighted entries — possibly none of them, which means "no roles" and
/// is distinct from the unchecked case.
pub open spec fn spec_selected_roles(d: DialogView) -> Option<Seq<Seq<char>>> {
    if d.roles_checked {
        Some(d.roles.selected_texts())
    } else {
        None
    }
}

/// The site read back: the site selector's current text.
pub open spec fn spec_selected_site(d: DialogView) -> Seq<char> {
    d.sites.current_text()
}

/// The level read back: nothing while the sequence selector sits at its
/// placeholder; otherwise `show.sequence`, extended to `show.sequence.shot`
/// when the shot selector sits beyond its placeholder.
pub open spec fn spec_selected_level(d: DialogView) -> Option<Seq<char>> {
    if d.seqs.current == 0 {
        None
    } else {
        let base = d.show + "."@ + d.seqs.items[d.seqs.current];
        if d.shots.current > 0 {
            Some(base + "."@ + d.shots.items[d.shots.current])
        } else {
            Some(base)
        }
    }
}

/// Replacing the role list highlights every new entry, so with the role
/// checkbox checked the read-back returns exactly the given role names — as
/// a sequence, and so as a set.
pub proof fn lemma_set_roles_reads_back(d: DialogView, roles: Seq<Seq<char>>)
    requires
        d.roles_checked,
    ensures
        spec_selected_roles(with_roles(d, roles)) == Some(roles),
        spec_selected_roles(with_roles(d, roles))->0.to_set() == roles.to_set(),
{
    lemma_picked_all_selected(roles, roles.len() as int);
    assert(roles.take(roles.len() as int) =~= roles);
}

/// Choosing a sequence that the level table knows fills the shot selector
/// with exactly the placeholder followed by that sequence's stored shots, in
/// stored order, and leaves the selector at the placeholder.
pub proof fn lemma_select_sequence_fills_shots(d: DialogView, at: int)
    requires
        1 <= at < d.seqs.items.len(),
        has_key(d.levels, d.seqs.items[at]),
    ensures
        after_select_sequence(d, at).shots.items == seq![shot_placeholder()] + get_of(
            d.levels,
            d.seqs.items[at],
        )->0,
        after_select_sequence(d, at).shots.current == 0,
        after_select_sequence(d, at).seqs.current == at,
{
}

/// Filling the sequence selector from a level table with unique keys and
/// then choosing the entry standing for the table's key at position `at`
/// fills the shot selector with the placeholder followed by exactly that
/// key's stored shots, in stored order.
pub proof fn lemma_select_listed_sequence(d: DialogView, at: int)
    requires
        crate::level_map::distinct_keys(d.levels),
        0 <= at < d.levels.len(),
    ensures
        ({
            let d2 = after_select_sequence(with_levels_alt(d), at + 1);
            &&& d2.seqs.items[at + 1] == d.levels[at].0
            &&& d2.shots.items == seq![shot_placeholder()] + d.levels[at].1
            &&& d2.shots.current == 0
        }),
{
    crate::level_map::lemma_get_of_at_key(d.levels, at);
    assert(with_levels_alt(d).seqs.items[at + 1] == keys_of(d.levels)[at]);
}

/// Choosing the sequence placeholder resets the shot selector to the
/// placeholder alone, whatever the dialog showed before, and doing it again
/// changes nothing more.
pub proof fn lemma_select_placeholder_resets_shots(d: DialogView)
    ensures
        after_select_sequence(d, 0).shots.items == seq![shot_placeholder()],
        after_select_sequence(d, 0).shots.current == 0,
        after_select_sequence(d, 0).seqs.current == 0,
        after_select_sequence(after_select_sequence(d, 0), 0) == after_select_sequence(d, 0),
{
    assert(after_select_sequence(after_select_sequence(d, 0), 0) =~~= after_select_sequence(d, 0));
}

/// While the sequence selector sits at its placeholder no level is read
/// back, whatever the show name, the level table and the rest of the state.
pub proof fn lemma_no_level_at_placeholder(d: DialogView)
    requires
        d.seqs.current == 0,
    ensures
        spec_selected_level(d) is None,
{
}

} // verus!
