//! A version-pin selection dialog, modelled as a verified state machine.
//!
//! The dialog lets an operator pick publishing metadata before confirming a
//! version-pin action: an optional set of roles, a sequence/shot pair (the
//! "level"), and a site.  The dialog state — the contents and current
//! selection of each selector, the role checkbox, and the sequence-to-shots
//! lookup table — lives in [`vpin_dialog::VpinDialog`], and every transition
//! and read-back carries a contract.  A GUI front end owns the widgets and
//! forwards each user event to the corresponding method here, then repaints
//! the widgets from the state it gets back.

pub mod cascade;
pub mod level_map;
pub mod text;
pub mod vpin_dialog;
pub mod widgets;

pub use cascade::FocusTarget;
pub use level_map::LevelMap;
pub use vpin_dialog::VpinDialog;
pub use widgets::ComboBoxState;
pub use widgets::RoleListState;
