use vstd::prelude::*;

use crate::event::Key;

verus! {

/// The shared keybinding configuration: the key designated for the
/// clipboard copy, the keys designated for the four tab switches, and
/// the label text shown for each tab command.
pub struct KeyConfig {
    pub copy: Key,
    pub tab_columns: Key,
    pub tab_constraints: Key,
    pub tab_foreign_keys: Key,
    pub tab_indexes: Key,
    pub columns_label: String,
    pub constraints_label: String,
    pub foreign_keys_label: String,
    pub indexes_label: String,
    pub toggle_tabs_label: String,
}

} // verus!
