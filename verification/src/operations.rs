use vstd::prelude::*;

use crate::command::CommandInfo;
use crate::config::KeyConfig;
use crate::database::{cells_of, coherent, Database, MetadataRecord, Pool, ProviderError, Table};
use crate::event::{EventState, Key};
use crate::table::TableComponent;

verus! {

/// Which of the four metadata tabs is active. Exactly one is, at every
/// moment; the widget starts on the columns tab and cycles for its whole
/// lifetime.
#[derive(Clone, Copy, PartialEq, Eq, Structural, Debug)]
pub enum Focus {
    ColumnsTab,
    ConstraintsTab,
    ForeignKeysTab,
    IndexesTab,
}

/// What the event router decided for one key press: whether the widget
/// claims the key (it never does), and the text that is to be handed to
/// the clipboard, if the key was the copy shortcut and a cell was
/// selected.
pub struct EventResponse {
    pub state: EventState,
    pub copy_request: Option<String>,
}

/// The focus that results from routing one key press through the
/// shortcut chain: the copy shortcut is checked first and leaves the
/// focus alone; then the four tab switches, in the fixed tab order; any
/// other key changes nothing.
pub open spec fn route_focus(cfg: KeyConfig, key: Key, focus: Focus) -> Focus {
    if key == cfg.copy {
        focus
    } else if key == cfg.tab_columns {
        Focus::ColumnsTab
    } else if key == cfg.tab_constraints {
        Focus::ConstraintsTab
    } else if key == cfg.tab_foreign_keys {
        Focus::ForeignKeysTab
    } else if key == cfg.tab_indexes {
        Focus::IndexesTab
    } else {
        focus
    }
}

/// Law: routing the designated switch-to-indexes key always lands on the
/// indexes tab, whatever tab was focused before, as long as that key is
/// not also bound to a shortcut that the router checks earlier.
pub proof fn lemma_switch_to_indexes(cfg: KeyConfig, key: Key, focus: Focus)
    requires
        key == cfg.tab_indexes,
        key != cfg.copy,
        key != cfg.tab_columns,
        key != cfg.tab_constraints,
        key != cfg.tab_foreign_keys,
    ensures
        route_focus(cfg, key, focus) == Focus::IndexesTab,
{
}

/// Turn one fetched batch into the sub-view's rows and their shared
/// header: each record contributes its cells as one row, and the first
/// record's field names become the header.
fn rows_and_header(records: Vec<MetadataRecord>) -> (r: (Vec<Vec<String>>, Vec<String>))
    requires
        records@.len() > 0,
    ensures
        r.0@ == cells_of(records@),
        r.1 == records@[0].fields,
{
    let mut remaining = records;
    let mut rows: Vec<Vec<String>> = Vec::new();
    let first = remaining.remove(0);
    let header = first.fields;
    rows.push(first.cells);
    while remaining.len() > 0
        invariant
            1 <= rows@.len() <= records@.len(),
            remaining@ =~= records@.subrange(rows@.len() as int, records@.len() as int),
            rows@ =~= cells_of(records@.subrange(0, rows@.len() as int)),
        decreases remaining@.len(),
    {
        let rec = remaining.remove(0);
        rows.push(rec.cells);
    }
    proof {
        assert(records@.subrange(0, records@.len() as int) =~= records@);
        assert(rows@ =~= cells_of(records@));
    }
    (rows, header)
}

/// Refresh one tab from the outcome of its provider query: the sub-view
/// is cleared first; a non-empty batch then fully replaces its contents,
/// an empty batch leaves it cleared, and a failed fetch leaves it
/// cleared and surfaces the error.
pub fn refresh_one(
    view: &mut TableComponent,
    fetched: Result<Vec<MetadataRecord>, ProviderError>,
    database: &Database,
    table: &Table,
) -> (r: Result<(), ProviderError>)
    requires
        fetched matches Ok(records) ==> coherent(records@),
    ensures
        fetched matches Err(e) ==> r == Result::<(), ProviderError>::Err(e)
            && final(view).is_reset(),
        fetched matches Ok(records) ==> (records@.len() == 0 ==> r is Ok
            && final(view).is_reset()),
        fetched matches Ok(records) ==> (records@.len() > 0 ==> r is Ok
            && final(view).rows@ == cells_of(records@)
            && final(view).header == records@[0].fields
            && final(view).database == Some(database.name)
            && final(view).table == Some(table.name)
            && final(view).selected_row == Some(0usize)
            && final(view).selected_column == 0),
        final(view).wf(),
{
    view.reset();
    match fetched {
        Err(e) => Err(e),
        Ok(records) => {
            if records.len() == 0 {
                Ok(())
            } else {
                let ghost recs = records@;
                let (rows, header) = rows_and_header(records);
                proof {
                    assert forall|i: int| 0 <= i < rows@.len() implies (#[trigger] rows@[i])@.len()
                        == header@.len() by {
                        assert(rows@[i] == recs[i].cells);
                        assert(recs[i].wf());
                        assert(recs[i].fields@ == recs[0].fields@);
                    }
                }
                view.update(rows, header, database, table);
                Ok(())
            }
        },
    }
}

/// The widget that presents the four kinds of table metadata as
/// switchable tabs: one tabular sub-view per kind, the focus naming the
/// active one, and the shared keybinding configuration.
pub struct OperationsComponent {
    pub columns: TableComponent,
    pub constraints: TableComponent,
    pub foreign_keys: TableComponent,
    pub indexes: TableComponent,
    pub focus: Focus,
    pub key_config: KeyConfig,
}

impl OperationsComponent {
    /// All four owned sub-views are well formed.
    pub open spec fn wf(&self) -> bool {
        &&& self.columns.wf()
        &&& self.constraints.wf()
        &&& self.foreign_keys.wf()
        &&& self.indexes.wf()
    }

    /// The sub-view that a focus value names.
    pub open spec fn view_of(self, focus: Focus) -> TableComponent {
        match focus {
            Focus::ColumnsTab => self.columns,
            Focus::ConstraintsTab => self.constraints,
            Focus::ForeignKeysTab => self.foreign_keys,
            Focus::IndexesTab => self.indexes,
        }
    }

    /// The widget with the sub-view that a focus value names replaced.
    pub open spec fn with_view(self, focus: Focus, view: TableComponent) -> Self {
        match focus {
            Focus::ColumnsTab => Self { columns: view, ..self },
            Focus::ConstraintsTab => Self { constraints: view, ..self },
            Focus::ForeignKeysTab => Self { foreign_keys: view, ..self },
            Focus::IndexesTab => Self { indexes: view, ..self },
        }
    }

    /// A fresh widget: four empty sub-views, the focus on the columns
    /// tab.
    pub fn new(key_config: KeyConfig) -> (r: Self)
        ensures
            r.focus == Focus::ColumnsTab,
            r.key_config == key_config,
            r.columns.is_reset() && r.constraints.is_reset() && r.foreign_keys.is_reset()
                && r.indexes.is_reset(),
            r.wf(),
    {
        OperationsComponent {
            columns: TableComponent::new(),
            constraints: TableComponent::new(),
            foreign_keys: TableComponent::new(),
            indexes: TableComponent::new(),
            focus: Focus::ColumnsTab,
            key_config,
        }
    }

    /// The sub-view that currently has the focus; rendering and event
    /// routing go through it and through no other.
    pub fn focused_component(&mut self) -> (r: &mut TableComponent)
        ensures
            *r == old(self).view_of(old(self).focus),
            *final(self) == old(self).with_view(old(self).focus, *final(r)),
    {
        match self.focus {
            Focus::ColumnsTab => &mut self.columns,
            Focus::ConstraintsTab => &mut self.constraints,
            Focus::ForeignKeysTab => &mut self.foreign_keys,
            Focus::IndexesTab => &mut self.indexes,
        }
    }

    /// Refresh all four tabs for one (database, table) pair: each kind is
    /// cleared and, when its query returns records, repopulated. The
    /// first failed query aborts the refresh and is surfaced; kinds
    /// already refreshed keep their new state, kinds not yet reached keep
    /// their old one.
    pub fn update<P: Pool>(&mut self, database: &Database, table: &Table, pool: &P) -> (r: Result<
        (),
        ProviderError,
    >)
        requires
            old(self).wf(),
        ensures
            final(self).wf(),
            final(self).focus == old(self).focus,
            final(self).key_config == old(self).key_config,
            final(self).columns.fresh_for(database, table),
            final(self).constraints.fresh_for(database, table) || (r is Err
                && final(self).constraints == old(self).constraints),
            final(self).foreign_keys.fresh_for(database, table) || (r is Err
                && final(self).foreign_keys == old(self).foreign_keys),
            final(self).indexes.fresh_for(database, table) || (r is Err && final(self).indexes
                == old(self).indexes),
            r is Ok ==> final(self).constraints.fresh_for(database, table)
                && final(self).foreign_keys.fresh_for(database, table)
                && final(self).indexes.fresh_for(database, table),
    {
        match refresh_one(&mut self.columns, pool.get_columns(database, table), database, table) {
            Err(e) => {
                return Err(e);
            },
            Ok(_) => {},
        }
        match refresh_one(
            &mut self.constraints,
            pool.get_constraints(database, table),
            database,
            table,
        ) {
            Err(e) => {
                return Err(e);
            },
            Ok(_) => {},
        }
        match refresh_one(
            &mut self.foreign_keys,
            pool.get_foreign_keys(database, table),
            database,
            table,
        ) {
            Err(e) => {
                return Err(e);
            },
            Ok(_) => {},
        }
        match refresh_one(&mut self.indexes, pool.get_indexes(database, table), database, table) {
            Err(e) => {
                return Err(e);
            },
            Ok(_) => {},
        }
        Ok(())
    }

    /// The four tab headings, in the fixed tab order, each paired with
    /// the focus value it stands for; the label text comes from the
    /// shared keybinding configuration.
    pub fn tab_names(&self) -> (r: Vec<(Focus, String)>)
        ensures
            r@.len() == 4,
            r@[0] == (Focus::ColumnsTab, self.key_config.columns_label),
            r@[1] == (Focus::ConstraintsTab, self.key_config.constraints_label),
            r@[2] == (Focus::ForeignKeysTab, self.key_config.foreign_keys_label),
            r@[3] == (Focus::IndexesTab, self.key_config.indexes_label),
    {
        let mut names: Vec<(Focus, String)> = Vec::new();
        names.push((Focus::ColumnsTab, self.key_config.columns_label.clone()));
        names.push((Focus::ConstraintsTab, self.key_config.constraints_label.clone()));
        names.push((Focus::ForeignKeysTab, self.key_config.foreign_keys_label.clone()));
        names.push((Focus::IndexesTab, self.key_config.indexes_label.clone()));
        names
    }

    /// Append the one command this widget advertises to the shell's
    /// command/help surface; the four individual tab switches are not
    /// enumerated there.
    pub fn commands(&self, out: &mut Vec<CommandInfo>)
        ensures
            final(out)@ == old(out)@.push(CommandInfo { name: self.key_config.toggle_tabs_label }),
    {
        out.push(CommandInfo { name: self.key_config.toggle_tabs_label.clone() });
    }

    /// Route one key press: the focused sub-view sees it first and may
    /// move its selection; the copy shortcut then asks for the selected
    /// cell's text to be handed to the clipboard; otherwise a tab-switch
    /// shortcut moves the focus. The widget itself never claims the key.
    pub fn event(&mut self, key: Key) -> (r: EventResponse)
        requires
            old(self).wf(),
        ensures
            final(self).wf(),
            r.state == EventState::NotConsumed,
            final(self).view_of(old(self).focus) == old(self).view_of(old(self).focus).after_event(
                key,
            ),
            final(self).focus == route_focus(old(self).key_config, key, old(self).focus),
            final(self).key_config == old(self).key_config,
            forall|f: Focus|
                f != old(self).focus ==> final(self).view_of(f) == old(self).view_of(f),
            r.copy_request == (if key == old(self).key_config.copy {
                old(self).view_of(old(self).focus).after_event(key).selection_text()
            } else {
                Option::<String>::None
            }),
    {
        let view = self.focused_component();
        let _consumed = view.event(key);
        let copy_request: Option<String> = if key == self.key_config.copy {
            self.focused_component().selected_cells()
        } else {
            None
        };
        if key == self.key_config.copy {
            // the copy shortcut never switches tabs
        } else if key == self.key_config.tab_columns {
            self.focus = Focus::ColumnsTab;
        } else if key == self.key_config.tab_constraints {
            self.focus = Focus::ConstraintsTab;
        } else if key == self.key_config.tab_foreign_keys {
            self.focus = Focus::ForeignKeysTab;
        } else if key == self.key_config.tab_indexes {
            self.focus = Focus::IndexesTab;
        }
        EventResponse { state: EventState::NotConsumed, copy_request }
    }
}

} // verus!
