use vstd::prelude::*;

use crate::database::{Database, Table};
use crate::event::{EventState, Key};

verus! {

/// The tabular sub-view behind one metadata tab: a header, the display
/// rows beneath it, the identity of the table the rows belong to, and a
/// single-cell selection.
pub struct TableComponent {
    pub header: Vec<String>,
    pub rows: Vec<Vec<String>>,
    pub database: Option<String>,
    pub table: Option<String>,
    pub selected_row: Option<usize>,
    pub selected_column: usize,
}

impl TableComponent {
    /// Well-formedness: every row has the header's arity, a selection
    /// exists exactly when there are rows, and the selection stays in
    /// range.
    pub open spec fn wf(&self) -> bool {
        &&& forall|i: int|
            0 <= i < self.rows.len() ==> (#[trigger] self.rows[i])@.len() == self.header@.len()
        &&& (self.rows@.len() == 0 <==> self.selected_row is None)
        &&& (self.selected_row matches Some(r) ==> r < self.rows@.len())
        &&& (self.header@.len() > 0 ==> self.selected_column < self.header@.len())
        &&& (self.header@.len() == 0 ==> self.selected_column == 0)
    }

    /// The cleared state: no rows, no header, no table identity, no
    /// selection.
    pub open spec fn is_reset(&self) -> bool {
        &&& self.header@.len() == 0
        &&& self.rows@.len() == 0
        &&& self.database is None
        &&& self.table is None
        &&& self.selected_row is None
        &&& self.selected_column == 0
    }

    /// The state a completed refresh leaves a sub-view in for one
    /// (database, table) pair: cleared, or fully populated with that
    /// table's identity and the selection back on the first cell.
    pub open spec fn fresh_for(&self, database: &Database, table: &Table) -> bool {
        self.is_reset() || (self.rows@.len() > 0 && self.database == Some(database.name)
            && self.table == Some(table.name) && self.selected_row == Some(0usize)
            && self.selected_column == 0)
    }

    /// The text of the currently selected cell, if a cell is selected.
    pub open spec fn selection_text(&self) -> Option<String> {
        match self.selected_row {
            Some(r) => if r < self.rows@.len() && self.selected_column < self.rows@[r as int]@.len() {
                Some(self.rows@[r as int]@[self.selected_column as int])
            } else {
                None
            },
            None => None,
        }
    }

    /// The state after one key press: the arrow keys move the selection
    /// within bounds; every other key leaves the view unchanged.
    pub open spec fn after_event(self, key: Key) -> Self {
        match self.selected_row {
            None => self,
            Some(r) => match key {
                Key::Down => if r + 1 < self.rows@.len() {
                    Self { selected_row: Some((r + 1) as usize), ..self }
                } else {
                    self
                },
                Key::Up => if r > 0 {
                    Self { selected_row: Some((r - 1) as usize), ..self }
                } else {
                    self
                },
                Key::Right => if self.selected_column + 1 < self.header@.len() {
                    Self { selected_column: (self.selected_column + 1) as usize, ..self }
                } else {
                    self
                },
                Key::Left => if self.selected_column > 0 {
                    Self { selected_column: (self.selected_column - 1) as usize, ..self }
                } else {
                    self
                },
                _ => self,
            },
        }
    }

    /// Whether one key press is claimed by the view: the arrow keys are,
    /// whenever any row is shown.
    pub open spec fn consumes(self, key: Key) -> bool {
        self.selected_row is Some && (key == Key::Down || key == Key::Up || key == Key::Right
            || key == Key::Left)
    }

    /// A fresh, empty sub-view.
    pub fn new() -> (r: Self)
        ensures
            r.is_reset(),
            r.wf(),
    {
        TableComponent {
            header: Vec::new(),
            rows: Vec::new(),
            database: None,
            table: None,
            selected_row: None,
            selected_column: 0,
        }
    }

    /// Clear the view back to the empty state.
    pub fn reset(&mut self)
        ensures
            final(self).is_reset(),
            final(self).wf(),
    {
        self.header = Vec::new();
        self.rows = Vec::new();
        self.database = None;
        self.table = None;
        self.selected_row = None;
        self.selected_column = 0;
    }

    /// Replace the view's contents with freshly fetched rows, the header
    /// they share, and the identity of the table they describe. The
    /// selection restarts at the first cell.
    pub fn update(
        &mut self,
        rows: Vec<Vec<String>>,
        header: Vec<String>,
        database: &Database,
        table: &Table,
    )
        requires
            forall|i: int| 0 <= i < rows.len() ==> (#[trigger] rows[i])@.len() == header@.len(),
        ensures
            final(self).rows == rows,
            final(self).header == header,
            final(self).database == Some(database.name),
            final(self).table == Some(table.name),
            final(self).selected_row == (if rows@.len() > 0 {
                Some(0usize)
            } else {
                None::<usize>
            }),
            final(self).selected_column == 0,
            final(self).wf(),
    {
        self.selected_row = if rows.len() > 0 {
            Some(0)
        } else {
            None
        };
        self.selected_column = 0;
        self.rows = rows;
        self.header = header;
        self.database = Some(database.name.clone());
        self.table = Some(table.name.clone());
    }

    /// The text of the selected cell, cloned out for the caller.
    pub fn selected_cells(&self) -> (r: Option<String>)
        requires
            self.wf(),
        ensures
            r == self.selection_text(),
    {
        match self.selected_row {
            Some(r) => {
                let row = &self.rows[r];
                if self.selected_column < row.len() {
                    Some(row[self.selected_column].clone())
                } else {
                    None
                }
            },
            None => None,
        }
    }

    /// Let the view react to one key press: the arrow keys move the
    /// selection and are consumed; everything else is left to the caller.
    pub fn event(&mut self, key: Key) -> (r: EventState)
        requires
            old(self).wf(),
        ensures
            *final(self) == old(self).after_event(key),
            final(self).wf(),
            r == (if old(self).consumes(key) {
                EventState::Consumed
            } else {
                EventState::NotConsumed
            }),
    {
        let sel = self.selected_row;
        let row_count: usize = self.rows.len();
        let header_len: usize = self.header.len();
        match sel {
            None => EventState::NotConsumed,
            Some(r) => match key {
                Key::Down => {
                    if r + 1 < row_count {
                        self.selected_row = Some(r + 1);
                    }
                    EventState::Consumed
                },
                Key::Up => {
                    if r > 0 {
                        self.selected_row = Some(r - 1);
                    }
                    EventState::Consumed
                },
                Key::Right => {
                    if self.selected_column + 1 < header_len {
                        self.selected_column = self.selected_column + 1;
                    }
                    EventState::Consumed
                },
                Key::Left => {
                    if self.selected_column > 0 {
                        self.selected_column = self.selected_column - 1;
                    }
                    EventState::Consumed
                },
                _ => EventState::NotConsumed,
            },
        }
    }
}

} // verus!
