use operations_tabs::command::CommandInfo;
use operations_tabs::config::KeyConfig;
use operations_tabs::database::{Database, MetadataRecord, Pool, ProviderError, Table};
use operations_tabs::event::{EventState, Key};
use operations_tabs::operations::{Focus, OperationsComponent};

fn event_config() -> KeyConfig {
    KeyConfig {
        copy: Key::Char('y'),
        tab_columns: Key::Char('1'),
        tab_constraints: Key::Char('2'),
        tab_foreign_keys: Key::Char('3'),
        tab_indexes: Key::Char('4'),
        columns_label: "Columns [1]".to_string(),
        constraints_label: "Constraints [2]".to_string(),
        foreign_keys_label: "Foreign Keys [3]".to_string(),
        indexes_label: "Indexes [4]".to_string(),
        toggle_tabs_label: "toggle property tabs".to_string(),
    }
}

struct ColumnsOnlyPool;

impl Pool for ColumnsOnlyPool {
    fn get_columns(&self, _d: &Database, _t: &Table) -> Result<Vec<MetadataRecord>, ProviderError> {
        Ok(vec![
            MetadataRecord {
                fields: vec!["name".to_string(), "type".to_string()],
                cells: vec!["id".to_string(), "integer".to_string()],
            },
            MetadataRecord {
                fields: vec!["name".to_string(), "type".to_string()],
                cells: vec!["email".to_string(), "text".to_string()],
            },
        ])
    }
    fn get_constraints(
        &self,
        _d: &Database,
        _t: &Table,
    ) -> Result<Vec<MetadataRecord>, ProviderError> {
        Ok(vec![])
    }
    fn get_foreign_keys(
        &self,
        _d: &Database,
        _t: &Table,
    ) -> Result<Vec<MetadataRecord>, ProviderError> {
        Ok(vec![])
    }
    fn get_indexes(&self, _d: &Database, _t: &Table) -> Result<Vec<MetadataRecord>, ProviderError> {
        Ok(vec![])
    }
}

#[test]
fn initial_focus_is_columns_tab() {
    let ops = OperationsComponent::new(event_config());
    assert_eq!(ops.focus, Focus::ColumnsTab);
}

#[test]
fn switch_to_indexes_from_any_prior_focus() {
    for start in [Key::Char('1'), Key::Char('2'), Key::Char('3'), Key::Char('4')] {
        let mut ops = OperationsComponent::new(event_config());
        ops.event(start);
        let resp = ops.event(Key::Char('4'));
        assert_eq!(ops.focus, Focus::IndexesTab);
        assert_eq!(resp.state, EventState::NotConsumed);
    }
}

#[test]
fn each_tab_switch_key_moves_the_focus() {
    let mut ops = OperationsComponent::new(event_config());
    ops.event(Key::Char('2'));
    assert_eq!(ops.focus, Focus::ConstraintsTab);
    ops.event(Key::Char('3'));
    assert_eq!(ops.focus, Focus::ForeignKeysTab);
    ops.event(Key::Char('1'));
    assert_eq!(ops.focus, Focus::ColumnsTab);
    ops.event(Key::Char('4'));
    assert_eq!(ops.focus, Focus::IndexesTab);
}

#[test]
fn unbound_key_changes_nothing_and_is_not_consumed() {
    let mut ops = OperationsComponent::new(event_config());
    let resp = ops.event(Key::Esc);
    assert_eq!(ops.focus, Focus::ColumnsTab);
    assert_eq!(resp.state, EventState::NotConsumed);
    assert_eq!(resp.copy_request, None);
}

#[test]
fn copy_with_selection_requests_one_clipboard_write() {
    let mut ops = OperationsComponent::new(event_config());
    let db = Database { name: "app_db".to_string() };
    let tbl = Table { name: "users".to_string() };
    ops.update(&db, &tbl, &ColumnsOnlyPool).unwrap();
    let resp = ops.event(Key::Char('y'));
    assert_eq!(resp.copy_request, Some("id".to_string()));
    assert_eq!(resp.state, EventState::NotConsumed);
    assert_eq!(ops.focus, Focus::ColumnsTab);
}

#[test]
fn copy_without_selection_requests_nothing() {
    let mut ops = OperationsComponent::new(event_config());
    let db = Database { name: "app_db".to_string() };
    let tbl = Table { name: "users".to_string() };
    ops.update(&db, &tbl, &ColumnsOnlyPool).unwrap();
    // the constraints tab ended the refresh empty, so it has no selection
    ops.event(Key::Char('2'));
    let resp = ops.event(Key::Char('y'));
    assert_eq!(resp.copy_request, None);
}

#[test]
fn arrow_keys_move_the_focused_selection() {
    let mut ops = OperationsComponent::new(event_config());
    let db = Database { name: "app_db".to_string() };
    let tbl = Table { name: "users".to_string() };
    ops.update(&db, &tbl, &ColumnsOnlyPool).unwrap();
    assert_eq!(ops.columns.selected_row, Some(0));
    ops.event(Key::Down);
    assert_eq!(ops.columns.selected_row, Some(1));
    ops.event(Key::Down);
    assert_eq!(ops.columns.selected_row, Some(1));
    ops.event(Key::Right);
    assert_eq!(ops.columns.selected_column, 1);
    let resp = ops.event(Key::Char('y'));
    assert_eq!(resp.copy_request, Some("text".to_string()));
    ops.event(Key::Up);
    ops.event(Key::Left);
    assert_eq!(ops.columns.selected_row, Some(0));
    assert_eq!(ops.columns.selected_column, 0);
}

#[test]
fn sub_view_consumes_arrow_keys_only_when_it_shows_rows() {
    let mut ops = OperationsComponent::new(event_config());
    let db = Database { name: "app_db".to_string() };
    let tbl = Table { name: "users".to_string() };
    ops.update(&db, &tbl, &ColumnsOnlyPool).unwrap();
    assert_eq!(ops.columns.event(Key::Down), EventState::Consumed);
    assert_eq!(ops.columns.event(Key::Enter), EventState::NotConsumed);
    // the constraints view is empty, so it claims nothing
    assert_eq!(ops.constraints.event(Key::Down), EventState::NotConsumed);
}

#[test]
fn tab_names_follow_the_configuration() {
    let ops = OperationsComponent::new(event_config());
    let names = ops.tab_names();
    assert_eq!(names.len(), 4);
    assert_eq!(names[0].0, Focus::ColumnsTab);
    assert_eq!(names[0].1, "Columns [1]");
    assert_eq!(names[1].0, Focus::ConstraintsTab);
    assert_eq!(names[1].1, "Constraints [2]");
    assert_eq!(names[2].0, Focus::ForeignKeysTab);
    assert_eq!(names[2].1, "Foreign Keys [3]");
    assert_eq!(names[3].0, Focus::IndexesTab);
    assert_eq!(names[3].1, "Indexes [4]");
}

#[test]
fn commands_appends_the_one_advertised_command() {
    let ops = OperationsComponent::new(event_config());
    let mut out: Vec<CommandInfo> = Vec::new();
    ops.commands(&mut out);
    assert_eq!(out.len(), 1);
    assert_eq!(out[0].name, "toggle property tabs");
}
