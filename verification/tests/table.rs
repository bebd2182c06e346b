use deferred_table::drag::{
    handle_cursor, DragHandleState, DragKind, DragState, HandleCursor, HandleInput, HandleOutcome,
};
use deferred_table::frame::FrameGeometry;
use deferred_table::geometry::{CellSize, Padding, Position, Rect, Viewport};
use deferred_table::grid::{HeaderCell, ValueCell};
use deferred_table::index::{Action, CellIndex, CellKind, TableDimensions};
use deferred_table::sizing::{AxisParameters, AxisSizingStore};
use deferred_table::source::{snapshot, DeferredTableDataSource};
use deferred_table::table::{
    click_value, content_size, drag_header, drop_on_header, finish, header_fill, layout,
    pointer_released, CellFill,
    DeferredTable, DeferredTablePersistentState, DeferredTableTempState, DragAction,
    FrameInteraction, HeaderText, DEFAULT_MINIMUM_HEIGHT, DEFAULT_MINIMUM_WIDTH,
};

struct Sheet {
    rows: usize,
    columns: usize,
    column_ordering: Option<Vec<usize>>,
    rows_to_filter: Option<Vec<usize>>,
    columns_to_filter: Option<Vec<usize>>,
    prepared: usize,
    finalized: usize,
}

impl Sheet {
    fn new(columns: usize, rows: usize) -> Self {
        Sheet {
            rows,
            columns,
            column_ordering: None,
            rows_to_filter: None,
            columns_to_filter: None,
            prepared: 0,
            finalized: 0,
        }
    }
}

impl DeferredTableDataSource for Sheet {
    fn prepare(&mut self) {
        self.prepared += 1;
    }

    fn finalize(&mut self) {
        self.finalized += 1;
    }

    fn get_dimensions(&self) -> TableDimensions {
        TableDimensions { row_count: self.rows, column_count: self.columns }
    }

    fn rows_to_filter(&self) -> Option<&[usize]> {
        self.rows_to_filter.as_deref()
    }

    fn columns_to_filter(&self) -> Option<&[usize]> {
        self.columns_to_filter.as_deref()
    }

    fn column_ordering(&self) -> Option<&[usize]> {
        self.column_ordering.as_deref()
    }
}

struct Bare {}

impl DeferredTableDataSource for Bare {
    fn get_dimensions(&self) -> TableDimensions {
        TableDimensions { row_count: 1, column_count: 1 }
    }
}

fn geometry() -> FrameGeometry {
    FrameGeometry {
        cell_size: CellSize { width: 40, height: 18 },
        padding: Padding { x: 8, y: 3 },
        grab_radius: 5,
        viewport: Viewport { x: 0, y: 0, width: 200, height: 100 },
        content_origin: Position { x: 10, y: 20 },
        table_origin: Position { x: 10, y: 20 },
        clip: Rect { min_x: 0, min_y: 0, max_x: 1000, max_y: 1000 },
    }
}

fn header(kind: CellKind, data_index: usize, size: u32) -> HeaderCell {
    let nowhere = Rect { min_x: 0, min_y: 0, max_x: 1, max_y: 1 };
    HeaderCell {
        kind,
        grid_row: if kind == CellKind::RowHeader { data_index + 1 } else { 0 },
        grid_column: if kind == CellKind::ColumnHeader { data_index + 1 } else { 0 },
        data_index,
        size,
        rect: nowhere,
        clip: nowhere,
        inner_rect: nowhere,
        inner_clip: nowhere,
        handle: None,
        striped: false,
    }
}

fn value(row: usize, column: usize, striped: bool) -> ValueCell {
    let nowhere = Rect { min_x: 0, min_y: 0, max_x: 1, max_y: 1 };
    ValueCell {
        index: CellIndex { row, column },
        grid_row: row + 1,
        grid_column: column + 1,
        rect: nowhere,
        clip: nowhere,
        inner_rect: nowhere,
        inner_clip: nowhere,
        striped,
    }
}

#[test]
fn a_new_table_has_nothing_configured() {
    let table = DeferredTable::new();
    assert_eq!(table.default_cell_size, None);
    assert!(!table.zero_based_headers);
    assert!(!table.highlight_hovered_cell);
    assert_eq!(table.min_size, CellSize { width: 400, height: 200 });
    assert_eq!(
        table.min_size,
        CellSize { width: DEFAULT_MINIMUM_WIDTH, height: DEFAULT_MINIMUM_HEIGHT }
    );
    assert!(table.column_parameters.is_none());
    assert!(table.row_parameters.is_none());
}

#[test]
fn a_table_is_configured_step_by_step() {
    let columns = vec![AxisParameters::default().name("a".to_string())];
    let rows = vec![AxisParameters::default(), AxisParameters::default()];
    let table = DeferredTable::new()
        .default_cell_size(CellSize { width: 50, height: 25 })
        .zero_based_headers()
        .highlight_hovered_cell()
        .min_size(CellSize { width: 300, height: 100 })
        .column_parameters(&columns)
        .row_parameters(&rows);
    assert_eq!(table.default_cell_size, Some(CellSize { width: 50, height: 25 }));
    assert!(table.zero_based_headers);
    assert!(table.highlight_hovered_cell);
    assert_eq!(table.min_size, CellSize { width: 300, height: 100 });
    assert_eq!(table.column_parameters.map(|p| p.len()), Some(1));
    assert_eq!(table.row_parameters.map(|p| p.len()), Some(2));
    assert!(!table.one_based_headers().zero_based_headers);
    assert_eq!(
        table.parameters_of(CellKind::ColumnHeader).map(|p| p.len()),
        Some(1)
    );
    assert_eq!(table.parameters_of(CellKind::RowHeader).map(|p| p.len()), Some(2));
    assert!(table.parameters_of(CellKind::Corner).is_none());
    assert!(table.parameters_of(CellKind::Value).is_none());
}

#[test]
fn the_configured_cell_size_wins_over_the_chosen_one() {
    let chosen = CellSize { width: 60, height: 18 };
    assert_eq!(DeferredTable::new().cell_size(chosen), chosen);
    let configured = CellSize { width: 50, height: 25 };
    assert_eq!(DeferredTable::new().default_cell_size(configured).cell_size(chosen), configured);
}

#[test]
fn states_start_out_empty() {
    let state = DeferredTablePersistentState::default();
    assert_eq!(state.column_widths.len(), 0);
    assert_eq!(state.row_heights.len(), 0);
    let temp = DeferredTableTempState::default();
    assert_eq!(temp.cell_origin, CellIndex { row: 0, column: 0 });
    assert_eq!(temp.drag_state, None);
}

#[test]
fn ensure_sizes_gives_every_row_and_column_a_size() {
    let columns = vec![
        AxisParameters::default().default_dimension(100),
        AxisParameters::default().default_dimension(3),
    ];
    let table = DeferredTable::new().column_parameters(&columns);
    let mut state = DeferredTablePersistentState::default();
    let cell_size = CellSize { width: 40, height: 18 };
    table.ensure_sizes(
        &mut state,
        TableDimensions { row_count: 2, column_count: 3 },
        cell_size,
    );
    assert_eq!(state.column_widths.as_slice(), &[100, 10, 40]);
    assert_eq!(state.row_heights.as_slice(), &[18, 18]);
    // The user resizes, the data shrinks and grows: what was set stays.
    state.column_widths.set(0, 55);
    table.ensure_sizes(
        &mut state,
        TableDimensions { row_count: 1, column_count: 1 },
        cell_size,
    );
    table.ensure_sizes(
        &mut state,
        TableDimensions { row_count: 3, column_count: 4 },
        cell_size,
    );
    assert_eq!(state.column_widths.as_slice(), &[55, 10, 40, 40]);
    assert_eq!(state.row_heights.as_slice(), &[18, 18, 18]);
}

#[test]
fn header_labels() {
    let columns = vec![
        AxisParameters::default().name("Name".to_string()).monospace(true),
        AxisParameters::default(),
    ];
    let table = DeferredTable::new().column_parameters(&columns);
    let label = table.header_label(CellKind::ColumnHeader, 0);
    assert!(matches!(label.text, HeaderText::Name(name) if name == "Name"));
    assert!(label.monospace);
    // parameters without a name leave the header empty
    let label = table.header_label(CellKind::ColumnHeader, 1);
    assert!(matches!(label.text, HeaderText::Empty));
    assert!(!label.monospace);
    // no parameters: the number, from 1
    let label = table.header_label(CellKind::ColumnHeader, 2);
    assert!(matches!(label.text, HeaderText::Number(3)));
    assert!(!label.monospace);
    let label = table.header_label(CellKind::RowHeader, 0);
    assert!(matches!(label.text, HeaderText::Number(1)));
    // or from 0
    let table = table.zero_based_headers();
    let label = table.header_label(CellKind::ColumnHeader, 2);
    assert!(matches!(label.text, HeaderText::Number(2)));
    let label = table.header_label(CellKind::RowHeader, 0);
    assert!(matches!(label.text, HeaderText::Number(0)));
    // the largest index has a number too
    let label = DeferredTable::new().header_label(CellKind::RowHeader, usize::MAX);
    assert!(matches!(label.text, HeaderText::Number(n) if n == usize::MAX as u128 + 1));
    let label = table.header_label(CellKind::Corner, 0);
    assert!(matches!(label.text, HeaderText::Corner));
    assert!(!label.monospace);
}

#[test]
fn fills() {
    assert_eq!(header_fill(&header(CellKind::Corner, 0, 0)), CellFill::HeaderRow);
    assert_eq!(header_fill(&header(CellKind::ColumnHeader, 3, 40)), CellFill::HeaderRow);
    let mut row = header(CellKind::RowHeader, 3, 18);
    assert_eq!(header_fill(&row), CellFill::Plain);
    row.striped = true;
    assert_eq!(header_fill(&row), CellFill::Striped);
    let table = DeferredTable::new();
    assert_eq!(table.value_fill(&value(0, 0, false), true), CellFill::Plain);
    assert_eq!(table.value_fill(&value(0, 0, true), true), CellFill::Striped);
    let table = table.highlight_hovered_cell();
    assert_eq!(table.value_fill(&value(0, 0, false), false), CellFill::Plain);
    assert_eq!(table.value_fill(&value(0, 0, true), false), CellFill::Striped);
    assert_eq!(table.value_fill(&value(0, 0, false), true), CellFill::Hovered);
    assert_eq!(table.value_fill(&value(0, 0, true), true), CellFill::Hovered);
}

#[test]
fn cursors() {
    for kind in [CellKind::ColumnHeader, CellKind::RowHeader] {
        assert_eq!(handle_cursor(DragHandleState::Disabled, kind), Some(HandleCursor::NotAllowed));
        assert_eq!(handle_cursor(DragHandleState::Inactive, kind), None);
    }
    for state in [DragHandleState::Hovered, DragHandleState::Dragged] {
        assert_eq!(handle_cursor(state, CellKind::ColumnHeader), Some(HandleCursor::ResizeColumn));
        assert_eq!(handle_cursor(state, CellKind::RowHeader), Some(HandleCursor::ResizeRow));
        assert_eq!(handle_cursor(state, CellKind::Corner), None);
    }
}

#[test]
fn a_release_over_a_value_cell_is_a_click() {
    let cell = value(4, 2, false);
    assert_eq!(
        click_value(&cell, true, true),
        Some(Action::CellClicked(CellIndex { row: 4, column: 2 }))
    );
    assert_eq!(click_value(&cell, true, false), None);
    assert_eq!(click_value(&cell, false, true), None);
    assert_eq!(click_value(&cell, false, false), None);
}

#[test]
fn interactions_are_collected_in_order() {
    let mut seen = FrameInteraction::new();
    assert!(seen.actions.is_empty());
    assert_eq!(seen.drag_action, None);
    assert!(!seen.clear_drag_state);
    seen.record_action(None);
    seen.record_action(Some(Action::ColumnReorder { from: 1, to: 0 }));
    seen.record_action(Some(Action::CellClicked(CellIndex { row: 1, column: 2 })));
    seen.record_action(None);
    assert_eq!(
        seen.actions,
        vec![
            Action::ColumnReorder { from: 1, to: 0 },
            Action::CellClicked(CellIndex { row: 1, column: 2 }),
        ]
    );
    assert_eq!(seen.drag_action, None);
    assert!(!seen.clear_drag_state);
}

#[test]
fn the_last_staged_size_and_any_release_are_remembered() {
    let outcome = |staged: Option<u32>, released: bool| HandleOutcome {
        state: DragHandleState::Dragged,
        size: staged,
        staged,
        released,
    };
    let mut seen = FrameInteraction::new();
    seen.record_handle(CellKind::ColumnHeader, 2, outcome(None, false));
    assert_eq!(seen.drag_action, None);
    assert!(!seen.clear_drag_state);
    seen.record_handle(CellKind::ColumnHeader, 2, outcome(Some(70), true));
    assert_eq!(seen.drag_action, Some(DragAction::SetWidth(2, 70)));
    assert!(seen.clear_drag_state);
    // nothing staged: what was noted stays
    seen.record_handle(CellKind::ColumnHeader, 3, outcome(None, false));
    assert_eq!(seen.drag_action, Some(DragAction::SetWidth(2, 70)));
    assert!(seen.clear_drag_state);
    seen.record_handle(CellKind::RowHeader, 1, outcome(Some(30), false));
    assert_eq!(seen.drag_action, Some(DragAction::SetHeight(1, 30)));
    // cells without a handle stage nothing
    seen.record_handle(CellKind::Corner, 0, outcome(Some(99), false));
    seen.record_handle(CellKind::Value, 0, outcome(Some(99), false));
    assert_eq!(seen.drag_action, Some(DragAction::SetHeight(1, 30)));
    assert!(seen.actions.is_empty());
}

#[test]
fn finish_commits_the_staged_size() {
    let mut state = DeferredTablePersistentState {
        column_widths: AxisSizingStore::from_sizes(vec![40, 40, 40]),
        row_heights: AxisSizingStore::from_sizes(vec![18, 18]),
    };
    let drag = Some(DragState {
        kind: DragKind::ResizeColumn,
        data_index: 1,
        pointer_start: Position { x: 0, y: 0 },
        initial_size: 48,
    });
    let mut temp = DeferredTableTempState {
        cell_origin: CellIndex { row: 3, column: 4 },
        drag_state: drag,
    };
    // a size changes, the drag goes on
    assert!(finish(&mut state, &mut temp, Some(DragAction::SetWidth(1, 77)), false));
    assert_eq!(state.column_widths.as_slice(), &[40, 77, 40]);
    assert_eq!(state.row_heights.as_slice(), &[18, 18]);
    assert_eq!(temp.drag_state, drag);
    assert_eq!(temp.cell_origin, CellIndex { row: 3, column: 4 });
    // nothing changes, the drag goes on
    assert!(!finish(&mut state, &mut temp, None, false));
    assert_eq!(state.column_widths.as_slice(), &[40, 77, 40]);
    assert_eq!(temp.drag_state, drag);
    // the drag ends without a change
    assert!(!finish(&mut state, &mut temp, None, true));
    assert_eq!(temp.drag_state, None);
    assert_eq!(temp.cell_origin, CellIndex { row: 3, column: 4 });
    // the drag ends with one
    temp.drag_state = drag;
    assert!(finish(&mut state, &mut temp, Some(DragAction::SetHeight(0, 25)), true));
    assert_eq!(state.column_widths.as_slice(), &[40, 77, 40]);
    assert_eq!(state.row_heights.as_slice(), &[25, 18]);
    assert_eq!(temp.drag_state, None);
}

#[test]
fn a_source_is_asked_once_for_everything() {
    let mut sheet = Sheet::new(3, 2);
    sheet.column_ordering = Some(vec![2, 0, 1]);
    sheet.rows_to_filter = Some(vec![1]);
    let seen = snapshot(&sheet);
    assert_eq!(seen.dimensions, TableDimensions { row_count: 2, column_count: 3 });
    assert_eq!(seen.column_ordering, Some(&[2usize, 0, 1][..]));
    assert_eq!(seen.rows_to_filter, Some(&[1usize][..]));
    assert_eq!(seen.row_ordering, None);
    assert_eq!(seen.columns_to_filter, None);
    let columns = seen.columns();
    assert_eq!(columns.count, 3);
    assert_eq!(columns.ordering, Some(&[2usize, 0, 1][..]));
    assert_eq!(columns.filter, None);
    let rows = seen.rows();
    assert_eq!(rows.count, 2);
    assert_eq!(rows.ordering, None);
    assert_eq!(rows.filter, Some(&[1usize][..]));
}

#[test]
fn a_source_need_only_know_its_dimensions() {
    let mut bare = Bare {};
    bare.prepare();
    let seen = snapshot(&bare);
    assert_eq!(seen.dimensions, TableDimensions { row_count: 1, column_count: 1 });
    assert_eq!(seen.column_ordering, None);
    assert_eq!(seen.row_ordering, None);
    assert_eq!(seen.columns_to_filter, None);
    assert_eq!(seen.rows_to_filter, None);
    bare.finalize();
}

#[test]
fn a_slice_of_tuples_answers_with_its_shape_and_nothing_else() {
    let pairs: &[(u8, &str)] = &[(1, "a"), (2, "b"), (3, "c")];
    let seen = snapshot(&pairs);
    assert_eq!(seen.dimensions, TableDimensions { row_count: 3, column_count: 2 });
    assert_eq!(seen.rows_to_filter, None);
    assert_eq!(seen.columns_to_filter, None);
    assert_eq!(seen.row_ordering, None);
    assert_eq!(seen.column_ordering, None);
}

#[test]
fn a_source_answers_each_question_apart() {
    let mut sheet = Sheet::new(4, 7);
    sheet.rows_to_filter = Some(vec![5, 6]);
    let seen = snapshot(&sheet);
    // the filter of the rows is not taken for that of the columns, nor for
    // an ordering
    assert_eq!(seen.rows_to_filter, Some(&[5usize, 6][..]));
    assert_eq!(seen.columns_to_filter, None);
    assert_eq!(seen.row_ordering, None);
    assert_eq!(seen.column_ordering, None);
    assert_eq!(seen.dimensions, TableDimensions { row_count: 7, column_count: 4 });
}

#[test]
fn content_size_of_a_table() {
    let state = DeferredTablePersistentState {
        column_widths: AxisSizingStore::from_sizes(vec![40, 40, 40]),
        row_heights: AxisSizingStore::from_sizes(vec![18, 18]),
    };
    let mut sheet = Sheet::new(3, 2);
    // columns: 120 + 3 * 9 + 48; rows: 36 + 2 * 4 + 21
    assert_eq!(content_size(&state, &snapshot(&sheet), &geometry()), (195, 65));
    sheet.rows_to_filter = Some(vec![1]);
    assert_eq!(content_size(&state, &snapshot(&sheet), &geometry()), (195, 43));
}

#[test]
fn a_frame_from_source_to_commit() {
    let mut sheet = Sheet::new(3, 2);
    let table = DeferredTable::new();
    let mut state = DeferredTablePersistentState::default();
    let mut temp = DeferredTableTempState::default();
    let geometry = geometry();

    // Nothing has a size yet: there is nothing to lay out.
    sheet.prepare();
    let seen = snapshot(&sheet);
    assert!(layout(&state, &mut temp, &seen, &geometry).is_none());

    table.ensure_sizes(&mut state, seen.dimensions, table.cell_size(geometry.cell_size));
    let frame = layout(&state, &mut temp, &seen, &geometry).unwrap();
    assert_eq!(temp.cell_origin, CellIndex { row: 0, column: 0 });
    assert_eq!(frame.headers.len(), 6);
    assert_eq!(frame.values.len(), 6);

    // The user presses on the handle of the second column and pulls it 30 to
    // the right.
    let second = frame.headers[2];
    assert_eq!((second.kind, second.data_index), (CellKind::ColumnHeader, 1));
    let mut seen_here = FrameInteraction::new();
    for cell in &frame.headers {
        let pressed = cell.kind == second.kind && cell.data_index == second.data_index;
        let outcome = table.resize_header(
            &mut temp,
            cell,
            geometry.padding,
            geometry.grab_radius,
            HandleInput {
                hovered: pressed,
                drag_started: pressed,
                drag_stopped: false,
                pointer: Some(Position { x: 156, y: 30 }),
            },
        );
        assert_eq!(
            outcome.state,
            if pressed { DragHandleState::Dragged } else { DragHandleState::Inactive }
        );
        seen_here.record_handle(cell.kind, cell.data_index, outcome);
    }
    assert_eq!(seen_here.drag_action, None);
    assert!(!finish(&mut state, &mut temp, seen_here.drag_action, seen_here.clear_drag_state));
    sheet.finalize();

    sheet.prepare();
    let seen = snapshot(&sheet);
    let frame = layout(&state, &mut temp, &seen, &geometry).unwrap();
    let mut seen_here = FrameInteraction::new();
    for cell in &frame.headers {
        let outcome = table.resize_header(
            &mut temp,
            cell,
            geometry.padding,
            geometry.grab_radius,
            HandleInput {
                hovered: false,
                drag_started: false,
                drag_stopped: false,
                pointer: Some(Position { x: 186, y: 35 }),
            },
        );
        seen_here.record_handle(cell.kind, cell.data_index, outcome);
    }
    assert_eq!(seen_here.drag_action, Some(DragAction::SetWidth(1, 70)));
    assert!(finish(&mut state, &mut temp, seen_here.drag_action, seen_here.clear_drag_state));
    assert_eq!(state.column_widths.as_slice(), &[40, 70, 40]);
    assert!(temp.drag_state.is_some());
    sheet.finalize();

    // The button is released: the drag ends, and the third column has moved.
    sheet.prepare();
    let seen = snapshot(&sheet);
    let frame = layout(&state, &mut temp, &seen, &geometry).unwrap();
    assert_eq!(frame.headers[2].rect.max_x - frame.headers[2].rect.min_x, 78);
    assert_eq!(frame.headers[3].rect.min_x, 59 + 49 + 79);
    let mut seen_here = FrameInteraction::new();
    for cell in &frame.headers {
        let dragged = cell.kind == CellKind::ColumnHeader && cell.data_index == 1;
        let outcome = table.resize_header(
            &mut temp,
            cell,
            geometry.padding,
            geometry.grab_radius,
            HandleInput {
                hovered: false,
                drag_started: false,
                drag_stopped: dragged,
                pointer: Some(Position { x: 186, y: 35 }),
            },
        );
        seen_here.record_handle(cell.kind, cell.data_index, outcome);
    }
    assert_eq!(seen_here.drag_action, None);
    assert!(seen_here.clear_drag_state);
    assert!(!finish(&mut state, &mut temp, seen_here.drag_action, seen_here.clear_drag_state));
    assert_eq!(temp.drag_state, None);
    assert_eq!(state.column_widths.as_slice(), &[40, 70, 40]);
    sheet.finalize();
    assert_eq!((sheet.prepared, sheet.finalized), (3, 3));
}

/// One frame of a table whose second column is being resized: every handle
/// that is laid out reports what the pointer did, and the frame ends.
fn frame_with_release(
    table: &DeferredTable<'_>,
    sheet: &Sheet,
    state: &mut DeferredTablePersistentState,
    temp: &mut DeferredTableTempState,
    released: bool,
) -> bool {
    let geometry = geometry();
    let seen = snapshot(sheet);
    let frame = layout(state, temp, &seen, &geometry).unwrap();
    let mut seen_here = FrameInteraction::new();
    for cell in &frame.headers {
        let dragged = cell.kind == CellKind::ColumnHeader && cell.data_index == 1;
        let input = HandleInput {
            hovered: false,
            drag_started: false,
            drag_stopped: released && dragged,
            pointer: Some(Position { x: 186, y: 35 }),
        };
        assert!(table.can_resize_header(temp, cell, geometry.padding, input));
        let outcome =
            table.resize_header(temp, cell, geometry.padding, geometry.grab_radius, input);
        seen_here.record_handle(cell.kind, cell.data_index, outcome);
    }
    if released {
        pointer_released(temp);
    }
    finish(state, temp, seen_here.drag_action, seen_here.clear_drag_state)
}

fn resize_of_second_column() -> Option<DragState> {
    Some(DragState {
        kind: DragKind::ResizeColumn,
        data_index: 1,
        pointer_start: Position { x: 156, y: 30 },
        initial_size: 48,
    })
}

fn sized_state() -> DeferredTablePersistentState {
    DeferredTablePersistentState {
        column_widths: AxisSizingStore::from_sizes(vec![40, 40, 40]),
        row_heights: AxisSizingStore::from_sizes(vec![18, 18]),
    }
}

#[test]
fn a_release_ends_the_resize_and_still_commits_its_size() {
    let sheet = Sheet::new(3, 2);
    let table = DeferredTable::new();
    let mut state = sized_state();
    let mut temp = DeferredTableTempState {
        cell_origin: CellIndex::default(),
        drag_state: resize_of_second_column(),
    };
    // The pointer has gone 30 to the right when the button is released.
    assert!(frame_with_release(&table, &sheet, &mut state, &mut temp, true));
    assert_eq!(state.column_widths.as_slice(), &[40, 70, 40]);
    assert_eq!(temp.drag_state, None);
}

#[test]
fn a_release_ends_the_resize_of_a_column_that_ceased_to_be_resizable() {
    let sheet = Sheet::new(3, 2);
    let fixed = vec![AxisParameters::default(), AxisParameters::default().resizable(false)];
    let table = DeferredTable::new().column_parameters(&fixed);
    let mut state = sized_state();
    let mut temp = DeferredTableTempState {
        cell_origin: CellIndex::default(),
        drag_state: resize_of_second_column(),
    };
    // While the button is held the drag stays in the slot, without effect.
    assert!(!frame_with_release(&table, &sheet, &mut state, &mut temp, false));
    assert_eq!(temp.drag_state, resize_of_second_column());
    assert_eq!(state.column_widths.as_slice(), &[40, 40, 40]);
    // The release ends it, though the column cannot be resized any more.
    assert!(!frame_with_release(&table, &sheet, &mut state, &mut temp, true));
    assert_eq!(temp.drag_state, None);
    assert_eq!(state.column_widths.as_slice(), &[40, 40, 40]);
    // The slot is free again: another column can be resized.
    let frame = layout(&state, &mut temp, &snapshot(&sheet), &geometry()).unwrap();
    let first = frame.headers[1];
    assert_eq!((first.kind, first.data_index), (CellKind::ColumnHeader, 0));
    let outcome = table.resize_header(
        &mut temp,
        &first,
        geometry().padding,
        5,
        HandleInput {
            hovered: true,
            drag_started: true,
            drag_stopped: false,
            pointer: Some(Position { x: 107, y: 30 }),
        },
    );
    assert_eq!(outcome.state, DragHandleState::Dragged);
    assert_eq!(temp.drag_state.map(|d| d.data_index), Some(0));
}

#[test]
fn the_handle_alone_ends_the_resize_of_a_column_that_ceased_to_be_resizable() {
    // Even a host that does not report the release of the pointer as such
    // sees the drag end, since the handle reports it.
    let sheet = Sheet::new(3, 2);
    let fixed = vec![AxisParameters::default(), AxisParameters::default().resizable(false)];
    let table = DeferredTable::new().column_parameters(&fixed);
    let state = sized_state();
    let mut temp = DeferredTableTempState {
        cell_origin: CellIndex::default(),
        drag_state: resize_of_second_column(),
    };
    let geometry = geometry();
    let frame = layout(&state, &mut temp, &snapshot(&sheet), &geometry).unwrap();
    let mut seen_here = FrameInteraction::new();
    for cell in &frame.headers {
        let dragged = cell.kind == CellKind::ColumnHeader && cell.data_index == 1;
        let outcome = table.resize_header(
            &mut temp,
            cell,
            geometry.padding,
            geometry.grab_radius,
            HandleInput {
                hovered: false,
                drag_started: false,
                drag_stopped: dragged,
                pointer: Some(Position { x: 186, y: 35 }),
            },
        );
        seen_here.record_handle(cell.kind, cell.data_index, outcome);
    }
    assert!(seen_here.clear_drag_state);
    assert_eq!(seen_here.drag_action, None);
    let mut state = state;
    assert!(!finish(&mut state, &mut temp, seen_here.drag_action, seen_here.clear_drag_state));
    assert_eq!(temp.drag_state, None);
}

#[test]
fn a_release_ends_the_resize_of_a_column_that_is_not_laid_out() {
    let mut sheet = Sheet::new(3, 2);
    // The dragged column is filtered out in the frame of the release, so no
    // handle of it is there to report anything.
    sheet.columns_to_filter = Some(vec![1]);
    let table = DeferredTable::new();
    let mut state = sized_state();
    let mut temp = DeferredTableTempState {
        cell_origin: CellIndex::default(),
        drag_state: resize_of_second_column(),
    };
    assert!(!frame_with_release(&table, &sheet, &mut state, &mut temp, true));
    assert_eq!(temp.drag_state, None);
    assert_eq!(state.column_widths.as_slice(), &[40, 40, 40]);
}

#[test]
fn layout_remembers_the_cell_origin() {
    let sheet = Sheet::new(10, 5);
    let state = DeferredTablePersistentState {
        column_widths: AxisSizingStore::from_sizes(vec![49; 10]),
        row_heights: AxisSizingStore::from_sizes(vec![19; 5]),
    };
    let drag = Some(DragState {
        kind: DragKind::ReorderRow,
        data_index: 1,
        pointer_start: Position { x: 0, y: 0 },
        initial_size: 0,
    });
    let mut temp = DeferredTableTempState { cell_origin: CellIndex::default(), drag_state: drag };
    let geometry = FrameGeometry {
        cell_size: CellSize { width: 49, height: 19 },
        padding: Padding { x: 0, y: 0 },
        grab_radius: 5,
        viewport: Viewport { x: 120, y: 45, width: 200, height: 60 },
        content_origin: Position { x: -120, y: -45 },
        table_origin: Position { x: 0, y: 0 },
        clip: Rect { min_x: -1000, min_y: -1000, max_x: 1000, max_y: 1000 },
    };
    let frame = layout(&state, &mut temp, &snapshot(&sheet), &geometry).unwrap();
    assert_eq!(frame.cell_origin, CellIndex { row: 2, column: 2 });
    assert_eq!(temp.cell_origin, CellIndex { row: 2, column: 2 });
    assert_eq!(temp.drag_state, drag);
    // Without sizes nothing is remembered.
    let empty = DeferredTablePersistentState::default();
    let mut temp = DeferredTableTempState {
        cell_origin: CellIndex { row: 7, column: 8 },
        drag_state: None,
    };
    assert!(layout(&empty, &mut temp, &snapshot(&sheet), &geometry).is_none());
    assert_eq!(temp.cell_origin, CellIndex { row: 7, column: 8 });
}

#[test]
fn the_source_decides_order_and_filter_of_a_frame() {
    let mut sheet = Sheet::new(3, 2);
    sheet.column_ordering = Some(vec![2, 0, 1]);
    sheet.rows_to_filter = Some(vec![0]);
    let state = DeferredTablePersistentState {
        column_widths: AxisSizingStore::from_sizes(vec![40, 40, 40]),
        row_heights: AxisSizingStore::from_sizes(vec![18, 18]),
    };
    let mut temp = DeferredTableTempState::default();
    let frame = layout(&state, &mut temp, &snapshot(&sheet), &geometry()).unwrap();
    let indices: Vec<(usize, usize)> =
        frame.values.iter().map(|v| (v.index.row, v.index.column)).collect();
    assert_eq!(indices, vec![(1, 2), (1, 0), (1, 1)]);
    assert_eq!(temp.cell_origin, CellIndex { row: 1, column: 0 });
}

#[test]
fn headers_are_carried_and_dropped_through_the_table_state() {
    let mut temp = DeferredTableTempState::default();
    let source = header(CellKind::ColumnHeader, 2, 40);
    let target = header(CellKind::ColumnHeader, 0, 40);
    drag_header(&mut temp, &source, Some(Position { x: 1, y: 2 }));
    assert_eq!(
        temp.drag_state,
        Some(DragState {
            kind: DragKind::ReorderColumn,
            data_index: 2,
            pointer_start: Position { x: 1, y: 2 },
            initial_size: 0,
        })
    );
    assert_eq!(
        drop_on_header(&mut temp, &target),
        Some(Action::ColumnReorder { from: 2, to: 0 })
    );
    assert_eq!(temp.drag_state, None);
    assert_eq!(drop_on_header(&mut temp, &target), None);
    // a drop onto a row is ignored
    drag_header(&mut temp, &source, Some(Position { x: 1, y: 2 }));
    assert_eq!(drop_on_header(&mut temp, &header(CellKind::RowHeader, 0, 18)), None);
    assert_eq!(temp.drag_state, None);
    // the corner is not carried
    drag_header(&mut temp, &header(CellKind::Corner, 0, 0), Some(Position { x: 1, y: 2 }));
    assert_eq!(temp.drag_state, None);
}

#[test]
fn a_fixed_column_shows_that_it_cannot_be_resized() {
    let columns = vec![AxisParameters::default().resizable(false)];
    let table = DeferredTable::new().column_parameters(&columns);
    let mut temp = DeferredTableTempState::default();
    let input = HandleInput {
        hovered: true,
        drag_started: true,
        drag_stopped: false,
        pointer: Some(Position { x: 1, y: 2 }),
    };
    let padding = Padding { x: 8, y: 3 };
    let outcome = table.resize_header(&mut temp, &header(CellKind::ColumnHeader, 0, 40), padding, 5, input);
    assert_eq!(outcome.state, DragHandleState::Disabled);
    assert_eq!(temp.drag_state, None);
    assert_eq!(handle_cursor(outcome.state, CellKind::ColumnHeader), Some(HandleCursor::NotAllowed));
    // The second column has no parameters and can be resized; so can a row.
    let outcome = table.resize_header(&mut temp, &header(CellKind::ColumnHeader, 1, 40), padding, 5, input);
    assert_eq!(outcome.state, DragHandleState::Dragged);
    assert_eq!(temp.drag_state.map(|d| (d.kind, d.initial_size)), Some((DragKind::ResizeColumn, 48)));
    let mut temp = DeferredTableTempState::default();
    let outcome = table.resize_header(&mut temp, &header(CellKind::RowHeader, 0, 18), padding, 5, input);
    assert_eq!(outcome.state, DragHandleState::Dragged);
    assert_eq!(temp.drag_state.map(|d| (d.kind, d.initial_size)), Some((DragKind::ResizeRow, 21)));
}

#[test]
fn a_resize_is_held_to_the_limits_of_its_column() {
    let columns = vec![AxisParameters::default().minimum_dimension(30).maximum_dimension(60)];
    let table = DeferredTable::new().column_parameters(&columns);
    let mut temp = DeferredTableTempState::default();
    let cell = header(CellKind::ColumnHeader, 0, 40);
    let padding = Padding { x: 8, y: 3 };
    let at = |x: i64, started: bool| HandleInput {
        hovered: true,
        drag_started: started,
        drag_stopped: false,
        pointer: Some(Position { x, y: 0 }),
    };
    table.resize_header(&mut temp, &cell, padding, 5, at(100, true));
    assert_eq!(table.resize_header(&mut temp, &cell, padding, 5, at(1000, false)).staged, Some(60));
    assert_eq!(table.resize_header(&mut temp, &cell, padding, 5, at(-1000, false)).staged, Some(30));
    assert_eq!(table.resize_header(&mut temp, &cell, padding, 5, at(105, false)).staged, Some(45));
    assert_eq!(table.resize_header(&mut temp, &cell, padding, 5, at(100, false)).staged, None);
}
