//! The table itself: its parameters, the state that it keeps between frames,
//! and the steps of a frame.
//!
//! A frame goes like this. The host asks the data source once for its
//! dimensions, orderings and filters. `ensure_sizes` gives every row and column
//! a size, `content_size` tells the scroll area how far it can scroll, and
//! `layout` places the cells that the viewport shows. The host then draws each
//! cell and reports what the pointer did to it: `resize_header`, `drag_header`,
//! `drop_on_header` and `click_value` turn that into staged resizes and actions,
//! which a `FrameInteraction` collects. When the pointer is released,
//! `pointer_released` ends whatever drag is under way. `finish` commits the
//! staged resize.

use vstd::prelude::*;
use crate::content::{content_extent, spec_content_extent};
use crate::drag::{begin_reorder, drop_reorder, end_drag, resize_limits, resize_step,
    resize_step_defined, spec_begin_reorder, spec_drop_reorder, spec_resize_limits,
    spec_resize_step, spec_resize_step_defined, DragState, HandleInput, HandleOutcome};
use crate::frame::{is_frame_layout, layout_frame, FrameGeometry, FrameLayout};
use crate::geometry::{CellSize, Padding, Position};
use crate::grid::{HeaderCell, ValueCell};
use crate::index::{build_row_kind, spec_row_kind, Action, CellIndex, CellKind, RowKind,
    TableDimensions};
use crate::sizing::{can_seed_range, grown_sizes, parameters_at, parameters_view, seedable_range,
    AxisParameters, AxisSizingStore};
use crate::source::SourceSnapshot;

verus! {

/// The least width of the table unless the caller says otherwise.
pub const DEFAULT_MINIMUM_WIDTH: u32 = 400;

/// The least height of the table unless the caller says otherwise.
pub const DEFAULT_MINIMUM_HEIGHT: u32 = 200;

/// A table and what the caller configured of it.
#[derive(Debug, Clone, Copy)]
pub struct DeferredTable<'a> {
    /// The inner size of the header cells and of rows and columns without a
    /// default of their own; absent if the host is to choose it.
    pub default_cell_size: Option<CellSize>,
    /// Whether unnamed headers are numbered from 0 instead of 1.
    pub zero_based_headers: bool,
    /// Whether the value cell under the pointer is highlighted.
    pub highlight_hovered_cell: bool,
    /// The least size of the table.
    pub min_size: CellSize,
    /// The parameters of the columns, by data index.
    pub column_parameters: Option<&'a Vec<AxisParameters>>,
    /// The parameters of the rows, by data index.
    pub row_parameters: Option<&'a Vec<AxisParameters>>,
}

/// What of a table may be kept from one run of the host to the next: the
/// widths of its columns and the heights of its rows, by data index.
#[derive(Debug, Clone)]
pub struct DeferredTablePersistentState {
    pub column_widths: AxisSizingStore,
    pub row_heights: AxisSizingStore,
}

/// What of a table is kept from one frame to the next, but no longer.
#[derive(Debug, Clone, Copy, PartialEq, Eq, Structural)]
pub struct DeferredTableTempState {
    /// The visible positions of the first row and column that are not
    /// scrolled out.
    pub cell_origin: CellIndex,
    /// The drag that is under way, if one is.
    pub drag_state: Option<DragState>,
}

/// A change of size that a drag asks for, to be made at the end of the frame so
/// that the cells of one frame all have the sizes that the frame began with.
#[derive(Debug, Clone, Copy, PartialEq, Eq, Structural)]
pub enum DragAction {
    SetWidth(usize, u32),
    SetHeight(usize, u32),
}

/// The background of a cell.
#[derive(Debug, Clone, Copy, PartialEq, Eq, Structural, Hash)]
pub enum CellFill {
    /// The background of the header row.
    HeaderRow,
    /// The background of a row without stripe.
    Plain,
    /// The faint background of every second row.
    Striped,
    /// The background of the value cell under the pointer.
    Hovered,
}

/// The background of a header: that of the header row for the corner and the
/// column headers, that of its row for a row header.
pub open spec fn spec_header_fill(cell: HeaderCell) -> CellFill {
    match spec_row_kind(cell.grid_row as int) {
        RowKind::HeaderRow => CellFill::HeaderRow,
        RowKind::ValuesRow => if cell.striped {
            CellFill::Striped
        } else {
            CellFill::Plain
        },
    }
}

/// Choose the background of a header.
pub fn header_fill(cell: &HeaderCell) -> (r: CellFill)
    ensures
        r == spec_header_fill(*cell),
{
    match build_row_kind(cell.grid_row) {
        RowKind::HeaderRow => CellFill::HeaderRow,
        RowKind::ValuesRow => {
            if cell.striped {
                CellFill::Striped
            } else {
                CellFill::Plain
            }
        },
    }
}

/// What the header of a row or column says.
#[derive(Debug, Clone, Copy)]
pub enum HeaderText<'a> {
    /// The corner: the host shows what it likes there.
    Corner,
    /// The name that the parameters give.
    Name(&'a String),
    /// The number of the row or column, counted from 0 or from 1.
    Number(u128),
    /// The parameters give no name, so the header is left empty.
    Empty,
}

/// The text of a header and how to set it.
#[derive(Debug, Clone, Copy)]
pub struct HeaderLabel<'a> {
    pub text: HeaderText<'a>,
    pub monospace: bool,
}

/// What the pointer did to the table during one frame, as far as it is known.
#[derive(Debug)]
pub struct FrameInteraction {
    /// What the user asked for, in the order in which the cells reported it.
    pub actions: Vec<Action>,
    /// The change of size that a drag asks for.
    pub drag_action: Option<DragAction>,
    /// A drag ended.
    pub clear_drag_state: bool,
}

impl Default for DeferredTablePersistentState {
    fn default() -> (r: Self)
        ensures
            r.column_widths@ == Seq::<u32>::empty(),
            r.row_heights@ == Seq::<u32>::empty(),
    {
        DeferredTablePersistentState {
            column_widths: AxisSizingStore::new(),
            row_heights: AxisSizingStore::new(),
        }
    }
}

impl Default for DeferredTableTempState {
    fn default() -> (r: Self)
        ensures
            r.cell_origin == (CellIndex { row: 0, column: 0 }),
            r.drag_state is None,
    {
        DeferredTableTempState { cell_origin: CellIndex { row: 0, column: 0 }, drag_state: None }
    }
}

/// The change of size that the outcome of a handle asks for: the width of the
/// column for the handle of a column header, the height of the row for that of
/// a row header.
pub open spec fn spec_drag_action(cell_kind: CellKind, data_index: usize, staged: Option<u32>)
    -> Option<DragAction> {
    match (cell_kind, staged) {
        (CellKind::ColumnHeader, Some(size)) => Some(DragAction::SetWidth(data_index, size)),
        (CellKind::RowHeader, Some(size)) => Some(DragAction::SetHeight(data_index, size)),
        _ => None,
    }
}

/// What a value cell makes of the pointer: a click, when the primary button is
/// released while the pointer is over the cell, wherever it was pressed.
pub open spec fn spec_click_value(index: CellIndex, contains_pointer: bool, released: bool)
    -> Option<Action> {
    if contains_pointer && released {
        Some(Action::CellClicked(index))
    } else {
        None
    }
}

/// The padding along the axis that a header belongs to: across for a column
/// header, down for any other cell.
pub open spec fn spec_padding_along(padding: Padding, cell_kind: CellKind) -> u16 {
    if cell_kind == CellKind::ColumnHeader {
        padding.x
    } else {
        padding.y
    }
}

/// What the end of a frame makes of the sizes: the change that a drag asked
/// for is made.
pub open spec fn spec_committed(
    state: DeferredTablePersistentState,
    drag_action: Option<DragAction>,
) -> (Seq<u32>, Seq<u32>) {
    match drag_action {
        Some(DragAction::SetWidth(index, size)) => (
            state.column_widths@.update(index as int, size),
            state.row_heights@,
        ),
        Some(DragAction::SetHeight(index, size)) => (
            state.column_widths@,
            state.row_heights@.update(index as int, size),
        ),
        None => (state.column_widths@, state.row_heights@),
    }
}

/// The change of size can be made: the row or column that it names has a
/// size.
pub open spec fn spec_can_commit(
    state: DeferredTablePersistentState,
    drag_action: Option<DragAction>,
) -> bool {
    match drag_action {
        Some(DragAction::SetWidth(index, _)) => index < state.column_widths@.len(),
        Some(DragAction::SetHeight(index, _)) => index < state.row_heights@.len(),
        None => true,
    }
}

/// Whether the change of size can be made.
pub fn can_commit(state: &DeferredTablePersistentState, drag_action: Option<DragAction>) -> (r:
    bool)
    ensures
        r == spec_can_commit(*state, drag_action),
{
    match drag_action {
        Some(DragAction::SetWidth(index, _)) => index < state.column_widths.len(),
        Some(DragAction::SetHeight(index, _)) => index < state.row_heights.len(),
        None => true,
    }
}

/// The pointer was released: whatever drag was under way is over. A header
/// that is still carried is put down nowhere, and a resize ends even if its
/// handle was not there to report the release, as when its header is filtered
/// out or scrolled away. A size that the resize staged in this frame is still
/// committed at the end of the frame.
pub fn pointer_released(temp: &mut DeferredTableTempState)
    ensures
        final(temp).cell_origin == old(temp).cell_origin,
        final(temp).drag_state is None,
{
    let mut drag = temp.drag_state;
    end_drag(&mut drag);
    temp.drag_state = drag;
}

/// End a frame: make the change of size that a drag asked for, and empty the
/// slot if a drag ended, whether or not it changed a size. The result tells
/// whether a size changed, so that the table has to be laid out again.
pub fn finish(
    state: &mut DeferredTablePersistentState,
    temp: &mut DeferredTableTempState,
    drag_action: Option<DragAction>,
    clear_drag_state: bool,
) -> (repaint: bool)
    requires
        spec_can_commit(*old(state), drag_action),
    ensures
        (final(state).column_widths@, final(state).row_heights@) == spec_committed(
            *old(state),
            drag_action,
        ),
        final(state).column_widths@.len() == old(state).column_widths@.len(),
        final(state).row_heights@.len() == old(state).row_heights@.len(),
        final(temp).cell_origin == old(temp).cell_origin,
        final(temp).drag_state == (if clear_drag_state {
            None
        } else {
            old(temp).drag_state
        }),
        repaint == drag_action is Some,
{
    if clear_drag_state {
        temp.drag_state = None;
    }
    match drag_action {
        None => false,
        Some(DragAction::SetWidth(index, size)) => {
            state.column_widths.set(index, size);
            true
        },
        Some(DragAction::SetHeight(index, size)) => {
            state.row_heights.set(index, size);
            true
        },
    }
}

/// The content that the scroll area scrolls: its width and its height.
pub fn content_size(
    state: &DeferredTablePersistentState,
    source: &SourceSnapshot<'_>,
    geometry: &FrameGeometry,
) -> (r: (i128, i128))
    ensures
        r.0 == spec_content_extent(
            geometry.spec_column_frame(source.spec_columns(), &state.column_widths),
        ),
        r.1 == spec_content_extent(geometry.spec_row_frame(source.spec_rows(), &state.row_heights)),
{
    let columns = geometry.column_frame(source.columns(), &state.column_widths);
    let rows = geometry.row_frame(source.rows(), &state.row_heights);
    (content_extent(&columns), content_extent(&rows))
}

/// Lay out a frame and remember its first visible row and column. Nothing is
/// laid out, and nothing remembered, while an axis has no sizes.
pub fn layout(
    state: &DeferredTablePersistentState,
    temp: &mut DeferredTableTempState,
    source: &SourceSnapshot<'_>,
    geometry: &FrameGeometry,
) -> (r: Option<FrameLayout>)
    ensures
        r is None <==> state.column_widths@.len() == 0 || state.row_heights@.len() == 0,
        r matches Some(frame) ==> is_frame_layout(
            geometry.spec_column_frame(source.spec_columns(), &state.column_widths),
            geometry.spec_row_frame(source.spec_rows(), &state.row_heights),
            frame,
        ),
        final(temp).drag_state == old(temp).drag_state,
        final(temp).cell_origin == (match r {
            Some(frame) => frame.cell_origin,
            None => old(temp).cell_origin,
        }),
{
    let columns = geometry.column_frame(source.columns(), &state.column_widths);
    let rows = geometry.row_frame(source.rows(), &state.row_heights);
    let frame = layout_frame(&columns, &rows);
    match &frame {
        Some(f) => {
            temp.cell_origin = f.cell_origin;
        },
        None => {},
    }
    frame
}

/// Begin to carry the header that the pointer began to drag.
pub fn drag_header(temp: &mut DeferredTableTempState, cell: &HeaderCell, pointer: Option<Position>)
    ensures
        final(temp).cell_origin == old(temp).cell_origin,
        final(temp).drag_state == spec_begin_reorder(
            old(temp).drag_state,
            cell.kind,
            cell.data_index,
            pointer,
        ),
{
    let mut drag = temp.drag_state;
    begin_reorder(&mut drag, cell.kind, cell.data_index, pointer);
    temp.drag_state = drag;
}

/// Put the carried header down on the header over which the pointer was
/// released.
pub fn drop_on_header(temp: &mut DeferredTableTempState, cell: &HeaderCell) -> (r: Option<Action>)
    ensures
        final(temp).cell_origin == old(temp).cell_origin,
        (final(temp).drag_state, r) == spec_drop_reorder(
            old(temp).drag_state,
            cell.kind,
            cell.data_index,
        ),
{
    let mut drag = temp.drag_state;
    let action = drop_reorder(&mut drag, cell.kind, cell.data_index);
    temp.drag_state = drag;
    action
}

/// Decide what a value cell makes of the pointer.
pub fn click_value(cell: &ValueCell, contains_pointer: bool, primary_released: bool) -> (r: Option<
    Action,
>)
    ensures
        r == spec_click_value(cell.index, contains_pointer, primary_released),
{
    if contains_pointer && primary_released {
        Some(Action::CellClicked(cell.index))
    } else {
        None
    }
}

impl FrameInteraction {
    /// Nothing has happened yet.
    pub fn new() -> (r: Self)
        ensures
            r.actions@ == Seq::<Action>::empty(),
            r.drag_action is None,
            !r.clear_drag_state,
    {
        FrameInteraction { actions: Vec::new(), drag_action: None, clear_drag_state: false }
    }

    /// Take note of what the handle of a header came to: a staged size
    /// replaces the one noted before, and a release is remembered.
    pub fn record_handle(&mut self, cell_kind: CellKind, data_index: usize, outcome: HandleOutcome)
        ensures
            final(self).actions == old(self).actions,
            final(self).drag_action == (match spec_drag_action(
                cell_kind,
                data_index,
                outcome.staged,
            ) {
                Some(action) => Some(action),
                None => old(self).drag_action,
            }),
            final(self).clear_drag_state == (old(self).clear_drag_state || outcome.released),
    {
        match (cell_kind, outcome.staged) {
            (CellKind::ColumnHeader, Some(size)) => {
                self.drag_action = Some(DragAction::SetWidth(data_index, size));
            },
            (CellKind::RowHeader, Some(size)) => {
                self.drag_action = Some(DragAction::SetHeight(data_index, size));
            },
            _ => {},
        }
        if outcome.released {
            self.clear_drag_state = true;
        }
    }

    /// Take note of an action, if there is one.
    pub fn record_action(&mut self, action: Option<Action>)
        ensures
            final(self).actions@ == (match action {
                Some(a) => old(self).actions@.push(a),
                None => old(self).actions@,
            }),
            final(self).drag_action == old(self).drag_action,
            final(self).clear_drag_state == old(self).clear_drag_state,
    {
        match action {
            Some(a) => {
                self.actions.push(a);
            },
            None => {},
        }
    }
}

impl<'a> DeferredTable<'a> {
    /// A table with nothing configured: headers numbered from 1, no
    /// highlight, no parameters, and the default least size.
    pub fn new() -> (r: Self)
        ensures
            r.default_cell_size is None,
            !r.zero_based_headers,
            !r.highlight_hovered_cell,
            r.min_size == (CellSize {
                width: DEFAULT_MINIMUM_WIDTH,
                height: DEFAULT_MINIMUM_HEIGHT,
            }),
            r.column_parameters is None,
            r.row_parameters is None,
    {
        DeferredTable {
            default_cell_size: None,
            zero_based_headers: false,
            highlight_hovered_cell: false,
            min_size: CellSize { width: DEFAULT_MINIMUM_WIDTH, height: DEFAULT_MINIMUM_HEIGHT },
            column_parameters: None,
            row_parameters: None,
        }
    }

    /// Set the inner size of the header cells, which rows and columns without
    /// a default of their own start with too.
    pub fn default_cell_size(self, size: CellSize) -> (r: Self)
        ensures
            r == (DeferredTable { default_cell_size: Some(size), ..self }),
    {
        let mut r = self;
        r.default_cell_size = Some(size);
        r
    }

    /// Number unnamed headers from 0.
    pub fn zero_based_headers(self) -> (r: Self)
        ensures
            r == (DeferredTable { zero_based_headers: true, ..self }),
    {
        let mut r = self;
        r.zero_based_headers = true;
        r
    }

    /// Number unnamed headers from 1, as by default.
    pub fn one_based_headers(self) -> (r: Self)
        ensures
            r == (DeferredTable { zero_based_headers: false, ..self }),
    {
        let mut r = self;
        r.zero_based_headers = false;
        r
    }

    /// Highlight the value cell under the pointer.
    pub fn highlight_hovered_cell(self) -> (r: Self)
        ensures
            r == (DeferredTable { highlight_hovered_cell: true, ..self }),
    {
        let mut r = self;
        r.highlight_hovered_cell = true;
        r
    }

    /// Set the least size of the table.
    pub fn min_size(self, size: CellSize) -> (r: Self)
        ensures
            r == (DeferredTable { min_size: size, ..self }),
    {
        let mut r = self;
        r.min_size = size;
        r
    }

    /// Set the parameters of the columns, by data index.
    pub fn column_parameters(self, column_parameters: &'a Vec<AxisParameters>) -> (r: Self)
        ensures
            r == (DeferredTable { column_parameters: Some(column_parameters), ..self }),
    {
        let mut r = self;
        r.column_parameters = Some(column_parameters);
        r
    }

    /// Set the parameters of the rows, by data index.
    pub fn row_parameters(self, row_parameters: &'a Vec<AxisParameters>) -> (r: Self)
        ensures
            r == (DeferredTable { row_parameters: Some(row_parameters), ..self }),
    {
        let mut r = self;
        r.row_parameters = Some(row_parameters);
        r
    }

    /// The background of a value cell: that of its row, unless the table
    /// highlights the cell under the pointer and this is it.
    pub open spec fn spec_value_fill(&self, cell: ValueCell, contains_pointer: bool) -> CellFill {
        if self.highlight_hovered_cell && contains_pointer {
            CellFill::Hovered
        } else if cell.striped {
            CellFill::Striped
        } else {
            CellFill::Plain
        }
    }

    /// Choose the background of a value cell.
    pub fn value_fill(&self, cell: &ValueCell, contains_pointer: bool) -> (r: CellFill)
        ensures
            r == self.spec_value_fill(*cell, contains_pointer),
    {
        if self.highlight_hovered_cell && contains_pointer {
            CellFill::Hovered
        } else if cell.striped {
            CellFill::Striped
        } else {
            CellFill::Plain
        }
    }

    /// The inner size of the header cells: the configured one, or else the one
    /// that the host chose.
    pub fn cell_size(&self, chosen: CellSize) -> (r: CellSize)
        ensures
            r == (match self.default_cell_size {
                Some(size) => size,
                None => chosen,
            }),
    {
        match self.default_cell_size {
            Some(size) => size,
            None => chosen,
        }
    }

    /// The parameters of the axis that a header belongs to: those of the
    /// columns for a column header, those of the rows for a row header. The
    /// corner and the value cells belong to neither.
    pub open spec fn spec_parameters_of(&self, cell_kind: CellKind) -> Seq<AxisParameters> {
        match cell_kind {
            CellKind::ColumnHeader => parameters_view(self.column_parameters),
            CellKind::RowHeader => parameters_view(self.row_parameters),
            _ => Seq::empty(),
        }
    }

    /// The parameters of the axis that a header belongs to.
    pub fn parameters_of(&self, cell_kind: CellKind) -> (r: Option<&'a Vec<AxisParameters>>)
        ensures
            parameters_view(r) == self.spec_parameters_of(cell_kind),
    {
        match cell_kind {
            CellKind::ColumnHeader => self.column_parameters,
            CellKind::RowHeader => self.row_parameters,
            _ => None,
        }
    }

    /// Every row and column of the data that has no size yet can be given one.
    pub open spec fn can_ensure_sizes(
        &self,
        state: DeferredTablePersistentState,
        dimensions: TableDimensions,
    ) -> bool {
        &&& can_seed_range(
            parameters_view(self.column_parameters),
            state.column_widths@.len() as int,
            dimensions.column_count as int,
        )
        &&& can_seed_range(
            parameters_view(self.row_parameters),
            state.row_heights@.len() as int,
            dimensions.row_count as int,
        )
    }

    /// Whether every row and column of the data that has no size yet can be
    /// given one.
    pub fn sizes_can_be_ensured(
        &self,
        state: &DeferredTablePersistentState,
        dimensions: TableDimensions,
    ) -> (r: bool)
        ensures
            r == self.can_ensure_sizes(*state, dimensions),
    {
        seedable_range(
            self.column_parameters,
            state.column_widths.len(),
            dimensions.column_count,
        ) && seedable_range(self.row_parameters, state.row_heights.len(), dimensions.row_count)
    }

    /// Give every row and column of the data a size. Those that have one keep
    /// it; the others start with their default dimension, held to their range
    /// if they are resizable, or with the cell size.
    pub fn ensure_sizes(
        &self,
        state: &mut DeferredTablePersistentState,
        dimensions: TableDimensions,
        cell_size: CellSize,
    )
        requires
            self.can_ensure_sizes(*old(state), dimensions),
        ensures
            final(state).column_widths@ == grown_sizes(
                old(state).column_widths@,
                dimensions.column_count as int,
                parameters_view(self.column_parameters),
                cell_size.width,
            ),
            final(state).row_heights@ == grown_sizes(
                old(state).row_heights@,
                dimensions.row_count as int,
                parameters_view(self.row_parameters),
                cell_size.height,
            ),
            final(state).column_widths@.len() >= dimensions.column_count,
            final(state).row_heights@.len() >= dimensions.row_count,
            final(state).column_widths@.len() >= old(state).column_widths@.len(),
            final(state).row_heights@.len() >= old(state).row_heights@.len(),
    {
        state.column_widths.ensure_capacity(
            dimensions.column_count,
            cell_size.width,
            self.column_parameters,
        );
        state.row_heights.ensure_capacity(
            dimensions.row_count,
            cell_size.height,
            self.row_parameters,
        );
    }

    /// Whether the step of the resize controller can be taken for the handle
    /// of a header.
    pub fn can_resize_header(
        &self,
        temp: &DeferredTableTempState,
        cell: &HeaderCell,
        padding: Padding,
        input: HandleInput,
    ) -> (r: bool)
        ensures
            r == spec_resize_step_defined(
                temp.drag_state,
                cell.kind,
                cell.data_index,
                cell.size,
                spec_padding_along(padding, cell.kind),
                spec_resize_limits(self.spec_parameters_of(cell.kind), cell.data_index as int),
                input,
            ),
    {
        let limits = resize_limits(self.parameters_of(cell.kind), cell.data_index);
        let along: u16 = match cell.kind {
            CellKind::ColumnHeader => padding.x,
            _ => padding.y,
        };
        resize_step_defined(
            &temp.drag_state,
            cell.kind,
            cell.data_index,
            cell.size,
            along,
            limits,
            input,
        )
    }

    /// Take one step of the resize controller for the handle of a header.
    pub fn resize_header(
        &self,
        temp: &mut DeferredTableTempState,
        cell: &HeaderCell,
        padding: Padding,
        grab_radius: u16,
        input: HandleInput,
    ) -> (outcome: HandleOutcome)
        requires
            spec_resize_step_defined(
                old(temp).drag_state,
                cell.kind,
                cell.data_index,
                cell.size,
                spec_padding_along(padding, cell.kind),
                spec_resize_limits(self.spec_parameters_of(cell.kind), cell.data_index as int),
                input,
            ),
        ensures
            final(temp).cell_origin == old(temp).cell_origin,
            (final(temp).drag_state, outcome) == spec_resize_step(
                old(temp).drag_state,
                cell.kind,
                cell.data_index,
                cell.size,
                spec_padding_along(padding, cell.kind),
                spec_resize_limits(self.spec_parameters_of(cell.kind), cell.data_index as int),
                grab_radius,
                input,
            ),
    {
        let limits = resize_limits(self.parameters_of(cell.kind), cell.data_index);
        let along: u16 = match cell.kind {
            CellKind::ColumnHeader => padding.x,
            _ => padding.y,
        };
        let mut drag = temp.drag_state;
        let outcome = resize_step(
            &mut drag,
            cell.kind,
            cell.data_index,
            cell.size,
            along,
            limits,
            grab_radius,
            input,
        );
        temp.drag_state = drag;
        outcome
    }

    /// What the header of a row or column says: the name that its parameters
    /// give, nothing if they give none, and its number if it has no
    /// parameters. Only the parameters decide whether it is set in monospace.
    pub open spec fn spec_header_label(&self, cell_kind: CellKind, data_index: usize) -> (
        HeaderText<'a>,
        bool,
    ) {
        match cell_kind {
            CellKind::ColumnHeader | CellKind::RowHeader => {
                let parameters = self.spec_parameters_of(cell_kind);
                if data_index < parameters.len() {
                    (
                        match &parameters[data_index as int].name {
                            Some(name) => HeaderText::Name(name),
                            None => HeaderText::Empty,
                        },
                        parameters[data_index as int].monospace,
                    )
                } else if self.zero_based_headers {
                    (HeaderText::Number(data_index as u128), false)
                } else {
                    (HeaderText::Number((data_index + 1) as u128), false)
                }
            },
            _ => (HeaderText::Corner, false),
        }
    }

    /// Decide what the header of a row or column says.
    pub fn header_label(&self, cell_kind: CellKind, data_index: usize) -> (r: HeaderLabel<'a>)
        ensures
            (r.text, r.monospace) == self.spec_header_label(cell_kind, data_index),
    {
        match cell_kind {
            CellKind::ColumnHeader | CellKind::RowHeader => {
                match parameters_at(self.parameters_of(cell_kind), data_index) {
                    Some(p) => HeaderLabel {
                        text: match &p.name {
                            Some(name) => HeaderText::Name(name),
                            None => HeaderText::Empty,
                        },
                        monospace: p.monospace,
                    },
                    None => HeaderLabel {
                        text: if self.zero_based_headers {
                            HeaderText::Number(data_index as u128)
                        } else {
                            HeaderText::Number(data_index as u128 + 1)
                        },
                        monospace: false,
                    },
                }
            },
            _ => HeaderLabel { text: HeaderText::Corner, monospace: false },
        }
    }
}

} // verus!
