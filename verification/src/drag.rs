//! The two drag controllers: the one that resizes a row or column by the edge
//! of its header, and the one that reorders an axis by dropping one header
//! onto another.
//!
//! Both share one slot of state, so at most one drag is under way at any time.

use vstd::prelude::*;
use crate::geometry::Position;
use crate::index::{Action, CellKind};
use crate::sizing::{parameters_at, parameters_view, spec_clamp, AxisParameters,
    DEFAULT_MINIMUM_DIMENSION};

verus! {

/// What a drag does.
#[derive(Debug, Clone, Copy, PartialEq, Eq, Structural, Hash)]
pub enum DragKind {
    ResizeRow,
    ResizeColumn,
    ReorderRow,
    ReorderColumn,
}

/// The drag that is under way.
#[derive(Debug, Clone, Copy, PartialEq, Eq, Structural)]
pub struct DragState {
    pub kind: DragKind,
    /// The data index of the row or column that is resized or carried.
    pub data_index: usize,
    /// Where the pointer was when the drag began.
    pub pointer_start: Position,
    /// For a resize, the outer size of the header when the drag began; zero
    /// for a reorder.
    pub initial_size: u64,
}

/// How the handle at the edge of a header is drawn.
#[derive(Debug, Clone, Copy, PartialEq, Eq, Structural, Hash)]
pub enum DragHandleState {
    /// The pointer is over the handle of a row or column that is not
    /// resizable.
    Disabled,
    Inactive,
    Hovered,
    Dragged,
}

/// The limits of one row or column for a resize.
#[derive(Debug, Clone, Copy, PartialEq, Eq, Structural)]
pub struct ResizeLimits {
    pub minimum: u32,
    pub maximum: u32,
    pub resizable: bool,
}

/// The limits that the parameters give to a data index; where the caller
/// supplied none for it, the defaults.
pub open spec fn spec_resize_limits(parameters: Seq<AxisParameters>, index: int) -> ResizeLimits {
    if 0 <= index < parameters.len() {
        ResizeLimits {
            minimum: parameters[index].minimum_dimension,
            maximum: parameters[index].maximum_dimension,
            resizable: parameters[index].resizable,
        }
    } else {
        ResizeLimits { minimum: DEFAULT_MINIMUM_DIMENSION, maximum: u32::MAX, resizable: true }
    }
}

/// Look up the limits of a data index.
pub fn resize_limits(parameters: Option<&Vec<AxisParameters>>, index: usize) -> (r: ResizeLimits)
    ensures
        r == spec_resize_limits(parameters_view(parameters), index as int),
{
    match parameters_at(parameters, index) {
        Some(p) => ResizeLimits {
            minimum: p.minimum_dimension,
            maximum: p.maximum_dimension,
            resizable: p.resizable,
        },
        None => ResizeLimits {
            minimum: DEFAULT_MINIMUM_DIMENSION,
            maximum: u32::MAX,
            resizable: true,
        },
    }
}

/// The smallest size at which a handle can still be grabbed: twice the grab
/// radius and two units more.
pub open spec fn spec_minimum_grabbable_size(grab_radius: u16) -> int {
    2 * grab_radius + 2
}

/// Compute the smallest size at which a handle can still be grabbed.
pub fn minimum_grabbable_size(grab_radius: u16) -> (r: u32)
    ensures
        r == spec_minimum_grabbable_size(grab_radius),
{
    2 * (grab_radius as u32) + 2
}

/// The size that a drag asks for. The outer size at the start of the drag and
/// the way that the pointer has gone since give the new outer size; without the
/// padding that is the candidate, which is held to `[minimum, maximum]` and then
/// raised to the smallest grabbable size.
pub open spec fn spec_dragged_size(
    initial_size: int,
    delta: int,
    padding: int,
    limits: ResizeLimits,
    grab_radius: u16,
) -> int {
    let candidate = initial_size + delta - padding;
    let clamped = spec_clamp(candidate, limits.minimum as int, limits.maximum as int);
    if clamped < spec_minimum_grabbable_size(grab_radius) {
        spec_minimum_grabbable_size(grab_radius)
    } else {
        clamped
    }
}

/// Compute the size that a drag asks for.
pub fn dragged_size(
    initial_size: u64,
    delta: i128,
    padding: u16,
    limits: ResizeLimits,
    grab_radius: u16,
) -> (r: u32)
    requires
        limits.minimum <= limits.maximum,
    ensures
        r == spec_dragged_size(
            initial_size as int,
            delta as int,
            padding as int,
            limits,
            grab_radius,
        ),
{
    // Beyond this distance the candidate lies outside every range of sizes, so
    // the sum need not be formed.
    let far: i128 = 0x2_0000_0000_0000_0000;
    let clamped: u32 = if delta >= far {
        limits.maximum
    } else if delta <= -far {
        limits.minimum
    } else {
        let candidate: i128 = initial_size as i128 + delta - padding as i128;
        if candidate < limits.minimum as i128 {
            limits.minimum
        } else if candidate > limits.maximum as i128 {
            limits.maximum
        } else {
            candidate as u32
        }
    };
    let grabbable: u32 = minimum_grabbable_size(grab_radius);
    if clamped < grabbable {
        grabbable
    } else {
        clamped
    }
}

/// However far the pointer has gone, the size that a drag asks for is at least
/// the larger of the minimum and the smallest grabbable size, and at most the
/// maximum, as long as the maximum leaves room for a grabbable handle.
pub proof fn lemma_dragged_size_within_limits(
    initial_size: int,
    delta: int,
    padding: int,
    limits: ResizeLimits,
    grab_radius: u16,
)
    requires
        limits.minimum <= limits.maximum,
        spec_minimum_grabbable_size(grab_radius) <= limits.maximum,
    ensures
        limits.minimum <= spec_dragged_size(initial_size, delta, padding, limits, grab_radius),
        spec_minimum_grabbable_size(grab_radius) <= spec_dragged_size(
            initial_size,
            delta,
            padding,
            limits,
            grab_radius,
        ),
        spec_dragged_size(initial_size, delta, padding, limits, grab_radius) <= limits.maximum,
{
}

/// Whatever the maximum is, the size that a drag asks for is at least the
/// larger of the minimum and the smallest grabbable size, and exceeds the
/// maximum only to keep the handle grabbable.
pub proof fn lemma_dragged_size_lower_bound(
    initial_size: int,
    delta: int,
    padding: int,
    limits: ResizeLimits,
    grab_radius: u16,
)
    requires
        limits.minimum <= limits.maximum,
    ensures
        limits.minimum <= spec_dragged_size(initial_size, delta, padding, limits, grab_radius),
        spec_minimum_grabbable_size(grab_radius) <= spec_dragged_size(
            initial_size,
            delta,
            padding,
            limits,
            grab_radius,
        ),
        spec_dragged_size(initial_size, delta, padding, limits, grab_radius) <= limits.maximum
            || spec_dragged_size(initial_size, delta, padding, limits, grab_radius)
            == spec_minimum_grabbable_size(grab_radius),
{
}

/// The resize that the edge of a header starts: that of a column for a column
/// header, that of a row for a row header. Other cells have no handle.
pub open spec fn spec_resize_kind(cell_kind: CellKind) -> Option<DragKind> {
    match cell_kind {
        CellKind::ColumnHeader => Some(DragKind::ResizeColumn),
        CellKind::RowHeader => Some(DragKind::ResizeRow),
        _ => None,
    }
}

/// The reorder that a drag of a header starts. Other cells are not carried.
pub open spec fn spec_reorder_kind(cell_kind: CellKind) -> Option<DragKind> {
    match cell_kind {
        CellKind::ColumnHeader => Some(DragKind::ReorderColumn),
        CellKind::RowHeader => Some(DragKind::ReorderRow),
        _ => None,
    }
}

/// The resize that the edge of a cell of this kind starts, if any.
pub fn resize_kind(cell_kind: CellKind) -> (r: Option<DragKind>)
    ensures
        r == spec_resize_kind(cell_kind),
{
    match cell_kind {
        CellKind::ColumnHeader => Some(DragKind::ResizeColumn),
        CellKind::RowHeader => Some(DragKind::ResizeRow),
        _ => None,
    }
}

/// The reorder that a drag of a cell of this kind starts, if any.
pub fn reorder_kind(cell_kind: CellKind) -> (r: Option<DragKind>)
    ensures
        r == spec_reorder_kind(cell_kind),
{
    match cell_kind {
        CellKind::ColumnHeader => Some(DragKind::ReorderColumn),
        CellKind::RowHeader => Some(DragKind::ReorderRow),
        _ => None,
    }
}

/// What the input source reports of the handle of one header in one frame.
#[derive(Debug, Clone, Copy, PartialEq, Eq, Structural)]
pub struct HandleInput {
    /// The pointer is over the handle.
    pub hovered: bool,
    /// The primary button went down on the handle and the pointer began to
    /// move.
    pub drag_started: bool,
    /// The button that dragged the handle was released.
    pub drag_stopped: bool,
    /// Where the pointer is, if it is anywhere.
    pub pointer: Option<Position>,
}

/// What the resize controller makes of the handle of one header in one frame.
#[derive(Debug, Clone, Copy, PartialEq, Eq, Structural)]
pub struct HandleOutcome {
    pub state: DragHandleState,
    /// The size that the drag of this handle asks for, while there is one.
    pub size: Option<u32>,
    /// That size again, where it differs from the size that the row or column
    /// has: it is to be written to the store at the end of the frame.
    pub staged: Option<u32>,
    /// The drag ended: the slot is to be cleared at the end of the frame.
    pub released: bool,
}

/// The slot after a press on a handle: a drag begins if none is under way and
/// the pointer is known.
pub open spec fn spec_after_press(
    drag: Option<DragState>,
    kind: DragKind,
    data_index: usize,
    inner_size: u32,
    padding: u16,
    input: HandleInput,
) -> Option<DragState> {
    if input.drag_started && drag is None {
        match input.pointer {
            Some(p) => Some(
                DragState {
                    kind,
                    data_index,
                    pointer_start: p,
                    initial_size: (inner_size + padding) as u64,
                },
            ),
            None => None,
        }
    } else {
        drag
    }
}

/// How far the pointer has gone since the drag began, along the direction in
/// which the drag resizes. An unknown pointer has not moved.
pub open spec fn spec_drag_delta(drag: DragState, pointer: Option<Position>) -> int {
    match pointer {
        Some(p) => if drag.kind == DragKind::ResizeColumn {
            p.x - drag.pointer_start.x
        } else {
            p.y - drag.pointer_start.y
        },
        None => 0,
    }
}

/// Whether the drag in the slot is the resize of this row or column.
pub open spec fn spec_resizes(drag: Option<DragState>, kind: DragKind, data_index: usize) -> bool {
    drag matches Some(d) && d.kind == kind && d.data_index == data_index
}

/// How the handle is drawn while no drag of it is under way.
pub open spec fn spec_idle_handle(hovered: bool, resizable: bool) -> DragHandleState {
    if hovered {
        if resizable {
            DragHandleState::Hovered
        } else {
            DragHandleState::Disabled
        }
    } else {
        DragHandleState::Inactive
    }
}

/// What one frame does to the slot and the handle of one header.
///
/// A cell that is no header, and a row or column that is not resizable, never
/// start or continue a drag. Otherwise a press starts a drag if none is under
/// way, and while the drag of this handle is under way the handle asks for the
/// dragged size. A handle whose drag stops reports the release, also where its
/// row or column has ceased to be resizable while it was dragged.
pub open spec fn spec_resize_step(
    drag: Option<DragState>,
    cell_kind: CellKind,
    data_index: usize,
    inner_size: u32,
    padding: u16,
    limits: ResizeLimits,
    grab_radius: u16,
    input: HandleInput,
) -> (Option<DragState>, HandleOutcome) {
    match spec_resize_kind(cell_kind) {
        Some(kind) if limits.resizable => {
            let next = spec_after_press(drag, kind, data_index, inner_size, padding, input);
            if spec_resizes(next, kind, data_index) {
                let size = spec_dragged_size(
                    next.unwrap().initial_size as int,
                    spec_drag_delta(next.unwrap(), input.pointer),
                    padding as int,
                    limits,
                    grab_radius,
                ) as u32;
                (
                    next,
                    HandleOutcome {
                        state: DragHandleState::Dragged,
                        size: Some(size),
                        staged: if size != inner_size {
                            Some(size)
                        } else {
                            None
                        },
                        released: input.drag_stopped,
                    },
                )
            } else {
                (
                    next,
                    HandleOutcome {
                        state: spec_idle_handle(input.hovered, true),
                        size: None,
                        staged: None,
                        released: input.drag_stopped,
                    },
                )
            }
        },
        Some(kind) => (
            drag,
            HandleOutcome {
                state: spec_idle_handle(input.hovered, false),
                size: None,
                staged: None,
                released: input.drag_stopped && spec_resizes(drag, kind, data_index),
            },
        ),
        None => (
            drag,
            HandleOutcome {
                state: DragHandleState::Inactive,
                size: None,
                staged: None,
                released: false,
            },
        ),
    }
}

/// A size lies between the larger of the minimum and the smallest grabbable
/// size, and the maximum.
pub open spec fn spec_within_limits(size: u32, limits: ResizeLimits, grab_radius: u16) -> bool {
    &&& limits.minimum <= size
    &&& spec_minimum_grabbable_size(grab_radius) <= size
    &&& size <= limits.maximum
}

/// Whatever the pointer does, a size that the resize controller shows or
/// stages lies within the limits, as long as the maximum leaves room for a
/// grabbable handle.
pub proof fn lemma_resize_step_within_limits(
    drag: Option<DragState>,
    cell_kind: CellKind,
    data_index: usize,
    inner_size: u32,
    padding: u16,
    limits: ResizeLimits,
    grab_radius: u16,
    input: HandleInput,
)
    requires
        limits.minimum <= limits.maximum,
        spec_minimum_grabbable_size(grab_radius) <= limits.maximum,
    ensures
        spec_resize_step(
            drag,
            cell_kind,
            data_index,
            inner_size,
            padding,
            limits,
            grab_radius,
            input,
        ).1.size matches Some(size) ==> spec_within_limits(size, limits, grab_radius),
        spec_resize_step(
            drag,
            cell_kind,
            data_index,
            inner_size,
            padding,
            limits,
            grab_radius,
            input,
        ).1.staged matches Some(size) ==> spec_within_limits(size, limits, grab_radius),
{
}

/// The step of the resize controller can be taken: where the drag of this
/// handle is under way, the limits are ordered, so that a size can be held to
/// them.
pub open spec fn spec_resize_step_defined(
    drag: Option<DragState>,
    cell_kind: CellKind,
    data_index: usize,
    inner_size: u32,
    padding: u16,
    limits: ResizeLimits,
    input: HandleInput,
) -> bool {
    spec_resize_kind(cell_kind) matches Some(kind) && limits.resizable && spec_resizes(
        spec_after_press(drag, kind, data_index, inner_size, padding, input),
        kind,
        data_index,
    ) ==> limits.minimum <= limits.maximum
}

/// Whether the step of the resize controller can be taken.
pub fn resize_step_defined(
    drag: &Option<DragState>,
    cell_kind: CellKind,
    data_index: usize,
    inner_size: u32,
    padding: u16,
    limits: ResizeLimits,
    input: HandleInput,
) -> (r: bool)
    ensures
        r == spec_resize_step_defined(
            *drag,
            cell_kind,
            data_index,
            inner_size,
            padding,
            limits,
            input,
        ),
{
    let kind: DragKind = match resize_kind(cell_kind) {
        Some(kind) => kind,
        None => {
            return true;
        },
    };
    if !limits.resizable {
        return true;
    }
    let resizes: bool = match drag {
        Some(d) => d.kind == kind && d.data_index == data_index,
        None => input.drag_started && input.pointer.is_some(),
    };
    !resizes || limits.minimum <= limits.maximum
}

/// Take one step of the resize controller for the handle of one header.
///
/// `inner_size` is the size that the row or column has in the store, and
/// `limits` are those of its data index.
pub fn resize_step(
    drag: &mut Option<DragState>,
    cell_kind: CellKind,
    data_index: usize,
    inner_size: u32,
    padding: u16,
    limits: ResizeLimits,
    grab_radius: u16,
    input: HandleInput,
) -> (outcome: HandleOutcome)
    requires
        spec_resize_step_defined(
            *old(drag),
            cell_kind,
            data_index,
            inner_size,
            padding,
            limits,
            input,
        ),
    ensures
        (*final(drag), outcome) == spec_resize_step(
            *old(drag),
            cell_kind,
            data_index,
            inner_size,
            padding,
            limits,
            grab_radius,
            input,
        ),
{
    let kind: DragKind = match resize_kind(cell_kind) {
        Some(kind) => kind,
        None => {
            return HandleOutcome {
                state: DragHandleState::Inactive,
                size: None,
                staged: None,
                released: false,
            };
        },
    };
    if !limits.resizable {
        let dragged: bool = match *drag {
            Some(d) => d.kind == kind && d.data_index == data_index,
            None => false,
        };
        return HandleOutcome {
            state: if input.hovered {
                DragHandleState::Disabled
            } else {
                DragHandleState::Inactive
            },
            size: None,
            staged: None,
            released: input.drag_stopped && dragged,
        };
    }
    if input.drag_started && drag.is_none() {
        match input.pointer {
            Some(p) => {
                *drag = Some(
                    DragState {
                        kind,
                        data_index,
                        pointer_start: p,
                        initial_size: inner_size as u64 + padding as u64,
                    },
                );
            },
            None => {},
        }
    }
    match *drag {
        Some(d) => {
            if d.kind == kind && d.data_index == data_index {
                let delta: i128 = match input.pointer {
                    Some(p) => {
                        if d.kind == DragKind::ResizeColumn {
                            p.x as i128 - d.pointer_start.x as i128
                        } else {
                            p.y as i128 - d.pointer_start.y as i128
                        }
                    },
                    None => 0,
                };
                let size: u32 = dragged_size(d.initial_size, delta, padding, limits, grab_radius);
                return HandleOutcome {
                    state: DragHandleState::Dragged,
                    size: Some(size),
                    staged: if size != inner_size {
                        Some(size)
                    } else {
                        None
                    },
                    released: input.drag_stopped,
                };
            }
        },
        None => {},
    }
    HandleOutcome {
        state: if input.hovered {
            DragHandleState::Hovered
        } else {
            DragHandleState::Inactive
        },
        size: None,
        staged: None,
        released: input.drag_stopped,
    }
}

/// What the pointer looks like over a handle.
#[derive(Debug, Clone, Copy, PartialEq, Eq, Structural, Hash)]
pub enum HandleCursor {
    /// The row or column cannot be resized.
    NotAllowed,
    ResizeColumn,
    ResizeRow,
}

/// What the pointer is to look like for a handle in a given state: a handle
/// that cannot be dragged forbids, one that is hovered or dragged shows the
/// direction of the resize, and one that is left alone shows nothing.
pub open spec fn spec_handle_cursor(state: DragHandleState, cell_kind: CellKind) -> Option<
    HandleCursor,
> {
    match state {
        DragHandleState::Disabled => Some(HandleCursor::NotAllowed),
        DragHandleState::Inactive => None,
        DragHandleState::Hovered | DragHandleState::Dragged => match cell_kind {
            CellKind::ColumnHeader => Some(HandleCursor::ResizeColumn),
            CellKind::RowHeader => Some(HandleCursor::ResizeRow),
            _ => None,
        },
    }
}

/// Choose what the pointer is to look like for a handle.
pub fn handle_cursor(state: DragHandleState, cell_kind: CellKind) -> (r: Option<HandleCursor>)
    ensures
        r == spec_handle_cursor(state, cell_kind),
{
    match state {
        DragHandleState::Disabled => Some(HandleCursor::NotAllowed),
        DragHandleState::Inactive => None,
        DragHandleState::Hovered | DragHandleState::Dragged => match cell_kind {
            CellKind::ColumnHeader => Some(HandleCursor::ResizeColumn),
            CellKind::RowHeader => Some(HandleCursor::ResizeRow),
            _ => None,
        },
    }
}

/// What a header carries while it is dragged onto another.
#[derive(Debug, Clone, Copy, PartialEq, Eq, Structural)]
pub struct DragPayload {
    pub cell_kind: CellKind,
    /// The data index of the row or column of the header.
    pub index: usize,
}

/// The payload that a cell carries when it is dragged: headers carry their
/// kind and data index, other cells carry nothing.
pub open spec fn spec_drag_payload(cell_kind: CellKind, index: usize) -> Option<DragPayload> {
    match cell_kind {
        CellKind::ColumnHeader | CellKind::RowHeader => Some(DragPayload { cell_kind, index }),
        _ => None,
    }
}

/// The payload of a cell as a drag source.
pub fn drag_payload(cell_kind: CellKind, index: usize) -> (r: Option<DragPayload>)
    ensures
        r == spec_drag_payload(cell_kind, index),
{
    match cell_kind {
        CellKind::ColumnHeader | CellKind::RowHeader => Some(DragPayload { cell_kind, index }),
        _ => None,
    }
}

/// What a drop asks for: a header dropped onto another header of its own kind
/// and of another data index reorders the axis. Anything else asks nothing.
pub open spec fn spec_drop_action(payload: DragPayload, target_kind: CellKind, target_index: usize)
    -> Option<Action> {
    if payload.cell_kind == CellKind::ColumnHeader && target_kind == CellKind::ColumnHeader
        && payload.index != target_index {
        Some(Action::ColumnReorder { from: payload.index, to: target_index })
    } else if payload.cell_kind == CellKind::RowHeader && target_kind == CellKind::RowHeader
        && payload.index != target_index {
        Some(Action::RowReorder { from: payload.index, to: target_index })
    } else {
        None
    }
}

/// Decide what the drop of `payload` onto a cell asks for. The ordering itself
/// is left alone: the caller applies the action, moves its data, or ignores
/// it.
pub fn drop_action(payload: DragPayload, target_kind: CellKind, target_index: usize) -> (r: Option<
    Action,
>)
    ensures
        r == spec_drop_action(payload, target_kind, target_index),
{
    match (payload.cell_kind, target_kind) {
        (CellKind::ColumnHeader, CellKind::ColumnHeader) => {
            if payload.index != target_index {
                Some(Action::ColumnReorder { from: payload.index, to: target_index })
            } else {
                None
            }
        },
        (CellKind::RowHeader, CellKind::RowHeader) => {
            if payload.index != target_index {
                Some(Action::RowReorder { from: payload.index, to: target_index })
            } else {
                None
            }
        },
        _ => None,
    }
}

/// The slot after a header began to be carried: a reorder begins if the cell
/// is a header, no drag is under way and the pointer is known.
pub open spec fn spec_begin_reorder(
    drag: Option<DragState>,
    cell_kind: CellKind,
    data_index: usize,
    pointer: Option<Position>,
) -> Option<DragState> {
    match (drag, spec_reorder_kind(cell_kind), pointer) {
        (None, Some(kind), Some(p)) => Some(
            DragState { kind, data_index, pointer_start: p, initial_size: 0 },
        ),
        _ => drag,
    }
}

/// Begin to carry a header.
pub fn begin_reorder(
    drag: &mut Option<DragState>,
    cell_kind: CellKind,
    data_index: usize,
    pointer: Option<Position>,
)
    ensures
        *final(drag) == spec_begin_reorder(*old(drag), cell_kind, data_index, pointer),
{
    if drag.is_none() {
        match (reorder_kind(cell_kind), pointer) {
            (Some(kind), Some(p)) => {
                *drag = Some(DragState { kind, data_index, pointer_start: p, initial_size: 0 });
            },
            _ => {},
        }
    }
}

/// What the drag in the slot carries: the header of a reorder. A resize and an
/// empty slot carry nothing.
pub open spec fn spec_carried_payload(drag: Option<DragState>) -> Option<DragPayload> {
    match drag {
        Some(d) => match d.kind {
            DragKind::ReorderColumn => Some(
                DragPayload { cell_kind: CellKind::ColumnHeader, index: d.data_index },
            ),
            DragKind::ReorderRow => Some(
                DragPayload { cell_kind: CellKind::RowHeader, index: d.data_index },
            ),
            _ => None,
        },
        None => None,
    }
}

/// The header that is carried, if one is.
pub fn carried_payload(drag: &Option<DragState>) -> (r: Option<DragPayload>)
    ensures
        r == spec_carried_payload(*drag),
{
    match drag {
        Some(d) => match d.kind {
            DragKind::ReorderColumn => Some(
                DragPayload { cell_kind: CellKind::ColumnHeader, index: d.data_index },
            ),
            DragKind::ReorderRow => Some(
                DragPayload { cell_kind: CellKind::RowHeader, index: d.data_index },
            ),
            _ => None,
        },
        None => None,
    }
}

/// What a release of the pointer over a cell does: a carried header is put
/// down, which empties the slot and may ask for a reorder; otherwise nothing
/// happens.
pub open spec fn spec_drop_reorder(
    drag: Option<DragState>,
    target_kind: CellKind,
    target_index: usize,
) -> (Option<DragState>, Option<Action>) {
    match spec_carried_payload(drag) {
        Some(payload) => (None, spec_drop_action(payload, target_kind, target_index)),
        None => (drag, None),
    }
}

/// Put the carried header down on a cell.
pub fn drop_reorder(drag: &mut Option<DragState>, target_kind: CellKind, target_index: usize) -> (r:
    Option<Action>)
    ensures
        (*final(drag), r) == spec_drop_reorder(*old(drag), target_kind, target_index),
{
    match carried_payload(drag) {
        Some(payload) => {
            *drag = None;
            drop_action(payload, target_kind, target_index)
        },
        None => None,
    }
}

/// End whatever drag is under way, as when the pointer is released.
pub fn end_drag(drag: &mut Option<DragState>)
    ensures
        *final(drag) is None,
{
    *drag = None;
}

} // verus!
