//! The plan of one axis for one frame: the window that the viewport opens on
//! it, and the track that the layout walks.

use vstd::prelude::*;
use crate::axis::{filter_view, AxisModel, LINE_WIDTH};
use crate::geometry::Span;
use crate::ordering::{ordering_entries, ordering_or_identity};
use crate::sizing::AxisSizingStore;
use crate::track::{Track, START_LIMIT};
use crate::window::{lemma_uniform_window, window_axis, windowed_range, ViewportWindow};

verus! {

/// Everything that the layout of a frame depends on along one axis.
pub struct AxisFrame<'a> {
    /// The number of rows or columns of the data.
    pub count: usize,
    /// The sizes kept by data index.
    pub sizes: &'a AxisSizingStore,
    /// The data index of each visible position; absent for the identity.
    pub ordering: Option<&'a [usize]>,
    /// The data indices that are not shown.
    pub filter: Option<&'a [usize]>,
    /// The inner size of the header along this axis.
    pub header_size: u32,
    /// What the outside of a cell is longer than its inside.
    pub padding: u16,
    /// How far from the end of a header its resize handle can be grabbed.
    pub grab_radius: u16,
    /// How far the content is scrolled.
    pub scroll: u64,
    /// How much of the content the scroll area shows.
    pub extent: u64,
    /// Where on the screen the content begins.
    pub content_origin: i64,
    /// Where on the screen the header is pinned.
    pub pinned: i64,
    /// The part of the screen that may be drawn on.
    pub clip: Span,
}

/// On an axis of equal sizes, without ordering or filter, the first window of
/// the plan lies at the position `scroll / pitch`, as long as the axis is not
/// scrolled beyond its end; `pitch` is what a position takes: its size, the
/// padding and the line.
pub proof fn lemma_uniform_plan_origin<'a>(frame: AxisFrame<'a>, plan: AxisPlan<'a>, size: u32)
    requires
        frame.is_plan(plan),
        frame.ordering is None,
        frame.filter is None,
        forall|i: int| 0 <= i < frame.sizes@.len() ==> frame.sizes@[i] == size,
        frame.near() < frame.sizes@.len() * (size + frame.gap()),
    ensures
        plan.first.position == frame.near() / (size + frame.gap()),
        plan.first.data_index == plan.first.position,
        plan.first.start == plan.first.position * (size + frame.gap()),
        plan.first.filtered == 0,
{
    let spacing: u32 = (frame.padding + LINE_WIDTH) as u32;
    assert(ordering_entries(frame.ordering) =~= Seq::<usize>::empty());
    lemma_uniform_window(frame.sizes@, size, spacing, frame.near(), plan.first);
}

/// The plan of one axis.
pub struct AxisPlan<'a> {
    /// The window at the near edge of the viewport: the first position that
    /// is not scrolled out.
    pub first: ViewportWindow,
    /// The window at the far edge of the viewport.
    pub last: ViewportWindow,
    /// The track to lay out. There is none where the first position lies
    /// beyond the data.
    pub track: Option<Track<'a>>,
    /// The part of the screen that the scroll area shows.
    pub view: Span,
    /// The part of the screen from the start of the first window to the end
    /// of the last, where the cells of the frame go.
    pub body: Span,
}

/// The number of grid positions that the layout is to walk after the header:
/// those from the first window to the last, and as many more as positions are
/// filtered out before the last, since these take no room.
pub open spec fn spec_visible_count(first: ViewportWindow, last: ViewportWindow) -> int {
    last.position - first.position + 1 + last.filtered
}

impl<'a> AxisFrame<'a> {
    /// What each shown position takes beyond its size: the padding and the
    /// line that parts it from the next.
    pub open spec fn gap(&self) -> int {
        self.padding + LINE_WIDTH
    }

    /// The axis as the windower walks it.
    pub open spec fn window_model(&self) -> AxisModel {
        window_axis(
            self.sizes@,
            ordering_entries(self.ordering),
            filter_view(self.filter),
            self.gap(),
        )
    }

    /// The offset of the near edge of the viewport.
    pub open spec fn near(&self) -> int {
        self.scroll as int
    }

    /// The offset of the far edge of the viewport.
    pub open spec fn far(&self) -> int {
        self.scroll + self.extent
    }

    /// The position at which the walk ends: it goes on for the visible count,
    /// but not beyond the data.
    pub open spec fn spec_end(&self, first: ViewportWindow, last: ViewportWindow) -> int {
        if spec_visible_count(first, last) <= self.count - first.position {
            first.position + spec_visible_count(first, last)
        } else {
            self.count as int
        }
    }

    /// The track of the axis, given its two windows.
    pub open spec fn spec_track(&self, first: ViewportWindow, last: ViewportWindow) -> Track<'a> {
        Track {
            count: self.count,
            sizes: self.sizes,
            ordering: self.ordering,
            filter: self.filter,
            header_size: self.header_size,
            padding: self.padding,
            grab_radius: self.grab_radius,
            origin: first.position,
            end: self.spec_end(first, last) as usize,
            start: (first.start + self.content_origin) as i128,
            pinned: self.pinned,
            view: self.spec_view(),
            clip: self.clip,
        }
    }

    /// The part of the screen that the scroll area shows.
    pub open spec fn spec_view(&self) -> Span {
        Span {
            min: (self.scroll + self.content_origin) as i128,
            max: (self.scroll + self.extent + self.content_origin) as i128,
        }
    }

    /// The plan of the axis, given its two windows: the track starts at the
    /// first window if that lies within the data.
    pub open spec fn spec_plan(&self, first: ViewportWindow, last: ViewportWindow) -> AxisPlan<'a> {
        AxisPlan {
            first,
            last,
            track: if first.position <= self.count {
                Some(self.spec_track(first, last))
            } else {
                None
            },
            view: self.spec_view(),
            body: Span {
                min: (first.start + self.content_origin) as i128,
                max: (last.end + self.content_origin) as i128,
            },
        }
    }

    /// `plan` is the plan of this axis: its windows are those of the two edges
    /// of the viewport, and its track follows from them.
    pub open spec fn is_plan(&self, plan: AxisPlan<'a>) -> bool {
        &&& self.window_model().is_window(plan.first, self.near())
        &&& self.window_model().is_window(plan.last, self.far())
        &&& plan == self.spec_plan(plan.first, plan.last)
        &&& plan.first.position <= plan.last.position
        &&& plan.first.filtered <= plan.first.position
        &&& plan.track matches Some(t) ==> t.wf()
    }

    /// Plan the axis for the frame. Only an axis without any sizes has no
    /// plan.
    pub fn plan(&self) -> (r: Option<AxisPlan<'a>>)
        ensures
            r is None <==> self.sizes@.len() == 0,
            r matches Some(plan) ==> self.is_plan(plan),
    {
        let gap: u32 = self.padding as u32 + LINE_WIDTH as u32;
        let ordering: &[usize] = ordering_or_identity(self.ordering);
        let sizes: &[u32] = self.sizes.as_slice();
        let first = match windowed_range(
            self.scroll as i128,
            sizes,
            ordering,
            self.filter,
            gap,
        ) {
            Ok(w) => w,
            Err(_) => {
                return None;
            },
        };
        let last = match windowed_range(
            self.scroll as i128 + self.extent as i128,
            sizes,
            ordering,
            self.filter,
            gap,
        ) {
            Ok(w) => w,
            Err(_) => {
                return None;
            },
        };
        proof {
            let axis = self.window_model();
            axis.lemma_window_monotone(first, self.near(), last, self.far());
            axis.lemma_extent_bounds(0, first.position as int);
            axis.lemma_extent_bounds(0, last.position as int);
        }
        let origin_on_screen: i128 = self.content_origin as i128;
        let view = Span {
            min: self.scroll as i128 + origin_on_screen,
            max: self.scroll as i128 + self.extent as i128 + origin_on_screen,
        };
        let body = Span { min: first.start + origin_on_screen, max: last.end + origin_on_screen };
        if first.position > self.count {
            return Some(AxisPlan { first, last, track: None, view, body });
        }
        let room: usize = self.count - first.position;
        let reach: usize = last.position - first.position;
        // The visible count is `reach + 1 + last.filtered`; the walk takes the
        // smaller of that and `room`.
        let steps: usize = if reach >= room {
            room
        } else if last.filtered >= room - reach - 1 {
            room
        } else {
            reach + 1 + last.filtered
        };
        let track = Track {
            count: self.count,
            sizes: self.sizes,
            ordering: self.ordering,
            filter: self.filter,
            header_size: self.header_size,
            padding: self.padding,
            grab_radius: self.grab_radius,
            origin: first.position,
            end: first.position + steps,
            start: first.start + origin_on_screen,
            pinned: self.pinned,
            view,
            clip: self.clip,
        };
        Some(AxisPlan { first, last, track: Some(track), view, body })
    }
}

} // verus!
