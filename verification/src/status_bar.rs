//! A status bar widget.
//! Can be used for loading bars, but also health-bars, mana, those kind of things.

use vstd::prelude::*;

verus! {

use crate::mapping::{map_range, map_range_spec, in_val_range};

/// Defines the direction the progress bar will increase the size of the inner node.
///
/// It increases in the direction of the flex-axis.
#[derive(Clone, Copy, Debug, PartialEq, Eq, Structural)]
pub enum StatusBarDirection {
    /// Direction from FlexStart to FlexEnd
    Horizontal,
    /// Direction from CrossStart to CrossEnd
    Vertical,
}

impl Default for StatusBarDirection {
    /// The default direction is horizontal.
    fn default() -> (r: Self)
        ensures
            r == StatusBarDirection::Horizontal,
    {
        StatusBarDirection::Horizontal
    }
}

/// Marker component for the inner box of the progress bar.
#[derive(Clone, Copy, Debug, Default, PartialEq, Eq, Structural)]
pub struct StatusBarInner;

/// One dimension of a node's layout size, as the host's layout system reads
/// it. The synchronization routine only ever writes the `Percent` variant;
/// the other variants exist so a child's untouched axis is carried through
/// unchanged.
#[derive(Clone, Copy, Debug, PartialEq, Eq, Structural)]
pub enum Val {
    /// No explicitly set value.
    Undefined,
    /// Automatically determined by the layout system.
    Auto,
    /// A fixed number of pixels.
    Px(i64),
    /// A percentage of the parent's allocated space.
    Percent(i64),
}

/// A two-dimensional layout size: the record of an inner node that the
/// synchronization routine rewrites along one axis.
#[derive(Clone, Copy, Debug, PartialEq, Eq, Structural)]
pub struct Size {
    /// The horizontal extent.
    pub width: Val,
    /// The vertical extent.
    pub height: Val,
}

impl Size {
    /// Creates a new [`Size`] from both axes.
    pub fn new(width: Val, height: Val) -> (r: Size)
        ensures
            r.width == width,
            r.height == height,
    {
        Size { width, height }
    }
}

/// A status bar widget.
#[derive(Clone, Debug)]
pub struct StatusBarWidget {
    /// The current progress of the progress bar.
    ///
    /// Valid range between min and max, inclusive.
    progress: i64,
    /// Minimum valid value that progress can have. Inclusive.
    min: i64,
    /// Maximum valid value that progress can have. Inclusive.
    max: i64,
    /// Defines the direction of the `ProgressBarWidget`.
    direction: StatusBarDirection,
    /// Whether progress changed since the last synchronization pass.
    changed: bool,
}

impl StatusBarWidget {
    /// The stored progress value.
    pub closed spec fn progress_spec(&self) -> int {
        self.progress as int
    }

    /// The inclusive lower bound of the valid progress range.
    pub closed spec fn min_spec(&self) -> int {
        self.min as int
    }

    /// The inclusive upper bound of the valid progress range.
    pub closed spec fn max_spec(&self) -> int {
        self.max as int
    }

    /// The axis driven by progress.
    pub closed spec fn direction_spec(&self) -> StatusBarDirection {
        self.direction
    }

    /// Whether progress changed since the last synchronization pass.
    pub closed spec fn changed_spec(&self) -> bool {
        self.changed
    }

    /// Well-formedness: the range is ordered and every stored value lies
    /// within the machine bound of the range mapping.
    pub open spec fn wf(&self) -> bool {
        &&& self.min_spec() <= self.max_spec()
        &&& in_val_range(self.min_spec())
        &&& in_val_range(self.max_spec())
        &&& in_val_range(self.progress_spec())
    }

    /// The storage policy of `set_progress`: a value within `[min, max]` is
    /// stored as-is; a value below `min` is stored as the literal `0`; a
    /// value above `max` as the literal `1` (the normalized endpoints, not
    /// the bounds themselves).
    pub open spec fn snapped(&self, value: int) -> int {
        if self.min_spec() <= value && value <= self.max_spec() {
            value
        } else if value < self.min_spec() {
            0
        } else {
            1
        }
    }

    /// The stored progress mapped linearly from `[min, max]` onto the
    /// percentage range `[0, 100]`. Not clamped: stored progress outside
    /// `[min, max]` yields a percentage outside `[0, 100]`.
    pub open spec fn percent_spec(&self) -> int {
        map_range_spec(self.progress_spec(), self.min_spec(), self.max_spec(), 0, 100)
    }

    /// Whether `new` accepts these arguments: an ordered range within the
    /// machine bound of the range mapping.
    pub open spec fn valid_new(progress: int, min: int, max: int) -> bool {
        &&& min <= max
        &&& in_val_range(progress)
        &&& in_val_range(min)
        &&& in_val_range(max)
    }

    /// Creates a new [`StatusBarWidget`].
    ///
    /// Construction demands `min <= max`; a caller that cannot guarantee it
    /// must go through [`StatusBarWidget::try_new`].
    pub fn new(progress: i64, min: i64, max: i64) -> (r: StatusBarWidget)
        requires
            Self::valid_new(progress as int, min as int, max as int),
        ensures
            r.wf(),
            r.progress_spec() == progress as int,
            r.min_spec() == min as int,
            r.max_spec() == max as int,
            r.direction_spec() == StatusBarDirection::Horizontal,
            r.changed_spec(),
    {
        StatusBarWidget {
            progress,
            min,
            max,
            direction: StatusBarDirection::default(),
            changed: true,
        }
    }

    /// Creates a new [`StatusBarWidget`], or `None` exactly when the
    /// arguments violate the construction invariant.
    pub fn try_new(progress: i64, min: i64, max: i64) -> (r: Option<StatusBarWidget>)
        ensures
            r is Some <==> Self::valid_new(progress as int, min as int, max as int),
            r matches Some(w) ==> {
                &&& w.wf()
                &&& w.progress_spec() == progress as int
                &&& w.min_spec() == min as int
                &&& w.max_spec() == max as int
                &&& w.direction_spec() == StatusBarDirection::Horizontal
                &&& w.changed_spec()
            },
    {
        if min <= max
            && -crate::mapping::VAL_LIMIT <= progress && progress <= crate::mapping::VAL_LIMIT
            && -crate::mapping::VAL_LIMIT <= min && min <= crate::mapping::VAL_LIMIT
            && -crate::mapping::VAL_LIMIT <= max && max <= crate::mapping::VAL_LIMIT
        {
            Some(Self::new(progress, min, max))
        } else {
            None
        }
    }

    /// Gets the current progress.
    pub fn get_progress(&self) -> (r: i64)
        ensures
            r as int == self.progress_spec(),
    {
        self.progress
    }

    /// Sets the current progress.
    ///
    /// A value within `[min, max]` is stored as-is; a value outside is
    /// snapped to the literal `0` (below `min`) or `1` (above `max`).
    pub fn set_progress(&mut self, progress: i64)
        requires
            old(self).wf(),
        ensures
            final(self).wf(),
            final(self).progress_spec() == old(self).snapped(progress as int),
            final(self).min_spec() == old(self).min_spec(),
            final(self).max_spec() == old(self).max_spec(),
            final(self).direction_spec() == old(self).direction_spec(),
            final(self).changed_spec(),
    {
        if progress >= self.min && progress <= self.max {
            self.progress = progress;
        } else if progress < self.min {
            self.progress = 0;
        } else {
            self.progress = 1;
        }
        self.changed = true;
    }

    /// Gets the direction.
    pub fn get_direction(&self) -> (r: StatusBarDirection)
        ensures
            r == self.direction_spec(),
    {
        self.direction
    }

    /// Sets the direction, marking the widget for resynchronization.
    pub fn set_direction(&mut self, direction: StatusBarDirection)
        ensures
            final(self).direction_spec() == direction,
            final(self).progress_spec() == old(self).progress_spec(),
            final(self).min_spec() == old(self).min_spec(),
            final(self).max_spec() == old(self).max_spec(),
            final(self).changed_spec(),
    {
        self.direction = direction;
        self.changed = true;
    }

    /// Gets the inclusive lower bound of the valid progress range.
    pub fn get_min(&self) -> (r: i64)
        ensures
            r as int == self.min_spec(),
    {
        self.min
    }

    /// Gets the inclusive upper bound of the valid progress range.
    pub fn get_max(&self) -> (r: i64)
        ensures
            r as int == self.max_spec(),
    {
        self.max
    }

    /// Whether progress changed since the last synchronization pass.
    pub fn is_changed(&self) -> (r: bool)
        ensures
            r == self.changed_spec(),
    {
        self.changed
    }

    /// The stored progress as a percentage of the `[min, max]` range.
    pub fn percent(&self) -> (r: i64)
        requires
            self.wf(),
            self.min_spec() < self.max_spec(),
        ensures
            r as int == self.percent_spec(),
    {
        map_range(self.progress, (self.min, self.max), (0, 100))
    }

    /// One child's size after synchronization against this widget: the axis
    /// selected by the direction carries the widget's percentage, the other
    /// axis is the child's current value, untouched.
    pub fn sync_size(&self, current: &Size) -> (r: Size)
        requires
            self.wf(),
            self.min_spec() < self.max_spec(),
        ensures
            is_synced(self, *current, r),
    {
        let new_value = Val::Percent(self.percent());
        match self.direction {
            StatusBarDirection::Horizontal => Size::new(new_value, current.height),
            StatusBarDirection::Vertical => Size::new(current.width, new_value),
        }
    }
}

impl Default for StatusBarWidget {
    /// A zero-span widget at progress `0`, horizontal, not yet synchronized.
    fn default() -> (r: Self)
        ensures
            r.wf(),
            r.progress_spec() == 0,
            r.min_spec() == 0,
            r.max_spec() == 0,
            r.direction_spec() == StatusBarDirection::Horizontal,
            !r.changed_spec(),
    {
        StatusBarWidget {
            progress: 0,
            min: 0,
            max: 0,
            direction: StatusBarDirection::Horizontal,
            changed: false,
        }
    }
}

/// `after` is `before` synchronized against `w`: the driven axis carries
/// `w`'s percentage, the other axis is untouched.
pub open spec fn is_synced(w: &StatusBarWidget, before: Size, after: Size) -> bool {
    match w.direction_spec() {
        StatusBarDirection::Horizontal => {
            &&& after.width matches Val::Percent(p) && p as int == w.percent_spec()
            &&& after.height == before.height
        },
        StatusBarDirection::Vertical => {
            &&& after.height matches Val::Percent(p) && p as int == w.percent_spec()
            &&& after.width == before.width
        },
    }
}

/// Law: within the machine bound of the range mapping, construction succeeds
/// exactly when `min <= max`; `min > max` is rejected.
pub proof fn lemma_new_succeeds_iff_ordered(progress: int, min: int, max: int)
    requires
        in_val_range(progress),
        in_val_range(min),
        in_val_range(max),
    ensures
        StatusBarWidget::valid_new(progress, min, max) <==> min <= max,
{
}

/// Law: a progress write within `[min, max]` is stored exactly as given.
pub proof fn lemma_set_progress_in_range(w: &StatusBarWidget, value: int)
    requires
        w.min_spec() <= value <= w.max_spec(),
    ensures
        w.snapped(value) == value,
{
}

/// Law: a progress write below `min` stores exactly `0` (the normalized
/// lower endpoint, not `min`).
pub proof fn lemma_set_progress_below_min(w: &StatusBarWidget, value: int)
    requires
        value < w.min_spec(),
    ensures
        w.snapped(value) == 0,
{
}

/// Law: a progress write above `max` stores exactly `1` (the normalized
/// upper endpoint, not `max`).
pub proof fn lemma_set_progress_above_max(w: &StatusBarWidget, value: int)
    requires
        w.min_spec() <= w.max_spec(),
        value > w.max_spec(),
    ensures
        w.snapped(value) == 1,
{
}

/// Law: synchronization drives exactly one axis. A horizontal widget leaves
/// a child's height untouched and writes its percentage to the width; a
/// vertical widget does the reverse.
pub proof fn lemma_sync_drives_one_axis(w: &StatusBarWidget, before: Size, after: Size)
    requires
        is_synced(w, before, after),
    ensures
        w.direction_spec() == StatusBarDirection::Horizontal ==> {
            &&& after.height == before.height
            &&& after.width matches Val::Percent(p) && p as int == w.percent_spec()
        },
        w.direction_spec() == StatusBarDirection::Vertical ==> {
            &&& after.width == before.width
            &&& after.height matches Val::Percent(p) && p as int == w.percent_spec()
        },
{
}

/// One synchronization pass over a widget and the sizes of its tagged
/// children. `None` stands for a tagged child that exposes no layout size;
/// such a child is silently skipped. A widget whose progress did not change
/// since the last pass writes nothing; a changed widget rewrites every
/// child's driven axis identically and independently, and is marked clean.
pub fn update_status_bar(widget: &mut StatusBarWidget, children: &mut Vec<Option<Size>>)
    requires
        old(widget).wf(),
        old(widget).changed_spec() ==> old(widget).min_spec() < old(widget).max_spec(),
    ensures
        !old(widget).changed_spec() ==> {
            &&& *final(widget) == *old(widget)
            &&& final(children)@ == old(children)@
        },
        old(widget).changed_spec() ==> {
            &&& !final(widget).changed_spec()
            &&& final(widget).progress_spec() == old(widget).progress_spec()
            &&& final(widget).min_spec() == old(widget).min_spec()
            &&& final(widget).max_spec() == old(widget).max_spec()
            &&& final(widget).direction_spec() == old(widget).direction_spec()
            &&& final(children)@.len() == old(children)@.len()
            &&& forall|i: int| #![trigger old(children)@[i]] 0 <= i < old(children)@.len() ==> match old(children)@[i] {
                Option::None => final(children)@[i] is None,
                Option::Some(s) => final(children)@[i] matches Some(ns)
                    && is_synced(old(widget), s, ns),
            }
        },
{
    if widget.is_changed() {
        let mut i: usize = 0;
        while i < children.len()
            invariant
                i <= children@.len(),
                children@.len() == old(children)@.len(),
                *widget == *old(widget),
                widget.wf(),
                widget.min_spec() < widget.max_spec(),
                forall|j: int| i <= j < children@.len() ==> children@[j] == old(children)@[j],
                forall|j: int| #![trigger old(children)@[j]] 0 <= j < i ==> match old(children)@[j] {
                    Option::None => children@[j] is None,
                    Option::Some(s) => children@[j] matches Some(ns)
                        && is_synced(old(widget), s, ns),
                },
            decreases children@.len() - i,
        {
            let current = children[i];
            if let Some(size) = current {
                let synced = widget.sync_size(&size);
                children[i] = Some(synced);
            }
            i = i + 1;
        }
        widget.changed = false;
    }
}

} // verus!
