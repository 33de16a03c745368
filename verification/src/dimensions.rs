//! Box dimensions at the three resolution stages: symbolic, absolute pixels,
//! and absolute pixels with global position.

use vstd::prelude::*;
use crate::length::{BoundedLength, RelativeLength};

verus! {

/// Four symbolic lengths, one per edge.
#[derive(Clone, Copy, Debug)]
pub struct RelativeEdges {
    pub top: RelativeLength,
    pub right: RelativeLength,
    pub bottom: RelativeLength,
    pub left: RelativeLength,
}

/// Four resolved pixel lengths, one per edge.
#[derive(Clone, Copy, Debug, PartialEq, Eq, Structural)]
pub struct AbsoluteEdges {
    pub top: u32,
    pub right: u32,
    pub bottom: u32,
    pub left: u32,
}

impl RelativeEdges {
    pub open spec fn wf(self) -> bool {
        self.top.wf() && self.right.wf() && self.bottom.wf() && self.left.wf()
    }

    /// The same length on all four edges.
    pub fn uniform(l: RelativeLength) -> (r: Self)
        ensures
            r.top == l && r.right == l && r.bottom == l && r.left == l,
    {
        RelativeEdges { top: l, right: l, bottom: l, left: l }
    }

    pub fn zero() -> (r: Self)
        ensures
            r == RelativeEdges::spec_zero(),
            r.wf(),
    {
        Self::uniform(RelativeLength::zero())
    }

    pub open spec fn spec_zero() -> Self {
        RelativeEdges {
            top: RelativeLength::Pixels(0),
            right: RelativeLength::Pixels(0),
            bottom: RelativeLength::Pixels(0),
            left: RelativeLength::Pixels(0),
        }
    }

    /// Resolve each edge: the vertical edges (top, bottom) against the parent
    /// height, the horizontal edges (left, right) against the parent width.
    pub open spec fn spec_resolve(self, parent_width: int, parent_height: int, screen_width: int, screen_height: int) -> AbsoluteEdges {
        AbsoluteEdges {
            top: self.top.spec_resolve(parent_height, screen_width, screen_height) as u32,
            right: self.right.spec_resolve(parent_width, screen_width, screen_height) as u32,
            bottom: self.bottom.spec_resolve(parent_height, screen_width, screen_height) as u32,
            left: self.left.spec_resolve(parent_width, screen_width, screen_height) as u32,
        }
    }

    pub fn resolve(&self, parent_width: u32, parent_height: u32, screen_width: u32, screen_height: u32) -> (r: AbsoluteEdges)
        requires
            self.wf(),
        ensures
            r == self.spec_resolve(parent_width as int, parent_height as int, screen_width as int, screen_height as int),
    {
        AbsoluteEdges {
            top: self.top.resolve(parent_height, screen_width, screen_height),
            right: self.right.resolve(parent_width, screen_width, screen_height),
            bottom: self.bottom.resolve(parent_height, screen_width, screen_height),
            left: self.left.resolve(parent_width, screen_width, screen_height),
        }
    }
}


impl RelativeEdges {
    /// Whether every edge length is well formed.
    pub fn check_wf(&self) -> (r: bool)
        ensures
            r == self.wf(),
    {
        self.top.check_wf() && self.right.check_wf() && self.bottom.check_wf()
            && self.left.check_wf()
    }
}

impl BoxDimensionsRelative {
    /// Whether every declared length is well formed.
    pub fn check_wf(&self) -> (r: bool)
        ensures
            r == self.wf(),
    {
        self.width.check_wf() && self.height.check_wf() && self.margin.check_wf()
            && self.padding.check_wf()
    }
}

/// Marker for the dimension representation a node carries at some stage.
pub trait BoxDimensions {}

/// Dimensions before resolution: bounded width and height, symbolic margin
/// and padding.
#[derive(Clone, Copy, Debug)]
pub struct BoxDimensionsRelative {
    pub width: BoundedLength,
    pub height: BoundedLength,
    pub margin: RelativeEdges,
    pub padding: RelativeEdges,
}

impl BoxDimensionsRelative {
    pub open spec fn wf(self) -> bool {
        self.width.wf() && self.height.wf() && self.margin.wf() && self.padding.wf()
    }
}

/// Dimensions after resolution: everything in pixels.
#[derive(Clone, Copy, Debug, PartialEq, Eq, Structural)]
pub struct BoxDimensionsAbsolute {
    pub width: u32,
    pub height: u32,
    pub margin: AbsoluteEdges,
    pub padding: AbsoluteEdges,
}

/// Resolved dimensions plus this node's offset inside its parent's content
/// box and its absolute position in root coordinates.
#[derive(Clone, Copy, Debug, PartialEq, Eq, Structural)]
pub struct BoxDimensionsWithGlobal {
    pub width: u32,
    pub height: u32,
    pub rel_pos_x: u32,
    pub rel_pos_y: u32,
    pub global_pos_x: u32,
    pub global_pos_y: u32,
    pub margin: AbsoluteEdges,
    pub padding: AbsoluteEdges,
}

impl BoxDimensions for BoxDimensionsRelative {}

impl BoxDimensions for BoxDimensionsAbsolute {}

impl BoxDimensions for BoxDimensionsWithGlobal {}

impl BoxDimensionsAbsolute {
    /// The margin box along the horizontal axis: width plus left and right
    /// margin.
    pub open spec fn spec_width_with_margin(self) -> int {
        self.width + self.margin.left + self.margin.right
    }

    /// The margin box along the vertical axis: height plus top and bottom
    /// margin.
    pub open spec fn spec_height_with_margin(self) -> int {
        self.height + self.margin.top + self.margin.bottom
    }

    /// The content box width: width minus horizontal padding, clamped to
    /// zero.
    pub open spec fn spec_inner_width(self) -> int {
        let r = self.width - self.padding.left - self.padding.right;
        if r < 0 {
            0
        } else {
            r
        }
    }

    /// The content box height: height minus vertical padding, clamped to
    /// zero.
    pub open spec fn spec_inner_height(self) -> int {
        let r = self.height - self.padding.top - self.padding.bottom;
        if r < 0 {
            0
        } else {
            r
        }
    }

    /// No overflow in the margin-box sums.
    pub open spec fn margins_fit(self) -> bool {
        self.spec_width_with_margin() <= u32::MAX
            && self.spec_height_with_margin() <= u32::MAX
    }

    pub fn width_with_margin(&self) -> (r: u32)
        requires
            self.spec_width_with_margin() <= u32::MAX,
        ensures
            r == self.spec_width_with_margin(),
    {
        self.width + self.margin.left + self.margin.right
    }

    pub fn height_with_margin(&self) -> (r: u32)
        requires
            self.spec_height_with_margin() <= u32::MAX,
        ensures
            r == self.spec_height_with_margin(),
    {
        self.height + self.margin.top + self.margin.bottom
    }

    /// Width available for children. A negative value (padding larger than
    /// the box: a legitimate small-window state, not an error) clamps to
    /// zero.
    pub fn inner_width(&self) -> (r: u32)
        ensures
            r == self.spec_inner_width(),
    {
        let pad: u64 = self.padding.left as u64 + self.padding.right as u64;
        if (self.width as u64) < pad {
            0
        } else {
            self.width - self.padding.left - self.padding.right
        }
    }

    /// Height available for children, clamped to zero as `inner_width`.
    pub fn inner_height(&self) -> (r: u32)
        ensures
            r == self.spec_inner_height(),
    {
        let pad: u64 = self.padding.top as u64 + self.padding.bottom as u64;
        if (self.height as u64) < pad {
            0
        } else {
            self.height - self.padding.top - self.padding.bottom
        }
    }

    /// The x offset of the content box inside this box: the left padding.
    pub fn inner_pos_x(&self) -> (r: u32)
        ensures
            r == self.padding.left,
    {
        self.padding.left
    }

    /// The y offset of the content box inside this box: the top padding.
    pub fn inner_pos_y(&self) -> (r: u32)
        ensures
            r == self.padding.top,
    {
        self.padding.top
    }
}


impl BoxDimensionsWithGlobal {
    /// Whether the declared padding overran the box on either axis, so the
    /// content box was clamped to zero — a legitimate small-window state,
    /// not an error, but worth a diagnostic from the embedder.
    pub fn clips_content(&self) -> (r: bool)
        ensures
            r == (self.padding.left + self.padding.right > self.width || self.padding.top
                + self.padding.bottom > self.height),
    {
        let horizontal: u64 = self.padding.left as u64 + self.padding.right as u64;
        let vertical: u64 = self.padding.top as u64 + self.padding.bottom as u64;
        horizontal > self.width as u64 || vertical > self.height as u64
    }
}

} // verus!
