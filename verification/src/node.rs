//! The node shape shared by every layout stage, and its children variants.

use vstd::prelude::*;
use crate::dimensions::{BoxDimensions, BoxDimensionsWithGlobal};
use crate::identity::UIIdentifier;
use crate::length::BoundedLength;
use crate::length::RelativeLength;
use crate::visual::TextureMeta;

verus! {

/// Horizontal placement of content inside leftover space.
#[derive(Clone, Copy, Debug, PartialEq, Eq, Structural)]
pub enum HorizontalAlignment {
    Left,
    Center,
    Right,
}

/// Vertical placement of content inside leftover space.
#[derive(Clone, Copy, Debug, PartialEq, Eq, Structural)]
pub enum VerticalAlignment {
    Top,
    Center,
    Bottom,
}

/// Placement along one axis, the common shape of the two alignment kinds:
/// leftover space goes entirely after the content, half-and-half, or
/// entirely before it.
#[derive(Clone, Copy, Debug, PartialEq, Eq, Structural)]
pub enum AxisAlignment {
    Start,
    Center,
    End,
}

impl HorizontalAlignment {
    pub open spec fn spec_axis(self) -> AxisAlignment {
        match self {
            HorizontalAlignment::Left => AxisAlignment::Start,
            HorizontalAlignment::Center => AxisAlignment::Center,
            HorizontalAlignment::Right => AxisAlignment::End,
        }
    }

    pub fn to_axis(&self) -> (r: AxisAlignment)
        ensures
            r == self.spec_axis(),
    {
        match self {
            HorizontalAlignment::Left => AxisAlignment::Start,
            HorizontalAlignment::Center => AxisAlignment::Center,
            HorizontalAlignment::Right => AxisAlignment::End,
        }
    }
}

impl VerticalAlignment {
    pub open spec fn spec_axis(self) -> AxisAlignment {
        match self {
            VerticalAlignment::Top => AxisAlignment::Start,
            VerticalAlignment::Center => AxisAlignment::Center,
            VerticalAlignment::Bottom => AxisAlignment::End,
        }
    }

    pub fn to_axis(&self) -> (r: AxisAlignment)
        ensures
            r == self.spec_axis(),
    {
        match self {
            VerticalAlignment::Top => AxisAlignment::Start,
            VerticalAlignment::Center => AxisAlignment::Center,
            VerticalAlignment::Bottom => AxisAlignment::End,
        }
    }
}

/// Which persistent widget a node's events are delivered to: none, the
/// widget at an index path in the widget tree, one character of the text
/// widget at a path, or the end-of-text caret slot of a text widget.
#[derive(Debug)]
pub enum NodeTarget {
    NoTarget,
    Widget { path: Vec<u32> },
    TextChar { path: Vec<u32>, index: u64 },
    TextEnd { path: Vec<u32> },
}

/// An equal, independently owned copy of an index path.
pub fn duplicate_path(p: &Vec<u32>) -> (r: Vec<u32>)
    ensures
        r@ == p@,
{
    let mut out: Vec<u32> = Vec::new();
    let mut i: usize = 0;
    while i < p.len()
        invariant
            i <= p.len(),
            out@ == p@.subrange(0, i as int),
        decreases p.len() - i,
    {
        out.push(p[i]);
        i = i + 1;
        proof {
            assert(out@ =~= p@.subrange(0, i as int));
        }
    }
    proof {
        assert(out@ =~= p@);
    }
    out
}

impl NodeTarget {
    /// Structural equality, with paths compared by contents.
    pub open spec fn spec_eq(self, other: Self) -> bool {
        match (self, other) {
            (NodeTarget::NoTarget, NodeTarget::NoTarget) => true,
            (NodeTarget::Widget { path: p1 }, NodeTarget::Widget { path: p2 }) => p1@ == p2@,
            (
                NodeTarget::TextChar { path: p1, index: i1 },
                NodeTarget::TextChar { path: p2, index: i2 },
            ) => p1@ == p2@ && i1 == i2,
            (NodeTarget::TextEnd { path: p1 }, NodeTarget::TextEnd { path: p2 }) => p1@ == p2@,
            _ => false,
        }
    }

    /// A copy equal under `spec_eq`.
    pub fn duplicate(&self) -> (r: Self)
        ensures
            r.spec_eq(*self),
    {
        match self {
            NodeTarget::NoTarget => NodeTarget::NoTarget,
            NodeTarget::Widget { path } => NodeTarget::Widget { path: duplicate_path(path) },
            NodeTarget::TextChar { path, index } => NodeTarget::TextChar {
                path: duplicate_path(path),
                index: *index,
            },
            NodeTarget::TextEnd { path } => NodeTarget::TextEnd { path: duplicate_path(path) },
        }
    }
}

/// Marker for a length representation usable as a node's primary dimension.
pub trait UINodeLength1 {}

impl UINodeLength1 for u32 {}

impl UINodeLength1 for BoundedLength {}

/// Marker for a length representation usable as a node's secondary
/// dimension.
pub trait UINodeLength2 {}

impl UINodeLength2 for u32 {}

impl UINodeLength2 for RelativeLength {}

/// Marker for a children representation valid at the dimension stage `B`.
pub trait UIChildren<B: BoxDimensions> {}

/// The widget kind marker for anonymous layout cells, used when drawing a
/// serial number for a fresh cell identity.
#[derive(Debug)]
pub struct Cell;

/// The node shape used at every resolution stage: dimensions, a children
/// variant, a visual descriptor, an identity, a version, and the event
/// target. Nodes are values produced fresh every frame and own their
/// children.
#[derive(Debug)]
pub struct UINode<B: BoxDimensions, C: UIChildren<B>> {
    pub box_dimensions: B,
    pub children: C,
    pub meta: TextureMeta,
    pub identifier: UIIdentifier,
    pub version: u64,
    pub target: NodeTarget,
}

/// Children before positioning: none, a single aligned child, or an ordered
/// row or column. A grid variant is declared but has no layout algorithm;
/// layout refuses trees containing it.
#[derive(Debug)]
pub enum StructuredChildren<B: BoxDimensions> {
    NoChildren,
    OneChild {
        h_alignment: HorizontalAlignment,
        v_alignment: VerticalAlignment,
        child: Box<UINode<B, StructuredChildren<B>>>,
    },
    HorizontalLayout {
        h_alignment: HorizontalAlignment,
        v_alignment: VerticalAlignment,
        uniform_division: bool,
        children: Vec<UINode<B, StructuredChildren<B>>>,
    },
    VerticalLayout {
        h_alignment: HorizontalAlignment,
        v_alignment: VerticalAlignment,
        uniform_division: bool,
        children: Vec<UINode<B, StructuredChildren<B>>>,
    },
    GridLayout {
        h_alignment: HorizontalAlignment,
        v_alignment: VerticalAlignment,
        uniform_division: bool,
        children: Vec<UINode<B, StructuredChildren<B>>>,
    },
}

impl<B: BoxDimensions> UIChildren<B> for StructuredChildren<B> {}

/// The node owning this struct is content placed inside a parent-assigned
/// cell; each element is one cell the node assigned to one of its children.
#[derive(Debug)]
pub struct ChildrenAreCells {
    pub cells: Vec<UINode<BoxDimensionsWithGlobal, ChildIsContent>>,
    pub h_alignment: HorizontalAlignment,
    pub v_alignment: VerticalAlignment,
}

/// The node owning this struct is a cell: a rectangle of fixed size and
/// position assigned by the parent, holding the child's content node.
#[derive(Debug)]
pub struct ChildIsContent {
    pub position_x: u32,
    pub position_y: u32,
    pub content: Box<UINode<BoxDimensionsWithGlobal, ChildrenAreCells>>,
}

/// The uniform children shape after the cell/content distinction has served
/// its purpose: just an ordered list.
#[derive(Debug)]
pub struct UnifiedChildren {
    pub children: Vec<UINode<BoxDimensionsWithGlobal, UnifiedChildren>>,
}

impl UIChildren<BoxDimensionsWithGlobal> for ChildrenAreCells {}

impl UIChildren<BoxDimensionsWithGlobal> for ChildIsContent {}

impl UIChildren<BoxDimensionsWithGlobal> for UnifiedChildren {}

} // verus!
