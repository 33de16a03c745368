//! Collapsing the cell/content distinction into one uniform tree shape
//! once positioning is done.

use vstd::prelude::*;
use crate::dimensions::BoxDimensionsWithGlobal;
use crate::flatten::{CellNode, ContentNode};
use crate::node::{UINode, UnifiedChildren};

verus! {

/// The uniform tree: every node, cell or content, is just a node with an
/// ordered list of children.
pub type UnifiedNode = UINode<BoxDimensionsWithGlobal, UnifiedChildren>;

/// The unification relation for a content node: everything carried over,
/// each assigned cell becoming an ordinary child.
pub open spec fn content_unified(c: ContentNode, u: UnifiedNode) -> bool
    decreases c,
{
    &&& u.box_dimensions == c.box_dimensions
    &&& u.meta == c.meta
    &&& u.identifier == c.identifier
    &&& u.version == c.version
    &&& u.target.spec_eq(c.target)
    &&& u.children.children@.len() == c.children.cells@.len()
    &&& forall|i: int|
        0 <= i < c.children.cells@.len() ==> cell_unified(
            #[trigger] c.children.cells@[i],
            #[trigger] u.children.children@[i],
        )
}

/// The unification relation for a cell: everything carried over, the one
/// content node becoming the only child.
pub open spec fn cell_unified(cl: CellNode, u: UnifiedNode) -> bool
    decreases cl,
{
    &&& u.box_dimensions == cl.box_dimensions
    &&& u.meta == cl.meta
    &&& u.identifier == cl.identifier
    &&& u.version == cl.version
    &&& u.target.spec_eq(cl.target)
    &&& u.children.children@.len() == 1
    &&& content_unified(*cl.children.content, u.children.children@[0])
}

impl UINode<BoxDimensionsWithGlobal, crate::node::ChildrenAreCells> {
    /// Collapse this content node and its cells into the uniform shape.
    #[verifier::loop_isolation(false)]
    pub fn to_unified(&self) -> (r: UnifiedNode)
        ensures
            content_unified(*self, r),
        decreases *self,
    {
        let cells = &self.children.cells;
        let mut children: Vec<UnifiedNode> = Vec::new();
        let mut i: usize = 0;
        while i < cells.len()
            invariant
                i <= cells@.len(),
                children@.len() == i,
                forall|j: int|
                    0 <= j < i ==> cell_unified(
                        #[trigger] cells@[j],
                        #[trigger] children@[j],
                    ),
            decreases cells@.len() - i,
        {
            proof {
                assert(decreases_to!(*self => self.children));
                assert(decreases_to!(self.children => *cells));
                assert(decreases_to!(*cells => cells@[i as int]));
            }
            children.push((&cells[i]).to_unified());
            i = i + 1;
        }
        UINode {
            box_dimensions: self.box_dimensions,
            children: UnifiedChildren { children },
            meta: self.meta.duplicate(),
            identifier: self.identifier.duplicate(),
            version: self.version,
            target: self.target.duplicate(),
        }
    }
}

impl UINode<BoxDimensionsWithGlobal, crate::node::ChildIsContent> {
    /// Collapse this cell into the uniform shape: one child, the content.
    pub fn to_unified(&self) -> (r: UnifiedNode)
        ensures
            cell_unified(*self, r),
        decreases *self,
    {
        proof {
            assert(decreases_to!(*self => self.children));
            assert(decreases_to!(self.children => *self.children.content));
        }
        let content = (&*self.children.content).to_unified();
        let mut children: Vec<UnifiedNode> = Vec::new();
        children.push(content);
        UINode {
            box_dimensions: self.box_dimensions,
            children: UnifiedChildren { children },
            meta: self.meta.duplicate(),
            identifier: self.identifier.duplicate(),
            version: self.version,
            target: self.target.duplicate(),
        }
    }
}

} // verus!
