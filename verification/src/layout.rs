//! The first layout pass: resolving every symbolic dimension in a
//! descriptor tree to pixels, parent before children, with each node's
//! resolved content box serving as its children's parent dimensions.

use vstd::prelude::*;
use crate::dimensions::{BoxDimensionsAbsolute, BoxDimensionsRelative};
use crate::node::{StructuredChildren, UINode};

verus! {

/// The descriptor tree before dimension resolution.
pub type RelNode = UINode<BoxDimensionsRelative, StructuredChildren<BoxDimensionsRelative>>;

/// The tree after dimension resolution: everything in pixels, nothing
/// positioned yet.
pub type AbsNode = UINode<BoxDimensionsAbsolute, StructuredChildren<BoxDimensionsAbsolute>>;

/// The resolved form of one node's dimensions, given its parent's content
/// box and the screen size.
pub open spec fn spec_resolve_dims(
    d: BoxDimensionsRelative,
    pw: int,
    ph: int,
    sw: int,
    sh: int,
) -> BoxDimensionsAbsolute {
    BoxDimensionsAbsolute {
        width: d.width.spec_resolve(pw, sw, sh) as u32,
        height: d.height.spec_resolve(ph, sw, sh) as u32,
        margin: d.margin.spec_resolve(pw, ph, sw, sh),
        padding: d.padding.spec_resolve(pw, ph, sw, sh),
    }
}

/// Whether a node's declarations can be resolved in the given context: all
/// lengths well formed, minimum never above maximum (a fatal configuration
/// error otherwise), no grid layout (declared but unsupported), recursively
/// for the children against this node's resolved content box.
pub open spec fn node_resolvable(n: RelNode, pw: int, ph: int, sw: int, sh: int) -> bool
    decreases n,
{
    let d = spec_resolve_dims(n.box_dimensions, pw, ph, sw, sh);
    &&& n.box_dimensions.wf()
    &&& n.box_dimensions.width.spec_bounds_sound(pw, sw, sh)
    &&& n.box_dimensions.height.spec_bounds_sound(ph, sw, sh)
    &&& children_resolvable(n.children, d.spec_inner_width(), d.spec_inner_height(), sw, sh)
}

/// `node_resolvable` lifted over a children variant; false for a grid.
pub open spec fn children_resolvable(
    c: StructuredChildren<BoxDimensionsRelative>,
    pw: int,
    ph: int,
    sw: int,
    sh: int,
) -> bool
    decreases c,
{
    match c {
        StructuredChildren::NoChildren => true,
        StructuredChildren::OneChild { child, .. } => node_resolvable(*child, pw, ph, sw, sh),
        StructuredChildren::HorizontalLayout { children, .. } => forall|i: int|
            0 <= i < children@.len() ==> node_resolvable(#[trigger] children@[i], pw, ph, sw, sh),
        StructuredChildren::VerticalLayout { children, .. } => forall|i: int|
            0 <= i < children@.len() ==> node_resolvable(#[trigger] children@[i], pw, ph, sw, sh),
        StructuredChildren::GridLayout { .. } => false,
    }
}

/// The resolution relation: `abs` is `rel` with every dimension resolved in
/// the given context, identity, version, visual and event target carried
/// over, and children resolved against this node's content box.
pub open spec fn node_resolved(rel: RelNode, abs: AbsNode, pw: int, ph: int, sw: int, sh: int) -> bool
    decreases rel,
{
    let d = spec_resolve_dims(rel.box_dimensions, pw, ph, sw, sh);
    &&& abs.box_dimensions == d
    &&& abs.meta == rel.meta
    &&& abs.identifier == rel.identifier
    &&& abs.version == rel.version
    &&& abs.target.spec_eq(rel.target)
    &&& children_resolved(rel.children, abs.children, d.spec_inner_width(), d.spec_inner_height(), sw, sh)
}

/// `node_resolved` lifted over a children variant: same variant, same
/// alignment and division flags, children pairwise resolved.
pub open spec fn children_resolved(
    rc: StructuredChildren<BoxDimensionsRelative>,
    ac: StructuredChildren<BoxDimensionsAbsolute>,
    pw: int,
    ph: int,
    sw: int,
    sh: int,
) -> bool
    decreases rc,
{
    match (rc, ac) {
        (StructuredChildren::NoChildren, StructuredChildren::NoChildren) => true,
        (
            StructuredChildren::OneChild { h_alignment: h1, v_alignment: v1, child: c1 },
            StructuredChildren::OneChild { h_alignment: h2, v_alignment: v2, child: c2 },
        ) => h1 == h2 && v1 == v2 && node_resolved(*c1, *c2, pw, ph, sw, sh),
        (
            StructuredChildren::HorizontalLayout {
                h_alignment: h1,
                v_alignment: v1,
                uniform_division: u1,
                children: l1,
            },
            StructuredChildren::HorizontalLayout {
                h_alignment: h2,
                v_alignment: v2,
                uniform_division: u2,
                children: l2,
            },
        ) => {
            &&& h1 == h2
            &&& v1 == v2
            &&& u1 == u2
            &&& l1@.len() == l2@.len()
            &&& forall|i: int|
                0 <= i < l1@.len() ==> node_resolved(#[trigger] l1@[i], #[trigger] l2@[i], pw, ph, sw, sh)
        },
        (
            StructuredChildren::VerticalLayout {
                h_alignment: h1,
                v_alignment: v1,
                uniform_division: u1,
                children: l1,
            },
            StructuredChildren::VerticalLayout {
                h_alignment: h2,
                v_alignment: v2,
                uniform_division: u2,
                children: l2,
            },
        ) => {
            &&& h1 == h2
            &&& v1 == v2
            &&& u1 == u2
            &&& l1@.len() == l2@.len()
            &&& forall|i: int|
                0 <= i < l1@.len() ==> node_resolved(#[trigger] l1@[i], #[trigger] l2@[i], pw, ph, sw, sh)
        },
        _ => false,
    }
}


/// Equality of two resolved trees: the same resolved box, visual,
/// identity, version and event target (strings compared by contents),
/// with equal children, recursively.
pub open spec fn abs_eq(a: AbsNode, b: AbsNode) -> bool
    decreases a,
{
    &&& b.box_dimensions == a.box_dimensions
    &&& b.meta == a.meta
    &&& b.identifier == a.identifier
    &&& b.version == a.version
    &&& b.target.spec_eq(a.target)
    &&& abs_children_eq(a.children, b.children)
}

/// `abs_eq` lifted over a children variant.
pub open spec fn abs_children_eq(
    a: StructuredChildren<BoxDimensionsAbsolute>,
    b: StructuredChildren<BoxDimensionsAbsolute>,
) -> bool
    decreases a,
{
    match (a, b) {
        (StructuredChildren::NoChildren, StructuredChildren::NoChildren) => true,
        (
            StructuredChildren::OneChild { h_alignment: h1, v_alignment: v1, child: c1 },
            StructuredChildren::OneChild { h_alignment: h2, v_alignment: v2, child: c2 },
        ) => h1 == h2 && v1 == v2 && abs_eq(*c1, *c2),
        (
            StructuredChildren::HorizontalLayout {
                h_alignment: h1,
                v_alignment: v1,
                uniform_division: u1,
                children: l1,
            },
            StructuredChildren::HorizontalLayout {
                h_alignment: h2,
                v_alignment: v2,
                uniform_division: u2,
                children: l2,
            },
        ) => h1 == h2 && v1 == v2 && u1 == u2 && l1@.len() == l2@.len() && (forall|i: int|
            0 <= i < l1@.len() ==> abs_eq(#[trigger] l1@[i], #[trigger] l2@[i])),
        (
            StructuredChildren::VerticalLayout {
                h_alignment: h1,
                v_alignment: v1,
                uniform_division: u1,
                children: l1,
            },
            StructuredChildren::VerticalLayout {
                h_alignment: h2,
                v_alignment: v2,
                uniform_division: u2,
                children: l2,
            },
        ) => h1 == h2 && v1 == v2 && u1 == u2 && l1@.len() == l2@.len() && (forall|i: int|
            0 <= i < l1@.len() ==> abs_eq(#[trigger] l1@[i], #[trigger] l2@[i])),
        _ => false,
    }
}

/// Dimension resolution is pure and deterministic at the tree level: two
/// resolutions of the same descriptor tree against identical parent and
/// screen dimensions agree on every resolved field, identity, version and
/// child, recursively. (A resolution reads nothing but its arguments:
/// there is no other state it could consult.)
pub proof fn lemma_calculate_dimensions_deterministic(
    n: RelNode,
    r1: AbsNode,
    r2: AbsNode,
    pw: int,
    ph: int,
    sw: int,
    sh: int,
)
    requires
        node_resolved(n, r1, pw, ph, sw, sh),
        node_resolved(n, r2, pw, ph, sw, sh),
    ensures
        abs_eq(r1, r2),
    decreases n,
{
    let d = spec_resolve_dims(n.box_dimensions, pw, ph, sw, sh);
    let cw = d.spec_inner_width();
    let ch = d.spec_inner_height();
    match (n.children, r1.children, r2.children) {
        (
            StructuredChildren::OneChild { child: c, .. },
            StructuredChildren::OneChild { child: c1, .. },
            StructuredChildren::OneChild { child: c2, .. },
        ) => {
            lemma_calculate_dimensions_deterministic(*c, *c1, *c2, cw, ch, sw, sh);
        },
        (
            StructuredChildren::HorizontalLayout { children: l, .. },
            StructuredChildren::HorizontalLayout { children: l1, .. },
            StructuredChildren::HorizontalLayout { children: l2, .. },
        ) => {
            assert forall|i: int| 0 <= i < l1@.len() implies abs_eq(
                #[trigger] l1@[i],
                #[trigger] l2@[i],
            ) by {
                lemma_calculate_dimensions_deterministic(l@[i], l1@[i], l2@[i], cw, ch, sw, sh);
            }
        },
        (
            StructuredChildren::VerticalLayout { children: l, .. },
            StructuredChildren::VerticalLayout { children: l1, .. },
            StructuredChildren::VerticalLayout { children: l2, .. },
        ) => {
            assert forall|i: int| 0 <= i < l1@.len() implies abs_eq(
                #[trigger] l1@[i],
                #[trigger] l2@[i],
            ) by {
                lemma_calculate_dimensions_deterministic(l@[i], l1@[i], l2@[i], cw, ch, sw, sh);
            }
        },
        _ => (),
    }
}

/// Resolve each node of a list against the same parent content box.
fn calc_dims_each(
    children: &Vec<RelNode>,
    parent_width: u32,
    parent_height: u32,
    screen_width: u32,
    screen_height: u32,
) -> (r: Vec<AbsNode>)
    requires
        forall|i: int|
            0 <= i < children@.len() ==> node_resolvable(
                #[trigger] children@[i],
                parent_width as int,
                parent_height as int,
                screen_width as int,
                screen_height as int,
            ),
    ensures
        r@.len() == children@.len(),
        forall|i: int|
            0 <= i < children@.len() ==> node_resolved(
                #[trigger] children@[i],
                #[trigger] r@[i],
                parent_width as int,
                parent_height as int,
                screen_width as int,
                screen_height as int,
            ),
    decreases *children,
{
    let mut out: Vec<AbsNode> = Vec::new();
    let mut i: usize = 0;
    while i < children.len()
        invariant
            i <= children.len(),
            out@.len() == i,
            forall|j: int|
                0 <= j < children@.len() ==> node_resolvable(
                    #[trigger] children@[j],
                    parent_width as int,
                    parent_height as int,
                    screen_width as int,
                    screen_height as int,
                ),
            forall|j: int|
                0 <= j < i ==> node_resolved(
                    #[trigger] children@[j],
                    #[trigger] out@[j],
                    parent_width as int,
                    parent_height as int,
                    screen_width as int,
                    screen_height as int,
                ),
        decreases children.len() - i,
    {
        proof {
            assert(decreases_to!(*children => children@[i as int]));
        }
        let c = (&children[i]).calculate_dimensions(
            parent_width,
            parent_height,
            screen_width,
            screen_height,
        );
        out.push(c);
        i = i + 1;
    }
    out
}

impl StructuredChildren<BoxDimensionsRelative> {
    /// Resolve every child against the parent's content box.
    pub fn calculate_dimensions(
        &self,
        parent_width: u32,
        parent_height: u32,
        screen_width: u32,
        screen_height: u32,
    ) -> (r: StructuredChildren<BoxDimensionsAbsolute>)
        requires
            children_resolvable(
                *self,
                parent_width as int,
                parent_height as int,
                screen_width as int,
                screen_height as int,
            ),
        ensures
            children_resolved(
                *self,
                r,
                parent_width as int,
                parent_height as int,
                screen_width as int,
                screen_height as int,
            ),
        decreases *self,
    {
        match self {
            StructuredChildren::NoChildren => StructuredChildren::NoChildren,
            StructuredChildren::OneChild { h_alignment, v_alignment, child } => {
                proof {
                    assert(decreases_to!(*self => **child));
                }
                let new_child = (&**child).calculate_dimensions(
                    parent_width,
                    parent_height,
                    screen_width,
                    screen_height,
                );
                StructuredChildren::OneChild {
                    h_alignment: *h_alignment,
                    v_alignment: *v_alignment,
                    child: Box::new(new_child),
                }
            },
            StructuredChildren::HorizontalLayout {
                h_alignment,
                v_alignment,
                uniform_division,
                children,
            } => {
                proof {
                    assert(decreases_to!(*self => *children));
                }
                let new_children = calc_dims_each(
                    children,
                    parent_width,
                    parent_height,
                    screen_width,
                    screen_height,
                );
                StructuredChildren::HorizontalLayout {
                    h_alignment: *h_alignment,
                    v_alignment: *v_alignment,
                    uniform_division: *uniform_division,
                    children: new_children,
                }
            },
            StructuredChildren::VerticalLayout {
                h_alignment,
                v_alignment,
                uniform_division,
                children,
            } => {
                proof {
                    assert(decreases_to!(*self => *children));
                }
                let new_children = calc_dims_each(
                    children,
                    parent_width,
                    parent_height,
                    screen_width,
                    screen_height,
                );
                StructuredChildren::VerticalLayout {
                    h_alignment: *h_alignment,
                    v_alignment: *v_alignment,
                    uniform_division: *uniform_division,
                    children: new_children,
                }
            },
            StructuredChildren::GridLayout { .. } => vstd::pervasive::unreached(),
        }
    }
}

impl UINode<BoxDimensionsRelative, StructuredChildren<BoxDimensionsRelative>> {
    /// Resolve this node's width, height, margin and padding against the
    /// parent's content box and the screen, then the children against this
    /// node's resolved content box.
    pub fn calculate_dimensions(
        &self,
        parent_width: u32,
        parent_height: u32,
        screen_width: u32,
        screen_height: u32,
    ) -> (r: AbsNode)
        requires
            node_resolvable(
                *self,
                parent_width as int,
                parent_height as int,
                screen_width as int,
                screen_height as int,
            ),
        ensures
            node_resolved(
                *self,
                r,
                parent_width as int,
                parent_height as int,
                screen_width as int,
                screen_height as int,
            ),
        decreases *self,
    {
        let width = self.box_dimensions.width.resolve(parent_width, screen_width, screen_height);
        let height = self.box_dimensions.height.resolve(parent_height, screen_width, screen_height);
        let margin = self.box_dimensions.margin.resolve(
            parent_width,
            parent_height,
            screen_width,
            screen_height,
        );
        let padding = self.box_dimensions.padding.resolve(
            parent_width,
            parent_height,
            screen_width,
            screen_height,
        );
        let dims = BoxDimensionsAbsolute { width, height, margin, padding };
        let content_width = dims.inner_width();
        let content_height = dims.inner_height();
        proof {
            assert(decreases_to!(*self => self.children));
        }
        let children = self.children.calculate_dimensions(
            content_width,
            content_height,
            screen_width,
            screen_height,
        );
        UINode {
            box_dimensions: dims,
            children,
            meta: self.meta.duplicate(),
            identifier: self.identifier.duplicate(),
            version: self.version,
            target: self.target.duplicate(),
        }
    }
}

} // verus!
