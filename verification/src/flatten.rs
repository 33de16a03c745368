//! The second layout pass: positioning. Every node is placed inside a
//! parent-assigned cell; a container assigns each child a cell (a fixed
//! rectangle) from its content box, along its main axis by uniform division
//! or by packing, and the full content length on the cross axis.

use vstd::prelude::*;
use crate::dimensions::{AbsoluteEdges, BoxDimensionsAbsolute, BoxDimensionsWithGlobal};
use crate::identity::{UIIdentifier, UIIdentifierGenerator};
use crate::layout::AbsNode;
use crate::node::{
    AxisAlignment, ChildIsContent, ChildrenAreCells, HorizontalAlignment, NodeTarget,
    StructuredChildren, UINode, VerticalAlignment,
};
use crate::visual::TextureMeta;

verus! {

/// The widget-kind serial pool that anonymous layout cells draw fresh
/// identities from.
pub const CELL_KIND: u64 = 0;

/// The texture drawn behind a cell's content.
pub const CELL_TEXTURE_PATH: &'static str = "assets/placeholder.png";

/// A node placed as content inside its parent-assigned cell, its own
/// children wrapped in cells.
pub type ContentNode = UINode<BoxDimensionsWithGlobal, ChildrenAreCells>;

/// A cell: a fixed rectangle assigned by a parent, holding one content
/// node.
pub type CellNode = UINode<BoxDimensionsWithGlobal, ChildIsContent>;

/// `a + b` saturating at `u32::MAX`.
pub open spec fn spec_sat_add(a: int, b: int) -> int {
    if a + b > u32::MAX {
        u32::MAX as int
    } else {
        a + b
    }
}

pub fn sat_add(a: u32, b: u32) -> (r: u32)
    ensures
        r == spec_sat_add(a as int, b as int),
{
    let s: u64 = a as u64 + b as u64;
    if s > u32::MAX as u64 {
        u32::MAX
    } else {
        s as u32
    }
}

/// The sum of a sequence of pixel lengths, saturating at `u32::MAX` at each
/// step.
pub open spec fn spec_sat_sum(s: Seq<u32>) -> int
    decreases s.len(),
{
    if s.len() == 0 {
        0
    } else {
        spec_sat_add(spec_sat_sum(s.drop_last()), s.last() as int)
    }
}

/// A saturating sum of pixel lengths stays within `[0, u32::MAX]`.
pub proof fn lemma_sat_sum_bounds(s: Seq<u32>)
    ensures
        0 <= spec_sat_sum(s) <= u32::MAX,
    decreases s.len(),
{
    if s.len() > 0 {
        lemma_sat_sum_bounds(s.drop_last());
    }
}

/// How much of the leftover space `diff` goes before the content: none at
/// the start, half in the center, all of it at the end.
pub open spec fn spec_align_offset(align: AxisAlignment, diff: int) -> int {
    match align {
        AxisAlignment::Start => 0,
        AxisAlignment::Center => diff / 2,
        AxisAlignment::End => diff,
    }
}

/// The leftover space when content of length `content` sits in a slot of
/// length `slot`: zero when it does not fit.
pub open spec fn spec_space_left(slot: int, content: int) -> int {
    if content <= slot {
        slot - content
    } else {
        0
    }
}

/// The margin box of resolved dimensions along the horizontal axis,
/// saturating.
pub open spec fn spec_sat_width_with_margin(d: BoxDimensionsAbsolute) -> int {
    spec_sat_add(spec_sat_add(d.width as int, d.margin.left as int), d.margin.right as int)
}

/// The margin box along the vertical axis, saturating.
pub open spec fn spec_sat_height_with_margin(d: BoxDimensionsAbsolute) -> int {
    spec_sat_add(spec_sat_add(d.height as int, d.margin.top as int), d.margin.bottom as int)
}

fn sat_width_with_margin(d: &BoxDimensionsAbsolute) -> (r: u32)
    ensures
        r == spec_sat_width_with_margin(*d),
{
    sat_add(sat_add(d.width, d.margin.left), d.margin.right)
}

fn sat_height_with_margin(d: &BoxDimensionsAbsolute) -> (r: u32)
    ensures
        r == spec_sat_height_with_margin(*d),
{
    sat_add(sat_add(d.height, d.margin.top), d.margin.bottom)
}

/// The cell (length, position) assigned to child `i` along a container's
/// main axis.
///
/// Uniform division: every cell gets `total / n` (integer division, the
/// remainder silently dropped), packed from the content box origin.
/// Otherwise each child gets exactly its own margin-box length; children
/// pack contiguously after a leading offset decided by the alignment from
/// the space left over (zero when the children overflow the container).
pub open spec fn spec_tangent_cell(
    total: int,
    lens: Seq<u32>,
    pad: int,
    uniform: bool,
    align: AxisAlignment,
    i: int,
) -> (int, int) {
    if uniform {
        let cell = total / lens.len() as int;
        (cell, spec_sat_add(i * cell, pad))
    } else {
        let lead = spec_align_offset(align, spec_space_left(total, spec_sat_sum(lens)));
        (lens[i] as int, spec_sat_add(pad, spec_sat_add(lead, spec_sat_sum(lens.subrange(0, i)))))
    }
}

/// The cell (length, position) assigned along a container's cross axis:
/// the full length, at an offset decided by the alignment from the space
/// the child leaves unused.
pub open spec fn spec_normal_cell(length: int, child_len: int, pad: int, align: AxisAlignment) -> (int, int) {
    (length, spec_sat_add(pad, spec_align_offset(align, spec_space_left(length, child_len))))
}

fn align_offset(align: AxisAlignment, diff: u32) -> (r: u32)
    ensures
        r == spec_align_offset(align, diff as int),
{
    match align {
        AxisAlignment::Start => 0,
        AxisAlignment::Center => diff / 2,
        AxisAlignment::End => diff,
    }
}

fn space_left(slot: u32, content: u32) -> (r: u32)
    ensures
        r == spec_space_left(slot as int, content as int),
{
    if content <= slot {
        slot - content
    } else {
        0
    }
}

/// Cell lengths and positions along the main axis, one pair per child.
pub fn get_cell_lengths_and_positions_tangent_dir(
    total_length: u32,
    children_lengths: &Vec<u32>,
    parent_padding: u32,
    uniform_division: bool,
    alignment: AxisAlignment,
) -> (r: Vec<(u32, u32)>)
    requires
        children_lengths@.len() > 0,
    ensures
        r@.len() == children_lengths@.len(),
        forall|i: int|
            0 <= i < r@.len() ==> (#[trigger] r@[i]).0 == spec_tangent_cell(
                total_length as int,
                children_lengths@,
                parent_padding as int,
                uniform_division,
                alignment,
                i,
            ).0 && r@[i].1 == spec_tangent_cell(
                total_length as int,
                children_lengths@,
                parent_padding as int,
                uniform_division,
                alignment,
                i,
            ).1,
{
    let n = children_lengths.len();
    let mut r: Vec<(u32, u32)> = Vec::new();
    if uniform_division {
        proof {
            vstd::arithmetic::div_mod::lemma_fundamental_div_mod(total_length as int, n as int);
            vstd::arithmetic::div_mod::lemma_mod_bound(total_length as int, n as int);
            vstd::arithmetic::div_mod::lemma_div_pos_is_pos(total_length as int, n as int);
            vstd::arithmetic::div_mod::lemma_div_nonincreasing(total_length as int, n as int);
        }
        let cell: u32 = ((total_length as u64) / (n as u64)) as u32;
        proof {
            assert((n as int) * (cell as int) <= total_length as int);
        }
        let mut i: usize = 0;
        let mut acc: u32 = 0;
        while i < n
            invariant
                n == children_lengths@.len(),
                cell == total_length as int / n as int,
                (n as int) * (cell as int) <= total_length as int,
                i <= n,
                acc == i as int * cell as int,
                acc <= total_length,
                r@.len() == i,
                forall|j: int|
                    0 <= j < i ==> (#[trigger] r@[j]) == (
                        cell,
                        spec_sat_add(j * cell as int, parent_padding as int) as u32,
                    ),
            decreases n - i,
        {
            let pos = sat_add(acc, parent_padding);
            r.push((cell, pos));
            proof {
                vstd::arithmetic::mul::lemma_mul_inequality(i as int + 1, n as int, cell as int);
                assert((i as int + 1) * cell as int == i as int * cell as int + cell as int)
                    by (nonlinear_arith);
            }
            acc = acc + cell;
            i = i + 1;
        }
        proof {
            assert forall|i: int| 0 <= i < r@.len() implies (#[trigger] r@[i]).0
                == spec_tangent_cell(
                total_length as int,
                children_lengths@,
                parent_padding as int,
                uniform_division,
                alignment,
                i,
            ).0 && r@[i].1 == spec_tangent_cell(
                total_length as int,
                children_lengths@,
                parent_padding as int,
                uniform_division,
                alignment,
                i,
            ).1 by {
                assert(r@[i] == (cell, spec_sat_add(i * cell as int, parent_padding as int) as u32));
            }
        }
    } else {
        // the saturating sum of all children lengths
        let mut sum: u32 = 0;
        let mut i: usize = 0;
        while i < n
            invariant
                n == children_lengths@.len(),
                i <= n,
                sum == spec_sat_sum(children_lengths@.subrange(0, i as int)),
            decreases n - i,
        {
            sum = sat_add(sum, children_lengths[i]);
            i = i + 1;
            proof {
                let pre = children_lengths@.subrange(0, i as int);
                assert(pre.drop_last() =~= children_lengths@.subrange(0, i as int - 1));
            }
        }
        proof {
            assert(children_lengths@.subrange(0, n as int) =~= children_lengths@);
        }
        let lead = align_offset(alignment, space_left(total_length, sum));
        let mut i: usize = 0;
        let mut prefix: u32 = 0;
        while i < n
            invariant
                n == children_lengths@.len(),
                i <= n,
                prefix == spec_sat_sum(children_lengths@.subrange(0, i as int)),
                lead == spec_align_offset(
                    alignment,
                    spec_space_left(total_length as int, spec_sat_sum(children_lengths@)),
                ),
                r@.len() == i,
                forall|j: int|
                    0 <= j < i ==> (#[trigger] r@[j]) == (
                        children_lengths@[j],
                        spec_sat_add(
                            parent_padding as int,
                            spec_sat_add(
                                lead as int,
                                spec_sat_sum(children_lengths@.subrange(0, j)),
                            ),
                        ) as u32,
                    ),
            decreases n - i,
        {
            let pos = sat_add(parent_padding, sat_add(lead, prefix));
            r.push((children_lengths[i], pos));
            prefix = sat_add(prefix, children_lengths[i]);
            i = i + 1;
            proof {
                let pre = children_lengths@.subrange(0, i as int);
                assert(pre.drop_last() =~= children_lengths@.subrange(0, i as int - 1));
            }
        }
        proof {
            assert forall|k: int| 0 <= k < r@.len() implies (#[trigger] r@[k]).0
                == spec_tangent_cell(
                total_length as int,
                children_lengths@,
                parent_padding as int,
                uniform_division,
                alignment,
                k,
            ).0 && r@[k].1 == spec_tangent_cell(
                total_length as int,
                children_lengths@,
                parent_padding as int,
                uniform_division,
                alignment,
                k,
            ).1 by {
                lemma_sat_sum_bounds(children_lengths@.subrange(0, k));
                assert(r@[k] == (
                    children_lengths@[k],
                    spec_sat_add(
                        parent_padding as int,
                        spec_sat_add(
                            lead as int,
                            spec_sat_sum(children_lengths@.subrange(0, k)),
                        ),
                    ) as u32,
                ));
            }
        }
    }
    r
}

/// Cell lengths and positions along the cross axis, one pair per child:
/// every child receives the full content length.
pub fn get_cell_lengths_and_positions_normal_dir(
    length: u32,
    children_lengths: &Vec<u32>,
    parent_padding: u32,
    alignment: AxisAlignment,
) -> (r: Vec<(u32, u32)>)
    ensures
        r@.len() == children_lengths@.len(),
        forall|i: int|
            0 <= i < r@.len() ==> (#[trigger] r@[i]).0 == spec_normal_cell(
                length as int,
                children_lengths@[i] as int,
                parent_padding as int,
                alignment,
            ).0 && r@[i].1 == spec_normal_cell(
                length as int,
                children_lengths@[i] as int,
                parent_padding as int,
                alignment,
            ).1,
{
    let mut r: Vec<(u32, u32)> = Vec::new();
    let mut i: usize = 0;
    while i < children_lengths.len()
        invariant
            i <= children_lengths@.len(),
            r@.len() == i,
            forall|j: int|
                0 <= j < i ==> (#[trigger] r@[j]).0 == spec_normal_cell(
                    length as int,
                    children_lengths@[j] as int,
                    parent_padding as int,
                    alignment,
                ).0 && r@[j].1 == spec_normal_cell(
                    length as int,
                    children_lengths@[j] as int,
                    parent_padding as int,
                    alignment,
                ).1,
        decreases children_lengths@.len() - i,
    {
        let offset = align_offset(alignment, space_left(length, children_lengths[i]));
        let pos = sat_add(parent_padding, offset);
        r.push((length, pos));
        i = i + 1;
    }
    r
}

/// The margin-box widths of a list of resolved nodes.
pub open spec fn spec_child_widths(children: Seq<AbsNode>) -> Seq<u32> {
    Seq::new(children.len(), |i: int| spec_sat_width_with_margin(children[i].box_dimensions) as u32)
}

/// The margin-box heights of a list of resolved nodes.
pub open spec fn spec_child_heights(children: Seq<AbsNode>) -> Seq<u32> {
    Seq::new(children.len(), |i: int| spec_sat_height_with_margin(children[i].box_dimensions) as u32)
}

/// The positioning relation for one cell: the cell rectangle is exactly
/// the one assigned by the parent, the cell is anonymous (fresh identity,
/// version zero, no margins, no event target), and its content is the
/// child flattened inside the cell.
pub open spec fn cell_ok(
    child: AbsNode,
    cell: CellNode,
    pgx: int,
    pgy: int,
    cell_w: int,
    cell_h: int,
    cell_x: int,
    cell_y: int,
    h: HorizontalAlignment,
    v: VerticalAlignment,
) -> bool
    decreases child, 2int,
{
    let cgx = spec_sat_add(pgx, cell_x);
    let cgy = spec_sat_add(pgy, cell_y);
    &&& cell.box_dimensions == (BoxDimensionsWithGlobal {
        width: cell_w as u32,
        height: cell_h as u32,
        rel_pos_x: cell_x as u32,
        rel_pos_y: cell_y as u32,
        global_pos_x: cgx as u32,
        global_pos_y: cgy as u32,
        margin: AbsoluteEdges { top: 0, right: 0, bottom: 0, left: 0 },
        padding: AbsoluteEdges { top: 0, right: 0, bottom: 0, left: 0 },
    })
    &&& cell.children.position_x == cell_x
    &&& cell.children.position_y == cell_y
    &&& node_flattened(child, *cell.children.content, cgx, cgy, cell_w, cell_h, h, v)
    &&& cell.meta matches TextureMeta::Texture { path } && path@ == CELL_TEXTURE_PATH@
    &&& cell.identifier matches UIIdentifier::Cell { .. }
    &&& cell.version == 0
    &&& cell.target is NoTarget
}

/// The positioning relation: `out` is `abs` placed inside a cell of size
/// `pw` by `ph` at global position (`pgx`, `pgy`), offset by the leftover
/// space per the alignment it was placed with plus its own margin, its
/// children each wrapped in a cell assigned from its content box.
pub open spec fn node_flattened(
    abs: AbsNode,
    out: ContentNode,
    pgx: int,
    pgy: int,
    pw: int,
    ph: int,
    h: HorizontalAlignment,
    v: VerticalAlignment,
) -> bool
    decreases abs, 1int,
{
    let d = abs.box_dimensions;
    let rel_x = spec_sat_add(
        spec_align_offset(h.spec_axis(), spec_space_left(pw, spec_sat_width_with_margin(d))),
        d.margin.left as int,
    );
    let rel_y = spec_sat_add(
        spec_align_offset(v.spec_axis(), spec_space_left(ph, spec_sat_height_with_margin(d))),
        d.margin.top as int,
    );
    let gx = spec_sat_add(pgx, rel_x);
    let gy = spec_sat_add(pgy, rel_y);
    let iw = d.spec_inner_width();
    let ih = d.spec_inner_height();
    let ix = d.padding.left as int;
    let iy = d.padding.top as int;
    &&& out.box_dimensions == (BoxDimensionsWithGlobal {
        width: d.width,
        height: d.height,
        rel_pos_x: rel_x as u32,
        rel_pos_y: rel_y as u32,
        global_pos_x: gx as u32,
        global_pos_y: gy as u32,
        margin: d.margin,
        padding: d.padding,
    })
    &&& out.meta == abs.meta
    &&& out.identifier == abs.identifier
    &&& out.version == abs.version
    &&& out.target.spec_eq(abs.target)
    &&& match abs.children {
        StructuredChildren::NoChildren => {
            &&& out.children.cells@.len() == 0
            &&& out.children.h_alignment == HorizontalAlignment::Left
            &&& out.children.v_alignment == VerticalAlignment::Top
        },
        StructuredChildren::OneChild { h_alignment: h2, v_alignment: v2, child } => {
            &&& out.children.cells@.len() == 1
            &&& out.children.h_alignment == h2
            &&& out.children.v_alignment == v2
            &&& cell_ok(*child, out.children.cells@[0], gx, gy, iw, ih, ix, iy, h2, v2)
        },
        StructuredChildren::HorizontalLayout {
            h_alignment: h2,
            v_alignment: v2,
            uniform_division,
            children,
        } => {
            &&& out.children.cells@.len() == children@.len()
            &&& out.children.h_alignment == h2
            &&& out.children.v_alignment == v2
            &&& forall|i: int|
                0 <= i < children@.len() ==> {
                    let t = spec_tangent_cell(
                        iw,
                        spec_child_widths(children@),
                        ix,
                        uniform_division,
                        h2.spec_axis(),
                        i,
                    );
                    let c = spec_normal_cell(ih, ih, iy, v2.spec_axis());
                    cell_ok(
                        #[trigger] children@[i],
                        #[trigger] out.children.cells@[i],
                        gx,
                        gy,
                        t.0,
                        c.0,
                        t.1,
                        c.1,
                        h2,
                        v2,
                    )
                }
        },
        StructuredChildren::VerticalLayout {
            h_alignment: h2,
            v_alignment: v2,
            uniform_division,
            children,
        } => {
            &&& out.children.cells@.len() == children@.len()
            &&& out.children.h_alignment == h2
            &&& out.children.v_alignment == v2
            &&& forall|i: int|
                0 <= i < children@.len() ==> {
                    let t = spec_tangent_cell(
                        ih,
                        spec_child_heights(children@),
                        iy,
                        uniform_division,
                        v2.spec_axis(),
                        i,
                    );
                    let c = spec_normal_cell(iw, iw, ix, h2.spec_axis());
                    cell_ok(
                        #[trigger] children@[i],
                        #[trigger] out.children.cells@[i],
                        gx,
                        gy,
                        c.0,
                        t.0,
                        c.1,
                        t.1,
                        h2,
                        v2,
                    )
                }
        },
        StructuredChildren::GridLayout { .. } => false,
    }
}

/// Uniform division: with N children in a container of main-axis content
/// length `total`, every cell gets exactly `total / N` (integer division),
/// and the assigned lengths sum to `total - total % N` — the remainder is
/// silently dropped.
pub proof fn lemma_uniform_division(total: int, lens: Seq<u32>, pad: int, align: AxisAlignment)
    requires
        lens.len() > 0,
        0 <= total <= u32::MAX,
    ensures
        forall|i: int|
            0 <= i < lens.len() ==> #[trigger] spec_tangent_cell(total, lens, pad, true, align, i).0
                == total / lens.len() as int,
        lens.len() * (total / lens.len() as int) == total - total % (lens.len() as int),
{
    vstd::arithmetic::div_mod::lemma_fundamental_div_mod(total, lens.len() as int);
}

/// Uniform division, when the content box sits within the pixel range:
/// the cells pack from the content box origin at exact multiples of the
/// cell length, with no saturation.
pub proof fn lemma_uniform_division_positions(total: int, lens: Seq<u32>, pad: int, align: AxisAlignment)
    requires
        lens.len() > 0,
        0 <= total,
        pad + total <= u32::MAX,
    ensures
        forall|i: int|
            0 <= i < lens.len() ==> #[trigger] spec_tangent_cell(total, lens, pad, true, align, i).1
                == pad + i * (total / lens.len() as int),
{
    let n = lens.len() as int;
    let cell = total / n;
    vstd::arithmetic::div_mod::lemma_fundamental_div_mod(total, n);
    vstd::arithmetic::div_mod::lemma_mod_bound(total, n);
    vstd::arithmetic::div_mod::lemma_div_pos_is_pos(total, n);
    assert forall|i: int| 0 <= i < lens.len() implies #[trigger] spec_tangent_cell(
        total,
        lens,
        pad,
        true,
        align,
        i,
    ).1 == pad + i * cell by {
        vstd::arithmetic::mul::lemma_mul_inequality(i, n, cell);
        vstd::arithmetic::mul::lemma_mul_nonnegative(i, cell);
        assert(i * cell <= n * cell);
    }
}

/// A prefix of a saturating sum never exceeds the whole.
pub proof fn lemma_sat_sum_prefix_le(s: Seq<u32>, i: int)
    requires
        0 <= i <= s.len(),
    ensures
        spec_sat_sum(s.subrange(0, i)) <= spec_sat_sum(s),
    decreases s.len() - i,
{
    if i == s.len() {
        assert(s.subrange(0, i) =~= s);
    } else {
        lemma_sat_sum_prefix_le(s, i + 1);
        lemma_sat_sum_bounds(s.subrange(0, i));
        assert(s.subrange(0, i + 1).drop_last() =~= s.subrange(0, i));
        assert(s.subrange(0, i + 1).last() == s[i]);
    }
}

/// Packing without uniform division, when the children fit: every cell is
/// exactly its child's margin-box length, the center alignment leads by
/// exactly half the leftover space, and every cell ends within the
/// container's content box — the packed lengths never exceed the content
/// length.
pub proof fn lemma_pack_center_offset(total: int, lens: Seq<u32>, pad: int)
    requires
        lens.len() > 0,
        spec_sat_sum(lens) <= total < u32::MAX,
        pad + total <= u32::MAX,
    ensures
        forall|i: int|
            0 <= i < lens.len() ==> #[trigger] spec_tangent_cell(
                total,
                lens,
                pad,
                false,
                AxisAlignment::Center,
                i,
            ).0 == lens[i],
        spec_tangent_cell(total, lens, pad, false, AxisAlignment::Center, 0).1 == pad + (total
            - spec_sat_sum(lens)) / 2,
        forall|i: int|
            0 <= i < lens.len() ==> #[trigger] spec_tangent_cell(
                total,
                lens,
                pad,
                false,
                AxisAlignment::Center,
                i,
            ).1 + lens[i] <= pad + total,
{
    lemma_sat_sum_bounds(lens);
    assert(lens.subrange(0, 0) =~= Seq::<u32>::empty());
    assert forall|i: int| 0 <= i < lens.len() implies #[trigger] spec_tangent_cell(
        total,
        lens,
        pad,
        false,
        AxisAlignment::Center,
        i,
    ).1 + lens[i] <= pad + total by {
        lemma_sat_sum_prefix_le(lens, i + 1);
        lemma_sat_sum_bounds(lens.subrange(0, i));
        assert(lens.subrange(0, i + 1).drop_last() =~= lens.subrange(0, i));
        assert(lens.subrange(0, i + 1).last() == lens[i]);
        assert(spec_sat_sum(lens.subrange(0, i + 1)) == spec_sat_add(
            spec_sat_sum(lens.subrange(0, i)),
            lens[i] as int,
        ));
        assert(spec_sat_sum(lens.subrange(0, i)) + lens[i] <= spec_sat_sum(lens));
    }
}

/// Cross-axis placement: every cell spans the container's full cross-axis
/// content length, whatever the child's own length along that axis.
pub proof fn lemma_cross_axis_full_length(
    length: int,
    child_len: int,
    pad: int,
    align: AxisAlignment,
)
    ensures
        spec_normal_cell(length, child_len, pad, align).0 == length,
{
}

/// Cross-axis placement at the tree level: in a positioned horizontal
/// container, every assigned cell is exactly as tall as the container's
/// content box; in a vertical one, exactly as wide.
pub proof fn lemma_cross_axis_cells(
    abs: AbsNode,
    out: ContentNode,
    pgx: int,
    pgy: int,
    pw: int,
    ph: int,
    h: HorizontalAlignment,
    v: VerticalAlignment,
)
    requires
        node_flattened(abs, out, pgx, pgy, pw, ph, h, v),
    ensures
        abs.children is HorizontalLayout ==> forall|i: int|
            0 <= i < out.children.cells@.len() ==> (#[trigger] out.children.cells@[i]).box_dimensions.height
                == abs.box_dimensions.spec_inner_height(),
        abs.children is VerticalLayout ==> forall|i: int|
            0 <= i < out.children.cells@.len() ==> (#[trigger] out.children.cells@[i]).box_dimensions.width
                == abs.box_dimensions.spec_inner_width(),
{
    let d = abs.box_dimensions;
    let rel_x = spec_sat_add(
        spec_align_offset(h.spec_axis(), spec_space_left(pw, spec_sat_width_with_margin(d))),
        d.margin.left as int,
    );
    let rel_y = spec_sat_add(
        spec_align_offset(v.spec_axis(), spec_space_left(ph, spec_sat_height_with_margin(d))),
        d.margin.top as int,
    );
    let gx = spec_sat_add(pgx, rel_x);
    let gy = spec_sat_add(pgy, rel_y);
    let iw = d.spec_inner_width();
    let ih = d.spec_inner_height();
    let ix = d.padding.left as int;
    let iy = d.padding.top as int;
    match abs.children {
        StructuredChildren::HorizontalLayout {
            h_alignment: h2,
            v_alignment: v2,
            uniform_division,
            children,
        } => {
            assert forall|i: int| 0 <= i < out.children.cells@.len() implies (#[trigger] out.children.cells@[i]).box_dimensions.height
                == abs.box_dimensions.spec_inner_height() by {
                let t = spec_tangent_cell(
                    iw,
                    spec_child_widths(children@),
                    ix,
                    uniform_division,
                    h2.spec_axis(),
                    i,
                );
                let c = spec_normal_cell(ih, ih, iy, v2.spec_axis());
                assert(cell_ok(
                    children@[i],
                    out.children.cells@[i],
                    gx,
                    gy,
                    t.0,
                    c.0,
                    t.1,
                    c.1,
                    h2,
                    v2,
                ));
            }
        },
        StructuredChildren::VerticalLayout {
            h_alignment: h2,
            v_alignment: v2,
            uniform_division,
            children,
        } => {
            assert forall|i: int| 0 <= i < out.children.cells@.len() implies (#[trigger] out.children.cells@[i]).box_dimensions.width
                == abs.box_dimensions.spec_inner_width() by {
                let t = spec_tangent_cell(
                    ih,
                    spec_child_heights(children@),
                    iy,
                    uniform_division,
                    v2.spec_axis(),
                    i,
                );
                let c = spec_normal_cell(iw, iw, ix, h2.spec_axis());
                assert(cell_ok(
                    children@[i],
                    out.children.cells@[i],
                    gx,
                    gy,
                    c.0,
                    t.0,
                    c.1,
                    t.1,
                    h2,
                    v2,
                ));
            }
        },
        _ => (),
    }
}

/// No grid layout anywhere in a resolved tree: positioning for a grid is
/// unsupported and refused rather than guessed.
pub open spec fn no_grid(n: AbsNode) -> bool
    decreases n,
{
    match n.children {
        StructuredChildren::NoChildren => true,
        StructuredChildren::OneChild { child, .. } => no_grid(*child),
        StructuredChildren::HorizontalLayout { children, .. } => forall|i: int|
            0 <= i < children@.len() ==> no_grid(#[trigger] children@[i]),
        StructuredChildren::VerticalLayout { children, .. } => forall|i: int|
            0 <= i < children@.len() ==> no_grid(#[trigger] children@[i]),
        StructuredChildren::GridLayout { .. } => false,
    }
}

impl UINode<BoxDimensionsAbsolute, StructuredChildren<BoxDimensionsAbsolute>> {
    /// Wrap one resolved child in the cell the parent assigned to it, and
    /// flatten the child inside the cell. The cell identity is fresh every
    /// frame, so cells never alias a compositing cache entry.
    pub fn wrap_node_with_cell(
        node: &AbsNode,
        cell_width: u32,
        cell_height: u32,
        cell_rel_pos_x: u32,
        cell_rel_pos_y: u32,
        parent_global_x: u32,
        parent_global_y: u32,
        h_alignment: HorizontalAlignment,
        v_alignment: VerticalAlignment,
        gen: &mut UIIdentifierGenerator,
    ) -> (r: CellNode)
        requires
            no_grid(*node),
        ensures
            cell_ok(
                *node,
                r,
                parent_global_x as int,
                parent_global_y as int,
                cell_width as int,
                cell_height as int,
                cell_rel_pos_x as int,
                cell_rel_pos_y as int,
                h_alignment,
                v_alignment,
            ),
        decreases *node, 2int,
    {
        let cell_global_pos_x = sat_add(parent_global_x, cell_rel_pos_x);
        let cell_global_pos_y = sat_add(parent_global_y, cell_rel_pos_y);
        let content = node.flatten_children(
            cell_global_pos_x,
            cell_global_pos_y,
            cell_width,
            cell_height,
            h_alignment,
            v_alignment,
            gen,
        );
        let cell_children = ChildIsContent {
            position_x: cell_rel_pos_x,
            position_y: cell_rel_pos_y,
            content: Box::new(content),
        };
        let cell_id = gen.next_id(CELL_KIND);
        UINode {
            box_dimensions: BoxDimensionsWithGlobal {
                width: cell_width,
                height: cell_height,
                rel_pos_x: cell_rel_pos_x,
                rel_pos_y: cell_rel_pos_y,
                global_pos_x: cell_global_pos_x,
                global_pos_y: cell_global_pos_y,
                margin: AbsoluteEdges { top: 0, right: 0, bottom: 0, left: 0 },
                padding: AbsoluteEdges { top: 0, right: 0, bottom: 0, left: 0 },
            },
            children: cell_children,
            meta: TextureMeta::Texture { path: CELL_TEXTURE_PATH.to_owned() },
            identifier: UIIdentifier::Cell { id: cell_id },
            version: 0,
            target: NodeTarget::NoTarget,
        }
    }

    /// Place this node inside the cell it was assigned (size `parent_width`
    /// by `parent_height` at the given global position, with the given
    /// alignment), and assign every child its own cell from this node's
    /// content box.
    #[verifier::loop_isolation(false)]
    pub fn flatten_children(
        &self,
        parent_global_x: u32,
        parent_global_y: u32,
        parent_width: u32,
        parent_height: u32,
        h_alignment: HorizontalAlignment,
        v_alignment: VerticalAlignment,
        gen: &mut UIIdentifierGenerator,
    ) -> (r: ContentNode)
        requires
            no_grid(*self),
        ensures
            node_flattened(
                *self,
                r,
                parent_global_x as int,
                parent_global_y as int,
                parent_width as int,
                parent_height as int,
                h_alignment,
                v_alignment,
            ),
        decreases *self, 1int,
    {
        let d = &self.box_dimensions;
        let width_difference = space_left(parent_width, sat_width_with_margin(d));
        let height_difference = space_left(parent_height, sat_height_with_margin(d));
        let left_padding = align_offset(h_alignment.to_axis(), width_difference);
        let top_padding = align_offset(v_alignment.to_axis(), height_difference);
        let self_rel_x = sat_add(left_padding, d.margin.left);
        let self_rel_y = sat_add(top_padding, d.margin.top);
        let self_global_x = sat_add(parent_global_x, self_rel_x);
        let self_global_y = sat_add(parent_global_y, self_rel_y);
        let inner_w = d.inner_width();
        let inner_h = d.inner_height();
        let inner_x = d.inner_pos_x();
        let inner_y = d.inner_pos_y();
        let children: ChildrenAreCells = match &self.children {
            StructuredChildren::NoChildren => ChildrenAreCells {
                cells: Vec::new(),
                h_alignment: HorizontalAlignment::Left,
                v_alignment: VerticalAlignment::Top,
            },
            StructuredChildren::OneChild { h_alignment: h2, v_alignment: v2, child } => {
                proof {
                    assert(decreases_to!(*self => **child));
                }
                let cell = Self::wrap_node_with_cell(
                    &**child,
                    inner_w,
                    inner_h,
                    inner_x,
                    inner_y,
                    self_global_x,
                    self_global_y,
                    *h2,
                    *v2,
                    gen,
                );
                let mut cells: Vec<CellNode> = Vec::new();
                cells.push(cell);
                ChildrenAreCells { cells, h_alignment: *h2, v_alignment: *v2 }
            },
            StructuredChildren::HorizontalLayout {
                h_alignment: h2,
                v_alignment: v2,
                uniform_division,
                children,
            } => {
                if children.len() == 0 {
                    ChildrenAreCells { cells: Vec::new(), h_alignment: *h2, v_alignment: *v2 }
                } else {
                    let mut widths: Vec<u32> = Vec::new();
                    let mut i: usize = 0;
                    while i < children.len()
                        invariant
                            i <= children@.len(),
                            widths@.len() == i,
                            forall|j: int|
                                0 <= j < i ==> widths@[j] == spec_child_widths(children@)[j],
                        decreases children@.len() - i,
                    {
                        widths.push(sat_width_with_margin(&children[i].box_dimensions));
                        i = i + 1;
                    }
                    proof {
                        assert(widths@ =~= spec_child_widths(children@));
                    }
                    let tangent = get_cell_lengths_and_positions_tangent_dir(
                        inner_w,
                        &widths,
                        inner_x,
                        *uniform_division,
                        h2.to_axis(),
                    );
                    let mut cells: Vec<CellNode> = Vec::new();
                    let mut i: usize = 0;
                    while i < children.len()
                        invariant
                            i <= children@.len(),
                            cells@.len() == i,
                            tangent@.len() == children@.len(),
                            forall|j: int|
                                0 <= j < children@.len() ==> no_grid(#[trigger] children@[j]),
                            forall|j: int|
                                0 <= j < tangent@.len() ==> (#[trigger] tangent@[j]).0
                                    == spec_tangent_cell(
                                    inner_w as int,
                                    spec_child_widths(children@),
                                    inner_x as int,
                                    *uniform_division,
                                    h2.spec_axis(),
                                    j,
                                ).0 && tangent@[j].1 == spec_tangent_cell(
                                    inner_w as int,
                                    spec_child_widths(children@),
                                    inner_x as int,
                                    *uniform_division,
                                    h2.spec_axis(),
                                    j,
                                ).1,
                            forall|j: int|
                                0 <= j < i ==> {
                                    let t = spec_tangent_cell(
                                        inner_w as int,
                                        spec_child_widths(children@),
                                        inner_x as int,
                                        *uniform_division,
                                        h2.spec_axis(),
                                        j,
                                    );
                                    let c = spec_normal_cell(
                                        inner_h as int,
                                        inner_h as int,
                                        inner_y as int,
                                        v2.spec_axis(),
                                    );
                                    cell_ok(
                                        #[trigger] children@[j],
                                        #[trigger] cells@[j],
                                        self_global_x as int,
                                        self_global_y as int,
                                        t.0,
                                        c.0,
                                        t.1,
                                        c.1,
                                        *h2,
                                        *v2,
                                    )
                                },
                        decreases children@.len() - i,
                    {
                        proof {
                            assert(decreases_to!(*self => *children));
                            assert(decreases_to!(*children => children@[i as int]));
                        }
                        let offset = align_offset(v2.to_axis(), space_left(inner_h, inner_h));
                        let cell_pos_y = sat_add(inner_y, offset);
                        let cell = Self::wrap_node_with_cell(
                            &children[i],
                            tangent[i].0,
                            inner_h,
                            tangent[i].1,
                            cell_pos_y,
                            self_global_x,
                            self_global_y,
                            *h2,
                            *v2,
                            gen,
                        );
                        cells.push(cell);
                        i = i + 1;
                    }
                    ChildrenAreCells { cells, h_alignment: *h2, v_alignment: *v2 }
                }
            },
            StructuredChildren::VerticalLayout {
                h_alignment: h2,
                v_alignment: v2,
                uniform_division,
                children,
            } => {
                if children.len() == 0 {
                    ChildrenAreCells { cells: Vec::new(), h_alignment: *h2, v_alignment: *v2 }
                } else {
                    let mut heights: Vec<u32> = Vec::new();
                    let mut i: usize = 0;
                    while i < children.len()
                        invariant
                            i <= children@.len(),
                            heights@.len() == i,
                            forall|j: int|
                                0 <= j < i ==> heights@[j] == spec_child_heights(children@)[j],
                        decreases children@.len() - i,
                    {
                        heights.push(sat_height_with_margin(&children[i].box_dimensions));
                        i = i + 1;
                    }
                    proof {
                        assert(heights@ =~= spec_child_heights(children@));
                    }
                    let tangent = get_cell_lengths_and_positions_tangent_dir(
                        inner_h,
                        &heights,
                        inner_y,
                        *uniform_division,
                        v2.to_axis(),
                    );
                    let mut cells: Vec<CellNode> = Vec::new();
                    let mut i: usize = 0;
                    while i < children.len()
                        invariant
                            i <= children@.len(),
                            cells@.len() == i,
                            tangent@.len() == children@.len(),
                            forall|j: int|
                                0 <= j < children@.len() ==> no_grid(#[trigger] children@[j]),
                            forall|j: int|
                                0 <= j < tangent@.len() ==> (#[trigger] tangent@[j]).0
                                    == spec_tangent_cell(
                                    inner_h as int,
                                    spec_child_heights(children@),
                                    inner_y as int,
                                    *uniform_division,
                                    v2.spec_axis(),
                                    j,
                                ).0 && tangent@[j].1 == spec_tangent_cell(
                                    inner_h as int,
                                    spec_child_heights(children@),
                                    inner_y as int,
                                    *uniform_division,
                                    v2.spec_axis(),
                                    j,
                                ).1,
                            forall|j: int|
                                0 <= j < i ==> {
                                    let t = spec_tangent_cell(
                                        inner_h as int,
                                        spec_child_heights(children@),
                                        inner_y as int,
                                        *uniform_division,
                                        v2.spec_axis(),
                                        j,
                                    );
                                    let c = spec_normal_cell(
                                        inner_w as int,
                                        inner_w as int,
                                        inner_x as int,
                                        h2.spec_axis(),
                                    );
                                    cell_ok(
                                        #[trigger] children@[j],
                                        #[trigger] cells@[j],
                                        self_global_x as int,
                                        self_global_y as int,
                                        c.0,
                                        t.0,
                                        c.1,
                                        t.1,
                                        *h2,
                                        *v2,
                                    )
                                },
                        decreases children@.len() - i,
                    {
                        proof {
                            assert(decreases_to!(*self => *children));
                            assert(decreases_to!(*children => children@[i as int]));
                        }
                        let offset = align_offset(h2.to_axis(), space_left(inner_w, inner_w));
                        let cell_pos_x = sat_add(inner_x, offset);
                        let cell = Self::wrap_node_with_cell(
                            &children[i],
                            inner_w,
                            tangent[i].0,
                            cell_pos_x,
                            tangent[i].1,
                            self_global_x,
                            self_global_y,
                            *h2,
                            *v2,
                            gen,
                        );
                        cells.push(cell);
                        i = i + 1;
                    }
                    ChildrenAreCells { cells, h_alignment: *h2, v_alignment: *v2 }
                }
            },
            StructuredChildren::GridLayout { .. } => vstd::pervasive::unreached(),
        };
        UINode {
            box_dimensions: BoxDimensionsWithGlobal {
                width: d.width,
                height: d.height,
                rel_pos_x: self_rel_x,
                rel_pos_y: self_rel_y,
                global_pos_x: self_global_x,
                global_pos_y: self_global_y,
                margin: d.margin,
                padding: d.padding,
            },
            children,
            meta: self.meta.duplicate(),
            identifier: self.identifier.duplicate(),
            version: self.version,
            target: self.target.duplicate(),
        }
    }
}

} // verus!
