//! Emitting render instructions: one self-contained instruction per node,
//! its rectangle expressed as fractions of the immediate parent's
//! rectangle, so each instruction can be composited recursively.

use vstd::prelude::*;
use crate::flatten::{sat_add, spec_sat_add};
use crate::identity::UIIdentifier;
use crate::length::Fraction;
use crate::unified::UnifiedNode;
use crate::visual::TextureMeta;

verus! {

/// One node's render instruction: the cache key (identity, version), the
/// resolved pixel size of the node's own texture, the node's rectangle as
/// fractions of its parent's rectangle, its visual, and one instruction
/// per child.
#[derive(Debug)]
pub struct UIRenderInstruction {
    pub version: u64,
    pub id: UIIdentifier,
    pub texture_width: u32,
    pub texture_height: u32,
    pub location_left: Fraction,
    pub location_top: Fraction,
    pub location_right: Fraction,
    pub location_bottom: Fraction,
    pub sub_instructions: Vec<UIRenderInstruction>,
    pub texture_meta: TextureMeta,
}

/// The denominator used for fractions of a parent length: the length
/// itself, or one for a degenerate zero-sized parent.
pub open spec fn spec_den(p: int) -> int {
    if p == 0 {
        1
    } else {
        p
    }
}

/// The instruction-emission relation: `r` describes `n` inside a parent of
/// the given pixel size, children against this node's own size.
pub open spec fn instruction_of(n: UnifiedNode, r: UIRenderInstruction, pw: int, ph: int) -> bool
    decreases n,
{
    let d = n.box_dimensions;
    let denw = spec_den(pw);
    let denh = spec_den(ph);
    &&& r.version == n.version
    &&& r.id.spec_eq(n.identifier)
    &&& r.texture_width == d.width
    &&& r.texture_height == d.height
    &&& r.location_left == (Fraction { num: d.rel_pos_x, den: denw as u32 })
    &&& r.location_top == (Fraction { num: d.rel_pos_y, den: denh as u32 })
    &&& r.location_right == (Fraction {
        num: spec_sat_add(d.rel_pos_x as int, d.width as int) as u32,
        den: denw as u32,
    })
    &&& r.location_bottom == (Fraction {
        num: spec_sat_add(d.rel_pos_y as int, d.height as int) as u32,
        den: denh as u32,
    })
    &&& r.texture_meta.spec_eq(n.meta)
    &&& r.sub_instructions@.len() == n.children.children@.len()
    &&& forall|i: int|
        0 <= i < n.children.children@.len() ==> instruction_of(
            #[trigger] n.children.children@[i],
            #[trigger] r.sub_instructions@[i],
            d.width as int,
            d.height as int,
        )
}

/// Byte-for-byte equality of two instructions, strings compared by
/// contents, children pairwise.
pub open spec fn instr_eq(a: UIRenderInstruction, b: UIRenderInstruction) -> bool
    decreases a,
{
    &&& a.version == b.version
    &&& a.id.spec_eq(b.id)
    &&& a.texture_width == b.texture_width
    &&& a.texture_height == b.texture_height
    &&& a.location_left == b.location_left
    &&& a.location_top == b.location_top
    &&& a.location_right == b.location_right
    &&& a.location_bottom == b.location_bottom
    &&& a.texture_meta.spec_eq(b.texture_meta)
    &&& a.sub_instructions@.len() == b.sub_instructions@.len()
    &&& forall|i: int|
        0 <= i < a.sub_instructions@.len() ==> instr_eq(
            #[trigger] a.sub_instructions@[i],
            #[trigger] b.sub_instructions@[i],
        )
}

/// Equality of two positioned nodes up to string contents: same rectangle,
/// visual, identity, version and children. Two frames that leave a subtree
/// untouched produce nodes equal in this sense.
pub open spec fn unified_eq(a: UnifiedNode, b: UnifiedNode) -> bool
    decreases a,
{
    &&& a.box_dimensions == b.box_dimensions
    &&& a.meta.spec_eq(b.meta)
    &&& a.identifier.spec_eq(b.identifier)
    &&& a.version == b.version
    &&& a.children.children@.len() == b.children.children@.len()
    &&& forall|i: int|
        0 <= i < a.children.children@.len() ==> unified_eq(
            #[trigger] a.children.children@[i],
            #[trigger] b.children.children@[i],
        )
}

/// Instruction emission is deterministic: two equal positioned nodes, in
/// equal parent rectangles, always yield byte-identical instructions.
/// With the cache-correctness bound on the compositor this gives the reuse
/// guarantee: a node unchanged across two frames emits the same
/// instruction, so its (identity, version) key finds last frame's texture.
pub proof fn lemma_instruction_deterministic(
    a: UnifiedNode,
    b: UnifiedNode,
    ra: UIRenderInstruction,
    rb: UIRenderInstruction,
    pw: int,
    ph: int,
)
    requires
        unified_eq(a, b),
        instruction_of(a, ra, pw, ph),
        instruction_of(b, rb, pw, ph),
    ensures
        instr_eq(ra, rb),
    decreases a,
{
    assert forall|i: int| 0 <= i < ra.sub_instructions@.len() implies instr_eq(
        #[trigger] ra.sub_instructions@[i],
        #[trigger] rb.sub_instructions@[i],
    ) by {
        lemma_instruction_deterministic(
            a.children.children@[i],
            b.children.children@[i],
            ra.sub_instructions@[i],
            rb.sub_instructions@[i],
            a.box_dimensions.width as int,
            a.box_dimensions.height as int,
        );
    }
}

fn den_of(p: u32) -> (r: u32)
    ensures
        r == spec_den(p as int),
        r > 0,
{
    if p == 0 {
        1
    } else {
        p
    }
}

impl UnifiedNode {
    /// Emit this node's render instruction, its rectangle as fractions of a
    /// parent of the given pixel size.
    #[verifier::loop_isolation(false)]
    pub fn to_ui_render_instruction(&self, parent_width: u32, parent_height: u32) -> (r:
        UIRenderInstruction)
        ensures
            instruction_of(*self, r, parent_width as int, parent_height as int),
        decreases *self,
    {
        let d = &self.box_dimensions;
        let denw = den_of(parent_width);
        let denh = den_of(parent_height);
        let texture_width = d.width;
        let texture_height = d.height;
        let kids = &self.children.children;
        let mut sub_instructions: Vec<UIRenderInstruction> = Vec::new();
        let mut i: usize = 0;
        while i < kids.len()
            invariant
                i <= kids@.len(),
                sub_instructions@.len() == i,
                forall|j: int|
                    0 <= j < i ==> instruction_of(
                        #[trigger] kids@[j],
                        #[trigger] sub_instructions@[j],
                        texture_width as int,
                        texture_height as int,
                    ),
            decreases kids@.len() - i,
        {
            proof {
                assert(decreases_to!(*self => self.children));
                assert(decreases_to!(self.children => *kids));
                assert(decreases_to!(*kids => kids@[i as int]));
            }
            let sub = (&kids[i]).to_ui_render_instruction(texture_width, texture_height);
            sub_instructions.push(sub);
            i = i + 1;
        }
        UIRenderInstruction {
            version: self.version,
            id: self.identifier.duplicate(),
            texture_width,
            texture_height,
            location_left: Fraction { num: d.rel_pos_x, den: denw },
            location_top: Fraction { num: d.rel_pos_y, den: denh },
            location_right: Fraction { num: sat_add(d.rel_pos_x, d.width), den: denw },
            location_bottom: Fraction { num: sat_add(d.rel_pos_y, d.height), den: denh },
            sub_instructions,
            texture_meta: self.meta.duplicate(),
        }
    }
}

impl UIRenderInstruction {
    /// An equal, independently owned copy.
    #[verifier::loop_isolation(false)]
    pub fn duplicate(&self) -> (r: Self)
        ensures
            instr_eq(*self, r),
        decreases *self,
    {
        let kids = &self.sub_instructions;
        let mut sub_instructions: Vec<UIRenderInstruction> = Vec::new();
        let mut i: usize = 0;
        while i < kids.len()
            invariant
                i <= kids@.len(),
                sub_instructions@.len() == i,
                forall|j: int|
                    0 <= j < i ==> instr_eq(#[trigger] kids@[j], #[trigger] sub_instructions@[j]),
            decreases kids@.len() - i,
        {
            proof {
                assert(decreases_to!(*self => self.sub_instructions));
                assert(decreases_to!(self.sub_instructions => kids@[i as int]));
            }
            let sub = (&kids[i]).duplicate();
            sub_instructions.push(sub);
            i = i + 1;
        }
        let r = UIRenderInstruction {
            version: self.version,
            id: self.id.duplicate(),
            texture_width: self.texture_width,
            texture_height: self.texture_height,
            location_left: self.location_left,
            location_top: self.location_top,
            location_right: self.location_right,
            location_bottom: self.location_bottom,
            sub_instructions,
            texture_meta: self.texture_meta.duplicate(),
        };
        proof {
            assert(forall|i: int| 0 <= i < self.sub_instructions@.len() ==> instr_eq(
                #[trigger] self.sub_instructions@[i],
                r.sub_instructions@[i],
            ));
        }
        r
    }
}

} // verus!
