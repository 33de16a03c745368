//! A readable dump of a positioned tree, one line per node, children
//! indented under their parent.

use vstd::prelude::*;
use vstd::string::StringExecFns;
use crate::dimensions::BoxDimensionsWithGlobal;
use crate::identity::{push_char, push_decimal, spec_decimal};
use crate::node::{UINode, UnifiedChildren};
use crate::unified::UnifiedNode;

verus! {

/// `n` spaces.
pub open spec fn spec_spaces(n: int) -> Seq<char>
    decreases n,
{
    if n <= 0 {
        Seq::empty()
    } else {
        spec_spaces(n - 1).push(' ')
    }
}

/// One node's own line: its identity, version, size and position.
pub open spec fn spec_node_line(n: UnifiedNode) -> Seq<char> {
    let d = n.box_dimensions;
    "ID: "@ + n.identifier.spec_to_string() + ", Version: "@ + spec_decimal(n.version as int)
        + ", w: "@ + spec_decimal(d.width as int) + ", h: "@ + spec_decimal(d.height as int)
        + ", rel_x: "@ + spec_decimal(d.rel_pos_x as int) + ", rel_y: "@ + spec_decimal(
        d.rel_pos_y as int,
    ) + ", glo_x: "@ + spec_decimal(d.global_pos_x as int) + ", glo_y: "@ + spec_decimal(
        d.global_pos_y as int,
    )
}

/// The next indent level, saturating.
pub open spec fn spec_next_indent(indent: int) -> int {
    if indent >= u32::MAX {
        u32::MAX as int
    } else {
        indent + 1
    }
}

/// The whole dump of a subtree at an indent level.
pub open spec fn spec_subtree_string(n: UnifiedNode, indent: int) -> Seq<char>
    decreases n, 1int,
{
    spec_spaces(indent * 4) + spec_node_line(n) + spec_kids_string(
        n,
        n.children.children@.len() as int,
        indent,
    )
}

/// The dumps of the first `i` children, each on a fresh line, one level
/// deeper.
pub open spec fn spec_kids_string(n: UnifiedNode, i: int, indent: int) -> Seq<char>
    decreases n, 0int, i,
{
    if i <= 0 || i > n.children.children@.len() {
        Seq::empty()
    } else {
        spec_kids_string(n, i - 1, indent) + seq!['\n'] + spec_subtree_string(
            n.children.children@[i - 1],
            spec_next_indent(indent),
        )
    }
}

impl UINode<BoxDimensionsWithGlobal, UnifiedChildren> {
    /// One line per node: identity, version, size, position relative to
    /// the parent and in root coordinates; children indented one level
    /// deeper.
    #[verifier::loop_isolation(false)]
    pub fn to_string(&self, indent: u32) -> (s: String)
        ensures
            s@ == spec_subtree_string(*self, indent as int),
        decreases *self,
    {
        let mut s = String::new();
        let total: u64 = indent as u64 * 4;
        let mut k: u64 = 0;
        while k < total
            invariant
                k <= total,
                s@ == spec_spaces(k as int),
            decreases total - k,
        {
            push_char(&mut s, ' ');
            k = k + 1;
        }
        proof {
            assert(s@ =~= spec_spaces(indent as int * 4));
        }
        let d = &self.box_dimensions;
        s.append("ID: ");
        let id_str = self.identifier.to_string();
        s.append(id_str.as_str());
        s.append(", Version: ");
        push_decimal(&mut s, self.version);
        s.append(", w: ");
        push_decimal(&mut s, d.width as u64);
        s.append(", h: ");
        push_decimal(&mut s, d.height as u64);
        s.append(", rel_x: ");
        push_decimal(&mut s, d.rel_pos_x as u64);
        s.append(", rel_y: ");
        push_decimal(&mut s, d.rel_pos_y as u64);
        s.append(", glo_x: ");
        push_decimal(&mut s, d.global_pos_x as u64);
        s.append(", glo_y: ");
        push_decimal(&mut s, d.global_pos_y as u64);
        proof {
            assert(s@ =~= spec_spaces(indent as int * 4) + spec_node_line(*self));
        }
        let next_indent: u32 = if indent == u32::MAX {
            u32::MAX
        } else {
            indent + 1
        };
        let kids = &self.children.children;
        let mut i: usize = 0;
        while i < kids.len()
            invariant
                i <= kids@.len(),
                s@ == spec_spaces(indent as int * 4) + spec_node_line(*self) + spec_kids_string(
                    *self,
                    i as int,
                    indent as int,
                ),
                next_indent as int == spec_next_indent(indent as int),
            decreases kids@.len() - i,
        {
            proof {
                assert(decreases_to!(*self => self.children));
                assert(decreases_to!(self.children => *kids));
                assert(decreases_to!(*kids => kids@[i as int]));
            }
            push_char(&mut s, '\n');
            let sub = (&kids[i]).to_string(next_indent);
            s.append(sub.as_str());
            i = i + 1;
            proof {
                assert(s@ =~= spec_spaces(indent as int * 4) + spec_node_line(*self)
                    + spec_kids_string(*self, i as int, indent as int));
            }
        }
        s
    }
}

} // verus!
