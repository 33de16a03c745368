//! The event model: one frame's raw input, and the per-node facts derived
//! from it by hit-testing against the node's absolute rectangle.

use vstd::prelude::*;
use crate::dimensions::BoxDimensionsWithGlobal;
use crate::node::NodeTarget;
use crate::unified::UnifiedNode;

verus! {

/// The one key the core reacts to besides printable text.
#[derive(Clone, Copy, Debug, PartialEq, Eq, Structural)]
pub enum UIKey {
    Backspace,
    Other,
}

/// One frame's raw input, supplied by the embedding frame driver.
#[derive(Debug)]
pub struct UINodeEventRaw {
    pub mouse_x: u32,
    pub mouse_y: u32,
    pub mouse_left: bool,
    pub mouse_left_down: bool,
    pub mouse_left_up: bool,
    pub mouse_right: bool,
    pub mouse_right_down: bool,
    pub mouse_right_up: bool,
    pub key_down: Option<UIKey>,
    pub cursor_blink: bool,
    pub pressed_str: Option<String>,
}

/// The per-node facts derived from one frame's raw input and the node's
/// absolute rectangle, handed to the node's widget.
#[derive(Debug)]
pub struct UINodeEventProcessed {
    pub mouse_hover: bool,
    pub left_clicked_inside: bool,
    pub left_clicked_left_half: bool,
    pub left_clicked_right_half: bool,
    pub left_released: bool,
    pub lose_focus: bool,
    pub cursor_blink: bool,
    pub key_down: Option<UIKey>,
    pub pressed_str: Option<String>,
}

/// Whether the mouse position lies inside the node's rectangle.
pub open spec fn spec_hit(raw: UINodeEventRaw, d: BoxDimensionsWithGlobal) -> bool {
    &&& d.global_pos_x <= raw.mouse_x
    &&& raw.mouse_x - d.global_pos_x < d.width
    &&& d.global_pos_y <= raw.mouse_y
    &&& raw.mouse_y - d.global_pos_y < d.height
}

/// Whether the mouse position lies in the left half of the node's
/// rectangle (the caret goes before the character when its left half is
/// clicked, after it otherwise).
pub open spec fn spec_hit_left_half(raw: UINodeEventRaw, d: BoxDimensionsWithGlobal) -> bool {
    spec_hit(raw, d) && raw.mouse_x - d.global_pos_x < d.width / 2
}

/// The boolean facts of `spec_process`, one clause per field.
pub open spec fn spec_processed_ok(
    raw: UINodeEventRaw,
    d: BoxDimensionsWithGlobal,
    p: UINodeEventProcessed,
) -> bool {
    &&& p.mouse_hover == spec_hit(raw, d)
    &&& p.left_clicked_inside == (raw.mouse_left_down && spec_hit(raw, d))
    &&& p.left_clicked_left_half == (raw.mouse_left_down && spec_hit_left_half(raw, d))
    &&& p.left_clicked_right_half == (raw.mouse_left_down && spec_hit(raw, d)
        && !spec_hit_left_half(raw, d))
    &&& p.left_released == raw.mouse_left_up
    &&& p.lose_focus == (raw.mouse_left_down && !spec_hit(raw, d))
    &&& p.cursor_blink == raw.cursor_blink
    &&& p.key_down == raw.key_down
    &&& match (p.pressed_str, raw.pressed_str) {
        (Some(a), Some(b)) => a@ == b@,
        (None, None) => true,
        _ => false,
    }
}

impl UINodeEventRaw {
    /// Derive one node's event facts from this frame's raw input: the hit
    /// test against the node's current absolute rectangle decides hover,
    /// click containment, which half was clicked, and focus loss.
    pub fn process(&self, d: &BoxDimensionsWithGlobal) -> (p: UINodeEventProcessed)
        ensures
            spec_processed_ok(*self, *d, p),
    {
        let inside = d.global_pos_x <= self.mouse_x && self.mouse_x - d.global_pos_x < d.width
            && d.global_pos_y <= self.mouse_y && self.mouse_y - d.global_pos_y < d.height;
        let left_half = inside && self.mouse_x - d.global_pos_x < d.width / 2;
        let pressed_str = match &self.pressed_str {
            Some(s) => Some(s.clone()),
            None => None,
        };
        UINodeEventProcessed {
            mouse_hover: inside,
            left_clicked_inside: self.mouse_left_down && inside,
            left_clicked_left_half: self.mouse_left_down && left_half,
            left_clicked_right_half: self.mouse_left_down && inside && !left_half,
            left_released: self.mouse_left_up,
            lose_focus: self.mouse_left_down && !inside,
            cursor_blink: self.cursor_blink,
            key_down: self.key_down,
            pressed_str,
        }
    }
}

/// The mathematical form of an event target: paths as sequences.
pub ghost enum TargetV {
    NoneT,
    WidgetT { path: Seq<u32> },
    TextCharT { path: Seq<u32>, index: u64 },
    TextEndT { path: Seq<u32> },
}

pub open spec fn target_view(t: NodeTarget) -> TargetV {
    match t {
        NodeTarget::NoTarget => TargetV::NoneT,
        NodeTarget::Widget { path } => TargetV::WidgetT { path: path@ },
        NodeTarget::TextChar { path, index } => TargetV::TextCharT { path: path@, index },
        NodeTarget::TextEnd { path } => TargetV::TextEndT { path: path@ },
    }
}

/// The mathematical form of one node's event facts: strings as character
/// sequences.
pub ghost struct FactV {
    pub mouse_hover: bool,
    pub left_clicked_inside: bool,
    pub left_clicked_left_half: bool,
    pub left_clicked_right_half: bool,
    pub left_released: bool,
    pub lose_focus: bool,
    pub cursor_blink: bool,
    pub key_down: Option<UIKey>,
    pub pressed: Option<Seq<char>>,
}

pub open spec fn facts_view(p: UINodeEventProcessed) -> FactV {
    FactV {
        mouse_hover: p.mouse_hover,
        left_clicked_inside: p.left_clicked_inside,
        left_clicked_left_half: p.left_clicked_left_half,
        left_clicked_right_half: p.left_clicked_right_half,
        left_released: p.left_released,
        lose_focus: p.lose_focus,
        cursor_blink: p.cursor_blink,
        key_down: p.key_down,
        pressed: match p.pressed_str {
            Some(s) => Some(s@),
            None => None,
        },
    }
}

/// The facts derived for a node with rectangle `d` from raw input `raw`.
pub open spec fn spec_facts(raw: UINodeEventRaw, d: BoxDimensionsWithGlobal) -> FactV {
    FactV {
        mouse_hover: spec_hit(raw, d),
        left_clicked_inside: raw.mouse_left_down && spec_hit(raw, d),
        left_clicked_left_half: raw.mouse_left_down && spec_hit_left_half(raw, d),
        left_clicked_right_half: raw.mouse_left_down && spec_hit(raw, d) && !spec_hit_left_half(
            raw,
            d,
        ),
        left_released: raw.mouse_left_up,
        lose_focus: raw.mouse_left_down && !spec_hit(raw, d),
        cursor_blink: raw.cursor_blink,
        key_down: raw.key_down,
        pressed: match raw.pressed_str {
            Some(s) => Some(s@),
            None => None,
        },
    }
}

/// The facts of every targeted node of the tree, depth first, a node
/// before its children.
pub open spec fn spec_collect(n: UnifiedNode, raw: UINodeEventRaw) -> Seq<(TargetV, FactV)>
    decreases n, 1int,
{
    let own: Seq<(TargetV, FactV)> = if n.target is NoTarget {
        Seq::empty()
    } else {
        seq![(target_view(n.target), spec_facts(raw, n.box_dimensions))]
    };
    own + spec_collect_kids(n, n.children.children@.len() as int, raw)
}

/// The collected facts of the first `i` children of `n`, in order.
pub open spec fn spec_collect_kids(n: UnifiedNode, i: int, raw: UINodeEventRaw) -> Seq<
    (TargetV, FactV),
>
    decreases n, 0int, i,
{
    if i <= 0 || i > n.children.children@.len() {
        Seq::empty()
    } else {
        spec_collect_kids(n, i - 1, raw) + spec_collect(n.children.children@[i - 1], raw)
    }
}

/// The views of a list of collected target/fact pairs.
pub open spec fn pairs_view(s: Seq<(NodeTarget, UINodeEventProcessed)>) -> Seq<(TargetV, FactV)> {
    Seq::new(s.len(), |i: int| (target_view(s[i].0), facts_view(s[i].1)))
}

impl UnifiedNode {
    /// Hit-test this frame's raw input against every targeted node of the
    /// positioned tree, appending each node's facts to `out`, depth first,
    /// a node before its children.
    #[verifier::loop_isolation(false)]
    pub fn collect_events(
        &self,
        raw: &UINodeEventRaw,
        out: &mut Vec<(NodeTarget, UINodeEventProcessed)>,
    )
        ensures
            pairs_view(final(out)@) == pairs_view(old(out)@) + spec_collect(*self, *raw),
        decreases *self,
    {
        let ghost base = pairs_view(out@);
        match &self.target {
            NodeTarget::NoTarget => (),
            _ => {
                let p = raw.process(&self.box_dimensions);
                out.push((self.target.duplicate(), p));
                proof {
                    assert(pairs_view(out@) =~= base + seq![
                        (target_view(self.target), spec_facts(*raw, self.box_dimensions)),
                    ]);
                }
            },
        }
        let kids = &self.children.children;
        let mut i: usize = 0;
        while i < kids.len()
            invariant
                i <= kids@.len(),
                pairs_view(out@) =~= base + (if self.target is NoTarget {
                    Seq::<(TargetV, FactV)>::empty()
                } else {
                    seq![(target_view(self.target), spec_facts(*raw, self.box_dimensions))]
                }) + spec_collect_kids(*self, i as int, *raw),
            decreases kids@.len() - i,
        {
            proof {
                assert(decreases_to!(*self => self.children));
                assert(decreases_to!(self.children => *kids));
                assert(decreases_to!(*kids => kids@[i as int]));
            }
            let ghost before = pairs_view(out@);
            (&kids[i]).collect_events(raw, out);
            i = i + 1;
            proof {
                assert(pairs_view(out@) =~= before + spec_collect(kids@[i as int - 1], *raw));
                assert(pairs_view(out@) =~= base + (if self.target is NoTarget {
                    Seq::<(TargetV, FactV)>::empty()
                } else {
                    seq![(target_view(self.target), spec_facts(*raw, self.box_dimensions))]
                }) + spec_collect_kids(*self, i as int, *raw));
            }
        }
        proof {
            assert(pairs_view(out@) =~= base + spec_collect(*self, *raw));
        }
    }
}

} // verus!
