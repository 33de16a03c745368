//! One frame of the core: commit pending changes, build the descriptor
//! tree, resolve and position it, derive per-node event facts from the raw
//! input, deliver them, apply what they scheduled, re-derive the layout if
//! any state changed, and emit the render instruction.

use vstd::prelude::*;
use crate::dimensions::{BoxDimensionsAbsolute, BoxDimensionsRelative};
use crate::event::{UINodeEventProcessed, UINodeEventRaw};
use crate::flatten::{no_grid, node_flattened, ContentNode};
use crate::identity::UIIdentifierGenerator;
use crate::instruction::{instruction_of, UIRenderInstruction};
use crate::layout::{
    children_resolvable, children_resolved, node_resolvable, node_resolved, AbsNode, RelNode,
};
use crate::node::{HorizontalAlignment, NodeTarget, StructuredChildren, UINode, VerticalAlignment};
use crate::unified::UnifiedNode;
use crate::widget_build::{widget_wf, Widget};

verus! {

impl UINode<BoxDimensionsRelative, StructuredChildren<BoxDimensionsRelative>> {
    /// Whether this descriptor tree can be resolved in the given context:
    /// every length well formed, no resolved minimum above its maximum, and
    /// no grid layout.
    #[verifier::loop_isolation(false)]
    pub fn check_resolvable(
        &self,
        parent_width: u32,
        parent_height: u32,
        screen_width: u32,
        screen_height: u32,
    ) -> (r: bool)
        ensures
            r == node_resolvable(
                *self,
                parent_width as int,
                parent_height as int,
                screen_width as int,
                screen_height as int,
            ),
        decreases *self,
    {
        if !self.box_dimensions.check_wf() {
            return false;
        }
        if !self.box_dimensions.width.bounds_sound(parent_width, screen_width, screen_height) {
            return false;
        }
        if !self.box_dimensions.height.bounds_sound(parent_height, screen_width, screen_height) {
            return false;
        }
        let width = self.box_dimensions.width.resolve(parent_width, screen_width, screen_height);
        let height = self.box_dimensions.height.resolve(
            parent_height,
            screen_width,
            screen_height,
        );
        let padding = self.box_dimensions.padding.resolve(
            parent_width,
            parent_height,
            screen_width,
            screen_height,
        );
        let margin = self.box_dimensions.margin.resolve(
            parent_width,
            parent_height,
            screen_width,
            screen_height,
        );
        let dims = BoxDimensionsAbsolute { width, height, margin, padding };
        let cw = dims.inner_width();
        let ch = dims.inner_height();
        match &self.children {
            StructuredChildren::NoChildren => true,
            StructuredChildren::OneChild { child, .. } => {
                proof {
                    assert(decreases_to!(*self => self.children));
                    assert(decreases_to!(self.children => **child));
                }
                (&**child).check_resolvable(cw, ch, screen_width, screen_height)
            },
            StructuredChildren::HorizontalLayout { children, .. } => {
                let mut i: usize = 0;
                while i < children.len()
                    invariant
                        i <= children@.len(),
                        forall|j: int|
                            0 <= j < i ==> node_resolvable(
                                #[trigger] children@[j],
                                cw as int,
                                ch as int,
                                screen_width as int,
                                screen_height as int,
                            ),
                    decreases children@.len() - i,
                {
                    proof {
                        assert(decreases_to!(*self => self.children));
                        assert(decreases_to!(self.children => *children));
                        assert(decreases_to!(*children => children@[i as int]));
                    }
                    if !(&children[i]).check_resolvable(cw, ch, screen_width, screen_height) {
                        return false;
                    }
                    i = i + 1;
                }
                true
            },
            StructuredChildren::VerticalLayout { children, .. } => {
                let mut i: usize = 0;
                while i < children.len()
                    invariant
                        i <= children@.len(),
                        forall|j: int|
                            0 <= j < i ==> node_resolvable(
                                #[trigger] children@[j],
                                cw as int,
                                ch as int,
                                screen_width as int,
                                screen_height as int,
                            ),
                    decreases children@.len() - i,
                {
                    proof {
                        assert(decreases_to!(*self => self.children));
                        assert(decreases_to!(self.children => *children));
                        assert(decreases_to!(*children => children@[i as int]));
                    }
                    if !(&children[i]).check_resolvable(cw, ch, screen_width, screen_height) {
                        return false;
                    }
                    i = i + 1;
                }
                true
            },
            StructuredChildren::GridLayout { .. } => false,
        }
    }
}

/// Resolving a resolvable tree leaves no grid layout in the result, so the
/// positioning pass accepts it.
pub proof fn lemma_resolved_no_grid(rel: RelNode, abs: AbsNode, pw: int, ph: int, sw: int, sh: int)
    requires
        node_resolvable(rel, pw, ph, sw, sh),
        node_resolved(rel, abs, pw, ph, sw, sh),
    ensures
        no_grid(abs),
    decreases rel,
{
    let d = crate::layout::spec_resolve_dims(rel.box_dimensions, pw, ph, sw, sh);
    let cw = d.spec_inner_width();
    let ch = d.spec_inner_height();
    match (rel.children, abs.children) {
        (StructuredChildren::NoChildren, StructuredChildren::NoChildren) => (),
        (
            StructuredChildren::OneChild { child: c0, .. },
            StructuredChildren::OneChild { child: c1, .. },
        ) => {
            lemma_resolved_no_grid(*c0, *c1, cw, ch, sw, sh);
        },
        (
            StructuredChildren::HorizontalLayout { children: l0, .. },
            StructuredChildren::HorizontalLayout { children: l1, .. },
        ) => {
            assert forall|i: int| 0 <= i < l1@.len() implies no_grid(#[trigger] l1@[i]) by {
                lemma_resolved_no_grid(l0@[i], l1@[i], cw, ch, sw, sh);
            }
        },
        (
            StructuredChildren::VerticalLayout { children: l0, .. },
            StructuredChildren::VerticalLayout { children: l1, .. },
        ) => {
            assert forall|i: int| 0 <= i < l1@.len() implies no_grid(#[trigger] l1@[i]) by {
                lemma_resolved_no_grid(l0@[i], l1@[i], cw, ch, sw, sh);
            }
        },
        _ => (),
    }
}

/// One frame's ghost record: every intermediate stage, so the frame
/// driver's contract can tie the input state, the raw input and the final
/// state to the emitted instruction through the stage relations.
pub ghost struct FrameTrace {
    /// The widget tree after the frame's first commit.
    pub committed: Widget,
    /// The descriptor tree built from it.
    pub node: RelNode,
    /// The resolved tree.
    pub resolved: AbsNode,
    /// The positioned tree.
    pub positioned: ContentNode,
    /// The uniform tree this frame's input was hit-tested against.
    pub hit_layout: UnifiedNode,
    /// The facts collected from it, in delivery order.
    pub facts: Seq<(NodeTarget, UINodeEventProcessed)>,
    /// Per fact, whether its delivery fired a button's click callback.
    pub fires: Seq<bool>,
    /// The widget tree before each delivery, ending with `after_events`.
    pub delivery_steps: Seq<Widget>,
    /// The widget tree after every fact was delivered.
    pub after_events: Widget,
    /// The widget tree after the scheduled edits were applied.
    pub after_apply: Widget,
    /// The second build, when the events changed any state; the first
    /// build's stages otherwise.
    pub node2: RelNode,
    pub resolved2: AbsNode,
    pub positioned2: ContentNode,
}

/// The collected facts delivered to the widget tree in order:
/// `steps[j]` is the tree before fact `j` is delivered, each delivery is
/// one `delivered` transition (with some bubble outcome), and `fires[j]`
/// records whether it fired a button's click callback.
pub open spec fn facts_delivered(
    steps: Seq<Widget>,
    facts: Seq<(NodeTarget, UINodeEventProcessed)>,
    fires: Seq<bool>,
) -> bool {
    &&& steps.len() == facts.len() + 1
    &&& fires.len() == facts.len()
    &&& forall|j: int|
        0 <= j < facts.len() ==> (crate::dispatch::delivered(
            steps[j],
            steps[j + 1],
            (#[trigger] facts[j]).0,
            0,
            facts[j].1,
            fires[j],
            false,
        ) || crate::dispatch::delivered(
            steps[j],
            steps[j + 1],
            facts[j].0,
            0,
            facts[j].1,
            fires[j],
            true,
        ))
}

/// The click-callback paths of the first `i` facts whose delivery fired,
/// in order.
pub open spec fn spec_clicks(
    facts: Seq<(NodeTarget, UINodeEventProcessed)>,
    fires: Seq<bool>,
    i: int,
) -> Seq<Seq<u32>>
    decreases i,
{
    if i <= 0 || i > facts.len() || i > fires.len() {
        Seq::empty()
    } else {
        spec_clicks(facts, fires, i - 1) + (if fires[i - 1] {
            seq![crate::dispatch::target_path(facts[i - 1].0)]
        } else {
            Seq::<Seq<u32>>::empty()
        })
    }
}

/// The contents of a list of paths.
pub open spec fn paths_view(v: Seq<Vec<u32>>) -> Seq<Seq<u32>> {
    Seq::new(v.len(), |i: int| v[i]@)
}

/// The path a target names, as a fresh list.
fn target_path_vec(t: &NodeTarget) -> (r: Vec<u32>)
    ensures
        r@ == crate::dispatch::target_path(*t),
{
    match t {
        NodeTarget::NoTarget => Vec::new(),
        NodeTarget::Widget { path } => crate::node::duplicate_path(path),
        NodeTarget::TextChar { path, .. } => crate::node::duplicate_path(path),
        NodeTarget::TextEnd { path } => crate::node::duplicate_path(path),
    }
}

/// What one frame produced: the positioned tree the instruction was
/// emitted from, the render instruction, the paths of the buttons whose
/// click callbacks must fire, and the ghost record of every stage.
pub struct FrameOutput {
    pub unified: UnifiedNode,
    pub instruction: UIRenderInstruction,
    pub clicks: Vec<Vec<u32>>,
    pub trace: Ghost<FrameTrace>,
}

impl Widget {
    /// Run one frame over this widget tree: commit pending changes, build
    /// and lay out the descriptor tree against the screen, derive each
    /// node's event facts from the raw input (against the layout computed
    /// before the events apply), deliver them, apply what they scheduled,
    /// rebuild if any state changed, and emit the render instruction.
    ///
    /// `None` means the committed declarations could not be resolved — a
    /// minimum above a maximum, or a grid layout — which is a fatal
    /// configuration error. On `Some`, the output's ghost trace ties every
    /// stage together: commit, build, resolution, positioning,
    /// unification, fact collection, delivery, scheduled edits, the
    /// rebuild when state changed, and the instruction.
    #[verifier::loop_isolation(false)]
    #[verifier::rlimit(100)]
    pub fn update_and_to_instruction(
        &mut self,
        gen: &mut UIIdentifierGenerator,
        screen_width: u32,
        screen_height: u32,
        raw: &UINodeEventRaw,
    ) -> (r: Option<FrameOutput>)
        requires
            widget_wf(*old(self)),
        ensures
            widget_wf(*final(self)),
            r is None ==> (exists|n: RelNode|
                #![trigger crate::widget_build::built(*final(self), n, Seq::<u32>::empty())]
                crate::widget_build::built(*final(self), n, Seq::<u32>::empty())
                    && !node_resolvable(
                    n,
                    screen_width as int,
                    screen_height as int,
                    screen_width as int,
                    screen_height as int,
                )),
            r matches Some(out) ==> ({
                let t = out.trace@;
                let sw = screen_width as int;
                let sh = screen_height as int;
                &&& crate::dispatch::committed(*old(self), t.committed)
                &&& crate::widget_build::built(t.committed, t.node, Seq::<u32>::empty())
                &&& node_resolvable(t.node, sw, sh, sw, sh)
                &&& node_resolved(t.node, t.resolved, sw, sh, sw, sh)
                &&& node_flattened(
                    t.resolved,
                    t.positioned,
                    0,
                    0,
                    sw,
                    sh,
                    HorizontalAlignment::Left,
                    VerticalAlignment::Top,
                )
                &&& crate::unified::content_unified(t.positioned, t.hit_layout)
                &&& crate::event::pairs_view(t.facts) == crate::event::spec_collect(
                    t.hit_layout,
                    *raw,
                )
                &&& t.fires.len() == t.facts.len()
                &&& t.delivery_steps[0] == t.committed
                &&& t.delivery_steps[t.facts.len() as int] == t.after_events
                &&& facts_delivered(t.delivery_steps, t.facts, t.fires)
                &&& crate::dispatch::all_pending_applied(t.after_events, t.after_apply)
                &&& paths_view(out.clicks@) == spec_clicks(t.facts, t.fires, t.facts.len() as int)
                &&& if crate::dispatch::spec_any_changed(t.after_apply) {
                    &&& crate::dispatch::committed(t.after_apply, *final(self))
                    &&& crate::widget_build::built(*final(self), t.node2, Seq::<u32>::empty())
                    &&& node_resolvable(t.node2, sw, sh, sw, sh)
                    &&& node_resolved(t.node2, t.resolved2, sw, sh, sw, sh)
                    &&& node_flattened(
                        t.resolved2,
                        t.positioned2,
                        0,
                        0,
                        sw,
                        sh,
                        HorizontalAlignment::Left,
                        VerticalAlignment::Top,
                    )
                    &&& crate::unified::content_unified(t.positioned2, out.unified)
                } else {
                    &&& *final(self) == t.after_apply
                    &&& out.unified == t.hit_layout
                }
                &&& instruction_of(
                    out.unified,
                    out.instruction,
                    screen_width as int,
                    screen_height as int,
                )
            }),
    {
        self.commit_frame();
        let ghost committed_w = *self;
        let path: Vec<u32> = Vec::new();
        proof {
            assert(path@ =~= Seq::<u32>::empty());
        }
        let node = self.to_ui_node(&path);
        if !node.check_resolvable(screen_width, screen_height, screen_width, screen_height) {
            return None;
        }
        let abs = node.calculate_dimensions(
            screen_width,
            screen_height,
            screen_width,
            screen_height,
        );
        proof {
            lemma_resolved_no_grid(
                node,
                abs,
                screen_width as int,
                screen_height as int,
                screen_width as int,
                screen_height as int,
            );
        }
        let flat = abs.flatten_children(
            0,
            0,
            screen_width,
            screen_height,
            HorizontalAlignment::Left,
            VerticalAlignment::Top,
            gen,
        );
        let unified = flat.to_unified();
        let mut facts: Vec<(NodeTarget, UINodeEventProcessed)> = Vec::new();
        unified.collect_events(raw, &mut facts);
        proof {
            assert(crate::event::pairs_view(facts@) =~= crate::event::spec_collect(
                unified,
                *raw,
            ));
        }
        let ghost mut fires: Seq<bool> = Seq::empty();
        let ghost mut steps: Seq<Widget> = seq![*self];
        let mut clicks: Vec<Vec<u32>> = Vec::new();
        let mut i: usize = 0;
        while i < facts.len()
            invariant
                widget_wf(*self),
                i <= facts@.len(),
                fires.len() == i,
                steps.len() == i + 1,
                steps[0] == committed_w,
                steps[i as int] == *self,
                forall|j: int|
                    0 <= j < i ==> (crate::dispatch::delivered(
                        steps[j],
                        steps[j + 1],
                        (#[trigger] facts@[j]).0,
                        0,
                        facts@[j].1,
                        fires[j],
                        false,
                    ) || crate::dispatch::delivered(
                        steps[j],
                        steps[j + 1],
                        facts@[j].0,
                        0,
                        facts@[j].1,
                        fires[j],
                        true,
                    )),
                paths_view(clicks@) == spec_clicks(facts@, fires, i as int),
            decreases facts@.len() - i,
        {
            let ghost prev = *self;
            let ghost fires_prev = fires;
            let (target, ev) = &facts[i];
            let r = self.deliver(target, 0, ev);
            if r.0 {
                clicks.push(target_path_vec(target));
            }
            proof {
                fires = fires.push(r.0);
                steps = steps.push(*self);
            }
            i = i + 1;
            proof {
                assert(crate::dispatch::delivered(
                    prev,
                    *self,
                    facts@[i as int - 1].0,
                    0,
                    facts@[i as int - 1].1,
                    fires[i as int - 1],
                    r.1,
                ));
                assert(spec_clicks(facts@, fires, i as int - 1) == spec_clicks(
                    facts@,
                    fires_prev,
                    i as int - 1,
                )) by {
                    lemma_spec_clicks_fires_extend(facts@, fires_prev, fires, i as int - 1);
                }
                assert(paths_view(clicks@) =~= spec_clicks(facts@, fires, i as int));
            }
        }
        let ghost delivery_steps = steps;
        let ghost after_events = *self;
        self.apply_pending_all();
        let ghost after_apply = *self;
        if self.any_state_changed() {
            self.commit_frame();
            let node2 = self.to_ui_node(&path);
            if !node2.check_resolvable(screen_width, screen_height, screen_width, screen_height) {
                return None;
            }
            let abs2 = node2.calculate_dimensions(
                screen_width,
                screen_height,
                screen_width,
                screen_height,
            );
            proof {
                lemma_resolved_no_grid(
                    node2,
                    abs2,
                    screen_width as int,
                    screen_height as int,
                    screen_width as int,
                    screen_height as int,
                );
            }
            let flat2 = abs2.flatten_children(
                0,
                0,
                screen_width,
                screen_height,
                HorizontalAlignment::Left,
                VerticalAlignment::Top,
                gen,
            );
            let unified2 = flat2.to_unified();
            let instruction = unified2.to_ui_render_instruction(screen_width, screen_height);
            let ghost u0 = unified;
            Some(
                FrameOutput {
                    unified: unified2,
                    instruction,
                    clicks,
                    trace: Ghost(
                        FrameTrace {
                            committed: committed_w,
                            node,
                            resolved: abs,
                            positioned: flat,
                            hit_layout: u0,
                            facts: facts@,
                            fires,
                            delivery_steps,
                            after_events,
                            after_apply,
                            node2,
                            resolved2: abs2,
                            positioned2: flat2,
                        },
                    ),
                },
            )
        } else {
            let instruction = unified.to_ui_render_instruction(screen_width, screen_height);
            let ghost u0 = unified;
            Some(
                FrameOutput {
                    unified,
                    instruction,
                    clicks,
                    trace: Ghost(
                        FrameTrace {
                            committed: committed_w,
                            node: node,
                            resolved: abs,
                            positioned: flat,
                            hit_layout: u0,
                            facts: facts@,
                            fires,
                            delivery_steps,
                            after_events,
                            after_apply,
                            node2: node,
                            resolved2: abs,
                            positioned2: flat,
                        },
                    ),
                },
            )
        }
    }
}

/// Extending the fire record past `i` does not disturb the clicks of the
/// first `i` facts.
pub proof fn lemma_spec_clicks_fires_extend(
    facts: Seq<(NodeTarget, UINodeEventProcessed)>,
    fires0: Seq<bool>,
    fires1: Seq<bool>,
    i: int,
)
    requires
        i <= fires0.len(),
        fires0.len() <= fires1.len(),
        forall|j: int| 0 <= j < fires0.len() ==> fires1[j] == fires0[j],
    ensures
        spec_clicks(facts, fires1, i) == spec_clicks(facts, fires0, i),
    decreases i,
{
    if i > 0 {
        lemma_spec_clicks_fires_extend(facts, fires0, fires1, i - 1);
    }
}

} // verus!
