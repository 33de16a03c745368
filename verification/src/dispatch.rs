//! Per-frame state maintenance of the widget tree: committing versions,
//! delivering collected event facts to the widgets they target, and
//! applying what the events scheduled.

use vstd::prelude::*;
use crate::event::UINodeEventProcessed;
use crate::node::NodeTarget;
use crate::widget_build::{SpanDirection, Widget, widget_wf};
use crate::widget_state::{button_handled, char_handled, commit_version, end_handled, keeps_decl, pending_applied, spec_commit_version, text_handled};

verus! {

/// The commit relation: same tree, every widget's change flag consumed and
/// its version advanced exactly when the flag was set.
pub open spec fn committed(w0: Widget, w1: Widget) -> bool
    decreases w0,
{
    match (w0, w1) {
        (Widget::Button(b0), Widget::Button(b1)) => {
            &&& b1.box_dimensions == b0.box_dimensions
            &&& b1.id == b0.id
            &&& b1.state.hovered == b0.state.hovered
            &&& b1.state.clicked == b0.state.clicked
            &&& b1.state.state_changed == false
            &&& b1.state.version == spec_commit_version(b0.state.version, b0.state.state_changed)
            &&& match (b0.child, b1.child) {
                (None, None) => true,
                (Some(c0), Some(c1)) => committed(*c0, *c1),
                _ => false,
            }
        },
        (Widget::Span(s0), Widget::Span(s1)) => {
            &&& s1.direction == s0.direction
            &&& s1.box_dimensions == s0.box_dimensions
            &&& s1.h_alignment == s0.h_alignment
            &&& s1.v_alignment == s0.v_alignment
            &&& s1.uniform_division == s0.uniform_division
            &&& s1.texture == s0.texture
            &&& s1.id == s0.id
            &&& s1.state.state_changed == false
            &&& s1.state.version == spec_commit_version(s0.state.version, s0.state.state_changed)
            &&& s1.children@.len() == s0.children@.len()
            &&& forall|i: int|
                0 <= i < s0.children@.len() ==> committed(
                    #[trigger] s0.children@[i],
                    #[trigger] s1.children@[i],
                )
        },
        (Widget::Text(t0), Widget::Text(t1)) => {
            &&& keeps_decl(t0, t1)
            &&& t1.text == t0.text
            &&& t1.dummy == t0.dummy
            &&& t1.current_blinking_index == t0.current_blinking_index
            &&& t1.pending_char_event == t0.pending_char_event
            &&& t1.self_clicked == t0.self_clicked
            &&& t1.scheduled_insert == t0.scheduled_insert
            &&& t1.scheduled_delete == t0.scheduled_delete
            &&& t1.change_parent_state == t0.change_parent_state
            &&& t1.state_changed == false
            &&& t1.version == spec_commit_version(t0.version, t0.state_changed)
        },
        _ => false,
    }
}

/// Whether any widget of the tree has its change flag set, so that a
/// rebuild would advance a version.
pub open spec fn spec_any_changed(w: Widget) -> bool
    decreases w,
{
    match w {
        Widget::Button(b) => b.state.state_changed || (match b.child {
            Some(c) => spec_any_changed(*c),
            None => false,
        }),
        Widget::Span(sp) => sp.state.state_changed || exists|i: int|
            0 <= i < sp.children@.len() && spec_any_changed(#[trigger] sp.children@[i]),
        Widget::Text(t) => t.state_changed,
    }
}


/// The path a target names; the empty path for no target.
pub open spec fn target_path(t: NodeTarget) -> Seq<u32> {
    match t {
        NodeTarget::NoTarget => Seq::empty(),
        NodeTarget::Widget { path } => path@,
        NodeTarget::TextChar { path, .. } => path@,
        NodeTarget::TextEnd { path } => path@,
    }
}

/// The delivery relation. `delivered(w0, w1, target, depth, ev, fired,
/// bubble)` holds when delivering the facts `ev` to the widget the target
/// names — the widget at the rest of the path below `w0`, or one of a
/// text run's character/end slots — turns `w0` into `w1`:
///
/// - at the end of the path, the named widget's handler transition runs
///   (`button_handled`, `text_handled`, `char_handled`, `end_handled`);
///   `fired` reports a button's click, `bubble` the handler's change
///   signal, and a bubbling character or end-slot change marks the owning
///   text run's change flag;
/// - on the way down, only the child the next path element names changes,
///   by this same relation one level deeper; its bubbled change sets
///   exactly this widget's change flag and stops here (`bubble` is false),
///   while a button's fired click passes through unchanged;
/// - a target naming nothing that exists leaves the tree untouched.
pub open spec fn delivered(
    w0: Widget,
    w1: Widget,
    target: NodeTarget,
    depth: int,
    ev: UINodeEventProcessed,
    fired: bool,
    bubble: bool,
) -> bool
    decreases target_path(target).len() - depth,
{
    let path = target_path(target);
    if target is NoTarget {
        w1 == w0 && !fired && !bubble
    } else if depth < path.len() {
        let step = path[depth] as int;
        &&& bubble == false
        &&& match (w0, w1) {
            (Widget::Button(b0), Widget::Button(b1)) => {
                &&& b1.box_dimensions == b0.box_dimensions
                &&& b1.id == b0.id
                &&& b1.state.hovered == b0.state.hovered
                &&& b1.state.clicked == b0.state.clicked
                &&& b1.state.version == b0.state.version
                &&& match (b0.child, b1.child) {
                    (Some(c0), Some(c1)) => if step == 0 {
                        ||| (delivered(*c0, *c1, target, depth + 1, ev, fired, false)
                            && b1.state.state_changed == b0.state.state_changed)
                        ||| (delivered(*c0, *c1, target, depth + 1, ev, fired, true)
                            && b1.state.state_changed == true)
                    } else {
                        c1 == c0 && !fired && b1.state.state_changed == b0.state.state_changed
                    },
                    (None, None) => !fired && b1.state.state_changed == b0.state.state_changed,
                    _ => false,
                }
            },
            (Widget::Span(s0), Widget::Span(s1)) => {
                &&& s1.direction == s0.direction
                &&& s1.box_dimensions == s0.box_dimensions
                &&& s1.h_alignment == s0.h_alignment
                &&& s1.v_alignment == s0.v_alignment
                &&& s1.uniform_division == s0.uniform_division
                &&& s1.texture == s0.texture
                &&& s1.id == s0.id
                &&& s1.state.version == s0.state.version
                &&& s1.children@.len() == s0.children@.len()
                &&& if 0 <= step < s0.children@.len() {
                    &&& forall|j: int|
                        0 <= j < s0.children@.len() && j != step ==> s1.children@[j]
                            == #[trigger] s0.children@[j]
                    &&& {
                        ||| (delivered(
                            s0.children@[step],
                            s1.children@[step],
                            target,
                            depth + 1,
                            ev,
                            fired,
                            false,
                        ) && s1.state.state_changed == s0.state.state_changed)
                        ||| (delivered(
                            s0.children@[step],
                            s1.children@[step],
                            target,
                            depth + 1,
                            ev,
                            fired,
                            true,
                        ) && s1.state.state_changed == true)
                    }
                } else {
                    w1 == w0 && !fired
                }
            },
            (Widget::Text(t0), Widget::Text(t1)) => t1 == t0 && !fired,
            _ => false,
        }
    } else {
        match target {
            NodeTarget::Widget { .. } => match (w0, w1) {
                (Widget::Button(b0), Widget::Button(b1)) => {
                    &&& button_handled(b0.state, b1.state, ev, bubble)
                    &&& fired == ev.left_clicked_inside
                    &&& b1.child == b0.child
                    &&& b1.box_dimensions == b0.box_dimensions
                    &&& b1.id == b0.id
                },
                (Widget::Text(t0), Widget::Text(t1)) => text_handled(t0, t1, ev, bubble)
                    && !fired,
                (Widget::Span(_), Widget::Span(_)) => w1 == w0 && !fired && !bubble,
                _ => false,
            },
            NodeTarget::TextChar { index, .. } => match (w0, w1) {
                (Widget::Text(t0), Widget::Text(t1)) => {
                    &&& !fired
                    &&& if index < t0.text@.len() {
                        char_handled(t0, t1, index, ev, bubble) && t1.state_changed == (
                        t0.state_changed || bubble)
                    } else {
                        t1 == t0 && !bubble
                    }
                },
                _ => w1 == w0 && !fired && !bubble,
            },
            NodeTarget::TextEnd { .. } => match (w0, w1) {
                (Widget::Text(t0), Widget::Text(t1)) => end_handled(t0, t1, ev, bubble)
                    && t1.state_changed == (t0.state_changed || bubble) && !fired,
                _ => w1 == w0 && !fired && !bubble,
            },
            NodeTarget::NoTarget => false,
        }
    }
}


/// The whole-tree form of `apply_pending`: every text run of the tree has
/// its scheduled edits applied, and every other widget and field is
/// untouched.
pub open spec fn all_pending_applied(w0: Widget, w1: Widget) -> bool
    decreases w0,
{
    match (w0, w1) {
        (Widget::Button(b0), Widget::Button(b1)) => {
            &&& b1.box_dimensions == b0.box_dimensions
            &&& b1.id == b0.id
            &&& b1.state == b0.state
            &&& match (b0.child, b1.child) {
                (None, None) => true,
                (Some(c0), Some(c1)) => all_pending_applied(*c0, *c1),
                _ => false,
            }
        },
        (Widget::Span(s0), Widget::Span(s1)) => {
            &&& s1.direction == s0.direction
            &&& s1.box_dimensions == s0.box_dimensions
            &&& s1.h_alignment == s0.h_alignment
            &&& s1.v_alignment == s0.v_alignment
            &&& s1.uniform_division == s0.uniform_division
            &&& s1.texture == s0.texture
            &&& s1.id == s0.id
            &&& s1.state == s0.state
            &&& s1.children@.len() == s0.children@.len()
            &&& forall|i: int|
                0 <= i < s0.children@.len() ==> all_pending_applied(
                    #[trigger] s0.children@[i],
                    #[trigger] s1.children@[i],
                )
        },
        (Widget::Text(t0), Widget::Text(t1)) => pending_applied(t0, t1),
        _ => false,
    }
}

impl Widget {
    /// Consume every change flag in the tree, advancing the version of
    /// exactly the widgets whose own state changed since the last commit.
    #[verifier::loop_isolation(false)]
    pub fn commit_frame(&mut self)
        requires
            widget_wf(*old(self)),
        ensures
            committed(*old(self), *final(self)),
            widget_wf(*final(self)),
        decreases *old(self),
    {
        match self {
            Widget::Button(b) => {
                let r = commit_version(b.state.state_changed, b.state.version);
                b.state.state_changed = r.0;
                b.state.version = r.1;
                match &mut b.child {
                    Some(c) => {
                        proof {
                            assert(decreases_to!(*old(self) => *old(self)->Button_0.child->0));
                        }
                        (&mut **c).commit_frame();
                    },
                    None => (),
                }
            },
            Widget::Span(sp) => {
                let r = commit_version(sp.state.state_changed, sp.state.version);
                sp.state.state_changed = r.0;
                sp.state.version = r.1;
                let ghost kids0 = old(self)->Span_0.children@;
                let ghost sp1 = *sp;
                let n = sp.children.len();
                let mut i: usize = 0;
                while i < n
                    invariant
                        n == kids0.len(),
                        sp.children@.len() == kids0.len(),
                        i <= n,
                        sp.direction == sp1.direction,
                        sp.box_dimensions == sp1.box_dimensions,
                        sp.h_alignment == sp1.h_alignment,
                        sp.v_alignment == sp1.v_alignment,
                        sp.uniform_division == sp1.uniform_division,
                        sp.texture == sp1.texture,
                        sp.id == sp1.id,
                        sp.state == sp1.state,
                        forall|j: int|
                            0 <= j < i ==> committed(#[trigger] kids0[j], sp.children@[j]),
                        forall|j: int| i <= j < n ==> sp.children@[j] == #[trigger] kids0[j],
                        forall|j: int|
                            0 <= j < i ==> widget_wf(#[trigger] sp.children@[j]),
                    decreases n - i,
                {
                    proof {
                        assert(decreases_to!(*old(self) => kids0));
                        assert(decreases_to!(kids0 => kids0[i as int]));
                    }
                    let child = &mut sp.children[i];
                    child.commit_frame();
                    i = i + 1;
                }
            },
            Widget::Text(t) => {
                let r = commit_version(t.state_changed, t.version);
                t.state_changed = r.0;
                t.version = r.1;
            },
        }
    }

    /// Whether any widget of the tree has a pending change.
    #[verifier::loop_isolation(false)]
    pub fn any_state_changed(&self) -> (r: bool)
        ensures
            r == spec_any_changed(*self),
        decreases *self,
    {
        match self {
            Widget::Button(b) => {
                if b.state.state_changed {
                    return true;
                }
                match &b.child {
                    Some(c) => {
                        proof {
                            assert(decreases_to!(*self => **c));
                        }
                        (&**c).any_state_changed()
                    },
                    None => false,
                }
            },
            Widget::Span(sp) => {
                if sp.state.state_changed {
                    return true;
                }
                let kids = &sp.children;
                let mut i: usize = 0;
                while i < kids.len()
                    invariant
                        i <= kids@.len(),
                        forall|j: int| 0 <= j < i ==> !spec_any_changed(#[trigger] kids@[j]),
                        sp.state.state_changed == false,
                        *self == Widget::Span(*sp),
                    decreases kids@.len() - i,
                {
                    proof {
                        assert(decreases_to!(*self => *kids));
                        assert(decreases_to!(*kids => kids@[i as int]));
                    }
                    if (&kids[i]).any_state_changed() {
                        return true;
                    }
                    i = i + 1;
                }
                false
            },
            Widget::Text(t) => t.state_changed,
        }
    }

    /// Deliver one node's event facts to the widget its target names: the
    /// path selects the widget, and a character or end-of-text target goes
    /// to the text run that owns it. A change that bubbles marks the
    /// immediate parent's change flag and stops there. Returns whether a
    /// button's click callback must fire, and whether the targeted
    /// widget's change must be signaled to the caller's widget — exactly
    /// the `delivered` relation.
    #[verifier::loop_isolation(false)]
    #[verifier::rlimit(100)]
    pub fn deliver(&mut self, target: &NodeTarget, depth: usize, ev: &UINodeEventProcessed) -> (r: (
        bool,
        bool,
    ))
        requires
            widget_wf(*old(self)),
        ensures
            widget_wf(*final(self)),
            delivered(*old(self), *final(self), *target, depth as int, *ev, r.0, r.1),
        decreases target_path(*target).len() - depth,
    {
        let path: &Vec<u32> = match target {
            NodeTarget::NoTarget => {
                return (false, false);
            },
            NodeTarget::Widget { path } => path,
            NodeTarget::TextChar { path, .. } => path,
            NodeTarget::TextEnd { path } => path,
        };
        if depth < path.len() {
            // descend to the child the next path element names
            let step = path[depth] as usize;
            let ghost w0 = *self;
            match self {
                Widget::Button(b) => match &mut b.child {
                    Some(c) => {
                        if step == 0 {
                            let r = (&mut **c).deliver(target, depth + 1, ev);
                            if r.1 {
                                b.state.state_changed = true;
                            }
                            proof {
                                let c0 = w0->Button_0.child->0;
                                let c1 = (*self)->Button_0.child->0;
                                assert(delivered(w0, *self, *target, depth as int, *ev, r.0, false)) by {
                                    assert(delivered(*c0, *c1, *target, depth as int + 1, *ev, r.0, r.1));
                                    assert((*self)->Button_0.state.state_changed == (
                                    w0->Button_0.state.state_changed || r.1));
                                }
                            }
                            (r.0, false)
                        } else {
                            proof {
                                assert(delivered(w0, *self, *target, depth as int, *ev, false, false));
                            }
                            (false, false)
                        }
                    },
                    None => {
                        proof {
                            assert(delivered(w0, *self, *target, depth as int, *ev, false, false));
                        }
                        (false, false)
                    },
                },
                Widget::Span(sp) => {
                    if step < sp.children.len() {
                        let ghost pre = sp.children@;
                        let child = &mut sp.children[step];
                        proof {
                            assert(widget_wf(pre[step as int]));
                        }
                        let r = child.deliver(target, depth + 1, ev);
                        if r.1 {
                            sp.state.state_changed = true;
                        }
                        proof {
                            assert forall|j: int|
                                0 <= j < sp.children@.len() implies widget_wf(
                                #[trigger] sp.children@[j],
                            ) by {
                                if j != step {
                                    assert(sp.children@[j] == pre[j]);
                                }
                            }
                            let s0 = w0->Span_0;
                            assert(delivered(w0, *self, *target, depth as int, *ev, r.0, false)) by {
                                assert(delivered(
                                    s0.children@[step as int],
                                    (*self)->Span_0.children@[step as int],
                                    *target,
                                    depth as int + 1,
                                    *ev,
                                    r.0,
                                    r.1,
                                ));
                                assert((*self)->Span_0.state.state_changed == (
                                s0.state.state_changed || r.1));
                                assert forall|j: int|
                                    0 <= j < s0.children@.len() && j != step as int implies (*self)->Span_0.children@[j]
                                        == #[trigger] s0.children@[j] by {}
                            }
                        }
                        (r.0, false)
                    } else {
                        proof {
                            assert(delivered(w0, *self, *target, depth as int, *ev, false, false));
                        }
                        (false, false)
                    }
                },
                Widget::Text(_) => {
                    proof {
                        assert(delivered(w0, *self, *target, depth as int, *ev, false, false));
                    }
                    (false, false)
                },
            }
        } else {
            // the target names this widget
            match (self, target) {
                (Widget::Button(b), NodeTarget::Widget { .. }) => {
                    let r = b.state.handle_event(ev);
                    (r.0, r.1)
                },
                (Widget::Text(t), NodeTarget::Widget { .. }) => (false, t.handle_event(ev)),
                (Widget::Text(t), NodeTarget::TextChar { index, .. }) => {
                    let index = *index;
                    if index < t.text.len() as u64 {
                        let b = t.handle_char_event(index, ev);
                        if b {
                            t.state_changed = true;
                        }
                        (false, b)
                    } else {
                        (false, false)
                    }
                },
                (Widget::Text(t), NodeTarget::TextEnd { .. }) => {
                    let b = t.handle_end_event(ev);
                    if b {
                        t.state_changed = true;
                    }
                    (false, b)
                },
                _ => (false, false),
            }
        }
    }

    /// Apply, in every text run of the tree, what this frame's events
    /// scheduled: insertions, deletions and caret moves.
    #[verifier::loop_isolation(false)]
    pub fn apply_pending_all(&mut self)
        requires
            widget_wf(*old(self)),
        ensures
            widget_wf(*final(self)),
            all_pending_applied(*old(self), *final(self)),
        decreases *old(self),
    {
        match self {
            Widget::Button(b) => {
                match &mut b.child {
                    Some(c) => {
                        proof {
                            assert(decreases_to!(*old(self) => *old(self)->Button_0.child->0));
                        }
                        (&mut **c).apply_pending_all();
                    },
                    None => (),
                }
            },
            Widget::Span(sp) => {
                let ghost kids0 = old(self)->Span_0.children@;
                let ghost sp1 = *sp;
                let n = sp.children.len();
                let mut i: usize = 0;
                while i < n
                    invariant
                        n == kids0.len(),
                        sp.children@.len() == kids0.len(),
                        i <= n,
                        sp.direction == sp1.direction,
                        sp.box_dimensions == sp1.box_dimensions,
                        sp.h_alignment == sp1.h_alignment,
                        sp.v_alignment == sp1.v_alignment,
                        sp.uniform_division == sp1.uniform_division,
                        sp.texture == sp1.texture,
                        sp.id == sp1.id,
                        sp.state == sp1.state,
                        forall|j: int| i <= j < n ==> sp.children@[j] == #[trigger] kids0[j],
                        forall|j: int| 0 <= j < i ==> widget_wf(#[trigger] sp.children@[j]),
                        forall|j: int|
                            0 <= j < i ==> all_pending_applied(
                                #[trigger] kids0[j],
                                sp.children@[j],
                            ),
                    decreases n - i,
                {
                    proof {
                        assert(decreases_to!(*old(self) => kids0));
                        assert(decreases_to!(kids0 => kids0[i as int]));
                    }
                    let child = &mut sp.children[i];
                    child.apply_pending_all();
                    i = i + 1;
                }
            },
            Widget::Text(t) => {
                t.apply_pending();
            },
        }
    }
}

} // verus!
