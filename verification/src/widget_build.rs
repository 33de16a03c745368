//! The widget tree: a closed set of widget kinds, each able to produce its
//! descriptor node for the current frame, receive the event facts
//! collected for its nodes, and apply what those events scheduled.

use vstd::prelude::*;
use crate::dimensions::{BoxDimensionsRelative, RelativeEdges};
use crate::identity::{ComponentIdentifier, UIIdentifier};
use crate::layout::RelNode;
use crate::length::{BoundedLength, Fraction, RelativeLength};
use crate::node::{
    HorizontalAlignment, NodeTarget, StructuredChildren, UINode, VerticalAlignment,
};
use crate::node::duplicate_path;
use crate::visual::TextureMeta;
use crate::widget_state::{spec_advance, ButtonState, SpanState, TextWidget};

verus! {

/// The widget-kind serial pools for identity generation.
pub const BUTTON_KIND: u64 = 1;

pub const SPAN_KIND: u64 = 2;

pub const TEXT_KIND: u64 = 3;

/// The button's visual in its three states.
pub const BUTTON_TEXTURE_PATH: &'static str = "assets/button.jpg";

pub const BUTTON_HOVER_TEXTURE_PATH: &'static str = "assets/button2.jpg";

pub const BUTTON_PRESSED_TEXTURE_PATH: &'static str = "assets/button3.jpg";

/// The visual behind a text run.
pub const TEXT_TEXTURE_PATH: &'static str = "assets/placeholder.png";

/// The caret visual.
pub const CURSOR_TEXTURE_PATH: &'static str = "assets/text_cursor.png";

/// A row or column.
#[derive(Clone, Copy, Debug, PartialEq, Eq, Structural)]
pub enum SpanDirection {
    Horizontal,
    Vertical,
}

/// The caret visual as a widget kind marker.
#[derive(Debug)]
pub struct CharCursor;

/// A clickable button with an optional centered child.
#[derive(Debug)]
pub struct ButtonWidget {
    pub box_dimensions: BoxDimensionsRelative,
    pub child: Option<Box<Widget>>,
    pub id: u64,
    pub state: ButtonState,
}

/// A row or column of widgets.
#[derive(Debug)]
pub struct SpanWidget {
    pub direction: SpanDirection,
    pub children: Vec<Widget>,
    pub box_dimensions: BoxDimensionsRelative,
    pub h_alignment: HorizontalAlignment,
    pub v_alignment: VerticalAlignment,
    pub uniform_division: bool,
    pub texture: TextureMeta,
    pub id: u64,
    pub state: SpanState,
}

/// One widget of the tree.
#[derive(Debug)]
pub enum Widget {
    Button(ButtonWidget),
    Span(SpanWidget),
    Text(TextWidget),
}

/// A sound widget tree: every text run's caret within bounds, its metrics
/// sound, and its size plus any scheduled insertion within the machine
/// limit.
pub open spec fn widget_wf(w: Widget) -> bool
    decreases w,
{
    match w {
        Widget::Button(b) => match b.child {
            Some(c) => widget_wf(*c),
            None => true,
        },
        Widget::Span(sp) => forall|i: int|
            0 <= i < sp.children@.len() ==> widget_wf(#[trigger] sp.children@[i]),
        Widget::Text(t) => {
            &&& t.wf()
            &&& t.metrics.wf()
            &&& t.text@.len() + (match t.scheduled_insert {
                Some(p) => p@.len(),
                None => 0,
            }) < u64::MAX
        },
    }
}

/// The fixed bounded length whose preferred, minimum and maximum are all
/// the same symbolic length.
pub open spec fn spec_fixed(l: RelativeLength) -> BoundedLength {
    BoundedLength { preferred_length: l, min_length: Some(l), max_length: Some(l) }
}

/// The texture a button shows: pressed wins over hovered wins over plain.
pub open spec fn spec_button_texture(b: ButtonState) -> Seq<char> {
    if b.clicked {
        BUTTON_PRESSED_TEXTURE_PATH@
    } else if b.hovered {
        BUTTON_HOVER_TEXTURE_PATH@
    } else {
        BUTTON_TEXTURE_PATH@
    }
}

/// The caret visual node: a thin slice of the parent, full height.
pub open spec fn cursor_node_ok(n: RelNode) -> bool {
    &&& n.box_dimensions == (BoxDimensionsRelative {
        width: spec_fixed(RelativeLength::RelativeParent(Fraction { num: 1, den: 20 })),
        height: spec_fixed(RelativeLength::RelativeParent(Fraction { num: 1, den: 1 })),
        margin: RelativeEdges::spec_zero(),
        padding: RelativeEdges::spec_zero(),
    })
    &&& n.meta matches TextureMeta::Texture { path } && path@ == CURSOR_TEXTURE_PATH@
    &&& n.identifier matches UIIdentifier::Component(ComponentIdentifier::Default { id, name })
        && id == 0 && name@ == "CharCursor"@
    &&& n.version == 0
    &&& n.target is NoTarget
    &&& n.children is NoChildren
}

/// The symbolic margins of one glyph: half the line gap above and below.
pub open spec fn spec_glyph_margin(line_gap: u32) -> RelativeEdges {
    RelativeEdges {
        top: RelativeLength::Pixels((line_gap / 2) as u32),
        right: RelativeLength::Pixels(0),
        bottom: RelativeLength::Pixels((line_gap / 2) as u32),
        left: RelativeLength::Pixels(0),
    }
}

/// One character's node: sized by its advance width and the line height,
/// identified by (character, font, caret shown), carrying a caret child
/// when the caret is shown on it.
pub open spec fn char_node_ok(t: TextWidget, i: int, n: RelNode, path: Seq<u32>) -> bool {
    let c = t.text@[i];
    let show = c.blinking && c.showing_cursor;
    let adv = spec_advance(t.metrics.advances@, c.character, t.metrics.default_advance);
    let lh = (t.metrics.ascent - t.metrics.descent) as u32;
    &&& n.box_dimensions == (BoxDimensionsRelative {
        width: spec_fixed(RelativeLength::Pixels(adv)),
        height: spec_fixed(RelativeLength::Pixels(lh)),
        margin: spec_glyph_margin(t.metrics.line_gap),
        padding: RelativeEdges::spec_zero(),
    })
    &&& n.meta matches TextureMeta::Font { font_path, character } && font_path@ == t.font_path@
        && character == c.character
    &&& n.identifier matches UIIdentifier::Component(
        ComponentIdentifier::Char { character, font_path, show_cursor },
    ) && character == c.character && font_path@ == t.font_path@ && show_cursor == show
    &&& n.version == 0
    &&& n.target matches NodeTarget::TextChar { path: p, index } && p@ == path && index == i
    &&& if show {
        n.children matches StructuredChildren::OneChild { h_alignment, v_alignment, child }
            && h_alignment == HorizontalAlignment::Left && v_alignment == VerticalAlignment::Top
            && cursor_node_ok(*child)
    } else {
        n.children is NoChildren
    }
}

/// The end-of-text caret slot's node: a blank glyph as wide as the line is
/// high.
pub open spec fn dummy_node_ok(t: TextWidget, n: RelNode, path: Seq<u32>) -> bool {
    let show = t.dummy.blinking && t.dummy.showing_cursor;
    let lh = (t.metrics.ascent - t.metrics.descent) as u32;
    &&& n.box_dimensions == (BoxDimensionsRelative {
        width: spec_fixed(RelativeLength::Pixels(lh)),
        height: spec_fixed(RelativeLength::Pixels(lh)),
        margin: spec_glyph_margin(t.metrics.line_gap),
        padding: RelativeEdges::spec_zero(),
    })
    &&& n.meta matches TextureMeta::Font { font_path, character } && font_path@ == t.font_path@
        && character == ' '
    &&& n.identifier matches UIIdentifier::Component(
        ComponentIdentifier::DummyChar { show_cursor },
    ) && show_cursor == show
    &&& n.version == 0
    &&& n.target matches NodeTarget::TextEnd { path: p } && p@ == path
    &&& if show {
        n.children matches StructuredChildren::OneChild { h_alignment, v_alignment, child }
            && h_alignment == HorizontalAlignment::Left && v_alignment == VerticalAlignment::Top
            && cursor_node_ok(*child)
    } else {
        n.children is NoChildren
    }
}

/// The node a widget produces for the current frame: its declared box, its
/// state-dependent visual, its identity and committed version, its event
/// target naming its own path, and one node per child — for a text run,
/// one glyph node per character and the end-of-text slot after them, laid
/// out left to right.
pub open spec fn built(w: Widget, n: RelNode, path: Seq<u32>) -> bool
    decreases w,
{
    match w {
        Widget::Button(b) => {
            &&& n.box_dimensions == b.box_dimensions
            &&& n.version == b.state.version
            &&& n.identifier matches UIIdentifier::Component(
                ComponentIdentifier::Default { id, name },
            ) && id == b.id && name@ == "Button"@
            &&& n.meta matches TextureMeta::Texture { path: p } && p@ == spec_button_texture(
                b.state,
            )
            &&& n.target matches NodeTarget::Widget { path: p } && p@ == path
            &&& match b.child {
                None => n.children is NoChildren,
                Some(c) => n.children matches StructuredChildren::OneChild {
                    h_alignment,
                    v_alignment,
                    child,
                } && h_alignment == HorizontalAlignment::Center && v_alignment
                    == VerticalAlignment::Center && built(*c, *child, path.push(0u32)),
            }
        },
        Widget::Span(sp) => {
            &&& n.box_dimensions == sp.box_dimensions
            &&& n.version == sp.state.version
            &&& n.identifier matches UIIdentifier::Component(
                ComponentIdentifier::Default { id, name },
            ) && id == sp.id && name@ == "Span"@
            &&& n.meta.spec_eq(sp.texture)
            &&& n.target matches NodeTarget::Widget { path: p } && p@ == path
            &&& match sp.direction {
                SpanDirection::Horizontal => n.children
                    matches StructuredChildren::HorizontalLayout {
                    h_alignment,
                    v_alignment,
                    uniform_division,
                    children,
                } && h_alignment == sp.h_alignment && v_alignment == sp.v_alignment
                    && uniform_division == sp.uniform_division && children@.len()
                    == sp.children@.len() && (forall|i: int|
                    0 <= i < sp.children@.len() ==> built(
                        #[trigger] sp.children@[i],
                        #[trigger] children@[i],
                        path.push(i as u32),
                    )),
                SpanDirection::Vertical => n.children matches StructuredChildren::VerticalLayout {
                    h_alignment,
                    v_alignment,
                    uniform_division,
                    children,
                } && h_alignment == sp.h_alignment && v_alignment == sp.v_alignment
                    && uniform_division == sp.uniform_division && children@.len()
                    == sp.children@.len() && (forall|i: int|
                    0 <= i < sp.children@.len() ==> built(
                        #[trigger] sp.children@[i],
                        #[trigger] children@[i],
                        path.push(i as u32),
                    )),
            }
        },
        Widget::Text(t) => {
            &&& n.box_dimensions == t.box_dimensions
            &&& n.version == t.version
            &&& n.identifier matches UIIdentifier::Component(
                ComponentIdentifier::Default { id, name },
            ) && id == t.id && name@ == "Text"@
            &&& n.meta matches TextureMeta::Texture { path: p } && p@ == TEXT_TEXTURE_PATH@
            &&& n.target matches NodeTarget::Widget { path: p } && p@ == path
            &&& n.children matches StructuredChildren::HorizontalLayout {
                h_alignment,
                v_alignment,
                uniform_division,
                children,
            } && h_alignment == HorizontalAlignment::Left && v_alignment == VerticalAlignment::Top
                && uniform_division == false && children@.len() == t.text@.len() + 1 && (forall|
                i: int,
            |
                0 <= i < t.text@.len() ==> char_node_ok(t, i, #[trigger] children@[i], path))
                && dummy_node_ok(t, children@[t.text@.len() as int], path)
        },
    }
}

fn fixed_pixels_len(l: u32) -> (r: BoundedLength)
    ensures
        r == spec_fixed(RelativeLength::Pixels(l)),
{
    BoundedLength::fixed_pixels(l)
}

fn glyph_margin(line_gap: u32) -> (r: RelativeEdges)
    ensures
        r == spec_glyph_margin(line_gap),
{
    RelativeEdges {
        top: RelativeLength::Pixels(line_gap / 2),
        right: RelativeLength::Pixels(0),
        bottom: RelativeLength::Pixels(line_gap / 2),
        left: RelativeLength::Pixels(0),
    }
}

impl ButtonWidget {
    /// A fresh button with no child, unhovered, unpressed, at version 0.
    pub fn new(
        width: BoundedLength,
        height: BoundedLength,
        margin: RelativeEdges,
        padding: RelativeEdges,
        gen: &mut crate::identity::UIIdentifierGenerator,
    ) -> (r: ButtonWidget)
        ensures
            r.box_dimensions == (BoxDimensionsRelative { width, height, margin, padding }),
            r.state.hovered == false,
            r.state.clicked == false,
            r.state.state_changed == false,
            r.state.version == 0,
            r.child is None,
    {
        ButtonWidget {
            box_dimensions: BoxDimensionsRelative { width, height, margin, padding },
            child: None,
            id: gen.next_id(BUTTON_KIND),
            state: ButtonState { hovered: false, clicked: false, state_changed: false, version: 0 },
        }
    }

    /// Give the button its centered child.
    pub fn set_child(&mut self, child: Widget)
        ensures
            final(self).child matches Some(c) && *c == child,
            final(self).box_dimensions == old(self).box_dimensions,
            final(self).id == old(self).id,
            final(self).state == old(self).state,
    {
        self.child = Some(Box::new(child));
    }
}

impl SpanWidget {
    /// A fresh empty span at version 0.
    pub fn new(
        direction: SpanDirection,
        width: BoundedLength,
        height: BoundedLength,
        margin: RelativeEdges,
        padding: RelativeEdges,
        h_alignment: HorizontalAlignment,
        v_alignment: VerticalAlignment,
        uniform_division: bool,
        texture: TextureMeta,
        gen: &mut crate::identity::UIIdentifierGenerator,
    ) -> (r: SpanWidget)
        ensures
            r.direction == direction,
            r.box_dimensions == (BoxDimensionsRelative { width, height, margin, padding }),
            r.h_alignment == h_alignment,
            r.v_alignment == v_alignment,
            r.uniform_division == uniform_division,
            r.texture == texture,
            r.state.state_changed == false,
            r.state.version == 0,
            r.children@.len() == 0,
    {
        SpanWidget {
            direction,
            children: Vec::new(),
            box_dimensions: BoxDimensionsRelative { width, height, margin, padding },
            h_alignment,
            v_alignment,
            uniform_division,
            texture,
            id: gen.next_id(SPAN_KIND),
            state: SpanState { state_changed: false, version: 0 },
        }
    }

    /// Append one child widget.
    pub fn push_child(&mut self, child: Widget)
        ensures
            final(self).children@ == old(self).children@.push(child),
            final(self).direction == old(self).direction,
            final(self).box_dimensions == old(self).box_dimensions,
            final(self).h_alignment == old(self).h_alignment,
            final(self).v_alignment == old(self).v_alignment,
            final(self).uniform_division == old(self).uniform_division,
            final(self).texture == old(self).texture,
            final(self).id == old(self).id,
            final(self).state == old(self).state,
    {
        self.children.push(child);
    }
}

impl TextWidget {
    /// A fresh text run holding `initial_text`, caret off, at version 0,
    /// marked changed so the first commit renders it.
    pub fn new(
        initial_text: &str,
        font_path: String,
        metrics: crate::widget_state::FontMetrics,
        width: BoundedLength,
        height: BoundedLength,
        margin: RelativeEdges,
        padding: RelativeEdges,
        gen: &mut crate::identity::UIIdentifierGenerator,
    ) -> (r: TextWidget)
        requires
            metrics.wf(),
            initial_text@.len() < u64::MAX,
        ensures
            crate::widget_state::chars_of(r.text@) == initial_text@,
            r.box_dimensions == (BoxDimensionsRelative { width, height, margin, padding }),
            r.font_path == font_path,
            r.metrics == metrics,
            r.current_blinking_index is None,
            r.state_changed == true,
            r.change_parent_state == false,
            r.version == 0,
            r.pending_char_event is None,
            r.self_clicked == false,
            r.scheduled_insert is None,
            r.scheduled_delete == false,
            widget_wf(Widget::Text(r)),
    {
        let mut t = TextWidget {
            box_dimensions: BoxDimensionsRelative { width, height, margin, padding },
            state_changed: false,
            change_parent_state: false,
            version: 0,
            text: Vec::new(),
            dummy: crate::widget_state::DummyUICharState { blinking: false, showing_cursor: false },
            pending_char_event: None,
            self_clicked: false,
            font_path,
            metrics,
            id: gen.next_id(TEXT_KIND),
            current_blinking_index: None,
            scheduled_insert: None,
            scheduled_delete: false,
        };
        t.set_text(initial_text);
        t
    }
}

impl CharCursor {
    /// The caret visual's node.
    pub fn to_ui_node() -> (r: RelNode)
        ensures
            cursor_node_ok(r),
    {
        UINode {
            box_dimensions: BoxDimensionsRelative {
                width: BoundedLength::fixed_dependent(
                    RelativeLength::RelativeParent(Fraction { num: 1, den: 20 }),
                ),
                height: BoundedLength::fixed_dependent(
                    RelativeLength::RelativeParent(Fraction { num: 1, den: 1 }),
                ),
                margin: RelativeEdges::zero(),
                padding: RelativeEdges::zero(),
            },
            children: StructuredChildren::NoChildren,
            meta: TextureMeta::Texture { path: CURSOR_TEXTURE_PATH.to_owned() },
            identifier: UIIdentifier::Component(
                ComponentIdentifier::Default { id: 0, name: "CharCursor".to_owned() },
            ),
            version: 0,
            target: NodeTarget::NoTarget,
        }
    }
}

impl TextWidget {
    /// The node of the character at `index`.
    fn char_node(&self, index: usize, path: &Vec<u32>) -> (r: RelNode)
        requires
            self.metrics.wf(),
            index < self.text@.len(),
        ensures
            char_node_ok(*self, index as int, r, path@),
    {
        let c = &self.text[index];
        let show = c.blinking && c.showing_cursor;
        let adv = self.metrics.advance(c.character);
        let lh = self.metrics.line_height();
        let children = if show {
            StructuredChildren::OneChild {
                h_alignment: HorizontalAlignment::Left,
                v_alignment: VerticalAlignment::Top,
                child: Box::new(CharCursor::to_ui_node()),
            }
        } else {
            StructuredChildren::NoChildren
        };
        UINode {
            box_dimensions: BoxDimensionsRelative {
                width: fixed_pixels_len(adv),
                height: fixed_pixels_len(lh),
                margin: glyph_margin(self.metrics.line_gap),
                padding: RelativeEdges::zero(),
            },
            children,
            meta: TextureMeta::Font {
                font_path: self.font_path.clone(),
                character: c.character,
            },
            identifier: UIIdentifier::Component(
                ComponentIdentifier::Char {
                    character: c.character,
                    font_path: self.font_path.clone(),
                    show_cursor: show,
                },
            ),
            version: 0,
            target: NodeTarget::TextChar { path: duplicate_path(path), index: index as u64 },
        }
    }

    /// The node of the end-of-text caret slot.
    fn dummy_node(&self, path: &Vec<u32>) -> (r: RelNode)
        requires
            self.metrics.wf(),
        ensures
            dummy_node_ok(*self, r, path@),
    {
        let show = self.dummy.blinking && self.dummy.showing_cursor;
        let lh = self.metrics.line_height();
        let children = if show {
            StructuredChildren::OneChild {
                h_alignment: HorizontalAlignment::Left,
                v_alignment: VerticalAlignment::Top,
                child: Box::new(CharCursor::to_ui_node()),
            }
        } else {
            StructuredChildren::NoChildren
        };
        UINode {
            box_dimensions: BoxDimensionsRelative {
                width: fixed_pixels_len(lh),
                height: fixed_pixels_len(lh),
                margin: glyph_margin(self.metrics.line_gap),
                padding: RelativeEdges::zero(),
            },
            children,
            meta: TextureMeta::Font { font_path: self.font_path.clone(), character: ' ' },
            identifier: UIIdentifier::Component(
                ComponentIdentifier::DummyChar { show_cursor: show },
            ),
            version: 0,
            target: NodeTarget::TextEnd { path: duplicate_path(path) },
        }
    }
}

impl Widget {
    /// Produce this widget's descriptor node for the current frame, its
    /// event target naming `path`, recursively for its children.
    #[verifier::loop_isolation(false)]
    pub fn to_ui_node(&self, path: &Vec<u32>) -> (r: RelNode)
        requires
            widget_wf(*self),
        ensures
            built(*self, r, path@),
        decreases *self,
    {
        match self {
            Widget::Button(b) => {
                let children = match &b.child {
                    None => StructuredChildren::NoChildren,
                    Some(c) => {
                        proof {
                            assert(decreases_to!(*self => **c));
                        }
                        let mut child_path = duplicate_path(path);
                        child_path.push(0u32);
                        let child_node = (&**c).to_ui_node(&child_path);
                        StructuredChildren::OneChild {
                            h_alignment: HorizontalAlignment::Center,
                            v_alignment: VerticalAlignment::Center,
                            child: Box::new(child_node),
                        }
                    },
                };
                let tex = if b.state.clicked {
                    BUTTON_PRESSED_TEXTURE_PATH
                } else if b.state.hovered {
                    BUTTON_HOVER_TEXTURE_PATH
                } else {
                    BUTTON_TEXTURE_PATH
                };
                UINode {
                    box_dimensions: b.box_dimensions,
                    children,
                    meta: TextureMeta::Texture { path: tex.to_owned() },
                    identifier: UIIdentifier::Component(
                        ComponentIdentifier::Default { id: b.id, name: "Button".to_owned() },
                    ),
                    version: b.state.version,
                    target: NodeTarget::Widget { path: duplicate_path(path) },
                }
            },
            Widget::Span(sp) => {
                let kids = &sp.children;
                let mut children: Vec<RelNode> = Vec::new();
                let mut i: usize = 0;
                while i < kids.len()
                    invariant
                        i <= kids@.len(),
                        children@.len() == i,
                        forall|j: int|
                            0 <= j < i ==> built(
                                #[trigger] kids@[j],
                                #[trigger] children@[j],
                                path@.push(j as u32),
                            ),
                    decreases kids@.len() - i,
                {
                    proof {
                        assert(decreases_to!(*self => *kids));
                        assert(decreases_to!(*kids => kids@[i as int]));
                    }
                    let mut child_path = duplicate_path(path);
                    child_path.push(i as u32);
                    proof {
                        assert(child_path@ =~= path@.push(i as u32));
                    }
                    let node = (&kids[i]).to_ui_node(&child_path);
                    children.push(node);
                    i = i + 1;
                }
                let structured = match sp.direction {
                    SpanDirection::Horizontal => StructuredChildren::HorizontalLayout {
                        h_alignment: sp.h_alignment,
                        v_alignment: sp.v_alignment,
                        uniform_division: sp.uniform_division,
                        children,
                    },
                    SpanDirection::Vertical => StructuredChildren::VerticalLayout {
                        h_alignment: sp.h_alignment,
                        v_alignment: sp.v_alignment,
                        uniform_division: sp.uniform_division,
                        children,
                    },
                };
                UINode {
                    box_dimensions: sp.box_dimensions,
                    children: structured,
                    meta: sp.texture.duplicate(),
                    identifier: UIIdentifier::Component(
                        ComponentIdentifier::Default { id: sp.id, name: "Span".to_owned() },
                    ),
                    version: sp.state.version,
                    target: NodeTarget::Widget { path: duplicate_path(path) },
                }
            },
            Widget::Text(t) => {
                let n = t.text.len();
                let mut children: Vec<RelNode> = Vec::new();
                let mut i: usize = 0;
                while i < n
                    invariant
                        n == t.text@.len(),
                        i <= n,
                        children@.len() == i,
                        forall|j: int|
                            0 <= j < i ==> char_node_ok(*t, j, #[trigger] children@[j], path@),
                    decreases n - i,
                {
                    children.push(t.char_node(i, path));
                    i = i + 1;
                }
                children.push(t.dummy_node(path));
                UINode {
                    box_dimensions: t.box_dimensions,
                    children: StructuredChildren::HorizontalLayout {
                        h_alignment: HorizontalAlignment::Left,
                        v_alignment: VerticalAlignment::Top,
                        uniform_division: false,
                        children,
                    },
                    meta: TextureMeta::Texture { path: TEXT_TEXTURE_PATH.to_owned() },
                    identifier: UIIdentifier::Component(
                        ComponentIdentifier::Default { id: t.id, name: "Text".to_owned() },
                    ),
                    version: t.version,
                    target: NodeTarget::Widget { path: duplicate_path(path) },
                }
            },
        }
    }
}

} // verus!
