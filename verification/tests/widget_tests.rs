use ui_core::dimensions::RelativeEdges;
use ui_core::event::{UIKey, UINodeEventProcessed, UINodeEventRaw};
use ui_core::identity::{ComponentIdentifier, UIIdentifier, UIIdentifierGenerator};
use ui_core::length::BoundedLength;
use ui_core::widget_build::{ButtonWidget, SpanDirection, SpanWidget, Widget};
use ui_core::widget_state::TextWidget;
use ui_core::widget_state::{commit_version, ButtonState, CharEvent, FontMetrics};
use ui_core::visual::TextureMeta;

fn metrics() -> FontMetrics {
    FontMetrics {
        ascent: 8,
        descent: -2,
        line_gap: 2,
        advances: vec![('a', 5), ('b', 6), ('c', 7)],
        default_advance: 4,
    }
}

fn quiet_event() -> UINodeEventProcessed {
    UINodeEventProcessed {
        mouse_hover: false,
        left_clicked_inside: false,
        left_clicked_left_half: false,
        left_clicked_right_half: false,
        left_released: false,
        lose_focus: false,
        cursor_blink: false,
        key_down: None,
        pressed_str: None,
    }
}

fn text_widget(initial: &str) -> TextWidget {
    let mut gen = UIIdentifierGenerator::new();
    TextWidget::new(
        initial,
        String::from("assets/consolas.ttf"),
        metrics(),
        BoundedLength::fixed_pixels(300),
        BoundedLength::fixed_pixels(50),
        RelativeEdges::zero(),
        RelativeEdges::zero(),
        &mut gen,
    )
}

fn chars(t: &TextWidget) -> String {
    t.text.iter().map(|c| c.character).collect()
}

#[test]
fn version_advances_exactly_on_change() {
    assert_eq!(commit_version(true, 5), (false, 6));
    assert_eq!(commit_version(false, 5), (false, 5));
    assert_eq!(commit_version(true, u64::MAX), (false, u64::MAX));
}

#[test]
fn button_press_and_release() {
    let mut s = ButtonState { hovered: false, clicked: false, state_changed: false, version: 0 };
    let mut ev = quiet_event();
    ev.left_clicked_inside = true;
    ev.mouse_hover = true;
    let (fire, bubble) = s.handle_event(&ev);
    assert!(fire);
    assert!(bubble);
    assert!(s.clicked && s.hovered && s.state_changed);

    let (c, v) = commit_version(s.state_changed, s.version);
    s.state_changed = c;
    s.version = v;
    assert_eq!(s.version, 1);

    let mut ev2 = quiet_event();
    ev2.left_released = true;
    let (fire2, bubble2) = s.handle_event(&ev2);
    assert!(!fire2);
    assert!(bubble2); // released and no longer hovered
    assert!(!s.clicked && !s.hovered);

    // an uneventful frame changes nothing
    let before = (s.clicked, s.hovered, s.state_changed);
    let s2 = s.handle_event(&quiet_event());
    assert!(!s2.1);
    assert_eq!(before.0, s.clicked);
    assert_eq!(before.1, s.hovered);
}

#[test]
fn insert_at_caret_end() {
    let mut t = text_widget("ab");
    t.stop_blinking_all();
    t.start_blinking_one(2);
    t.insert_string("c");
    assert_eq!(chars(&t), "abc");
    assert_eq!(t.current_blinking_index, Some(3));
    assert!(t.dummy.blinking && t.dummy.showing_cursor);
    assert!(t.state_changed);
}

#[test]
fn insert_in_middle_moves_caret_past_insertion() {
    let mut t = text_widget("ad");
    t.stop_blinking_all();
    t.start_blinking_one(1);
    t.insert_string("bc");
    assert_eq!(chars(&t), "abcd");
    assert_eq!(t.current_blinking_index, Some(3));
    assert!(t.text[3].blinking && t.text[3].showing_cursor);
    assert!(!t.dummy.blinking);
}

#[test]
fn insert_filters_unprintable() {
    let mut t = text_widget("x");
    t.stop_blinking_all();
    t.start_blinking_one(1);
    t.insert_string("a\u{7}b c\n");
    assert_eq!(chars(&t), "xab c");
    assert_eq!(t.current_blinking_index, Some(5));
}

#[test]
fn insert_without_caret_is_ignored() {
    let mut t = text_widget("ab");
    t.insert_string("zz");
    assert_eq!(chars(&t), "ab");
    assert_eq!(t.current_blinking_index, None);
}

#[test]
fn delete_before_caret() {
    let mut t = text_widget("abc");
    t.stop_blinking_all();
    t.start_blinking_one(2);
    t.delete_char();
    assert_eq!(chars(&t), "ac");
    assert_eq!(t.current_blinking_index, Some(1));
    assert!(t.text[1].blinking && t.text[1].showing_cursor);
}

#[test]
fn delete_at_start_is_ignored() {
    let mut t = text_widget("abc");
    t.stop_blinking_all();
    t.start_blinking_one(0);
    t.delete_char();
    assert_eq!(chars(&t), "abc");
    assert_eq!(t.current_blinking_index, Some(0));
}

#[test]
fn text_event_schedules_and_apply_runs_it() {
    let mut t = text_widget("ab");
    t.stop_blinking_all();
    t.start_blinking_one(2);
    let mut ev = quiet_event();
    ev.pressed_str = Some(String::from("c"));
    let bubble = t.handle_event(&ev);
    assert!(bubble);
    assert!(t.state_changed);
    t.apply_pending();
    assert_eq!(chars(&t), "abc");
    assert_eq!(t.current_blinking_index, Some(3));
    assert!(t.scheduled_insert.is_none());
}

#[test]
fn backspace_schedules_delete() {
    let mut t = text_widget("ab");
    t.stop_blinking_all();
    t.start_blinking_one(2);
    let mut ev = quiet_event();
    ev.key_down = Some(UIKey::Backspace);
    assert!(t.handle_event(&ev));
    t.apply_pending();
    assert_eq!(chars(&t), "a");
    assert_eq!(t.current_blinking_index, Some(1));
}

#[test]
fn char_click_moves_caret() {
    let mut t = text_widget("ab");
    t.stop_blinking_all();
    let mut ev = quiet_event();
    ev.left_clicked_right_half = true;
    let bubble = t.handle_char_event(0, &ev);
    assert!(bubble);
    assert_eq!(t.pending_char_event, Some((0, CharEvent::RightPartClicked)));
    t.apply_pending();
    // right half of character 0: the caret goes after it
    assert_eq!(t.current_blinking_index, Some(1));
    assert!(t.text[1].blinking && t.text[1].showing_cursor);
    assert!(!t.text[0].blinking);
}

#[test]
fn blink_tick_toggles_caret_visual() {
    let mut t = text_widget("a");
    t.stop_blinking_all();
    t.start_blinking_one(1); // caret on the end-of-text slot
    let mut ev = quiet_event();
    ev.cursor_blink = true;
    assert!(t.dummy.showing_cursor);
    let bubble = t.handle_end_event(&ev);
    assert!(bubble);
    assert!(!t.dummy.showing_cursor);
    let bubble2 = t.handle_end_event(&ev);
    assert!(bubble2);
    assert!(t.dummy.showing_cursor);
}

#[test]
fn lose_focus_stops_blinking() {
    let mut t = text_widget("ab");
    t.stop_blinking_all();
    t.start_blinking_one(1);
    let mut ev = quiet_event();
    ev.lose_focus = true;
    assert!(t.handle_event(&ev));
    assert_eq!(t.current_blinking_index, None);
    assert!(!t.text[1].blinking);
    assert!(!t.dummy.blinking);
}

#[test]
fn set_text_resets_caret_and_marks_changed() {
    let mut t = text_widget("ab");
    t.stop_blinking_all();
    t.start_blinking_one(1);
    t.set_text("xyz");
    assert_eq!(chars(&t), "xyz");
    assert_eq!(t.current_blinking_index, None);
    assert!(t.state_changed);
}

#[test]
fn built_text_node_names_characters() {
    let mut gen = UIIdentifierGenerator::new();
    let t = text_widget("ab");
    let mut w = Widget::Text(t);
    w.commit_frame();
    let node = w.to_ui_node(&Vec::new());
    // built from committed state: version advanced once for the fresh text
    assert_eq!(node.version, 1);
    match &node.identifier {
        UIIdentifier::Component(ComponentIdentifier::Default { name, .. }) => {
            assert_eq!(name, "Text")
        },
        _ => panic!("text node identity"),
    }
    let _ = &mut gen;
}

#[test]
fn span_builds_children_in_order() {
    let mut gen = UIIdentifierGenerator::new();
    let mut span = SpanWidget::new(
        SpanDirection::Horizontal,
        BoundedLength::fixed_pixels(300),
        BoundedLength::fixed_pixels(100),
        RelativeEdges::zero(),
        RelativeEdges::zero(),
        ui_core::node::HorizontalAlignment::Left,
        ui_core::node::VerticalAlignment::Top,
        false,
        TextureMeta::Texture { path: String::from("assets/genshin.jpg") },
        &mut gen,
    );
    let b1 = ButtonWidget::new(
        BoundedLength::fixed_pixels(100),
        BoundedLength::fixed_pixels(50),
        RelativeEdges::zero(),
        RelativeEdges::zero(),
        &mut gen,
    );
    let b2 = ButtonWidget::new(
        BoundedLength::fixed_pixels(80),
        BoundedLength::fixed_pixels(50),
        RelativeEdges::zero(),
        RelativeEdges::zero(),
        &mut gen,
    );
    span.push_child(Widget::Button(b1));
    span.push_child(Widget::Button(b2));
    let w = Widget::Span(span);
    let node = w.to_ui_node(&Vec::new());
    match &node.children {
        ui_core::node::StructuredChildren::HorizontalLayout { children, .. } => {
            assert_eq!(children.len(), 2);
            match &children[0].target {
                ui_core::node::NodeTarget::Widget { path } => assert_eq!(path, &vec![0u32]),
                _ => panic!("child target"),
            }
        },
        _ => panic!("span children"),
    }
    let raw = UINodeEventRaw {
        mouse_x: 0,
        mouse_y: 0,
        mouse_left: false,
        mouse_left_down: false,
        mouse_left_up: false,
        mouse_right: false,
        mouse_right_down: false,
        mouse_right_up: false,
        key_down: None,
        cursor_blink: false,
        pressed_str: None,
    };
    let facts = raw.process(&ui_core::dimensions::BoxDimensionsWithGlobal {
        width: 10,
        height: 10,
        rel_pos_x: 0,
        rel_pos_y: 0,
        global_pos_x: 0,
        global_pos_y: 0,
        margin: ui_core::dimensions::AbsoluteEdges { top: 0, right: 0, bottom: 0, left: 0 },
        padding: ui_core::dimensions::AbsoluteEdges { top: 0, right: 0, bottom: 0, left: 0 },
    });
    assert!(facts.mouse_hover);
    assert!(!facts.left_clicked_inside);
}

#[test]
fn hit_test_halves() {
    let raw = UINodeEventRaw {
        mouse_x: 24,
        mouse_y: 5,
        mouse_left: true,
        mouse_left_down: true,
        mouse_left_up: false,
        mouse_right: false,
        mouse_right_down: false,
        mouse_right_up: false,
        key_down: None,
        cursor_blink: false,
        pressed_str: None,
    };
    let rect = ui_core::dimensions::BoxDimensionsWithGlobal {
        width: 10,
        height: 10,
        rel_pos_x: 0,
        rel_pos_y: 0,
        global_pos_x: 20,
        global_pos_y: 0,
        margin: ui_core::dimensions::AbsoluteEdges { top: 0, right: 0, bottom: 0, left: 0 },
        padding: ui_core::dimensions::AbsoluteEdges { top: 0, right: 0, bottom: 0, left: 0 },
    };
    let p = raw.process(&rect);
    assert!(p.left_clicked_inside);
    assert!(p.left_clicked_left_half); // 24 - 20 < 10 / 2
    assert!(!p.left_clicked_right_half);
    assert!(!p.lose_focus);
    let far = UINodeEventRaw { mouse_x: 100, ..raw };
    let q = far.process(&rect);
    assert!(!q.left_clicked_inside);
    assert!(q.lose_focus);
}
