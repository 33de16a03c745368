use ui_core::compose::{CompositeCache, RenderAction};
use ui_core::dimensions::RelativeEdges;
use ui_core::event::UINodeEventRaw;
use ui_core::identity::{ComponentIdentifier, UIIdentifier, UIIdentifierGenerator};
use ui_core::instruction::UIRenderInstruction;
use ui_core::length::BoundedLength;
use ui_core::widget_build::{ButtonWidget, Widget};
use ui_core::widget_state::FontMetrics;

fn quiet_raw() -> UINodeEventRaw {
    // the pointer far away, so nothing hovers
    UINodeEventRaw {
        mouse_x: 100000,
        mouse_y: 100000,
        mouse_left: false,
        mouse_left_down: false,
        mouse_left_up: false,
        mouse_right: false,
        mouse_right_down: false,
        mouse_right_up: false,
        key_down: None,
        cursor_blink: false,
        pressed_str: None,
    }
}

fn instructions_equal(a: &UIRenderInstruction, b: &UIRenderInstruction) -> bool {
    a.version == b.version
        && a.id == b.id
        && a.texture_width == b.texture_width
        && a.texture_height == b.texture_height
        && a.location_left == b.location_left
        && a.location_top == b.location_top
        && a.location_right == b.location_right
        && a.location_bottom == b.location_bottom
        && a.texture_meta == b.texture_meta
        && a.sub_instructions.len() == b.sub_instructions.len()
        && a
            .sub_instructions
            .iter()
            .zip(b.sub_instructions.iter())
            .all(|(x, y)| instructions_equal(x, y))
}

fn render_action_count(acts: &Vec<RenderAction>) -> (usize, usize, usize) {
    let mut creates = 0;
    let mut draws = 0;
    let mut pastes = 0;
    for a in acts.iter() {
        match a {
            RenderAction::CreateTarget { .. } => creates += 1,
            RenderAction::DrawVisual { .. } => draws += 1,
            RenderAction::Paste { .. } => pastes += 1,
        }
    }
    (creates, draws, pastes)
}

fn lone_button() -> Widget {
    let mut gen = UIIdentifierGenerator::new();
    Widget::Button(ButtonWidget::new(
        BoundedLength::fixed_pixels(200),
        BoundedLength::fixed_pixels(100),
        RelativeEdges::zero(),
        RelativeEdges::zero(),
        &mut gen,
    ))
}

#[test]
fn unchanged_node_emits_identical_instruction_and_no_rerender() {
    let mut w = lone_button();
    let mut gen = UIIdentifierGenerator::new();
    let raw = quiet_raw();

    let out1 = w
        .update_and_to_instruction(&mut gen, 800, 600, &raw)
        .expect("resolvable");
    let out2 = w
        .update_and_to_instruction(&mut gen, 800, 600, &raw)
        .expect("resolvable");
    // identity and version unchanged across the two frames: the emitted
    // instruction is byte-identical
    assert!(instructions_equal(&out1.instruction, &out2.instruction));

    let mut cache = CompositeCache::new();
    let mut next_handle: u64 = 1;
    let (acts1, tex1) = out1.instruction.composite(&mut cache, &mut next_handle);
    let (creates, draws, _) = render_action_count(&acts1);
    assert_eq!(creates, 1);
    assert_eq!(draws, 1);

    // second frame: the compositor performs zero re-render actions for the
    // unchanged node
    let (acts2, tex2) = out2.instruction.composite(&mut cache, &mut next_handle);
    assert_eq!(acts2.len(), 0);
    assert_eq!(tex1, tex2);
}

#[test]
fn changed_version_forces_rerender() {
    let mut w = lone_button();
    let mut gen = UIIdentifierGenerator::new();

    let out1 = w
        .update_and_to_instruction(&mut gen, 800, 600, &quiet_raw())
        .expect("resolvable");
    let mut cache = CompositeCache::new();
    let mut next_handle: u64 = 1;
    let (acts1, _) = out1.instruction.composite(&mut cache, &mut next_handle);
    assert!(acts1.len() > 0);

    // hover the button: its state changes, its version advances
    let mut raw = quiet_raw();
    raw.mouse_x = 10;
    raw.mouse_y = 10;
    let out2 = w
        .update_and_to_instruction(&mut gen, 800, 600, &raw)
        .expect("resolvable");
    assert_eq!(out2.instruction.version, out1.instruction.version + 1);
    assert!(!instructions_equal(&out1.instruction, &out2.instruction));
    let (acts2, _) = out2.instruction.composite(&mut cache, &mut next_handle);
    let (creates, draws, _) = render_action_count(&acts2);
    assert_eq!(creates, 1);
    assert_eq!(draws, 1);
}

#[test]
fn composite_allocates_nonzero_targets() {
    let instr = UIRenderInstruction {
        version: 0,
        id: UIIdentifier::Cell { id: 9 },
        texture_width: 0,
        texture_height: 0,
        location_left: ui_core::length::Fraction { num: 0, den: 1 },
        location_top: ui_core::length::Fraction { num: 0, den: 1 },
        location_right: ui_core::length::Fraction { num: 1, den: 1 },
        location_bottom: ui_core::length::Fraction { num: 1, den: 1 },
        sub_instructions: Vec::new(),
        texture_meta: ui_core::visual::TextureMeta::Texture { path: String::from("x") },
    };
    let mut cache = CompositeCache::new();
    let mut next: u64 = 1;
    let (acts, tex) = instr.composite(&mut cache, &mut next);
    match &acts[0] {
        RenderAction::CreateTarget { handle, width, height } => {
            assert_eq!(*handle, tex);
            assert_eq!(*width, 1); // degenerate zero size clamps to one
            assert_eq!(*height, 1);
        },
        _ => panic!("first action allocates the target"),
    }
    assert_eq!(cache.get(&UIIdentifier::Cell { id: 9 }, 0), Some(tex));
    assert_eq!(cache.get(&UIIdentifier::Cell { id: 9 }, 1), None);
}

#[test]
fn typing_advances_versions_of_affected_nodes_only() {
    // a text widget with the caret at the end; typing one character leaves
    // the untouched character nodes' identities and versions unchanged and
    // moves the caret to the new end slot
    let mut gen = UIIdentifierGenerator::new();
    let metrics = FontMetrics {
        ascent: 8,
        descent: -2,
        line_gap: 2,
        advances: vec![('a', 5), ('b', 6), ('c', 7)],
        default_advance: 4,
    };
    let mut text = ui_core::widget_state::TextWidget::new(
        "ab",
        String::from("assets/consolas.ttf"),
        metrics,
        BoundedLength::fixed_pixels(300),
        BoundedLength::fixed_pixels(50),
        RelativeEdges::zero(),
        RelativeEdges::zero(),
        &mut gen,
    );
    text.stop_blinking_all();
    text.start_blinking_one(2);
    let mut w = Widget::Text(text);

    let out1 = w
        .update_and_to_instruction(&mut gen, 800, 600, &quiet_raw())
        .expect("resolvable");

    let mut raw = quiet_raw();
    raw.pressed_str = Some(String::from("c"));
    let out2 = w
        .update_and_to_instruction(&mut gen, 800, 600, &raw)
        .expect("resolvable");

    // the text run's own version advanced
    assert_eq!(out2.instruction.version, out1.instruction.version + 1);

    // char content nodes sit inside the cells of the text node
    let glyph_ids = |out: &ui_core::frame::FrameOutput| -> Vec<(UIIdentifier, u64)> {
        out.unified
            .children
            .children
            .iter()
            .map(|cell| {
                let content = &cell.children.children[0];
                (content.identifier.duplicate(), content.version)
            })
            .collect()
    };
    let ids1 = glyph_ids(&out1);
    let ids2 = glyph_ids(&out2);
    assert_eq!(ids1.len(), 3); // 'a', 'b', end slot
    assert_eq!(ids2.len(), 4); // 'a', 'b', 'c', end slot

    // the untouched character nodes are identical in identity and version
    assert_eq!(ids1[0], ids2[0]);
    assert_eq!(ids1[1], ids2[1]);
    assert_eq!(ids1[0].1, 0);
    // the new character carries the caret? no: the caret sits at the end
    match &ids2[2].0 {
        UIIdentifier::Component(ComponentIdentifier::Char { character, show_cursor, .. }) => {
            assert_eq!(*character, 'c');
            assert!(!*show_cursor);
        },
        _ => panic!("third glyph"),
    }
    match &ids2[3].0 {
        UIIdentifier::Component(ComponentIdentifier::DummyChar { show_cursor }) => {
            assert!(*show_cursor);
        },
        _ => panic!("end slot"),
    }
}

#[test]
fn node_dump_lists_geometry() {
    let mut w = lone_button();
    let mut gen = UIIdentifierGenerator::new();
    let out = w
        .update_and_to_instruction(&mut gen, 800, 600, &quiet_raw())
        .expect("resolvable");
    let dump = out.unified.to_string(0);
    assert!(dump.starts_with("ID: Button%0, Version: 0, w: 200, h: 100"));
}

#[test]
fn unresolvable_declarations_yield_no_frame() {
    let mut gen = UIIdentifierGenerator::new();
    let bad = ui_core::length::BoundedLength {
        preferred_length: ui_core::length::RelativeLength::Pixels(50),
        min_length: Some(ui_core::length::RelativeLength::Pixels(200)),
        max_length: Some(ui_core::length::RelativeLength::Pixels(100)),
    };
    let mut w = Widget::Button(ButtonWidget::new(
        bad,
        ui_core::length::BoundedLength::fixed_pixels(100),
        RelativeEdges::zero(),
        RelativeEdges::zero(),
        &mut gen,
    ));
    let out = w.update_and_to_instruction(&mut gen, 800, 600, &quiet_raw());
    assert!(out.is_none());
}

#[test]
fn click_fires_button_and_changes_texture() {
    let mut w = lone_button();
    let mut gen = UIIdentifierGenerator::new();
    let mut click = quiet_raw();
    click.mouse_x = 10;
    click.mouse_y = 10;
    click.mouse_left = true;
    click.mouse_left_down = true;
    let out = w
        .update_and_to_instruction(&mut gen, 800, 600, &click)
        .expect("resolvable");
    // pressed: the button's own texture switches to the pressed visual
    match &out.instruction.texture_meta {
        ui_core::visual::TextureMeta::Texture { path } => {
            assert_eq!(path, "assets/button3.jpg")
        },
        _ => panic!("button visual"),
    }
    match &w {
        Widget::Button(b) => {
            assert!(b.state.clicked);
            assert!(b.state.hovered);
            assert_eq!(b.state.version, 1);
        },
        _ => panic!("widget kind"),
    }
}

#[test]
fn click_paths_are_reported() {
    let mut w = lone_button();
    let mut gen = UIIdentifierGenerator::new();
    let mut click = quiet_raw();
    click.mouse_x = 10;
    click.mouse_y = 10;
    click.mouse_left = true;
    click.mouse_left_down = true;
    let out = w
        .update_and_to_instruction(&mut gen, 800, 600, &click)
        .expect("resolvable");
    // the root button's click callback must fire: its (empty) path is
    // reported exactly once
    assert_eq!(out.clicks.len(), 1);
    assert_eq!(out.clicks[0], Vec::<u32>::new());

    // a frame without a press fires nothing
    let out2 = w
        .update_and_to_instruction(&mut gen, 800, 600, &quiet_raw())
        .expect("resolvable");
    assert_eq!(out2.clicks.len(), 0);
}

#[test]
fn overrun_padding_is_flagged() {
    let d = ui_core::dimensions::BoxDimensionsWithGlobal {
        width: 10,
        height: 10,
        rel_pos_x: 0,
        rel_pos_y: 0,
        global_pos_x: 0,
        global_pos_y: 0,
        margin: ui_core::dimensions::AbsoluteEdges { top: 0, right: 0, bottom: 0, left: 0 },
        padding: ui_core::dimensions::AbsoluteEdges { top: 0, right: 8, bottom: 0, left: 8 },
    };
    assert!(d.clips_content());
    let ok = ui_core::dimensions::BoxDimensionsWithGlobal { padding: ui_core::dimensions::AbsoluteEdges { top: 5, right: 5, bottom: 5, left: 5 }, ..d };
    assert!(!ok.clips_content());
}
