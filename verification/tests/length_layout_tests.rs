use ui_core::dimensions::{AbsoluteEdges, BoxDimensionsAbsolute, BoxDimensionsRelative, RelativeEdges};
use ui_core::flatten::{
    get_cell_lengths_and_positions_normal_dir, get_cell_lengths_and_positions_tangent_dir,
};
use ui_core::identity::UIIdentifierGenerator;
use ui_core::length::{BoundedLength, Fraction, RelativeLength};
use ui_core::node::{
    AxisAlignment, HorizontalAlignment, NodeTarget, StructuredChildren, UINode, VerticalAlignment,
};
use ui_core::layout::RelNode;
use ui_core::visual::TextureMeta;
use ui_core::identity::{ComponentIdentifier, UIIdentifier};

fn fixed_box(w: u32, h: u32) -> BoxDimensionsRelative {
    BoxDimensionsRelative {
        width: BoundedLength::fixed_pixels(w),
        height: BoundedLength::fixed_pixels(h),
        margin: RelativeEdges::zero(),
        padding: RelativeEdges::zero(),
    }
}

fn leaf(w: u32, h: u32, id: u64) -> RelNode {
    UINode {
        box_dimensions: fixed_box(w, h),
        children: StructuredChildren::NoChildren,
        meta: TextureMeta::Texture { path: String::from("assets/button.jpg") },
        identifier: UIIdentifier::Component(ComponentIdentifier::Default {
            id,
            name: String::from("Leaf"),
        }),
        version: 0,
        target: NodeTarget::NoTarget,
    }
}

#[test]
fn resolve_is_pure_and_in_range() {
    let b = BoundedLength {
        preferred_length: RelativeLength::RelativeScreenWidth(Fraction::new(9, 10)),
        min_length: Some(RelativeLength::Pixels(100)),
        max_length: Some(RelativeLength::Pixels(500)),
    };
    let r1 = b.resolve(800, 1000, 600);
    let r2 = b.resolve(800, 1000, 600);
    assert_eq!(r1, r2);
    assert_eq!(r1, 500); // 900 clamped to the 500 maximum
    assert!(r1 >= 100 && r1 <= 500);
}

#[test]
fn resolve_fraction_truncates() {
    let l = RelativeLength::RelativeParent(Fraction::new(1, 3));
    assert_eq!(l.resolve(100, 0, 0), 33);
    let l2 = RelativeLength::RelativeScreenHeight(Fraction::new(1, 2));
    assert_eq!(l2.resolve(0, 0, 601), 300);
}

#[test]
fn bounds_violation_is_refused() {
    let b = BoundedLength {
        preferred_length: RelativeLength::Pixels(50),
        min_length: Some(RelativeLength::Pixels(200)),
        max_length: Some(RelativeLength::Pixels(100)),
    };
    assert!(!b.bounds_sound(0, 0, 0));
    let node = UINode {
        box_dimensions: BoxDimensionsRelative {
            width: b,
            height: BoundedLength::fixed_pixels(10),
            margin: RelativeEdges::zero(),
            padding: RelativeEdges::zero(),
        },
        children: StructuredChildren::NoChildren,
        meta: TextureMeta::Texture { path: String::from("x") },
        identifier: UIIdentifier::Cell { id: 0 },
        version: 0,
        target: NodeTarget::NoTarget,
    };
    assert!(!node.check_resolvable(800, 600, 800, 600));
}

#[test]
fn grid_layout_is_refused() {
    let node = UINode {
        box_dimensions: fixed_box(10, 10),
        children: StructuredChildren::GridLayout {
            h_alignment: HorizontalAlignment::Left,
            v_alignment: VerticalAlignment::Top,
            uniform_division: false,
            children: Vec::new(),
        },
        meta: TextureMeta::Texture { path: String::from("x") },
        identifier: UIIdentifier::Cell { id: 0 },
        version: 0,
        target: NodeTarget::NoTarget,
    };
    assert!(!node.check_resolvable(800, 600, 800, 600));
}

#[test]
fn inner_width_clamps_to_zero() {
    let d = BoxDimensionsAbsolute {
        width: 10,
        height: 10,
        margin: AbsoluteEdges { top: 0, right: 0, bottom: 0, left: 0 },
        padding: AbsoluteEdges { top: 0, right: 8, bottom: 0, left: 8 },
    };
    assert_eq!(d.inner_width(), 0);
    assert_eq!(d.inner_height(), 10);
    assert_eq!(d.inner_pos_x(), 8);
    assert_eq!(d.inner_pos_y(), 0);
}

#[test]
fn margin_box_lengths() {
    let d = BoxDimensionsAbsolute {
        width: 100,
        height: 40,
        margin: AbsoluteEdges { top: 1, right: 2, bottom: 3, left: 4 },
        padding: AbsoluteEdges { top: 0, right: 0, bottom: 0, left: 0 },
    };
    assert_eq!(d.width_with_margin(), 106);
    assert_eq!(d.height_with_margin(), 44);
}

#[test]
fn uniform_division_cells() {
    let lens: Vec<u32> = vec![1, 2, 3];
    let cells =
        get_cell_lengths_and_positions_tangent_dir(10, &lens, 5, true, AxisAlignment::Start);
    // each cell gets 10 / 3 = 3; the remainder is dropped
    assert_eq!(cells, vec![(3, 5), (3, 8), (3, 11)]);
    let sum: u32 = cells.iter().map(|c| c.0).sum();
    assert_eq!(sum, 10 - 10 % 3);
}

#[test]
fn packing_center_offset_is_half_difference() {
    let lens: Vec<u32> = vec![100, 100];
    let cells =
        get_cell_lengths_and_positions_tangent_dir(300, &lens, 0, false, AxisAlignment::Center);
    assert_eq!(cells, vec![(100, 50), (100, 150)]);
    let end =
        get_cell_lengths_and_positions_tangent_dir(300, &lens, 0, false, AxisAlignment::End);
    assert_eq!(end, vec![(100, 100), (100, 200)]);
    let start =
        get_cell_lengths_and_positions_tangent_dir(300, &lens, 0, false, AxisAlignment::Start);
    assert_eq!(start, vec![(100, 0), (100, 100)]);
}

#[test]
fn cross_axis_cells_take_full_length() {
    let lens: Vec<u32> = vec![10, 40, 99];
    let cells = get_cell_lengths_and_positions_normal_dir(40, &lens, 2, AxisAlignment::Center);
    // every cell spans the full cross-axis content length
    assert_eq!(cells[0], (40, 2 + 15));
    assert_eq!(cells[1], (40, 2));
    assert_eq!(cells[2], (40, 2));
}

#[test]
fn horizontal_container_scenario() {
    // a horizontal container of content width 300 holding two children of
    // margin-box width 100 each, centered: leading offset 50, children at
    // x = 50 and x = 150
    let child_a = leaf(100, 20, 1);
    let child_b = leaf(100, 20, 2);
    let root = UINode {
        box_dimensions: fixed_box(300, 50),
        children: StructuredChildren::HorizontalLayout {
            h_alignment: HorizontalAlignment::Center,
            v_alignment: VerticalAlignment::Top,
            uniform_division: false,
            children: vec![child_a, child_b],
        },
        meta: TextureMeta::Texture { path: String::from("assets/button.jpg") },
        identifier: UIIdentifier::Component(ComponentIdentifier::Default {
            id: 0,
            name: String::from("Root"),
        }),
        version: 0,
        target: NodeTarget::NoTarget,
    };
    assert!(root.check_resolvable(300, 50, 800, 600));
    let abs = root.calculate_dimensions(300, 50, 800, 600);
    let mut gen = UIIdentifierGenerator::new();
    let flat = abs.flatten_children(
        0,
        0,
        300,
        50,
        HorizontalAlignment::Left,
        VerticalAlignment::Top,
        &mut gen,
    );
    let unified = flat.to_unified();
    assert_eq!(unified.children.children.len(), 2);
    let cell0 = &unified.children.children[0];
    let cell1 = &unified.children.children[1];
    assert_eq!(cell0.box_dimensions.rel_pos_x, 50);
    assert_eq!(cell0.box_dimensions.width, 100);
    assert_eq!(cell1.box_dimensions.rel_pos_x, 150);
    assert_eq!(cell1.box_dimensions.global_pos_x, 150);
    // cross axis: the cells span the container's full content height
    assert_eq!(cell0.box_dimensions.height, 50);
    assert_eq!(cell1.box_dimensions.height, 50);
}

#[test]
fn identity_to_string_forms() {
    let a = UIIdentifier::Component(ComponentIdentifier::Default {
        id: 42,
        name: String::from("Button"),
    });
    assert_eq!(a.to_string(), "Button%42");
    let b = UIIdentifier::Cell { id: 7 };
    assert_eq!(b.to_string(), "Cell%7");
    let c = UIIdentifier::Component(ComponentIdentifier::Char {
        character: 'x',
        font_path: String::from("f"),
        show_cursor: true,
    });
    assert_eq!(c.to_string(), "Char%x*");
    let d = UIIdentifier::Component(ComponentIdentifier::DummyChar { show_cursor: false });
    assert_eq!(d.to_string(), "End%");
}

#[test]
fn decimal_rendering() {
    assert_eq!(ui_core::identity::decimal_string(0), "0");
    assert_eq!(ui_core::identity::decimal_string(12034), "12034");
    assert_eq!(ui_core::identity::decimal_string(u64::MAX), "18446744073709551615");
}

#[test]
fn generator_hands_out_serials_per_kind() {
    let mut gen = UIIdentifierGenerator::new();
    assert_eq!(gen.next_id(3), 0);
    assert_eq!(gen.next_id(3), 1);
    assert_eq!(gen.next_id(5), 0);
    assert_eq!(gen.next_id(3), 2);
}

#[test]
fn vertical_layout_positions() {
    let child_a = leaf(40, 30, 1);
    let child_b = leaf(40, 30, 2);
    let root = UINode {
        box_dimensions: fixed_box(100, 100),
        children: StructuredChildren::VerticalLayout {
            h_alignment: HorizontalAlignment::Left,
            v_alignment: VerticalAlignment::Bottom,
            uniform_division: false,
            children: vec![child_a, child_b],
        },
        meta: TextureMeta::Texture { path: String::from("x") },
        identifier: UIIdentifier::Cell { id: 0 },
        version: 0,
        target: NodeTarget::NoTarget,
    };
    let abs = root.calculate_dimensions(100, 100, 800, 600);
    let mut gen = UIIdentifierGenerator::new();
    let flat = abs.flatten_children(
        0,
        0,
        100,
        100,
        HorizontalAlignment::Left,
        VerticalAlignment::Top,
        &mut gen,
    );
    let unified = flat.to_unified();
    // bottom alignment: the whole 40 leftover leads the packed children
    let cell0 = &unified.children.children[0];
    let cell1 = &unified.children.children[1];
    assert_eq!(cell0.box_dimensions.rel_pos_y, 40);
    assert_eq!(cell1.box_dimensions.rel_pos_y, 70);
    // cross axis: full content width
    assert_eq!(cell0.box_dimensions.width, 100);
}

#[test]
fn uniform_division_tree() {
    let kids: Vec<RelNode> = vec![leaf(10, 10, 1), leaf(20, 10, 2), leaf(30, 10, 3)];
    let root = UINode {
        box_dimensions: fixed_box(100, 40),
        children: StructuredChildren::HorizontalLayout {
            h_alignment: HorizontalAlignment::Left,
            v_alignment: VerticalAlignment::Top,
            uniform_division: true,
            children: kids,
        },
        meta: TextureMeta::Texture { path: String::from("x") },
        identifier: UIIdentifier::Cell { id: 0 },
        version: 0,
        target: NodeTarget::NoTarget,
    };
    let abs = root.calculate_dimensions(100, 40, 800, 600);
    let mut gen = UIIdentifierGenerator::new();
    let flat = abs.flatten_children(
        0,
        0,
        100,
        40,
        HorizontalAlignment::Left,
        VerticalAlignment::Top,
        &mut gen,
    );
    let unified = flat.to_unified();
    // every cell gets 100 / 3 = 33 whatever the child's own width
    for (i, cell) in unified.children.children.iter().enumerate() {
        assert_eq!(cell.box_dimensions.width, 33);
        assert_eq!(cell.box_dimensions.rel_pos_x, 33 * i as u32);
    }
}
