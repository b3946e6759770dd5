use clay_core::{Clay, TypedConfig};
use clay_core::commands::{RenderCommandType, RenderData};
use clay_core::elements::{
    BorderConfig, Color, CustomConfig, ElementConfig, FloatingConfig, ImageConfig, ScrollConfig,
    TextConfig,
};
use clay_core::layout::{Layout, Sizing};
use clay_core::elements::rectangle::Rectangle;

#[test]
fn test_begin() {
    let mut clay = Clay::new(800, 600);

    clay.begin();

    let clay = clay.with(
        vec![
            Layout::new()
                .sizing_width(Sizing::Fixed(100))
                .sizing_height(Sizing::Fixed(100))
                .padding((10, 10))
                .end(),
            Rectangle::new().color((255, 255, 255, 0)).end(),
        ],
        |clay| {
            // do nothing
            clay
        },
    );

    let mut clay = clay;
    let render_array = clay.end();

    for i in 0..render_array.len() {
        let item = render_array.get(i);
        if item.command_type() == RenderCommandType::Rectangle {
            if let RenderData::Rectangle(rectangle) = item.data {
                println!("{:?}", rectangle.corner_radius);
            }
        }
    }
}

#[test]
fn single_rectangle_geometry_and_color() {
    let mut clay = Clay::new(800, 600);
    clay.begin();
    let mut clay = clay.with(
        vec![
            Layout::new()
                .sizing_width(Sizing::Fixed(100))
                .sizing_height(Sizing::Fixed(100))
                .padding((10, 10))
                .end(),
            Rectangle::new().color((255, 255, 255, 0)).end(),
        ],
        |clay| clay,
    );
    let commands = clay.end();

    assert_eq!(commands.len(), 1);
    let cmd = commands.get(0);
    assert_eq!(cmd.command_type(), RenderCommandType::Rectangle);
    assert_eq!(cmd.bounding_box.x, 0);
    assert_eq!(cmd.bounding_box.y, 0);
    assert_eq!(cmd.bounding_box.width, 100);
    assert_eq!(cmd.bounding_box.height, 100);
    match cmd.data {
        RenderData::Rectangle(rc) => {
            assert_eq!(rc.color.r, 255);
            assert_eq!(rc.color.g, 255);
            assert_eq!(rc.color.b, 255);
            assert_eq!(rc.color.a, 0);
        }
        _ => panic!("expected a rectangle payload"),
    }
}

#[test]
fn child_inherits_parent_position() {
    let mut clay = Clay::new(800, 600);
    clay.begin();
    let mut clay = clay.with(
        vec![Layout::new()
            .sizing_width(Sizing::Fixed(100))
            .sizing_height(Sizing::Fixed(100))
            .padding((10, 10))
            .end()],
        |clay| {
            clay.with(
                vec![Rectangle::new().color((255, 255, 255, 0)).end()],
                |clay| clay,
            )
        },
    );
    let commands = clay.end();

    assert_eq!(commands.len(), 1);
    let cmd = commands.get(0);
    assert_eq!(cmd.command_type(), RenderCommandType::Rectangle);
    // The child declares no sizing of its own: positioned by the parent's
    // padding, fit-sized to nothing.
    assert_eq!(cmd.bounding_box.x, 10);
    assert_eq!(cmd.bounding_box.y, 10);
    assert_eq!(cmd.bounding_box.width, 0);
    assert_eq!(cmd.bounding_box.height, 0);
}

#[test]
fn node_with_no_descriptors_is_valid() {
    let mut clay = Clay::new(800, 600);
    clay.begin();
    let mut clay = clay.with(Vec::new(), |clay| {
        clay.with(
            vec![Rectangle::new().color((3, 3, 3, 3)).end()],
            |clay| clay,
        )
    });
    let commands = clay.end();
    // The bare node has only structural presence; its child still renders.
    assert_eq!(commands.len(), 1);
    assert_eq!(commands.get(0).command_type(), RenderCommandType::Rectangle);
    assert_eq!(commands.get(0).bounding_box.x, 0);
    assert_eq!(commands.get(0).bounding_box.y, 0);
}

#[test]
fn empty_pass_yields_empty_command_sequence() {
    let mut clay = Clay::new(800, 600);
    clay.begin();
    let commands = clay.end();
    assert_eq!(commands.len(), 0);
}

#[test]
fn identical_passes_yield_identical_command_sequences() {
    let mut clay = Clay::new(800, 600);

    let mut first = Vec::new();
    let mut second = Vec::new();
    for run in 0..2 {
        clay.begin();
        let inner = clay.with(
            vec![
                Layout::new()
                    .sizing_width(Sizing::Fixed(60))
                    .sizing_height(Sizing::Fixed(40))
                    .end(),
                Rectangle::new().color((1, 2, 3, 4)).end(),
            ],
            |clay| {
                clay.with(
                    vec![Rectangle::new().color((9, 9, 9, 9)).end()],
                    |clay| clay,
                )
            },
        );
        clay = inner;
        let commands = clay.end();
        let mut seen = Vec::new();
        for i in 0..commands.len() {
            seen.push(*commands.get(i));
        }
        if run == 0 {
            first = seen;
        } else {
            second = seen;
        }
    }

    assert_eq!(first.len(), second.len());
    assert_eq!(first, second);
}

#[test]
fn fit_sizing_wraps_children_in_a_row() {
    let mut clay = Clay::new(800, 600);
    clay.begin();
    let mut clay = clay.with(
        vec![
            Layout::new().padding((5, 5)).end(),
            Rectangle::new().color((10, 20, 30, 40)).end(),
        ],
        |clay| {
            let clay = clay.with(
                vec![
                    Layout::new()
                        .sizing_width(Sizing::Fixed(30))
                        .sizing_height(Sizing::Fixed(20))
                        .end(),
                    Rectangle::new().color((1, 1, 1, 1)).end(),
                ],
                |clay| clay,
            );
            clay.with(
                vec![
                    Layout::new()
                        .sizing_width(Sizing::Fixed(50))
                        .sizing_height(Sizing::Fixed(40))
                        .end(),
                    Rectangle::new().color((2, 2, 2, 2)).end(),
                ],
                |clay| clay,
            )
        },
    );
    let commands = clay.end();

    assert_eq!(commands.len(), 3);
    // The fit-sized parent wraps both paddings plus the children's row.
    let parent = commands.get(0);
    assert_eq!(parent.bounding_box.x, 0);
    assert_eq!(parent.bounding_box.y, 0);
    assert_eq!(parent.bounding_box.width, 90);
    assert_eq!(parent.bounding_box.height, 50);
    // Children sit inside the padding, left to right.
    let first = commands.get(1);
    assert_eq!(first.bounding_box.x, 5);
    assert_eq!(first.bounding_box.y, 5);
    assert_eq!(first.bounding_box.width, 30);
    assert_eq!(first.bounding_box.height, 20);
    let second = commands.get(2);
    assert_eq!(second.bounding_box.x, 35);
    assert_eq!(second.bounding_box.y, 5);
    assert_eq!(second.bounding_box.width, 50);
    assert_eq!(second.bounding_box.height, 40);
}

#[test]
fn last_layout_descriptor_wins() {
    let mut clay = Clay::new(800, 600);
    clay.begin();
    let mut clay = clay.with(
        vec![
            Layout::new()
                .sizing_width(Sizing::Fixed(50))
                .sizing_height(Sizing::Fixed(50))
                .end(),
            Layout::new()
                .sizing_width(Sizing::Fixed(100))
                .sizing_height(Sizing::Fixed(80))
                .end(),
            Rectangle::new().color((0, 0, 0, 255)).end(),
        ],
        |clay| clay,
    );
    let commands = clay.end();
    assert_eq!(commands.len(), 1);
    assert_eq!(commands.get(0).bounding_box.width, 100);
    assert_eq!(commands.get(0).bounding_box.height, 80);
}

#[test]
fn duplicate_generic_descriptors_all_kept() {
    let mut clay = Clay::new(800, 600);
    clay.begin();
    let mut clay = clay.with(
        vec![
            Rectangle::new().color((1, 0, 0, 0)).end(),
            Rectangle::new().color((2, 0, 0, 0)).end(),
        ],
        |clay| clay,
    );
    let commands = clay.end();
    assert_eq!(commands.len(), 2);
    match commands.get(0).data {
        RenderData::Rectangle(rc) => assert_eq!(rc.color.r, 1),
        _ => panic!("expected a rectangle payload"),
    }
    match commands.get(1).data {
        RenderData::Rectangle(rc) => assert_eq!(rc.color.r, 2),
        _ => panic!("expected a rectangle payload"),
    }
}

#[test]
fn commands_outside_the_universe_are_culled() {
    let mut clay = Clay::new(800, 600);
    clay.begin();
    let clay = clay.with(
        vec![
            Layout::new()
                .sizing_width(Sizing::Fixed(900))
                .sizing_height(Sizing::Fixed(10))
                .end(),
            Rectangle::new().color((1, 1, 1, 1)).end(),
        ],
        |clay| clay,
    );
    // The second root starts past the declared 800-unit width: culled.
    let mut clay = clay.with(
        vec![
            Layout::new()
                .sizing_width(Sizing::Fixed(10))
                .sizing_height(Sizing::Fixed(10))
                .end(),
            Rectangle::new().color((2, 2, 2, 2)).end(),
        ],
        |clay| clay,
    );
    let commands = clay.end();
    assert_eq!(commands.len(), 1);
    match commands.get(0).data {
        RenderData::Rectangle(rc) => assert_eq!(rc.color.r, 1),
        _ => panic!("expected a rectangle payload"),
    }
}

#[test]
fn every_visual_kind_resolves_to_its_command() {
    let black = Color { r: 0, g: 0, b: 0, a: 255 };
    let mut clay = Clay::new(800, 600);
    clay.begin();
    let mut clay = clay.with(
        vec![
            TypedConfig { config: ElementConfig::Id(7) },
            TypedConfig { config: ElementConfig::Border(BorderConfig { color: black, width: 2 }) },
            TypedConfig {
                config: ElementConfig::Text(TextConfig { font_id: 1, font_size: 16, color: black }),
            },
            TypedConfig {
                config: ElementConfig::Image(ImageConfig {
                    source_id: 4,
                    source_width: 32,
                    source_height: 32,
                }),
            },
            TypedConfig {
                config: ElementConfig::Scroll(ScrollConfig { horizontal: true, vertical: false }),
            },
            TypedConfig { config: ElementConfig::Custom(CustomConfig { handle: 11 }) },
            TypedConfig {
                config: ElementConfig::Floating(FloatingConfig { offset_x: 1, offset_y: 1 }),
            },
        ],
        |clay| clay,
    );
    let commands = clay.end();

    // One command per visual attachment, in attachment order; identity and
    // floating attachments resolve to none.
    assert_eq!(commands.len(), 5);
    assert_eq!(commands.get(0).command_type(), RenderCommandType::Border);
    assert_eq!(commands.get(1).command_type(), RenderCommandType::Text);
    assert_eq!(commands.get(2).command_type(), RenderCommandType::Image);
    assert_eq!(commands.get(3).command_type(), RenderCommandType::ScrollContainer);
    assert_eq!(commands.get(4).command_type(), RenderCommandType::Custom);
}

#[test]
fn session_reuse_after_end() {
    let mut clay = Clay::new(800, 600);
    clay.begin();
    let mut clay = clay.with(
        vec![Rectangle::new().color((5, 5, 5, 5)).end()],
        |clay| clay,
    );
    let first = clay.end();
    assert_eq!(first.len(), 1);

    clay.begin();
    let empty = clay.end();
    assert_eq!(empty.len(), 0);
}
