use std::mem;

use clay_core::arena::{ELEMENT_RECORD_BYTES, MAX_ELEMENT_COUNT, min_memory_size};
use clay_core::elements::{ElementConfig, ElementConfigType};
use clay_core::elements::rectangle::Rectangle;
use clay_core::layout::{Layout, Sizing};

#[test]
fn size_of_union() {
    assert_eq!(mem::size_of::<Sizing>(), mem::size_of::<Sizing>())
}

#[test]
fn layout_builder_produces_layout_descriptor() {
    let config = Layout::new()
        .sizing_width(Sizing::Fixed(100))
        .sizing_height(Sizing::Fixed(100))
        .padding((10, 10))
        .end();
    assert_eq!(config.config_type(), ElementConfigType::Layout);
    match config.config {
        ElementConfig::Layout(l) => {
            assert_eq!(l.width, Sizing::Fixed(100));
            assert_eq!(l.height, Sizing::Fixed(100));
            assert_eq!(l.padding.x, 10);
            assert_eq!(l.padding.y, 10);
        }
        _ => panic!("expected a layout payload"),
    }
}

#[test]
fn rectangle_builder_produces_rectangle_descriptor() {
    let config = Rectangle::new().color((255, 255, 255, 0)).corner_radius(3).end();
    assert_eq!(config.config_type(), ElementConfigType::Rectangle);
    match config.config {
        ElementConfig::Rectangle(r) => {
            assert_eq!(r.color.r, 255);
            assert_eq!(r.color.g, 255);
            assert_eq!(r.color.b, 255);
            assert_eq!(r.color.a, 0);
            assert_eq!(r.corner_radius, 3);
        }
        _ => panic!("expected a rectangle payload"),
    }
}

#[test]
fn minimum_memory_size_covers_the_element_budget() {
    assert_eq!(min_memory_size(), MAX_ELEMENT_COUNT * ELEMENT_RECORD_BYTES);
    assert_eq!(min_memory_size(), 65536);
}
