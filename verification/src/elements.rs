//! Configuration payloads: the typed shapes a descriptor can carry, and the
//! discriminant that identifies each shape.
//!
//! A descriptor is a true sum type here: each discriminant owns its payload
//! struct, so a payload can never be paired with the wrong tag.

use vstd::prelude::*;
use crate::layout::LayoutConfig;

pub mod rectangle;

verus! {

/// An RGBA color; each channel ranges over the full `u32`, with 0..=255 the
/// conventional range.
#[derive(Clone, Copy, Debug, PartialEq, Eq, Structural)]
pub struct Color {
    pub r: u32,
    pub g: u32,
    pub b: u32,
    pub a: u32,
}

/// Visual configuration of a filled rectangle.
#[derive(Clone, Copy, Debug, PartialEq, Eq, Structural)]
pub struct RectangleConfig {
    pub color: Color,
    pub corner_radius: u32,
}

/// Visual configuration of an element border.
#[derive(Clone, Copy, Debug, PartialEq, Eq, Structural)]
pub struct BorderConfig {
    pub color: Color,
    pub width: u32,
}

/// Configuration of a text run: a font handle, a size and a color.
#[derive(Clone, Copy, Debug, PartialEq, Eq, Structural)]
pub struct TextConfig {
    pub font_id: u32,
    pub font_size: u32,
    pub color: Color,
}

/// Configuration of an image: a source handle and its intrinsic extent.
#[derive(Clone, Copy, Debug, PartialEq, Eq, Structural)]
pub struct ImageConfig {
    pub source_id: u32,
    pub source_width: u32,
    pub source_height: u32,
}

/// Configuration of a floating element: an offset from its anchor.
#[derive(Clone, Copy, Debug, PartialEq, Eq, Structural)]
pub struct FloatingConfig {
    pub offset_x: u32,
    pub offset_y: u32,
}

/// Configuration of a scroll container.
#[derive(Clone, Copy, Debug, PartialEq, Eq, Structural)]
pub struct ScrollConfig {
    pub horizontal: bool,
    pub vertical: bool,
}

/// An engine-opaque custom configuration, carried through by its handle.
#[derive(Clone, Copy, Debug, PartialEq, Eq, Structural)]
pub struct CustomConfig {
    pub handle: u32,
}

/// One configuration attachment: the discriminant and its payload, as one
/// variant each, so the payload shape always matches the tag.
#[derive(Clone, Copy, Debug, PartialEq, Eq, Structural)]
pub enum ElementConfig {
    /// The element's identity, attached through its own dedicated path.
    Id(u32),
    /// Sizing, alignment and padding, attached through its own dedicated
    /// path because every other configuration depends on the box it sets up.
    Layout(LayoutConfig),
    Rectangle(RectangleConfig),
    Border(BorderConfig),
    Text(TextConfig),
    Image(ImageConfig),
    Floating(FloatingConfig),
    Scroll(ScrollConfig),
    Custom(CustomConfig),
}

/// The discriminant alone, naming which payload shape a descriptor carries.
#[derive(Clone, Copy, Debug, PartialEq, Eq, Structural)]
pub enum ElementConfigType {
    Id,
    Layout,
    Rectangle,
    Border,
    Text,
    Image,
    Floating,
    Scroll,
    Custom,
}

/// The discriminant of a configuration value.
pub open spec fn spec_config_type(c: ElementConfig) -> ElementConfigType {
    match c {
        ElementConfig::Id(_) => ElementConfigType::Id,
        ElementConfig::Layout(_) => ElementConfigType::Layout,
        ElementConfig::Rectangle(_) => ElementConfigType::Rectangle,
        ElementConfig::Border(_) => ElementConfigType::Border,
        ElementConfig::Text(_) => ElementConfigType::Text,
        ElementConfig::Image(_) => ElementConfigType::Image,
        ElementConfig::Floating(_) => ElementConfigType::Floating,
        ElementConfig::Scroll(_) => ElementConfigType::Scroll,
        ElementConfig::Custom(_) => ElementConfigType::Custom,
    }
}

impl ElementConfig {
    /// Reads the discriminant off a configuration value.
    pub fn config_type(&self) -> (t: ElementConfigType)
        ensures
            t == spec_config_type(*self),
    {
        match self {
            ElementConfig::Id(_) => ElementConfigType::Id,
            ElementConfig::Layout(_) => ElementConfigType::Layout,
            ElementConfig::Rectangle(_) => ElementConfigType::Rectangle,
            ElementConfig::Border(_) => ElementConfigType::Border,
            ElementConfig::Text(_) => ElementConfigType::Text,
            ElementConfig::Image(_) => ElementConfigType::Image,
            ElementConfig::Floating(_) => ElementConfigType::Floating,
            ElementConfig::Scroll(_) => ElementConfigType::Scroll,
            ElementConfig::Custom(_) => ElementConfigType::Custom,
        }
    }
}

} // verus!
