//! Layout configuration: sizing rules and padding for one declared element,
//! and the convenience builder that produces a layout descriptor.

use vstd::prelude::*;
use crate::TypedConfig;
use crate::elements::ElementConfig;

verus! {

/// A sizing rule for one axis of an element's box.
#[derive(Clone, Copy, Debug, PartialEq, Eq, Structural)]
pub enum Sizing {
    /// The axis shrinks to the extent of the element's padded content.
    Fit,
    /// The axis is exactly the given number of logical units.
    Fixed(u32),
}

/// Inner spacing between an element's box edge and its children.
#[derive(Clone, Copy, Debug, PartialEq, Eq, Structural)]
pub struct Padding {
    pub x: u32,
    pub y: u32,
}

/// The sizing, alignment and padding rules attached to one element.
#[derive(Clone, Copy, Debug, PartialEq, Eq, Structural)]
pub struct LayoutConfig {
    pub width: Sizing,
    pub height: Sizing,
    pub padding: Padding,
}

/// The layout rules an element gets when no layout descriptor is attached:
/// fit-sized on both axes with no padding.
pub open spec fn default_layout() -> LayoutConfig {
    LayoutConfig { width: Sizing::Fit, height: Sizing::Fit, padding: Padding { x: 0, y: 0 } }
}

/// Builder for a layout descriptor.
#[derive(Clone, Copy, Debug, PartialEq, Eq, Structural)]
pub struct Layout {
    config: LayoutConfig,
}

impl Layout {
    /// The configuration accumulated so far.
    pub closed spec fn config(self) -> LayoutConfig {
        self.config
    }

    /// Starts from the default layout rules.
    pub fn new() -> (l: Layout)
        ensures
            l.config() == default_layout(),
    {
        Layout {
            config: LayoutConfig {
                width: Sizing::Fit,
                height: Sizing::Fit,
                padding: Padding { x: 0, y: 0 },
            },
        }
    }

    /// Sets the horizontal sizing rule.
    pub fn sizing_width(self, s: Sizing) -> (l: Layout)
        ensures
            l.config() == (LayoutConfig { width: s, ..self.config() }),
    {
        Layout { config: LayoutConfig { width: s, ..self.config } }
    }

    /// Sets the vertical sizing rule.
    pub fn sizing_height(self, s: Sizing) -> (l: Layout)
        ensures
            l.config() == (LayoutConfig { height: s, ..self.config() }),
    {
        Layout { config: LayoutConfig { height: s, ..self.config } }
    }

    /// Sets the padding on both axes.
    pub fn padding(self, p: (u32, u32)) -> (l: Layout)
        ensures
            l.config() == (LayoutConfig {
                padding: Padding { x: p.0, y: p.1 },
                ..self.config()
            }),
    {
        Layout { config: LayoutConfig { padding: Padding { x: p.0, y: p.1 }, ..self.config } }
    }

    /// Finishes the builder, producing a layout descriptor.
    pub fn end(self) -> (c: TypedConfig)
        ensures
            c.config == ElementConfig::Layout(self.config()),
    {
        TypedConfig { config: ElementConfig::Layout(self.config) }
    }
}

} // verus!
