//! Convenience builder for a rectangle descriptor.

use vstd::prelude::*;
use crate::TypedConfig;
use crate::elements::{Color, ElementConfig, RectangleConfig};

verus! {

/// Builder for a rectangle descriptor.
#[derive(Clone, Copy, Debug, PartialEq, Eq, Structural)]
pub struct Rectangle {
    config: RectangleConfig,
}

impl Rectangle {
    /// The configuration accumulated so far.
    pub closed spec fn config(self) -> RectangleConfig {
        self.config
    }

    /// Starts from a fully transparent rectangle with square corners.
    pub fn new() -> (r: Rectangle)
        ensures
            r.config() == (RectangleConfig {
                color: Color { r: 0, g: 0, b: 0, a: 0 },
                corner_radius: 0,
            }),
    {
        Rectangle {
            config: RectangleConfig {
                color: Color { r: 0, g: 0, b: 0, a: 0 },
                corner_radius: 0,
            },
        }
    }

    /// Sets the fill color from `(r, g, b, a)` channels.
    pub fn color(self, c: (u32, u32, u32, u32)) -> (r: Rectangle)
        ensures
            r.config() == (RectangleConfig {
                color: Color { r: c.0, g: c.1, b: c.2, a: c.3 },
                ..self.config()
            }),
    {
        Rectangle {
            config: RectangleConfig {
                color: Color { r: c.0, g: c.1, b: c.2, a: c.3 },
                ..self.config
            },
        }
    }

    /// Sets the corner radius.
    pub fn corner_radius(self, radius: u32) -> (r: Rectangle)
        ensures
            r.config() == (RectangleConfig { corner_radius: radius, ..self.config() }),
    {
        Rectangle { config: RectangleConfig { corner_radius: radius, ..self.config } }
    }

    /// Finishes the builder, producing a rectangle descriptor.
    pub fn end(self) -> (c: TypedConfig)
        ensures
            c.config == ElementConfig::Rectangle(self.config()),
    {
        TypedConfig { config: ElementConfig::Rectangle(self.config) }
    }
}

} // verus!
