//! Render commands: the output of one declaration pass.
//!
//! `end` resolves the declared tree into an ordered, length-tagged sequence
//! of commands, one per visual primitive, each carrying a command-type
//! discriminant and the payload matching that type.

use vstd::prelude::*;
use crate::elements::{
    BorderConfig, CustomConfig, ImageConfig, RectangleConfig, ScrollConfig, TextConfig,
};

verus! {

/// The resolved geometry of one command, in logical units from the top-left
/// corner of the layout universe.
#[derive(Clone, Copy, Debug, PartialEq, Eq, Structural)]
pub struct BoundingBox {
    pub x: u32,
    pub y: u32,
    pub width: u32,
    pub height: u32,
}

/// The discriminant naming which payload shape a render command carries.
#[derive(Clone, Copy, Debug, PartialEq, Eq, Structural)]
pub enum RenderCommandType {
    Rectangle,
    Border,
    Text,
    Image,
    ScrollContainer,
    Custom,
}

/// The payload of one render command, one variant per command type.
#[derive(Clone, Copy, Debug, PartialEq, Eq, Structural)]
pub enum RenderData {
    Rectangle(RectangleConfig),
    Border(BorderConfig),
    Text(TextConfig),
    Image(ImageConfig),
    ScrollContainer(ScrollConfig),
    Custom(CustomConfig),
}

/// One resolved render instruction: geometry plus a type-tagged payload.
#[derive(Clone, Copy, Debug, PartialEq, Eq, Structural)]
pub struct RenderCommand {
    pub bounding_box: BoundingBox,
    pub data: RenderData,
}

/// The discriminant of a command's payload.
pub open spec fn spec_command_type(c: RenderCommand) -> RenderCommandType {
    match c.data {
        RenderData::Rectangle(_) => RenderCommandType::Rectangle,
        RenderData::Border(_) => RenderCommandType::Border,
        RenderData::Text(_) => RenderCommandType::Text,
        RenderData::Image(_) => RenderCommandType::Image,
        RenderData::ScrollContainer(_) => RenderCommandType::ScrollContainer,
        RenderData::Custom(_) => RenderCommandType::Custom,
    }
}

impl RenderCommand {
    /// Reads the command-type discriminant off a command.
    pub fn command_type(&self) -> (t: RenderCommandType)
        ensures
            t == spec_command_type(*self),
    {
        match self.data {
            RenderData::Rectangle(_) => RenderCommandType::Rectangle,
            RenderData::Border(_) => RenderCommandType::Border,
            RenderData::Text(_) => RenderCommandType::Text,
            RenderData::Image(_) => RenderCommandType::Image,
            RenderData::ScrollContainer(_) => RenderCommandType::ScrollContainer,
            RenderData::Custom(_) => RenderCommandType::Custom,
        }
    }
}

/// The ordered, length-tagged command sequence one pass resolves to.  The
/// caller owns it; it stays valid however many further passes run.
pub struct RenderCommandArray {
    commands: Vec<RenderCommand>,
}

impl View for RenderCommandArray {
    type V = Seq<RenderCommand>;

    /// The commands, in declaration/resolution order.
    closed spec fn view(&self) -> Seq<RenderCommand> {
        self.commands@
    }
}

impl RenderCommandArray {
    /// Wraps a resolved command list.
    pub fn from_commands(commands: Vec<RenderCommand>) -> (a: RenderCommandArray)
        ensures
            a@ == commands@,
    {
        RenderCommandArray { commands }
    }

    /// The number of commands.
    pub fn len(&self) -> (n: usize)
        ensures
            n == self@.len(),
    {
        self.commands.len()
    }

    /// The command at index `i`.
    pub fn get(&self, i: usize) -> (c: &RenderCommand)
        requires
            i < self@.len(),
        ensures
            *c == self@[i as int],
    {
        &self.commands[i]
    }
}

} // verus!
