//! The declared element tree.
//!
//! While a pass is open, each element scope that has been opened and not yet
//! closed is a [`Frame`] on the session's stack.  Closing a scope freezes its
//! frame into an [`ElementNode`] and hands it to its parent (or to the roots
//! of the pass when the stack below it is empty).

use vstd::prelude::*;
use crate::elements::ElementConfig;
use crate::layout::{LayoutConfig, default_layout};

verus! {

/// One closed element: its identity, its layout rules, its generic visual
/// configurations in attachment order, and its children in declaration
/// order.
#[derive(Debug)]
pub struct ElementNode {
    pub id: Option<u32>,
    pub layout: LayoutConfig,
    pub configs: Vec<ElementConfig>,
    pub children: Vec<ElementNode>,
}

/// One open element scope: the same data as a node, still accepting
/// configuration until it is finalized, and accepting children only after.
#[derive(Debug)]
pub struct Frame {
    pub id: Option<u32>,
    pub layout: LayoutConfig,
    pub configs: Vec<ElementConfig>,
    pub finalized: bool,
    pub children: Vec<ElementNode>,
}

/// The node a frame freezes into when its scope closes.
pub open spec fn frame_node(f: Frame) -> ElementNode {
    ElementNode { id: f.id, layout: f.layout, configs: f.configs, children: f.children }
}

/// Whether a frame is still empty of everything but the open bracket: no
/// identity, default layout, no configuration, not finalized, no children.
pub open spec fn fresh_frame(f: Frame) -> bool {
    &&& f.id is None
    &&& f.layout == default_layout()
    &&& f.configs@ =~= Seq::<ElementConfig>::empty()
    &&& !f.finalized
    &&& f.children@ =~= Seq::<ElementNode>::empty()
}

/// The element identity a sequence of descriptors attaches: the last
/// identifier descriptor wins, as the dedicated identity path overwrites.
pub open spec fn attached_id(cfgs: Seq<ElementConfig>, i: int) -> Option<u32>
    decreases i,
{
    if i <= 0 {
        None
    } else {
        match cfgs[i - 1] {
            ElementConfig::Id(id) => Some(id),
            _ => attached_id(cfgs, i - 1),
        }
    }
}

/// The layout rules a sequence of descriptors attaches: the last layout
/// descriptor wins, as the dedicated layout path overwrites.
pub open spec fn attached_layout(cfgs: Seq<ElementConfig>, i: int) -> LayoutConfig
    decreases i,
{
    if i <= 0 {
        default_layout()
    } else {
        match cfgs[i - 1] {
            ElementConfig::Layout(l) => l,
            _ => attached_layout(cfgs, i - 1),
        }
    }
}

/// Whether a descriptor goes through the generic tagged attachment path
/// (everything but the two dedicated paths, identity and layout).
pub open spec fn is_generic_config(c: ElementConfig) -> bool {
    !(c is Id) && !(c is Layout)
}

/// The descriptors a sequence routes through the generic path, in call
/// order, duplicates kept.
pub open spec fn attached_generics(cfgs: Seq<ElementConfig>, i: int) -> Seq<ElementConfig>
    decreases i,
{
    if i <= 0 {
        Seq::empty()
    } else if is_generic_config(cfgs[i - 1]) {
        attached_generics(cfgs, i - 1).push(cfgs[i - 1])
    } else {
        attached_generics(cfgs, i - 1)
    }
}

} // verus!
