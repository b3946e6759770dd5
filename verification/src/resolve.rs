//! Resolution of a declared tree into render commands.
//!
//! The box model is deliberately small: an element's axis is either a fixed
//! number of units or fits its padded content; children are laid out in a
//! row, left to right, inside the parent's padding.  Every command a visible
//! element resolves to carries the element's bounding box.  Commands whose
//! origin lies outside the layout universe's declared dimensions are culled.
//! All arithmetic saturates at `u32::MAX`.

use vstd::prelude::*;
use crate::commands::{BoundingBox, RenderCommand, RenderData};
use crate::elements::ElementConfig;
use crate::layout::Sizing;
use crate::tree::ElementNode;

verus! {

/// Saturating addition on `u32`.
pub open spec fn sat_add(a: u32, b: u32) -> u32 {
    if a + b > u32::MAX {
        u32::MAX
    } else {
        (a + b) as u32
    }
}

/// Exec counterpart of [`sat_add`].
pub fn sat_add_units(a: u32, b: u32) -> (r: u32)
    ensures
        r == sat_add(a, b),
{
    if a > u32::MAX - b {
        u32::MAX
    } else {
        a + b
    }
}

/// The larger of two `u32` values.
pub open spec fn max_unit(a: u32, b: u32) -> u32 {
    if a >= b {
        a
    } else {
        b
    }
}

/// Exec counterpart of [`max_unit`].
pub fn max_units(a: u32, b: u32) -> (r: u32)
    ensures
        r == max_unit(a, b),
{
    if a >= b {
        a
    } else {
        b
    }
}

/// The resolved width of an element: a fixed width is taken as declared; a
/// fit width is both paddings plus the widths of the children's row.
pub open spec fn spec_width(n: ElementNode) -> u32
    decreases n, 0int,
{
    match n.layout.width {
        Sizing::Fixed(w) => w,
        Sizing::Fit => row_width(
            n.children@,
            0,
            sat_add(n.layout.padding.x, n.layout.padding.x),
        ),
    }
}

/// Folds the widths of the children from index `i` on into `acc`.
pub open spec fn row_width(cs: Seq<ElementNode>, i: int, acc: u32) -> u32
    decreases cs, cs.len() - i,
{
    if i < 0 || i >= cs.len() {
        acc
    } else {
        row_width(cs, i + 1, sat_add(acc, spec_width(cs[i])))
    }
}

/// The resolved height of an element: a fixed height is taken as declared;
/// a fit height is both paddings plus the tallest child of the row.
pub open spec fn spec_height(n: ElementNode) -> u32
    decreases n, 0int,
{
    match n.layout.height {
        Sizing::Fixed(h) => h,
        Sizing::Fit => sat_add(
            sat_add(n.layout.padding.y, n.layout.padding.y),
            row_height(n.children@, 0, 0),
        ),
    }
}

/// Folds the heights of the children from index `i` on into `acc`, keeping
/// the maximum.
pub open spec fn row_height(cs: Seq<ElementNode>, i: int, acc: u32) -> u32
    decreases cs, cs.len() - i,
{
    if i < 0 || i >= cs.len() {
        acc
    } else {
        row_height(cs, i + 1, max_unit(acc, spec_height(cs[i])))
    }
}

/// Whether a command whose box starts at `(x, y)` lies inside a layout
/// universe of `vw` by `vh` units and survives culling.
pub open spec fn visible(x: u32, y: u32, vw: u32, vh: u32) -> bool {
    x < vw && y < vh
}

/// The commands one configuration attachment resolves to, given the
/// element's bounding box: one command for each visual kind, none for the
/// non-visual attachments (identity, layout, floating).
pub open spec fn config_commands(c: ElementConfig, bb: BoundingBox) -> Seq<RenderCommand> {
    match c {
        ElementConfig::Rectangle(r) => seq![
            RenderCommand { bounding_box: bb, data: RenderData::Rectangle(r) },
        ],
        ElementConfig::Border(b) => seq![
            RenderCommand { bounding_box: bb, data: RenderData::Border(b) },
        ],
        ElementConfig::Text(t) => seq![
            RenderCommand { bounding_box: bb, data: RenderData::Text(t) },
        ],
        ElementConfig::Image(im) => seq![
            RenderCommand { bounding_box: bb, data: RenderData::Image(im) },
        ],
        ElementConfig::Scroll(s) => seq![
            RenderCommand { bounding_box: bb, data: RenderData::ScrollContainer(s) },
        ],
        ElementConfig::Custom(u) => seq![
            RenderCommand { bounding_box: bb, data: RenderData::Custom(u) },
        ],
        ElementConfig::Id(_) => Seq::empty(),
        ElementConfig::Layout(_) => Seq::empty(),
        ElementConfig::Floating(_) => Seq::empty(),
    }
}

/// The commands the first `i` configuration attachments of one element
/// resolve to, in attachment order.
pub open spec fn own_commands(cfgs: Seq<ElementConfig>, i: int, bb: BoundingBox) -> Seq<
    RenderCommand,
>
    decreases i,
{
    if i <= 0 {
        Seq::empty()
    } else {
        own_commands(cfgs, i - 1, bb) + config_commands(cfgs[i - 1], bb)
    }
}

/// The commands one element and its subtree resolve to, with the element's
/// box at `(x, y)`: first the element's own commands (unless culled), then
/// the children's, left to right inside the padding.
pub open spec fn node_commands(n: ElementNode, x: u32, y: u32, vw: u32, vh: u32) -> Seq<
    RenderCommand,
>
    decreases n, 0int,
{
    let bb = BoundingBox { x, y, width: spec_width(n), height: spec_height(n) };
    let own = if visible(x, y, vw, vh) {
        own_commands(n.configs@, n.configs@.len() as int, bb)
    } else {
        Seq::empty()
    };
    own + children_commands(
        n.children@,
        0,
        sat_add(x, n.layout.padding.x),
        sat_add(y, n.layout.padding.y),
        vw,
        vh,
    )
}

/// The commands the children from index `i` on resolve to, each laid out at
/// the running horizontal cursor `x`.
pub open spec fn children_commands(
    cs: Seq<ElementNode>,
    i: int,
    x: u32,
    y: u32,
    vw: u32,
    vh: u32,
) -> Seq<RenderCommand>
    decreases cs, cs.len() - i,
{
    if i < 0 || i >= cs.len() {
        Seq::empty()
    } else {
        node_commands(cs[i], x, y, vw, vh) + children_commands(
            cs,
            i + 1,
            sat_add(x, spec_width(cs[i])),
            y,
            vw,
            vh,
        )
    }
}

/// The full command sequence of one pass: the declared roots laid out as a
/// row at the origin of a `vw` by `vh` layout universe.
pub open spec fn spec_resolve(roots: Seq<ElementNode>, vw: u32, vh: u32) -> Seq<RenderCommand> {
    children_commands(roots, 0, 0, 0, vw, vh)
}

/// Computes [`spec_width`] of an element.
pub fn node_width(n: &ElementNode) -> (w: u32)
    ensures
        w == spec_width(*n),
    decreases *n,
{
    match n.layout.width {
        Sizing::Fixed(w) => w,
        Sizing::Fit => {
            let mut acc = sat_add_units(n.layout.padding.x, n.layout.padding.x);
            let mut i: usize = 0;
            while i < n.children.len()
                invariant
                    i <= n.children@.len(),
                    row_width(n.children@, i as int, acc) == row_width(
                        n.children@,
                        0,
                        sat_add(n.layout.padding.x, n.layout.padding.x),
                    ),
                decreases n.children@.len() - i,
            {
                let w = node_width(&n.children[i]);
                acc = sat_add_units(acc, w);
                i = i + 1;
            }
            acc
        },
    }
}

/// Computes [`spec_height`] of an element.
pub fn node_height(n: &ElementNode) -> (h: u32)
    ensures
        h == spec_height(*n),
    decreases *n,
{
    match n.layout.height {
        Sizing::Fixed(h) => h,
        Sizing::Fit => {
            let mut acc: u32 = 0;
            let mut i: usize = 0;
            while i < n.children.len()
                invariant
                    i <= n.children@.len(),
                    row_height(n.children@, i as int, acc) == row_height(n.children@, 0, 0),
                decreases n.children@.len() - i,
            {
                let h = node_height(&n.children[i]);
                acc = max_units(acc, h);
                i = i + 1;
            }
            sat_add_units(sat_add_units(n.layout.padding.y, n.layout.padding.y), acc)
        },
    }
}

/// Resolves a whole pass: the commands of the declared roots, laid out as a
/// row at the origin of a `vw` by `vh` layout universe.
pub fn resolve_roots(roots: &Vec<ElementNode>, vw: u32, vh: u32) -> (out: Vec<RenderCommand>)
    ensures
        out@ == spec_resolve(roots@, vw, vh),
{
    let mut out: Vec<RenderCommand> = Vec::new();
    let mut cx: u32 = 0;
    let mut j: usize = 0;
    proof {
        assert(spec_resolve(roots@, vw, vh) =~= out@ + children_commands(roots@, 0, 0, 0, vw, vh));
    }
    while j < roots.len()
        invariant
            j <= roots@.len(),
            spec_resolve(roots@, vw, vh) == out@ + children_commands(roots@, j as int, cx, 0, vw, vh),
        decreases roots@.len() - j,
    {
        let w_j = node_width(&roots[j]);
        emit_node(&roots[j], cx, 0, vw, vh, &mut out);
        proof {
            assert(spec_resolve(roots@, vw, vh) =~= out@ + children_commands(
                roots@,
                j as int + 1,
                sat_add(cx, spec_width(roots@[j as int])),
                0,
                vw,
                vh,
            ));
        }
        cx = sat_add_units(cx, w_j);
        j = j + 1;
    }
    proof {
        assert(out@ =~= out@ + children_commands(roots@, roots@.len() as int, cx, 0, vw, vh));
    }
    out
}

/// Appends the commands of one element and its subtree to `out`.
pub fn emit_node(n: &ElementNode, x: u32, y: u32, vw: u32, vh: u32, out: &mut Vec<RenderCommand>)
    ensures
        final(out)@ == old(out)@ + node_commands(*n, x, y, vw, vh),
    decreases *n,
{
    let w = node_width(n);
    let h = node_height(n);
    let bb = BoundingBox { x, y, width: w, height: h };
    let ghost base = out@;
    let ghost target = base + node_commands(*n, x, y, vw, vh);
    let ghost own = if visible(x, y, vw, vh) {
        own_commands(n.configs@, n.configs@.len() as int, bb)
    } else {
        Seq::<RenderCommand>::empty()
    };
    if x < vw && y < vh {
        let mut i: usize = 0;
        while i < n.configs.len()
            invariant
                i <= n.configs@.len(),
                bb == (BoundingBox { x, y, width: spec_width(*n), height: spec_height(*n) }),
                out@ == base + own_commands(n.configs@, i as int, bb),
            decreases n.configs@.len() - i,
        {
            match n.configs[i] {
                ElementConfig::Rectangle(r) => {
                    out.push(RenderCommand { bounding_box: bb, data: RenderData::Rectangle(r) });
                },
                ElementConfig::Border(b) => {
                    out.push(RenderCommand { bounding_box: bb, data: RenderData::Border(b) });
                },
                ElementConfig::Text(t) => {
                    out.push(RenderCommand { bounding_box: bb, data: RenderData::Text(t) });
                },
                ElementConfig::Image(im) => {
                    out.push(RenderCommand { bounding_box: bb, data: RenderData::Image(im) });
                },
                ElementConfig::Scroll(s) => {
                    out.push(
                        RenderCommand { bounding_box: bb, data: RenderData::ScrollContainer(s) },
                    );
                },
                ElementConfig::Custom(u) => {
                    out.push(RenderCommand { bounding_box: bb, data: RenderData::Custom(u) });
                },
                ElementConfig::Id(_) => {},
                ElementConfig::Layout(_) => {},
                ElementConfig::Floating(_) => {},
            }
            proof {
                assert(out@ =~= base + own_commands(n.configs@, i + 1, bb));
            }
            i = i + 1;
        }
    }
    proof {
        assert(out@ =~= base + own);
    }
    let mut cx = sat_add_units(x, n.layout.padding.x);
    let cy = sat_add_units(y, n.layout.padding.y);
    let mut j: usize = 0;
    proof {
        assert(target =~= out@ + children_commands(n.children@, 0, cx, cy, vw, vh));
    }
    while j < n.children.len()
        invariant
            j <= n.children@.len(),
            target == out@ + children_commands(n.children@, j as int, cx, cy, vw, vh),
        decreases n.children@.len() - j,
    {
        let ghost out_before = out@;
        let w_j = node_width(&n.children[j]);
        emit_node(&n.children[j], cx, cy, vw, vh, out);
        proof {
            assert(children_commands(n.children@, j as int, cx, cy, vw, vh)
                == node_commands(n.children@[j as int], cx, cy, vw, vh) + children_commands(
                n.children@,
                j as int + 1,
                sat_add(cx, spec_width(n.children@[j as int])),
                cy,
                vw,
                vh,
            ));
            assert(target =~= out@ + children_commands(
                n.children@,
                j as int + 1,
                sat_add(cx, spec_width(n.children@[j as int])),
                cy,
                vw,
                vh,
            ));
        }
        cx = sat_add_units(cx, w_j);
        j = j + 1;
    }
    proof {
        assert(children_commands(n.children@, n.children@.len() as int, cx, cy, vw, vh)
            =~= Seq::<RenderCommand>::empty());
        assert(out@ =~= out@ + Seq::<RenderCommand>::empty());
    }
}

} // verus!
