//! Engine-facing core of an immediate-mode UI layout builder.
//!
//! A [`Clay`] session owns one pre-sized memory arena and exposes a scoped,
//! stack-structured declaration protocol: `begin` opens a pass, nested
//! element scopes declare the tree and attach typed configuration to each
//! node, and `end` resolves the declarations into an ordered sequence of
//! render commands.
//!
//! The protocol is enforced by contract rather than by caller discipline:
//! configuration can only be attached to a scope that has not finished its
//! configuration, children can only be declared after it has, and every
//! opened scope must be closed before the pass can end.

use vstd::prelude::*;

pub mod arena;
pub mod commands;
pub mod elements;
pub mod laws;
pub mod layout;
pub mod protocol;
pub mod resolve;
pub mod tree;

use arena::{Arena, ELEMENT_RECORD_BYTES, MAX_ELEMENT_COUNT, min_memory_size, spec_min_memory_size};
use commands::RenderCommandArray;
use elements::ElementConfig;
use layout::{LayoutConfig, Padding, Sizing, default_layout};
use protocol::{DeclEvent, closes, lemma_nesting_sound_push, nesting_sound, opens, well_nested};
use tree::{
    ElementNode, Frame, attached_generics, attached_id, attached_layout, frame_node, fresh_frame,
};

verus! {

/// A self-describing configuration descriptor: one typed payload together
/// with the discriminant that identifies its shape.  Descriptors are built
/// by the kind-specific builders and consumed by one element scope.
#[derive(Clone, Copy, Debug, PartialEq, Eq, Structural)]
pub struct TypedConfig {
    pub config: ElementConfig,
}

impl TypedConfig {
    /// The discriminant naming which payload shape this descriptor carries.
    pub fn config_type(&self) -> (t: elements::ElementConfigType)
        ensures
            t == elements::spec_config_type(self.config),
    {
        self.config.config_type()
    }
}

/// Whether a session is between passes or inside one.
#[derive(Clone, Copy, Debug, PartialEq, Eq, Structural)]
pub enum Phase {
    /// No pass in progress; `begin` starts one.
    Idle,
    /// Between `begin` and `end`: element scopes may be declared.
    Declaring,
}

/// One layout session: the owner of one arena and of the scoped
/// element-declaration protocol for the layout universe it was sized for.
pub struct Clay {
    arena: Arena,
    width: u32,
    height: u32,
    phase: Phase,
    node_count: usize,
    stack: Vec<Frame>,
    roots: Vec<ElementNode>,
    events: Ghost<Seq<DeclEvent>>,
}

impl Clay {
    /// The logical dimensions of the layout universe.
    pub closed spec fn dimensions(self) -> (u32, u32) {
        (self.width, self.height)
    }

    /// Whether no pass is in progress.
    pub closed spec fn is_idle(self) -> bool {
        self.phase is Idle
    }

    /// Whether a pass is in progress.
    pub closed spec fn is_declaring(self) -> bool {
        self.phase is Declaring
    }

    /// The still-open element scopes, outermost first.
    pub closed spec fn frames(self) -> Seq<Frame> {
        self.stack@
    }

    /// How many element scopes are open.
    pub open spec fn depth(self) -> nat {
        self.frames().len()
    }

    /// The closed top-level elements of the current pass, in declaration
    /// order.
    pub closed spec fn declared_roots(self) -> Seq<ElementNode> {
        self.roots@
    }

    /// How many element scopes the current pass has opened.
    pub closed spec fn declared_count(self) -> nat {
        self.node_count as nat
    }

    /// The open/close trace of the current pass.
    pub closed spec fn trace(self) -> Seq<DeclEvent> {
        self.events@
    }

    /// The size of the owned arena block.
    pub closed spec fn arena_capacity(self) -> nat {
        self.arena.capacity()
    }

    /// The arena bytes the current pass has reserved.
    pub closed spec fn arena_used(self) -> nat {
        self.arena.used()
    }

    /// Whether the innermost open scope has finished its configuration.
    pub open spec fn top_finalized(self) -> bool {
        self.depth() > 0 && self.frames().last().finalized
    }

    /// Whether a new element scope may open here: a pass is in progress,
    /// the element budget is not exhausted, and the enclosing scope (if
    /// any) has finished its configuration.
    pub open spec fn can_open(self) -> bool {
        &&& self.is_declaring()
        &&& self.declared_count() < MAX_ELEMENT_COUNT
        &&& (self.depth() == 0 || self.top_finalized())
    }

    /// The session invariant: the arena is sized by the sizing query and
    /// consumed one record per declared element; the open/close trace obeys
    /// the stack discipline with exactly `depth()` scopes still open; every
    /// open scope below the innermost has finished its configuration; and a
    /// scope that has not finished its configuration has no children yet.
    pub closed spec fn inv(self) -> bool {
        &&& self.arena.capacity() == spec_min_memory_size()
        &&& self.node_count <= MAX_ELEMENT_COUNT
        &&& self.arena.used() == self.node_count * ELEMENT_RECORD_BYTES
        &&& self.is_idle() ==> self.depth() == 0
        &&& nesting_sound(self.events@)
        &&& opens(self.events@, self.events@.len() as int) == self.node_count
        &&& opens(self.events@, self.events@.len() as int) == closes(
            self.events@,
            self.events@.len() as int,
        ) + self.depth()
        &&& forall|i: int| 0 <= i < self.depth() - 1 ==> (#[trigger] self.frames()[i]).finalized
        &&& forall|i: int|
            0 <= i < self.depth() && !(#[trigger] self.frames()[i]).finalized
                ==> self.frames()[i].children@.len() == 0
    }

    /// Constructs a session for a layout universe of the given logical
    /// dimensions: queries the minimum memory size, allocates an arena of
    /// exactly that many bytes, and takes sole ownership of it.
    pub fn new(width: u32, height: u32) -> (s: Clay)
        ensures
            s.inv(),
            s.is_idle(),
            s.dimensions() == (width, height),
            s.depth() == 0,
            s.declared_roots() =~= Seq::<ElementNode>::empty(),
            s.arena_capacity() == spec_min_memory_size(),
            s.arena_used() == 0,
    {
        let size = min_memory_size();
        let arena = Arena::create(size);
        Clay {
            arena,
            width,
            height,
            phase: Phase::Idle,
            node_count: 0,
            stack: Vec::new(),
            roots: Vec::new(),
            events: Ghost(Seq::empty()),
        }
    }

    /// Starts a fresh declaration pass: resets the declaration cursor, the
    /// declared tree and the arena, reusing the same block.
    pub fn begin(&mut self)
        requires
            old(self).inv(),
            old(self).is_idle(),
        ensures
            final(self).inv(),
            final(self).is_declaring(),
            final(self).depth() == 0,
            final(self).declared_roots() =~= Seq::<ElementNode>::empty(),
            final(self).trace() =~= Seq::<DeclEvent>::empty(),
            final(self).declared_count() == 0,
            final(self).arena_used() == 0,
            final(self).dimensions() == old(self).dimensions(),
            final(self).arena_capacity() == old(self).arena_capacity(),
    {
        self.arena.reset();
        self.phase = Phase::Declaring;
        self.node_count = 0;
        self.stack = Vec::new();
        self.roots = Vec::new();
        self.events = Ghost(Seq::empty());
    }

    /// Opens a new element scope as a child of the innermost open scope (or
    /// as a root), reserving its arena record.  The new scope starts with
    /// no identity, default layout, no configuration and no children.
    pub fn open_element(&mut self)
        requires
            old(self).inv(),
            old(self).can_open(),
        ensures
            final(self).inv(),
            final(self).is_declaring(),
            final(self).depth() == old(self).depth() + 1,
            forall|i: int|
                0 <= i < old(self).depth() ==> final(self).frames()[i] == old(self).frames()[i],
            fresh_frame(final(self).frames().last()),
            final(self).declared_roots() == old(self).declared_roots(),
            final(self).declared_count() == old(self).declared_count() + 1,
            final(self).trace() == old(self).trace().push(DeclEvent::Open),
            final(self).dimensions() == old(self).dimensions(),
            final(self).arena_capacity() == old(self).arena_capacity(),
            final(self).arena_used() == old(self).arena_used() + ELEMENT_RECORD_BYTES,
    {
        proof {
            lemma_nesting_sound_push(self.events@, DeclEvent::Open);
        }
        self.arena.bump(ELEMENT_RECORD_BYTES);
        self.stack.push(
            Frame {
                id: None,
                layout: LayoutConfig {
                    width: Sizing::Fit,
                    height: Sizing::Fit,
                    padding: Padding { x: 0, y: 0 },
                },
                configs: Vec::new(),
                finalized: false,
                children: Vec::new(),
            },
        );
        self.node_count = self.node_count + 1;
        self.events = Ghost(self.events@.push(DeclEvent::Open));
        proof {
            assert(self.frames().last().layout == default_layout());
        }
    }

    /// Attaches one configuration descriptor to the innermost open scope,
    /// dispatching on its discriminant: an identifier goes through the
    /// dedicated identity path, a layout descriptor through the dedicated
    /// layout path (each overwriting any earlier attachment of its kind),
    /// and every other kind is appended to the scope's generic
    /// configuration list in call order, duplicates kept.
    pub fn attach(&mut self, config: TypedConfig)
        requires
            old(self).inv(),
            old(self).is_declaring(),
            old(self).depth() >= 1,
            !old(self).top_finalized(),
        ensures
            final(self).inv(),
            final(self).is_declaring(),
            final(self).depth() == old(self).depth(),
            forall|i: int|
                0 <= i < old(self).depth() - 1 ==> final(self).frames()[i] == old(
                    self,
                ).frames()[i],
            ({
                let ft = final(self).frames().last();
                let ot = old(self).frames().last();
                &&& ft.finalized == ot.finalized
                &&& ft.children == ot.children
                &&& match config.config {
                    ElementConfig::Id(id) => ft.id == Some(id) && ft.layout == ot.layout
                        && ft.configs == ot.configs,
                    ElementConfig::Layout(l) => ft.layout == l && ft.id == ot.id && ft.configs
                        == ot.configs,
                    _ => ft.configs@ == ot.configs@.push(config.config) && ft.id == ot.id
                        && ft.layout == ot.layout,
                }
            }),
            final(self).declared_roots() == old(self).declared_roots(),
            final(self).declared_count() == old(self).declared_count(),
            final(self).trace() == old(self).trace(),
            final(self).dimensions() == old(self).dimensions(),
            final(self).arena_capacity() == old(self).arena_capacity(),
            final(self).arena_used() == old(self).arena_used(),
    {
        let f_opt = self.stack.pop();
        let mut f = f_opt.unwrap();
        match config.config {
            ElementConfig::Id(id) => {
                f.id = Some(id);
            },
            ElementConfig::Layout(l) => {
                f.layout = l;
            },
            _ => {
                f.configs.push(config.config);
            },
        }
        self.stack.push(f);
    }

    /// Signals the end of configuration for the innermost open scope: from
    /// here on its configuration is frozen and children may be declared.
    pub fn post_configuration(&mut self)
        requires
            old(self).inv(),
            old(self).is_declaring(),
            old(self).depth() >= 1,
            !old(self).top_finalized(),
        ensures
            final(self).inv(),
            final(self).is_declaring(),
            final(self).top_finalized(),
            final(self).depth() == old(self).depth(),
            forall|i: int|
                0 <= i < old(self).depth() - 1 ==> final(self).frames()[i] == old(
                    self,
                ).frames()[i],
            ({
                let ft = final(self).frames().last();
                let ot = old(self).frames().last();
                &&& ft.finalized
                &&& ft.id == ot.id
                &&& ft.layout == ot.layout
                &&& ft.configs == ot.configs
                &&& ft.children == ot.children
            }),
            final(self).declared_roots() == old(self).declared_roots(),
            final(self).declared_count() == old(self).declared_count(),
            final(self).trace() == old(self).trace(),
            final(self).dimensions() == old(self).dimensions(),
            final(self).arena_capacity() == old(self).arena_capacity(),
            final(self).arena_used() == old(self).arena_used(),
    {
        let f_opt = self.stack.pop();
        let mut f = f_opt.unwrap();
        f.finalized = true;
        self.stack.push(f);
    }

    /// Closes the innermost open scope, freezing it into a node: the node
    /// becomes the next child of the enclosing scope, or the next root of
    /// the pass when no scope encloses it.
    pub fn close_element(&mut self)
        requires
            old(self).inv(),
            old(self).is_declaring(),
            old(self).depth() >= 1,
            old(self).top_finalized(),
        ensures
            final(self).inv(),
            final(self).is_declaring(),
            final(self).depth() == old(self).depth() - 1,
            final(self).trace() == old(self).trace().push(DeclEvent::Close),
            forall|i: int|
                0 <= i < old(self).depth() - 2 ==> final(self).frames()[i] == old(
                    self,
                ).frames()[i],
            old(self).depth() == 1 ==> final(self).declared_roots() == old(
                self,
            ).declared_roots().push(frame_node(old(self).frames().last())),
            old(self).depth() > 1 ==> final(self).declared_roots() == old(self).declared_roots()
                && ({
                let p = final(self).frames().last();
                let op = old(self).frames()[old(self).depth() - 2];
                &&& p.id == op.id
                &&& p.layout == op.layout
                &&& p.configs == op.configs
                &&& p.finalized == op.finalized
                &&& p.children@ == op.children@.push(frame_node(old(self).frames().last()))
            }),
            final(self).declared_count() == old(self).declared_count(),
            final(self).dimensions() == old(self).dimensions(),
            final(self).arena_capacity() == old(self).arena_capacity(),
            final(self).arena_used() == old(self).arena_used(),
    {
        proof {
            lemma_nesting_sound_push(self.events@, DeclEvent::Close);
        }
        let f_opt = self.stack.pop();
        let f = f_opt.unwrap();
        let node = ElementNode {
            id: f.id,
            layout: f.layout,
            configs: f.configs,
            children: f.children,
        };
        if self.stack.len() == 0 {
            self.roots.push(node);
        } else {
            let p_opt = self.stack.pop();
            let mut p = p_opt.unwrap();
            p.children.push(node);
            self.stack.push(p);
        }
        self.events = Ghost(self.events@.push(DeclEvent::Close));
    }

    /// Ends the pass: resolves everything declared since `begin` into the
    /// ordered command sequence and returns it.  The whole pass's open and
    /// close brackets are then necessarily well nested.
    pub fn end(&mut self) -> (r: RenderCommandArray)
        requires
            old(self).inv(),
            old(self).is_declaring(),
            old(self).depth() == 0,
        ensures
            final(self).inv(),
            final(self).is_idle(),
            r@ == resolve::spec_resolve(
                old(self).declared_roots(),
                old(self).dimensions().0,
                old(self).dimensions().1,
            ),
            final(self).declared_roots() == old(self).declared_roots(),
            final(self).trace() == old(self).trace(),
            well_nested(old(self).trace()),
            final(self).dimensions() == old(self).dimensions(),
            final(self).arena_capacity() == old(self).arena_capacity(),
    {
        self.phase = Phase::Idle;
        let cmds = resolve::resolve_roots(&self.roots, self.width, self.height);
        RenderCommandArray::from_commands(cmds)
    }

    /// Declares one element scope: opens a node, attaches the given
    /// descriptors in sequence order, finalizes the configuration, hands
    /// the session to `children` — whose nested declarations become this
    /// node's children — and closes the node again.
    ///
    /// The contract makes the scope's bracketing part of the type: the
    /// children closure receives the session with the new scope open and
    /// configured, must keep every enclosing scope intact, and must bring
    /// the open-scope depth back to where the closure found it; the scope
    /// itself is then closed here, never by the closure.
    pub fn with<F: FnOnce(Clay) -> Clay>(self, configs: Vec<TypedConfig>, f: F) -> (res: Clay)
        requires
            self.inv(),
            self.can_open(),
            forall|mid: Clay|
                scope_opened(self, configs@.map_values(|c: TypedConfig| c.config), mid)
                    ==> call_requires(f, (mid,)),
            forall|mid: Clay, r: Clay|
                scope_opened(self, configs@.map_values(|c: TypedConfig| c.config), mid)
                    && #[trigger] call_ensures(f, (mid,), r) ==> scope_extended(mid, r),
        ensures
            res.inv(),
            res.is_declaring(),
            res.depth() == self.depth(),
            res.dimensions() == self.dimensions(),
            res.arena_capacity() == self.arena_capacity(),
            self.depth() >= 1 ==> scope_extended(self, res),
            exists|mid: Clay, r: Clay|
                {
                    &&& scope_opened(self, configs@.map_values(|c: TypedConfig| c.config), mid)
                    &&& #[trigger] call_ensures(f, (mid,), r)
                    &&& scope_extended(mid, r)
                    &&& scope_closed(r, res)
                },
    {
        let ghost cfgv = configs@.map_values(|c: TypedConfig| c.config);
        let ghost orig = self;
        let mut s = self;
        s.open_element();
        let mut i: usize = 0;
        while i < configs.len()
            invariant
                i <= configs@.len(),
                cfgv == configs@.map_values(|c: TypedConfig| c.config),
                s.inv(),
                s.is_declaring(),
                s.depth() == orig.depth() + 1,
                !s.frames().last().finalized,
                forall|k: int| 0 <= k < orig.depth() ==> s.frames()[k] == orig.frames()[k],
                s.frames().last().id == attached_id(cfgv, i as int),
                s.frames().last().layout == attached_layout(cfgv, i as int),
                s.frames().last().configs@ == attached_generics(cfgv, i as int),
                s.frames().last().children@ == Seq::<ElementNode>::empty(),
                s.declared_roots() == orig.declared_roots(),
                s.declared_count() == orig.declared_count() + 1,
                s.trace() == orig.trace().push(DeclEvent::Open),
                s.dimensions() == orig.dimensions(),
                s.arena_capacity() == orig.arena_capacity(),
                s.arena_used() == orig.arena_used() + ELEMENT_RECORD_BYTES,
            decreases configs@.len() - i,
        {
            s.attach(configs[i]);
            i = i + 1;
        }
        s.post_configuration();
        proof {
            assert(scope_opened(orig, cfgv, s));
        }
        let ghost mid_g = s;
        let r = f(s);
        let ghost r_g = r;
        let mut res = r;
        res.close_element();
        proof {
            assert(scope_closed(r_g, res));
            if orig.depth() >= 1 {
                assert forall|k: int| 0 <= k < orig.depth() - 1 implies res.frames()[k]
                    == orig.frames()[k] by {
                    assert(res.frames()[k] == r_g.frames()[k]);
                    assert(r_g.frames()[k] == mid_g.frames()[k]);
                    assert(mid_g.frames()[k] == orig.frames()[k]);
                }
                assert(r_g.frames()[r_g.depth() - 2] == mid_g.frames()[mid_g.depth() - 2]);
                assert(mid_g.frames()[mid_g.depth() - 2] == orig.frames()[orig.depth() - 1]);
                assert forall|k: int| 0 <= k < orig.trace().len() implies res.trace()[k]
                    == orig.trace()[k] by {
                    assert(r_g.trace().subrange(0, mid_g.trace().len() as int)[k]
                        == r_g.trace()[k]);
                    assert(mid_g.trace()[k] == orig.trace().push(DeclEvent::Open)[k]);
                }
                assert(res.trace().subrange(0, orig.trace().len() as int) =~= orig.trace());
                assert(scope_extended(orig, res));
            }
        }
        res
    }
}

/// A children closure that declares nothing leaves the session exactly as
/// it received it, which in particular satisfies [`scope_extended`].
pub proof fn lemma_scope_extended_refl(s: Clay)
    requires
        s.inv(),
        s.is_declaring(),
        s.depth() >= 1,
        s.top_finalized(),
    ensures
        scope_extended(s, s),
{
    assert(s.trace().subrange(0, s.trace().len() as int) =~= s.trace());
}

/// The state the children closure of [`Clay::with`] receives: `base` with
/// one more scope open on top, holding exactly what the descriptor sequence
/// `cfgs` attaches — the last identifier, the last layout, the generic
/// descriptors in call order — already finalized and still childless.
pub open spec fn scope_opened(base: Clay, cfgs: Seq<ElementConfig>, mid: Clay) -> bool {
    &&& mid.inv()
    &&& mid.is_declaring()
    &&& mid.dimensions() == base.dimensions()
    &&& mid.depth() == base.depth() + 1
    &&& forall|i: int| 0 <= i < base.depth() ==> mid.frames()[i] == base.frames()[i]
    &&& mid.frames().last().id == attached_id(cfgs, cfgs.len() as int)
    &&& mid.frames().last().layout == attached_layout(cfgs, cfgs.len() as int)
    &&& mid.frames().last().configs@ == attached_generics(cfgs, cfgs.len() as int)
    &&& mid.frames().last().finalized
    &&& mid.frames().last().children@ == Seq::<ElementNode>::empty()
    &&& mid.declared_roots() == base.declared_roots()
    &&& mid.declared_count() == base.declared_count() + 1
    &&& mid.trace() == base.trace().push(DeclEvent::Open)
    &&& mid.arena_capacity() == base.arena_capacity()
    &&& mid.arena_used() == base.arena_used() + ELEMENT_RECORD_BYTES
}

/// What the children closure of [`Clay::with`] must leave behind: the same
/// depth it was handed, every enclosing scope untouched, the open node's
/// own identity and configuration untouched (only its children may have
/// accrued), the same roots, and the protocol trace only extended.
pub open spec fn scope_extended(mid: Clay, r: Clay) -> bool {
    &&& r.inv()
    &&& r.is_declaring()
    &&& r.dimensions() == mid.dimensions()
    &&& r.depth() == mid.depth()
    &&& forall|i: int| 0 <= i < mid.depth() - 1 ==> r.frames()[i] == mid.frames()[i]
    &&& r.frames().last().id == mid.frames().last().id
    &&& r.frames().last().layout == mid.frames().last().layout
    &&& r.frames().last().configs == mid.frames().last().configs
    &&& r.frames().last().finalized
    &&& r.declared_roots() == mid.declared_roots()
    &&& r.declared_count() >= mid.declared_count()
    &&& r.trace().len() >= mid.trace().len()
    &&& r.trace().subrange(0, mid.trace().len() as int) == mid.trace()
    &&& r.arena_capacity() == mid.arena_capacity()
    &&& r.arena_used() >= mid.arena_used()
}

/// How closing the scope relates the closure's result `r` to the session
/// [`Clay::with`] returns: the top frame is frozen into a node and handed
/// to the enclosing scope (or to the roots), exactly as `close_element`
/// states it.
pub open spec fn scope_closed(r: Clay, res: Clay) -> bool {
    &&& res.inv()
    &&& res.is_declaring()
    &&& res.depth() == r.depth() - 1
    &&& res.trace() == r.trace().push(DeclEvent::Close)
    &&& forall|i: int| 0 <= i < r.depth() - 2 ==> res.frames()[i] == r.frames()[i]
    &&& r.depth() == 1 ==> res.declared_roots() == r.declared_roots().push(
        frame_node(r.frames().last()),
    )
    &&& r.depth() > 1 ==> res.declared_roots() == r.declared_roots() && ({
        let p = res.frames().last();
        let op = r.frames()[r.depth() - 2];
        &&& p.id == op.id
        &&& p.layout == op.layout
        &&& p.configs == op.configs
        &&& p.finalized == op.finalized
        &&& p.children@ == op.children@.push(frame_node(r.frames().last()))
    })
    &&& res.declared_count() == r.declared_count()
    &&& res.dimensions() == r.dimensions()
    &&& res.arena_capacity() == r.arena_capacity()
    &&& res.arena_used() == r.arena_used()
}

} // verus!
