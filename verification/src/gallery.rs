//! Gallery orchestrator.
//!
//! The orchestrator composes the core: it owns the entity store holding
//! every widget's state and the gallery's own, wires the subscriptions at
//! construction, and serves each render pass by picking the arrangement
//! from the viewport width and the visible virtual-list rows from the
//! scroll offset.
//!
//! Everything runs on one logical UI thread in strict order: update, then
//! dirty flag, then deferred notification, then the next render pass. The
//! one background path is a deferred timer whose continuation rejoins
//! through [`Gallery::markdown_timer_fired`]; it mutates only through the
//! regular update path and silently does nothing when the gallery was
//! destroyed in the meantime.

use vstd::prelude::*;

use crate::layout::{select, select_spec, Layout, Viewport, COMPACT_BREAKPOINT};
use crate::router::{delivery_order, Subscription, SubscriptionRouter};
use crate::settings::{Settings, SettingsRegistry};
use crate::store::{EntityStore, Handle};
use crate::widgets::{
    clamp_to, sample_tree_items, ColorModel, DateModel, InputModel, ListModel, SelectModel, SliderModel,
    TableModel, TreeModel,
};
use crate::windower::{extent_sum, ItemExtents, VisibleRange};

verus! {

/// Owner tag under which the gallery registers its subscriptions.
pub const GALLERY_OWNER: u64 = 1;

/// Number of rows in the virtualized list.
pub const VIRTUAL_ROW_COUNT: usize = 40;

/// Extent of each virtualized row along the scroll axis, in pixels.
pub const VIRTUAL_ROW_EXTENT: u64 = 32;

/// Extent of the virtualized region visible at once, in pixels.
pub const VIRTUAL_REGION_EXTENT: u64 = 180;

/// Number of entities the gallery creates (thirteen widgets and its own
/// state).
pub const GALLERY_ENTITY_COUNT: usize = 14;

/// What the menu section last reported.
#[derive(Clone, Copy, Debug, PartialEq, Eq, Structural)]
pub enum MenuMessage {
    Idle,
    Copied,
    Refreshed,
}

/// The gallery's own mutable state: every plain field the sections read
/// and the click handlers write.
#[derive(Clone, Copy, Debug, PartialEq, Eq, Structural)]
pub struct GalleryState {
    pub checkbox_checked: bool,
    pub switch_on: bool,
    pub radio_checked: bool,
    pub rating_value: u64,
    pub stepper_step: u64,
    pub pagination_page: u64,
    pub tab_index: u64,
    pub collapsible_open: bool,
    pub slider_value: u64,
    pub progress_value: u64,
    pub form_subscribe: bool,
    pub sidebar_collapsed: bool,
    pub sidebar_side_right: bool,
    pub menu_message: MenuMessage,
    pub markdown_ready: bool,
}

/// The gallery state at construction.
pub open spec fn initial_gallery_state() -> GalleryState {
    GalleryState {
        checkbox_checked: true,
        switch_on: false,
        radio_checked: true,
        rating_value: 3u64,
        stepper_step: 1u64,
        pagination_page: 2u64,
        tab_index: 0u64,
        collapsible_open: false,
        slider_value: 35u64,
        progress_value: 35u64,
        form_subscribe: true,
        sidebar_collapsed: false,
        sidebar_side_right: false,
        menu_message: MenuMessage::Idle,
        markdown_ready: false,
    }
}

impl GalleryState {
    /// The gallery state at construction.
    pub fn initial() -> (g: GalleryState)
        ensures
            g == initial_gallery_state(),
    {
        GalleryState {
            checkbox_checked: true,
            switch_on: false,
            radio_checked: true,
            rating_value: 3,
            stepper_step: 1,
            pagination_page: 2,
            tab_index: 0,
            collapsible_open: false,
            slider_value: 35,
            progress_value: 35,
            form_subscribe: true,
            sidebar_collapsed: false,
            sidebar_side_right: false,
            menu_message: MenuMessage::Idle,
            markdown_ready: false,
        }
    }
}

/// The state one entity of the store owns: one widget's model, or the
/// gallery's own state.
pub enum WidgetState {
    Input(InputModel),
    Select(SelectModel),
    Date(DateModel),
    Color(ColorModel),
    Slider(SliderModel),
    List(ListModel),
    Table(TableModel),
    Tree(TreeModel),
    Gallery(GalleryState),
}

/// An internally meaningful change a widget announces through the router.
#[derive(Clone, Copy, Debug, PartialEq, Eq, Structural)]
pub enum WidgetEvent {
    SliderChanged { value: u64 },
    ColorCommitted { rgba: u32 },
}

/// What the gallery does when a subscribed source emits.
#[derive(Clone, Copy, Debug, PartialEq, Eq, Structural)]
pub enum GalleryCallback {
    SliderChanged,
    ColorCommitted,
}

/// One callback applied to the gallery state. A slider change moves the
/// volume and the derived progress (clamped to one hundred); a color
/// commit only requests a repaint.
pub open spec fn apply_callback_spec(
    g: GalleryState,
    cb: GalleryCallback,
    event: WidgetEvent,
) -> GalleryState {
    match cb {
        GalleryCallback::SliderChanged => match event {
            WidgetEvent::SliderChanged { value } => GalleryState {
                slider_value: value,
                progress_value: clamp_to(value, 0, 100),
                ..g
            },
            _ => g,
        },
        GalleryCallback::ColorCommitted => g,
    }
}

/// The callbacks of one emission applied in delivery order.
pub open spec fn apply_callbacks_spec(
    g: GalleryState,
    cbs: Seq<GalleryCallback>,
    event: WidgetEvent,
) -> GalleryState
    decreases cbs.len(),
{
    if cbs.len() == 0 {
        g
    } else {
        apply_callback_spec(apply_callbacks_spec(g, cbs.drop_last(), event), cbs.last(), event)
    }
}

/// What one render pass needs from the core: the single arrangement for
/// the whole pass, the virtual-list rows to materialize, and one
/// notification per entity that changed since the previous pass.
pub struct RenderPlan {
    pub layout: Layout,
    pub rows: VisibleRange,
    pub dirty: Vec<Handle>,
}

/// The composed gallery: store, router, settings, the handles of every
/// entity it created, and the virtual-list extents.
pub struct Gallery {
    /// Sole owner of every entity's state.
    pub store: EntityStore<WidgetState>,
    /// Registry of the gallery's subscriptions.
    pub router: SubscriptionRouter<GalleryCallback>,
    /// Process-wide preferences, installed at construction.
    pub settings: SettingsRegistry,
    pub input: Handle,
    pub textarea: Handle,
    pub select_widget: Handle,
    pub date_picker: Handle,
    pub color_picker: Handle,
    pub slider: Handle,
    pub form_name: Handle,
    pub form_email: Handle,
    pub form_role: Handle,
    pub form_notes: Handle,
    pub list: Handle,
    pub table: Handle,
    pub tree: Handle,
    /// The gallery's own state entity.
    pub root: Handle,
    /// Per-row extents of the virtualized list.
    pub extents: ItemExtents,
    /// Set once by [`Gallery::destroy`]; never cleared.
    pub destroyed: bool,
}

impl Gallery {
    /// The two subscriptions the gallery wires at construction, in
    /// registration order: slider changes first, color commits second.
    pub open spec fn wired_subscriptions(&self) -> Seq<Subscription<GalleryCallback>> {
        seq![
            Subscription {
                id: 0u64,
                source: self.slider,
                owner: GALLERY_OWNER,
                callback: GalleryCallback::SliderChanged,
            },
            Subscription {
                id: 1u64,
                source: self.color_picker,
                owner: GALLERY_OWNER,
                callback: GalleryCallback::ColorCommitted,
            },
        ]
    }

    /// Whether the orchestrator has been destroyed.
    pub open spec fn is_destroyed(&self) -> bool {
        self.destroyed
    }

    /// The registrations currently held by the router.
    pub open spec fn subs(&self) -> Seq<Subscription<GalleryCallback>> {
        self.router.subscriptions()
    }

    /// How many subscriptions are registered.
    pub open spec fn subscription_count(&self) -> nat {
        self.subs().len()
    }

    /// Whether `h` refers to a live entity.
    pub open spec fn entity_valid(&self, h: Handle) -> bool {
        self.store.valid(h)
    }

    /// Whether `h` changed since the last render pass.
    pub open spec fn entity_dirty(&self, h: Handle) -> bool {
        self.store.is_dirty(h)
    }

    /// The state owned for `h`.
    pub open spec fn widget(&self, h: Handle) -> WidgetState {
        self.store.value(h)
    }

    /// The gallery's own state.
    pub open spec fn gallery_state(&self) -> GalleryState {
        self.store.value(self.root)->Gallery_0
    }

    /// The slider widget's model.
    pub open spec fn slider_model(&self) -> SliderModel {
        self.store.value(self.slider)->Slider_0
    }

    /// The per-row extents of the virtualized list.
    pub open spec fn virtual_extents(&self) -> Seq<u64> {
        self.extents@
    }

    /// Composition invariant: the store and router are consistent, the
    /// fourteen handles name the fourteen entities created at
    /// construction, each live entity holds the right kind of state, the
    /// wired subscriptions are exactly the two registered at construction,
    /// and after destruction nothing is live and nothing is subscribed.
    pub open spec fn wf(&self) -> bool {
        &&& self.store.wf()
        &&& self.router.wf()
        &&& self.settings.initialized()
        &&& self.extents.wf()
        &&& self.extents@.len() == VIRTUAL_ROW_COUNT
        &&& self.input.id == 0
        &&& self.textarea.id == 1
        &&& self.select_widget.id == 2
        &&& self.date_picker.id == 3
        &&& self.color_picker.id == 4
        &&& self.slider.id == 5
        &&& self.form_name.id == 6
        &&& self.form_email.id == 7
        &&& self.form_role.id == 8
        &&& self.form_notes.id == 9
        &&& self.list.id == 10
        &&& self.table.id == 11
        &&& self.tree.id == 12
        &&& self.root.id == 13
        &&& self.store.slot_count() == GALLERY_ENTITY_COUNT
        &&& !self.destroyed ==> {
            &&& self.store.valid(self.input) && self.store.value(self.input) is Input
            &&& self.store.valid(self.textarea) && self.store.value(self.textarea) is Input
            &&& self.store.valid(self.select_widget) && (self.store.value(self.select_widget)
                matches WidgetState::Select(m) && m.wf())
            &&& self.store.valid(self.date_picker) && self.store.value(self.date_picker) is Date
            &&& self.store.valid(self.color_picker) && self.store.value(self.color_picker) is Color
            &&& self.store.valid(self.slider) && (self.store.value(self.slider)
                matches WidgetState::Slider(m) && m.min == 0 && m.max == 100 && m.step == 1
                && m.wf())
            &&& self.store.valid(self.form_name) && self.store.value(self.form_name) is Input
            &&& self.store.valid(self.form_email) && self.store.value(self.form_email) is Input
            &&& self.store.valid(self.form_role) && (self.store.value(self.form_role)
                matches WidgetState::Select(m) && m.wf())
            &&& self.store.valid(self.form_notes) && self.store.value(self.form_notes) is Input
            &&& self.store.valid(self.list) && self.store.value(self.list) is List
            &&& self.store.valid(self.table) && self.store.value(self.table) is Table
            &&& self.store.valid(self.tree) && self.store.value(self.tree) is Tree
            &&& self.store.valid(self.root) && self.store.value(self.root) is Gallery
            &&& self.router.subscriptions() == self.wired_subscriptions()
        }
        &&& self.destroyed ==> {
            &&& self.router.subscriptions().len() == 0
            &&& forall|h: Handle| !self.store.valid(h)
        }
    }

    /// Whether the orchestrator is still alive.
    pub fn active(&self) -> (alive: bool)
        ensures
            alive == !self.is_destroyed(),
    {
        !self.destroyed
    }

    /// Builds the whole gallery: installs the default settings, creates
    /// the fourteen entities with their initial state, wires the slider
    /// and color-picker subscriptions in that order, and lays out the
    /// forty uniform rows of the virtualized list. The auxiliary markdown
    /// content starts not ready; the platform schedules a deferred timer
    /// whose continuation calls [`Gallery::markdown_timer_fired`].
    pub fn new() -> (g: Gallery)
        ensures
            g.wf(),
            !g.is_destroyed(),
            g.gallery_state() == initial_gallery_state(),
            g.subscription_count() == 2,
            g.slider_model().value == 35,
            g.virtual_extents().len() == VIRTUAL_ROW_COUNT,
            forall|i: int|
                0 <= i < VIRTUAL_ROW_COUNT ==> g.virtual_extents()[i] == VIRTUAL_ROW_EXTENT,
            !g.settings.settings().notifications,
            g.settings.settings().username@ == Seq::<char>::empty(),
            forall|h: Handle| !g.entity_dirty(h),
    {
        let mut store: EntityStore<WidgetState> = EntityStore::new();
        let input = store.create(
            WidgetState::Input(InputModel::new("Type here...".to_string())),
        );
        let textarea = store.create(
            WidgetState::Input(InputModel::new("Write something...".to_string()).multi_line(4)),
        );
        let mut select_options: Vec<String> = Vec::new();
        select_options.push("Option A".to_string());
        select_options.push("Option B".to_string());
        select_options.push("Option C".to_string());
        let select_widget = store.create(
            WidgetState::Select(SelectModel::new(select_options).searchable()),
        );
        let date_picker = store.create(WidgetState::Date(DateModel::new()));
        let color_picker = store.create(WidgetState::Color(ColorModel::new()));
        let slider = store.create(
            WidgetState::Slider(SliderModel::new().default_value(35)),
        );
        let form_name = store.create(WidgetState::Input(InputModel::new("Name".to_string())));
        let form_email = store.create(WidgetState::Input(InputModel::new("Email".to_string())));
        let mut role_options: Vec<String> = Vec::new();
        role_options.push("Admin".to_string());
        role_options.push("Editor".to_string());
        role_options.push("Viewer".to_string());
        let form_role = store.create(WidgetState::Select(SelectModel::new(role_options)));
        let form_notes = store.create(
            WidgetState::Input(InputModel::new("Notes".to_string()).multi_line(3)),
        );
        let list = store.create(WidgetState::List(ListModel::new(12)));
        let table = store.create(WidgetState::Table(TableModel::sample()));
        let tree = store.create(WidgetState::Tree(sample_tree_items()));
        let root = store.create(WidgetState::Gallery(GalleryState::initial()));

        let mut router: SubscriptionRouter<GalleryCallback> = SubscriptionRouter::new();
        router.subscribe(slider, GALLERY_OWNER, GalleryCallback::SliderChanged);
        router.subscribe(color_picker, GALLERY_OWNER, GalleryCallback::ColorCommitted);

        let mut settings = SettingsRegistry::new();
        let _ = settings.init(Settings::default());

        let extents = ItemExtents::uniform(VIRTUAL_ROW_COUNT, VIRTUAL_ROW_EXTENT);

        let g = Gallery {
            store,
            router,
            settings,
            input,
            textarea,
            select_widget,
            date_picker,
            color_picker,
            slider,
            form_name,
            form_email,
            form_role,
            form_notes,
            list,
            table,
            tree,
            root,
            extents,
            destroyed: false,
        };
        proof {
            assert(g.router.subscriptions() =~= g.wired_subscriptions());
        }
        g
    }

    /// Reads the gallery's own state.
    pub fn snapshot(&self) -> (g: GalleryState)
        requires
            self.wf(),
            !self.is_destroyed(),
        ensures
            g == self.gallery_state(),
    {
        match self.store.read(self.root) {
            Ok(w) => match w {
                WidgetState::Gallery(g) => *g,
                _ => {
                    proof {
                        assert(false);
                    }
                    GalleryState::initial()
                },
            },
            Err(_) => {
                proof {
                    assert(false);
                }
                GalleryState::initial()
            },
        }
    }

    /// Borrows the state owned for `h`, as the sections do when they
    /// render a widget.
    pub fn read_widget(&self, h: Handle) -> (r: Result<&WidgetState, crate::CoreError>)
        requires
            self.wf(),
        ensures
            self.entity_valid(h) ==> (r matches Ok(w) && *w == self.widget(h)),
            !self.entity_valid(h) ==> (r matches Err(e) && e == crate::CoreError::NotFound),
    {
        self.store.read(h)
    }

    /// Replaces the gallery's own state through the store's update path,
    /// flagging it dirty. A destroyed gallery ignores the write.
    fn write_gallery_state(&mut self, new_state: GalleryState) -> (applied: bool)
        requires
            old(self).wf(),
        ensures
            final(self).wf(),
            applied == !old(self).is_destroyed(),
            old(self).is_destroyed() ==> *final(self) == *old(self),
            !old(self).is_destroyed() ==> gallery_state_updated(*old(self), *final(self), new_state),
    {
        if self.destroyed {
            return false;
        }
        let r = self.store.update(self.root, WidgetState::Gallery(new_state));
        proof {
            assert(r is Ok);
        }
        true
    }

    /// Delivers `event` from `source`: fixes the callback list for this
    /// emission (registration order), then applies each callback to the
    /// gallery state through the update path. Updates triggered by a
    /// callback can therefore never re-enter the emission pass. Returns
    /// how many callbacks ran; a destroyed gallery delivers none.
    pub fn handle_widget_event(&mut self, source: Handle, event: WidgetEvent) -> (delivered: usize)
        requires
            old(self).wf(),
        ensures
            final(self).wf(),
            old(self).is_destroyed() ==> *final(self) == *old(self) && delivered == 0,
            !old(self).is_destroyed() ==> {
                &&& delivered == delivery_order(old(self).subs(), source).len()
                &&& final(self).gallery_state() == apply_callbacks_spec(
                    old(self).gallery_state(),
                    delivery_order(old(self).subs(), source),
                    event,
                )
                &&& delivered > 0 ==> final(self).entity_dirty(final(self).root)
                &&& delivered == 0 ==> *final(self) == *old(self)
                &&& gallery_framed(*old(self), *final(self))
                &&& forall|h: Handle|
                    h.id != old(self).root.id ==> final(self).entity_dirty(h) == old(
                        self,
                    ).entity_dirty(h)
                &&& forall|h: Handle|
                    h.id != old(self).root.id && old(self).entity_valid(h) ==> final(self).widget(
                        h,
                    ) == old(self).widget(h)
            },
    {
        if self.destroyed {
            return 0;
        }
        let callbacks = self.router.emit(source);
        let ghost g0 = *self;
        let n = callbacks.len();
        let mut i: usize = 0;
        while i < n
            invariant
                self.wf(),
                !self.is_destroyed(),
                n == callbacks@.len(),
                i <= n,
                callbacks@ == delivery_order(g0.subs(), source),
                self.gallery_state() == apply_callbacks_spec(
                    g0.gallery_state(),
                    callbacks@.take(i as int),
                    event,
                ),
                i > 0 ==> self.entity_dirty(self.root),
                i == 0 ==> *self == g0,
                gallery_framed(g0, *self),
                forall|h: Handle|
                    h.id != g0.root.id ==> self.entity_dirty(h) == g0.entity_dirty(h),
                forall|h: Handle|
                    h.id != g0.root.id && g0.entity_valid(h) ==> self.widget(h) == g0.widget(h),
            decreases n - i,
        {
            let cb = callbacks[i];
            let g = self.snapshot();
            let g2 = apply_one_callback(g, cb, event);
            self.write_gallery_state(g2);
            proof {
                let taken = callbacks@.take(i + 1);
                assert(taken.drop_last() =~= callbacks@.take(i as int));
                assert(taken.last() == callbacks@[i as int]);
            }
            i += 1;
        }
        proof {
            assert(callbacks@.take(n as int) =~= callbacks@);
        }
        n
    }

    /// The slider widget moved: its own state updates first (clamped into
    /// its bounds), then the change event goes through the router, which
    /// sets the gallery's volume and derived progress. Returns how many
    /// callbacks the emission delivered (one: the gallery's).
    pub fn slider_moved(&mut self, value: u64) -> (delivered: usize)
        requires
            old(self).wf(),
        ensures
            final(self).wf(),
            old(self).is_destroyed() ==> *final(self) == *old(self) && delivered == 0,
            !old(self).is_destroyed() ==> {
                &&& delivered == 1
                &&& final(self).slider_model().value == clamp_to(value, 0, 100)
                &&& final(self).gallery_state() == (GalleryState {
                    slider_value: clamp_to(value, 0, 100),
                    progress_value: clamp_to(value, 0, 100),
                    ..old(self).gallery_state()
                })
                &&& final(self).entity_dirty(final(self).root)
                &&& final(self).entity_dirty(final(self).slider)
                &&& gallery_framed(*old(self), *final(self))
            },
    {
        if self.destroyed {
            return 0;
        }
        let mut m = match self.store.read(self.slider) {
            Ok(w) => match w {
                WidgetState::Slider(m) => *m,
                _ => {
                    proof {
                        assert(false);
                    }
                    SliderModel::new()
                },
            },
            Err(_) => {
                proof {
                    assert(false);
                }
                SliderModel::new()
            },
        };
        m.set_value(value);
        let clamped = m.value;
        let r = self.store.update(self.slider, WidgetState::Slider(m));
        proof {
            assert(r is Ok);
            lemma_wired_delivery(*self);
        }
        let ghost mid = *self;
        let delivered = self.handle_widget_event(
            self.slider,
            WidgetEvent::SliderChanged { value: clamped },
        );
        proof {
            let ev = WidgetEvent::SliderChanged { value: clamped };
            let cbs = delivery_order(mid.subs(), mid.slider);
            assert(cbs =~= seq![GalleryCallback::SliderChanged]);
            assert(cbs.drop_last() =~= Seq::<GalleryCallback>::empty());
            assert(apply_callbacks_spec(mid.gallery_state(), cbs.drop_last(), ev)
                == mid.gallery_state());
            assert(cbs.last() == GalleryCallback::SliderChanged);
            assert(apply_callbacks_spec(mid.gallery_state(), cbs, ev) == apply_callback_spec(
                mid.gallery_state(),
                GalleryCallback::SliderChanged,
                ev,
            ));
            assert(self.widget(self.slider) == mid.widget(mid.slider));
            assert(self.slider_model().value == clamped);
        }
        delivered
    }

    /// The color picker committed a color: its own state updates first,
    /// then the commit event goes through the router, which only requests
    /// a repaint. Returns how many callbacks the emission delivered.
    pub fn color_committed(&mut self, rgba: u32) -> (delivered: usize)
        requires
            old(self).wf(),
        ensures
            final(self).wf(),
            old(self).is_destroyed() ==> *final(self) == *old(self) && delivered == 0,
            !old(self).is_destroyed() ==> {
                &&& delivered == 1
                &&& final(self).widget(final(self).color_picker) matches WidgetState::Color(c)
                    && c.rgba == Some(rgba)
                &&& final(self).gallery_state() == old(self).gallery_state()
                &&& final(self).entity_dirty(final(self).root)
                &&& final(self).entity_dirty(final(self).color_picker)
                &&& gallery_framed(*old(self), *final(self))
            },
    {
        if self.destroyed {
            return 0;
        }
        let mut c = ColorModel::new();
        c.commit(rgba);
        let r = self.store.update(self.color_picker, WidgetState::Color(c));
        proof {
            assert(r is Ok);
            lemma_wired_delivery(*self);
        }
        let ghost mid = *self;
        let delivered = self.handle_widget_event(
            self.color_picker,
            WidgetEvent::ColorCommitted { rgba },
        );
        proof {
            let ev = WidgetEvent::ColorCommitted { rgba };
            let cbs = delivery_order(mid.subs(), mid.color_picker);
            assert(cbs =~= seq![GalleryCallback::ColorCommitted]);
            assert(cbs.drop_last() =~= Seq::<GalleryCallback>::empty());
            assert(apply_callbacks_spec(mid.gallery_state(), cbs.drop_last(), ev)
                == mid.gallery_state());
            assert(cbs.last() == GalleryCallback::ColorCommitted);
            assert(apply_callbacks_spec(mid.gallery_state(), cbs, ev) == apply_callback_spec(
                mid.gallery_state(),
                GalleryCallback::ColorCommitted,
                ev,
            ));
        }
        delivered
    }

    /// Serves one render pass: picks the single arrangement for the whole
    /// pass from the viewport width, computes the virtual-list rows that
    /// cover the scrolled window (over-rendered by at most one row per
    /// side), collects one dirty notification per changed entity, and
    /// clears the dirty flags so the next pass reports only newer changes.
    pub fn render_pass(&mut self, viewport: Viewport) -> (plan: RenderPlan)
        requires
            old(self).wf(),
        ensures
            final(self).wf(),
            plan.layout == select_spec(viewport.width, COMPACT_BREAKPOINT),
            plan.rows.first <= plan.rows.last <= old(self).virtual_extents().len(),
            extent_sum(old(self).virtual_extents(), plan.rows.first as int) <= (
            {
                let total = extent_sum(
                    old(self).virtual_extents(),
                    old(self).virtual_extents().len() as int,
                );
                if viewport.scroll_offset <= total {
                    viewport.scroll_offset as int
                } else {
                    total
                }
            }),
            extent_sum(old(self).virtual_extents(), plan.rows.last as int) >= (
            {
                let total = extent_sum(
                    old(self).virtual_extents(),
                    old(self).virtual_extents().len() as int,
                );
                if viewport.scroll_offset + VIRTUAL_REGION_EXTENT <= total {
                    viewport.scroll_offset + VIRTUAL_REGION_EXTENT
                } else {
                    total
                }
            }),
            forall|h: Handle| plan.dirty@.contains(h) <==> old(self).entity_dirty(h),
            forall|a: int, b: int|
                0 <= a < b < plan.dirty@.len() ==> plan.dirty@[a].id < plan.dirty@[b].id,
            forall|h: Handle| !final(self).entity_dirty(h),
            gallery_framed(*old(self), *final(self)),
            forall|h: Handle| final(self).entity_valid(h) == old(self).entity_valid(h),
            forall|h: Handle|
                old(self).entity_valid(h) ==> final(self).widget(h) == old(self).widget(h),
    {
        let layout = select(viewport.width, COMPACT_BREAKPOINT);
        let rows = self.extents.visible_range_with_margin(
            viewport.scroll_offset,
            VIRTUAL_REGION_EXTENT,
        );
        let dirty = self.store.dirty_handles();
        self.store.clear_dirty();
        RenderPlan { layout, rows, dirty }
    }

    /// Whether the deferred markdown task still has work to do.
    pub fn markdown_pending(&self) -> (pending: bool)
        requires
            self.wf(),
            !self.is_destroyed(),
        ensures
            pending == !self.gallery_state().markdown_ready,
    {
        let g = self.snapshot();
        !g.markdown_ready
    }

    /// The single rejoin point of the deferred background timer: marks the
    /// auxiliary markdown content ready through the regular update path.
    /// Firing after the gallery was destroyed is a silent no-op — the
    /// handle validity check turns the stale continuation into nothing.
    pub fn markdown_timer_fired(&mut self)
        requires
            old(self).wf(),
        ensures
            final(self).wf(),
            old(self).is_destroyed() ==> *final(self) == *old(self),
            !old(self).is_destroyed() ==> gallery_state_updated(
                *old(self),
                *final(self),
                (GalleryState { markdown_ready: true, ..old(self).gallery_state() }),
            ),
    {
        if !self.active() {
            return ;
        }
        let mut g = self.snapshot();
        g.markdown_ready = true;
        self.write_gallery_state(g);
    }

    /// Destroys the orchestrator: removes every subscription it
    /// registered and destroys every entity it created. Safe to repeat.
    /// Afterwards no handle is live, no callback can be delivered, and a
    /// deferred task that fires later finds only a silent no-op.
    pub fn destroy(&mut self)
        requires
            old(self).wf(),
        ensures
            final(self).wf(),
            final(self).is_destroyed(),
            final(self).subscription_count() == 0,
            forall|h: Handle| !final(self).entity_valid(h),
            forall|h: Handle| !final(self).entity_dirty(h),
    {
        proof {
            if !self.destroyed {
                lemma_all_wired_owned(*self);
            }
            crate::router::lemma_unsubscribe_all_silences(
                self.router.subscriptions(),
                GALLERY_OWNER,
                self.slider,
            );
        }
        self.router.unsubscribe_all(GALLERY_OWNER);
        self.store.destroy(self.input);
        self.store.destroy(self.textarea);
        self.store.destroy(self.select_widget);
        self.store.destroy(self.date_picker);
        self.store.destroy(self.color_picker);
        self.store.destroy(self.slider);
        self.store.destroy(self.form_name);
        self.store.destroy(self.form_email);
        self.store.destroy(self.form_role);
        self.store.destroy(self.form_notes);
        self.store.destroy(self.list);
        self.store.destroy(self.table);
        self.store.destroy(self.tree);
        self.store.destroy(self.root);
        self.destroyed = true;
        proof {
            assert forall|h: Handle| !self.store.valid(h) && !self.store.is_dirty(h) by {
                self.store.lemma_valid_in_range(h);
                self.store.lemma_dirty_in_range(h);
                if h.id < GALLERY_ENTITY_COUNT {
                    if h.id == 0 {
                        assert(h == self.input);
                    } else if h.id == 1 {
                        assert(h == self.textarea);
                    } else if h.id == 2 {
                        assert(h == self.select_widget);
                    } else if h.id == 3 {
                        assert(h == self.date_picker);
                    } else if h.id == 4 {
                        assert(h == self.color_picker);
                    } else if h.id == 5 {
                        assert(h == self.slider);
                    } else if h.id == 6 {
                        assert(h == self.form_name);
                    } else if h.id == 7 {
                        assert(h == self.form_email);
                    } else if h.id == 8 {
                        assert(h == self.form_role);
                    } else if h.id == 9 {
                        assert(h == self.form_notes);
                    } else if h.id == 10 {
                        assert(h == self.list);
                    } else if h.id == 11 {
                        assert(h == self.table);
                    } else if h.id == 12 {
                        assert(h == self.tree);
                    } else {
                        assert(h == self.root);
                    }
                }
            }
        }
    }

    /// Sets whether the agreement checkbox is checked.
    pub fn set_checkbox(&mut self, checked: bool) -> (applied: bool)
        requires
            old(self).wf(),
        ensures
            setter_contract(
                *old(self),
                *final(self),
                applied,
                (GalleryState { checkbox_checked: checked, ..old(self).gallery_state() }),
            ),
    {
        if !self.active() {
            return false;
        }
        let mut g = self.snapshot();
        g.checkbox_checked = checked;
        self.write_gallery_state(g)
    }

    /// Sets whether the switch is on.
    pub fn set_switch(&mut self, on: bool) -> (applied: bool)
        requires
            old(self).wf(),
        ensures
            setter_contract(
                *old(self),
                *final(self),
                applied,
                (GalleryState { switch_on: on, ..old(self).gallery_state() }),
            ),
    {
        if !self.active() {
            return false;
        }
        let mut g = self.snapshot();
        g.switch_on = on;
        self.write_gallery_state(g)
    }

    /// Sets which of the two radio options is chosen (`true` for the
    /// first).
    pub fn set_radio(&mut self, first: bool) -> (applied: bool)
        requires
            old(self).wf(),
        ensures
            setter_contract(
                *old(self),
                *final(self),
                applied,
                (GalleryState { radio_checked: first, ..old(self).gallery_state() }),
            ),
    {
        if !self.active() {
            return false;
        }
        let mut g = self.snapshot();
        g.radio_checked = first;
        self.write_gallery_state(g)
    }

    /// Sets the rating.
    pub fn set_rating(&mut self, value: u64) -> (applied: bool)
        requires
            old(self).wf(),
        ensures
            setter_contract(
                *old(self),
                *final(self),
                applied,
                (GalleryState { rating_value: value, ..old(self).gallery_state() }),
            ),
    {
        if !self.active() {
            return false;
        }
        let mut g = self.snapshot();
        g.rating_value = value;
        self.write_gallery_state(g)
    }

    /// Sets the selected stepper step.
    pub fn set_stepper_step(&mut self, step: u64) -> (applied: bool)
        requires
            old(self).wf(),
        ensures
            setter_contract(
                *old(self),
                *final(self),
                applied,
                (GalleryState { stepper_step: step, ..old(self).gallery_state() }),
            ),
    {
        if !self.active() {
            return false;
        }
        let mut g = self.snapshot();
        g.stepper_step = step;
        self.write_gallery_state(g)
    }

    /// Sets the current pagination page.
    pub fn set_pagination_page(&mut self, page: u64) -> (applied: bool)
        requires
            old(self).wf(),
        ensures
            setter_contract(
                *old(self),
                *final(self),
                applied,
                (GalleryState { pagination_page: page, ..old(self).gallery_state() }),
            ),
    {
        if !self.active() {
            return false;
        }
        let mut g = self.snapshot();
        g.pagination_page = page;
        self.write_gallery_state(g)
    }

    /// Sets the selected tab.
    pub fn set_tab_index(&mut self, ix: u64) -> (applied: bool)
        requires
            old(self).wf(),
        ensures
            setter_contract(
                *old(self),
                *final(self),
                applied,
                (GalleryState { tab_index: ix, ..old(self).gallery_state() }),
            ),
    {
        if !self.active() {
            return false;
        }
        let mut g = self.snapshot();
        g.tab_index = ix;
        self.write_gallery_state(g)
    }

    /// Opens or closes the collapsible section.
    pub fn toggle_collapsible(&mut self) -> (applied: bool)
        requires
            old(self).wf(),
        ensures
            setter_contract(
                *old(self),
                *final(self),
                applied,
                (GalleryState {
                    collapsible_open: !old(self).gallery_state().collapsible_open,
                    ..old(self).gallery_state()
                }),
            ),
    {
        if !self.active() {
            return false;
        }
        let mut g = self.snapshot();
        g.collapsible_open = !g.collapsible_open;
        self.write_gallery_state(g)
    }

    /// Sets whether the form subscribes to email updates.
    pub fn set_form_subscribe(&mut self, subscribe: bool) -> (applied: bool)
        requires
            old(self).wf(),
        ensures
            setter_contract(
                *old(self),
                *final(self),
                applied,
                (GalleryState { form_subscribe: subscribe, ..old(self).gallery_state() }),
            ),
    {
        if !self.active() {
            return false;
        }
        let mut g = self.snapshot();
        g.form_subscribe = subscribe;
        self.write_gallery_state(g)
    }

    /// Collapses or expands the sidebar.
    pub fn toggle_sidebar_collapsed(&mut self) -> (applied: bool)
        requires
            old(self).wf(),
        ensures
            setter_contract(
                *old(self),
                *final(self),
                applied,
                (GalleryState {
                    sidebar_collapsed: !old(self).gallery_state().sidebar_collapsed,
                    ..old(self).gallery_state()
                }),
            ),
    {
        if !self.active() {
            return false;
        }
        let mut g = self.snapshot();
        g.sidebar_collapsed = !g.sidebar_collapsed;
        self.write_gallery_state(g)
    }

    /// Moves the sidebar to the other side.
    pub fn toggle_sidebar_side(&mut self) -> (applied: bool)
        requires
            old(self).wf(),
        ensures
            setter_contract(
                *old(self),
                *final(self),
                applied,
                (GalleryState {
                    sidebar_side_right: !old(self).gallery_state().sidebar_side_right,
                    ..old(self).gallery_state()
                }),
            ),
    {
        if !self.active() {
            return false;
        }
        let mut g = self.snapshot();
        g.sidebar_side_right = !g.sidebar_side_right;
        self.write_gallery_state(g)
    }

    /// Records what the menu last did.
    pub fn set_menu_message(&mut self, message: MenuMessage) -> (applied: bool)
        requires
            old(self).wf(),
        ensures
            setter_contract(
                *old(self),
                *final(self),
                applied,
                (GalleryState { menu_message: message, ..old(self).gallery_state() }),
            ),
    {
        if !self.active() {
            return false;
        }
        let mut g = self.snapshot();
        g.menu_message = message;
        self.write_gallery_state(g)
    }
}

/// The composition around the entity values is unchanged: same handles,
/// same subscriptions, same extents, same settings, same liveness.
pub open spec fn gallery_framed(pre: Gallery, post: Gallery) -> bool {
    &&& post.input == pre.input
    &&& post.textarea == pre.textarea
    &&& post.select_widget == pre.select_widget
    &&& post.date_picker == pre.date_picker
    &&& post.color_picker == pre.color_picker
    &&& post.slider == pre.slider
    &&& post.form_name == pre.form_name
    &&& post.form_email == pre.form_email
    &&& post.form_role == pre.form_role
    &&& post.form_notes == pre.form_notes
    &&& post.list == pre.list
    &&& post.table == pre.table
    &&& post.tree == pre.tree
    &&& post.root == pre.root
    &&& post.subs() == pre.subs()
    &&& post.virtual_extents() == pre.virtual_extents()
    &&& post.settings == pre.settings
    &&& post.is_destroyed() == pre.is_destroyed()
    &&& forall|h: Handle| post.entity_valid(h) == pre.entity_valid(h)
}

/// What one successful gallery-state write does: the gallery state
/// becomes `new_state` and is flagged dirty; every other entity, the
/// subscriptions and the composition stay as they were.
pub open spec fn gallery_state_updated(pre: Gallery, post: Gallery, new_state: GalleryState) -> bool {
    &&& post.wf()
    &&& !post.is_destroyed()
    &&& gallery_framed(pre, post)
    &&& post.gallery_state() == new_state
    &&& post.entity_dirty(post.root)
    &&& forall|h: Handle| h.id != pre.root.id ==> post.entity_dirty(h) == pre.entity_dirty(h)
    &&& forall|h: Handle|
        h.id != pre.root.id && pre.entity_valid(h) ==> post.widget(h) == pre.widget(h)
}

/// Contract shared by the click-handler setters: a live gallery applies
/// the new state and reports it; a destroyed one changes nothing.
pub open spec fn setter_contract(
    pre: Gallery,
    post: Gallery,
    applied: bool,
    new_state: GalleryState,
) -> bool {
    &&& post.wf()
    &&& applied == !pre.is_destroyed()
    &&& pre.is_destroyed() ==> post == pre
    &&& !pre.is_destroyed() ==> gallery_state_updated(pre, post, new_state)
}

/// One callback applied to the gallery state, executably.
fn apply_one_callback(g: GalleryState, cb: GalleryCallback, event: WidgetEvent) -> (g2:
    GalleryState)
    ensures
        g2 == apply_callback_spec(g, cb, event),
{
    match cb {
        GalleryCallback::SliderChanged => match event {
            WidgetEvent::SliderChanged { value } => {
                let progress = if value > 100 {
                    100
                } else {
                    value
                };
                GalleryState { slider_value: value, progress_value: progress, ..g }
            },
            _ => g,
        },
        GalleryCallback::ColorCommitted => g,
    }
}

/// In a live gallery the wired subscriptions deliver exactly one callback
/// for the slider, one for the color picker, and none for any other
/// source.
proof fn lemma_wired_delivery(g: Gallery)
    requires
        g.wf(),
        !g.is_destroyed(),
    ensures
        delivery_order(g.subs(), g.slider) == seq![GalleryCallback::SliderChanged],
        delivery_order(g.subs(), g.color_picker) == seq![GalleryCallback::ColorCommitted],
        forall|h: Handle|
            h.id != g.slider.id && h.id != g.color_picker.id ==> delivery_order(
                g.subs(),
                h,
            ).len() == 0,
{
    let s = g.wired_subscriptions();
    let short = seq![s[0]];
    let empty = Seq::<Subscription<GalleryCallback>>::empty();
    assert(g.subs() == s);
    assert(s.len() == 2);
    assert(s.drop_last() =~= short);
    assert(short.drop_last() =~= empty);
    assert(g.slider != g.color_picker);
    assert(delivery_order(empty, g.slider) =~= Seq::<GalleryCallback>::empty());
    assert(delivery_order(short, g.slider) =~= seq![GalleryCallback::SliderChanged]);
    assert(delivery_order(s, g.slider) =~= seq![GalleryCallback::SliderChanged]);
    assert(delivery_order(empty, g.color_picker) =~= Seq::<GalleryCallback>::empty());
    assert(delivery_order(short, g.color_picker) =~= Seq::<GalleryCallback>::empty());
    assert(delivery_order(s, g.color_picker) =~= seq![GalleryCallback::ColorCommitted]);
    assert forall|h: Handle|
        h.id != g.slider.id && h.id != g.color_picker.id implies delivery_order(
        g.subs(),
        h,
    ).len() == 0 by {
        assert(s.last().source != h);
        assert(s[0].source != h);
        assert(delivery_order(empty, h) =~= Seq::<GalleryCallback>::empty());
        assert(delivery_order(short, h) =~= Seq::<GalleryCallback>::empty());
        assert(delivery_order(s, h) =~= Seq::<GalleryCallback>::empty());
    }
}

/// Every wired subscription belongs to the gallery owner.
proof fn lemma_all_wired_owned(g: Gallery)
    requires
        g.wf(),
        !g.is_destroyed(),
    ensures
        forall|k: int|
            0 <= k < g.subs().len() ==> (#[trigger] g.subs()[k]).owner == GALLERY_OWNER,
{
    assert(g.subs() == g.wired_subscriptions());
}

} // verus!
