//! The application loop's state machine.
//!
//! A shell around this crate polls the event source, hands each event to
//! [`App::process_event`], then repeatedly calls [`App::dispatch_next`] and
//! performs the returned directives against the terminal, until the queue
//! is empty — so every action enqueued as a consequence of one event is
//! applied before the next event is awaited.  The shell then reads
//! [`App::should_suspend`] and [`App::should_quit`] and releases or tears
//! down the terminal surface; those two I/O steps are the only decisions
//! not taken here.
use vstd::prelude::*;

verus! {

use crate::action::Action;
use crate::action::ActionModel;
use crate::action::action_seq_view;
use crate::channel::ActionChannel;
use crate::channel::channel_actions;
use crate::components::ComponentsModel;
use crate::components::FocusableComponents;
use crate::components::Panel;
use crate::components::PanelModel;
use crate::components::collect_emits;
use crate::components::lemma_no_emits;
use crate::components::next_focus;
use crate::components::panel_step;
use crate::components::previous_focus;
use crate::components::with_focus;
use crate::components::extent::Extent;
use crate::components::fields::Fields;
use crate::components::fields::FieldsPanelModel;
use crate::components::layers::LayerList;
use crate::components::layers::LayerListModel;
use crate::components::srs::ScrollOffset;
use crate::components::srs::Srs;
use crate::components::srs::SrsPanelModel;
use crate::data::LayerInfo;
use crate::data::layer_seq_view;
use crate::key::Key;
use crate::key::KeyCode;
use crate::keymap::BindingModel;
use crate::keymap::Keymap;
use crate::keymap::Mode;
use crate::keymap::resolve_spec;

/// One raw event from the event source: a lazy, unbounded sequence of
/// tagged terminal and lifecycle events, polled one at a time by the loop
/// shell.
#[derive(Clone, Copy, Debug, PartialEq, Eq, Structural)]
pub enum Event {
    Quit,
    Tick,
    Render,
    Resize(u16, u16),
    Key(Key),
    Suspend,
}

/// One instruction to the terminal shell, handed out by the state machine
/// in the order the shell must perform them.
#[derive(Clone, Copy, Debug, PartialEq, Eq, Structural)]
pub enum Directive {
    /// Resize the rendering surface to the given width and height.
    ResizeSurface(u16, u16),
    /// Draw every panel into the current surface.
    Redraw,
}

/// Mathematical image of the whole application state.
pub struct AppModel {
    pub components: ComponentsModel,
    pub keymap: Seq<BindingModel>,
    pub mode: Mode,
    pub should_quit: bool,
    pub should_suspend: bool,
    pub pending: Seq<Key>,
    pub queue: Seq<ActionModel>,
    pub surface_width: u16,
    pub surface_height: u16,
}

impl AppModel {
    /// The panel set is consistent.
    pub open spec fn wf(self) -> bool {
        self.components.wf()
    }
}

/// Effect of one action on the loop's own state, before the panels see it:
/// a tick discards the pending key sequence; quit, suspend and resume move
/// the lifecycle flags; the focus actions turn the focus ring; entering a
/// panel's context moves the mode; a resize records the new surface size
/// and demands an immediate resize and redraw; a render demands a redraw;
/// every other action is the panels' business alone.
pub open spec fn apply_global(s: AppModel, a: ActionModel) -> (AppModel, Seq<Directive>) {
    match a {
        ActionModel::Tick => (AppModel { pending: Seq::empty(), ..s }, Seq::empty()),
        ActionModel::Quit => (AppModel { should_quit: true, ..s }, Seq::empty()),
        ActionModel::Suspend => (AppModel { should_suspend: true, ..s }, Seq::empty()),
        ActionModel::Resume => (AppModel { should_suspend: false, ..s }, Seq::empty()),
        ActionModel::EnterSrs => (AppModel { mode: Mode::Srs, ..s }, Seq::empty()),
        ActionModel::EnterExtent => (AppModel { mode: Mode::Extent, ..s }, Seq::empty()),
        ActionModel::NextFocusableMode => {
            let n = s.components.children.len() as int;
            let to = next_focus(s.components.focus_idx, n);
            (
                AppModel {
                    components: ComponentsModel {
                        children: Seq::new(
                            n as nat,
                            |j: int| with_focus(s.components.children[j], j == to),
                        ),
                        focus_idx: to,
                    },
                    ..s
                },
                Seq::empty(),
            )
        },
        ActionModel::PreviousFocusableMode => {
            let n = s.components.children.len() as int;
            let to = previous_focus(s.components.focus_idx, n);
            (
                AppModel {
                    components: ComponentsModel {
                        children: Seq::new(
                            n as nat,
                            |j: int| with_focus(s.components.children[j], j == to),
                        ),
                        focus_idx: to,
                    },
                    ..s
                },
                Seq::empty(),
            )
        },
        ActionModel::Resize(w, h) => (
            AppModel { surface_width: w, surface_height: h, ..s },
            seq![Directive::ResizeSurface(w, h), Directive::Redraw],
        ),
        ActionModel::Render => (s, seq![Directive::Redraw]),
        _ => (s, Seq::empty()),
    }
}

/// Effect of dispatching one action: the loop's own bookkeeping first,
/// then every panel reacts to the same action in stored order, and what
/// the panels emitted joins the back of the queue.
pub open spec fn step_action(s: AppModel, a: ActionModel) -> (AppModel, Seq<Directive>) {
    let (g, dirs) = apply_global(s, a);
    let stepped = Seq::new(
        g.components.children.len(),
        |j: int| panel_step(g.components.children[j], a),
    );
    let emits = collect_emits(g.components.children, a);
    (
        AppModel {
            components: ComponentsModel { children: stepped, focus_idx: g.components.focus_idx },
            queue: g.queue + emits,
            ..g
        },
        dirs,
    )
}

/// Effect of one drain step: the oldest queued action leaves the queue and
/// is dispatched as [`step_action`] says.
pub open spec fn dispatch_spec(s: AppModel) -> (AppModel, Seq<Directive>) {
    step_action(AppModel { queue: s.queue.skip(1), ..s }, s.queue[0])
}

/// The state and the directives after repeatedly dispatching the oldest
/// queued action, `fuel` steps at most; nothing, when `fuel` steps do not
/// empty the queue.
pub open spec fn drain_spec(s: AppModel, fuel: nat) -> Option<(AppModel, Seq<Directive>)>
    decreases fuel,
{
    if s.queue.len() == 0 {
        Option::Some((s, Seq::empty()))
    } else if fuel == 0 {
        Option::None
    } else {
        let (s1, d1) = dispatch_spec(s);
        match drain_spec(s1, (fuel - 1) as nat) {
            Option::None => Option::None,
            Option::Some((s2, d2)) => Option::Some((s2, d1 + d2)),
        }
    }
}

/// How many queued actions are selection moves.  Dispatching a selection
/// move emits only snapshot deliveries, so this count sinks by one; every
/// other dispatch emits nothing and shortens the queue: the pair of this
/// count and the queue length is the drain's termination measure.
pub open spec fn selection_moves(q: Seq<ActionModel>) -> nat
    decreases q.len(),
{
    if q.len() == 0 {
        0
    } else {
        (if q[0] is UpLayer || q[0] is DownLayer {
            1nat
        } else {
            0nat
        }) + selection_moves(q.skip(1))
    }
}

/// The selection moves of two queues in a row are those of each part.
pub proof fn lemma_selection_moves_add(a: Seq<ActionModel>, b: Seq<ActionModel>)
    ensures
        selection_moves(a + b) == selection_moves(a) + selection_moves(b),
    decreases a.len(),
{
    if a.len() == 0 {
        assert(a + b =~= b);
    } else {
        lemma_selection_moves_add(a.skip(1), b);
        assert((a + b).skip(1) =~= a.skip(1) + b);
    }
}

/// A queue of snapshot deliveries holds no selection move.
pub proof fn lemma_selection_moves_none(q: Seq<ActionModel>)
    requires
        forall|m: int| 0 <= m < q.len() ==> #[trigger] q[m] is PassLayerInfo,
    ensures
        selection_moves(q) == 0,
    decreases q.len(),
{
    if q.len() > 0 {
        assert forall|m: int| 0 <= m < q.skip(1).len() implies #[trigger] q.skip(1)[m]
            is PassLayerInfo by {
            assert(q.skip(1)[m] == q[m + 1]);
        }
        lemma_selection_moves_none(q.skip(1));
    }
}

/// The state a completed drain reached; meaningful only when the drain
/// completed.
pub open spec fn drained_state(o: Option<(AppModel, Seq<Directive>)>) -> AppModel {
    match o {
        Option::Some(p) => p.0,
        Option::None => arbitrary(),
    }
}

/// The directives a completed drain collected; meaningful only when the
/// drain completed.
pub open spec fn drained_dirs(o: Option<(AppModel, Seq<Directive>)>) -> Seq<Directive> {
    match o {
        Option::Some(p) => p.1,
        Option::None => arbitrary(),
    }
}

/// Effect of one raw event on the application state: lifecycle events
/// enqueue their matching action; a key press is resolved — the focus-ring
/// keys always win, then a single-key binding, then the accumulated
/// sequence — and the resolved action, if any, is enqueued.  Nothing else
/// changes until the queue is drained.
pub open spec fn process_event_spec(s: AppModel, e: Event) -> AppModel {
    match e {
        Event::Quit => AppModel { queue: s.queue.push(ActionModel::Quit), ..s },
        Event::Tick => AppModel { queue: s.queue.push(ActionModel::Tick), ..s },
        Event::Render => AppModel { queue: s.queue.push(ActionModel::Render), ..s },
        Event::Resize(w, h) => AppModel { queue: s.queue.push(ActionModel::Resize(w, h)), ..s },
        Event::Suspend => AppModel { queue: s.queue.push(ActionModel::Suspend), ..s },
        Event::Key(k) => {
            if k.code == KeyCode::Tab {
                AppModel { queue: s.queue.push(ActionModel::NextFocusableMode), ..s }
            } else if k.code == KeyCode::BackTab {
                AppModel { queue: s.queue.push(ActionModel::PreviousFocusableMode), ..s }
            } else {
                let resolved = resolve_spec(s.keymap, s.mode, s.pending, k);
                AppModel {
                    pending: resolved.1,
                    queue: match resolved.0 {
                        Option::Some(a) => s.queue.push(a),
                        Option::None => s.queue,
                    },
                    ..s
                }
            }
        },
    }
}

/// The orchestrator's state: the panels and their focus ring, the keymap,
/// the active mode, the lifecycle flags, the keys pending since the last
/// tick, the action queue and the last surface size asked for.
pub struct App {
    pub components: FocusableComponents,
    pub keymap: Keymap,
    pub mode: Mode,
    pub should_quit: bool,
    pub should_suspend: bool,
    pub last_tick_key_events: Vec<Key>,
    pub surface_width: u16,
    pub surface_height: u16,
    pub channel: ActionChannel,
}

impl View for App {
    type V = AppModel;

    open spec fn view(&self) -> AppModel {
        AppModel {
            components: self.components@,
            keymap: self.keymap@,
            mode: self.mode,
            should_quit: self.should_quit,
            should_suspend: self.should_suspend,
            pending: self.last_tick_key_events@,
            queue: action_seq_view(channel_actions(&self.channel)),
            surface_width: self.surface_width,
            surface_height: self.surface_height,
        }
    }
}

impl App {
    /// The application over the given layer snapshots and keymap: the four
    /// panels are built from the first layer, the layer list holds the
    /// focus, the mode is the layer list's, no key is pending, the queue
    /// is empty and no lifecycle flag is raised.
    pub fn new(layerinfos: Vec<LayerInfo>, keymap: Keymap) -> (r: App)
        requires
            layerinfos@.len() > 0,
        ensures
            r@.wf(),
            r@.components.children == seq![
                PanelModel::Layers(
                    LayerListModel {
                        layerinfos: layer_seq_view(layerinfos@),
                        is_focused: true,
                        selected: 0,
                    },
                ),
                PanelModel::Srs(
                    SrsPanelModel {
                        name: layerinfos@[0].srs@.name,
                        wkt: layerinfos@[0].srs@.wkt,
                        proj4: layerinfos@[0].srs@.proj4,
                        is_focused: false,
                        state: ScrollOffset { x: 0, y: 0 },
                    },
                ),
                PanelModel::Extent(
                    Extent {
                        xmin: layerinfos@[0].extent.xmin,
                        xmax: layerinfos@[0].extent.xmax,
                        ymin: layerinfos@[0].extent.ymin,
                        ymax: layerinfos@[0].extent.ymax,
                        focus: false,
                    },
                ),
                PanelModel::Fields(
                    FieldsPanelModel {
                        geom_field: layerinfos@[0].fields@.geom_field,
                        fields: layerinfos@[0].fields@.fields,
                        is_focused: false,
                    },
                ),
            ],
            r@.components.focus_idx == 0,
            r@.keymap == keymap@,
            r@.mode == Mode::LayerList,
            !r@.should_quit,
            !r@.should_suspend,
            r@.pending == Seq::<Key>::empty(),
            r@.queue == Seq::<ActionModel>::empty(),
            r@.surface_width == 0,
            r@.surface_height == 0,
    {
        let ghost lis = layerinfos@;
        let srs = Srs::from_layerinfo(&layerinfos[0]);
        let extent = Extent::from_layerinfo(&layerinfos[0]);
        let fields = Fields::from_layerinfo(&layerinfos[0]);
        let layers = LayerList::new(layerinfos);
        let mut children: Vec<Panel> = Vec::new();
        children.push(Panel::Layers(layers));
        children.push(Panel::Srs(srs));
        children.push(Panel::Extent(extent));
        children.push(Panel::Fields(fields));
        proof {
            assert(children@.map_values(|p: Panel| p@) =~= seq![
                PanelModel::Layers(
                    LayerListModel {
                        layerinfos: layer_seq_view(lis),
                        is_focused: true,
                        selected: 0,
                    },
                ),
                PanelModel::Srs(
                    SrsPanelModel {
                        name: lis[0].srs@.name,
                        wkt: lis[0].srs@.wkt,
                        proj4: lis[0].srs@.proj4,
                        is_focused: false,
                        state: ScrollOffset { x: 0, y: 0 },
                    },
                ),
                PanelModel::Extent(
                    Extent {
                        xmin: lis[0].extent.xmin,
                        xmax: lis[0].extent.xmax,
                        ymin: lis[0].extent.ymin,
                        ymax: lis[0].extent.ymax,
                        focus: false,
                    },
                ),
                PanelModel::Fields(
                    FieldsPanelModel {
                        geom_field: lis[0].fields@.geom_field,
                        fields: lis[0].fields@.fields,
                        is_focused: false,
                    },
                ),
            ]);
        }
        let components = FocusableComponents::new(children);
        let r = App {
            components,
            keymap,
            mode: Mode::LayerList,
            should_quit: false,
            should_suspend: false,
            last_tick_key_events: Vec::new(),
            surface_width: 0,
            surface_height: 0,
            channel: ActionChannel::new(),
        };
        proof {
            assert(r@.queue =~= Seq::<ActionModel>::empty());
        }
        r
    }

    /// Records the initial size of the rendering surface, once, before the
    /// loop starts.
    pub fn init(&mut self, width: u16, height: u16)
        ensures
            final(self)@ == (AppModel {
                surface_width: width,
                surface_height: height,
                ..old(self)@
            }),
    {
        self.surface_width = width;
        self.surface_height = height;
    }

    /// Takes one raw event, as [`process_event_spec`] says: the matching
    /// action, or the key's resolved action if any, joins the queue; a key
    /// press may also grow the pending sequence.  Every panel is offered
    /// the raw event too and may answer with a follow-up action.
    pub fn process_event(&mut self, event: &Event)
        requires
            old(self)@.wf(),
        ensures
            final(self)@ == process_event_spec(old(self)@, *event),
            final(self)@.wf(),
    {
        let ghost goal = process_event_spec(old(self)@, *event);
        match event {
            Event::Quit => {
                self.channel.push(Action::Quit);
                proof {
                    assert(self@.queue =~= goal.queue);
                }
            },
            Event::Tick => {
                self.channel.push(Action::Tick);
                proof {
                    assert(self@.queue =~= goal.queue);
                }
            },
            Event::Render => {
                self.channel.push(Action::Render);
                proof {
                    assert(self@.queue =~= goal.queue);
                }
            },
            Event::Resize(w, h) => {
                self.channel.push(Action::Resize(*w, *h));
                proof {
                    assert(self@.queue =~= goal.queue);
                }
            },
            Event::Suspend => {
                self.channel.push(Action::Suspend);
                proof {
                    assert(self@.queue =~= goal.queue);
                }
            },
            Event::Key(k) => {
                if k.code == KeyCode::Tab {
                    self.channel.push(Action::NextFocusableMode);
                    proof {
                        assert(self@.queue =~= goal.queue);
                    }
                } else if k.code == KeyCode::BackTab {
                    self.channel.push(Action::PreviousFocusableMode);
                    proof {
                        assert(self@.queue =~= goal.queue);
                    }
                } else {
                    let resolved = self.keymap.resolve(
                        self.mode,
                        &mut self.last_tick_key_events,
                        *k,
                    );
                    match resolved {
                        Some(a) => {
                            self.channel.push(a);
                            proof {
                                assert(self@.queue =~= goal.queue);
                            }
                        },
                        None => {
                            proof {
                                assert(self@.queue =~= goal.queue);
                            }
                        },
                    }
                }
            },
        }
        proof {
            assert(self@ == goal);
        }
        let ghost mid = *self;
        let mut i: usize = 0;
        while i < self.components.children.len()
            invariant
                *self == mid,
            decreases self.components.children.len() - i,
        {
            let panel: &Panel = &self.components.children[i];
            let out = panel.handle_event(event);
            match out {
                Some(a) => {
                    // The panels' contract says they translate no events,
                    // so this arm is provably never taken.
                    proof {
                        assert(false);
                    }
                    self.channel.push(a);
                },
                None => {},
            }
            i = i + 1;
        }
    }

    /// Dispatches the oldest queued action, as [`dispatch_spec`] says, and
    /// returns the directives the shell must now perform, in order;
    /// nothing, when the queue is empty.
    pub fn dispatch_next(&mut self) -> (r: Option<Vec<Directive>>)
        requires
            old(self)@.wf(),
        ensures
            final(self)@.wf(),
            old(self)@.queue.len() == 0 ==> r is None && final(self)@ == old(self)@,
            old(self)@.queue.len() > 0 ==> ({
                let (s2, dirs) = dispatch_spec(old(self)@);
                &&& r matches Some(d) && d@ == dirs
                &&& final(self)@ == s2
            }),
    {
        let popped = self.channel.try_pop();
        match popped {
            None => {
                proof {
                    assert(self@ == old(self)@);
                }
                None
            },
            Some(action) => {
                let ghost s1 = AppModel { queue: old(self)@.queue.skip(1), ..old(self)@ };
                proof {
                    assert(action_seq_view(channel_actions(&self.channel)) =~= old(
                        self,
                    )@.queue.skip(1));
                    assert(action@ == old(self)@.queue[0]);
                    assert(self@ == s1);
                }
                let ghost global = apply_global(s1, action@);
                let mut directives: Vec<Directive> = Vec::new();
                match &action {
                    Action::Tick => {
                        self.last_tick_key_events.clear();
                    },
                    Action::Quit => {
                        self.should_quit = true;
                    },
                    Action::Suspend => {
                        self.should_suspend = true;
                    },
                    Action::Resume => {
                        self.should_suspend = false;
                    },
                    Action::EnterSrs => {
                        self.mode = Mode::Srs;
                    },
                    Action::EnterExtent => {
                        self.mode = Mode::Extent;
                    },
                    Action::NextFocusableMode => {
                        let ghost cm = s1.components;
                        let ghost to = next_focus(cm.focus_idx, cm.children.len() as int);
                        let n = self.components.children.len();
                        proof {
                            assert(self@.components.children[n - 1] == self.components.children@[n
                                - 1]@);
                        }
                        let last: &Panel = &self.components.children[n - 1];
                        let last_focused = last.is_focused();
                        if last_focused {
                            proof {
                                assert(cm.focus_idx == cm.children.len() - 1);
                                assert(to == 0);
                            }
                            self.components.focus_first();
                        } else {
                            self.components.focus_next();
                        }
                        proof {
                            assert(self@.components.children =~= Seq::new(
                                cm.children.len(),
                                |j: int| with_focus(cm.children[j], j == to),
                            ));
                            assert(self@.components.children
                                =~= global.0.components.children);
                        }
                    },
                    Action::PreviousFocusableMode => {
                        let ghost cm = s1.components;
                        let ghost to = previous_focus(cm.focus_idx, cm.children.len() as int);
                        proof {
                            assert(self@.components.children[0] == self.components.children@[0]@);
                        }
                        let first: &Panel = &self.components.children[0];
                        let first_focused = first.is_focused();
                        if first_focused {
                            proof {
                                assert(cm.focus_idx == 0);
                                assert(to == cm.children.len() - 1);
                            }
                            self.components.focus_last();
                        } else {
                            self.components.focus_previous();
                        }
                        proof {
                            assert(self@.components.children =~= Seq::new(
                                cm.children.len(),
                                |j: int| with_focus(cm.children[j], j == to),
                            ));
                            assert(self@.components.children
                                =~= global.0.components.children);
                        }
                    },
                    Action::Resize(w, h) => {
                        self.surface_width = *w;
                        self.surface_height = *h;
                        directives.push(Directive::ResizeSurface(*w, *h));
                        directives.push(Directive::Redraw);
                    },
                    Action::Render => {
                        directives.push(Directive::Redraw);
                    },
                    _ => {},
                }
                proof {
                    assert(self@ == global.0);
                    assert(directives@ =~= global.1);
                }
                let emitted = self.components.update_all(&action);
                let ghost after_panels = AppModel {
                    components: ComponentsModel {
                        children: Seq::new(
                            global.0.components.children.len(),
                            |j: int| panel_step(global.0.components.children[j], action@),
                        ),
                        focus_idx: global.0.components.focus_idx,
                    },
                    ..global.0
                };
                proof {
                    assert(self@.components.children =~= after_panels.components.children);
                    assert(self@ == after_panels);
                }
                let ghost queue_base = action_seq_view(channel_actions(&self.channel));
                let ghost frame = *self;
                let mut k: usize = 0;
                while k < emitted.len()
                    invariant
                        k <= emitted.len(),
                        self.components == frame.components,
                        self.keymap == frame.keymap,
                        self.mode == frame.mode,
                        self.should_quit == frame.should_quit,
                        self.should_suspend == frame.should_suspend,
                        self.last_tick_key_events == frame.last_tick_key_events,
                        self.surface_width == frame.surface_width,
                        self.surface_height == frame.surface_height,
                        action_seq_view(channel_actions(&self.channel)) =~= queue_base
                            + action_seq_view(emitted@).subrange(0, k as int),
                    decreases emitted.len() - k,
                {
                    let ghost before = action_seq_view(channel_actions(&self.channel));
                    let next_action: &Action = &emitted[k];
                    self.channel.push(next_action.duplicate());
                    proof {
                        assert(action_seq_view(channel_actions(&self.channel)) =~= before.push(
                            emitted@[k as int]@,
                        ));
                        assert(action_seq_view(emitted@)[k as int] == emitted@[k as int]@);
                        assert(action_seq_view(emitted@).subrange(0, k + 1) =~= action_seq_view(
                            emitted@,
                        ).subrange(0, k as int).push(emitted@[k as int]@));
                    }
                    k = k + 1;
                }
                proof {
                    assert(action_seq_view(emitted@).subrange(
                        0,
                        emitted@.len() as int,
                    ) =~= action_seq_view(emitted@));
                    assert(action_seq_view(channel_actions(&self.channel)) =~= queue_base
                        + collect_emits(global.0.components.children, action@));
                    let (s2, dirs) = dispatch_spec(old(self)@);
                    assert(self@.components.children =~= s2.components.children);
                    assert(self@.queue =~= s2.queue);
                    assert(self@ == s2);
                    assert(directives@ =~= dirs);
                }
                Some(directives)
            },
        }
    }

    /// Dispatches queued actions until the queue is empty, collecting every
    /// directive in order: the final state is one that repeated single
    /// dispatch steps reach, as [`drain_spec`] says.
    pub fn drain(&mut self) -> (directives: Vec<Directive>)
        requires
            old(self)@.wf(),
        ensures
            final(self)@.wf(),
            final(self)@.queue.len() == 0,
            exists|fuel: nat|
                drain_spec(old(self)@, fuel) == Option::Some((final(self)@, directives@)),
    {
        let mut directives: Vec<Directive> = Vec::new();
        let ghost mut steps: nat = 0;
        proof {
            assert forall|fuel: nat| #[trigger] drain_spec(self@, fuel) is Some implies drain_spec(
                old(self)@,
                fuel + steps,
            ) == Option::Some(
                (drained_state(drain_spec(self@, fuel)), directives@ + drained_dirs(drain_spec(self@, fuel))),
            ) by {
                assert(directives@ + drained_dirs(drain_spec(self@, fuel)) =~= drained_dirs(
                    drain_spec(self@, fuel),
                ));
            }
        }
        while !self.channel.is_empty()
            invariant
                self@.wf(),
                forall|fuel: nat|
                    #[trigger] drain_spec(self@, fuel) is Some ==> drain_spec(
                        old(self)@,
                        fuel + steps,
                    ) == Option::Some(
                        (
                            drained_state(drain_spec(self@, fuel)),
                            directives@ + drained_dirs(drain_spec(self@, fuel)),
                        ),
                    ),
            decreases selection_moves(self@.queue), self@.queue.len(),
        {
            let ghost pre = self@;
            let ghost dirs_pre = directives@;
            let stepped = self.dispatch_next();
            match stepped {
                None => {
                    // The queue was just seen nonempty, so a dispatch step
                    // cannot come back empty-handed.
                    proof {
                        assert(false);
                    }
                },
                Some(d) => {
                    let mut m: usize = 0;
                    while m < d.len()
                        invariant
                            m <= d.len(),
                            directives@ =~= dirs_pre + d@.subrange(0, m as int),
                        decreases d.len() - m,
                    {
                        proof {
                            assert(d@.subrange(0, m + 1) =~= d@.subrange(0, m as int).push(
                                d@[m as int],
                            ));
                        }
                        directives.push(d[m]);
                        m = m + 1;
                    }
                    proof {
                        assert(d@.subrange(0, d@.len() as int) =~= d@);
                        assert(directives@ =~= dirs_pre + d@);
                        steps = steps + 1;
                        assert forall|fuel: nat|
                            #[trigger] drain_spec(self@, fuel) is Some implies drain_spec(
                            old(self)@,
                            fuel + steps,
                        ) == Option::Some(
                            (
                                drained_state(drain_spec(self@, fuel)),
                                directives@ + drained_dirs(drain_spec(self@, fuel)),
                            ),
                        ) by {
                            let t = drained_state(drain_spec(self@, fuel));
                            let rest = drained_dirs(drain_spec(self@, fuel));
                            assert(drain_spec(pre, fuel + 1) == Option::Some((t, d@ + rest)));
                            assert(dirs_pre + (d@ + rest) =~= directives@ + rest);
                        }
                        let a0 = pre.queue[0];
                        let s1 = AppModel { queue: pre.queue.skip(1), ..pre };
                        let g = apply_global(s1, a0).0;
                        let emits = collect_emits(g.components.children, a0);
                        assert(self@.queue == pre.queue.skip(1) + emits);
                        lemma_selection_moves_add(pre.queue.skip(1), emits);
                        if a0 is UpLayer || a0 is DownLayer {
                            crate::components::lemma_emits_are_payloads(
                                g.components.children,
                                a0,
                            );
                            lemma_selection_moves_none(emits);
                            assert(selection_moves(self@.queue) < selection_moves(pre.queue));
                        } else {
                            lemma_no_emits(g.components.children, a0);
                            assert(emits =~= Seq::<ActionModel>::empty());
                            assert(self@.queue =~= pre.queue.skip(1));
                            assert(selection_moves(self@.queue) == selection_moves(pre.queue));
                            assert(self@.queue.len() < pre.queue.len());
                        }
                    }
                },
            }
        }
        proof {
            assert(drain_spec(self@, 0) == Option::Some((self@, Seq::<Directive>::empty())));
            assert(directives@ + Seq::<Directive>::empty() =~= directives@);
            assert(drain_spec(old(self)@, 0 + steps) == Option::Some((self@, directives@)));
        }
        directives
    }

    /// Announces that the shell is about to re-acquire the terminal after a
    /// suspension: a resume action joins the queue, so the next drain
    /// lowers the suspend flag.
    pub fn begin_resume(&mut self)
        ensures
            final(self)@ == (AppModel {
                queue: old(self)@.queue.push(ActionModel::Resume),
                ..old(self)@
            }),
    {
        self.channel.push(Action::Resume);
        proof {
            assert(self@.queue =~= old(self)@.queue.push(ActionModel::Resume));
        }
    }

    /// Routes a panel's draw failure back through the queue as an error
    /// action, so one panel's failure is observed without stopping the
    /// loop or its siblings.
    pub fn report_draw_error(&mut self, message: String)
        ensures
            final(self)@ == (AppModel {
                queue: old(self)@.queue.push(ActionModel::Error(message@)),
                ..old(self)@
            }),
    {
        let ghost msg = message@;
        self.channel.push(Action::Error(message));
        proof {
            assert(self@.queue =~= old(self)@.queue.push(ActionModel::Error(msg)));
        }
    }
}

/// A tick always empties the pending key sequence, whatever it held.
pub proof fn lemma_tick_clears_pending(s: AppModel)
    ensures
        step_action(s, ActionModel::Tick).0.pending == Seq::<Key>::empty(),
{
}

/// A resize followed at once by a render: the resize step records the new
/// surface size and demands a resize and a redraw, the render step demands
/// a redraw, and the recorded size is still the requested one.  No step in
/// between can fail.
pub proof fn lemma_resize_then_render(s: AppModel, w: u16, h: u16)
    ensures
        ({
            let (s1, d1) = step_action(s, ActionModel::Resize(w, h));
            let (s2, d2) = step_action(s1, ActionModel::Render);
            &&& d1 == seq![Directive::ResizeSurface(w, h), Directive::Redraw]
            &&& s1.surface_width == w && s1.surface_height == h
            &&& d2 == seq![Directive::Redraw]
            &&& s2.surface_width == w && s2.surface_height == h
        }),
{
}

/// Panels do not react to lifecycle actions: suspend and resume leave
/// every panel exactly as it was.
pub proof fn lemma_panels_ignore(cs: Seq<PanelModel>, a: ActionModel)
    requires
        a is Suspend || a is Resume,
    ensures
        Seq::new(cs.len(), |j: int| panel_step(cs[j], a)) =~= cs,
{
    assert forall|j: int| 0 <= j < cs.len() implies panel_step(cs[j], a) == cs[j] by {
        match cs[j] {
            PanelModel::Layers(l) => {},
            PanelModel::Srs(p) => {},
            PanelModel::Extent(e) => {},
            PanelModel::Fields(f) => {},
        }
    }
}

/// A suspend-resume round trip leaves the mode, every panel's state, the
/// pending keys, the queue and the surface size exactly as they were; only
/// the lifecycle flags move, and the suspend flag ends lowered.
pub proof fn lemma_suspend_resume_round_trip(s: AppModel)
    ensures
        ({
            let s1 = step_action(s, ActionModel::Suspend).0;
            let s2 = step_action(s1, ActionModel::Resume).0;
            &&& s2.components == s.components
            &&& s2.mode == s.mode
            &&& s2.keymap == s.keymap
            &&& s2.pending == s.pending
            &&& s2.queue == s.queue
            &&& s2.surface_width == s.surface_width
            &&& s2.surface_height == s.surface_height
            &&& s2.should_quit == s.should_quit
            &&& !s2.should_suspend
        }),
{
    let s1 = step_action(s, ActionModel::Suspend).0;
    let s2 = step_action(s1, ActionModel::Resume).0;
    lemma_panels_ignore(s.components.children, ActionModel::Suspend);
    lemma_no_emits(s.components.children, ActionModel::Suspend);
    assert(s1.components.children =~= s.components.children);
    assert(s1.queue =~= s.queue);
    lemma_panels_ignore(s1.components.children, ActionModel::Resume);
    lemma_no_emits(s1.components.children, ActionModel::Resume);
    assert(s2.components.children =~= s.components.children);
    assert(s2.queue =~= s.queue);
    assert(s2.components == s.components);
}

} // verus!
