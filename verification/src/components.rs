//! The set of panels and the focus ring over them.
use vstd::prelude::*;

pub mod extent;
pub mod fields;
pub mod layers;
pub mod srs;

verus! {

use crate::action::Action;
use crate::action::ActionModel;
use crate::action::action_seq_view;
use crate::action::opt_action_view;
use crate::app::Event;
use crate::components::extent::Extent;
use crate::components::extent::extent_step;
use crate::components::fields::Fields;
use crate::components::fields::FieldsPanelModel;
use crate::components::fields::fields_step;
use crate::components::layers::LayerList;
use crate::components::layers::LayerListModel;
use crate::components::layers::layers_emit;
use crate::components::layers::layers_step;
use crate::components::srs::Srs;
use crate::components::srs::SrsPanelModel;
use crate::components::srs::srs_step;

/// One panel of the interface.  The application loop only ever drives a
/// panel through the uniform operations below and never reaches into a
/// concrete panel's state.
#[derive(Clone, Debug, PartialEq)]
pub enum Panel {
    Layers(LayerList),
    Srs(Srs),
    Extent(Extent),
    Fields(Fields),
}

/// Mathematical image of a [`Panel`] value.
pub enum PanelModel {
    Layers(LayerListModel),
    Srs(SrsPanelModel),
    Extent(Extent),
    Fields(FieldsPanelModel),
}

impl View for Panel {
    type V = PanelModel;

    open spec fn view(&self) -> PanelModel {
        match self {
            Panel::Layers(p) => PanelModel::Layers(p@),
            Panel::Srs(p) => PanelModel::Srs(p@),
            Panel::Extent(p) => PanelModel::Extent(*p),
            Panel::Fields(p) => PanelModel::Fields(p@),
        }
    }
}

/// Whether the panel carries the focus mark.
pub open spec fn panel_focused(p: PanelModel) -> bool {
    match p {
        PanelModel::Layers(l) => l.is_focused,
        PanelModel::Srs(s) => s.is_focused,
        PanelModel::Extent(e) => e.focus,
        PanelModel::Fields(f) => f.is_focused,
    }
}

/// The panel with its focus mark set to `b` and nothing else changed.
pub open spec fn with_focus(p: PanelModel, b: bool) -> PanelModel {
    match p {
        PanelModel::Layers(l) => PanelModel::Layers(LayerListModel { is_focused: b, ..l }),
        PanelModel::Srs(s) => PanelModel::Srs(SrsPanelModel { is_focused: b, ..s }),
        PanelModel::Extent(e) => PanelModel::Extent(Extent { focus: b, ..e }),
        PanelModel::Fields(f) => PanelModel::Fields(FieldsPanelModel { is_focused: b, ..f }),
    }
}

/// Internal consistency of a panel's own state.
pub open spec fn panel_wf(p: PanelModel) -> bool {
    match p {
        PanelModel::Layers(l) => l.wf(),
        _ => true,
    }
}

/// State of a panel after it reacts to one action, each panel as its own
/// step function says.
pub open spec fn panel_step(p: PanelModel, a: ActionModel) -> PanelModel {
    match p {
        PanelModel::Layers(l) => PanelModel::Layers(layers_step(l, a)),
        PanelModel::Srs(s) => PanelModel::Srs(srs_step(s, a)),
        PanelModel::Extent(e) => PanelModel::Extent(extent_step(e, a)),
        PanelModel::Fields(f) => PanelModel::Fields(fields_step(f, a)),
    }
}

/// What a panel emits back into the queue when it reacts to one action:
/// only the layer list emits, and only for selection moves.
pub open spec fn panel_emit(p: PanelModel, a: ActionModel) -> Option<ActionModel> {
    match p {
        PanelModel::Layers(l) => layers_emit(l, a),
        _ => Option::None,
    }
}

/// The actions emitted when the panels of `cs` each react to `a`, in panel
/// order.
pub open spec fn collect_emits(cs: Seq<PanelModel>, a: ActionModel) -> Seq<ActionModel>
    decreases cs.len(),
{
    if cs.len() == 0 {
        Seq::empty()
    } else {
        (match panel_emit(cs[0], a) {
            Option::Some(e) => seq![e],
            Option::None => Seq::empty(),
        }) + collect_emits(cs.skip(1), a)
    }
}

/// A panel reacting to an action other than a selection move emits nothing.
pub proof fn lemma_no_emits(cs: Seq<PanelModel>, a: ActionModel)
    requires
        !(a is UpLayer),
        !(a is DownLayer),
    ensures
        collect_emits(cs, a) == Seq::<ActionModel>::empty(),
    decreases cs.len(),
{
    if cs.len() > 0 {
        lemma_no_emits(cs.skip(1), a);
        assert(collect_emits(cs, a) =~= Seq::<ActionModel>::empty());
    }
}

/// Whatever the action, what the panels emit is snapshot deliveries alone:
/// no selection move ever emits another selection move.
pub proof fn lemma_emits_are_payloads(cs: Seq<PanelModel>, a: ActionModel)
    ensures
        forall|m: int|
            0 <= m < collect_emits(cs, a).len() ==> #[trigger] collect_emits(cs, a)[m]
                is PassLayerInfo,
    decreases cs.len(),
{
    if cs.len() > 0 {
        lemma_emits_are_payloads(cs.skip(1), a);
        let head = collect_emits(cs, a);
        let tail = collect_emits(cs.skip(1), a);
        assert forall|m: int| 0 <= m < head.len() implies #[trigger] head[m]
            is PassLayerInfo by {
            match panel_emit(cs[0], a) {
                Option::Some(e) => {
                    if m == 0 {
                        assert(e is PassLayerInfo);
                    } else {
                        assert(head[m] == tail[m - 1]);
                    }
                },
                Option::None => {
                    assert(head[m] == tail[m]);
                },
            }
        }
    }
}

impl Panel {
    /// Whether the panel carries the focus mark.
    pub fn is_focused(&self) -> (r: bool)
        ensures
            r == panel_focused(self@),
    {
        match self {
            Panel::Layers(p) => p.is_focused,
            Panel::Srs(p) => p.is_focused,
            Panel::Extent(p) => p.focus,
            Panel::Fields(p) => p.is_focused,
        }
    }

    /// Sets the focus mark; only the focus ring calls this.
    fn set_focused(&mut self, b: bool)
        ensures
            final(self)@ == with_focus(old(self)@, b),
    {
        match self {
            Panel::Layers(p) => p.is_focused = b,
            Panel::Srs(p) => p.is_focused = b,
            Panel::Extent(p) => p.focus = b,
            Panel::Fields(p) => p.is_focused = b,
        }
    }

    /// Applies one action, as [`panel_step`] says, and returns what the
    /// panel emits, as [`panel_emit`] says.
    pub fn update(&mut self, action: &Action) -> (r: Option<Action>)
        requires
            panel_wf(old(self)@),
        ensures
            final(self)@ == panel_step(old(self)@, action@),
            opt_action_view(r) == panel_emit(old(self)@, action@),
            panel_wf(final(self)@),
    {
        match self {
            Panel::Layers(p) => p.update(action),
            Panel::Srs(p) => p.update(action),
            Panel::Extent(p) => p.update(action),
            Panel::Fields(p) => p.update(action),
        }
    }

    /// Translates a raw event into at most one follow-up action.  The
    /// panels of this interface translate none themselves — all their
    /// input arrives as actions — so nothing is returned.
    pub fn handle_event(&self, event: &Event) -> (r: Option<Action>)
        ensures
            r is None,
    {
        let _ = event;
        None
    }
}

/// Mathematical image of the panel set and its focus ring.
pub struct ComponentsModel {
    pub children: Seq<PanelModel>,
    pub focus_idx: int,
}

impl ComponentsModel {
    /// There is at least one panel; the focus index points at a panel;
    /// exactly that panel carries the focus mark; every panel's own state
    /// is consistent.
    pub open spec fn wf(self) -> bool {
        &&& 0 < self.children.len()
        &&& 0 <= self.focus_idx < self.children.len()
        &&& forall|j: int|
            0 <= j < self.children.len() ==> panel_focused(#[trigger] self.children[j]) == (j
                == self.focus_idx)
        &&& forall|j: int| 0 <= j < self.children.len() ==> panel_wf(#[trigger] self.children[j])
    }
}

/// Focus index reached from `i` by one focus-next step in a ring of `n`
/// panels: the next panel, wrapping from the last to the first.
pub open spec fn next_focus(i: int, n: int) -> int {
    if i + 1 < n {
        i + 1
    } else {
        0
    }
}

/// Focus index reached from `i` by one focus-previous step in a ring of
/// `n` panels: the panel before, wrapping from the first to the last.
pub open spec fn previous_focus(i: int, n: int) -> int {
    if i == 0 {
        n - 1
    } else {
        i - 1
    }
}

/// Focus index reached from `i` by `k` focus-next steps in a ring of `n`
/// panels.
pub open spec fn iter_next_focus(i: int, n: int, k: nat) -> int
    decreases k,
{
    if k == 0 {
        i
    } else {
        iter_next_focus(next_focus(i, n), n, (k - 1) as nat)
    }
}

/// Stepping focus-next splits: `a + b` steps reach what `b` steps reach
/// from where `a` steps lead.
proof fn lemma_iter_next_focus_add(i: int, n: int, a: nat, b: nat)
    ensures
        iter_next_focus(i, n, a + b) == iter_next_focus(iter_next_focus(i, n, a), n, b),
    decreases a,
{
    if a > 0 {
        lemma_iter_next_focus_add(next_focus(i, n), n, (a - 1) as nat, b);
    }
}

/// From `i`, exactly `n - i` focus-next steps reach the first panel.
proof fn lemma_iter_next_focus_reaches_zero(i: int, n: int)
    requires
        0 <= i < n,
    ensures
        iter_next_focus(i, n, (n - i) as nat) == 0,
    decreases n - i,
{
    if i + 1 < n {
        lemma_iter_next_focus_reaches_zero(i + 1, n);
    } else {
        assert(next_focus(i, n) == 0);
        assert(iter_next_focus(0, n, 0) == 0);
    }
}

/// From the first panel, `k` focus-next steps reach panel `k` while `k`
/// stays inside the ring.
proof fn lemma_iter_next_focus_from_zero(j: int, k: nat, n: int)
    requires
        0 <= j,
        j + k < n,
    ensures
        iter_next_focus(j, n, k) == j + k,
    decreases k,
{
    if k > 0 {
        lemma_iter_next_focus_from_zero(j + 1, (k - 1) as nat, n);
    }
}

/// Ring closure: as many focus-next steps as there are panels lead back to
/// the panel the focus started on.
pub proof fn lemma_focus_ring_closure(i: int, n: int)
    requires
        0 <= i < n,
    ensures
        iter_next_focus(i, n, n as nat) == i,
{
    lemma_iter_next_focus_reaches_zero(i, n);
    lemma_iter_next_focus_add(i, n, (n - i) as nat, i as nat);
    lemma_iter_next_focus_from_zero(0, i as nat, n);
}

/// The ordered panel set with exactly one panel focused.  The application
/// loop is the sole mutator of the focus; panels read their own mark but
/// never move it.
pub struct FocusableComponents {
    pub children: Vec<Panel>,
    pub focus_idx: usize,
}

impl View for FocusableComponents {
    type V = ComponentsModel;

    open spec fn view(&self) -> ComponentsModel {
        ComponentsModel {
            children: self.children@.map_values(|p: Panel| p@),
            focus_idx: self.focus_idx as int,
        }
    }
}

impl FocusableComponents {
    /// A ring over the given panels with the focus on the first; the
    /// caller hands in panels whose focus marks already agree with that.
    pub fn new(children: Vec<Panel>) -> (r: FocusableComponents)
        requires
            children@.len() > 0,
            forall|j: int|
                0 <= j < children@.len() ==> panel_focused(#[trigger] children@[j]@) == (j == 0),
            forall|j: int| 0 <= j < children@.len() ==> panel_wf(#[trigger] children@[j]@),
        ensures
            r@ == (ComponentsModel {
                children: children@.map_values(|p: Panel| p@),
                focus_idx: 0,
            }),
            r@.wf(),
    {
        let r = FocusableComponents { children, focus_idx: 0 };
        proof {
            assert forall|j: int| 0 <= j < r@.children.len() implies panel_focused(
                #[trigger] r@.children[j],
            ) == (j == 0) && panel_wf(r@.children[j]) by {
                assert(r@.children[j] == r.children@[j]@);
            }
        }
        r
    }

    /// How many panels the ring holds.
    pub fn len(&self) -> (r: usize)
        ensures
            r == self@.children.len(),
    {
        self.children.len()
    }

    /// The index of the focused panel.
    pub fn focused_index(&self) -> (r: usize)
        ensures
            r as int == self@.focus_idx,
    {
        self.focus_idx
    }

    /// Sets the focus mark of panel `i` and changes nothing else.
    fn set_flag(&mut self, i: usize, value: bool)
        requires
            i < old(self)@.children.len(),
        ensures
            final(self)@.children =~= old(self)@.children.update(
                i as int,
                with_focus(old(self)@.children[i as int], value),
            ),
            final(self)@.focus_idx == old(self)@.focus_idx,
    {
        let mut p = self.children.remove(i);
        p.set_focused(value);
        self.children.insert(i, p);
        proof {
            assert(self@.children =~= old(self)@.children.update(
                i as int,
                with_focus(old(self)@.children[i as int], value),
            ));
        }
    }

    /// Moves the focus to the next panel, wrapping from the last to the
    /// first.  Only focus marks move; every panel's remaining state stays.
    pub fn focus_next(&mut self)
        requires
            old(self)@.wf(),
        ensures
            final(self)@.wf(),
            final(self)@.focus_idx == next_focus(old(self)@.focus_idx, old(self)@.children.len() as int),
            final(self)@.children.len() == old(self)@.children.len(),
            forall|j: int|
                0 <= j < old(self)@.children.len() ==> #[trigger] final(self)@.children[j]
                    == with_focus(old(self)@.children[j], j == final(self)@.focus_idx),
    {
        let n = self.children.len();
        let here = self.focus_idx;
        self.set_flag(here, false);
        let there = if here + 1 < n {
            here + 1
        } else {
            0
        };
        self.focus_idx = there;
        self.set_flag(there, true);
    }

    /// Moves the focus to the previous panel, wrapping from the first to
    /// the last.  Only focus marks move.
    pub fn focus_previous(&mut self)
        requires
            old(self)@.wf(),
        ensures
            final(self)@.wf(),
            final(self)@.focus_idx == previous_focus(
                old(self)@.focus_idx,
                old(self)@.children.len() as int,
            ),
            final(self)@.children.len() == old(self)@.children.len(),
            forall|j: int|
                0 <= j < old(self)@.children.len() ==> #[trigger] final(self)@.children[j]
                    == with_focus(old(self)@.children[j], j == final(self)@.focus_idx),
    {
        let n = self.children.len();
        let here = self.focus_idx;
        self.set_flag(here, false);
        let there = if here == 0 {
            n - 1
        } else {
            here - 1
        };
        self.focus_idx = there;
        self.set_flag(there, true);
    }

    /// Moves the focus to the first panel.  Only focus marks move.
    pub fn focus_first(&mut self)
        requires
            old(self)@.wf(),
        ensures
            final(self)@.wf(),
            final(self)@.focus_idx == 0,
            final(self)@.children.len() == old(self)@.children.len(),
            forall|j: int|
                0 <= j < old(self)@.children.len() ==> #[trigger] final(self)@.children[j]
                    == with_focus(old(self)@.children[j], j == 0),
    {
        let here = self.focus_idx;
        self.set_flag(here, false);
        self.focus_idx = 0;
        self.set_flag(0, true);
    }

    /// Moves the focus to the last panel.  Only focus marks move.
    pub fn focus_last(&mut self)
        requires
            old(self)@.wf(),
        ensures
            final(self)@.wf(),
            final(self)@.focus_idx == old(self)@.children.len() - 1,
            final(self)@.children.len() == old(self)@.children.len(),
            forall|j: int|
                0 <= j < old(self)@.children.len() ==> #[trigger] final(self)@.children[j]
                    == with_focus(old(self)@.children[j], j == old(self)@.children.len() - 1),
    {
        let n = self.children.len();
        let here = self.focus_idx;
        self.set_flag(here, false);
        self.focus_idx = n - 1;
        self.set_flag(n - 1, true);
    }

    /// Hands one action to every panel in stored order and returns what
    /// they emitted, in the same order.
    pub fn update_all(&mut self, action: &Action) -> (emitted: Vec<Action>)
        requires
            old(self)@.wf(),
        ensures
            final(self)@.focus_idx == old(self)@.focus_idx,
            final(self)@.children.len() == old(self)@.children.len(),
            forall|j: int|
                0 <= j < old(self)@.children.len() ==> #[trigger] final(self)@.children[j]
                    == panel_step(old(self)@.children[j], action@),
            action_seq_view(emitted@) == collect_emits(old(self)@.children, action@),
    {
        let ghost orig = self@.children;
        let mut emitted: Vec<Action> = Vec::new();
        let mut i: usize = 0;
        proof {
            assert(orig.skip(0) =~= orig);
        }
        while i < self.children.len()
            invariant
                i <= self.children.len(),
                self.children@.len() == orig.len(),
                self@.focus_idx == old(self)@.focus_idx,
                orig == old(self)@.children,
                forall|j: int|
                    0 <= j < i ==> #[trigger] self@.children[j] == panel_step(
                        orig[j],
                        action@,
                    ),
                forall|j: int| i <= j < orig.len() ==> #[trigger] self@.children[j] == orig[j],
                forall|j: int| 0 <= j < orig.len() ==> panel_wf(#[trigger] self@.children[j]),
                collect_emits(orig, action@) =~= action_seq_view(emitted@) + collect_emits(
                    orig.skip(i as int),
                    action@,
                ),
            decreases self.children.len() - i,
        {
            proof {
                assert(orig.skip(i as int)[0] == orig[i as int]);
                assert(orig.skip(i as int).skip(1) =~= orig.skip(i + 1));
            }
            let ghost emitted_before = action_seq_view(emitted@);
            let ghost vec_before = self.children@;
            let ghost view_before = self@.children;
            proof {
                assert(view_before[i as int] == vec_before[i as int]@);
            }
            let mut p = self.children.remove(i);
            proof {
                assert(p@ == vec_before[i as int]@);
                assert(panel_wf(p@));
            }
            let out = p.update(action);
            self.children.insert(i, p);
            proof {
                assert(self.children@ =~= vec_before.update(i as int, p));
                assert forall|j: int|
                    0 <= j < vec_before.len() && j != i implies #[trigger] self@.children[j]
                    == view_before[j] by {
                    assert(self.children@[j] == vec_before[j]);
                    assert(self@.children[j] == self.children@[j]@);
                    assert(view_before[j] == vec_before[j]@);
                }
                assert(self@.children[i as int] == p@);
            }
            match out {
                Some(a) => {
                    emitted.push(a);
                    proof {
                        assert(action_seq_view(emitted@) =~= emitted_before.push(a@));
                    }
                },
                None => {},
            }
            proof {
                assert(collect_emits(orig, action@) =~= action_seq_view(emitted@) + collect_emits(
                    orig.skip(i + 1),
                    action@,
                ));
            }
            i = i + 1;
        }
        proof {
            assert(orig.skip(orig.len() as int) =~= Seq::<PanelModel>::empty());
            assert(action_seq_view(emitted@) + Seq::<ActionModel>::empty() =~= action_seq_view(
                emitted@,
            ));
            assert(action_seq_view(emitted@) =~= collect_emits(orig, action@));
        }
        emitted
    }
}

} // verus!
