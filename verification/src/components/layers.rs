//! Panel listing the dataset's layers and carrying the selection.
use vstd::prelude::*;

verus! {

use crate::action::Action;
use crate::action::ActionModel;
use crate::data::LayerInfo;
use crate::data::LayerInfoModel;
use crate::data::layer_seq_view;

/// Lists the layers of the dataset and owns the selection index.  The list
/// is created once at startup and never reordered or resized afterwards.
#[derive(Clone, Debug, PartialEq)]
pub struct LayerList {
    pub layerinfos: Vec<LayerInfo>,
    pub is_focused: bool,
    pub selected: usize,
}

/// Mathematical image of a [`LayerList`] panel.
pub struct LayerListModel {
    pub layerinfos: Seq<LayerInfoModel>,
    pub is_focused: bool,
    pub selected: int,
}

impl View for LayerList {
    type V = LayerListModel;

    open spec fn view(&self) -> LayerListModel {
        LayerListModel {
            layerinfos: layer_seq_view(self.layerinfos@),
            is_focused: self.is_focused,
            selected: self.selected as int,
        }
    }
}

impl LayerListModel {
    /// The list holds at least one layer and the selection points into it.
    pub open spec fn wf(self) -> bool {
        0 < self.layerinfos.len() && 0 <= self.selected < self.layerinfos.len()
    }
}

/// Selection index after moving one step down, wrapping from the last layer
/// to the first.
pub open spec fn next_selection(selected: int, n: int) -> int {
    if selected >= n - 1 {
        0
    } else {
        selected + 1
    }
}

/// Selection index after moving one step up, wrapping from the first layer
/// to the last.
pub open spec fn previous_selection(selected: int, n: int) -> int {
    if selected == 0 {
        n - 1
    } else {
        selected - 1
    }
}

/// State of the layer list after it reacts to `a`: moving the selection up
/// or down steps the index with wraparound; every other action is a no-op.
pub open spec fn layers_step(s: LayerListModel, a: ActionModel) -> LayerListModel {
    match a {
        ActionModel::UpLayer => LayerListModel {
            selected: previous_selection(s.selected, s.layerinfos.len() as int),
            ..s
        },
        ActionModel::DownLayer => LayerListModel {
            selected: next_selection(s.selected, s.layerinfos.len() as int),
            ..s
        },
        _ => s,
    }
}

/// What the layer list emits on `a`: a move of the selection re-emits the
/// newly selected layer's snapshot, so the other panels follow; everything
/// else emits nothing.
pub open spec fn layers_emit(s: LayerListModel, a: ActionModel) -> Option<ActionModel> {
    match a {
        ActionModel::UpLayer | ActionModel::DownLayer => {
            let stepped = layers_step(s, a);
            Option::Some(ActionModel::PassLayerInfo(stepped.layerinfos[stepped.selected]))
        },
        _ => Option::None,
    }
}

impl LayerList {
    /// A list over the given snapshots with the first layer selected,
    /// focused from the start.
    pub fn new(layerinfos: Vec<LayerInfo>) -> (r: LayerList)
        requires
            layerinfos@.len() > 0,
        ensures
            r@ == (LayerListModel {
                layerinfos: layer_seq_view(layerinfos@),
                is_focused: true,
                selected: 0,
            }),
            r@.wf(),
    {
        LayerList { layerinfos, is_focused: true, selected: 0 }
    }

    /// The names of the layers, in list order.
    pub fn names(&self) -> (r: Vec<String>)
        ensures
            r.deep_view() == self@.layerinfos.map_values(|l: LayerInfoModel| l.name),
    {
        let mut names: Vec<String> = Vec::new();
        let mut i: usize = 0;
        while i < self.layerinfos.len()
            invariant
                i <= self.layerinfos.len(),
                names.deep_view() =~= self@.layerinfos.subrange(0, i as int).map_values(
                    |l: LayerInfoModel| l.name,
                ),
            decreases self.layerinfos.len() - i,
        {
            let ghost before = names.deep_view();
            names.push(self.layerinfos[i].name.clone());
            proof {
                assert(names.deep_view() =~= before.push(self.layerinfos@[i as int].name@));
                assert(names.deep_view() =~= self@.layerinfos.subrange(0, i + 1).map_values(
                    |l: LayerInfoModel| l.name,
                ));
            }
            i = i + 1;
        }
        proof {
            assert(self@.layerinfos.subrange(0, self.layerinfos@.len() as int) =~= self@.layerinfos);
            assert(names.deep_view() =~= self@.layerinfos.map_values(|l: LayerInfoModel| l.name));
        }
        names
    }

    /// The index of the selected layer.
    pub fn layer_idx(&self) -> (r: usize)
        ensures
            r as int == self@.selected,
    {
        self.selected
    }

    /// Moves the selection one step down, wrapping to the first layer.
    fn next(&mut self)
        requires
            old(self)@.wf(),
        ensures
            final(self)@ == (LayerListModel {
                selected: next_selection(old(self)@.selected, old(self)@.layerinfos.len() as int),
                ..old(self)@
            }),
    {
        if self.selected >= self.layerinfos.len() - 1 {
            self.selected = 0;
        } else {
            self.selected = self.selected + 1;
        }
    }

    /// Moves the selection one step up, wrapping to the last layer.
    fn previous(&mut self)
        requires
            old(self)@.wf(),
        ensures
            final(self)@ == (LayerListModel {
                selected: previous_selection(
                    old(self)@.selected,
                    old(self)@.layerinfos.len() as int,
                ),
                ..old(self)@
            }),
    {
        if self.selected == 0 {
            self.selected = self.layerinfos.len() - 1;
        } else {
            self.selected = self.selected - 1;
        }
    }

    /// Applies one action, as [`layers_step`] says, and emits what
    /// [`layers_emit`] says: each selection move re-emits the newly
    /// selected layer's snapshot.
    pub fn update(&mut self, action: &Action) -> (r: Option<Action>)
        requires
            old(self)@.wf(),
        ensures
            final(self)@ == layers_step(old(self)@, action@),
            crate::action::opt_action_view(r) == layers_emit(old(self)@, action@),
            final(self)@.wf(),
    {
        match action {
            Action::UpLayer => {
                self.previous();
                let out = Action::PassLayerInfo(self.layerinfos[self.selected].duplicate());
                Some(out)
            },
            Action::DownLayer => {
                self.next();
                let out = Action::PassLayerInfo(self.layerinfos[self.selected].duplicate());
                Some(out)
            },
            _ => None,
        }
    }
}

} // verus!
