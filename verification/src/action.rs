//! The action vocabulary of the runtime.
use vstd::prelude::*;

verus! {

use crate::data::LayerInfo;
use crate::data::LayerInfoModel;

/// One unit of intent flowing through the central dispatch queue.
///
/// Immutable value; cheap to copy; carries no long-lived resource.
#[derive(Clone, Debug, PartialEq)]
pub enum Action {
    Tick,
    Render,
    Resize(u16, u16),
    Suspend,
    Resume,
    Quit,
    Refresh,
    Error(String),
    Help,
    EnterSrs,
    EnterExtent,
    ScrollUp,
    ScrollDown,
    ScrollLeft,
    ScrollRight,
    UpLayer,
    DownLayer,
    NextFocusableMode,
    PreviousFocusableMode,
    PassLayerInfo(LayerInfo),
}

/// Mathematical image of an [`Action`] value.
pub enum ActionModel {
    Tick,
    Render,
    Resize(u16, u16),
    Suspend,
    Resume,
    Quit,
    Refresh,
    Error(Seq<char>),
    Help,
    EnterSrs,
    EnterExtent,
    ScrollUp,
    ScrollDown,
    ScrollLeft,
    ScrollRight,
    UpLayer,
    DownLayer,
    NextFocusableMode,
    PreviousFocusableMode,
    PassLayerInfo(LayerInfoModel),
}

impl View for Action {
    type V = ActionModel;

    open spec fn view(&self) -> ActionModel {
        match self {
            Action::Tick => ActionModel::Tick,
            Action::Render => ActionModel::Render,
            Action::Resize(w, h) => ActionModel::Resize(*w, *h),
            Action::Suspend => ActionModel::Suspend,
            Action::Resume => ActionModel::Resume,
            Action::Quit => ActionModel::Quit,
            Action::Refresh => ActionModel::Refresh,
            Action::Error(m) => ActionModel::Error(m@),
            Action::Help => ActionModel::Help,
            Action::EnterSrs => ActionModel::EnterSrs,
            Action::EnterExtent => ActionModel::EnterExtent,
            Action::ScrollUp => ActionModel::ScrollUp,
            Action::ScrollDown => ActionModel::ScrollDown,
            Action::ScrollLeft => ActionModel::ScrollLeft,
            Action::ScrollRight => ActionModel::ScrollRight,
            Action::UpLayer => ActionModel::UpLayer,
            Action::DownLayer => ActionModel::DownLayer,
            Action::NextFocusableMode => ActionModel::NextFocusableMode,
            Action::PreviousFocusableMode => ActionModel::PreviousFocusableMode,
            Action::PassLayerInfo(l) => ActionModel::PassLayerInfo(l@),
        }
    }
}

/// Image of an optional action as produced by a component.
pub open spec fn opt_action_view(o: Option<Action>) -> Option<ActionModel> {
    match o {
        Option::Some(a) => Option::Some(a@),
        Option::None => Option::None,
    }
}

/// Image of a sequence of actions.
pub open spec fn action_seq_view(v: Seq<Action>) -> Seq<ActionModel> {
    v.map_values(|a: Action| a@)
}

impl Action {
    /// An equal action in fresh storage.
    pub fn duplicate(&self) -> (r: Action)
        ensures
            r@ == self@,
    {
        match self {
            Action::Tick => Action::Tick,
            Action::Render => Action::Render,
            Action::Resize(w, h) => Action::Resize(*w, *h),
            Action::Suspend => Action::Suspend,
            Action::Resume => Action::Resume,
            Action::Quit => Action::Quit,
            Action::Refresh => Action::Refresh,
            Action::Error(m) => Action::Error(m.clone()),
            Action::Help => Action::Help,
            Action::EnterSrs => Action::EnterSrs,
            Action::EnterExtent => Action::EnterExtent,
            Action::ScrollUp => Action::ScrollUp,
            Action::ScrollDown => Action::ScrollDown,
            Action::ScrollLeft => Action::ScrollLeft,
            Action::ScrollRight => Action::ScrollRight,
            Action::UpLayer => Action::UpLayer,
            Action::DownLayer => Action::DownLayer,
            Action::NextFocusableMode => Action::NextFocusableMode,
            Action::PreviousFocusableMode => Action::PreviousFocusableMode,
            Action::PassLayerInfo(l) => Action::PassLayerInfo(l.duplicate()),
        }
    }
}

} // verus!
