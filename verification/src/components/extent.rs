//! Panel showing the selected layer's bounding extent.
use vstd::prelude::*;

verus! {

use crate::action::Action;
use crate::action::ActionModel;
use crate::data::LayerInfo;

/// Displays the four coordinates of the selected layer's extent.
#[derive(Clone, Copy, Debug, PartialEq, Eq, Structural)]
pub struct Extent {
    pub xmin: i64,
    pub xmax: i64,
    pub ymin: i64,
    pub ymax: i64,
    pub focus: bool,
}

/// State of the extent panel after it reacts to `a`: a delivered snapshot
/// replaces the four displayed coordinates and nothing else; every other
/// action is a no-op.  The focus mark belongs to the focus ring alone; no
/// action moves it from in here.
pub open spec fn extent_step(s: Extent, a: ActionModel) -> Extent {
    match a {
        ActionModel::PassLayerInfo(li) => Extent {
            xmin: li.extent.xmin,
            xmax: li.extent.xmax,
            ymin: li.extent.ymin,
            ymax: li.extent.ymax,
            focus: s.focus,
        },
        _ => s,
    }
}

impl Extent {
    /// A panel displaying the extent of `li`, not focused.
    pub fn from_layerinfo(li: &LayerInfo) -> (r: Extent)
        ensures
            r == (Extent {
                xmin: li.extent.xmin,
                xmax: li.extent.xmax,
                ymin: li.extent.ymin,
                ymax: li.extent.ymax,
                focus: false,
            }),
    {
        Extent {
            xmin: li.extent.xmin,
            xmax: li.extent.xmax,
            ymin: li.extent.ymin,
            ymax: li.extent.ymax,
            focus: false,
        }
    }

    /// Applies one action, as [`extent_step`] says.  Emits nothing.
    pub fn update(&mut self, action: &Action) -> (r: Option<Action>)
        ensures
            *final(self) == extent_step(*old(self), action@),
            r is None,
    {
        match action {
            Action::PassLayerInfo(li) => {
                self.xmin = li.extent.xmin;
                self.xmax = li.extent.xmax;
                self.ymin = li.extent.ymin;
                self.ymax = li.extent.ymax;
            },
            _ => {},
        }
        None
    }
}

} // verus!
