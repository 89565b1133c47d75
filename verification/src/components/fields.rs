//! Panel listing the selected layer's fields.
use vstd::prelude::*;

verus! {

use crate::action::Action;
use crate::action::ActionModel;
use crate::data::LayerInfo;

/// Displays the geometry fields and the attribute fields of the selected
/// layer.
#[derive(Clone, Debug, PartialEq, Eq)]
pub struct Fields {
    pub geom_field: Vec<String>,
    pub fields: Vec<(String, u32)>,
    pub is_focused: bool,
}

/// Mathematical image of a [`Fields`] panel.
pub struct FieldsPanelModel {
    pub geom_field: Seq<Seq<char>>,
    pub fields: Seq<(Seq<char>, u32)>,
    pub is_focused: bool,
}

impl View for Fields {
    type V = FieldsPanelModel;

    open spec fn view(&self) -> FieldsPanelModel {
        FieldsPanelModel {
            geom_field: self.geom_field.deep_view(),
            fields: self.fields.deep_view(),
            is_focused: self.is_focused,
        }
    }
}

/// State of the fields panel after it reacts to `a`: a delivered snapshot
/// replaces the two displayed field lists and nothing else; every other
/// action is a no-op.
pub open spec fn fields_step(s: FieldsPanelModel, a: ActionModel) -> FieldsPanelModel {
    match a {
        ActionModel::PassLayerInfo(li) => FieldsPanelModel {
            geom_field: li.fields.geom_field,
            fields: li.fields.fields,
            is_focused: s.is_focused,
        },
        _ => s,
    }
}

impl Fields {
    /// A panel displaying the fields of `li`, not focused.
    pub fn from_layerinfo(li: &LayerInfo) -> (r: Fields)
        ensures
            r@ == (FieldsPanelModel {
                geom_field: li.fields@.geom_field,
                fields: li.fields@.fields,
                is_focused: false,
            }),
    {
        let copied = li.fields.duplicate();
        Fields { geom_field: copied.geom_field, fields: copied.fields, is_focused: false }
    }

    /// Applies one action, as [`fields_step`] says.  Emits nothing.
    pub fn update(&mut self, action: &Action) -> (r: Option<Action>)
        ensures
            final(self)@ == fields_step(old(self)@, action@),
            r is None,
    {
        match action {
            Action::PassLayerInfo(li) => {
                let copied = li.fields.duplicate();
                self.geom_field = copied.geom_field;
                self.fields = copied.fields;
            },
            _ => {},
        }
        None
    }
}

} // verus!
