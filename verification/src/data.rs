//! Immutable metadata snapshots of a dataset's layers.
//!
//! The metadata collaborator reads the dataset once at startup and hands the
//! runtime one snapshot per layer; everything after that flows through
//! actions that carry a full snapshot.
use vstd::prelude::*;

pub mod extent;
pub mod fields;
pub mod srs;

verus! {

use crate::data::extent::Extent;
use crate::data::fields::Fields;
use crate::data::fields::FieldsModel;
use crate::data::srs::Srs;
use crate::data::srs::SrsModel;

/// Metadata snapshot of one layer.
#[derive(Clone, Debug, PartialEq, Eq)]
pub struct LayerInfo {
    pub name: String,
    pub extent: Extent,
    pub srs: Srs,
    pub fields: Fields,
    pub feature_number: u64,
}

/// Mathematical image of a [`LayerInfo`] value.
pub struct LayerInfoModel {
    pub name: Seq<char>,
    pub extent: Extent,
    pub srs: SrsModel,
    pub fields: FieldsModel,
    pub feature_number: u64,
}

impl View for LayerInfo {
    type V = LayerInfoModel;

    open spec fn view(&self) -> LayerInfoModel {
        LayerInfoModel {
            name: self.name@,
            extent: self.extent,
            srs: self.srs@,
            fields: self.fields@,
            feature_number: self.feature_number,
        }
    }
}

/// Image of a layer sequence.
pub open spec fn layer_seq_view(v: Seq<LayerInfo>) -> Seq<LayerInfoModel> {
    v.map_values(|l: LayerInfo| l@)
}

impl LayerInfo {
    /// An equal snapshot in fresh storage.
    pub fn duplicate(&self) -> (r: LayerInfo)
        ensures
            r@ == self@,
    {
        LayerInfo {
            name: self.name.clone(),
            extent: self.extent,
            srs: self.srs.duplicate(),
            fields: self.fields.duplicate(),
            feature_number: self.feature_number,
        }
    }
}

} // verus!
