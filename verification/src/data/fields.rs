//! Attribute and geometry fields of a layer.
use vstd::prelude::*;

verus! {

/// Field list of a layer: the geometry field names and the attribute fields
/// as pairs of a name and a numeric type tag.
#[derive(Clone, Debug, PartialEq, Eq)]
pub struct Fields {
    pub geom_field: Vec<String>,
    pub fields: Vec<(String, u32)>,
}

/// Mathematical image of a [`Fields`] value.
pub struct FieldsModel {
    pub geom_field: Seq<Seq<char>>,
    pub fields: Seq<(Seq<char>, u32)>,
}

impl View for Fields {
    type V = FieldsModel;

    open spec fn view(&self) -> FieldsModel {
        FieldsModel { geom_field: self.geom_field.deep_view(), fields: self.fields.deep_view() }
    }
}

impl Fields {
    /// An equal field list in fresh storage.
    pub fn duplicate(&self) -> (r: Fields)
        ensures
            r@ == self@,
    {
        let mut geom_field: Vec<String> = Vec::new();
        let mut i: usize = 0;
        while i < self.geom_field.len()
            invariant
                i <= self.geom_field.len(),
                geom_field.deep_view() =~= self.geom_field.deep_view().subrange(0, i as int),
            decreases self.geom_field.len() - i,
        {
            let ghost before = geom_field.deep_view();
            geom_field.push(self.geom_field[i].clone());
            proof {
                assert(geom_field.deep_view() =~= before.push(self.geom_field@[i as int].deep_view()));
            }
            i = i + 1;
        }
        let mut fields: Vec<(String, u32)> = Vec::new();
        let mut j: usize = 0;
        while j < self.fields.len()
            invariant
                j <= self.fields.len(),
                fields.deep_view() =~= self.fields.deep_view().subrange(0, j as int),
            decreases self.fields.len() - j,
        {
            let ghost before = fields.deep_view();
            let pair: &(String, u32) = &self.fields[j];
            fields.push((pair.0.clone(), pair.1));
            proof {
                assert(fields.deep_view() =~= before.push(self.fields@[j as int].deep_view()));
            }
            j = j + 1;
        }
        proof {
            assert(geom_field.deep_view() =~= self.geom_field.deep_view());
            assert(fields.deep_view() =~= self.fields.deep_view());
        }
        Fields { geom_field, fields }
    }
}

} // verus!
