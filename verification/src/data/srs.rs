//! Spatial-reference descriptor of a layer.
use vstd::prelude::*;

verus! {

use crate::text::newline_count;

/// Spatial-reference descriptor: the system's name and its WKT and proj4
/// renderings, as the metadata collaborator reported them.
#[derive(Clone, Debug, PartialEq, Eq)]
pub struct Srs {
    pub name: String,
    pub wkt: String,
    pub proj4: String,
}

/// Mathematical image of an [`Srs`] value.
pub struct SrsModel {
    pub name: Seq<char>,
    pub wkt: Seq<char>,
    pub proj4: Seq<char>,
}

impl View for Srs {
    type V = SrsModel;

    open spec fn view(&self) -> SrsModel {
        SrsModel { name: self.name@, wkt: self.wkt@, proj4: self.proj4@ }
    }
}

/// Number of lines in the descriptor's display text, which is the three
/// values in order, each closed by a line break.  Every line is therefore
/// closed by a break, so the line count is the break count.
pub open spec fn srs_line_count(s: SrsModel) -> nat {
    3 + newline_count(s.name) + newline_count(s.wkt) + newline_count(s.proj4)
}

impl Srs {
    /// An equal descriptor in fresh storage.
    pub fn duplicate(&self) -> (r: Srs)
        ensures
            r@ == self@,
    {
        Srs { name: self.name.clone(), wkt: self.wkt.clone(), proj4: self.proj4.clone() }
    }

    /// Number of lines in the descriptor's display text.
    pub fn line_count(&self) -> (r: usize)
        requires
            self.name@.len() + self.wkt@.len() + self.proj4@.len() + 3 <= usize::MAX,
        ensures
            r == srs_line_count(self@),
    {
        proof {
            crate::text::lemma_newline_count_le_len(self.name@);
            crate::text::lemma_newline_count_le_len(self.wkt@);
            crate::text::lemma_newline_count_le_len(self.proj4@);
        }
        let a = crate::text::count_newlines(self.name.as_str());
        let b = crate::text::count_newlines(self.wkt.as_str());
        let c = crate::text::count_newlines(self.proj4.as_str());
        3 + a + b + c
    }
}

} // verus!
