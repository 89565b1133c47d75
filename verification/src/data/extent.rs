//! Bounding extent of a layer.
use vstd::prelude::*;

verus! {

/// Bounding extent of a layer.
///
/// Coordinates are plain fixed-point values: whoever produces an extent
/// picks a scale (micro-degrees, for instance) and converts once at the
/// boundary.  The runtime only copies and displays these numbers, so the
/// scale never appears here.
#[derive(Clone, Copy, Debug, PartialEq, Eq, Structural)]
pub struct Extent {
    pub xmin: i64,
    pub ymin: i64,
    pub xmax: i64,
    pub ymax: i64,
}

} // verus!
