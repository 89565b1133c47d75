//! Panel showing the selected layer's spatial-reference descriptor.
use vstd::prelude::*;

verus! {

use crate::action::Action;
use crate::action::ActionModel;
use crate::data::LayerInfo;
use crate::text::newline_count;
use crate::text::widest_segment;

/// Scroll position of a panel's viewport, one step per scroll action,
/// saturating at the bounds of the offset type.
#[derive(Clone, Copy, Debug, PartialEq, Eq, Structural)]
pub struct ScrollOffset {
    pub x: u16,
    pub y: u16,
}

/// Displays the name, WKT and proj4 renderings of the selected layer's
/// spatial-reference system inside a scrollable viewport.
#[derive(Clone, Debug, PartialEq, Eq)]
pub struct Srs {
    pub name: String,
    pub wkt: String,
    pub proj4: String,
    pub is_focused: bool,
    pub state: ScrollOffset,
}

/// Mathematical image of an [`Srs`] panel.
pub struct SrsPanelModel {
    pub name: Seq<char>,
    pub wkt: Seq<char>,
    pub proj4: Seq<char>,
    pub is_focused: bool,
    pub state: ScrollOffset,
}

impl View for Srs {
    type V = SrsPanelModel;

    open spec fn view(&self) -> SrsPanelModel {
        SrsPanelModel {
            name: self.name@,
            wkt: self.wkt@,
            proj4: self.proj4@,
            is_focused: self.is_focused,
            state: self.state,
        }
    }
}

/// State of the panel after it reacts to `a`: a delivered snapshot replaces
/// the three displayed strings and nothing else; scroll actions move the
/// viewport one step, saturating at the bounds; every other action is a
/// no-op.
pub open spec fn srs_step(s: SrsPanelModel, a: ActionModel) -> SrsPanelModel {
    match a {
        ActionModel::PassLayerInfo(li) => SrsPanelModel {
            name: li.srs.name,
            wkt: li.srs.wkt,
            proj4: li.srs.proj4,
            is_focused: s.is_focused,
            state: s.state,
        },
        ActionModel::ScrollDown => SrsPanelModel {
            state: ScrollOffset {
                x: s.state.x,
                y: if s.state.y < u16::MAX {
                    (s.state.y + 1) as u16
                } else {
                    s.state.y
                },
            },
            ..s
        },
        ActionModel::ScrollUp => SrsPanelModel {
            state: ScrollOffset {
                x: s.state.x,
                y: if s.state.y > 0 {
                    (s.state.y - 1) as u16
                } else {
                    0
                },
            },
            ..s
        },
        ActionModel::ScrollRight => SrsPanelModel {
            state: ScrollOffset {
                y: s.state.y,
                x: if s.state.x < u16::MAX {
                    (s.state.x + 1) as u16
                } else {
                    s.state.x
                },
            },
            ..s
        },
        ActionModel::ScrollLeft => SrsPanelModel {
            state: ScrollOffset {
                y: s.state.y,
                x: if s.state.x > 0 {
                    (s.state.x - 1) as u16
                } else {
                    0
                },
            },
            ..s
        },
        _ => s,
    }
}

/// Number of lines in the panel's display text: the three values in order,
/// each closed by a line break, so every line is closed by a break and the
/// line count is the break count.
pub open spec fn srs_panel_lines(s: SrsPanelModel) -> nat {
    3 + newline_count(s.name) + newline_count(s.wkt) + newline_count(s.proj4)
}

/// Width in characters of the widest line of the panel's display text.
/// Each of the three values is closed by a line break, so the widest line
/// overall is the widest over each value's own segments, trailing segment
/// included.
pub open spec fn srs_panel_width(s: SrsPanelModel) -> nat {
    let a = widest_segment(s.name, 0, 0);
    let b = widest_segment(s.wkt, 0, 0);
    let c = widest_segment(s.proj4, 0, 0);
    if a >= b && a >= c {
        a
    } else if b >= c {
        b
    } else {
        c
    }
}

impl Srs {
    /// An empty panel: no descriptor yet, not focused, viewport at the
    /// origin.
    pub fn new() -> (r: Srs)
        ensures
            r@.name == Seq::<char>::empty(),
            r@.wkt == Seq::<char>::empty(),
            r@.proj4 == Seq::<char>::empty(),
            !r@.is_focused,
            r@.state == (ScrollOffset { x: 0, y: 0 }),
    {
        Srs {
            name: String::new(),
            wkt: String::new(),
            proj4: String::new(),
            is_focused: false,
            state: ScrollOffset { x: 0, y: 0 },
        }
    }

    /// A panel displaying the spatial reference of `li`, not focused, with
    /// the viewport at the origin.
    pub fn from_layerinfo(li: &LayerInfo) -> (r: Srs)
        ensures
            r@ == (SrsPanelModel {
                name: li.srs@.name,
                wkt: li.srs@.wkt,
                proj4: li.srs@.proj4,
                is_focused: false,
                state: ScrollOffset { x: 0, y: 0 },
            }),
    {
        let copied = li.srs.duplicate();
        Srs {
            name: copied.name,
            wkt: copied.wkt,
            proj4: copied.proj4,
            is_focused: false,
            state: ScrollOffset { x: 0, y: 0 },
        }
    }

    /// Number of lines of the display text, capped at the largest height
    /// the rendering surface can express.
    pub fn line_count(&self) -> (r: u16)
        ensures
            r as nat == if srs_panel_lines(self@) > 65535 {
                65535nat
            } else {
                srs_panel_lines(self@)
            },
    {
        let a = cap_u16_count(crate::text::count_newlines(self.name.as_str()));
        let b = cap_u16_count(crate::text::count_newlines(self.wkt.as_str()));
        let c = cap_u16_count(crate::text::count_newlines(self.proj4.as_str()));
        let total: usize = 3 + a + b + c;
        if total > 65535 {
            65535
        } else {
            total as u16
        }
    }

    /// Width in characters of the widest line of the display text, capped
    /// at the largest width the rendering surface can express.
    pub fn line_width(&self) -> (r: u16)
        ensures
            r as nat == if srs_panel_width(self@) > 65535 {
                65535nat
            } else {
                srs_panel_width(self@)
            },
    {
        let a = crate::text::text_width(self.name.as_str());
        let b = crate::text::text_width(self.wkt.as_str());
        let c = crate::text::text_width(self.proj4.as_str());
        let widest: usize = if a >= b && a >= c {
            a
        } else if b >= c {
            b
        } else {
            c
        };
        if widest > 65535 {
            65535
        } else {
            widest as u16
        }
    }

    /// Applies one action, as [`srs_step`] says.  Emits nothing.
    pub fn update(&mut self, action: &Action) -> (r: Option<Action>)
        ensures
            final(self)@ == srs_step(old(self)@, action@),
            r is None,
    {
        match action {
            Action::PassLayerInfo(li) => {
                let copied = li.srs.duplicate();
                self.name = copied.name;
                self.wkt = copied.wkt;
                self.proj4 = copied.proj4;
            },
            Action::ScrollDown => {
                if self.state.y < 65535 {
                    self.state.y = self.state.y + 1;
                }
            },
            Action::ScrollUp => {
                if self.state.y > 0 {
                    self.state.y = self.state.y - 1;
                }
            },
            Action::ScrollRight => {
                if self.state.x < 65535 {
                    self.state.x = self.state.x + 1;
                }
            },
            Action::ScrollLeft => {
                if self.state.x > 0 {
                    self.state.x = self.state.x - 1;
                }
            },
            _ => {},
        }
        None
    }
}

/// Caps a newline count at the largest surface height, so that the final
/// capped sum equals the capped exact sum.
fn cap_u16_count(n: usize) -> (r: usize)
    ensures
        r == if n > 65535 {
            65535int
        } else {
            n as int
        },
        r <= 65535,
{
    if n > 65535 {
        65535
    } else {
        n
    }
}

} // verus!
