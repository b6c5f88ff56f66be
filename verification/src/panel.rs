//! One type over all the concrete panels, so a single dashboard can hold a
//! heterogeneous set of them.
//!
//! The controller is generic over any [`Tab`]; this enum is the closed sum
//! of the panels this dashboard ships with, delegating every operation to
//! the panel it wraps.

use vstd::prelude::*;

use crate::accent::Accent;
use crate::app::Tab;
use crate::cv::CV;
use crate::geom::Rect;
use crate::overview::Overview;

verus! {

/// Any one of the dashboard's panels.
pub enum Panel {
    Overview(Overview),
    Cv(CV),
}

impl Tab for Panel {
    open spec fn spec_title(&self) -> Seq<char> {
        match self {
            Panel::Overview(p) => p.spec_title(),
            Panel::Cv(p) => p.spec_title(),
        }
    }

    open spec fn spec_color(&self) -> Accent {
        match self {
            Panel::Overview(p) => p.spec_color(),
            Panel::Cv(p) => p.spec_color(),
        }
    }

    open spec fn render_effect(&self, before: crate::draw::Cells, area: Rect) -> crate::draw::Cells {
        match self {
            Panel::Overview(p) => p.render_effect(before, area),
            Panel::Cv(p) => p.render_effect(before, area),
        }
    }

    fn title(&self) -> (t: String) {
        match self {
            Panel::Overview(p) => p.title(),
            Panel::Cv(p) => p.title(),
        }
    }

    fn color(&self) -> (c: Accent) {
        match self {
            Panel::Overview(p) => p.color(),
            Panel::Cv(p) => p.color(),
        }
    }

    fn render(&self, area: Rect, buf: &mut ratatui::buffer::Buffer) {
        match self {
            Panel::Overview(p) => p.render(area, buf),
            Panel::Cv(p) => p.render(area, buf),
        }
    }
}

} // verus!
