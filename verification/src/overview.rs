//! The overview panel: a static landing tab.

use vstd::prelude::*;

use crate::accent::Accent;
use crate::app::Tab;
use crate::draw;
use crate::geom::Rect;

verus! {

/// A panel with nothing but a fixed line of text; it opens the tab order.
pub struct Overview;

impl Tab for Overview {
    open spec fn spec_title(&self) -> Seq<char> {
        "Overview"@
    }

    open spec fn spec_color(&self) -> Accent {
        Accent::Red
    }

    open spec fn render_effect(&self, before: draw::Cells, area: Rect) -> draw::Cells {
        draw::paragraph_effect(before, "Overview"@, area)
    }

    fn title(&self) -> (t: String) {
        "Overview".to_owned()
    }

    fn color(&self) -> (c: Accent) {
        Accent::Red
    }

    fn render(&self, area: Rect, buf: &mut ratatui::buffer::Buffer) {
        draw::draw_paragraph("Overview", area, buf);
    }
}

} // verus!
