//! Trusted drawing wrappers around ratatui, and the names for what they do.
//!
//! The library computes what a frame contains — rectangles, labels, colors —
//! and these wrappers turn that into glyphs in a ratatui [`Buffer`]. They are
//! the only place the library touches the drawing backend. Each wrapper
//! converts its plain arguments, clips the target rectangle to the buffer's
//! own area, and delegates to one ratatui widget; none of them decides
//! anything.
//!
//! What a widget leaves in the buffer would take pages to state glyph by
//! glyph, but it is a function of the buffer's prior contents and the
//! wrapper's arguments alone. So each wrapper's effect is given a name — an
//! uninterpreted spec function over [`buffer_cells`], the buffer's abstract
//! contents — and its contract says the new contents are exactly that
//! function of the old. The verified render functions compose these names,
//! so their contracts pin which widget drew what, where, in what order.
//!
//! [`Buffer`]: ratatui::buffer::Buffer

use vstd::prelude::*;

use crate::accent::Accent;
use crate::app::TabSegment;
use crate::geom::Rect;

verus! {

/// ratatui's drawing surface, opaque to the library: a grid of styled cells
/// that the terminal backend later flushes to the screen.
#[verifier::external_type_specification]
#[verifier::external_body]
pub struct ExBuffer(ratatui::buffer::Buffer);

/// ratatui's color type, carried only between the wrappers here.
#[verifier::external_type_specification]
#[verifier::external_body]
pub struct ExTerminalColor(ratatui::style::Color);

/// The abstract contents of a buffer's cells: one entry per cell inside the
/// buffer's own area, keyed by that cell's position.
pub type Cells = Map<(int, int), Seq<char>>;

/// What a [`Buffer`](ratatui::buffer::Buffer) holds: one entry per cell
/// inside its area, keyed by the cell's position. The entry stands for
/// everything the cell carries — its symbol and its styling — under an
/// encoding left abstract; the name is only ever used to relate buffers
/// before and after a drawing call.
pub uninterp spec fn buffer_cells(b: ratatui::buffer::Buffer) -> Cells;

/// What [`draw_tabs`] leaves in the buffer: the given labels in order on
/// `area`'s first row, each on its accent background, one-space dividers
/// between them, and the label at `selected` inverted with `highlight` as
/// its foreground; every cell outside that row keeps what `before` held.
pub uninterp spec fn tabs_effect(
    before: Cells,
    labels: Seq<Seq<char>>,
    accents: Seq<Accent>,
    selected: int,
    highlight: Accent,
    area: Rect,
) -> Cells;

/// What [`draw_block_border`] leaves in the buffer: a one-cell border on
/// `area`'s edges in the accent color; every cell strictly inside or
/// outside keeps what `before` held.
pub uninterp spec fn border_effect(before: Cells, accent: Accent, area: Rect) -> Cells;

/// What [`draw_paragraph`] leaves in the buffer: the text written into
/// `area`, top-left aligned; cells outside `area` keep what `before` held.
pub uninterp spec fn paragraph_effect(before: Cells, text: Seq<char>, area: Rect) -> Cells;

/// What [`draw_three_column_table`] leaves in the buffer: the rows laid out
/// in three columns over `area`; cells outside `area` keep what `before`
/// held.
pub uninterp spec fn table_effect(before: Cells, rows: Seq<Seq<Seq<char>>>, area: Rect) -> Cells;

/// What [`draw_lines`] leaves in the buffer: the lines written into `area`,
/// one under the other; cells outside `area` keep what `before` held.
pub uninterp spec fn lines_effect(before: Cells, lines: Seq<Seq<char>>, area: Rect) -> Cells;

/// Maps the library's color onto ratatui's, variant for variant.
#[verifier::external_body]
fn backend_color(c: Accent) -> ratatui::style::Color {
    match c {
        Accent::Reset => ratatui::style::Color::Reset,
        Accent::Red => ratatui::style::Color::Red,
        Accent::Blue => ratatui::style::Color::Blue,
    }
}

/// Relies on ratatui's `Tabs` widget: renders the given segments in order on
/// one row, each label on its accent background, a one-space divider between
/// segments and no outer padding; the segment at `selected` is restyled
/// inverted, with the `highlight` accent as its foreground. Clips to the
/// buffer.
#[verifier::external_body]
pub(crate) fn draw_tabs(
    segs: &Vec<TabSegment>,
    selected: usize,
    highlight: Accent,
    area: Rect,
    buf: &mut ratatui::buffer::Buffer,
)
    ensures
        buffer_cells(*final(buf)) == tabs_effect(
            buffer_cells(*old(buf)),
            segs@.map_values(|s: TabSegment| s.label@),
            segs@.map_values(|s: TabSegment| s.accent),
            selected as int,
            highlight,
            area,
        ),
{
    let mut titles: Vec<ratatui::text::Line> = Vec::new();
    for s in segs.iter() {
        let style = ratatui::style::Style::new().bg(backend_color(s.accent));
        titles.push(ratatui::text::Line::styled(s.label.clone(), style));
    }
    let highlight = ratatui::style::Style::new().fg(backend_color(highlight));
    let highlight = highlight.add_modifier(ratatui::style::Modifier::REVERSED);
    let tabs = ratatui::widgets::Tabs::new(titles)
        .highlight_style(highlight)
        .select(selected)
        .padding("", "")
        .divider(" ");
    let target = ratatui::layout::Rect::new(area.x, area.y, area.width, area.height);
    ratatui::widgets::Widget::render(tabs, target.intersection(buf.area), buf);
}

/// Relies on ratatui's `Block` widget: draws a one-cell border around `area`
/// in the proportional-tall glyph set, its lines styled with the accent
/// color, leaving the region inside the border untouched. Clips to the
/// buffer. The interior the library keeps free of the border is computed by
/// [`crate::geom::block_inner`].
#[verifier::external_body]
pub(crate) fn draw_block_border(accent: Accent, area: Rect, buf: &mut ratatui::buffer::Buffer)
    ensures
        buffer_cells(*final(buf)) == border_effect(buffer_cells(*old(buf)), accent, area),
{
    let block = ratatui::widgets::Block::bordered()
        .border_set(ratatui::symbols::border::PROPORTIONAL_TALL)
        .border_style(ratatui::style::Style::new().fg(backend_color(accent)));
    let target =
        ratatui::layout::Rect::new(area.x, area.y, area.width, area.height).intersection(buf.area);
    ratatui::widgets::Widget::render(block, target, buf);
}

/// Relies on ratatui's `Paragraph` widget: writes the given text into the
/// area, top-left aligned, unstyled. Clips to the buffer.
#[verifier::external_body]
pub(crate) fn draw_paragraph(text: &str, area: Rect, buf: &mut ratatui::buffer::Buffer)
    ensures
        buffer_cells(*final(buf)) == paragraph_effect(buffer_cells(*old(buf)), text@, area),
{
    let paragraph = ratatui::widgets::Paragraph::new(text);
    let target =
        ratatui::layout::Rect::new(area.x, area.y, area.width, area.height).intersection(buf.area);
    ratatui::widgets::Widget::render(paragraph, target, buf);
}

/// Relies on ratatui's `Table` widget: renders each inner vector as one row
/// of three columns, the first column taking the width the other two leave
/// over. Clips to the buffer.
#[verifier::external_body]
pub(crate) fn draw_three_column_table(
    rows: &Vec<Vec<String>>,
    area: Rect,
    buf: &mut ratatui::buffer::Buffer,
)
    ensures
        buffer_cells(*final(buf)) == table_effect(buffer_cells(*old(buf)), rows.deep_view(), area),
{
    let mut table_rows: Vec<ratatui::widgets::Row> = Vec::new();
    for r in rows.iter() {
        table_rows.push(ratatui::widgets::Row::new(r.clone()));
    }
    let widths = [
        ratatui::layout::Constraint::Fill(1),
        ratatui::layout::Constraint::Min(0),
        ratatui::layout::Constraint::Min(0),
    ];
    let table = ratatui::widgets::Table::new(table_rows, widths);
    let target =
        ratatui::layout::Rect::new(area.x, area.y, area.width, area.height).intersection(buf.area);
    ratatui::widgets::Widget::render(table, target, buf);
}

/// Relies on ratatui's `Text` widget: writes the given lines into the area,
/// one under the other, unstyled. Clips to the buffer.
#[verifier::external_body]
pub(crate) fn draw_lines(lines: &Vec<String>, area: Rect, buf: &mut ratatui::buffer::Buffer)
    ensures
        buffer_cells(*final(buf)) == lines_effect(buffer_cells(*old(buf)), lines.deep_view(), area),
{
    let mut text_lines: Vec<ratatui::text::Line> = Vec::new();
    for l in lines.iter() {
        text_lines.push(ratatui::text::Line::raw(l.clone()));
    }
    let text = ratatui::text::Text::from(text_lines);
    let target =
        ratatui::layout::Rect::new(area.x, area.y, area.width, area.height).intersection(buf.area);
    ratatui::widgets::Widget::render(text, target, buf);
}

} // verus!
