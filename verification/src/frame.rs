//! Frames: a panel drawn into a grid of terminal cells.
//!
//! Drawing is ratatui's work. This module hands it a [`Panel`] and an
//! [`Area`], and keeps the buffer that comes back.

use crate::panel::line_fits;
use crate::panel::Panel;
use crate::panel::PanelView;
use crate::panel::Span;
use crate::panel::TextStyle;
use ratatui::buffer::Buffer;
use ratatui::layout::Rect;
use ratatui::style::Style;
use ratatui::style::Stylize;
use ratatui::symbols::border;
use ratatui::text::Line;
use ratatui::text::Span as TuiSpan;
use ratatui::widgets::Block;
use ratatui::widgets::Paragraph;
use ratatui::widgets::Widget;
use vstd::prelude::*;

verus! {

/// A rectangle of terminal cells: its top left corner and its size.
#[derive(Clone, Copy, Debug, PartialEq, Eq, Structural)]
pub struct Area {
    /// Column of the left edge.
    pub x: u16,
    /// Row of the top edge.
    pub y: u16,
    /// Number of columns.
    pub width: u16,
    /// Number of rows.
    pub height: u16,
}

impl Area {
    /// The area with its corner at column `x` and row `y`.
    pub fn new(x: u16, y: u16, width: u16, height: u16) -> (area: Area)
        ensures
            area == (Area { x, y, width, height }),
    {
        Area { x, y, width, height }
    }
}

/// ratatui's grid of cells. Verus carries it and does not look inside.
#[verifier::external_type_specification]
#[verifier::external_body]
pub struct ExBuffer(Buffer);

/// The buffer that ratatui fills when it draws `panel` over `area`.
pub uninterp spec fn drawn_panel(panel: PanelView, area: Area) -> Buffer;

/// Draws `panel` with ratatui and returns the buffer.
///
/// The call is `Paragraph::render` into `Buffer::empty` over `Rect::new` of
/// the area's four numbers. The paragraph holds the body as its one line and
/// sits in `Block::bordered` with the thick border set, the title on the top
/// border and the legend on the bottom border; all three lines are centred.
/// Each span goes over as a ratatui span with the style that its
/// [`TextStyle`] names.
///
/// Nothing is proved of this function. Its contract claims that the buffer
/// depends on the panel and the area alone, and gives that buffer a name. The
/// precondition keeps a line's width in cells below `u16::MAX`, which
/// ratatui's title layout adds one to.
#[verifier::external_body]
fn draw_lines(title: &Vec<Span>, legend: &Vec<Span>, body: &Vec<Span>, area: Area) -> (buffer: Buffer)
    requires
        line_fits(title.deep_view()),
        line_fits(legend.deep_view()),
        line_fits(body.deep_view()),
    ensures
        buffer == drawn_panel(
            PanelView { title: title.deep_view(), legend: legend.deep_view(), body: body.deep_view() },
            area,
        ),
{
    let mut buffer = Buffer::empty(Rect::new(area.x, area.y, area.width, area.height));
    let line = |spans: &Vec<Span>| {
        Line::from_iter(spans.iter().map(|s| TuiSpan::styled(s.text.clone(), match s.style {
            TextStyle::Plain => Style::new(),
            TextStyle::Bold => Style::new().bold(),
            TextStyle::BlueBold => Style::new().blue().bold(),
            TextStyle::Yellow => Style::new().yellow(),
        }))).centered()
    };
    let block = Block::bordered().border_set(border::THICK).title(line(title)).title_bottom(line(legend));
    Paragraph::new(line(body)).block(block).render(buffer.area, &mut buffer);
    buffer
}

/// One fully drawn snapshot of the panel.
#[derive(Debug)]
pub struct Frame {
    buffer: Buffer,
}

impl View for Frame {
    type V = Buffer;

    closed spec fn view(&self) -> Buffer {
        self.buffer
    }
}

impl Frame {
    /// Draws `panel` over `area`.
    pub(crate) fn draw(panel: &Panel, area: Area) -> (frame: Frame)
        requires
            panel@.fits(),
        ensures
            frame@ == drawn_panel(panel@, area),
    {
        Frame { buffer: draw_lines(&panel.title, &panel.legend, &panel.body, area) }
    }

    /// The cells of the frame.
    pub fn buffer(&self) -> (buffer: &Buffer)
        ensures
            *buffer == self@,
    {
        &self.buffer
    }

    /// Gives up the frame for its cells.
    pub fn into_buffer(self) -> (buffer: Buffer)
        ensures
            buffer == self@,
    {
        self.buffer
    }
}

} // verus!
