//! What the panel says: its title, its legend and the line that shows the counter.
//!
//! A [`Panel`] is a description in plain values. It fixes every character and
//! every style that reaches the screen; where the characters land is decided
//! when the panel is drawn into a [`crate::frame::Frame`].

use vstd::prelude::*;
use vstd::string::StringExecFns;
use vstd::utf8::is_ascii_chars;

verus! {

/// How a run of text is set off from its surroundings.
#[derive(Clone, Copy, Debug, PartialEq, Eq, Structural)]
pub enum TextStyle {
    /// The terminal's own colours and weight.
    Plain,
    /// Bold.
    Bold,
    /// Blue and bold.
    BlueBold,
    /// Yellow.
    Yellow,
}

/// A run of text in one style.
#[derive(Debug)]
pub struct Span {
    /// The characters.
    pub text: String,
    /// Their style.
    pub style: TextStyle,
}

/// The mathematical value of a [`Span`].
pub struct SpanView {
    /// The characters.
    pub text: Seq<char>,
    /// Their style.
    pub style: TextStyle,
}

impl View for Span {
    type V = SpanView;

    open spec fn view(&self) -> SpanView {
        SpanView { text: self.text@, style: self.style }
    }
}

impl DeepView for Span {
    type V = SpanView;

    open spec fn deep_view(&self) -> SpanView {
        self@
    }
}

/// The three lines of text of the panel.
#[derive(Debug)]
pub struct Panel {
    /// Shown on the top border.
    pub title: Vec<Span>,
    /// Shown on the bottom border.
    pub legend: Vec<Span>,
    /// Shown inside the border.
    pub body: Vec<Span>,
}

/// The mathematical value of a [`Panel`].
pub struct PanelView {
    /// Shown on the top border.
    pub title: Seq<SpanView>,
    /// Shown on the bottom border.
    pub legend: Seq<SpanView>,
    /// Shown inside the border.
    pub body: Seq<SpanView>,
}

impl View for Panel {
    type V = PanelView;

    open spec fn view(&self) -> PanelView {
        PanelView {
            title: self.title.deep_view(),
            legend: self.legend.deep_view(),
            body: self.body.deep_view(),
        }
    }
}

/// The number of characters in a line.
pub open spec fn line_length(spans: Seq<SpanView>) -> nat
    decreases spans.len(),
{
    if spans.len() == 0 {
        0
    } else {
        line_length(spans.drop_last()) + spans.last().text.len()
    }
}

/// Whether a line can be drawn: it is ASCII throughout, so that no character
/// is wider than a cell, and its length stays below the largest column number.
pub open spec fn line_fits(spans: Seq<SpanView>) -> bool {
    &&& forall|i: int| 0 <= i < spans.len() ==> is_ascii_chars(#[trigger] spans[i].text)
    &&& line_length(spans) < u16::MAX
}

impl PanelView {
    /// Whether each of the three lines can be drawn.
    pub open spec fn fits(self) -> bool {
        line_fits(self.title) && line_fits(self.legend) && line_fits(self.body)
    }

    /// The panel that shows `counter`.
    pub open spec fn showing(counter: nat) -> PanelView {
        PanelView { title: title(), legend: legend(), body: body(counter) }
    }
}

/// A run of plain text.
pub open spec fn plain(text: Seq<char>) -> SpanView {
    SpanView { text, style: TextStyle::Plain }
}

/// A run of text that names a key.
pub open spec fn key(text: Seq<char>) -> SpanView {
    SpanView { text, style: TextStyle::BlueBold }
}

/// The title: the application's name, in bold.
pub open spec fn title() -> Seq<SpanView> {
    seq![SpanView { text: "  CodeRecall "@, style: TextStyle::Bold }]
}

/// The legend: each command, followed by the key that is bound to it.
pub open spec fn legend() -> Seq<SpanView> {
    seq![
        plain(" Decrement "@),
        key("<Left>"@),
        plain(" Increment "@),
        key("<Right>"@),
        plain(" Quit "@),
        key("<Q>"@),
    ]
}

/// The body: a label, then `counter` in decimal, in yellow.
pub open spec fn body(counter: nat) -> Seq<SpanView> {
    seq![plain("Value: "@), SpanView { text: decimal(counter), style: TextStyle::Yellow }]
}

/// The character for the digit `d`, for `d` below ten.
pub open spec fn digit(d: nat) -> char {
    if d == 0 {
        '0'
    } else if d == 1 {
        '1'
    } else if d == 2 {
        '2'
    } else if d == 3 {
        '3'
    } else if d == 4 {
        '4'
    } else if d == 5 {
        '5'
    } else if d == 6 {
        '6'
    } else if d == 7 {
        '7'
    } else if d == 8 {
        '8'
    } else {
        '9'
    }
}

/// `n` in decimal, without leading zeros.
pub open spec fn decimal(n: nat) -> Seq<char>
    decreases n,
{
    if n < 10 {
        seq![digit(n)]
    } else {
        decimal(n / 10).push(digit(n % 10))
    }
}

/// Every decimal numeral is ASCII, and a number below ten, a hundred or a
/// thousand has at most one, two or three digits.
pub proof fn lemma_decimal_is_short_ascii(n: nat)
    ensures
        is_ascii_chars(decimal(n)),
        1 <= decimal(n).len(),
        n < 10 ==> decimal(n).len() == 1,
        n < 100 ==> decimal(n).len() <= 2,
        n < 1000 ==> decimal(n).len() <= 3,
    decreases n,
{
    if n >= 10 {
        lemma_decimal_is_short_ascii(n / 10);
    }
}

impl Span {
    /// A span that holds `text` in `style`.
    pub fn new(text: &str, style: TextStyle) -> (span: Span)
        ensures
            span@ == (SpanView { text: text@, style }),
    {
        Span { text: text.to_owned(), style }
    }
}

impl Panel {
    /// The panel that shows `counter`: the title, the legend of the three
    /// commands, and the counter's value behind its label.
    pub fn showing(counter: u8) -> (panel: Panel)
        ensures
            panel@ == PanelView::showing(counter as nat),
            panel@.fits(),
    {
        let mut title: Vec<Span> = Vec::new();
        title.push(Span::new("  CodeRecall ", TextStyle::Bold));
        let mut legend: Vec<Span> = Vec::new();
        legend.push(Span::new(" Decrement ", TextStyle::Plain));
        legend.push(Span::new("<Left>", TextStyle::BlueBold));
        legend.push(Span::new(" Increment ", TextStyle::Plain));
        legend.push(Span::new("<Right>", TextStyle::BlueBold));
        legend.push(Span::new(" Quit ", TextStyle::Plain));
        legend.push(Span::new("<Q>", TextStyle::BlueBold));
        let mut body: Vec<Span> = Vec::new();
        body.push(Span::new("Value: ", TextStyle::Plain));
        body.push(Span { text: decimal_text(counter), style: TextStyle::Yellow });
        let panel = Panel { title, legend, body };
        proof {
            assert(panel@.title =~= self::title());
            assert(panel@.legend =~= self::legend());
            assert(panel@.body =~= self::body(counter as nat));
            lemma_panel_fits(counter as nat);
        }
        panel
    }
}

/// The panel for a counter below a thousand can be drawn.
pub proof fn lemma_panel_fits(counter: nat)
    requires
        counter < 1000,
    ensures
        PanelView::showing(counter).fits(),
{
    reveal_strlit("  CodeRecall ");
    reveal_strlit(" Decrement ");
    reveal_strlit("<Left>");
    reveal_strlit(" Increment ");
    reveal_strlit("<Right>");
    reveal_strlit(" Quit ");
    reveal_strlit("<Q>");
    reveal_strlit("Value: ");
    lemma_decimal_is_short_ascii(counter);
    reveal_with_fuel(line_length, 8);
    assert(line_fits(title()));
    assert(line_fits(legend()));
    assert(line_fits(body(counter)));
}

/// The text of one digit.
fn digit_text(d: u8) -> (text: &'static str)
    requires
        d < 10,
    ensures
        text@ == seq![digit(d as nat)],
{
    proof {
        reveal_strlit("0");
        reveal_strlit("1");
        reveal_strlit("2");
        reveal_strlit("3");
        reveal_strlit("4");
        reveal_strlit("5");
        reveal_strlit("6");
        reveal_strlit("7");
        reveal_strlit("8");
        reveal_strlit("9");
    }
    let text = if d == 0 {
        "0"
    } else if d == 1 {
        "1"
    } else if d == 2 {
        "2"
    } else if d == 3 {
        "3"
    } else if d == 4 {
        "4"
    } else if d == 5 {
        "5"
    } else if d == 6 {
        "6"
    } else if d == 7 {
        "7"
    } else if d == 8 {
        "8"
    } else {
        "9"
    };
    assert(text@ =~= seq![digit(d as nat)]);
    text
}

/// Writes `n` in decimal.
pub fn decimal_text(n: u8) -> (text: String)
    ensures
        text@ == decimal(n as nat),
{
    let mut text = String::new();
    if n >= 100 {
        text.append(digit_text(n / 100));
    }
    if n >= 10 {
        text.append(digit_text((n / 10) % 10));
    }
    text.append(digit_text(n % 10));
    proof {
        reveal_with_fuel(decimal, 3);
        assert(text@ =~= decimal(n as nat));
    }
    text
}

} // verus!
