use code_recall::app::App;
use code_recall::event::KeyCode;
use code_recall::frame::Area;
use code_recall::panel::decimal_text;
use code_recall::panel::Panel;
use code_recall::panel::TextStyle;
use ratatui::buffer::Buffer;
use ratatui::layout::Rect;
use ratatui::style::Color;
use ratatui::style::Modifier;
use ratatui::style::Style;
use ratatui::style::Stylize;

fn row_text(buffer: &Buffer, y: u16) -> String {
    let mut text = String::new();
    for x in 0..buffer.area.width {
        text.push_str(buffer[(buffer.area.x + x, buffer.area.y + y)].symbol());
    }
    text
}

#[test]
fn render() {
    let app = App::default();
    let frame = app.render(Area::new(0, 0, 50, 4));

    let mut expected = Buffer::with_lines(vec![
        "┏━━━━━━━━━━━━━━━━━  CodeRecall ━━━━━━━━━━━━━━━━━━┓",
        "┃                    Value: 0                    ┃",
        "┃                                                ┃",
        "┗━━ Decrement <Left> Increment <Right> Quit <Q>━━┛",
    ]);
    let title_style = Style::new().bold();
    let counter_style = Style::new().yellow();
    let key_style = Style::new().blue().bold();

    expected.set_style(Rect::new(18, 0, 13, 1), title_style);
    expected.set_style(Rect::new(28, 1, 1, 1), counter_style);
    expected.set_style(Rect::new(14, 3, 6, 1), key_style);
    expected.set_style(Rect::new(31, 3, 7, 1), key_style);
    expected.set_style(Rect::new(44, 3, 3, 1), key_style);

    assert_eq!(*frame.buffer(), expected);
}

#[test]
fn render_covers_the_area_it_was_given() {
    let frame = App::default().render(Area::new(3, 2, 50, 4));
    let buffer = frame.into_buffer();
    assert_eq!(buffer.area, Rect::new(3, 2, 50, 4));
    assert_eq!(buffer.content.len(), 200);
    assert_eq!(buffer[(3, 2)].symbol(), "┏");
    assert_eq!(buffer[(52, 5)].symbol(), "┛");
}

#[test]
fn render_interior_line_is_centered() {
    let frame = App::default().render(Area::new(0, 0, 50, 4));
    assert_eq!(
        row_text(frame.buffer(), 1),
        "┃                    Value: 0                    ┃"
    );
    assert_eq!(
        row_text(frame.buffer(), 2),
        "┃                                                ┃"
    );
}

#[test]
fn render_title_and_legend_sit_on_the_borders() {
    let frame = App::default().render(Area::new(0, 0, 50, 4));
    assert_eq!(
        row_text(frame.buffer(), 0),
        "┏━━━━━━━━━━━━━━━━━  CodeRecall ━━━━━━━━━━━━━━━━━━┓"
    );
    assert_eq!(
        row_text(frame.buffer(), 3),
        "┗━━ Decrement <Left> Increment <Right> Quit <Q>━━┛"
    );
}

#[test]
fn render_styles_set_keys_and_number_apart() {
    let frame = App::default().render(Area::new(0, 0, 50, 4));
    let buffer = frame.buffer();
    // the label of a command, and the key that is bound to it
    assert_eq!(buffer[(4, 3)].symbol(), "D");
    assert_eq!(buffer[(4, 3)].fg, Color::Reset);
    assert_eq!(buffer[(4, 3)].modifier, Modifier::empty());
    assert_eq!(buffer[(14, 3)].symbol(), "<");
    assert_eq!(buffer[(14, 3)].fg, Color::Blue);
    assert_eq!(buffer[(14, 3)].modifier, Modifier::BOLD);
    // the label of the value, and the value
    assert_eq!(buffer[(21, 1)].symbol(), "V");
    assert_eq!(buffer[(21, 1)].fg, Color::Reset);
    assert_eq!(buffer[(28, 1)].symbol(), "0");
    assert_eq!(buffer[(28, 1)].fg, Color::Yellow);
    assert_eq!(buffer[(28, 1)].modifier, Modifier::empty());
    // the title
    assert_eq!(buffer[(20, 0)].symbol(), "C");
    assert_eq!(buffer[(20, 0)].modifier, Modifier::BOLD);
    // the border
    assert_eq!(buffer[(0, 0)].fg, Color::Reset);
    assert_eq!(buffer[(0, 0)].modifier, Modifier::empty());
}

#[test]
fn render_shows_the_current_counter() {
    let mut app = App::default();
    app.handle_key_event(KeyCode::Right.into()).unwrap();
    let one = app.render(Area::new(0, 0, 50, 4));
    assert_eq!(
        row_text(one.buffer(), 1),
        "┃                    Value: 1                    ┃"
    );
    app.handle_key_event(KeyCode::Right.into()).unwrap();
    let two = app.render(Area::new(0, 0, 50, 4));
    assert_eq!(
        row_text(two.buffer(), 1),
        "┃                    Value: 2                    ┃"
    );
    assert_ne!(*one.buffer(), *two.buffer());
}

#[test]
fn render_is_the_same_every_time() {
    let app = App::default();
    let area = Area::new(0, 0, 50, 4);
    let first = app.render(area);
    let second = app.render(area);
    let third = App::default().render(area);
    assert_eq!(*first.buffer(), *second.buffer());
    assert_eq!(*first.buffer(), *third.buffer());
}

#[test]
fn render_does_not_depend_on_the_exit_flag() {
    let area = Area::new(0, 0, 50, 4);
    let mut app = App::default();
    let before = app.render(area);
    app.exit();
    let after = app.render(area);
    assert_eq!(*before.buffer(), *after.buffer());
}

#[test]
fn render_into_a_wider_area() {
    let frame = App::default().render(Area::new(0, 0, 60, 3));
    assert_eq!(
        row_text(frame.buffer(), 0),
        "┏━━━━━━━━━━━━━━━━━━━━━━  CodeRecall ━━━━━━━━━━━━━━━━━━━━━━━┓"
    );
    assert_eq!(
        row_text(frame.buffer(), 1),
        "┃                         Value: 0                         ┃"
    );
    assert_eq!(
        row_text(frame.buffer(), 2),
        "┗━━━━━━━ Decrement <Left> Increment <Right> Quit <Q>━━━━━━━┛"
    );
}

#[test]
fn render_into_small_areas() {
    let empty = App::default().render(Area::new(0, 0, 0, 0));
    assert_eq!(empty.buffer().content.len(), 0);

    let cell = App::default().render(Area::new(0, 0, 1, 1));
    assert_eq!(cell.buffer().content.len(), 1);

    let narrow = App::default().render(Area::new(0, 0, 10, 3));
    assert_eq!(row_text(narrow.buffer(), 0), "┏CodeReca┓");
    assert_eq!(row_text(narrow.buffer(), 1), "┃Value: 0┃");
    assert_eq!(row_text(narrow.buffer(), 2), "┗Incremen┛");

    let flat = App::default().render(Area::new(0, 0, 50, 2));
    assert_eq!(
        row_text(flat.buffer(), 0),
        "┏━━━━━━━━━━━━━━━━━  CodeRecall ━━━━━━━━━━━━━━━━━━┓"
    );
    assert_eq!(
        row_text(flat.buffer(), 1),
        "┗━━ Decrement <Left> Increment <Right> Quit <Q>━━┛"
    );
}

#[test]
fn render_into_the_widest_and_the_tallest_area() {
    let wide = App::default().render(Area::new(0, 0, u16::MAX, 3));
    assert_eq!(wide.buffer().content.len(), 3 * 65535);
    assert_eq!(wide.buffer()[(0, 0)].symbol(), "┏");
    assert_eq!(wide.buffer()[(65534, 2)].symbol(), "┛");
    assert_eq!(wide.buffer()[(32770, 1)].symbol(), "0");

    let tall = App::default().render(Area::new(0, 0, 3, u16::MAX));
    assert_eq!(tall.buffer().content.len(), 3 * 65535);
    assert_eq!(tall.buffer()[(2, 65534)].symbol(), "┛");
}

#[test]
fn render_at_the_far_corner() {
    let frame = App::default().render(Area::new(u16::MAX - 4, u16::MAX - 2, 50, 4));
    let buffer = frame.buffer();
    assert_eq!(buffer.area.width, 4);
    assert_eq!(buffer.area.height, 2);
    assert_eq!(buffer.content.len(), 8);
}

#[test]
fn panel_holds_the_texts_and_their_styles() {
    let panel = Panel::showing(0);

    assert_eq!(panel.title.len(), 1);
    assert_eq!(panel.title[0].text, "  CodeRecall ");
    assert_eq!(panel.title[0].style, TextStyle::Bold);

    let legend: Vec<(&str, TextStyle)> =
        panel.legend.iter().map(|span| (span.text.as_str(), span.style)).collect();
    assert_eq!(
        legend,
        vec![
            (" Decrement ", TextStyle::Plain),
            ("<Left>", TextStyle::BlueBold),
            (" Increment ", TextStyle::Plain),
            ("<Right>", TextStyle::BlueBold),
            (" Quit ", TextStyle::Plain),
            ("<Q>", TextStyle::BlueBold),
        ]
    );

    assert_eq!(panel.body.len(), 2);
    assert_eq!(panel.body[0].text, "Value: ");
    assert_eq!(panel.body[0].style, TextStyle::Plain);
    assert_eq!(panel.body[1].text, "0");
    assert_eq!(panel.body[1].style, TextStyle::Yellow);
}

#[test]
fn panel_body_follows_the_counter() {
    assert_eq!(Panel::showing(1).body[1].text, "1");
    assert_eq!(Panel::showing(2).body[1].text, "2");
    assert_eq!(Panel::showing(255).body[1].text, "255");
    assert_eq!(Panel::showing(2).title[0].text, Panel::showing(0).title[0].text);
}

#[test]
fn decimal_text_writes_every_length() {
    assert_eq!(decimal_text(0), "0");
    assert_eq!(decimal_text(7), "7");
    assert_eq!(decimal_text(9), "9");
    assert_eq!(decimal_text(10), "10");
    assert_eq!(decimal_text(42), "42");
    assert_eq!(decimal_text(99), "99");
    assert_eq!(decimal_text(100), "100");
    assert_eq!(decimal_text(109), "109");
    assert_eq!(decimal_text(255), "255");
}

#[test]
fn decimal_text_agrees_with_to_string() {
    for n in 0..=u8::MAX {
        assert_eq!(decimal_text(n), n.to_string());
    }
}
