use dashboard::app::{App, MAX_CONTENT_WIDTH};
use dashboard::cv::{Contact, Data, Experience, CV};
use dashboard::event::{InputEvent, KeyCode, KeyKind};
use dashboard::geom::{block_inner, centered, split_left, split_top, Rect};
use dashboard::overview::Overview;
use dashboard::panel::Panel;

fn sample_data() -> Data {
    Data {
        author: String::from("Ada Lovelace"),
        contact: Contact {
            email: String::from("ada@example.org"),
            phone: String::from("+44 1234"),
            github: String::from("github.com/ada"),
            linkedin: String::from("linkedin.com/in/ada"),
        },
        languages: Vec::new(),
        experience: vec![Experience {
            what: String::from("Analyst"),
            place: String::from("London"),
            start: String::from("1842"),
            end: None,
        }],
        projects: Vec::new(),
        interests: Vec::new(),
    }
}

fn two_panel_app() -> App<Panel> {
    App::new(vec![
        Panel::Overview(Overview),
        Panel::Cv(CV::new(sample_data())),
    ])
}

fn row_text(buf: &ratatui::buffer::Buffer, y: u16, width: u16) -> String {
    let mut s = String::new();
    for x in 0..width {
        s.push_str(buf.cell((x, y)).unwrap().symbol());
    }
    s
}

#[test]
fn narrow_area_keeps_its_full_width() {
    let area = Rect { x: 0, y: 0, width: 80, height: 24 };
    let r = centered(area, MAX_CONTENT_WIDTH);
    assert_eq!(r, Rect { x: 0, y: 0, width: 80, height: 24 });
}

#[test]
fn wide_area_is_capped_and_centered_with_equal_margins() {
    let area = Rect { x: 0, y: 0, width: 150, height: 24 };
    let r = centered(area, MAX_CONTENT_WIDTH);
    assert_eq!(r.width, 100);
    assert_eq!(r.x, 25);
    let right_margin = area.width - r.width - r.x;
    assert_eq!(r.x, right_margin);
}

#[test]
fn split_top_takes_the_requested_rows() {
    let area = Rect { x: 0, y: 0, width: 80, height: 24 };
    let (top, rest) = split_top(area, 1);
    assert_eq!(top, Rect { x: 0, y: 0, width: 80, height: 1 });
    assert_eq!(rest, Rect { x: 0, y: 1, width: 80, height: 23 });
}

#[test]
fn split_top_of_a_short_area_gives_what_there_is() {
    let area = Rect { x: 3, y: 5, width: 10, height: 2 };
    let (top, rest) = split_top(area, 3);
    assert_eq!(top, Rect { x: 3, y: 5, width: 10, height: 2 });
    assert_eq!(rest, Rect { x: 3, y: 7, width: 10, height: 0 });
}

#[test]
fn split_left_halves_the_width() {
    let area = Rect { x: 0, y: 1, width: 81, height: 23 };
    let (left, right) = split_left(area);
    assert_eq!(left, Rect { x: 0, y: 1, width: 40, height: 23 });
    assert_eq!(right, Rect { x: 40, y: 1, width: 41, height: 23 });
}

#[test]
fn block_inner_leaves_border_and_padding() {
    let area = Rect { x: 0, y: 1, width: 80, height: 23 };
    let inner = block_inner(area);
    assert_eq!(inner, Rect { x: 2, y: 2, width: 76, height: 21 });
}

#[test]
fn block_inner_of_a_tiny_area_is_empty() {
    let area = Rect { x: 7, y: 9, width: 3, height: 1 };
    let inner = block_inner(area);
    assert_eq!(inner.width, 0);
    assert_eq!(inner.height, 0);
}

#[test]
fn initial_frame_shows_both_labels_and_a_red_border() {
    let app = two_panel_app();
    let mut buf = ratatui::buffer::Buffer::empty(ratatui::layout::Rect::new(0, 0, 80, 24));
    app.render_frame(Rect { x: 0, y: 0, width: 80, height: 24 }, &mut buf);

    let header = row_text(&buf, 0, 80);
    assert!(header.starts_with("  Overview     CV  "));

    // the overview panel's text sits inside the bordered region
    let content = row_text(&buf, 2, 80);
    assert!(content.contains("Overview"));

    // the border is drawn and carries the selected panel's accent
    let corner = buf.cell((0, 1)).unwrap();
    assert_ne!(corner.symbol(), " ");
    assert_eq!(corner.fg, ratatui::style::Color::Red);

    // the selected segment is inverted, its accent as the foreground
    let selected_cell = buf.cell((2u16, 0u16)).unwrap();
    assert_eq!(selected_cell.fg, ratatui::style::Color::Red);
    assert!(selected_cell.modifier.contains(ratatui::style::Modifier::REVERSED));
    // the unselected segment keeps its accent background, uninverted
    let other_cell = buf.cell((15u16, 0u16)).unwrap();
    assert_eq!(other_cell.bg, ratatui::style::Color::Blue);
    assert!(!other_cell.modifier.contains(ratatui::style::Modifier::REVERSED));
}

#[test]
fn advancing_turns_the_border_blue_and_shows_the_cv() {
    let mut app = two_panel_app();
    app.handle_event(InputEvent::Key(KeyCode::Right, KeyKind::Press));
    let mut buf = ratatui::buffer::Buffer::empty(ratatui::layout::Rect::new(0, 0, 80, 24));
    app.render_frame(Rect { x: 0, y: 0, width: 80, height: 24 }, &mut buf);

    let corner = buf.cell((0, 1)).unwrap();
    assert_eq!(corner.fg, ratatui::style::Color::Blue);

    // the highlight moved: the CV segment is now the inverted one
    let selected_cell = buf.cell((15u16, 0u16)).unwrap();
    assert_eq!(selected_cell.fg, ratatui::style::Color::Blue);
    assert!(selected_cell.modifier.contains(ratatui::style::Modifier::REVERSED));
    let other_cell = buf.cell((2u16, 0u16)).unwrap();
    assert!(!other_cell.modifier.contains(ratatui::style::Modifier::REVERSED));

    // the CV header table shows the author inside the content region
    let content = row_text(&buf, 2, 80);
    assert!(content.contains("Ada Lovelace"));

    // the experience entry sits in the right half of the content region
    let mut right_half = String::new();
    for y in 4..23 {
        right_half.push_str(&row_text(&buf, y, 80));
    }
    assert!(right_half.contains("London"));
}

#[test]
fn wide_frame_leaves_margins_outside_the_capped_region() {
    let app = two_panel_app();
    let mut buf = ratatui::buffer::Buffer::empty(ratatui::layout::Rect::new(0, 0, 150, 24));
    app.render_frame(Rect { x: 0, y: 0, width: 150, height: 24 }, &mut buf);

    let header = row_text(&buf, 0, 150);
    // the tab bar starts at the centered region's left edge, not at column 0
    assert!(header.starts_with(&" ".repeat(25)));
    assert_eq!(&header[25..44], "  Overview     CV  ");

    // nothing is drawn left of the centered region or right of it
    for x in 0..25 {
        assert_eq!(buf.cell((x, 1u16)).unwrap().symbol(), " ");
    }
    assert_ne!(buf.cell((25u16, 1u16)).unwrap().symbol(), " ");
    for x in 125..150 {
        assert_eq!(buf.cell((x, 1u16)).unwrap().symbol(), " ");
    }
}
