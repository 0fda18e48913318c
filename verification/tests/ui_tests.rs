use booru_browser::api::Post;
use ratatui::layout::{Constraint, Direction, Layout, Rect};
use booru_browser::app::{App, Focus, SearchOutcome};
use booru_browser::ui::{
    centered_rect, controls_hint, list_selection, middle_percentages, post_details, rating_marker,
    result_title, search_title, status_line, trim_or_dash, Area, Size, screen_areas, body_areas,
    details_pane, help_area, result_items, DetailLine,
};

fn post() -> Post {
    Post {
        id: 42,
        rating: "e".to_string(),
        score: -7,
        tag_string: "a b c d e f g h i".to_string(),
        tag_string_character: "  ".to_string(),
        tag_string_copyright: "original".to_string(),
        tag_string_artist: "someone".to_string(),
        file_url: None,
        large_file_url: None,
        preview_file_url: Some("https://cdn/p.jpg".to_string()),
        image_width: Some(800),
        image_height: Some(600),
        file_ext: Some("jpg".to_string()),
    }
}

#[test]
fn rating_markers() {
    assert_eq!(rating_marker("g"), "S");
    assert_eq!(rating_marker("s"), "S");
    assert_eq!(rating_marker("q"), "Q");
    assert_eq!(rating_marker("e"), "E");
    assert_eq!(rating_marker("x"), "?");
    assert_eq!(rating_marker(""), "?");
    assert_eq!(rating_marker("gs"), "?");
}

#[test]
fn trim_or_dash_cases() {
    assert_eq!(trim_or_dash(""), "-");
    assert_eq!(trim_or_dash(" \t "), "-");
    assert_eq!(trim_or_dash(" a "), " a ");
}

#[test]
fn result_title_matches_format() {
    let p = post();
    let expected = format!("#{:<8} {:>4} {:<1} {}", p.id, p.score, "E", p.short_tags());
    assert_eq!(result_title(&p), expected);
    assert_eq!(result_title(&p), "#42         -7 E a b c d e f g h ...");
    let mut big = post();
    big.id = 123456789;
    big.score = 12345;
    big.rating = "g".to_string();
    big.tag_string = String::new();
    assert_eq!(result_title(&big), "#123456789 12345 S ");
}

#[test]
fn titles_and_status() {
    assert_eq!(search_title(3), " Danbooru Search | page 3 ");
    let mut app = App::new();
    assert_eq!(controls_hint(Focus::Search), "Enter search | Esc results | ? help | Ctrl-C quit");
    assert_eq!(status_line(&app), "Enter tags, then press Enter to search.  |  Enter search | Esc results | ? help | Ctrl-C quit");
    assert_eq!(list_selection(&app), None);
    app.finish_search(SearchOutcome::Loaded(vec![post()]));
    assert_eq!(list_selection(&app), Some(0));
    assert_eq!(
        status_line(&app),
        "Loaded 1 posts from Danbooru.  |  / search | j/k move | n/p page | o post | i image | r reload | q quit | ? help"
    );
}

fn texts(lines: Vec<DetailLine>) -> Vec<String> {
    lines.into_iter().map(|l| format!("{}{}", l.label, l.value)).collect()
}

#[test]
fn details_of_a_post() {
    let lines = post_details(&post());
    assert_eq!(lines[0].label, "Post ");
    assert_eq!(lines[0].value, "42");
    assert_eq!(lines[11].label, "Tags");
    assert_eq!(
        texts(lines),
        vec![
            "Post 42",
            "Rating: e   Score: -7",
            "File: jpg   Size: 800x600",
            "",
            "Artist: someone",
            "Character: -",
            "Copyright: original",
            "",
            "Post URL: https://danbooru.donmai.us/posts/42",
            "Image URL: https://cdn/p.jpg",
            "",
            "Tags",
            "a b c d e f g h i",
        ]
    );
    let p = Post {
        id: 7,
        rating: "s".to_string(),
        score: 3,
        tag_string: "a b".to_string(),
        tag_string_character: "".to_string(),
        tag_string_copyright: "  ".to_string(),
        tag_string_artist: "x".to_string(),
        file_url: Some("f".to_string()),
        large_file_url: None,
        preview_file_url: Some("v".to_string()),
        image_width: Some(800),
        image_height: None,
        file_ext: None,
    };
    assert_eq!(
        texts(post_details(&p)),
        vec![
            "Post 7",
            "Rating: s   Score: 3",
            "File: unknown   Size: unknown",
            "",
            "Artist: x",
            "Character: -",
            "Copyright: -",
            "",
            "Post URL: https://danbooru.donmai.us/posts/7",
            "Image URL: f",
            "",
            "Tags",
            "a b",
        ]
    );
}

#[test]
fn details_pane_follows_the_selection() {
    let mut app = App::new();
    assert_eq!(texts(details_pane(&app)), vec!["No post selected."]);
    app.finish_search(SearchOutcome::Loaded(vec![post()]));
    assert_eq!(texts(details_pane(&app))[0], "Post 42");
}

#[test]
fn result_items_one_per_post() {
    let mut app = App::new();
    assert!(result_items(&app).is_empty());
    let mut second = post();
    second.id = 43;
    app.finish_search(SearchOutcome::Loaded(vec![post(), second]));
    let items = result_items(&app);
    assert_eq!(items.len(), 2);
    assert_eq!(items[0], result_title(&app.posts[0]));
    assert!(items[1].starts_with("#43 "));
}

#[test]
fn help_area_only_with_help() {
    let mut app = App::new();
    let screen = Area { x: 0, y: 0, width: 120, height: 40 };
    assert_eq!(help_area(&app, screen), None);
    app.show_help = true;
    let popup = help_area(&app, screen).unwrap();
    assert_eq!(popup, centered_rect(68, 54, screen));
}

#[test]
fn middle_band_percentages() {
    assert_eq!(middle_percentages(68), vec![Size::Percentage(16), Size::Percentage(68), Size::Percentage(16)]);
    assert_eq!(middle_percentages(54), vec![Size::Percentage(23), Size::Percentage(54), Size::Percentage(23)]);
    assert_eq!(middle_percentages(100), vec![Size::Percentage(0), Size::Percentage(100), Size::Percentage(0)]);
}

#[test]
fn centered_rect_matches_ratatui() {
    let area = Rect { x: 0, y: 0, width: 120, height: 40 };
    let vertical = Layout::default()
        .direction(Direction::Vertical)
        .constraints([Constraint::Percentage(23), Constraint::Percentage(54), Constraint::Percentage(23)])
        .split(area);
    let expected = Layout::default()
        .direction(Direction::Horizontal)
        .constraints([Constraint::Percentage(16), Constraint::Percentage(68), Constraint::Percentage(16)])
        .split(vertical[1])[1];
    let got = centered_rect(68, 54, Area { x: 0, y: 0, width: 120, height: 40 });
    assert_eq!((got.x, got.y, got.width, got.height), (expected.x, expected.y, expected.width, expected.height));
    assert!(got.width < 120 && got.height < 40 && got.x > 0 && got.y > 0);
    let small = Area { x: 3, y: 2, width: 10, height: 5 };
    let inner = centered_rect(68, 54, small);
    assert!(inner.x >= 3 && inner.y >= 2 && inner.x + inner.width <= 13 && inner.y + inner.height <= 7);
}

fn rect_of(a: Area) -> Rect {
    Rect { x: a.x, y: a.y, width: a.width, height: a.height }
}

#[test]
fn screen_and_body_match_ratatui() {
    let area = Rect { x: 0, y: 0, width: 100, height: 30 };
    let rows = Layout::default()
        .direction(Direction::Vertical)
        .constraints([Constraint::Length(3), Constraint::Min(8), Constraint::Length(3)])
        .split(area);
    let (search, body, status) = screen_areas(Area { x: 0, y: 0, width: 100, height: 30 });
    assert_eq!([rect_of(search), rect_of(body), rect_of(status)], [rows[0], rows[1], rows[2]]);
    assert_eq!(search.height, 3);
    assert_eq!(status.height, 3);
    assert_eq!(body.height, 24);
    for short in [Area { x: 0, y: 0, width: 80, height: 10 }, Area { x: 5, y: 5, width: 0, height: 0 }] {
        let (a, b, c) = screen_areas(short);
        for part in [a, b, c] {
            assert_eq!((part.x, part.width), (short.x, short.width));
            assert!(part.y >= short.y && part.y + part.height <= short.y + short.height);
        }
    }
    let cols = Layout::default()
        .direction(Direction::Horizontal)
        .constraints([Constraint::Percentage(42), Constraint::Percentage(58)])
        .split(rows[1]);
    let (results, details) = body_areas(body);
    assert_eq!([rect_of(results), rect_of(details)], [cols[0], cols[1]]);
    assert_eq!(results.width + details.width, 100);
}

fn rounded_share(len: u16, percent: u32) -> u16 {
    ((len as u32 * percent + 50) / 100) as u16
}

#[test]
fn screen_rows_are_stacked_when_they_fit() {
    for y in [0u16, 1, 7] {
        for h in 14u16..=120 {
            let area = Area { x: 2, y, width: 50, height: h };
            let (a, b, c) = screen_areas(area);
            assert_eq!(a, Area { x: 2, y, width: 50, height: 3 });
            assert_eq!(b, Area { x: 2, y: y + 3, width: 50, height: h - 6 });
            assert_eq!(c, Area { x: 2, y: y + h - 3, width: 50, height: 3 });
        }
    }
}

#[test]
fn body_columns_split_forty_two_to_fifty_eight() {
    for x in [0u16, 3] {
        for w in 0u16..=300 {
            let area = Area { x, y: 1, width: w, height: 9 };
            let (left, right) = body_areas(area);
            let split = rounded_share(w, 42);
            assert_eq!(left, Area { x, y: 1, width: split, height: 9 }, "width {w}");
            assert_eq!(right, Area { x: x + split, y: 1, width: w - split, height: 9 }, "width {w}");
        }
    }
}

#[test]
fn centered_box_is_the_rounded_middle() {
    for percent in 0u16..=100 {
        for len in [0u16, 1, 7, 10, 33, 80, 121] {
            let area = Area { x: 4, y: 5, width: len, height: len / 2 + 3 };
            let got = centered_rect(percent, 100 - percent / 2, area);
            let side_x = (100 - percent as u32) / 2;
            let py = (100 - percent / 2) as u32;
            let side_y = (100 - py) / 2;
            let x0 = rounded_share(area.width, side_x);
            let x1 = rounded_share(area.width, side_x + percent as u32);
            let y0 = rounded_share(area.height, side_y);
            let y1 = rounded_share(area.height, side_y + py);
            let expected = Area { x: 4 + x0, y: 5 + y0, width: x1 - x0, height: y1 - y0 };
            assert_eq!(got, expected, "percent {percent} len {len}");
        }
    }
}
