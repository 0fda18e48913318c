use booru_browser::api::Post;
use booru_browser::app::{App, Command, Focus, OpenTarget, SearchOutcome};
use booru_browser::input::{handle_key, Key, KeyCode};

fn key(code: KeyCode) -> Key {
    Key { code, ctrl: false }
}

fn ch(c: char) -> Key {
    key(KeyCode::Char(c))
}

fn post(id: u64) -> Post {
    Post {
        id,
        rating: "q".to_string(),
        score: -1,
        tag_string: String::new(),
        tag_string_character: String::new(),
        tag_string_copyright: String::new(),
        tag_string_artist: String::new(),
        file_url: None,
        large_file_url: Some(format!("large{id}")),
        preview_file_url: None,
        image_width: None,
        image_height: None,
        file_ext: None,
    }
}

fn loaded_app(n: u64) -> App {
    let mut app = App::new();
    app.finish_search(SearchOutcome::Loaded((1..=n).map(post).collect()));
    app
}

#[test]
fn ctrl_c_quits_everywhere() {
    for focus in [Focus::Search, Focus::Results] {
        for help in [false, true] {
            let mut app = App::new();
            app.focus = focus;
            app.show_help = help;
            let cmd = handle_key(&mut app, Key { code: KeyCode::Char('c'), ctrl: true });
            assert!(app.should_quit);
            assert!(matches!(cmd, Command::Nothing));
        }
    }
}

#[test]
fn typing_edits_the_query() {
    let mut app = App::new();
    handle_key(&mut app, ch(' '));
    handle_key(&mut app, ch('c'));
    handle_key(&mut app, ch('a'));
    handle_key(&mut app, ch('t'));
    assert_eq!(app.query, "rating:safe cat");
    handle_key(&mut app, key(KeyCode::Backspace));
    assert_eq!(app.query, "rating:safe ca");
    handle_key(&mut app, ch('q'));
    assert_eq!(app.query, "rating:safe caq");
    assert!(!app.should_quit);
}

#[test]
fn q_quits_from_an_empty_search_box() {
    let mut app = App::new();
    for _ in 0..11 {
        handle_key(&mut app, key(KeyCode::Backspace));
    }
    assert_eq!(app.query, "");
    handle_key(&mut app, key(KeyCode::Backspace));
    assert_eq!(app.query, "");
    handle_key(&mut app, ch('q'));
    assert!(app.should_quit);
}

#[test]
fn enter_searches_from_the_first_page() {
    let mut app = App::new();
    app.page = 4;
    match handle_key(&mut app, key(KeyCode::Enter)) {
        Command::Fetch(url) => assert_eq!(url, "https://danbooru.donmai.us/posts.json?tags=rating%3Asafe&page=1&limit=20"),
        other => panic!("unexpected {other:?}"),
    }
    assert_eq!(app.page, 1);
    assert!(app.loading);
}

#[test]
fn esc_and_slash_switch_focus() {
    let mut app = App::new();
    handle_key(&mut app, key(KeyCode::Esc));
    assert_eq!(app.focus, Focus::Results);
    handle_key(&mut app, ch('/'));
    assert_eq!(app.focus, Focus::Search);
}

#[test]
fn help_toggles_and_swallows_keys() {
    let mut app = loaded_app(3);
    handle_key(&mut app, ch('?'));
    assert!(app.show_help);
    handle_key(&mut app, ch('j'));
    assert_eq!(app.selected, 0);
    handle_key(&mut app, ch('?'));
    assert!(!app.show_help);
    handle_key(&mut app, ch('?'));
    handle_key(&mut app, key(KeyCode::Esc));
    assert!(!app.show_help);
    assert_eq!(app.focus, Focus::Results);
    handle_key(&mut app, ch('?'));
    handle_key(&mut app, ch('q'));
    assert!(app.should_quit);
}

#[test]
fn result_keys_move_and_page() {
    let mut app = loaded_app(3);
    handle_key(&mut app, ch('j'));
    handle_key(&mut app, key(KeyCode::Down));
    handle_key(&mut app, key(KeyCode::Down));
    assert_eq!(app.selected, 2);
    handle_key(&mut app, ch('k'));
    handle_key(&mut app, key(KeyCode::Up));
    handle_key(&mut app, key(KeyCode::Up));
    assert_eq!(app.selected, 0);
    assert!(matches!(handle_key(&mut app, ch('p')), Command::Nothing));
    assert_eq!(app.page, 1);
    assert!(matches!(handle_key(&mut app, ch('n')), Command::Fetch(_)));
    assert_eq!(app.page, 2);
    assert!(matches!(handle_key(&mut app, key(KeyCode::Right)), Command::Fetch(_)));
    assert_eq!(app.page, 3);
    assert!(matches!(handle_key(&mut app, key(KeyCode::Left)), Command::Fetch(_)));
    assert_eq!(app.page, 2);
    match handle_key(&mut app, ch('r')) {
        Command::Fetch(url) => assert!(url.ends_with("&page=2&limit=20")),
        other => panic!("unexpected {other:?}"),
    }
}

#[test]
fn result_keys_open() {
    let mut app = loaded_app(2);
    match handle_key(&mut app, key(KeyCode::Enter)) {
        Command::Open(url, target) => {
            assert_eq!(url, "https://danbooru.donmai.us/posts/1");
            assert_eq!(target, OpenTarget::Post(1));
        }
        other => panic!("unexpected {other:?}"),
    }
    assert!(matches!(handle_key(&mut app, ch('o')), Command::Open(_, OpenTarget::Post(1))));
    match handle_key(&mut app, ch('i')) {
        Command::Open(url, target) => {
            assert_eq!(url, "large1");
            assert_eq!(target, OpenTarget::Image(1));
        }
        other => panic!("unexpected {other:?}"),
    }
    assert!(matches!(handle_key(&mut app, key(KeyCode::Other)), Command::Nothing));
    handle_key(&mut app, ch('q'));
    assert!(app.should_quit);
}

#[test]
fn typing_then_backspace_restores_the_query() {
    let mut app = App::new();
    let before = app.query.clone();
    handle_key(&mut app, ch('x'));
    handle_key(&mut app, key(KeyCode::Backspace));
    assert_eq!(app.query, before);
}
