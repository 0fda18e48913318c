use booru_browser::api::Post;
use booru_browser::app::{App, Command, Focus, OpenTarget, SearchOutcome};

fn post(id: u64) -> Post {
    Post {
        id,
        rating: "s".to_string(),
        score: 3,
        tag_string: "tag".to_string(),
        tag_string_character: String::new(),
        tag_string_copyright: String::new(),
        tag_string_artist: String::new(),
        file_url: Some(format!("file{id}")),
        large_file_url: None,
        preview_file_url: None,
        image_width: None,
        image_height: None,
        file_ext: None,
    }
}

fn posts(n: u64) -> Vec<Post> {
    (1..=n).map(post).collect()
}

#[test]
fn new_app_state() {
    let app = App::new();
    assert_eq!(app.query, "rating:safe");
    assert_eq!(app.page, 1);
    assert!(app.posts.is_empty());
    assert_eq!(app.selected, 0);
    assert_eq!(app.focus, Focus::Search);
    assert_eq!(app.status, "Enter tags, then press Enter to search.");
    assert!(!app.loading && !app.should_quit && !app.show_help);
}

#[test]
fn search_marks_loading_and_returns_url() {
    let mut app = App::new();
    let url = app.search();
    assert_eq!(url, "https://danbooru.donmai.us/posts.json?tags=rating%3Asafe&page=1&limit=20");
    assert!(app.loading);
    assert_eq!(app.status, "Loading page 1...");
}

#[test]
fn loaded_posts_replace_and_clamp_selection() {
    let mut app = App::new();
    app.finish_search(SearchOutcome::Loaded(posts(5)));
    assert_eq!(app.posts.len(), 5);
    assert_eq!(app.status, "Loaded 5 posts from Danbooru.");
    assert_eq!(app.focus, Focus::Results);
    assert!(!app.loading);
    app.selected = 4;
    app.finish_search(SearchOutcome::Loaded(posts(2)));
    assert_eq!(app.selected, 1);
    app.finish_search(SearchOutcome::Loaded(Vec::new()));
    assert_eq!(app.selected, 0);
    assert_eq!(app.status, "No posts found for this search.");
}

#[test]
fn failed_searches_report_the_error() {
    let mut app = App::new();
    app.search();
    app.finish_search(SearchOutcome::ParseFailed("bad json".to_string()));
    assert_eq!(app.status, "Could not parse Danbooru response: bad json");
    assert!(!app.loading);
    assert_eq!(app.focus, Focus::Search);
    app.finish_search(SearchOutcome::ErrorStatus("HTTP status 500".to_string()));
    assert_eq!(app.status, "Danbooru returned an error: HTTP status 500");
    app.finish_search(SearchOutcome::RequestFailed("timeout".to_string()));
    assert_eq!(app.status, "Request failed: timeout");
}

#[test]
fn selection_moves_within_the_list() {
    let mut app = App::new();
    app.next();
    assert_eq!(app.selected, 0);
    app.previous();
    assert_eq!(app.selected, 0);
    app.finish_search(SearchOutcome::Loaded(posts(3)));
    app.next();
    app.next();
    assert_eq!(app.selected, 2);
    app.next();
    assert_eq!(app.selected, 2);
    app.previous();
    assert_eq!(app.selected, 1);
    assert_eq!(app.selected_post().map(|p| p.id), Some(2));
}

#[test]
fn paging() {
    let mut app = App::new();
    assert_eq!(app.previous_page(), None);
    assert_eq!(app.page, 1);
    let url = app.next_page();
    assert_eq!(app.page, 2);
    assert!(url.ends_with("&page=2&limit=20"));
    assert_eq!(app.status, "Loading page 2...");
    let back = app.previous_page();
    assert_eq!(app.page, 1);
    assert!(back.unwrap().ends_with("&page=1&limit=20"));
}

#[test]
fn opening_without_selection() {
    let mut app = App::new();
    assert!(matches!(app.open_selected_post(), Command::Nothing));
    assert_eq!(app.status, "No post selected.");
    app.status = String::new();
    assert!(matches!(app.open_selected_image(), Command::Nothing));
    assert_eq!(app.status, "No post selected.");
    assert!(app.selected_post().is_none());
}

#[test]
fn opening_the_selected_post_and_image() {
    let mut app = App::new();
    app.finish_search(SearchOutcome::Loaded(posts(2)));
    app.next();
    match app.open_selected_post() {
        Command::Open(url, target) => {
            assert_eq!(url, "https://danbooru.donmai.us/posts/2");
            assert_eq!(target, OpenTarget::Post(2));
        }
        other => panic!("unexpected {other:?}"),
    }
    match app.open_selected_image() {
        Command::Open(url, target) => {
            assert_eq!(url, "file2");
            assert_eq!(target, OpenTarget::Image(2));
        }
        other => panic!("unexpected {other:?}"),
    }
    app.posts[1].file_url = None;
    assert!(matches!(app.open_selected_image(), Command::Nothing));
    assert_eq!(app.status, "Selected post has no image URL.");
}

#[test]
fn browser_outcomes() {
    let mut app = App::new();
    app.finish_open(OpenTarget::Post(7), Ok(()));
    assert_eq!(app.status, "Opened post 7.");
    app.finish_open(OpenTarget::Image(8), Ok(()));
    assert_eq!(app.status, "Opened image for post 8.");
    app.finish_open(OpenTarget::Post(7), Err("no browser".to_string()));
    assert_eq!(app.status, "Could not open browser: no browser");
}
