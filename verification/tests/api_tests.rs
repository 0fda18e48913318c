use booru_browser::api::{search_url, Post, API_BASE, PAGE_LIMIT};

fn post(id: u64, tags: &str) -> Post {
    Post {
        id,
        rating: "g".to_string(),
        score: 0,
        tag_string: tags.to_string(),
        tag_string_character: String::new(),
        tag_string_copyright: String::new(),
        tag_string_artist: String::new(),
        file_url: None,
        large_file_url: None,
        preview_file_url: None,
        image_width: None,
        image_height: None,
        file_ext: None,
    }
}

#[test]
fn constants() {
    assert_eq!(API_BASE, "https://danbooru.donmai.us");
    assert_eq!(PAGE_LIMIT, 20);
}

#[test]
fn post_url_names_the_post() {
    assert_eq!(post(12345, "").post_url(), "https://danbooru.donmai.us/posts/12345");
    assert_eq!(post(0, "").post_url(), "https://danbooru.donmai.us/posts/0");
}

#[test]
fn best_image_url_prefers_large_then_file_then_preview() {
    let mut p = post(1, "");
    assert_eq!(p.best_image_url(), None);
    p.preview_file_url = Some("preview".to_string());
    assert_eq!(p.best_image_url(), Some("preview"));
    p.file_url = Some("file".to_string());
    assert_eq!(p.best_image_url(), Some("file"));
    p.large_file_url = Some("large".to_string());
    assert_eq!(p.best_image_url(), Some("large"));
    p.file_url = None;
    assert_eq!(p.best_image_url(), Some("large"));
}

#[test]
fn short_tags_keeps_up_to_eight() {
    assert_eq!(post(1, "").short_tags(), "");
    assert_eq!(post(1, "   ").short_tags(), "");
    assert_eq!(post(1, " a  b\tc ").short_tags(), "a b c");
    assert_eq!(post(1, "1 2 3 4 5 6 7 8").short_tags(), "1 2 3 4 5 6 7 8");
    assert_eq!(post(1, "1 2 3 4 5 6 7 8 9").short_tags(), "1 2 3 4 5 6 7 8 ...");
    assert_eq!(post(1, "1 2 3 4 5 6 7 8 9 10 11").short_tags(), "1 2 3 4 5 6 7 8 ...");
}

#[test]
fn search_url_encodes_trimmed_query() {
    assert_eq!(
        search_url("  rating:safe landscape order:score ", 3),
        "https://danbooru.donmai.us/posts.json?tags=rating%3Asafe%20landscape%20order%3Ascore&page=3&limit=20"
    );
    assert_eq!(search_url("", 1), "https://danbooru.donmai.us/posts.json?tags=&page=1&limit=20");
    assert_eq!(search_url("a-b_c.d~e", 1), "https://danbooru.donmai.us/posts.json?tags=a-b_c.d~e&page=1&limit=20");
    assert_eq!(search_url("é", 2), "https://danbooru.donmai.us/posts.json?tags=%C3%A9&page=2&limit=20");
}

#[test]
fn short_tags_is_stable() {
    for tags in ["", "a b", "1 2 3 4 5 6 7 8", "1 2 3 4 5 6 7 8 9 10", "  x\ty  "] {
        let once = post(1, tags).short_tags();
        assert_eq!(post(1, &once).short_tags(), once);
    }
}

#[test]
fn post_urls_tell_posts_apart() {
    let a = post(12, "").post_url();
    let b = post(123, "").post_url();
    assert_ne!(a, b);
    assert_eq!(a.strip_prefix("https://danbooru.donmai.us/posts/").unwrap().parse::<u64>(), Ok(12));
}
