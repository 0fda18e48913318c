use vstd::prelude::*;

use crate::api::{percent_encoded, search_url_of, short_tags_of, Post, API_BASE};
use crate::app::{loading_status, opened_status, AppView, CommandView, Focus, OpenTarget, SearchOutcome};
use crate::input::{key_transition, Key, KeyCode};
use crate::text::{
    decimal, is_white_space, join_with_spaces, lemma_decimal_reads, lemma_signed_decimal_reads,
    lemma_words_are_words, lemma_words_of_join, reads_as, reads_as_signed, signed_decimal, trim,
    trim_end, trim_start, words, all_words, is_word, all_white_space,
};
use crate::ui::{detail_lines_of, rating_marker_of, result_title_of, status_line_of, trim_or_dash_of};
use vstd::utf8::encode_utf8;

verus! {

/// Whether `s` is `pre`, then the decimal notation of `n`, then `post`.
pub open spec fn frames_number(s: Seq<char>, pre: Seq<char>, n: nat, post: Seq<char>) -> bool {
    &&& s.len() >= pre.len() + post.len()
    &&& s.subrange(0, pre.len() as int) == pre
    &&& s.subrange(s.len() - post.len(), s.len() as int) == post
    &&& reads_as(s.subrange(pre.len() as int, s.len() - post.len()), n)
}

/// A number written between two texts can be read back.
pub proof fn lemma_frames_number(pre: Seq<char>, n: nat, post: Seq<char>)
    ensures
        frames_number(pre + decimal(n) + post, pre, n, post),
{
    let s = pre + decimal(n) + post;
    lemma_decimal_reads(n);
    assert(s.subrange(0, pre.len() as int) =~= pre);
    assert(s.subrange(s.len() - post.len(), s.len() as int) =~= post);
    assert(s.subrange(pre.len() as int, s.len() - post.len()) =~= decimal(n));
}

/// Whether `core` is `q` with its leading and trailing white space cut off.
pub open spec fn is_trim_of(core: Seq<char>, q: Seq<char>) -> bool {
    exists|i: int, j: int|
        #![trigger q.subrange(i, j)]
        0 <= i <= j <= q.len() && core == q.subrange(i, j) && (forall|k: int|
            0 <= k < i ==> is_white_space(#[trigger] q[k])) && (forall|k: int|
            j <= k < q.len() ==> is_white_space(#[trigger] q[k])) && (core.len() > 0 ==> !is_white_space(core[0])
            && !is_white_space(core.last()))
}

proof fn lemma_trim_start(s: Seq<char>) -> (i: int)
    ensures
        0 <= i <= s.len(),
        trim_start(s) == s.subrange(i, s.len() as int),
        forall|k: int| 0 <= k < i ==> is_white_space(#[trigger] s[k]),
        i < s.len() ==> !is_white_space(s[i]),
    decreases s.len(),
{
    if s.len() > 0 && is_white_space(s[0]) {
        let t = s.drop_first();
        let j = lemma_trim_start(t);
        assert forall|k: int| 0 <= k < j + 1 implies is_white_space(#[trigger] s[k]) by {
            if k > 0 {
                assert(s[k] == t[k - 1]);
            }
        }
        assert(t.subrange(j, t.len() as int) =~= s.subrange(j + 1, s.len() as int));
        if j + 1 < s.len() {
            assert(s[j + 1] == t[j]);
        }
        j + 1
    } else {
        assert(s.subrange(0, s.len() as int) =~= s);
        0
    }
}

proof fn lemma_trim_end(s: Seq<char>) -> (j: int)
    ensures
        0 <= j <= s.len(),
        trim_end(s) == s.subrange(0, j),
        forall|k: int| j <= k < s.len() ==> is_white_space(#[trigger] s[k]),
        j > 0 ==> !is_white_space(s[j - 1]),
    decreases s.len(),
{
    if s.len() > 0 && is_white_space(s.last()) {
        let t = s.drop_last();
        let j = lemma_trim_end(t);
        assert forall|k: int| j <= k < s.len() implies is_white_space(#[trigger] s[k]) by {
            if k < t.len() {
                assert(s[k] == t[k]);
            }
        }
        assert(t.subrange(0, j) =~= s.subrange(0, j));
        if j > 0 {
            assert(s[j - 1] == t[j - 1]);
        }
        j
    } else {
        assert(s.subrange(0, s.len() as int) =~= s);
        s.len() as int
    }
}

/// Trimming cuts off exactly the white space at both ends: what is left is
/// a middle part of the text that starts and ends with other characters.
pub proof fn trim_cuts_only_outer_white_space(q: Seq<char>)
    ensures
        is_trim_of(trim(q), q),
{
    let i = lemma_trim_start(q);
    let u = q.subrange(i, q.len() as int);
    let j = lemma_trim_end(u);
    let core = u.subrange(0, j);
    assert(core =~= q.subrange(i, i + j));
    assert forall|k: int| i + j <= k < q.len() implies is_white_space(#[trigger] q[k]) by {
        assert(q[k] == u[k - i]);
    }
    if core.len() > 0 {
        assert(core[0] == q[i]);
        assert(core.last() == u[j - 1]);
    }
    assert(q.subrange(i, i + j) == core);
}

/// The search address asks the server for the trimmed query, percent-encoded
/// as the tags, at the page asked for, twenty posts per page: the page
/// field reads back as the page number.
pub proof fn search_url_asks_for_the_page(q: Seq<char>, page: nat)
    ensures
        ({
            let url = search_url_of(q, page);
            let head = API_BASE@ + "/posts.json?tags="@ + percent_encoded(encode_utf8(trim(q))) + "&page="@;
            frames_number(url, head, page, "&limit=20"@)
        }),
        is_trim_of(trim(q), q),
{
    let head = API_BASE@ + "/posts.json?tags="@ + percent_encoded(encode_utf8(trim(q))) + "&page="@;
    assert(decimal(20) =~= seq!['2', '0']) by {
        reveal_with_fuel(decimal, 3);
    }
    reveal_strlit("&limit=");
    reveal_strlit("&limit=20");
    assert("&limit="@ + decimal(20) =~= "&limit=20"@);
    assert(search_url_of(q, page) =~= head + decimal(page) + "&limit=20"@);
    lemma_frames_number(head, page, "&limit=20"@);
    trim_cuts_only_outer_white_space(q);
}

/// The status line while a page loads names that page.
pub proof fn loading_status_names_the_page(page: nat)
    ensures
        frames_number(loading_status(page), "Loading page "@, page, "..."@),
{
    lemma_frames_number("Loading page "@, page, "..."@);
}

/// Opening the image of the selected post opens its large file if it has
/// one, else its file, else its preview; with none of them, or with no
/// selection, nothing is opened and the status line says why.
pub proof fn opening_the_image_prefers_large_then_file_then_preview(v: AppView)
    ensures
        !v.has_selection() ==> v.opening_image() == (
            AppView { status: "No post selected."@, ..v },
            CommandView::Nothing,
        ),
        v.has_selection() ==> ({
            let p: Post = v.posts[v.selected as int];
            &&& (p.large_file_url matches Some(u) ==> v.opening_image() == (
                v,
                CommandView::Open(u@, OpenTarget::Image(p.id)),
            ))
            &&& (p.large_file_url is None ==> (p.file_url matches Some(u) ==> v.opening_image() == (
                v,
                CommandView::Open(u@, OpenTarget::Image(p.id)),
            )))
            &&& (p.large_file_url is None && p.file_url is None ==> (p.preview_file_url matches Some(
                u,
            ) ==> v.opening_image() == (v, CommandView::Open(u@, OpenTarget::Image(p.id)))))
            &&& (p.large_file_url is None && p.file_url is None && p.preview_file_url is None
                ==> v.opening_image() == (
                AppView { status: "Selected post has no image URL."@, ..v },
                CommandView::Nothing,
            ))
        }),
{
}

/// Opening the selected post opens its page on the server, whose address
/// ends in the post's id; with no selection nothing is opened.
pub proof fn opening_the_post_opens_its_page(v: AppView)
    ensures
        !v.has_selection() ==> v.opening_post() == (
            AppView { status: "No post selected."@, ..v },
            CommandView::Nothing,
        ),
        v.has_selection() ==> v.opening_post().0 == v,
        v.has_selection() ==> (v.opening_post().1 matches CommandView::Open(u, t) && t
            == OpenTarget::Post(v.posts[v.selected as int].id) && frames_number(
            u,
            API_BASE@ + "/posts/"@,
            v.posts[v.selected as int].id as nat,
            Seq::empty(),
        )),
{
    if v.has_selection() {
        let id = v.posts[v.selected as int].id as nat;
        lemma_frames_number(API_BASE@ + "/posts/"@, id, Seq::empty());
        assert(API_BASE@ + "/posts/"@ + decimal(id) + Seq::<char>::empty() =~= API_BASE@
            + "/posts/"@ + decimal(id));
    }
}


/// The state after pressing `code`, with or without Control.
pub open spec fn press(v: AppView, code: KeyCode, ctrl: bool) -> (AppView, CommandView) {
    key_transition(v, Key { code, ctrl })
}

/// Whether `w` is `v` turned to page `page` and loading it, with `cmd`
/// fetching that page of the current query.
pub open spec fn loads_page(v: AppView, w: AppView, cmd: CommandView, page: nat) -> bool {
    &&& w == AppView { page, loading: true, status: loading_status(page), ..v }
    &&& cmd == CommandView::Fetch(search_url_of(v.query, page))
}

/// The paging keys of the result list: `p` and Left load the previous page
/// (there is none before page 1), `n` and Right the next, `r` reloads the
/// current one.
pub proof fn result_list_paging_keys(v: AppView, ctrl: bool)
    requires
        !v.show_help,
        v.focus == Focus::Results,
    ensures
        press(v, KeyCode::Char('p'), ctrl) == press(v, KeyCode::Left, ctrl),
        v.page > 1 ==> loads_page(v, press(v, KeyCode::Left, ctrl).0, press(v, KeyCode::Left, ctrl).1, (v.page - 1) as nat),
        v.page <= 1 ==> press(v, KeyCode::Left, ctrl) == (v, CommandView::Nothing),
        press(v, KeyCode::Char('n'), ctrl) == press(v, KeyCode::Right, ctrl),
        loads_page(v, press(v, KeyCode::Right, ctrl).0, press(v, KeyCode::Right, ctrl).1, v.page + 1),
        loads_page(v, press(v, KeyCode::Char('r'), ctrl).0, press(v, KeyCode::Char('r'), ctrl).1, v.page),
{
}

/// The selection keys of the result list: `j` and Down move one post down,
/// stopping at the last; `k` and Up one post up, stopping at the first.
pub proof fn result_list_selection_keys(v: AppView, ctrl: bool)
    requires
        !v.show_help,
        v.focus == Focus::Results,
    ensures
        press(v, KeyCode::Char('j'), ctrl) == press(v, KeyCode::Down, ctrl),
        press(v, KeyCode::Down, ctrl).1 == CommandView::Nothing,
        press(v, KeyCode::Down, ctrl).0 == (AppView { selected: moved_down_to(v), ..v }),
        press(v, KeyCode::Char('k'), ctrl) == press(v, KeyCode::Up, ctrl),
        press(v, KeyCode::Up, ctrl).1 == CommandView::Nothing,
        press(v, KeyCode::Up, ctrl).0 == (AppView { selected: moved_up_to(v), ..v }),
{
}

/// Where Down takes the selection: one further, but not past the last post.
pub open spec fn moved_down_to(v: AppView) -> nat {
    if v.posts.len() == 0 {
        v.selected
    } else if v.selected + 1 < v.posts.len() {
        v.selected + 1
    } else {
        (v.posts.len() - 1) as nat
    }
}

/// Where Up takes the selection: one back, but not before the first post.
pub open spec fn moved_up_to(v: AppView) -> nat {
    if v.selected > 0 {
        (v.selected - 1) as nat
    } else {
        0
    }
}

/// The other keys of the result list: `/` goes to the search box, `?` shows
/// the help, `q` quits, Enter and `o` open the selected post, `i` its image.
pub proof fn result_list_other_keys(v: AppView, ctrl: bool)
    requires
        !v.show_help,
        v.focus == Focus::Results,
    ensures
        press(v, KeyCode::Char('/'), ctrl) == (AppView { focus: Focus::Search, ..v }, CommandView::Nothing),
        press(v, KeyCode::Char('?'), ctrl) == (AppView { show_help: true, ..v }, CommandView::Nothing),
        press(v, KeyCode::Char('q'), ctrl) == (AppView { should_quit: true, ..v }, CommandView::Nothing),
        press(v, KeyCode::Enter, ctrl) == v.opening_post(),
        press(v, KeyCode::Char('o'), ctrl) == v.opening_post(),
        press(v, KeyCode::Char('i'), ctrl) == v.opening_image(),
{
}

/// What Backspace leaves of the query: all but its last character.
pub open spec fn without_last(q: Seq<char>) -> Seq<char> {
    q.subrange(0, if q.len() > 0 { q.len() - 1 } else { 0 })
}

/// The keys of the search box: Esc goes to the result list, Enter searches
/// from page 1, Backspace deletes the last character.
pub proof fn search_box_editing_keys(v: AppView, ctrl: bool)
    requires
        !v.show_help,
        v.focus == Focus::Search,
    ensures
        press(v, KeyCode::Esc, ctrl) == (AppView { focus: Focus::Results, ..v }, CommandView::Nothing),
        loads_page(v, press(v, KeyCode::Enter, ctrl).0, press(v, KeyCode::Enter, ctrl).1, 1),
        press(v, KeyCode::Backspace, ctrl).1 == CommandView::Nothing,
        press(v, KeyCode::Backspace, ctrl).0 == (AppView { query: without_last(v.query), ..v }),
{
    if v.query.len() == 0 {
        assert(v.query =~= without_last(v.query));
    } else {
        assert(v.query.drop_last() =~= without_last(v.query));
    }
}

/// Characters in the search box: `?` shows the help, `q` quits when the box
/// is empty, and every other character is typed at the end of the query.
pub proof fn search_box_character_keys(v: AppView, c: char, ctrl: bool)
    requires
        !v.show_help,
        v.focus == Focus::Search,
        !(ctrl && c == 'c'),
    ensures
        c == '?' ==> press(v, KeyCode::Char(c), ctrl) == (AppView { show_help: true, ..v }, CommandView::Nothing),
        c == 'q' && v.query.len() == 0 ==> press(v, KeyCode::Char(c), ctrl) == (AppView { should_quit: true, ..v }, CommandView::Nothing),
        c != '?' && !(c == 'q' && v.query.len() == 0) ==> press(v, KeyCode::Char(c), ctrl) == (AppView { query: v.query + seq![c], ..v }, CommandView::Nothing),
{
    assert(v.query.push(c) =~= v.query + seq![c]);
}


/// Whether `s` holds a character that is not white space.
pub open spec fn has_text(s: Seq<char>) -> bool {
    exists|i: int| 0 <= i < s.len() && !is_white_space(#[trigger] s[i])
}

/// Whether `shown` is how the details pane shows `value`: the value
/// itself when it has text, a dash when it is blank.
pub open spec fn shown_or_dash(value: Seq<char>, shown: Seq<char>) -> bool {
    &&& has_text(value) ==> shown == value
    &&& !has_text(value) ==> shown == seq!['-']
}

/// Whether `shown` is how the details pane shows the image address of `p`:
/// the large file, else the file, else the preview, else `none`.
pub open spec fn image_shown(p: Post, shown: Seq<char>) -> bool {
    &&& (p.large_file_url matches Some(u) ==> shown == u@)
    &&& (p.large_file_url is None ==> (p.file_url matches Some(u) ==> shown == u@))
    &&& (p.large_file_url is None && p.file_url is None ==> (p.preview_file_url matches Some(u) ==> shown == u@))
    &&& (p.large_file_url is None && p.file_url is None && p.preview_file_url is None ==> shown == "none"@)
}

/// Whether `s` reads as `w`, an `x`, then `h`.
pub open spec fn reads_as_size(s: Seq<char>, w: nat, h: nat) -> bool {
    exists|i: int|
        #![trigger s.subrange(0, i)]
        0 < i < s.len() && s[i] == 'x' && reads_as(s.subrange(0, i), w) && reads_as(s.subrange(i + 1, s.len() as int), h)
}

/// A blank value shows as a dash, any other value as itself.
pub proof fn blank_values_show_as_a_dash(value: Seq<char>)
    ensures
        shown_or_dash(value, trim_or_dash_of(value)),
{
    if has_text(value) {
        assert(!all_white_space(value));
    }
}

/// The details pane shows, line by line: `Post` and the id; the rating and
/// the score; the file type (or `unknown`) and the size `WxH` (or
/// `unknown`); a blank line; the artist, character and copyright tags, each
/// as it is or a dash when blank; a blank line; the post's address, ending
/// in its id; the best image address (or `none`); a blank line; `Tags`; and
/// the whole tag string.
pub proof fn details_show_the_post(p: Post)
    ensures
        ({
            let l = detail_lines_of(p);
            let rating_head = "Rating: "@ + p.rating@ + "   Score: "@;
            let file_head = "File: "@ + (match p.file_ext {
                Some(e) => e@,
                None => "unknown"@,
            }) + "   Size: "@;
            let size = l[2].1.subrange(file_head.len() as int, l[2].1.len() as int);
            &&& l.len() == 13
            &&& l[0].0 == "Post "@ && reads_as(l[0].1, p.id as nat)
            &&& l[1].0.len() == 0 && l[1].1.len() >= rating_head.len()
            &&& l[1].1.subrange(0, rating_head.len() as int) == rating_head
            &&& reads_as_signed(l[1].1.subrange(rating_head.len() as int, l[1].1.len() as int), p.score as int)
            &&& l[2].0.len() == 0 && l[2].1.len() >= file_head.len()
            &&& l[2].1.subrange(0, file_head.len() as int) == file_head
            &&& (p.image_width matches Some(w) ==> (p.image_height matches Some(h) ==> reads_as_size(size, w as nat, h as nat)))
            &&& (p.image_width is None || p.image_height is None ==> size == "unknown"@)
            &&& l[3].0.len() == 0 && l[3].1.len() == 0
            &&& l[4].0 == "Artist: "@ && shown_or_dash(p.tag_string_artist@, l[4].1)
            &&& l[5].0 == "Character: "@ && shown_or_dash(p.tag_string_character@, l[5].1)
            &&& l[6].0 == "Copyright: "@ && shown_or_dash(p.tag_string_copyright@, l[6].1)
            &&& l[7].0.len() == 0 && l[7].1.len() == 0
            &&& l[8].0 == "Post URL: "@ && frames_number(l[8].1, API_BASE@ + "/posts/"@, p.id as nat, Seq::empty())
            &&& l[9].0 == "Image URL: "@ && image_shown(p, l[9].1)
            &&& l[10].0.len() == 0 && l[10].1.len() == 0
            &&& l[11].0 == "Tags"@ && l[11].1.len() == 0
            &&& l[12].0.len() == 0 && l[12].1 == p.tag_string@
        }),
{
    let l = detail_lines_of(p);
    lemma_decimal_reads(p.id as nat);
    lemma_signed_decimal_reads(p.score as int);
    let rating_head = "Rating: "@ + p.rating@ + "   Score: "@;
    assert(l[1].1.subrange(0, rating_head.len() as int) =~= rating_head);
    assert(l[1].1.subrange(rating_head.len() as int, l[1].1.len() as int) =~= signed_decimal(p.score as int));
    let file_head = "File: "@ + (match p.file_ext {
        Some(e) => e@,
        None => "unknown"@,
    }) + "   Size: "@;
    assert(l[2].1.subrange(0, file_head.len() as int) =~= file_head);
    let size = l[2].1.subrange(file_head.len() as int, l[2].1.len() as int);
    assert(size =~= crate::ui::dimensions_of(p));
    if p.image_width is Some && p.image_height is Some {
        let w = p.image_width->0 as nat;
        let h = p.image_height->0 as nat;
        lemma_decimal_reads(w);
        lemma_decimal_reads(h);
        reveal_strlit("x");
        let i = decimal(w).len() as int;
        assert(size.subrange(0, i) =~= decimal(w));
        assert(size.subrange(i + 1, size.len() as int) =~= decimal(h));
        assert(size[i] == 'x');
    }
    blank_values_show_as_a_dash(p.tag_string_artist@);
    blank_values_show_as_a_dash(p.tag_string_character@);
    blank_values_show_as_a_dash(p.tag_string_copyright@);
    lemma_frames_number(API_BASE@ + "/posts/"@, p.id as nat, Seq::empty());
    assert(API_BASE@ + "/posts/"@ + decimal(p.id as nat) + Seq::<char>::empty() =~= API_BASE@ + "/posts/"@ + decimal(p.id as nat));
}


/// The spaces that pad `s` to `width` characters.
pub open spec fn fill(s: Seq<char>, width: nat) -> Seq<char> {
    Seq::new(if s.len() < width { (width - s.len()) as nat } else { 0 }, |_i: int| ' ')
}

/// A line of the result list reads: `#` and the id, padded to 8 characters;
/// a space; the score right-aligned in 4; a space; the rating mark (`S` for
/// general and sensitive, `Q` for questionable, `E` for explicit, `?` for
/// anything else); a space; and the short tag line.
pub proof fn result_line_shows_the_post(p: Post)
    ensures
        ({
            let t = result_title_of(p);
            let ds = decimal(p.id as nat);
            let ss = signed_decimal(p.score as int);
            let head = "#"@ + ds + fill(ds, 8) + " "@ + fill(ss, 4) + ss + " "@;
            let r = p.rating@;
            let mark = t[head.len() as int];
            &&& reads_as(ds, p.id as nat)
            &&& reads_as_signed(ss, p.score as int)
            &&& t.len() == head.len() + 2 + short_tags_of(p.tag_string@).len()
            &&& t.subrange(0, head.len() as int) == head
            &&& t.subrange(head.len() as int + 1, t.len() as int) == " "@ + short_tags_of(p.tag_string@)
            &&& (r == seq!['g'] || r == seq!['s'] ==> mark == 'S')
            &&& (r == seq!['q'] ==> mark == 'Q')
            &&& (r == seq!['e'] ==> mark == 'E')
            &&& (r != seq!['g'] && r != seq!['s'] && r != seq!['q'] && r != seq!['e'] ==> mark == '?')
        }),
{
    let t = result_title_of(p);
    let ds = decimal(p.id as nat);
    let ss = signed_decimal(p.score as int);
    lemma_decimal_reads(p.id as nat);
    lemma_signed_decimal_reads(p.score as int);
    let head = "#"@ + ds + fill(ds, 8) + " "@ + fill(ss, 4) + ss + " "@;
    reveal_strlit(" ");
    let m = rating_marker_of(p.rating@);
    assert(m.len() == 1);
    assert(crate::text::pad_end(ds, 8) =~= ds + fill(ds, 8));
    assert(crate::text::pad_start(ss, 4) =~= fill(ss, 4) + ss);
    assert(crate::text::pad_end(m, 1) == m);
    let short = short_tags_of(p.tag_string@);
    assert(t =~= head + m + " "@ + short);
    assert(t.subrange(0, head.len() as int) =~= head);
    assert(t.subrange(head.len() as int + 1, t.len() as int) =~= " "@ + short);
    assert(t[head.len() as int] == m[0]);
    let r = p.rating@;
    let mark = t[head.len() as int];
    assert(seq!['q'] != seq!['g'] && seq!['q'] != seq!['s']) by {
        assert(seq!['q'][0] != seq!['g'][0] && seq!['q'][0] != seq!['s'][0]);
    }
    assert(seq!['e'] != seq!['g'] && seq!['e'] != seq!['s'] && seq!['e'] != seq!['q']) by {
        assert(seq!['e'][0] != seq!['g'][0] && seq!['e'][0] != seq!['s'][0] && seq!['e'][0] != seq!['q'][0]);
    }
    assert(t.len() == head.len() + 2 + short.len());
    assert(r == seq!['g'] || r == seq!['s'] ==> mark == 'S');
    assert(r == seq!['q'] ==> mark == 'Q');
    assert(r == seq!['e'] ==> mark == 'E');
    assert(r != seq!['g'] && r != seq!['s'] && r != seq!['q'] && r != seq!['e'] ==> mark == '?');
}

/// The short tag line is the first eight tags of the tag string, followed
/// by `...` as a ninth word when there are more: its words are those tags.
pub proof fn short_tags_keep_the_first_eight(tag_string: Seq<char>)
    ensures
        words(tag_string).len() <= 8 ==> words(short_tags_of(tag_string)) == words(tag_string),
        words(tag_string).len() > 8 ==> words(short_tags_of(tag_string)) == words(tag_string).take(8).push("..."@),
{
    let ws = words(tag_string);
    lemma_words_are_words(tag_string);
    if ws.len() > 8 {
        let dots = "..."@;
        reveal_strlit("...");
        reveal_strlit(" ...");
        assert(is_word(dots)) by {
            assert forall|j: int| 0 <= j < dots.len() implies !is_white_space(#[trigger] dots[j]) by {
                assert(dots[j] == '.');
            }
        }
        let kept = ws.take(8);
        let u = kept.push(dots);
        assert(all_words(u)) by {
            assert forall|i: int| 0 <= i < u.len() implies is_word(#[trigger] u[i]) by {
                if i < 8 {
                    assert(u[i] == ws[i]);
                }
            }
        }
        assert(u.drop_last() == kept);
        assert(" ..."@ == seq![' '] + dots);
        assert(join_with_spaces(u) == join_with_spaces(kept) + seq![' '] + dots);
        assert(short_tags_of(tag_string) == join_with_spaces(u));
        lemma_words_of_join(u);
    } else {
        lemma_words_of_join(ws);
    }
}


/// Where the selection lands after a page of `n` posts is loaded: where it
/// was, but on the last post at most (at 0 when nothing was found).
pub open spec fn kept_selection(selected: nat, n: nat) -> nat {
    if n == 0 {
        0
    } else if selected < n {
        selected
    } else {
        (n - 1) as nat
    }
}

/// A loaded page replaces the posts, keeps the selection within them, moves
/// the focus to the result list, ends the loading and says how many posts
/// came (or that none did); a failed fetch keeps the posts, ends the
/// loading and shows the error after a line saying what failed.
pub proof fn search_outcomes(v: AppView, outcome: SearchOutcome)
    ensures
        outcome matches SearchOutcome::Loaded(posts) ==> ({
            let w = v.after_search(outcome);
            &&& w == (AppView {
                posts: posts@,
                selected: kept_selection(v.selected, posts@.len()),
                focus: Focus::Results,
                loading: false,
                status: w.status,
                ..v
            })
            &&& posts@.len() == 0 ==> w.status == "No posts found for this search."@
            &&& posts@.len() > 0 ==> frames_number(w.status, "Loaded "@, posts@.len(), " posts from Danbooru."@)
        }),
        outcome matches SearchOutcome::ParseFailed(e) ==> v.after_search(outcome) == (AppView {
            loading: false,
            status: "Could not parse Danbooru response: "@ + e@,
            ..v
        }),
        outcome matches SearchOutcome::ErrorStatus(e) ==> v.after_search(outcome) == (AppView {
            loading: false,
            status: "Danbooru returned an error: "@ + e@,
            ..v
        }),
        outcome matches SearchOutcome::RequestFailed(e) ==> v.after_search(outcome) == (AppView {
            loading: false,
            status: "Request failed: "@ + e@,
            ..v
        }),
{
    if let SearchOutcome::Loaded(posts) = outcome {
        lemma_frames_number("Loaded "@, posts@.len(), " posts from Danbooru."@);
    }
}

/// After handing an address to the browser the status line says what was
/// opened, naming the post's id, or why the browser could not be opened.
pub proof fn browser_outcomes(target: OpenTarget, outcome: Result<(), Seq<char>>)
    ensures
        outcome is Ok ==> (target matches OpenTarget::Post(id) ==> frames_number(opened_status(target, outcome), "Opened post "@, id as nat, "."@)),
        outcome is Ok ==> (target matches OpenTarget::Image(id) ==> frames_number(opened_status(target, outcome), "Opened image for post "@, id as nat, "."@)),
        outcome matches Err(e) ==> opened_status(target, outcome) == "Could not open browser: "@ + e,
{
    match target {
        OpenTarget::Post(id) => lemma_frames_number("Opened post "@, id as nat, "."@),
        OpenTarget::Image(id) => lemma_frames_number("Opened image for post "@, id as nat, "."@),
    }
}

/// The browser starts on the safe-rated search, on page 1, with nothing
/// loaded, the search box focused and the prompt in the status line.
pub proof fn start_state()
    ensures
        AppView::initial() == (AppView {
            query: "rating:safe"@,
            page: 1,
            posts: Seq::empty(),
            selected: 0,
            focus: Focus::Search,
            status: "Enter tags, then press Enter to search."@,
            loading: false,
            should_quit: false,
            show_help: false,
        }),
{
}


/// While the help is shown, `?` and Esc close it and `q` quits; nothing
/// else happens to the state.
pub proof fn help_keys(v: AppView, ctrl: bool)
    requires
        v.show_help,
    ensures
        press(v, KeyCode::Char('?'), ctrl) == (AppView { show_help: false, ..v }, CommandView::Nothing),
        press(v, KeyCode::Esc, ctrl) == (AppView { show_help: false, ..v }, CommandView::Nothing),
        press(v, KeyCode::Char('q'), ctrl) == (AppView { should_quit: true, ..v }, CommandView::Nothing),
{
}

/// The status bar shows the status message, a separator, and the key hints
/// of the focused pane.
pub proof fn status_bar_shows_status_then_hints(v: AppView)
    ensures
        ({
            let line = status_line_of(v);
            let hints = match v.focus {
                Focus::Search => "Enter search | Esc results | ? help | Ctrl-C quit"@,
                Focus::Results => "/ search | j/k move | n/p page | o post | i image | r reload | q quit | ? help"@,
            };
            line == v.status + "  |  "@ + hints
        }),
{
}

} // verus!
