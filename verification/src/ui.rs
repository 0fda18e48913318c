use ratatui::layout::{Constraint, Direction, Layout, Rect};
use vstd::prelude::*;

use crate::api::{best_image_of, opt_view, post_url_of, short_tags_of, Post};
use crate::app::{App, AppView, Focus};
use crate::text::{
    all_white_space, chars_of, decimal, decimal_string, is_blank, pad_end, pad_end_string,
    pad_start, pad_start_string, signed_decimal, signed_decimal_string,
};

verus! {

/// The one-letter rating mark of the result list: `S` for general and
/// sensitive, `Q` for questionable, `E` for explicit, `?` otherwise.
pub open spec fn rating_marker_of(rating: Seq<char>) -> Seq<char> {
    if rating == seq!['g'] || rating == seq!['s'] {
        seq!['S']
    } else if rating == seq!['q'] {
        seq!['Q']
    } else if rating == seq!['e'] {
        seq!['E']
    } else {
        seq!['?']
    }
}

/// `-` for a blank value, the value itself otherwise.
pub open spec fn trim_or_dash_of(value: Seq<char>) -> Seq<char> {
    if all_white_space(value) {
        seq!['-']
    } else {
        value
    }
}

pub fn rating_marker(rating: &str) -> (r: &'static str)
    ensures
        r@ == rating_marker_of(rating@),
{
    proof {
        reveal_strlit("S");
        reveal_strlit("Q");
        reveal_strlit("E");
        reveal_strlit("?");
    }
    let v = chars_of(rating);
    if v.len() == 1 {
        let c = v[0];
        assert(rating@ == seq![c]);
        if c == 'g' || c == 's' {
            "S"
        } else if c == 'q' {
            "Q"
        } else if c == 'e' {
            "E"
        } else {
            "?"
        }
    } else {
        "?"
    }
}

pub fn trim_or_dash(value: &str) -> (r: String)
    ensures
        r@ == trim_or_dash_of(value@),
{
    if is_blank(value) {
        proof {
            reveal_strlit("-");
        }
        "-".to_owned()
    } else {
        value.to_owned()
    }
}

/// The line of the result list for a post: its id, its score, its rating
/// mark and its first tags.
pub open spec fn result_title_of(post: Post) -> Seq<char> {
    "#"@ + pad_end(decimal(post.id as nat), 8) + " "@ + pad_start(signed_decimal(post.score as int), 4)
        + " "@ + pad_end(rating_marker_of(post.rating@), 1) + " "@ + short_tags_of(post.tag_string@)
}

/// The line of the result list for `post`.
pub fn result_title(post: &Post) -> (r: String)
    ensures
        r@ == result_title_of(*post),
{
    let mut r = "#".to_owned();
    let id = pad_end_string(decimal_string(post.id), 8);
    r.append(id.as_str());
    r.append(" ");
    let score = signed_decimal_string(post.score);
    let score = pad_start_string(score.as_str(), 4);
    r.append(score.as_str());
    r.append(" ");
    let marker = pad_end_string(rating_marker(post.rating.as_str()).to_owned(), 1);
    r.append(marker.as_str());
    r.append(" ");
    let tags = post.short_tags();
    r.append(tags.as_str());
    r
}

/// The title of the search box.
pub fn search_title(page: usize) -> (r: String)
    ensures
        r@ == " Danbooru Search | page "@ + decimal(page as nat) + " "@,
{
    let mut r = " Danbooru Search | page ".to_owned();
    let digits = decimal_string(page as u64);
    r.append(digits.as_str());
    r.append(" ");
    r
}

/// The key hints for the pane that has the focus.
pub open spec fn controls_hint_of(focus: Focus) -> Seq<char> {
    match focus {
        Focus::Search => "Enter search | Esc results | ? help | Ctrl-C quit"@,
        Focus::Results => "/ search | j/k move | n/p page | o post | i image | r reload | q quit | ? help"@,
    }
}

/// The key hints for the pane that has the focus.
pub fn controls_hint(focus: Focus) -> (r: &'static str)
    ensures
        r@ == controls_hint_of(focus),
{
    match focus {
        Focus::Search => "Enter search | Esc results | ? help | Ctrl-C quit",
        Focus::Results => "/ search | j/k move | n/p page | o post | i image | r reload | q quit | ? help",
    }
}

/// The status bar: the status message, then the key hints.
pub open spec fn status_line_of(v: AppView) -> Seq<char> {
    v.status + "  |  "@ + controls_hint_of(v.focus)
}

/// The status bar of the app.
pub fn status_line(app: &App) -> (r: String)
    ensures
        r@ == status_line_of(app@),
{
    let mut r = app.status.clone();
    r.append("  |  ");
    r.append(controls_hint(app.focus));
    r
}

/// The row that the result list highlights: the selection, when there are posts.
pub fn list_selection(app: &App) -> (r: Option<usize>)
    ensures
        r == (if app.posts@.len() > 0 { Some(app.selected) } else { None::<usize> }),
{
    if app.posts.len() > 0 {
        Some(app.selected)
    } else {
        None
    }
}

/// One line of the details pane: a label, which is drawn highlighted,
/// followed by a value. The line reads `label` then `value`.
pub struct DetailLine {
    pub label: String,
    pub value: String,
}

/// The lines as (label, value) pairs.
pub open spec fn lines_view(lines: Seq<DetailLine>) -> Seq<(Seq<char>, Seq<char>)> {
    lines.map_values(|l: DetailLine| (l.label@, l.value@))
}

/// The image size as `WIDTHxHEIGHT`, or `unknown` unless both are known.
pub open spec fn dimensions_of(post: Post) -> Seq<char> {
    match (post.image_width, post.image_height) {
        (Some(w), Some(h)) => decimal(w as nat) + "x"@ + decimal(h as nat),
        _ => "unknown"@,
    }
}

/// The details pane for `post`, line by line: the id, the rating and
/// score, the file type and size, a blank line, the artist, character and
/// copyright tags (a dash when blank), a blank line, the post and image
/// addresses, a blank line, the `Tags` heading and the whole tag string.
pub open spec fn detail_lines_of(post: Post) -> Seq<(Seq<char>, Seq<char>)> {
    let none = Seq::<char>::empty();
    seq![
        ("Post "@, decimal(post.id as nat)),
        (none, "Rating: "@ + post.rating@ + "   Score: "@ + signed_decimal(post.score as int)),
        (none, "File: "@ + (match opt_view(post.file_ext) {
            Some(e) => e,
            None => "unknown"@,
        }) + "   Size: "@ + dimensions_of(post)),
        (none, none),
        ("Artist: "@, trim_or_dash_of(post.tag_string_artist@)),
        ("Character: "@, trim_or_dash_of(post.tag_string_character@)),
        ("Copyright: "@, trim_or_dash_of(post.tag_string_copyright@)),
        (none, none),
        ("Post URL: "@, post_url_of(post.id as nat)),
        ("Image URL: "@, match best_image_of(post) {
            Some(u) => u,
            None => "none"@,
        }),
        (none, none),
        ("Tags"@, none),
        (none, post.tag_string@),
    ]
}

/// The details pane when no post is selected.
pub open spec fn no_details_lines() -> Seq<(Seq<char>, Seq<char>)> {
    seq![(Seq::<char>::empty(), "No post selected."@)]
}

fn detail_line(label: &str, value: String) -> (l: DetailLine)
    ensures
        l.label@ == label@,
        l.value@ == value@,
{
    DetailLine { label: label.to_owned(), value }
}

/// The details pane's lines for `post`.
pub fn post_details(post: &Post) -> (lines: Vec<DetailLine>)
    ensures
        lines_view(lines@) == detail_lines_of(*post),
{
    let dimensions = match (post.image_width, post.image_height) {
        (Some(width), Some(height)) => {
            let mut s = decimal_string(width);
            s.append("x");
            let h = decimal_string(height);
            s.append(h.as_str());
            s
        },
        _ => "unknown".to_owned(),
    };
    let image_url = match post.best_image_url() {
        Some(u) => u.to_owned(),
        None => "none".to_owned(),
    };
    let file_ext = match &post.file_ext {
        Some(e) => e.as_str(),
        None => "unknown",
    };
    let mut rating_line = "Rating: ".to_owned();
    rating_line.append(post.rating.as_str());
    rating_line.append("   Score: ");
    let score = signed_decimal_string(post.score);
    rating_line.append(score.as_str());
    let mut file_line = "File: ".to_owned();
    file_line.append(file_ext);
    file_line.append("   Size: ");
    file_line.append(dimensions.as_str());
    proof {
        reveal_strlit("");
        assert(""@ =~= Seq::<char>::empty());
    }
    let mut lines = Vec::new();
    lines.push(detail_line("Post ", decimal_string(post.id)));
    lines.push(detail_line("", rating_line));
    lines.push(detail_line("", file_line));
    lines.push(detail_line("", String::new()));
    lines.push(detail_line("Artist: ", trim_or_dash(post.tag_string_artist.as_str())));
    lines.push(detail_line("Character: ", trim_or_dash(post.tag_string_character.as_str())));
    lines.push(detail_line("Copyright: ", trim_or_dash(post.tag_string_copyright.as_str())));
    lines.push(detail_line("", String::new()));
    lines.push(detail_line("Post URL: ", post.post_url()));
    lines.push(detail_line("Image URL: ", image_url));
    lines.push(detail_line("", String::new()));
    lines.push(detail_line("Tags", String::new()));
    lines.push(detail_line("", post.tag_string.clone()));
    assert(lines_view(lines@) =~= detail_lines_of(*post));
    lines
}

/// The details pane: the selected post's details, or a line saying that no
/// post is selected.
pub fn details_pane(app: &App) -> (lines: Vec<DetailLine>)
    ensures
        lines_view(lines@) == (if app@.has_selection() {
            detail_lines_of(app.posts@[app.selected as int])
        } else {
            no_details_lines()
        }),
{
    match app.selected_post() {
        Some(post) => post_details(post),
        None => {
            proof {
                reveal_strlit("");
                assert(""@ =~= Seq::<char>::empty());
            }
            let mut lines = Vec::new();
            lines.push(detail_line("", "No post selected.".to_owned()));
            assert(lines_view(lines@) =~= no_details_lines());
            lines
        },
    }
}

/// The items of the result list: one line per loaded post, in order.
pub fn result_items(app: &App) -> (items: Vec<String>)
    ensures
        items@.len() == app.posts@.len(),
        forall|i: int| 0 <= i < items@.len() ==> #[trigger] items@[i]@ == result_title_of(app.posts@[i]),
{
    let mut items: Vec<String> = Vec::new();
    for i in 0..app.posts.len()
        invariant
            items@.len() == i,
            forall|j: int| 0 <= j < i ==> #[trigger] items@[j]@ == result_title_of(app.posts@[j]),
    {
        items.push(result_title(&app.posts[i]));
    }
    items
}

/// A rectangle of terminal cells: its top-left corner and its size.
#[derive(Debug, Clone, Copy, PartialEq, Eq, Structural)]
pub struct Area {
    pub x: u16,
    pub y: u16,
    pub width: u16,
    pub height: u16,
}

/// The direction in which a layout cuts an area.
#[derive(Debug, Clone, Copy, PartialEq, Eq, Structural)]
pub enum Axis {
    /// Into rows, top to bottom.
    Vertical,
    /// Into columns, left to right.
    Horizontal,
}

/// How much of an area a part of a layout asks for.
#[derive(Debug, Clone, Copy, PartialEq, Eq, Structural)]
pub enum Size {
    /// Exactly this many cells.
    Length(u16),
    /// At least this many cells.
    Min(u16),
    /// This percentage of the area.
    Percentage(u16),
}

/// Whether `part` lies inside `area`.
pub open spec fn lies_within(part: Area, area: Area) -> bool {
    &&& area.x <= part.x
    &&& part.x + part.width <= area.x + area.width
    &&& area.y <= part.y
    &&& part.y + part.height <= area.y + area.height
}

/// Whether `part` spans the whole of `area` across the direction `axis`
/// cuts it: the full width for rows, the full height for columns.
pub open spec fn spans_across(part: Area, area: Area, axis: Axis) -> bool {
    match axis {
        Axis::Vertical => part.x == area.x && part.width == area.width,
        Axis::Horizontal => part.y == area.y && part.height == area.height,
    }
}

/// Whether `part` is one of the pieces that cutting `area` along `axis`
/// can give: inside the area and spanning it across the cut.
pub open spec fn is_piece_of(part: Area, area: Area, axis: Axis) -> bool {
    lies_within(part, area) && spans_across(part, area, axis)
}

/// Whether `area` ends within the coordinate range (so that its far edges
/// are `x + width` and `y + height`, not cut off at `u16::MAX`).
pub open spec fn fits(area: Area) -> bool {
    area.x + area.width <= u16::MAX && area.y + area.height <= u16::MAX
}

/// The length of `area` along `axis`.
pub open spec fn extent(area: Area, axis: Axis) -> nat {
    match axis {
        Axis::Vertical => area.height as nat,
        Axis::Horizontal => area.width as nat,
    }
}

/// The slice of `area` along `axis` from offset `from` to offset `to`,
/// spanning the area across the cut.
pub open spec fn band(area: Area, axis: Axis, from: int, to: int) -> Area {
    match axis {
        Axis::Vertical => Area {
            x: area.x,
            y: (area.y + from) as u16,
            width: area.width,
            height: (to - from) as u16,
        },
        Axis::Horizontal => Area {
            x: (area.x + from) as u16,
            y: area.y,
            width: (to - from) as u16,
            height: area.height,
        },
    }
}

/// The number that a size names: the length, the minimum or the percentage.
pub open spec fn amount(s: Size) -> nat {
    match s {
        Size::Length(n) => n as nat,
        Size::Min(n) => n as nat,
        Size::Percentage(p) => p as nat,
    }
}

/// The sum of the numbers that `sizes` name.
pub open spec fn amount_sum(sizes: Seq<Size>) -> nat
    decreases sizes.len(),
{
    if sizes.len() == 0 {
        0
    } else {
        amount_sum(sizes.drop_last()) + amount(sizes.last())
    }
}

/// How many of `sizes` are minimums.
pub open spec fn min_count(sizes: Seq<Size>) -> nat
    decreases sizes.len(),
{
    if sizes.len() == 0 {
        0
    } else {
        min_count(sizes.drop_last()) + if sizes.last() is Min { 1nat } else { 0nat }
    }
}

/// Adding the next size to a prefix of sizes adds its number, and one
/// minimum if it is one.
pub proof fn lemma_prefix_step(sizes: Seq<Size>, i: int)
    requires
        0 <= i < sizes.len(),
    ensures
        amount_sum(sizes.take(i + 1)) == amount_sum(sizes.take(i)) + amount(sizes[i]),
        min_count(sizes.take(i + 1)) == min_count(sizes.take(i)) + if sizes[i] is Min {
            1nat
        } else {
            0nat
        },
{
    assert(sizes.take(i + 1).drop_last() =~= sizes.take(i));
    assert(sizes.take(i + 1).last() == sizes[i]);
}

/// Every size is a percentage.
pub open spec fn all_percentages(sizes: Seq<Size>) -> bool {
    forall|i: int| 0 <= i < sizes.len() ==> #[trigger] sizes[i] is Percentage
}

/// Every size is a length, except at most one minimum.
pub open spec fn lengths_and_one_min(sizes: Seq<Size>) -> bool {
    &&& forall|i: int| 0 <= i < sizes.len() ==> !(#[trigger] sizes[i] is Percentage)
    &&& min_count(sizes) <= 1
}

/// `n / 100` rounded to the nearest whole number, halves up.
pub open spec fn hundredths_rounded(n: nat) -> nat {
    (n + 50) / 100
}

/// Where part `i` starts, from the start of an area `len` long, when
/// percentages that sum to at most 100 each get their share: the share of
/// the parts before it, rounded.
pub open spec fn percentage_offset(len: nat, sizes: Seq<Size>, i: int) -> nat {
    hundredths_rounded(len * amount_sum(sizes.take(i)))
}

/// Where part `i` starts, from the start of an area `len` long, when
/// lengths and at most one minimum fit: each length gets its length and the
/// minimum gets the rest.
pub open spec fn length_offset(len: nat, sizes: Seq<Size>, i: int) -> int {
    amount_sum(sizes.take(i)) + if min_count(sizes.take(i)) > 0 {
        len - amount_sum(sizes)
    } else {
        0
    }
}

/// `ratatui::layout::Layout::split` in the given direction, with one
/// constraint per entry of `sizes` (`Length`, `Min` or `Percentage`) and the
/// default margin, spacing and flex (`Flex::Start`, no gaps).
///
/// Stated of every outcome: one part per constraint, each inside the area
/// and spanning it across the cut (the solver's required constraints keep
/// every boundary inside the area; the cross extent is copied from it).
///
/// Stated where the constraints can all be met at once, in an area that
/// ends within the coordinate range: the parts follow each other from the
/// area's start with no gaps. With percentages summing to at most 100, each
/// boundary is the rounded share of the parts before it; with lengths and
/// at most one minimum that fit, each length gets its length and the
/// minimum all that is left (the minimum's grow weight beats the trailing
/// space's, and every other weight is far below that of the sizes).
///
/// Not stated: the parts where the constraints conflict; there the cassowary
/// solver chooses among equally good layouts by walking hash maps that each
/// process seeds anew, so the parts are not a function of the arguments.
#[verifier::external_body]
fn split_area(area: Area, axis: Axis, sizes: &Vec<Size>) -> (parts: Vec<Area>)
    ensures
        parts@.len() == sizes@.len(),
        forall|i: int| 0 <= i < parts@.len() ==> is_piece_of(#[trigger] parts@[i], area, axis),
        fits(area) && all_percentages(sizes@) && amount_sum(sizes@) <= 100 ==> forall|i: int|
            0 <= i < parts@.len() ==> #[trigger] parts@[i] == band(
                area,
                axis,
                percentage_offset(extent(area, axis), sizes@, i) as int,
                percentage_offset(extent(area, axis), sizes@, i + 1) as int,
            ),
        fits(area) && lengths_and_one_min(sizes@) && amount_sum(sizes@) <= extent(area, axis)
            ==> forall|i: int|
            0 <= i < parts@.len() ==> #[trigger] parts@[i] == band(
                area,
                axis,
                length_offset(extent(area, axis), sizes@, i),
                length_offset(extent(area, axis), sizes@, i + 1),
            ),
{
    let direction = match axis {
        Axis::Vertical => Direction::Vertical,
        Axis::Horizontal => Direction::Horizontal,
    };
    let constraints = sizes.iter().map(|s| match *s {
        Size::Length(n) => Constraint::Length(n),
        Size::Min(n) => Constraint::Min(n),
        Size::Percentage(n) => Constraint::Percentage(n),
    });
    let rect = Rect { x: area.x, y: area.y, width: area.width, height: area.height };
    let parts = Layout::default().direction(direction).constraints(constraints).split(rect);
    parts.iter().map(|r| Area { x: r.x, y: r.y, width: r.width, height: r.height }).collect()
}

/// The search box, the body and the status bar of a screen of size `area`:
/// rows asked for as 3, at least 8 and 3 cells, each as wide as the screen.
/// On a screen of at least 14 rows they are 3, all but 6, and 3 rows tall,
/// one below the other from the top.
pub fn screen_areas(area: Area) -> (r: (Area, Area, Area))
    ensures
        is_piece_of(r.0, area, Axis::Vertical),
        is_piece_of(r.1, area, Axis::Vertical),
        is_piece_of(r.2, area, Axis::Vertical),
        fits(area) && area.height >= 14 ==> {
            &&& r.0 == band(area, Axis::Vertical, 0, 3)
            &&& r.1 == band(area, Axis::Vertical, 3, area.height - 3)
            &&& r.2 == band(area, Axis::Vertical, area.height - 3, area.height as int)
        },
{
    let mut sizes = Vec::new();
    sizes.push(Size::Length(3));
    sizes.push(Size::Min(8));
    sizes.push(Size::Length(3));
    let parts = split_area(area, Axis::Vertical, &sizes);
    assert(is_piece_of(parts@[0], area, Axis::Vertical));
    assert(is_piece_of(parts@[1], area, Axis::Vertical));
    assert(is_piece_of(parts@[2], area, Axis::Vertical));
    proof {
        let sz = sizes@;
        assert(sz.take(0) =~= Seq::<Size>::empty());
        assert(sz.take(3) =~= sz);
        lemma_prefix_step(sz, 0);
        lemma_prefix_step(sz, 1);
        lemma_prefix_step(sz, 2);
        assert(amount_sum(sz.take(1)) == 3);
        assert(amount_sum(sz.take(2)) == 11);
        assert(amount_sum(sz) == 14);
        assert(min_count(sz.take(1)) == 0);
        assert(min_count(sz.take(2)) == 1);
        assert(min_count(sz) == 1);
        assert(lengths_and_one_min(sz));
        if fits(area) && area.height >= 14 {
            let h = area.height as nat;
            assert(length_offset(h, sz, 0) == 0);
            assert(length_offset(h, sz, 1) == 3);
            assert(length_offset(h, sz, 2) == h - 3);
            assert(length_offset(h, sz, 3) == h);
            assert(parts@[0] == band(area, Axis::Vertical, length_offset(h, sz, 0), length_offset(h, sz, 1)));
            assert(parts@[1] == band(area, Axis::Vertical, length_offset(h, sz, 1), length_offset(h, sz, 2)));
            assert(parts@[2] == band(area, Axis::Vertical, length_offset(h, sz, 2), length_offset(h, sz, 3)));
        }
    }
    (parts[0], parts[1], parts[2])
}

/// The result list and the details pane of a body of size `area`: columns
/// of 42% and 58% of the width, side by side from the left, each as high as
/// the body.
pub fn body_areas(area: Area) -> (r: (Area, Area))
    ensures
        is_piece_of(r.0, area, Axis::Horizontal),
        is_piece_of(r.1, area, Axis::Horizontal),
        fits(area) ==> {
            let split = hundredths_rounded((area.width as nat) * 42) as int;
            &&& r.0 == band(area, Axis::Horizontal, 0, split)
            &&& r.1 == band(area, Axis::Horizontal, split, area.width as int)
        },
{
    let mut sizes = Vec::new();
    sizes.push(Size::Percentage(42));
    sizes.push(Size::Percentage(58));
    let parts = split_area(area, Axis::Horizontal, &sizes);
    assert(is_piece_of(parts@[0], area, Axis::Horizontal));
    assert(is_piece_of(parts@[1], area, Axis::Horizontal));
    proof {
        let sz = sizes@;
        assert(sz.take(0) =~= Seq::<Size>::empty());
        assert(sz.take(2) =~= sz);
        lemma_prefix_step(sz, 0);
        lemma_prefix_step(sz, 1);
        assert(amount_sum(sz.take(1)) == 42);
        assert(amount_sum(sz) == 100);
        assert(all_percentages(sz));
        if fits(area) {
            let w = area.width as nat;
            assert(percentage_offset(w, sz, 0) == 0);
            assert(percentage_offset(w, sz, 1) == hundredths_rounded(w * 42));
            assert(percentage_offset(w, sz, 2) == w) by {
                assert(hundredths_rounded(w * 100) == w);
            }
            assert(parts@[0] == band(area, Axis::Horizontal, percentage_offset(w, sz, 0) as int, percentage_offset(w, sz, 1) as int));
            assert(parts@[1] == band(area, Axis::Horizontal, percentage_offset(w, sz, 1) as int, percentage_offset(w, sz, 2) as int));
        }
    }
    (parts[0], parts[1])
}

/// The percentages that put a band of `percent` in the middle of an area,
/// with equal margins on both sides.
pub open spec fn middle_percentages_of(percent: u16) -> Seq<Size> {
    let side = ((100 - percent) / 2) as u16;
    seq![Size::Percentage(side), Size::Percentage(percent), Size::Percentage(side)]
}

/// The percentages that put a band of `percent` in the middle of an area.
pub fn middle_percentages(percent: u16) -> (r: Vec<Size>)
    requires
        percent <= 100,
    ensures
        r@ == middle_percentages_of(percent),
{
    let side = (100 - percent) / 2;
    let mut r = Vec::new();
    r.push(Size::Percentage(side));
    r.push(Size::Percentage(percent));
    r.push(Size::Percentage(side));
    r
}

/// The middle band of an area `len` long: from the rounded share of the
/// first margin to the rounded share of the margin and the band.
pub open spec fn middle_span(len: nat, percent: u16) -> (int, int) {
    let side = ((100 - percent) / 2) as nat;
    (hundredths_rounded(len * side) as int, hundredths_rounded(len * (side + percent as nat)) as int)
}

/// The middle band of `area` along `axis`, `percent` of it between equal margins.
pub open spec fn middle_band_of(area: Area, axis: Axis, percent: u16) -> Area {
    let span = middle_span(extent(area, axis), percent);
    band(area, axis, span.0, span.1)
}

/// The middle band of `area` along `axis`, asked for as `percent` of it
/// between equal margins.
fn middle_band(area: Area, axis: Axis, percent: u16) -> (r: Area)
    requires
        percent <= 100,
    ensures
        is_piece_of(r, area, axis),
        fits(area) ==> r == middle_band_of(area, axis, percent),
{
    let percentages = middle_percentages(percent);
    let parts = split_area(area, axis, &percentages);
    assert(is_piece_of(parts@[1], area, axis));
    proof {
        let sz = percentages@;
        let side = ((100 - percent) / 2) as nat;
        assert(sz.take(0) =~= Seq::<Size>::empty());
        assert(sz.take(3) =~= sz);
        lemma_prefix_step(sz, 0);
        lemma_prefix_step(sz, 1);
        lemma_prefix_step(sz, 2);
        assert(amount_sum(sz.take(1)) == side);
        assert(amount_sum(sz.take(2)) == side + percent);
        assert(amount_sum(sz) == side + percent + side);
        assert(all_percentages(sz));
        if fits(area) {
            assert(parts@[1] == band(
                area,
                axis,
                percentage_offset(extent(area, axis), sz, 1) as int,
                percentage_offset(extent(area, axis), sz, 2) as int,
            ));
        }
    }
    parts[1]
}

/// The box in the middle of `area` that is `percent_x` of its width and
/// `percent_y` of its height: the middle band of rows, then of its columns.
pub open spec fn centered_box(percent_x: u16, percent_y: u16, area: Area) -> Area {
    middle_band_of(middle_band_of(area, Axis::Vertical, percent_y), Axis::Horizontal, percent_x)
}

/// The box in the middle of `area`, asked for as `percent_x` of its width
/// and `percent_y` of its height; it lies inside `area`, and in an area
/// that ends within the coordinate range it is the centred box with its
/// edges rounded to whole cells.
pub fn centered_rect(percent_x: u16, percent_y: u16, area: Area) -> (r: Area)
    requires
        percent_x <= 100,
        percent_y <= 100,
    ensures
        lies_within(r, area),
        fits(area) ==> r == centered_box(percent_x, percent_y, area),
{
    let rows = middle_band(area, Axis::Vertical, percent_y);
    assert(fits(area) ==> fits(rows));
    middle_band(rows, Axis::Horizontal, percent_x)
}

/// Where the help box goes on a screen of size `area`: the centred box of
/// 68% by 54%, when the help is shown, and nowhere otherwise.
pub fn help_area(app: &App, area: Area) -> (r: Option<Area>)
    ensures
        r is Some <==> app.show_help,
        r matches Some(a) ==> lies_within(a, area),
        fits(area) ==> (r matches Some(a) ==> a == centered_box(68, 54, area)),
{
    if app.show_help {
        Some(centered_rect(68, 54, area))
    } else {
        None
    }
}

} // verus!
