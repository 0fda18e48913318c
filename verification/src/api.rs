use vstd::prelude::*;
use vstd::utf8::encode_utf8;

use crate::text::{decimal, decimal_string, join_with_spaces, split_whitespace, trim, trimmed, words};

verus! {

/// The Danbooru server that the browser talks to.
pub const API_BASE: &'static str = "https://danbooru.donmai.us";

/// How many posts one result page holds.
pub const PAGE_LIMIT: usize = 20;

/// How many tags `short_tags` shows.
pub const SHORT_TAG_COUNT: usize = 8;

/// One Danbooru post, as the posts endpoint describes it.
#[derive(Debug, Clone)]
pub struct Post {
    pub id: u64,
    pub rating: String,
    pub score: i64,
    pub tag_string: String,
    pub tag_string_character: String,
    pub tag_string_copyright: String,
    pub tag_string_artist: String,
    pub file_url: Option<String>,
    pub large_file_url: Option<String>,
    pub preview_file_url: Option<String>,
    pub image_width: Option<u64>,
    pub image_height: Option<u64>,
    pub file_ext: Option<String>,
}

/// The view of an optional string.
pub open spec fn opt_view(o: Option<String>) -> Option<Seq<char>> {
    match o {
        Some(s) => Some(s@),
        None => None,
    }
}

/// The page of post `id` on the server.
pub open spec fn post_url_of(id: nat) -> Seq<char> {
    API_BASE@ + "/posts/"@ + decimal(id)
}

/// The tags line shown in the result list: the first eight words of the
/// tag string joined by spaces, followed by ` ...` when there are more.
pub open spec fn short_tags_of(tag_string: Seq<char>) -> Seq<char> {
    let ws = words(tag_string);
    if ws.len() > 8 {
        join_with_spaces(ws.take(8)) + " ..."@
    } else {
        join_with_spaces(ws)
    }
}

/// The best image address of a post: the large file, else the file, else
/// the preview, else none.
pub open spec fn best_image_of(p: Post) -> Option<Seq<char>> {
    if p.large_file_url is Some {
        opt_view(p.large_file_url)
    } else if p.file_url is Some {
        opt_view(p.file_url)
    } else {
        opt_view(p.preview_file_url)
    }
}

impl Post {

    pub fn post_url(&self) -> (r: String)
        ensures
            r@ == post_url_of(self.id as nat),
    {
        let mut r = API_BASE.to_owned();
        r.append("/posts/");
        let digits = decimal_string(self.id);
        r.append(digits.as_str());
        r
    }

    pub fn best_image_url(&self) -> (r: Option<&str>)
        ensures
            r is Some <==> best_image_of(*self) is Some,
            r matches Some(u) ==> u@ == best_image_of(*self)->0,
    {
        match &self.large_file_url {
            Some(u) => Some(u.as_str()),
            None => match &self.file_url {
                Some(u) => Some(u.as_str()),
                None => match &self.preview_file_url {
                    Some(u) => Some(u.as_str()),
                    None => None,
                },
            },
        }
    }

    pub fn short_tags(&self) -> (r: String)
        ensures
            r@ == short_tags_of(self.tag_string@),
    {
        let ws = split_whitespace(self.tag_string.as_str());
        let shown = if ws.len() < SHORT_TAG_COUNT { ws.len() } else { SHORT_TAG_COUNT };
        let mut tags = String::new();
        for i in 0..shown
            invariant
                ws.deep_view() == words(self.tag_string@),
                shown <= ws.len(),
                tags@ == join_with_spaces(ws.deep_view().take(i as int)),
        {
            proof {
                let t = ws.deep_view().take(i + 1);
                assert(t.drop_last() == ws.deep_view().take(i as int));
                assert(t.last() == ws[i as int]@);
                reveal_strlit(" ");
            }
            if i > 0 {
                tags.append(" ");
            }
            tags.append(ws[i].as_str());
        }
        if ws.len() > SHORT_TAG_COUNT {
            tags.append(" ...");
        } else {
            assert(ws.deep_view().take(ws.len() as int) == ws.deep_view());
        }
        tags
    }
}


/// Whether the byte is an ASCII letter or digit, or one of `-`, `.`, `_`, `~`:
/// the bytes that percent-encoding leaves as they are.
pub open spec fn is_unreserved(b: u8) -> bool {
    ||| 48 <= b <= 57
    ||| 65 <= b <= 90
    ||| 97 <= b <= 122
    ||| b == 45
    ||| b == 46
    ||| b == 95
    ||| b == 126
}

/// The upper-case hexadecimal digit for `d < 16`.
pub open spec fn hex_digit_upper(d: u8) -> char {
    if d < 10 {
        (48 + d) as char
    } else {
        (55 + d) as char
    }
}

/// Percent-encoding of a byte string: unreserved bytes stand for
/// themselves, every other byte becomes `%` and two upper-case hex digits.
pub open spec fn percent_encoded(bytes: Seq<u8>) -> Seq<char>
    decreases bytes.len(),
{
    if bytes.len() == 0 {
        seq![]
    } else {
        let b = bytes[0];
        let head = if is_unreserved(b) {
            seq![b as char]
        } else {
            seq!['%', hex_digit_upper(b / 16), hex_digit_upper(b % 16)]
        };
        head + percent_encoded(bytes.drop_first())
    }
}

/// `urlencoding::encode`: percent-encodes the UTF-8 bytes of `s`, keeping
/// ASCII letters, digits and `-`, `_`, `.`, `~`; the escapes use upper-case
/// hex digits.
#[verifier::external_body]
fn url_encode(s: &str) -> (r: String)
    ensures
        r@ == percent_encoded(encode_utf8(s@)),
{
    urlencoding::encode(s).into_owned()
}

/// The address of result page `page` of the search for `query`: the query
/// with its outer white space removed, percent-encoded as the tags, and
/// `PAGE_LIMIT` posts per page.
pub open spec fn search_url_of(query: Seq<char>, page: nat) -> Seq<char> {
    API_BASE@ + "/posts.json?tags="@ + percent_encoded(encode_utf8(trim(query))) + "&page="@
        + decimal(page) + "&limit="@ + decimal(PAGE_LIMIT as nat)
}

/// The address of result page `page` of the search for `query`.
pub fn search_url(query: &str, page: usize) -> (r: String)
    ensures
        r@ == search_url_of(query@, page as nat),
{
    let tags = trimmed(query);
    let encoded = url_encode(tags.as_str());
    let mut r = API_BASE.to_owned();
    r.append("/posts.json?tags=");
    r.append(encoded.as_str());
    r.append("&page=");
    let page_digits = decimal_string(page as u64);
    r.append(page_digits.as_str());
    r.append("&limit=");
    let limit_digits = decimal_string(PAGE_LIMIT as u64);
    r.append(limit_digits.as_str());
    r
}

} // verus!
