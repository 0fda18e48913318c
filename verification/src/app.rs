use vstd::prelude::*;

use crate::api::{best_image_of, post_url_of, search_url, search_url_of, Post};
use crate::text::{decimal, decimal_string};

verus! {

/// Which pane receives the keys.
#[derive(Debug, Clone, Copy, PartialEq, Eq, Structural)]
pub enum Focus {
    Search,
    Results,
}

/// The state of the browser: the search, the loaded page of results, the
/// selection and what the status line says.
#[derive(Debug)]
pub struct App {
    pub query: String,
    pub page: usize,
    pub posts: Vec<Post>,
    pub selected: usize,
    pub focus: Focus,
    pub status: String,
    pub loading: bool,
    pub should_quit: bool,
    pub show_help: bool,
}

/// The state of the browser as values.
pub struct AppView {
    pub query: Seq<char>,
    pub page: nat,
    pub posts: Seq<Post>,
    pub selected: nat,
    pub focus: Focus,
    pub status: Seq<char>,
    pub loading: bool,
    pub should_quit: bool,
    pub show_help: bool,
}

impl View for App {
    type V = AppView;

    open spec fn view(&self) -> AppView {
        AppView {
            query: self.query@,
            page: self.page as nat,
            posts: self.posts@,
            selected: self.selected as nat,
            focus: self.focus,
            status: self.status@,
            loading: self.loading,
            should_quit: self.should_quit,
            show_help: self.show_help,
        }
    }
}

/// What came of fetching a result page.
pub enum SearchOutcome {
    /// The page was fetched and decoded into these posts.
    Loaded(Vec<Post>),
    /// The server answered, but its body could not be decoded; the text of the error.
    ParseFailed(String),
    /// The server answered with an error status; the text of the error.
    ErrorStatus(String),
    /// The request did not get an answer; the text of the error.
    RequestFailed(String),
}

/// What was handed to the browser.
#[derive(Debug, Clone, Copy, PartialEq, Eq, Structural)]
pub enum OpenTarget {
    /// The page of the post with this id.
    Post(u64),
    /// The image of the post with this id.
    Image(u64),
}

/// Work that an action leaves for the caller to do outside the library.
#[derive(Debug)]
pub enum Command {
    Nothing,
    /// Fetch this result page address, then hand the outcome to `finish_search`.
    Fetch(String),
    /// Open this address in the browser, then hand the outcome to `finish_open`.
    Open(String, OpenTarget),
}

/// A command as values.
pub enum CommandView {
    Nothing,
    Fetch(Seq<char>),
    Open(Seq<char>, OpenTarget),
}

impl View for Command {
    type V = CommandView;

    open spec fn view(&self) -> CommandView {
        match self {
            Command::Nothing => CommandView::Nothing,
            Command::Fetch(u) => CommandView::Fetch(u@),
            Command::Open(u, t) => CommandView::Open(u@, *t),
        }
    }
}

pub open spec fn min_nat(a: nat, b: nat) -> nat {
    if a <= b {
        a
    } else {
        b
    }
}

/// The status line while page `page` loads.
pub open spec fn loading_status(page: nat) -> Seq<char> {
    "Loading page "@ + decimal(page) + "..."@
}

/// The status line after a page of `n` posts was loaded.
pub open spec fn loaded_status(n: nat) -> Seq<char> {
    if n == 0 {
        "No posts found for this search."@
    } else {
        "Loaded "@ + decimal(n) + " posts from Danbooru."@
    }
}

/// The status line after an attempt to open `target` in the browser.
pub open spec fn opened_status(target: OpenTarget, outcome: Result<(), Seq<char>>) -> Seq<char> {
    match outcome {
        Ok(_) => match target {
            OpenTarget::Post(id) => "Opened post "@ + decimal(id as nat) + "."@,
            OpenTarget::Image(id) => "Opened image for post "@ + decimal(id as nat) + "."@,
        },
        Err(e) => "Could not open browser: "@ + e,
    }
}

pub open spec fn no_post_status() -> Seq<char> {
    "No post selected."@
}

pub open spec fn no_image_status() -> Seq<char> {
    "Selected post has no image URL."@
}

impl AppView {
    /// The selection is 0 or points at a loaded post, and pages count from 1.
    pub open spec fn wf(self) -> bool {
        &&& self.page >= 1
        &&& self.selected == 0 || self.selected < self.posts.len()
    }

    /// The state on start-up.
    pub open spec fn initial() -> AppView {
        AppView {
            query: "rating:safe"@,
            page: 1,
            posts: Seq::empty(),
            selected: 0,
            focus: Focus::Search,
            status: "Enter tags, then press Enter to search."@,
            loading: false,
            should_quit: false,
            show_help: false,
        }
    }

    /// The state while the current page is being fetched.
    pub open spec fn searching(self) -> AppView {
        AppView { loading: true, status: loading_status(self.page), ..self }
    }

    /// The address that a search from this state fetches.
    pub open spec fn search_url(self) -> Seq<char> {
        search_url_of(self.query, self.page)
    }

    /// The state once a fetch has ended with `outcome`.
    pub open spec fn after_search(self, outcome: SearchOutcome) -> AppView {
        match outcome {
            SearchOutcome::Loaded(posts) => {
                let n = posts@.len();
                AppView {
                    posts: posts@,
                    selected: min_nat(self.selected, if n == 0 { 0 } else { (n - 1) as nat }),
                    status: loaded_status(n),
                    focus: Focus::Results,
                    loading: false,
                    ..self
                }
            },
            SearchOutcome::ParseFailed(e) => AppView {
                status: "Could not parse Danbooru response: "@ + e@,
                loading: false,
                ..self
            },
            SearchOutcome::ErrorStatus(e) => AppView {
                status: "Danbooru returned an error: "@ + e@,
                loading: false,
                ..self
            },
            SearchOutcome::RequestFailed(e) => AppView {
                status: "Request failed: "@ + e@,
                loading: false,
                ..self
            },
        }
    }

    /// Whether a post is selected.
    pub open spec fn has_selection(self) -> bool {
        self.selected < self.posts.len()
    }

    /// The state after moving the selection down by one.
    pub open spec fn moved_down(self) -> AppView {
        if self.posts.len() == 0 {
            self
        } else {
            AppView {
                selected: min_nat(self.selected + 1, (self.posts.len() - 1) as nat),
                ..self
            }
        }
    }

    /// The state after moving the selection up by one.
    pub open spec fn moved_up(self) -> AppView {
        AppView { selected: if self.selected > 0 { (self.selected - 1) as nat } else { 0 }, ..self }
    }

    /// The state and command after asking for the next page.
    pub open spec fn to_next_page(self) -> (AppView, CommandView) {
        let turned = AppView { page: self.page + 1, ..self };
        (turned.searching(), CommandView::Fetch(turned.search_url()))
    }

    /// The state and command after asking for the previous page.
    pub open spec fn to_previous_page(self) -> (AppView, CommandView) {
        if self.page > 1 {
            let turned = AppView { page: (self.page - 1) as nat, ..self };
            (turned.searching(), CommandView::Fetch(turned.search_url()))
        } else {
            (self, CommandView::Nothing)
        }
    }

    /// The state and command after asking to open the selected post's page.
    pub open spec fn opening_post(self) -> (AppView, CommandView) {
        if self.has_selection() {
            let post = self.posts[self.selected as int];
            (self, CommandView::Open(post_url_of(post.id as nat), OpenTarget::Post(post.id)))
        } else {
            (AppView { status: no_post_status(), ..self }, CommandView::Nothing)
        }
    }

    /// The state and command after asking to open the selected post's image.
    pub open spec fn opening_image(self) -> (AppView, CommandView) {
        if !self.has_selection() {
            (AppView { status: no_post_status(), ..self }, CommandView::Nothing)
        } else {
            let post = self.posts[self.selected as int];
            match best_image_of(post) {
                Some(url) => (self, CommandView::Open(url, OpenTarget::Image(post.id))),
                None => (AppView { status: no_image_status(), ..self }, CommandView::Nothing),
            }
        }
    }
}

/// `s` followed by the decimal notation of `n` and then `t`.
fn framed_number(s: &str, n: u64, t: &str) -> (r: String)
    ensures
        r@ == s@ + decimal(n as nat) + t@,
{
    let mut r = s.to_owned();
    let digits = decimal_string(n);
    r.append(digits.as_str());
    r.append(t);
    r
}

/// `s` followed by `t`.
fn joined(s: &str, t: &str) -> (r: String)
    ensures
        r@ == s@ + t@,
{
    let mut r = s.to_owned();
    r.append(t);
    r
}

impl App {
    /// The state on start-up: the safe-rated search on page 1, nothing loaded.
    pub fn new() -> (app: App)
        ensures
            app@ == AppView::initial(),
    {
        App {
            query: "rating:safe".to_owned(),
            page: 1,
            posts: Vec::new(),
            selected: 0,
            focus: Focus::Search,
            status: "Enter tags, then press Enter to search.".to_owned(),
            loading: false,
            should_quit: false,
            show_help: false,
        }
    }

    /// Starts fetching the current page of the current search: marks the
    /// state as loading and returns the address to fetch.
    pub fn search(&mut self) -> (url: String)
        ensures
            final(self)@ == old(self)@.searching(),
            url@ == old(self)@.search_url(),
    {
        self.loading = true;
        self.status = framed_number("Loading page ", self.page as u64, "...");
        search_url(self.query.as_str(), self.page)
    }

    /// Takes in what came of a fetch started by `search`.
    pub fn finish_search(&mut self, outcome: SearchOutcome)
        ensures
            final(self)@ == old(self)@.after_search(outcome),
    {
        match outcome {
            SearchOutcome::Loaded(posts) => {
                self.posts = posts;
                let n = self.posts.len();
                let last = if n == 0 { 0 } else { n - 1 };
                if self.selected > last {
                    self.selected = last;
                }
                self.status = if n == 0 {
                    "No posts found for this search.".to_owned()
                } else {
                    framed_number("Loaded ", n as u64, " posts from Danbooru.")
                };
                self.focus = Focus::Results;
            },
            SearchOutcome::ParseFailed(e) => {
                self.status = joined("Could not parse Danbooru response: ", e.as_str());
            },
            SearchOutcome::ErrorStatus(e) => {
                self.status = joined("Danbooru returned an error: ", e.as_str());
            },
            SearchOutcome::RequestFailed(e) => {
                self.status = joined("Request failed: ", e.as_str());
            },
        }
        self.loading = false;
    }

    /// The post under the selection, if any.
    pub fn selected_post(&self) -> (r: Option<&Post>)
        ensures
            r is Some <==> self@.has_selection(),
            r matches Some(p) ==> *p == self.posts@[self.selected as int],
    {
        if self.selected < self.posts.len() {
            Some(&self.posts[self.selected])
        } else {
            None
        }
    }

    /// Moves the selection down by one, stopping at the last post.
    pub fn next(&mut self)
        requires
            old(self).posts.len() == 0 || old(self).selected < usize::MAX,
        ensures
            final(self)@ == old(self)@.moved_down(),
    {
        if self.posts.len() > 0 {
            let last = self.posts.len() - 1;
            let down = self.selected + 1;
            self.selected = if down < last { down } else { last };
        }
    }

    /// Moves the selection up by one, stopping at the first post.
    pub fn previous(&mut self)
        ensures
            final(self)@ == old(self)@.moved_up(),
    {
        if self.selected > 0 {
            self.selected = self.selected - 1;
        }
    }

    /// Turns to the next page and starts fetching it.
    pub fn next_page(&mut self) -> (url: String)
        requires
            old(self).page < usize::MAX,
        ensures
            (final(self)@, CommandView::Fetch(url@)) == old(self)@.to_next_page(),
    {
        self.page = self.page + 1;
        self.search()
    }

    /// Turns to the previous page, if there is one, and starts fetching it.
    pub fn previous_page(&mut self) -> (url: Option<String>)
        ensures
            (final(self)@, match url {
                Some(u) => CommandView::Fetch(u@),
                None => CommandView::Nothing,
            }) == old(self)@.to_previous_page(),
    {
        if self.page > 1 {
            self.page = self.page - 1;
            Some(self.search())
        } else {
            None
        }
    }

    /// Asks to open the selected post's page in the browser; without a
    /// selection, says so in the status line.
    pub fn open_selected_post(&mut self) -> (cmd: Command)
        ensures
            (final(self)@, cmd@) == old(self)@.opening_post(),
    {
        if self.selected < self.posts.len() {
            let post = &self.posts[self.selected];
            Command::Open(post.post_url(), OpenTarget::Post(post.id))
        } else {
            self.status = "No post selected.".to_owned();
            Command::Nothing
        }
    }

    /// Asks to open the selected post's best image in the browser; without
    /// a selection or an image address, says so in the status line.
    pub fn open_selected_image(&mut self) -> (cmd: Command)
        ensures
            (final(self)@, cmd@) == old(self)@.opening_image(),
    {
        if self.selected < self.posts.len() {
            let post = &self.posts[self.selected];
            match post.best_image_url() {
                Some(url) => Command::Open(url.to_owned(), OpenTarget::Image(post.id)),
                None => {
                    self.status = "Selected post has no image URL.".to_owned();
                    Command::Nothing
                },
            }
        } else {
            self.status = "No post selected.".to_owned();
            Command::Nothing
        }
    }

    /// Takes in what came of handing `target` to the browser.
    pub fn finish_open(&mut self, target: OpenTarget, outcome: Result<(), String>)
        ensures
            final(self)@ == (AppView {
                status: opened_status(
                    target,
                    match outcome {
                        Ok(_) => Ok(()),
                        Err(e) => Err(e@),
                    },
                ),
                ..old(self)@
            }),
    {
        self.status = match outcome {
            Ok(_) => match target {
                OpenTarget::Post(id) => framed_number("Opened post ", id, "."),
                OpenTarget::Image(id) => framed_number("Opened image for post ", id, "."),
            },
            Err(e) => joined("Could not open browser: ", e.as_str()),
        };
    }
}

} // verus!
