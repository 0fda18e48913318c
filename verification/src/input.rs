use vstd::prelude::*;

use crate::app::{App, AppView, Command, CommandView, Focus};
use crate::text::{pop_char, push_char};

verus! {

/// The keys that the browser tells apart.
#[derive(Debug, Clone, Copy, PartialEq, Eq, Structural)]
pub enum KeyCode {
    Char(char),
    Esc,
    Enter,
    Backspace,
    Up,
    Down,
    Left,
    Right,
    Other,
}

/// A key press: the key and whether Control was held.
#[derive(Debug, Clone, Copy, PartialEq, Eq, Structural)]
pub struct Key {
    pub code: KeyCode,
    pub ctrl: bool,
}

/// Control-C, which quits from anywhere.
pub open spec fn is_interrupt(key: Key) -> bool {
    key.ctrl && key.code == KeyCode::Char('c')
}

/// What a key does while the help is shown.
pub open spec fn help_key(v: AppView, code: KeyCode) -> (AppView, CommandView) {
    match code {
        KeyCode::Char('?') | KeyCode::Esc => (AppView { show_help: false, ..v }, CommandView::Nothing),
        KeyCode::Char('q') => (AppView { should_quit: true, ..v }, CommandView::Nothing),
        _ => (v, CommandView::Nothing),
    }
}

/// What a key does while the search box has the focus.
pub open spec fn search_key(v: AppView, code: KeyCode) -> (AppView, CommandView) {
    match code {
        KeyCode::Esc => (AppView { focus: Focus::Results, ..v }, CommandView::Nothing),
        KeyCode::Enter => {
            let first = AppView { page: 1, ..v };
            (first.searching(), CommandView::Fetch(first.search_url()))
        },
        KeyCode::Backspace => (
            AppView {
                query: if v.query.len() > 0 { v.query.drop_last() } else { v.query },
                ..v
            },
            CommandView::Nothing,
        ),
        KeyCode::Char(c) => {
            if c == '?' {
                (AppView { show_help: true, ..v }, CommandView::Nothing)
            } else if c == 'q' && v.query.len() == 0 {
                (AppView { should_quit: true, ..v }, CommandView::Nothing)
            } else {
                (AppView { query: v.query.push(c), ..v }, CommandView::Nothing)
            }
        },
        _ => (v, CommandView::Nothing),
    }
}

/// What a key does while the result list has the focus.
pub open spec fn results_key(v: AppView, code: KeyCode) -> (AppView, CommandView) {
    match code {
        KeyCode::Char('q') => (AppView { should_quit: true, ..v }, CommandView::Nothing),
        KeyCode::Char('?') => (AppView { show_help: true, ..v }, CommandView::Nothing),
        KeyCode::Char('/') => (AppView { focus: Focus::Search, ..v }, CommandView::Nothing),
        KeyCode::Char('j') | KeyCode::Down => (v.moved_down(), CommandView::Nothing),
        KeyCode::Char('k') | KeyCode::Up => (v.moved_up(), CommandView::Nothing),
        KeyCode::Char('n') | KeyCode::Right => v.to_next_page(),
        KeyCode::Char('p') | KeyCode::Left => v.to_previous_page(),
        KeyCode::Enter | KeyCode::Char('o') => v.opening_post(),
        KeyCode::Char('i') => v.opening_image(),
        KeyCode::Char('r') => (v.searching(), CommandView::Fetch(v.search_url())),
        _ => (v, CommandView::Nothing),
    }
}

/// What a key press does to the state, and the work it leaves to do.
pub open spec fn key_transition(v: AppView, key: Key) -> (AppView, CommandView) {
    if is_interrupt(key) {
        (AppView { should_quit: true, ..v }, CommandView::Nothing)
    } else if v.show_help {
        help_key(v, key.code)
    } else {
        match v.focus {
            Focus::Search => search_key(v, key.code),
            Focus::Results => results_key(v, key.code),
        }
    }
}

/// Whether the key reaches the result list (no help shown, not Control-C,
/// the list has the focus).
pub open spec fn reaches_results(v: AppView, key: Key) -> bool {
    !is_interrupt(key) && !v.show_help && v.focus == Focus::Results
}

/// Whether the key turns to the next page.
pub open spec fn turns_page_forward(v: AppView, key: Key) -> bool {
    reaches_results(v, key) && (key.code == KeyCode::Char('n') || key.code == KeyCode::Right)
}

/// Whether the key moves the selection down.
pub open spec fn moves_selection_down(v: AppView, key: Key) -> bool {
    reaches_results(v, key) && (key.code == KeyCode::Char('j') || key.code == KeyCode::Down)
}

fn handle_search_key(app: &mut App, code: KeyCode) -> (cmd: Command)
    ensures
        (final(app)@, cmd@) == search_key(old(app)@, code),
{
    match code {
        KeyCode::Esc => {
            app.focus = Focus::Results;
            Command::Nothing
        },
        KeyCode::Enter => {
            app.page = 1;
            Command::Fetch(app.search())
        },
        KeyCode::Backspace => {
            let _ = pop_char(&mut app.query);
            Command::Nothing
        },
        KeyCode::Char(c) => {
            if c == '?' {
                app.show_help = true;
            } else if c == 'q' && app.query.as_str().is_empty() {
                app.should_quit = true;
            } else {
                push_char(&mut app.query, c);
            }
            Command::Nothing
        },
        _ => Command::Nothing,
    }
}

fn handle_results_key(app: &mut App, code: KeyCode) -> (cmd: Command)
    requires
        code == KeyCode::Char('n') || code == KeyCode::Right ==> old(app).page < usize::MAX,
        code == KeyCode::Char('j') || code == KeyCode::Down ==> old(app).posts.len() == 0
            || old(app).selected < usize::MAX,
    ensures
        (final(app)@, cmd@) == results_key(old(app)@, code),
{
    match code {
        KeyCode::Char('q') => {
            app.should_quit = true;
            Command::Nothing
        },
        KeyCode::Char('?') => {
            app.show_help = true;
            Command::Nothing
        },
        KeyCode::Char('/') => {
            app.focus = Focus::Search;
            Command::Nothing
        },
        KeyCode::Char('j') | KeyCode::Down => {
            app.next();
            Command::Nothing
        },
        KeyCode::Char('k') | KeyCode::Up => {
            app.previous();
            Command::Nothing
        },
        KeyCode::Char('n') | KeyCode::Right => Command::Fetch(app.next_page()),
        KeyCode::Char('p') | KeyCode::Left => match app.previous_page() {
            Some(url) => Command::Fetch(url),
            None => Command::Nothing,
        },
        KeyCode::Enter | KeyCode::Char('o') => app.open_selected_post(),
        KeyCode::Char('i') => app.open_selected_image(),
        KeyCode::Char('r') => Command::Fetch(app.search()),
        _ => Command::Nothing,
    }
}

/// Applies a key press to the state and returns the work it leaves to do.
pub fn handle_key(app: &mut App, key: Key) -> (cmd: Command)
    requires
        turns_page_forward(old(app)@, key) ==> old(app).page < usize::MAX,
        moves_selection_down(old(app)@, key) ==> old(app).posts.len() == 0 || old(app).selected
            < usize::MAX,
    ensures
        (final(app)@, cmd@) == key_transition(old(app)@, key),
{
    if key.ctrl && key.code == KeyCode::Char('c') {
        app.should_quit = true;
        return Command::Nothing;
    }
    if app.show_help {
        match key.code {
            KeyCode::Char('?') | KeyCode::Esc => app.show_help = false,
            KeyCode::Char('q') => app.should_quit = true,
            _ => {},
        }
        return Command::Nothing;
    }
    match app.focus {
        Focus::Search => handle_search_key(app, key.code),
        Focus::Results => handle_results_key(app, key.code),
    }
}

} // verus!
