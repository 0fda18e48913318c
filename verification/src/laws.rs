use vstd::prelude::*;

use crate::app::{AppView, CommandView, OpenTarget, SearchOutcome};
use crate::api::{post_url_of, short_tags_of};
use crate::input::{key_transition, search_key, Key, KeyCode};
use crate::text::{
    all_words, is_white_space, is_word, join_with_spaces, lemma_decimal_injective,
    lemma_words_are_words, lemma_words_of_join, words,
};

verus! {

/// The state on start-up is well formed.
pub proof fn initial_state_is_valid()
    ensures
        AppView::initial().wf(),
{
}

/// Whatever key is pressed, a well-formed state stays well formed: the
/// selection stays on a loaded post (or at 0) and the page stays at least 1.
pub proof fn key_press_keeps_state_valid(v: AppView, key: Key)
    requires
        v.wf(),
    ensures
        key_transition(v, key).0.wf(),
{
}

/// Whatever a fetch ends with, a well-formed state stays well formed.
pub proof fn search_outcome_keeps_state_valid(v: AppView, outcome: SearchOutcome)
    requires
        v.wf(),
    ensures
        v.searching().wf(),
        v.after_search(outcome).wf(),
{
}

/// Control-C quits from every state, and leaves nothing else to do.
pub proof fn interrupt_always_quits(v: AppView)
    ensures
        key_transition(v, Key { code: KeyCode::Char('c'), ctrl: true }).0.should_quit,
        key_transition(v, Key { code: KeyCode::Char('c'), ctrl: true }).1 == CommandView::Nothing,
{
}

/// Pressing `?` twice opens the help and closes it again, leaving the state
/// as it was.
pub proof fn help_key_twice_restores_state(v: AppView, ctrl: bool)
    requires
        !v.show_help,
    ensures
        key_transition(key_transition(v, Key { code: KeyCode::Char('?'), ctrl }).0, Key { code: KeyCode::Char('?'), ctrl }).0 == v,
{
    let k = Key { code: KeyCode::Char('?'), ctrl };
    assert(key_transition(v, k).0 == AppView { show_help: true, ..v });
}

/// While the help is shown, every key but `?`, Esc, `q` and Control-C
/// leaves the state unchanged and asks for nothing.
pub proof fn help_ignores_other_keys(v: AppView, key: Key)
    requires
        v.show_help,
        key.code != KeyCode::Char('?'),
        key.code != KeyCode::Esc,
        key.code != KeyCode::Char('q'),
        !(key.ctrl && key.code == KeyCode::Char('c')),
    ensures
        key_transition(v, key) == (v, CommandView::Nothing),
{
}

/// In the search box, typing a character and then Backspace gives back the
/// query as it was (for every character that is typed into the box).
pub proof fn typing_then_backspace_restores_query(v: AppView, c: char)
    requires
        !v.show_help,
        v.focus == crate::app::Focus::Search,
        c != '?',
        !(c == 'q' && v.query.len() == 0),
    ensures
        key_transition(key_transition(v, Key { code: KeyCode::Char(c), ctrl: false }).0, Key { code: KeyCode::Backspace, ctrl: false }).0 == v,
{
    let typed = key_transition(v, Key { code: KeyCode::Char(c), ctrl: false }).0;
    assert(typed.query == v.query.push(c));
    assert(typed.query.drop_last() == v.query);
}

/// Turning to the next page and back returns to the same page and fetches
/// the same address as a reload of the starting page would.
pub proof fn next_then_previous_page_returns(v: AppView)
    requires
        v.wf(),
    ensures
        v.to_next_page().0.to_previous_page().0.page == v.page,
        v.to_next_page().0.to_previous_page().0.query == v.query,
        v.to_next_page().0.to_previous_page().1 == CommandView::Fetch(v.search_url()),
{
}

/// On the first page there is no previous page: the state stays as it was
/// and nothing is fetched.
pub proof fn no_page_before_the_first(v: AppView)
    requires
        v.page == 1,
    ensures
        v.to_previous_page() == (v, CommandView::Nothing),
{
}

/// Moving the selection down and back up returns to the same post, unless
/// the selection was already on the last post.
pub proof fn down_then_up_returns(v: AppView)
    requires
        v.selected + 1 < v.posts.len(),
    ensures
        v.moved_down().moved_up() == v,
{
}

/// Moving down from the last post, or up from the first, changes nothing.
pub proof fn selection_stops_at_the_ends(v: AppView)
    requires
        v.wf(),
    ensures
        v.posts.len() > 0 && v.selected == v.posts.len() - 1 ==> v.moved_down() == v,
        v.selected == 0 ==> v.moved_up() == v,
{
}

/// Opening the selected post or image changes nothing but the status line,
/// and asks to open something only when a post is selected.
pub proof fn opening_only_touches_the_status(v: AppView)
    ensures
        (AppView { status: v.status, ..v.opening_post().0 }) == v,
        (AppView { status: v.status, ..v.opening_image().0 }) == v,
        v.opening_post().1 != CommandView::Nothing ==> v.has_selection(),
        v.opening_image().1 != CommandView::Nothing ==> v.has_selection(),
{
}


/// In the search box itself, a typed character followed by Backspace leaves
/// every part of the state as it was.
pub proof fn search_box_typing_then_backspace(v: AppView, c: char)
    requires
        c != '?',
        !(c == 'q' && v.query.len() == 0),
    ensures
        search_key(search_key(v, KeyCode::Char(c)).0, KeyCode::Backspace).0 == v,
        search_key(search_key(v, KeyCode::Char(c)).0, KeyCode::Backspace).1 == CommandView::Nothing,
{
    let typed = search_key(v, KeyCode::Char(c)).0;
    assert(typed.query.drop_last() == v.query);
}

/// Different posts have different page addresses: the address gives the id back.
pub proof fn post_url_is_injective(a: u64, b: u64)
    requires
        post_url_of(a as nat) == post_url_of(b as nat),
    ensures
        a == b,
{
    let prefix = crate::api::API_BASE@ + "/posts/"@;
    let n = prefix.len() as int;
    assert(post_url_of(a as nat).subrange(n, post_url_of(a as nat).len() as int)
        == crate::text::decimal(a as nat));
    assert(post_url_of(b as nat).subrange(n, post_url_of(b as nat).len() as int)
        == crate::text::decimal(b as nat));
    lemma_decimal_injective(a as nat, b as nat);
}

/// The short tag line is stable: shortening it again gives it back (when
/// tags were left out, ` ...` reads as a ninth tag and is shown again).
pub proof fn short_tags_is_stable(tag_string: Seq<char>)
    ensures
        short_tags_of(short_tags_of(tag_string)) == short_tags_of(tag_string),
{
    let ws = words(tag_string);
    lemma_words_are_words(tag_string);
    if ws.len() > 8 {
        let dots = "..."@;
        reveal_strlit("...");
        reveal_strlit(" ...");
        assert(is_word(dots)) by {
            assert forall|j: int| 0 <= j < dots.len() implies !is_white_space(#[trigger] dots[j]) by {
                assert(dots[j] == '.');
            }
        }
        let kept = ws.take(8);
        let u = kept.push(dots);
        assert(all_words(u)) by {
            assert forall|i: int| 0 <= i < u.len() implies is_word(#[trigger] u[i]) by {
                if i < 8 {
                    assert(u[i] == ws[i]);
                }
            }
        }
        assert(u.drop_last() == kept);
        assert(" ..."@ == seq![' '] + dots);
        assert(join_with_spaces(u) == join_with_spaces(kept) + seq![' '] + dots);
        assert(short_tags_of(tag_string) == join_with_spaces(u));
        lemma_words_of_join(u);
        assert(u.take(8) == kept);
    } else {
        lemma_words_of_join(ws);
    }
}

} // verus!
