//! What holds of every session, proved from the contracts of its operations.

use crate::app::App;
use crate::dispatch::{count_entry, count_recorded};
use crate::keys::KeyPress;
use crate::render::results_region;
use crate::resolve::{action_for, binding_of, key_applied, ActionView, Binding};
use crate::filter::query_text;
use crate::session::{marks_agree, stepped, Event, PhaseView, Session, WorkView};
use vstd::prelude::*;

verus! {

/// Stepping down from the last result selects the first.
pub proof fn law_down_wraps_to_first(before: App, after: App, key: KeyPress)
    requires
        before.results.len() > 0,
        before.selected_index == Some((before.results.len() - 1) as usize),
        binding_of(key) == Binding::SelectNext,
        key_applied(before, after, key),
    ensures
        after.selected_index == Some(0usize),
{
}

/// Stepping up from the first result selects the last.
pub proof fn law_up_wraps_to_last(before: App, after: App, key: KeyPress)
    requires
        before.results.len() > 0,
        before.selected_index == Some(0usize),
        binding_of(key) == Binding::SelectPrevious,
        key_applied(before, after, key),
    ensures
        after.selected_index == Some((before.results.len() - 1) as usize),
{
}

/// Without results, stepping down or up selects nothing.
pub proof fn law_no_results_no_selection(before: App, after: App, key: KeyPress)
    requires
        before.results.len() == 0,
        before.selected_index is None,
        binding_of(key) == Binding::SelectNext || binding_of(key) == Binding::SelectPrevious,
        key_applied(before, after, key),
    ensures
        after.selected_index is None,
{
}

/// The details never scroll above the top: however often they are
/// scrolled up there, or the selection is stepped up or down, they stay
/// at the top. In a run of states, each made from the one before by a
/// key that does not scroll down, every offset is zero if the first is.
pub proof fn law_scroll_stays_at_top(states: Seq<App>, keys: Seq<KeyPress>)
    requires
        states.len() == keys.len() + 1,
        states[0].details_scroll == 0,
        forall|i: int|
            0 <= i < keys.len() ==> binding_of(#[trigger] keys[i]) != Binding::ScrollDown
                && key_applied(states[i], states[i + 1], keys[i]),
    ensures
        forall|i: int| 0 <= i < states.len() ==> (#[trigger] states[i]).details_scroll == 0,
    decreases keys.len(),
{
    if keys.len() > 0 {
        let front_states = states.drop_last();
        let front_keys = keys.drop_last();
        assert forall|i: int| 0 <= i < front_keys.len() implies binding_of(
            #[trigger] front_keys[i],
        ) != Binding::ScrollDown && key_applied(front_states[i], front_states[i + 1], front_keys[i])
        by {
            assert(front_keys[i] == keys[i]);
        }
        law_scroll_stays_at_top(front_states, front_keys);
        let last = keys.len() - 1;
        assert(front_states[last] == states[last]);
        assert(binding_of(keys[last]) != Binding::ScrollDown);
        assert(key_applied(states[last], states[last + 1], keys[last]));
        assert forall|i: int| 0 <= i < states.len() implies (#[trigger] states[i]).details_scroll
            == 0 by {
            if i < last + 1 {
                assert(front_states[i] == states[i]);
            }
        }
    }
}

/// A key that selects another result shows its details from the top, and
/// so does every step down or up, whether or not it selects another.
pub proof fn law_selection_change_resets_scroll(before: App, after: App, key: KeyPress)
    requires
        key_applied(before, after, key),
    ensures
        after.selected_index != before.selected_index ==> after.details_scroll == 0,
        binding_of(key) == Binding::SelectNext || binding_of(key) == Binding::SelectPrevious
            ==> after.details_scroll == 0,
{
}

/// No key makes a valid selection invalid.
pub proof fn law_key_keeps_selection_valid(before: App, after: App, key: KeyPress)
    requires
        before.wf(),
        key_applied(before, after, key),
    ensures
        after.wf(),
{
}

/// A second file count for the same address replaces the entry of the
/// first and adds none: the entries are those before the first count plus
/// the second outcome's, at the same addresses as after the first. Where
/// both counts end alike, the second changes no entry.
pub proof fn law_repeated_count_overwrites(
    start: App,
    once: App,
    twice: App,
    url: Seq<char>,
    first: Result<String, String>,
    second: Result<String, String>,
)
    requires
        count_recorded(start, once, url, first),
        count_recorded(once, twice, url, second),
    ensures
        twice.counts() == start.counts().insert(url, count_entry(second)),
        twice.counts().dom() == once.counts().dom(),
        count_entry(first) == count_entry(second) ==> twice.counts() == once.counts(),
{
    assert(twice.counts() =~= start.counts().insert(url, count_entry(second)));
    assert(twice.counts().dom() =~= once.counts().dom());
    if count_entry(first) == count_entry(second) {
        assert(twice.counts() =~= once.counts());
    }
}

/// The region below the query box shows one thing, by rank: the search
/// under way, else the failure of the last search, else the welcome text
/// for an empty page, else the list.
pub proof fn law_results_region_by_rank(app: App)
    ensures
        results_region(&app) is Searching <==> app.searching,
        results_region(&app) is Failed <==> !app.searching && app.error_message is Some,
        results_region(&app) is Welcome <==> !app.searching && app.error_message is None
            && app.results.len() == 0,
        results_region(&app) is Listing <==> !app.searching && app.error_message is None
            && app.results.len() > 0,
{
}

/// A step of the loop keeps the marks in the state in agreement with the
/// phase: what is marked as under way is what the loop announces or waits
/// for, and nothing else.
pub proof fn law_step_keeps_marks(before: Session, event: Event, after: Session)
    requires
        marks_agree(before),
        stepped(before, event, after),
    ensures
        marks_agree(after),
{
}

/// The loop ends on a key that asks to quit, and on nothing else. Above
/// all, opening a browser does not end it.
pub proof fn law_only_quit_ends_the_loop(before: Session, event: Event, after: Session)
    requires
        stepped(before, event, after),
        after.phase.deep_view() == PhaseView::Terminated,
        before.phase.deep_view() != PhaseView::Terminated,
    ensures
        before.phase.deep_view() == PhaseView::AwaitingInput,
        event matches Event::Key(key) && action_for(before.app, key) == Some(ActionView::Quit),
{
}

/// After the end, nothing changes any more.
pub proof fn law_the_end_is_final(before: Session, event: Event, after: Session)
    requires
        stepped(before, event, after),
        before.phase.deep_view() == PhaseView::Terminated,
    ensures
        after.phase.deep_view() == PhaseView::Terminated,
        after.app == before.app,
{
}

/// No step of the loop makes a valid selection invalid.
pub proof fn law_step_keeps_selection_valid(before: Session, event: Event, after: Session)
    requires
        before.app.wf(),
        stepped(before, event, after),
    ensures
        after.app.wf(),
{
}

/// A search with no size filter in force filters by no size: the query
/// that is announced holds the text submitted and the terms of the
/// options, and no size term. This is so whatever filter the session
/// started with or had before.
pub proof fn law_no_filter_no_size_term(
    before: Session,
    key: KeyPress,
    words: Seq<char>,
    after: Session,
)
    requires
        before.phase.deep_view() == PhaseView::AwaitingInput,
        before.app.repo_size_filter is None,
        action_for(before.app, key) == Some(ActionView::Submit(words)),
        stepped(before, Event::Key(key), after),
    ensures
        after.phase.deep_view() == PhaseView::Announcing(
            WorkView::Search(
                query_text(words, before.options.language, before.options.stars, None),
            ),
        ),
        after.app.searching,
{
}

/// The key that clears the size filter leaves no filter in force.
pub proof fn law_clear_key_clears_the_filter(before: App, after: App, key: KeyPress)
    requires
        binding_of(key) == Binding::ClearFilter,
        key_applied(before, after, key),
    ensures
        after.repo_size_filter is None,
{
}

} // verus!
