//! The key bindings: what each key does to the state, and what it asks
//! the caller to do.
//!
//! Enter only ever submits the query. Opening, counting and cloning have
//! bindings of their own, each with the alt key.

use crate::app::{next_index, previous_index, scrolled_down, scrolled_up, App};
use crate::editor::{buffer_cursor, buffer_text, edit_applied, handle_edit_key};
use crate::filter::SizeFilter;
use crate::keys::{EditKey, KeyCode, KeyPress};
use vstd::prelude::*;
use vstd::string::*;

verus! {

/// What the caller is asked to do after a key.
#[derive(Debug, PartialEq, Eq)]
pub enum Action {
    /// End the session.
    Quit,
    /// Search for this query text.
    Submit(String),
    /// Show the page at this address in a browser.
    OpenBrowser(String),
    /// Count the files of the repository at this address.
    RequestFileCount(String),
    /// Clone the repository at this address.
    RequestClone(String),
}

/// An action as plain values.
pub enum ActionView {
    Quit,
    Submit(Seq<char>),
    OpenBrowser(Seq<char>),
    RequestFileCount(Seq<char>),
    RequestClone(Seq<char>),
}

impl DeepView for Action {
    type V = ActionView;

    open spec fn deep_view(&self) -> ActionView {
        match self {
            Action::Quit => ActionView::Quit,
            Action::Submit(query) => ActionView::Submit(query@),
            Action::OpenBrowser(url) => ActionView::OpenBrowser(url@),
            Action::RequestFileCount(url) => ActionView::RequestFileCount(url@),
            Action::RequestClone(url) => ActionView::RequestClone(url@),
        }
    }
}

/// What a key is bound to.
#[derive(Clone, Copy, Debug, PartialEq, Eq)]
pub enum Binding {
    Quit,
    SelectNext,
    SelectPrevious,
    ScrollUp,
    ScrollDown,
    Submit,
    Open,
    ClearInput,
    CountFiles,
    CloneRepository,
    SetFilter(SizeFilter),
    ClearFilter,
    /// The key goes to the text editor of the query box.
    Edit,
}

/// The table of key bindings.
///
/// - Esc, or `c` with control: quit.
/// - Down and Up: select the next and the previous result.
/// - Left and Right: scroll the details up and down.
/// - Enter: submit the query.
/// - `o`, `f`, `g` with alt: open, count the files of, clone the selected result.
/// - `c` with alt: clear the query box.
/// - `1`, `2`, `3`: filter by size; `0`: no filter.
/// - Every other key is for the text editor of the query box.
pub open spec fn binding_of(key: KeyPress) -> Binding {
    match key.code {
        KeyCode::Char(c) => if c == 'c' && key.control() {
            Binding::Quit
        } else if c == 'o' && key.alt() {
            Binding::Open
        } else if c == 'c' && key.alt() {
            Binding::ClearInput
        } else if c == 'f' && key.alt() {
            Binding::CountFiles
        } else if c == 'g' && key.alt() {
            Binding::CloneRepository
        } else if c == '1' {
            Binding::SetFilter(SizeFilter::Small)
        } else if c == '2' {
            Binding::SetFilter(SizeFilter::Medium)
        } else if c == '3' {
            Binding::SetFilter(SizeFilter::Large)
        } else if c == '0' {
            Binding::ClearFilter
        } else {
            Binding::Edit
        },
        KeyCode::Esc => Binding::Quit,
        KeyCode::Down => Binding::SelectNext,
        KeyCode::Up => Binding::SelectPrevious,
        KeyCode::Left => Binding::ScrollUp,
        KeyCode::Right => Binding::ScrollDown,
        KeyCode::Enter => Binding::Submit,
        _ => Binding::Edit,
    }
}

/// The key as the text editor gets it.
pub open spec fn edit_key_of(code: KeyCode) -> EditKey {
    match code {
        KeyCode::Char(c) => EditKey::Char(c),
        KeyCode::Backspace => EditKey::Backspace,
        KeyCode::Delete => EditKey::Delete,
        KeyCode::Home => EditKey::Home,
        KeyCode::End => EditKey::End,
        _ => EditKey::Other,
    }
}

/// The address of the selected result, where one is selected and has one.
pub open spec fn selected_url(app: App) -> Option<Seq<char>> {
    match app.selected_repo() {
        Some(repo) => match repo.html_url {
            Some(url) => Some(url@),
            None => None,
        },
        None => None,
    }
}

/// What a key asks the caller to do, in a given state.
pub open spec fn action_for(app: App, key: KeyPress) -> Option<ActionView> {
    match binding_of(key) {
        Binding::Quit => Some(ActionView::Quit),
        Binding::Submit => if app.query().len() > 0 {
            Some(ActionView::Submit(app.query()))
        } else {
            None
        },
        Binding::Open => match selected_url(app) {
            Some(url) => Some(ActionView::OpenBrowser(url)),
            None => None,
        },
        Binding::CountFiles => match selected_url(app) {
            Some(url) => Some(ActionView::RequestFileCount(url)),
            None => None,
        },
        Binding::CloneRepository => match selected_url(app) {
            Some(url) => Some(ActionView::RequestClone(url)),
            None => None,
        },
        _ => None,
    }
}

/// How a key changes the state: `after` is what `before` becomes.
pub open spec fn key_applied(before: App, after: App, key: KeyPress) -> bool {
    match binding_of(key) {
        Binding::SelectNext => after == (App {
            selected_index: next_index(before.selected_index, before.results.len() as nat),
            details_scroll: 0,
            ..before
        }),
        Binding::SelectPrevious => after == (App {
            selected_index: previous_index(before.selected_index, before.results.len() as nat),
            details_scroll: 0,
            ..before
        }),
        Binding::ScrollUp => after == (App {
            details_scroll: scrolled_up(before.details_scroll),
            ..before
        }),
        Binding::ScrollDown => after == (App {
            details_scroll: scrolled_down(before.details_scroll),
            ..before
        }),
        Binding::ClearInput => {
            &&& after == (App { input: after.input, ..before })
            &&& buffer_text(after.input) == Seq::<char>::empty()
            &&& buffer_cursor(after.input) == 0
        },
        Binding::SetFilter(filter) => {
            &&& after == (App { repo_size_filter: after.repo_size_filter, ..before })
            &&& after.repo_size_filter matches Some(name)
            &&& name@ == filter.name_text()
        },
        Binding::ClearFilter => after == (App { repo_size_filter: None, ..before }),
        Binding::Edit => {
            &&& after == (App { input: after.input, ..before })
            &&& edit_applied(
                before.input,
                after.input,
                edit_key_of(key.code),
                key.modifiers,
                key.kind,
            )
        },
        _ => after == before,
    }
}

/// Looks a key up in the table of bindings.
pub fn binding(key: &KeyPress) -> (b: Binding)
    ensures
        b == binding_of(*key),
{
    match key.code {
        KeyCode::Char(c) => if c == 'c' && key.has_control() {
            Binding::Quit
        } else if c == 'o' && key.has_alt() {
            Binding::Open
        } else if c == 'c' && key.has_alt() {
            Binding::ClearInput
        } else if c == 'f' && key.has_alt() {
            Binding::CountFiles
        } else if c == 'g' && key.has_alt() {
            Binding::CloneRepository
        } else if c == '1' {
            Binding::SetFilter(SizeFilter::Small)
        } else if c == '2' {
            Binding::SetFilter(SizeFilter::Medium)
        } else if c == '3' {
            Binding::SetFilter(SizeFilter::Large)
        } else if c == '0' {
            Binding::ClearFilter
        } else {
            Binding::Edit
        },
        KeyCode::Esc => Binding::Quit,
        KeyCode::Down => Binding::SelectNext,
        KeyCode::Up => Binding::SelectPrevious,
        KeyCode::Left => Binding::ScrollUp,
        KeyCode::Right => Binding::ScrollDown,
        KeyCode::Enter => Binding::Submit,
        _ => Binding::Edit,
    }
}

/// The key as the text editor gets it.
pub fn edit_key(code: KeyCode) -> (k: EditKey)
    ensures
        k == edit_key_of(code),
{
    match code {
        KeyCode::Char(c) => EditKey::Char(c),
        KeyCode::Backspace => EditKey::Backspace,
        KeyCode::Delete => EditKey::Delete,
        KeyCode::Home => EditKey::Home,
        KeyCode::End => EditKey::End,
        _ => EditKey::Other,
    }
}

impl App {
    /// A copy of the address of the selected result, where one is
    /// selected and has one.
    pub fn selected_url(&self) -> (url: Option<String>)
        ensures
            url.deep_view() == selected_url(*self),
    {
        match self.get_selected_repo() {
            Some(repo) => match &repo.html_url {
                Some(url) => Some(url.clone()),
                None => None,
            },
            None => None,
        }
    }

    /// Handles one key: changes the state as the key's binding says, and
    /// returns what the caller is asked to do, if anything.
    pub fn handle_key(&mut self, key: &KeyPress) -> (action: Option<Action>)
        ensures
            action.deep_view() == action_for(*old(self), *key),
            key_applied(*old(self), *final(self), *key),
            old(self).wf() ==> final(self).wf(),
    {
        match binding(key) {
            Binding::Quit => Some(Action::Quit),
            Binding::SelectNext => {
                self.next();
                self.reset_details_scroll();
                None
            },
            Binding::SelectPrevious => {
                self.previous();
                self.reset_details_scroll();
                None
            },
            Binding::ScrollUp => {
                self.scroll_details_up();
                None
            },
            Binding::ScrollDown => {
                self.scroll_details_down();
                None
            },
            Binding::Submit => {
                let query = self.input.value();
                if query.is_empty() {
                    None
                } else {
                    Some(Action::Submit(String::from_str(query)))
                }
            },
            Binding::Open => match self.selected_url() {
                Some(url) => Some(Action::OpenBrowser(url)),
                None => None,
            },
            Binding::CountFiles => match self.selected_url() {
                Some(url) => Some(Action::RequestFileCount(url)),
                None => None,
            },
            Binding::CloneRepository => match self.selected_url() {
                Some(url) => Some(Action::RequestClone(url)),
                None => None,
            },
            Binding::ClearInput => {
                self.input.reset();
                None
            },
            Binding::SetFilter(filter) => {
                self.set_size_filter(Some(filter.name()));
                None
            },
            Binding::ClearFilter => {
                self.set_size_filter(None);
                None
            },
            Binding::Edit => {
                handle_edit_key(&mut self.input, edit_key(key.code), key.modifiers, key.kind);
                None
            },
        }
    }
}

} // verus!
