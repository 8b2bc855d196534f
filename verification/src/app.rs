//! The state of a session and the operations that change it.

use crate::editor::{buffer_cursor, buffer_text, empty_editor};
use crate::filter::{size_of_optional_name, SizeFilter};
use crate::repo::RepositorySummary;
use tui_input::Input;
use vstd::hash_map::StringHashMap;
use vstd::prelude::*;
use vstd::string::*;

verus! {

/// Everything the screen shows and the keys act on.
pub struct App {
    /// The query box.
    pub input: Input,
    /// The current page of results, in rank order.
    pub results: Vec<RepositorySummary>,
    /// The highlighted result, as an index into `results`.
    pub selected_index: Option<usize>,
    /// A search is under way.
    pub searching: bool,
    /// Why the last search failed.
    pub error_message: Option<String>,
    /// How many repositories the last search matched in all.
    pub total_count: Option<u64>,
    /// The file-count report, or the reason there is none, by repository address.
    pub file_counts: StringHashMap<String>,
    /// A file count is under way.
    pub counting_files: bool,
    /// How many lines the details panel is scrolled down.
    pub details_scroll: u16,
    /// The name of the size filter in force: `small`, `medium` or `large`.
    pub repo_size_filter: Option<String>,
    /// A clone is under way.
    pub cloning: bool,
    /// How the last clone ended.
    pub clone_status: Option<String>,
}

/// The text of an optional string.
pub open spec fn opt_text(s: Option<String>) -> Option<Seq<char>> {
    match s {
        Some(t) => Some(t@),
        None => None,
    }
}

/// The selection after a step down a list of `len` results: the next
/// result, or the first after the last. Without results nothing changes.
pub open spec fn next_index(selected: Option<usize>, len: nat) -> Option<usize> {
    if len == 0 {
        selected
    } else {
        match selected {
            Some(i) => if i + 1 >= len {
                Some(0)
            } else {
                Some((i + 1) as usize)
            },
            None => Some(0),
        }
    }
}

/// The selection after a step up a list of `len` results: the result
/// before, or the last before the first. Without results nothing changes.
pub open spec fn previous_index(selected: Option<usize>, len: nat) -> Option<usize> {
    if len == 0 {
        selected
    } else {
        match selected {
            Some(i) => if i == 0 {
                Some((len - 1) as usize)
            } else {
                Some((i - 1) as usize)
            },
            None => Some(0),
        }
    }
}

/// The scroll offset one row further down: it stops at the largest offset.
pub open spec fn scrolled_down(offset: u16) -> u16 {
    if offset < u16::MAX {
        (offset + 1) as u16
    } else {
        offset
    }
}

/// The scroll offset one row further up: it stops at zero.
pub open spec fn scrolled_up(offset: u16) -> u16 {
    if offset > 0 {
        (offset - 1) as u16
    } else {
        0
    }
}

/// The scroll offset after a step up or down the list: zero where the
/// selection has changed, and the offset as it was where it has not.
pub open spec fn scroll_after_step(
    before: Option<usize>,
    after: Option<usize>,
    offset: u16,
) -> u16 {
    if after == before {
        offset
    } else {
        0
    }
}

/// The selection that a new result page gets: its first result, if it has one.
pub open spec fn first_of(len: nat) -> Option<usize> {
    if len > 0 {
        Some(0)
    } else {
        None
    }
}

impl App {
    /// The text in the query box.
    pub open spec fn query(&self) -> Seq<char> {
        buffer_text(self.input)
    }

    /// The file-count entries as plain text, by repository address.
    pub open spec fn counts(&self) -> Map<Seq<char>, Seq<char>> {
        self.file_counts@.map_values(|report: String| report@)
    }

    /// The selection points at a result, or there is none.
    pub open spec fn wf(&self) -> bool {
        self.selected_index matches Some(i) ==> i < self.results.len()
    }

    /// The highlighted result, if the selection points at one.
    pub open spec fn selected_repo(&self) -> Option<RepositorySummary> {
        match self.selected_index {
            Some(i) => if i < self.results.len() {
                Some(self.results[i as int])
            } else {
                None
            },
            None => None,
        }
    }

    /// The state of a session that has not searched yet: nothing typed, no
    /// results, no selection, no filter, no message, nothing under way.
    pub open spec fn is_new(&self) -> bool {
        &&& self.query() == Seq::<char>::empty()
        &&& buffer_cursor(self.input) == 0
        &&& self.results@ == Seq::<RepositorySummary>::empty()
        &&& self.selected_index is None
        &&& !self.searching
        &&& self.error_message is None
        &&& self.total_count is None
        &&& self.counts() == Map::<Seq<char>, Seq<char>>::empty()
        &&& !self.counting_files
        &&& self.details_scroll == 0
        &&& self.repo_size_filter is None
        &&& !self.cloning
        &&& self.clone_status is None
    }

    /// The state of a session that has not searched yet.
    pub fn new() -> (app: App)
        ensures
            app.is_new(),
            app.wf(),
    {
        let app = App {
            input: empty_editor(),
            results: Vec::new(),
            selected_index: None,
            searching: false,
            error_message: None,
            total_count: None,
            file_counts: StringHashMap::new(),
            counting_files: false,
            details_scroll: 0,
            repo_size_filter: None,
            cloning: false,
            clone_status: None,
        };
        assert(app.counts() =~= Map::<Seq<char>, Seq<char>>::empty());
        app
    }

    /// The highlighted result, if the selection points at one.
    pub fn get_selected_repo(&self) -> (repo: Option<&RepositorySummary>)
        ensures
            match repo {
                Some(r) => self.selected_repo() == Some(*r),
                None => self.selected_repo() is None,
            },
    {
        match self.selected_index {
            Some(i) => if i < self.results.len() {
                Some(&self.results[i])
            } else {
                None
            },
            None => None,
        }
    }

    /// The size class that the filter in force names, if it names one.
    pub fn size_filter(&self) -> (filter: Option<SizeFilter>)
        ensures
            filter == size_of_optional_name(self.repo_size_filter),
    {
        match &self.repo_size_filter {
            Some(name) => SizeFilter::parse(name.as_str()),
            None => None,
        }
    }

    /// Sets or clears the size filter.
    pub fn set_size_filter(&mut self, filter: Option<String>)
        ensures
            *final(self) == (App { repo_size_filter: filter, ..*old(self) }),
    {
        self.repo_size_filter = filter;
    }

    /// Takes the outcome of a search that succeeded: the page replaces
    /// the results, its first result is selected (none, if the page is
    /// empty), the details start at the top, and the search is over and
    /// has not failed.
    pub fn set_results(&mut self, results: Vec<RepositorySummary>, total_count: u64)
        ensures
            *final(self) == (App {
                results,
                total_count: Some(total_count),
                selected_index: first_of(results.len() as nat),
                details_scroll: 0,
                searching: false,
                error_message: None,
                ..*old(self)
            }),
            results.len() > 0 ==> final(self).selected_index == Some(0usize),
            results.len() == 0 ==> final(self).selected_index is None,
            final(self).wf(),
    {
        self.selected_index = if results.len() > 0 {
            Some(0)
        } else {
            None
        };
        self.results = results;
        self.total_count = Some(total_count);
        self.details_scroll = 0;
        self.error_message = None;
        self.searching = false;
    }

    /// Takes the outcome of a search that failed: the message is kept, the
    /// search is over, and the results stay as they were.
    pub fn set_error(&mut self, error: String)
        ensures
            *final(self) == (App { error_message: Some(error), searching: false, ..*old(self) }),
    {
        self.error_message = Some(error);
        self.searching = false;
    }

    /// Moves the selection one result down, from the last to the first.
    /// Where that selects another result, the details show from the top.
    pub fn next(&mut self)
        ensures
            *final(self) == (App {
                selected_index: next_index(
                    old(self).selected_index,
                    old(self).results.len() as nat,
                ),
                details_scroll: scroll_after_step(
                    old(self).selected_index,
                    next_index(old(self).selected_index, old(self).results.len() as nat),
                    old(self).details_scroll,
                ),
                ..*old(self)
            }),
            final(self).selected_index != old(self).selected_index ==> final(self).details_scroll
                == 0,
            old(self).wf() || old(self).results.len() > 0 ==> final(self).wf(),
    {
        let len = self.results.len();
        if len == 0 {
            return;
        }
        let i = match self.selected_index {
            Some(i) => if i >= len - 1 {
                0
            } else {
                i + 1
            },
            None => 0,
        };
        self.select(i);
    }

    /// Moves the selection one result up, from the first to the last.
    /// Where that selects another result, the details show from the top.
    pub fn previous(&mut self)
        ensures
            *final(self) == (App {
                selected_index: previous_index(
                    old(self).selected_index,
                    old(self).results.len() as nat,
                ),
                details_scroll: scroll_after_step(
                    old(self).selected_index,
                    previous_index(old(self).selected_index, old(self).results.len() as nat),
                    old(self).details_scroll,
                ),
                ..*old(self)
            }),
            final(self).selected_index != old(self).selected_index ==> final(self).details_scroll
                == 0,
            old(self).wf() ==> final(self).wf(),
    {
        let len = self.results.len();
        if len == 0 {
            return;
        }
        let i = match self.selected_index {
            Some(i) => if i == 0 {
                len - 1
            } else {
                i - 1
            },
            None => 0,
        };
        self.select(i);
    }

    /// Selects the result at an index; the details show from the top if it
    /// was not selected before.
    fn select(&mut self, index: usize)
        ensures
            *final(self) == (App {
                selected_index: Some(index),
                details_scroll: scroll_after_step(
                    old(self).selected_index,
                    Some(index),
                    old(self).details_scroll,
                ),
                ..*old(self)
            }),
    {
        let same = match self.selected_index {
            Some(i) => i == index,
            None => false,
        };
        if !same {
            self.details_scroll = 0;
        }
        self.selected_index = Some(index);
    }

    /// Scrolls the details one row down.
    pub fn scroll_details_down(&mut self)
        ensures
            *final(self) == (App {
                details_scroll: scrolled_down(old(self).details_scroll),
                ..*old(self)
            }),
    {
        if self.details_scroll < u16::MAX {
            self.details_scroll = self.details_scroll + 1;
        }
    }

    /// Scrolls the details one row up; at the top they stay where they are.
    pub fn scroll_details_up(&mut self)
        ensures
            *final(self) == (App {
                details_scroll: scrolled_up(old(self).details_scroll),
                ..*old(self)
            }),
            old(self).details_scroll == 0 ==> final(self).details_scroll == 0,
    {
        if self.details_scroll > 0 {
            self.details_scroll = self.details_scroll - 1;
        }
    }

    /// Shows the details from the top again.
    pub fn reset_details_scroll(&mut self)
        ensures
            *final(self) == (App { details_scroll: 0, ..*old(self) }),
    {
        self.details_scroll = 0;
    }
}

} // verus!
