//! The protocol between the session and the work done for it: what the
//! state shows while a search, a file count or a clone is under way, and
//! how the outcome comes back into the state.
//!
//! The caller does the work. No failure of it ends the session: each
//! comes back as a message in the state.

use crate::app::App;
use crate::resolve::{Action, ActionView};
use vstd::prelude::*;
use vstd::string::*;

verus! {

/// The entry that a file count leaves for a repository: the report, or
/// the reason there is none.
pub open spec fn count_entry(outcome: Result<String, String>) -> Seq<char> {
    match outcome {
        Ok(report) => report@,
        Err(reason) => "Error: "@ + reason@,
    }
}

/// The message that a clone leaves: where the copy is, or why there is none.
pub open spec fn clone_message(outcome: Result<String, String>) -> Seq<char> {
    match outcome {
        Ok(path) => "Cloned to "@ + path@,
        Err(reason) => "Clone failed: "@ + reason@,
    }
}

/// The state in which the work for an action starts: `after` is what
/// `before` becomes.
pub open spec fn begun(before: App, after: App, action: ActionView) -> bool {
    match action {
        ActionView::Submit(_) => after == (App { searching: true, error_message: None, ..before }),
        ActionView::RequestFileCount(_) => after == (App { counting_files: true, ..before }),
        ActionView::RequestClone(_) => after == (App {
            cloning: true,
            clone_status: None,
            ..before
        }),
        _ => after == before,
    }
}

/// The state that takes the outcome of a file count for the repository at
/// `url`: `after` is what `before` becomes. The entry for the address is
/// the outcome's, in place of any earlier one; the count is over; nothing
/// else changes.
pub open spec fn count_recorded(
    before: App,
    after: App,
    url: Seq<char>,
    outcome: Result<String, String>,
) -> bool {
    &&& after.counts() == before.counts().insert(url, count_entry(outcome))
    &&& after == (App { file_counts: after.file_counts, counting_files: false, ..before })
}

/// The state that takes the outcome of a clone: `after` is what `before`
/// becomes. The clone message is the outcome's; the clone is over;
/// nothing else changes.
pub open spec fn clone_recorded(before: App, after: App, outcome: Result<String, String>) -> bool {
    &&& after.clone_status matches Some(message) && message@ == clone_message(outcome)
    &&& after == (App { clone_status: after.clone_status, cloning: false, ..before })
}

impl App {
    /// Marks the work for an action as under way, before the caller
    /// starts it. A search forgets the last failure, a clone the last
    /// clone message. Quitting and opening a browser leave no mark.
    pub fn begin(&mut self, action: &Action)
        ensures
            begun(*old(self), *final(self), action.deep_view()),
            old(self).wf() ==> final(self).wf(),
    {
        match action {
            Action::Submit(_) => {
                self.searching = true;
                self.error_message = None;
            },
            Action::RequestFileCount(_) => {
                self.counting_files = true;
            },
            Action::RequestClone(_) => {
                self.cloning = true;
                self.clone_status = None;
            },
            _ => {},
        }
    }

    /// Takes the outcome of a file count for the repository at `url`: the
    /// report, or the reason for the failure after `Error: `, becomes the
    /// entry for that address, in place of any earlier one, and the count
    /// is over.
    pub fn finish_file_count(&mut self, url: String, outcome: Result<String, String>)
        ensures
            count_recorded(*old(self), *final(self), url@, outcome),
            old(self).wf() ==> final(self).wf(),
    {
        let entry = match outcome {
            Ok(report) => report,
            Err(reason) => {
                let mut text = String::from_str("Error: ");
                text.append(reason.as_str());
                text
            },
        };
        self.file_counts.insert(url, entry);
        self.counting_files = false;
        assert(self.counts() =~= old(self).counts().insert(url@, count_entry(outcome)));
    }

    /// Takes the outcome of a clone: the path after `Cloned to `, or the
    /// reason for the failure after `Clone failed: `, becomes the clone
    /// message, and the clone is over.
    pub fn finish_clone(&mut self, outcome: Result<String, String>)
        ensures
            clone_recorded(*old(self), *final(self), outcome),
            old(self).wf() ==> final(self).wf(),
    {
        let message = match outcome {
            Ok(path) => {
                let mut text = String::from_str("Cloned to ");
                text.append(path.as_str());
                text
            },
            Err(reason) => {
                let mut text = String::from_str("Clone failed: ");
                text.append(reason.as_str());
                text
            },
        };
        self.clone_status = Some(message);
        self.cloning = false;
    }
}

} // verus!
