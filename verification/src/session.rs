//! The event loop as a state machine.
//!
//! A session does no work of its own. It tells its caller what to do next
//! (draw the screen, read a key, run a search, a file count or a clone,
//! open a browser, or stop), and the caller reports back what happened. So
//! every decision of the loop is made here, and the caller only acts.
//!
//! One thing is under way at a time, and nothing under way can be called
//! off: while the session waits for an outcome, it takes no key.

use crate::app::{first_of, App};
use crate::dispatch::{clone_recorded, count_recorded};
use crate::filter::{build_search_query, query_text, size_chosen, SearchOptions};
use crate::keys::KeyPress;
use crate::repo::RepositorySummary;
use crate::resolve::{action_for, key_applied, Action, ActionView};
use vstd::prelude::*;
use vstd::string::*;

verus! {

/// Work that the caller does for the session.
#[derive(Debug, PartialEq, Eq)]
pub enum Work {
    /// Send this query to the search service.
    Search(String),
    /// Count the files of the repository at this address.
    CountFiles(String),
    /// Clone the repository at this address.
    CloneRepository(String),
    /// Show the page at this address in a browser.
    OpenBrowser(String),
}

/// What the caller is to do next.
#[derive(Debug, PartialEq, Eq)]
pub enum Command {
    /// Draw the screen for the state as it is now.
    Draw,
    /// Wait for the next event of the terminal.
    ReadKey,
    /// Do this work, and report its outcome.
    Run(Work),
    /// Leave the loop: the user has quit.
    Exit,
}

/// What the caller reports back.
#[derive(Debug)]
pub enum Event {
    /// The screen has been drawn.
    Drawn,
    /// A key event has come in.
    Key(KeyPress),
    /// An event has come in that is no key event.
    Ignored,
    /// The search has ended, with a result page and the total number of
    /// matches, or with the reason for its failure.
    SearchFinished(Result<(Vec<RepositorySummary>, u64), String>),
    /// The file count has ended, with its report or the reason for its failure.
    CountFinished(Result<String, String>),
    /// The clone has ended, with the path of the copy or the reason for its failure.
    CloneFinished(Result<String, String>),
    /// The browser has been asked to open the page.
    BrowserOpened,
}

/// Where the loop stands.
#[derive(Debug, PartialEq, Eq)]
pub enum Phase {
    /// The screen is being drawn; a key is read next.
    Rendering,
    /// A key is awaited.
    AwaitingInput,
    /// The screen is being drawn to show that this work is about to start.
    Announcing(Work),
    /// This work is under way.
    Dispatching(Work),
    /// The user has quit.
    Terminated,
}

/// A session: the state, the options of its searches, and the phase of the loop.
pub struct Session {
    pub app: App,
    pub options: SearchOptions,
    pub phase: Phase,
}

/// Work as plain values.
pub enum WorkView {
    Search(Seq<char>),
    CountFiles(Seq<char>),
    CloneRepository(Seq<char>),
    OpenBrowser(Seq<char>),
}

/// A command as plain values.
pub enum CommandView {
    Draw,
    ReadKey,
    Run(WorkView),
    Exit,
}

/// A phase as plain values.
pub enum PhaseView {
    Rendering,
    AwaitingInput,
    Announcing(WorkView),
    Dispatching(WorkView),
    Terminated,
}

impl DeepView for Work {
    type V = WorkView;

    open spec fn deep_view(&self) -> WorkView {
        match self {
            Work::Search(query) => WorkView::Search(query@),
            Work::CountFiles(url) => WorkView::CountFiles(url@),
            Work::CloneRepository(url) => WorkView::CloneRepository(url@),
            Work::OpenBrowser(url) => WorkView::OpenBrowser(url@),
        }
    }
}

impl DeepView for Command {
    type V = CommandView;

    open spec fn deep_view(&self) -> CommandView {
        match self {
            Command::Draw => CommandView::Draw,
            Command::ReadKey => CommandView::ReadKey,
            Command::Run(work) => CommandView::Run(work.deep_view()),
            Command::Exit => CommandView::Exit,
        }
    }
}

impl DeepView for Phase {
    type V = PhaseView;

    open spec fn deep_view(&self) -> PhaseView {
        match self {
            Phase::Rendering => PhaseView::Rendering,
            Phase::AwaitingInput => PhaseView::AwaitingInput,
            Phase::Announcing(work) => PhaseView::Announcing(work.deep_view()),
            Phase::Dispatching(work) => PhaseView::Dispatching(work.deep_view()),
            Phase::Terminated => PhaseView::Terminated,
        }
    }
}

/// What the caller is to do in a phase.
pub open spec fn command_of(phase: PhaseView) -> CommandView {
    match phase {
        PhaseView::Rendering => CommandView::Draw,
        PhaseView::AwaitingInput => CommandView::ReadKey,
        PhaseView::Announcing(_) => CommandView::Draw,
        PhaseView::Dispatching(work) => CommandView::Run(work),
        PhaseView::Terminated => CommandView::Exit,
    }
}

/// The state with the mark of the work that an action starts.
pub open spec fn marked(app: App, action: ActionView) -> App {
    match action {
        ActionView::Submit(_) => App { searching: true, error_message: None, ..app },
        ActionView::RequestFileCount(_) => App { counting_files: true, ..app },
        ActionView::RequestClone(_) => App { cloning: true, clone_status: None, ..app },
        _ => app,
    }
}

/// How an action that a key asked for moves the session on.
///
/// - Quit ends the loop.
/// - Opening a browser starts at once and marks nothing.
/// - A search, a file count and a clone are marked in the state and
///   announced by a draw before they start. The search query is put
///   together from the text submitted, the options and the size filter
///   in force; with no filter in force it has no size term.
/// - A search under a size filter with an unknown name does not start: it
///   has failed at once, with the message of the error.
pub open spec fn action_taken(before: Session, action: ActionView, after: Session) -> bool {
    match action {
        ActionView::Quit => after.app == before.app && after.phase.deep_view()
            == PhaseView::Terminated,
        ActionView::OpenBrowser(url) => after.app == before.app && after.phase.deep_view()
            == PhaseView::Dispatching(WorkView::OpenBrowser(url)),
        ActionView::RequestFileCount(url) => after.app == marked(before.app, action)
            && after.phase.deep_view() == PhaseView::Announcing(WorkView::CountFiles(url)),
        ActionView::RequestClone(url) => after.app == marked(before.app, action)
            && after.phase.deep_view() == PhaseView::Announcing(WorkView::CloneRepository(url)),
        ActionView::Submit(words) => match size_chosen(before.app.repo_size_filter) {
            Ok(size) => after.app == marked(before.app, action) && after.phase.deep_view()
                == PhaseView::Announcing(
                WorkView::Search(
                    query_text(words, before.options.language, before.options.stars, size),
                ),
            ),
            Err(name) => {
                &&& after.app == (App {
                    error_message: after.app.error_message,
                    searching: false,
                    ..before.app
                })
                &&& after.app.error_message matches Some(message)
                &&& message@ == "Invalid repo_size '"@ + name + "'. Use: small, medium, or large"@
                &&& after.phase.deep_view() == PhaseView::Rendering
            },
        },
    }
}

/// How the outcome of work comes back into the state. An outcome that
/// does not belong to the work is no outcome of it.
pub open spec fn outcome_taken(before: App, work: WorkView, event: Event, after: App) -> bool {
    match (work, event) {
        (WorkView::Search(_), Event::SearchFinished(Ok((results, total)))) => after == (App {
            results,
            total_count: Some(total),
            selected_index: first_of(results.len() as nat),
            details_scroll: 0,
            searching: false,
            error_message: None,
            ..before
        }),
        (WorkView::Search(_), Event::SearchFinished(Err(reason))) => after == (App {
            error_message: Some(reason),
            searching: false,
            ..before
        }),
        (WorkView::CountFiles(url), Event::CountFinished(outcome)) => count_recorded(
            before,
            after,
            url,
            outcome,
        ),
        (WorkView::CloneRepository(_), Event::CloneFinished(outcome)) => clone_recorded(
            before,
            after,
            outcome,
        ),
        (WorkView::OpenBrowser(_), Event::BrowserOpened) => after == before,
        _ => false,
    }
}

/// Whether an event is the outcome of the work.
pub open spec fn is_outcome_of(work: WorkView, event: Event) -> bool {
    match (work, event) {
        (WorkView::Search(_), Event::SearchFinished(_)) => true,
        (WorkView::CountFiles(_), Event::CountFinished(_)) => true,
        (WorkView::CloneRepository(_), Event::CloneFinished(_)) => true,
        (WorkView::OpenBrowser(_), Event::BrowserOpened) => true,
        _ => false,
    }
}

/// One step of the loop: `after` is what `before` becomes on `event`.
///
/// - After a draw, a key is read; after the draw that announces work, the
///   work starts.
/// - A key is handled by its binding. If it asks for nothing, the screen
///   is drawn again; else the action is taken.
/// - An event that is no key event leads to a draw.
/// - The outcome of the work under way is taken into the state, and the
///   screen is drawn again.
/// - Any other event changes nothing: the session still waits for what it
///   asked for. After the end nothing changes any more.
pub open spec fn stepped(before: Session, event: Event, after: Session) -> bool {
    &&& after.options == before.options
    &&& match (before.phase.deep_view(), event) {
        (PhaseView::Rendering, Event::Drawn) => after.app == before.app && after.phase.deep_view()
            == PhaseView::AwaitingInput,
        (PhaseView::Announcing(work), Event::Drawn) => after.app == before.app
            && after.phase.deep_view() == PhaseView::Dispatching(work),
        (PhaseView::AwaitingInput, Event::Key(key)) => match action_for(before.app, key) {
            Some(action) => action_taken(before, action, after),
            None => key_applied(before.app, after.app, key) && after.phase.deep_view()
                == PhaseView::Rendering,
        },
        (PhaseView::AwaitingInput, Event::Ignored) => after.app == before.app
            && after.phase.deep_view() == PhaseView::Rendering,
        (PhaseView::Dispatching(work), _) => if is_outcome_of(work, event) {
            outcome_taken(before.app, work, event, after.app) && after.phase.deep_view()
                == PhaseView::Rendering
        } else {
            after.app == before.app && after.phase.deep_view() == before.phase.deep_view()
        },
        _ => after.app == before.app && after.phase.deep_view() == before.phase.deep_view(),
    }
}

/// The marks in the state agree with the phase: a search, a file count or
/// a clone is marked as under way exactly while the loop announces it or
/// waits for its outcome. So at most one of them is marked at a time.
pub open spec fn marks_agree(session: Session) -> bool {
    let work = match session.phase.deep_view() {
        PhaseView::Announcing(work) => Some(work),
        PhaseView::Dispatching(work) => Some(work),
        _ => None,
    };
    &&& session.app.searching <==> (work matches Some(WorkView::Search(_)))
    &&& session.app.counting_files <==> (work matches Some(WorkView::CountFiles(_)))
    &&& session.app.cloning <==> (work matches Some(WorkView::CloneRepository(_)))
}

impl Work {
    /// A copy of the work.
    pub fn copy(&self) -> (work: Work)
        ensures
            work.deep_view() == self.deep_view(),
    {
        match self {
            Work::Search(query) => Work::Search(query.clone()),
            Work::CountFiles(url) => Work::CountFiles(url.clone()),
            Work::CloneRepository(url) => Work::CloneRepository(url.clone()),
            Work::OpenBrowser(url) => Work::OpenBrowser(url.clone()),
        }
    }
}

impl Session {
    /// A session at its start: a new state but for the size filter, which
    /// is the one given, and the screen to be drawn.
    pub fn new(options: SearchOptions, size_filter: Option<String>) -> (session: Session)
        ensures
            session.options == options,
            session.phase.deep_view() == PhaseView::Rendering,
            session.app.repo_size_filter == size_filter,
            (App { repo_size_filter: None, ..session.app }).is_new(),
            session.app.wf(),
            marks_agree(session),
    {
        let mut app = App::new();
        app.set_size_filter(size_filter);
        Session { app, options, phase: Phase::Rendering }
    }

    /// What the caller is to do now.
    pub fn command(&self) -> (command: Command)
        ensures
            command.deep_view() == command_of(self.phase.deep_view()),
    {
        match &self.phase {
            Phase::Rendering => Command::Draw,
            Phase::AwaitingInput => Command::ReadKey,
            Phase::Announcing(_) => Command::Draw,
            Phase::Dispatching(work) => Command::Run(work.copy()),
            Phase::Terminated => Command::Exit,
        }
    }

    /// Moves the session on by an action that a key asked for.
    fn take_action(&mut self, action: Action)
        requires
            old(self).phase.deep_view() == PhaseView::AwaitingInput,
        ensures
            action_taken(*old(self), action.deep_view(), *final(self)),
            final(self).options == old(self).options,
            old(self).app.wf() ==> final(self).app.wf(),
    {
        self.app.begin(&action);
        match action {
            Action::Quit => {
                self.phase = Phase::Terminated;
            },
            Action::OpenBrowser(url) => {
                self.phase = Phase::Dispatching(Work::OpenBrowser(url));
            },
            Action::RequestFileCount(url) => {
                self.phase = Phase::Announcing(Work::CountFiles(url));
            },
            Action::RequestClone(url) => {
                self.phase = Phase::Announcing(Work::CloneRepository(url));
            },
            Action::Submit(words) => {
                match build_search_query(words.as_str(), &self.options, &self.app.repo_size_filter) {
                    Ok(query) => {
                        self.phase = Phase::Announcing(Work::Search(query));
                    },
                    Err(error) => {
                        self.app.set_error(error.message());
                        self.phase = Phase::Rendering;
                    },
                }
            },
        }
    }

    /// Takes the outcome of the work under way into the state.
    fn take_outcome(&mut self, work: Work, event: Event)
        requires
            is_outcome_of(work.deep_view(), event),
        ensures
            outcome_taken(old(self).app, work.deep_view(), event, final(self).app),
            final(self).options == old(self).options,
            final(self).phase == old(self).phase,
            old(self).app.wf() ==> final(self).app.wf(),
    {
        match (work, event) {
            (Work::Search(_), Event::SearchFinished(Ok((results, total)))) => {
                self.app.set_results(results, total);
            },
            (Work::Search(_), Event::SearchFinished(Err(reason))) => {
                self.app.set_error(reason);
            },
            (Work::CountFiles(url), Event::CountFinished(outcome)) => {
                self.app.finish_file_count(url, outcome);
            },
            (Work::CloneRepository(_), Event::CloneFinished(outcome)) => {
                self.app.finish_clone(outcome);
            },
            _ => {},
        }
    }

    /// Takes what the caller reports, moves the loop on, and returns what
    /// the caller is to do next.
    pub fn step(&mut self, event: Event) -> (command: Command)
        ensures
            stepped(*old(self), event, *final(self)),
            command.deep_view() == command_of(final(self).phase.deep_view()),
            old(self).app.wf() ==> final(self).app.wf(),
    {
        let mut phase = Phase::Terminated;
        core::mem::swap(&mut self.phase, &mut phase);
        match (phase, event) {
            (Phase::Rendering, Event::Drawn) => {
                self.phase = Phase::AwaitingInput;
            },
            (Phase::Announcing(work), Event::Drawn) => {
                self.phase = Phase::Dispatching(work);
            },
            (Phase::AwaitingInput, Event::Key(key)) => {
                self.phase = Phase::AwaitingInput;
                match self.app.handle_key(&key) {
                    Some(action) => {
                        self.take_action(action);
                    },
                    None => {
                        self.phase = Phase::Rendering;
                    },
                }
            },
            (Phase::AwaitingInput, Event::Ignored) => {
                self.phase = Phase::Rendering;
            },
            (Phase::Dispatching(work), event) => {
                if Session::answers(&work, &event) {
                    self.take_outcome(work, event);
                    self.phase = Phase::Rendering;
                } else {
                    self.phase = Phase::Dispatching(work);
                }
            },
            (phase, _) => {
                self.phase = phase;
            },
        }
        self.command()
    }

    /// Whether an event is the outcome of the work.
    pub fn answers(work: &Work, event: &Event) -> (b: bool)
        ensures
            b == is_outcome_of(work.deep_view(), *event),
    {
        match (work, event) {
            (Work::Search(_), Event::SearchFinished(_)) => true,
            (Work::CountFiles(_), Event::CountFinished(_)) => true,
            (Work::CloneRepository(_), Event::CloneFinished(_)) => true,
            (Work::OpenBrowser(_), Event::BrowserOpened) => true,
            _ => false,
        }
    }
}

} // verus!
