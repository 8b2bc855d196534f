use github_search::filter::SearchOptions;
use github_search::keys::{KeyCode, KeyPress, ALT};
use github_search::repo::RepositorySummary;
use github_search::session::{Command, Event, Phase, Session, Work};

fn no_options() -> SearchOptions {
    SearchOptions { language: None, stars: None }
}

fn repo(name: &str) -> RepositorySummary {
    RepositorySummary {
        full_name: Some(name.to_string()),
        stargazers_count: Some(1),
        forks_count: Some(1),
        language: None,
        description: None,
        size: Some(1),
        html_url: Some(format!("https://x/{}", name)),
    }
}

fn key(code: KeyCode) -> Event {
    Event::Key(KeyPress::new(code))
}

fn alt(c: char) -> Event {
    Event::Key(KeyPress::with_modifiers(KeyCode::Char(c), ALT))
}

/// Reports a key and the draw that follows a key which asks for nothing.
fn press(session: &mut Session, code: KeyCode) {
    assert_eq!(session.step(key(code)), Command::Draw);
    assert_eq!(session.step(Event::Drawn), Command::ReadKey);
}

fn session_with_results() -> Session {
    let mut session = Session::new(no_options(), None);
    assert_eq!(session.step(Event::Drawn), Command::ReadKey);
    session.app.set_results(vec![repo("a"), repo("b"), repo("c")], 3);
    session
}

#[test]
fn session_starts_with_a_draw() {
    let session = Session::new(no_options(), None);
    assert_eq!(session.phase, Phase::Rendering);
    assert_eq!(session.command(), Command::Draw);
    assert!(session.app.results.is_empty());
    assert!(session.app.input.value().is_empty());
}

#[test]
fn draw_then_read_then_draw_again() {
    let mut session = Session::new(no_options(), None);
    assert_eq!(session.step(Event::Drawn), Command::ReadKey);
    assert_eq!(session.phase, Phase::AwaitingInput);
    assert_eq!(session.step(key(KeyCode::Char('r'))), Command::Draw);
    assert_eq!(session.phase, Phase::Rendering);
    assert_eq!(session.app.input.value(), "r");
    assert_eq!(session.step(Event::Drawn), Command::ReadKey);
}

#[test]
fn events_that_are_no_keys_lead_to_a_draw() {
    let mut session = Session::new(no_options(), None);
    session.step(Event::Drawn);
    assert_eq!(session.step(Event::Ignored), Command::Draw);
    assert_eq!(session.phase, Phase::Rendering);
}

#[test]
fn quit_ends_the_session_for_good() {
    let mut session = Session::new(no_options(), None);
    session.step(Event::Drawn);
    assert_eq!(session.step(key(KeyCode::Esc)), Command::Exit);
    assert_eq!(session.phase, Phase::Terminated);
    assert_eq!(session.step(Event::Drawn), Command::Exit);
    assert_eq!(session.step(key(KeyCode::Char('a'))), Command::Exit);
    assert_eq!(session.phase, Phase::Terminated);
    assert!(session.app.input.value().is_empty());
}

#[test]
fn search_is_announced_run_and_taken_in() {
    let mut session = Session::new(no_options(), None);
    session.step(Event::Drawn);
    for c in "rust".chars() {
        press(&mut session, KeyCode::Char(c));
    }
    session.app.set_error("old failure".to_string());

    assert_eq!(session.step(key(KeyCode::Enter)), Command::Draw);
    assert_eq!(session.phase, Phase::Announcing(Work::Search("rust".to_string())));
    assert!(session.app.searching);
    assert_eq!(session.app.error_message, None);

    assert_eq!(session.step(Event::Drawn), Command::Run(Work::Search("rust".to_string())));
    assert_eq!(session.phase, Phase::Dispatching(Work::Search("rust".to_string())));
    assert!(session.app.searching);

    let page = vec![repo("a"), repo("b")];
    assert_eq!(session.step(Event::SearchFinished(Ok((page, 77)))), Command::Draw);
    assert_eq!(session.phase, Phase::Rendering);
    assert!(!session.app.searching);
    assert_eq!(session.app.results.len(), 2);
    assert_eq!(session.app.total_count, Some(77));
    assert_eq!(session.app.selected_index, Some(0));
}

#[test]
fn failed_search_keeps_the_page_and_the_session() {
    let mut session = session_with_results();
    press(&mut session, KeyCode::Char('x'));
    session.step(key(KeyCode::Enter));
    session.step(Event::Drawn);
    let command = session.step(Event::SearchFinished(Err("rate limit exceeded".to_string())));
    assert_eq!(command, Command::Draw);
    assert_eq!(session.app.error_message, Some("rate limit exceeded".to_string()));
    assert!(!session.app.searching);
    assert_eq!(session.app.results.len(), 3);
    assert_eq!(session.step(Event::Drawn), Command::ReadKey);
}

/// Types one letter, submits, and returns the query that the search is run with.
fn submitted_query(session: &mut Session, letter: char) -> Command {
    press(session, KeyCode::Char(letter));
    assert_eq!(session.step(key(KeyCode::Enter)), Command::Draw);
    let command = session.step(Event::Drawn);
    assert_eq!(session.step(Event::SearchFinished(Ok((Vec::new(), 0)))), Command::Draw);
    assert_eq!(session.step(Event::Drawn), Command::ReadKey);
    press(session, KeyCode::Backspace);
    command
}

#[test]
fn session_starts_with_the_size_filter_given() {
    let session = Session::new(no_options(), Some("small".to_string()));
    assert_eq!(session.app.repo_size_filter, Some("small".to_string()));
    assert_eq!(session.phase, Phase::Rendering);
    assert!(session.app.results.is_empty());
    assert!(session.app.input.value().is_empty());
    assert_eq!(session.app.selected_index, None);
    let session = Session::new(no_options(), None);
    assert_eq!(session.app.repo_size_filter, None);
}

#[test]
fn search_query_carries_the_options_and_the_filter() {
    let options = SearchOptions { language: Some("rust".to_string()), stars: Some(50) };
    let mut session = Session::new(options, Some("small".to_string()));
    session.step(Event::Drawn);
    assert_eq!(
        submitted_query(&mut session, 'g'),
        Command::Run(Work::Search("g language:rust stars:>=50 size:<25000".to_string()))
    );

    // A filter key replaces the filter that the session started with.
    press(&mut session, KeyCode::Char('3'));
    assert_eq!(
        submitted_query(&mut session, 'g'),
        Command::Run(Work::Search("g language:rust stars:>=50 size:>100000".to_string()))
    );
}

#[test]
fn cleared_size_filter_filters_nothing() {
    let mut session = Session::new(no_options(), Some("small".to_string()));
    session.step(Event::Drawn);
    assert_eq!(
        submitted_query(&mut session, 'q'),
        Command::Run(Work::Search("q size:<25000".to_string()))
    );

    press(&mut session, KeyCode::Char('0'));
    assert_eq!(session.app.repo_size_filter, None);
    assert_eq!(submitted_query(&mut session, 'q'), Command::Run(Work::Search("q".to_string())));

    // It stays cleared from one search to the next.
    assert_eq!(submitted_query(&mut session, 'r'), Command::Run(Work::Search("r".to_string())));
}

#[test]
fn search_with_an_unknown_size_fails_at_once() {
    let mut session = Session::new(no_options(), Some("huge".to_string()));
    session.step(Event::Drawn);
    press(&mut session, KeyCode::Char('g'));
    assert_eq!(session.step(key(KeyCode::Enter)), Command::Draw);
    assert_eq!(session.phase, Phase::Rendering);
    assert!(!session.app.searching);
    assert_eq!(
        session.app.error_message,
        Some("Invalid repo_size 'huge'. Use: small, medium, or large".to_string())
    );
    assert_eq!(session.step(Event::Drawn), Command::ReadKey);

    // Once the filter is cleared, the search runs.
    press(&mut session, KeyCode::Char('0'));
    assert_eq!(session.step(key(KeyCode::Enter)), Command::Draw);
    assert_eq!(session.app.error_message, None);
    assert_eq!(session.step(Event::Drawn), Command::Run(Work::Search("g".to_string())));
}

#[test]
fn file_count_is_announced_run_and_taken_in() {
    let mut session = session_with_results();
    press(&mut session, KeyCode::Down);

    assert_eq!(session.step(alt('f')), Command::Draw);
    assert!(session.app.counting_files);
    assert_eq!(
        session.step(Event::Drawn),
        Command::Run(Work::CountFiles("https://x/b".to_string()))
    );
    assert!(session.app.counting_files);

    let command = session.step(Event::CountFinished(Err("not found".to_string())));
    assert_eq!(command, Command::Draw);
    assert!(!session.app.counting_files);
    assert_eq!(
        session.app.file_counts.get("https://x/b"),
        Some(&"Error: not found".to_string())
    );
    assert_eq!(session.app.selected_index, Some(1));
}

#[test]
fn clone_is_announced_run_and_taken_in() {
    let mut session = session_with_results();
    session.app.clone_status = Some("Cloned to /old".to_string());

    assert_eq!(session.step(alt('g')), Command::Draw);
    assert!(session.app.cloning);
    assert_eq!(session.app.clone_status, None);
    assert_eq!(
        session.step(Event::Drawn),
        Command::Run(Work::CloneRepository("https://x/a".to_string()))
    );

    let command = session.step(Event::CloneFinished(Ok("/work/repositories/a".to_string())));
    assert_eq!(command, Command::Draw);
    assert!(!session.app.cloning);
    assert_eq!(session.app.clone_status, Some("Cloned to /work/repositories/a".to_string()));
}

#[test]
fn opening_a_browser_does_not_end_the_session() {
    let mut session = session_with_results();
    assert_eq!(
        session.step(alt('o')),
        Command::Run(Work::OpenBrowser("https://x/a".to_string()))
    );
    assert_eq!(session.phase, Phase::Dispatching(Work::OpenBrowser("https://x/a".to_string())));
    assert_eq!(session.step(Event::BrowserOpened), Command::Draw);
    assert_eq!(session.step(Event::Drawn), Command::ReadKey);
    assert_eq!(session.app.selected_index, Some(0));
}

#[test]
fn no_key_is_taken_while_work_is_under_way() {
    let mut session = session_with_results();
    session.step(alt('f'));
    let run = Command::Run(Work::CountFiles("https://x/a".to_string()));
    assert_eq!(session.step(Event::Drawn), run);
    assert_eq!(session.step(key(KeyCode::Esc)), run);
    assert_eq!(session.step(key(KeyCode::Down)), run);
    assert_eq!(session.step(Event::Drawn), run);
    assert_eq!(session.app.selected_index, Some(0));
    assert!(session.app.counting_files);
}

#[test]
fn an_outcome_of_other_work_is_not_taken() {
    let mut session = session_with_results();
    session.step(alt('f'));
    let run = Command::Run(Work::CountFiles("https://x/a".to_string()));
    assert_eq!(session.step(Event::Drawn), run);
    assert_eq!(session.step(Event::CloneFinished(Ok("/p".to_string()))), run);
    assert_eq!(session.step(Event::SearchFinished(Err("e".to_string()))), run);
    assert_eq!(session.step(Event::BrowserOpened), run);
    assert!(session.app.counting_files);
    assert_eq!(session.app.clone_status, None);
    assert_eq!(session.app.error_message, None);
    assert_eq!(session.app.file_counts.len(), 0);
}

#[test]
fn an_outcome_that_nothing_waits_for_is_not_taken() {
    let mut session = Session::new(no_options(), None);
    assert_eq!(session.step(Event::CountFinished(Ok("1".to_string()))), Command::Draw);
    assert_eq!(session.phase, Phase::Rendering);
    session.step(Event::Drawn);
    assert_eq!(session.step(Event::SearchFinished(Ok((vec![repo("a")], 1)))), Command::ReadKey);
    assert!(session.app.results.is_empty());
    assert_eq!(session.app.file_counts.len(), 0);
    // While a key is awaited, a report of a draw changes nothing either.
    assert_eq!(session.step(Event::Drawn), Command::ReadKey);
}

#[test]
fn answers_pairs_work_with_its_outcome() {
    let count = Work::CountFiles("u".to_string());
    assert!(Session::answers(&count, &Event::CountFinished(Ok("1".to_string()))));
    assert!(!Session::answers(&count, &Event::CloneFinished(Ok("1".to_string()))));
    assert!(!Session::answers(&count, &Event::Drawn));
    let search = Work::Search("q".to_string());
    assert!(Session::answers(&search, &Event::SearchFinished(Err("e".to_string()))));
    let clone = Work::CloneRepository("u".to_string());
    assert!(Session::answers(&clone, &Event::CloneFinished(Err("e".to_string()))));
    let open = Work::OpenBrowser("u".to_string());
    assert!(Session::answers(&open, &Event::BrowserOpened));
    assert!(!Session::answers(&open, &Event::Ignored));
    assert_eq!(open.copy(), open);
}
