//! The renderer: from the state of a session to the screen that shows it.

use crate::app::{opt_text, App};
use crate::editor::{buffer_cursor, cursor_column};
use crate::layout::{inside_margin, rows_within, split_rows};
use crate::repo::{count_or_default, text_or_else, RepositorySummary};
use crate::screen::{
    bold, bold_on, colored, plain, push_line, raw, styled, underlined, Alignment, Body, BodyView,
    Color, Height, LayoutRule, Line, LineView, Paragraph, ParagraphView, Rect, ResultList,
    ResultListView, ResultsRegion, ResultsView, Rows, Screen, ScreenView, Style,
};
use crate::text::{decimal, lines, push_decimal, split_lines};
use vstd::prelude::*;
use vstd::string::*;

verus! {

/// The title of the query box: it names the size filter in force.
pub open spec fn query_title(filter: Option<Seq<char>>) -> Seq<char> {
    match filter {
        Some(name) => " 🔍 Search GitHub Repositories [Filter: "@ + name + "] "@,
        None => " 🔍 Search GitHub Repositories "@,
    }
}

/// The title of the result list: it gives the total where one is known.
pub open spec fn results_title(total: Option<u64>) -> Seq<char> {
    match total {
        Some(n) => " Results ("@ + decimal(n as nat) + " total) "@,
        None => " Results "@,
    }
}

/// A text region with a plain border and nothing scrolled out.
pub open spec fn panel(
    title: Seq<char>,
    body: BodyView,
    style: Style,
    alignment: Alignment,
    wrap: bool,
) -> ParagraphView {
    ParagraphView { title, border: plain(), body, style, alignment, wrap, scroll: 0 }
}

/// The query box: the text typed so far, in a cyan border.
pub open spec fn query_box(app: &App) -> ParagraphView {
    ParagraphView {
        title: query_title(opt_text(app.repo_size_filter)),
        border: colored(Color::Cyan),
        body: BodyView::Text(app.query()),
        style: colored(Color::Black),
        alignment: Alignment::Left,
        wrap: false,
        scroll: 0,
    }
}

/// What the result region shows while there is nothing to list.
pub open spec fn welcome_lines() -> Seq<LineView> {
    seq![
        Seq::empty(),
        seq![styled("Welcome to Mr Krabz GitHub Search! 👋"@, bold(Color::Cyan))],
        Seq::empty(),
        seq![raw("Type a search query and press Enter to search."@)],
        seq![raw("Examples: 'rust game', 'web framework', 'machine learning'"@)],
        Seq::empty(),
        seq![raw("Use ↑/↓ to navigate results, Enter to open in browser."@)],
    ]
}

/// The row of one result: name, stars, language and size.
pub open spec fn result_row(repo: RepositorySummary) -> LineView {
    seq![
        styled(repo.name_text(), bold(Color::Gray)),
        raw(" | "@),
        styled("⭐ "@ + repo.stars_text(), colored(Color::Yellow)),
        raw(" | "@),
        styled(repo.language_text(), colored(Color::Blue)),
        styled("📦 "@ + repo.size_text(), colored(Color::Gray)),
    ]
}

/// The rows of a result page, in its order.
pub open spec fn result_rows(results: Seq<RepositorySummary>) -> Seq<LineView> {
    Seq::new(results.len(), |i: int| result_row(results[i]))
}

/// The region below the query box. A search under way hides everything
/// else; a failed search hides the results; with neither, an empty page
/// shows the welcome text, and any other page is listed.
pub open spec fn results_region(app: &App) -> ResultsView {
    if app.searching {
        ResultsView::Searching(
            panel(
                " Results "@,
                BodyView::Text("Searching... ⏳"@),
                colored(Color::Yellow),
                Alignment::Center,
                false,
            ),
        )
    } else {
        match app.error_message {
            Some(error) => ResultsView::Failed(
                panel(
                    " Results "@,
                    BodyView::Text("❌ Error: "@ + error@),
                    colored(Color::Red),
                    Alignment::Left,
                    true,
                ),
            ),
            None => if app.results.len() == 0 {
                ResultsView::Welcome(
                    panel(
                        " Results "@,
                        BodyView::Lines(welcome_lines()),
                        colored(Color::Gray),
                        Alignment::Center,
                        false,
                    ),
                )
            } else {
                ResultsView::Listing(
                    ResultListView {
                        title: results_title(app.total_count),
                        rows: result_rows(app.results@),
                        selected: app.selected_index,
                        highlight: bold_on(Color::DarkGray),
                        marker: "▶ "@,
                    },
                )
            },
        }
    }
}

/// The first line of the details: the description.
pub open spec fn description_line(repo: RepositorySummary) -> LineView {
    seq![styled("Description: "@, colored(Color::Gray)), raw(repo.description_text())]
}

/// The line of the details that gives stars, forks and language.
pub open spec fn stats_line(repo: RepositorySummary) -> LineView {
    seq![
        styled("⭐ Stars: "@, colored(Color::Yellow)),
        raw(repo.stars_text()),
        raw("  "@),
        styled("🍴 Forks: "@, colored(Color::Green)),
        raw(repo.forks_text()),
        raw("  "@),
        styled("💻 Language: "@, colored(Color::Blue)),
        raw(repo.language_text()),
    ]
}

/// The lines of the details that tell how the last clone ended.
pub open spec fn clone_lines(status: Option<Seq<char>>) -> Seq<LineView> {
    match status {
        Some(text) => seq![
            seq![styled("📦 Clone: "@, colored(Color::Cyan)), styled(text, colored(Color::Green))],
            Seq::empty(),
        ],
        None => Seq::empty(),
    }
}

/// The lines of a file-count report, one span each.
pub open spec fn report_lines(report: Seq<char>) -> Seq<LineView> {
    Seq::new(lines(report).len(), |i: int| seq![raw(lines(report)[i])])
}

/// The lines of the details that speak of the file count: that a count or
/// a clone is under way, else the report kept for this address, else how
/// to ask for one.
pub open spec fn count_lines(app: &App, url: Seq<char>) -> Seq<LineView> {
    if app.counting_files {
        seq![
            seq![
                styled("📁 Files: "@, colored(Color::Magenta)),
                styled("Cloning and counting..."@, colored(Color::Yellow)),
            ],
        ]
    } else if app.cloning {
        seq![
            seq![
                styled("📦 Cloning: "@, colored(Color::Cyan)),
                styled("Please wait..."@, colored(Color::Yellow)),
            ],
        ]
    } else if app.counts().contains_key(url) {
        seq![seq![styled("📁 File Count:"@, bold(Color::Magenta))], Seq::empty()] + report_lines(
            app.counts()[url],
        )
    } else {
        seq![
            seq![
                styled("📁 Files: "@, colored(Color::Magenta)),
                styled("Press 'f' to count"@, colored(Color::DarkGray)),
            ],
        ]
    }
}

/// The last line of the details: the address of the repository.
pub open spec fn url_line(repo: RepositorySummary) -> LineView {
    seq![
        styled("🔗 "@, colored(Color::Cyan)),
        styled(repo.url_text(), underlined(Color::Cyan)),
    ]
}

/// All lines of the details of one result.
pub open spec fn details_lines(app: &App, repo: RepositorySummary) -> Seq<LineView> {
    seq![description_line(repo), Seq::empty(), stats_line(repo), Seq::empty()] + clone_lines(
        opt_text(app.clone_status),
    ) + count_lines(app, repo.url_text()) + seq![Seq::empty(), url_line(repo)]
}

/// The details region: the highlighted result, scrolled as the state
/// says, or a prompt where no result is highlighted.
pub open spec fn details_region(app: &App) -> ParagraphView {
    match app.selected_repo() {
        Some(repo) => ParagraphView {
            title: " Details "@,
            border: plain(),
            body: BodyView::Lines(details_lines(app, repo)),
            style: plain(),
            alignment: Alignment::Left,
            wrap: true,
            scroll: app.details_scroll,
        },
        None => panel(
            " Details "@,
            BodyView::Text("Select a repository to see details"@),
            colored(Color::Gray),
            Alignment::Center,
            false,
        ),
    }
}

/// The cell of the screen that holds the cursor, for a query box whose
/// top left corner is at column `x` and row `y`: one row down, inside
/// the border, and one column past the text before the cursor. There is
/// none where that cell is beyond the last column or row a screen can have.
pub open spec fn cursor_cell(x: u16, y: u16, column: nat) -> Option<(u16, u16)> {
    if x + column + 1 <= u16::MAX && y + 1 <= u16::MAX {
        Some(((x + column + 1) as u16, (y + 1) as u16))
    } else {
        None
    }
}

/// The legend of the key bindings.
pub open spec fn help_line() -> LineView {
    seq![
        styled("Enter"@, bold(Color::Green)),
        raw(": Search  "@),
        styled("Alt+O"@, bold(Color::Green)),
        raw(": Open  "@),
        styled("↑↓"@, bold(Color::Green)),
        raw(": Navigate  "@),
        styled("Alt+F"@, bold(Color::Magenta)),
        raw(": Count  "@),
        styled("Alt+G"@, bold(Color::Green)),
        raw(": Clone  "@),
        styled("1/2/3/0"@, bold(Color::Cyan)),
        raw(": Filter  "@),
        styled("Esc"@, bold(Color::Red)),
        raw(": Quit"@),
    ]
}

/// The help region.
pub open spec fn help_region() -> ParagraphView {
    panel(" Help "@, BodyView::Lines(seq![help_line()]), plain(), Alignment::Center, false)
}

/// How every screen is divided: a margin of two cells; three rows each
/// for the query box and the help bar; the rest for the results and the
/// details, at least ten and twenty rows.
pub open spec fn layout_rule() -> LayoutRule {
    LayoutRule {
        margin: 2,
        query: Height::Exactly(3),
        results: Height::AtLeast(10),
        details: Height::AtLeast(20),
        help: Height::Exactly(3),
    }
}

/// The screen that shows a state, with its regions in the given rectangles.
pub open spec fn screen_of(app: &App, rows: Rows) -> ScreenView {
    ScreenView {
        rule: layout_rule(),
        rows,
        cursor: cursor_cell(
            rows.query.x,
            rows.query.y,
            cursor_column(app.query(), buffer_cursor(app.input)),
        ),
        query: query_box(app),
        results: results_region(app),
        details: details_region(app),
        help: help_region(),
    }
}

/// A text region with a plain border and nothing scrolled out.
pub fn text_panel(title: &str, body: Body, style: Style, alignment: Alignment, wrap: bool) -> (p:
    Paragraph)
    ensures
        p.deep_view() == panel(title@, body.deep_view(), style, alignment, wrap),
{
    Paragraph {
        title: String::from_str(title),
        border: Style::plain(),
        body,
        style,
        alignment,
        wrap,
        scroll: 0,
    }
}

fn no_lines() -> (ls: Vec<Line>)
    ensures
        ls.deep_view() == Seq::<LineView>::empty(),
{
    let ls: Vec<Line> = Vec::new();
    assert(ls.deep_view() =~= Seq::<LineView>::empty());
    ls
}

fn one_span(text: &str, style: Style) -> (line: Line)
    ensures
        line.deep_view() == seq![styled(text@, style)],
{
    let mut line = Line::blank();
    line.push_str(text, style);
    line
}

/// Renders the query box.
pub fn render_query_box(app: &App) -> (p: Paragraph)
    ensures
        p.deep_view() == query_box(app),
{
    let title = match &app.repo_size_filter {
        Some(name) => {
            let mut t = String::from_str(" 🔍 Search GitHub Repositories [Filter: ");
            t.append(name.as_str());
            t.append("] ");
            t
        },
        None => String::from_str(" 🔍 Search GitHub Repositories "),
    };
    Paragraph {
        title,
        border: Style::colored(Color::Cyan),
        body: Body::Text(String::from_str(app.input.value())),
        style: Style::colored(Color::Black),
        alignment: Alignment::Left,
        wrap: false,
        scroll: 0,
    }
}

/// Renders the text shown while there is nothing to list.
pub fn render_welcome() -> (ls: Vec<Line>)
    ensures
        ls.deep_view() == welcome_lines(),
{
    let mut ls = no_lines();
    push_line(&mut ls, Line::blank());
    push_line(
        &mut ls,
        one_span("Welcome to Mr Krabz GitHub Search! 👋", Style::bold(Color::Cyan)),
    );
    push_line(&mut ls, Line::blank());
    push_line(&mut ls, one_span("Type a search query and press Enter to search.", Style::plain()));
    push_line(
        &mut ls,
        one_span("Examples: 'rust game', 'web framework', 'machine learning'", Style::plain()),
    );
    push_line(&mut ls, Line::blank());
    push_line(
        &mut ls,
        one_span("Use ↑/↓ to navigate results, Enter to open in browser.", Style::plain()),
    );
    ls
}

/// Renders the row of one result.
pub fn render_row(repo: &RepositorySummary) -> (line: Line)
    ensures
        line.deep_view() == result_row(*repo),
{
    let mut stars = String::from_str("⭐ ");
    push_decimal(&mut stars, count_or_default(repo.stargazers_count));
    let mut size = String::from_str("📦 ");
    push_decimal(&mut size, count_or_default(repo.size));
    let mut line = Line::blank();
    line.push(text_or_else(&repo.full_name, "Unknown"), Style::bold(Color::Gray));
    line.push_str(" | ", Style::plain());
    line.push(stars, Style::colored(Color::Yellow));
    line.push_str(" | ", Style::plain());
    line.push(text_or_else(&repo.language, "Unknown"), Style::colored(Color::Blue));
    line.push(size, Style::colored(Color::Gray));
    line
}

/// Renders the rows of a result page.
pub fn render_rows(results: &Vec<RepositorySummary>) -> (rows: Vec<Line>)
    ensures
        rows.deep_view() == result_rows(results@),
{
    let mut rows = no_lines();
    let mut i: usize = 0;
    while i < results.len()
        invariant
            i <= results.len(),
            rows.deep_view() == result_rows(results@).take(i as int),
        decreases results.len() - i,
    {
        push_line(&mut rows, render_row(&results[i]));
        i += 1;
        assert(rows.deep_view() =~= result_rows(results@).take(i as int));
    }
    assert(rows.deep_view() =~= result_rows(results@));
    rows
}

/// Renders the region below the query box.
pub fn render_results(app: &App) -> (region: ResultsRegion)
    ensures
        region.deep_view() == results_region(app),
{
    if app.searching {
        ResultsRegion::Searching(
            text_panel(
                " Results ",
                Body::Text(String::from_str("Searching... ⏳")),
                Style::colored(Color::Yellow),
                Alignment::Center,
                false,
            ),
        )
    } else {
        match &app.error_message {
            Some(error) => {
                let mut text = String::from_str("❌ Error: ");
                text.append(error.as_str());
                ResultsRegion::Failed(
                    text_panel(
                        " Results ",
                        Body::Text(text),
                        Style::colored(Color::Red),
                        Alignment::Left,
                        true,
                    ),
                )
            },
            None => if app.results.len() == 0 {
                ResultsRegion::Welcome(
                    text_panel(
                        " Results ",
                        Body::Lines(render_welcome()),
                        Style::colored(Color::Gray),
                        Alignment::Center,
                        false,
                    ),
                )
            } else {
                let title = match app.total_count {
                    Some(n) => {
                        let mut t = String::from_str(" Results (");
                        push_decimal(&mut t, n);
                        t.append(" total) ");
                        t
                    },
                    None => String::from_str(" Results "),
                };
                ResultsRegion::Listing(
                    ResultList {
                        title,
                        rows: render_rows(&app.results),
                        selected: app.selected_index,
                        highlight: Style::bold_on(Color::DarkGray),
                        marker: String::from_str("▶ "),
                    },
                )
            },
        }
    }
}

/// Renders the description line of the details.
pub fn render_description(repo: &RepositorySummary) -> (line: Line)
    ensures
        line.deep_view() == description_line(*repo),
{
    let mut line = Line::blank();
    line.push_str("Description: ", Style::colored(Color::Gray));
    line.push(text_or_else(&repo.description, "No description"), Style::plain());
    line
}

/// Renders the line of the details that gives stars, forks and language.
pub fn render_stats(repo: &RepositorySummary) -> (line: Line)
    ensures
        line.deep_view() == stats_line(*repo),
{
    let mut stars = String::new();
    push_decimal(&mut stars, count_or_default(repo.stargazers_count));
    let mut forks = String::new();
    push_decimal(&mut forks, count_or_default(repo.forks_count));
    assert(stars@ =~= repo.stars_text());
    assert(forks@ =~= repo.forks_text());
    let mut line = Line::blank();
    line.push_str("⭐ Stars: ", Style::colored(Color::Yellow));
    line.push(stars, Style::plain());
    line.push_str("  ", Style::plain());
    line.push_str("🍴 Forks: ", Style::colored(Color::Green));
    line.push(forks, Style::plain());
    line.push_str("  ", Style::plain());
    line.push_str("💻 Language: ", Style::colored(Color::Blue));
    line.push(text_or_else(&repo.language, "Unknown"), Style::plain());
    line
}

/// Renders the address line of the details.
pub fn render_url(repo: &RepositorySummary) -> (line: Line)
    ensures
        line.deep_view() == url_line(*repo),
{
    let url = text_or_else(&repo.html_url, "");
    proof {
        reveal_strlit("");
        assert(""@ =~= Seq::<char>::empty());
    }
    let mut line = Line::blank();
    line.push_str("🔗 ", Style::colored(Color::Cyan));
    line.push(url, Style::underlined(Color::Cyan));
    line
}

/// Appends the lines that tell how the last clone ended.
pub fn push_clone_lines(ls: &mut Vec<Line>, status: &Option<String>)
    ensures
        final(ls).deep_view() == old(ls).deep_view() + clone_lines(opt_text(*status)),
{
    match status {
        Some(text) => {
            let mut line = Line::blank();
            line.push_str("📦 Clone: ", Style::colored(Color::Cyan));
            line.push(text.clone(), Style::colored(Color::Green));
            push_line(ls, line);
            push_line(ls, Line::blank());
            assert(ls.deep_view() =~~= old(ls).deep_view() + clone_lines(opt_text(*status)));
        },
        None => {
            assert(ls.deep_view() =~~= old(ls).deep_view() + clone_lines(opt_text(*status)));
        },
    }
}

/// Appends the lines of a file-count report.
pub fn push_report_lines(ls: &mut Vec<Line>, report: &str)
    ensures
        final(ls).deep_view() == old(ls).deep_view() + report_lines(report@),
{
    let parts = split_lines(report);
    let mut i: usize = 0;
    assert(ls.deep_view() =~= old(ls).deep_view() + report_lines(report@).take(0));
    while i < parts.len()
        invariant
            i <= parts.len(),
            parts.deep_view() == lines(report@),
            ls.deep_view() == old(ls).deep_view() + report_lines(report@).take(i as int),
        decreases parts.len() - i,
    {
        let ghost before = ls.deep_view();
        assert(parts.deep_view()[i as int] == parts[i as int]@);
        let mut line = Line::blank();
        line.push(parts[i].clone(), Style::plain());
        push_line(ls, line);
        i += 1;
        assert(ls.deep_view() =~= old(ls).deep_view() + report_lines(report@).take(i as int));
    }
    assert(report_lines(report@).take(i as int) =~= report_lines(report@));
}

/// Appends the lines of the details that speak of the file count.
pub fn push_count_lines(ls: &mut Vec<Line>, app: &App, url: &str)
    ensures
        final(ls).deep_view() == old(ls).deep_view() + count_lines(app, url@),
{
    if app.counting_files {
        let mut line = Line::blank();
        line.push_str("📁 Files: ", Style::colored(Color::Magenta));
        line.push_str("Cloning and counting...", Style::colored(Color::Yellow));
        push_line(ls, line);
        assert(ls.deep_view() =~~= old(ls).deep_view() + count_lines(app, url@));
    } else if app.cloning {
        let mut line = Line::blank();
        line.push_str("📦 Cloning: ", Style::colored(Color::Cyan));
        line.push_str("Please wait...", Style::colored(Color::Yellow));
        push_line(ls, line);
        assert(ls.deep_view() =~~= old(ls).deep_view() + count_lines(app, url@));
    } else {
        match app.file_counts.get(url) {
            Some(report) => {
                assert(app.counts().contains_key(url@));
                assert(app.counts()[url@] == report@);
                push_line(ls, one_span("📁 File Count:", Style::bold(Color::Magenta)));
                push_line(ls, Line::blank());
                push_report_lines(ls, report.as_str());
                assert(ls.deep_view() =~~= old(ls).deep_view() + count_lines(app, url@));
            },
            None => {
                assert(!app.counts().contains_key(url@));
                let mut line = Line::blank();
                line.push_str("📁 Files: ", Style::colored(Color::Magenta));
                line.push_str("Press 'f' to count", Style::colored(Color::DarkGray));
                push_line(ls, line);
                assert(ls.deep_view() =~~= old(ls).deep_view() + count_lines(app, url@));
            },
        }
    }
}

/// Renders the details region.
pub fn render_details(app: &App) -> (p: Paragraph)
    ensures
        p.deep_view() == details_region(app),
{
    match app.get_selected_repo() {
        Some(repo) => {
            let url = text_or_else(&repo.html_url, "");
            proof {
                reveal_strlit("");
                assert(""@ =~= Seq::<char>::empty());
            }
            let mut ls = no_lines();
            push_line(&mut ls, render_description(repo));
            push_line(&mut ls, Line::blank());
            push_line(&mut ls, render_stats(repo));
            push_line(&mut ls, Line::blank());
            push_clone_lines(&mut ls, &app.clone_status);
            push_count_lines(&mut ls, app, url.as_str());
            push_line(&mut ls, Line::blank());
            push_line(&mut ls, render_url(repo));
            assert(ls.deep_view() =~~= details_lines(app, *repo));
            Paragraph {
                title: String::from_str(" Details "),
                border: Style::plain(),
                body: Body::Lines(ls),
                style: Style::plain(),
                alignment: Alignment::Left,
                wrap: true,
                scroll: app.details_scroll,
            }
        },
        None => text_panel(
            " Details ",
            Body::Text(String::from_str("Select a repository to see details")),
            Style::colored(Color::Gray),
            Alignment::Center,
            false,
        ),
    }
}

/// Renders the help region.
pub fn render_help() -> (p: Paragraph)
    ensures
        p.deep_view() == help_region(),
{
    let mut line = Line::blank();
    line.push_str("Enter", Style::bold(Color::Green));
    line.push_str(": Search  ", Style::plain());
    line.push_str("Alt+O", Style::bold(Color::Green));
    line.push_str(": Open  ", Style::plain());
    line.push_str("↑↓", Style::bold(Color::Green));
    line.push_str(": Navigate  ", Style::plain());
    line.push_str("Alt+F", Style::bold(Color::Magenta));
    line.push_str(": Count  ", Style::plain());
    line.push_str("Alt+G", Style::bold(Color::Green));
    line.push_str(": Clone  ", Style::plain());
    line.push_str("1/2/3/0", Style::bold(Color::Cyan));
    line.push_str(": Filter  ", Style::plain());
    line.push_str("Esc", Style::bold(Color::Red));
    line.push_str(": Quit", Style::plain());
    let mut ls = no_lines();
    push_line(&mut ls, line);
    assert(ls.deep_view() =~~= seq![help_line()]);
    text_panel(" Help ", Body::Lines(ls), Style::plain(), Alignment::Center, false)
}

/// The cell of the screen that holds the cursor, for a query box whose
/// top left corner is at column `x` and row `y`.
pub fn cursor_position(x: u16, y: u16, column: usize) -> (cell: Option<(u16, u16)>)
    ensures
        cell == cursor_cell(x, y, column as nat),
{
    if y == u16::MAX || column >= 0xffff {
        return None;
    }
    let right: u16 = 0xfffe - column as u16;
    if x > right {
        None
    } else {
        Some((x + column as u16 + 1, y + 1))
    }
}

/// How every screen is divided.
pub fn screen_layout() -> (rule: LayoutRule)
    ensures
        rule == layout_rule(),
{
    LayoutRule {
        margin: 2,
        query: Height::Exactly(3),
        results: Height::AtLeast(10),
        details: Height::AtLeast(20),
        help: Height::Exactly(3),
    }
}

/// The screen for a state, with its regions in the given rectangles:
/// the query box, the results, the details of the highlighted result and
/// the help bar, and the cursor in the query box.
pub fn lay_out(app: &App, rows: Rows) -> (screen: Screen)
    ensures
        screen.deep_view() == screen_of(app, rows),
{
    Screen {
        rule: screen_layout(),
        rows,
        cursor: cursor_position(rows.query.x, rows.query.y, app.input.visual_cursor()),
        query: render_query_box(app),
        results: render_results(app),
        details: render_details(app),
        help: render_help(),
    }
}

/// Lays out the screen for a state on a terminal of the given area. The
/// area is divided by the layout rule, and the screen is the one for the
/// state with its regions in the rows that came of it. Every row lies
/// within what the margin leaves of the area, so nothing is drawn outside
/// it. The state is left as it is.
pub fn ui(app: &App, area: Rect) -> (screen: Screen)
    ensures
        screen.deep_view() == screen_of(app, screen.rows),
        rows_within(screen.rows, inside_margin(area, layout_rule().margin)),
{
    let rows = split_rows(area, &screen_layout());
    lay_out(app, rows)
}

} // verus!
