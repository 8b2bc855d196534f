use github_search::app::App;
use github_search::keys::{KeyCode, KeyPress};
use github_search::render::{
    cursor_position, lay_out, render_details, render_help, render_query_box, render_results,
    render_row, screen_layout, ui,
};
use github_search::repo::RepositorySummary;
use github_search::resolve::Action;
use github_search::screen::{
    Alignment, Body, Color, Height, LayoutRule, Line, Paragraph, Rect, ResultsRegion, Rows, Span,
    Style,
};
use tui_input::Input;

fn plain() -> Style {
    Style { fg: None, bg: None, bold: false, underlined: false }
}

fn fg(color: Color) -> Style {
    Style { fg: Some(color), bg: None, bold: false, underlined: false }
}

fn bold(color: Color) -> Style {
    Style { fg: Some(color), bg: None, bold: true, underlined: false }
}

fn span(text: &str, style: Style) -> Span {
    Span { text: text.to_string(), style }
}

fn line(spans: Vec<Span>) -> Line {
    Line { spans }
}

fn blank() -> Line {
    Line { spans: Vec::new() }
}

fn full_repo() -> RepositorySummary {
    RepositorySummary {
        full_name: Some("rust-lang/rust".to_string()),
        stargazers_count: Some(90000),
        forks_count: Some(12000),
        language: Some("Rust".to_string()),
        description: Some("Empowering everyone".to_string()),
        size: Some(1500000),
        html_url: Some("https://github.com/rust-lang/rust".to_string()),
    }
}

fn bare_repo() -> RepositorySummary {
    RepositorySummary {
        full_name: None,
        stargazers_count: None,
        forks_count: None,
        language: None,
        description: None,
        size: None,
        html_url: None,
    }
}

fn terminal() -> Rect {
    Rect { x: 0, y: 0, width: 80, height: 50 }
}

fn some_rows() -> Rows {
    Rows {
        query: Rect { x: 5, y: 7, width: 60, height: 3 },
        results: Rect { x: 5, y: 10, width: 60, height: 12 },
        details: Rect { x: 5, y: 22, width: 60, height: 25 },
        help: Rect { x: 5, y: 47, width: 60, height: 3 },
    }
}

fn body_lines(p: &Paragraph) -> &Vec<Line> {
    match &p.body {
        Body::Lines(lines) => lines,
        Body::Text(_) => panic!("the region holds free text"),
    }
}

#[test]
fn styles_are_what_their_names_say() {
    assert_eq!(Style::plain(), plain());
    assert_eq!(Style::colored(Color::Red), fg(Color::Red));
    assert_eq!(Style::bold(Color::Cyan), bold(Color::Cyan));
    assert_eq!(
        Style::underlined(Color::Cyan),
        Style { fg: Some(Color::Cyan), bg: None, bold: false, underlined: true }
    );
    assert_eq!(
        Style::bold_on(Color::DarkGray),
        Style { fg: None, bg: Some(Color::DarkGray), bold: true, underlined: false }
    );
}

#[test]
fn screen_layout_is_fixed() {
    let rule = LayoutRule {
        margin: 2,
        query: Height::Exactly(3),
        results: Height::AtLeast(10),
        details: Height::AtLeast(20),
        help: Height::Exactly(3),
    };
    assert_eq!(screen_layout(), rule);
    assert_eq!(ui(&App::new(), terminal()).rule, rule);
    assert_eq!(lay_out(&App::new(), some_rows()).rule, rule);
}

#[test]
fn terminal_is_divided_into_four_rows_inside_the_margin() {
    let rows = ui(&App::new(), terminal()).rows;
    assert_eq!(rows.query, Rect { x: 2, y: 2, width: 76, height: 3 });
    assert_eq!(rows.help, Rect { x: 2, y: 45, width: 76, height: 3 });
    assert_eq!(rows.results.x, 2);
    assert_eq!(rows.results.width, 76);
    assert_eq!(rows.results.y, 5);
    assert!(rows.results.height >= 10);
    assert_eq!(rows.details.x, 2);
    assert_eq!(rows.details.width, 76);
    assert_eq!(rows.details.y, 5 + rows.results.height);
    assert!(rows.details.height >= 20);
    assert_eq!(rows.results.height + rows.details.height, 40);
}

#[test]
fn rows_follow_the_place_of_the_terminal_area() {
    let area = Rect { x: 10, y: 20, width: 100, height: 60 };
    let rows = ui(&App::new(), area).rows;
    assert_eq!(rows.query, Rect { x: 12, y: 22, width: 96, height: 3 });
    assert_eq!(rows.help, Rect { x: 12, y: 75, width: 96, height: 3 });
}

#[test]
fn rows_of_an_area_too_small_for_the_margin_are_empty() {
    for area in [
        Rect { x: 4, y: 6, width: 3, height: 50 },
        Rect { x: 4, y: 6, width: 80, height: 3 },
        Rect { x: 0, y: 0, width: 0, height: 0 },
    ] {
        let screen = ui(&App::new(), area);
        for row in [screen.rows.query, screen.rows.results, screen.rows.details, screen.rows.help] {
            assert_eq!(row.x, 0);
            assert_eq!(row.width, 0);
        }
    }
}

#[test]
fn rows_of_an_area_just_wide_enough_have_no_width() {
    let rows = ui(&App::new(), Rect { x: 7, y: 0, width: 4, height: 50 }).rows;
    for row in [rows.query, rows.results, rows.details, rows.help] {
        assert_eq!(row.x, 9);
        assert_eq!(row.width, 0);
    }
}

#[test]
fn rows_stop_at_the_last_column() {
    let screen = ui(&App::new(), Rect { x: 65534, y: 10, width: 10, height: 60 });
    for row in [screen.rows.query, screen.rows.results, screen.rows.details, screen.rows.help] {
        assert_eq!(row.x, 65535);
        assert_eq!(row.width, 6);
    }
    // There is no column past the last for the cursor.
    assert_eq!(screen.cursor, None);
}

#[test]
fn rows_lie_within_what_the_margin_leaves() {
    for height in 0..=70u16 {
        for (x, y, width) in [(0u16, 0u16, 80u16), (3, 9, 20), (0, 65500, 5), (65530, 65530, 40)] {
            let area = Rect { x, y, width, height };
            let rows = ui(&App::new(), area).rows;
            let inside = width >= 4 && height >= 4;
            let left = if inside { x.saturating_add(2) } else { 0 };
            let top = if inside { y.saturating_add(2) } else { 0 };
            let across = if inside { width - 4 } else { 0 };
            let bottom = if inside { top.saturating_add(height - 4) } else { 0 };
            for row in [rows.query, rows.results, rows.details, rows.help] {
                assert_eq!(row.x, left, "in {:?}", area);
                assert_eq!(row.width, across, "in {:?}", area);
                assert!(top <= row.y, "{:?} in {:?}", row, area);
                assert!(
                    u32::from(row.y) + u32::from(row.height) <= u32::from(bottom),
                    "{:?} in {:?}",
                    row,
                    area
                );
            }
        }
    }
}

#[test]
fn lay_out_puts_the_regions_where_it_is_told() {
    let screen = lay_out(&App::new(), some_rows());
    assert_eq!(screen.rows, some_rows());
    assert_eq!(screen.cursor, Some((6, 8)));
}

#[test]
fn query_box_shows_the_text_and_the_filter() {
    let mut app = App::new();
    let p = render_query_box(&app);
    assert_eq!(p.title, " 🔍 Search GitHub Repositories ");
    assert_eq!(p.body, Body::Text("".to_string()));
    assert_eq!(p.border, fg(Color::Cyan));
    assert_eq!(p.style, fg(Color::Black));
    assert_eq!(p.alignment, Alignment::Left);
    assert!(!p.wrap);
    assert_eq!(p.scroll, 0);

    app.input = Input::from("rust game");
    app.set_size_filter(Some("large".to_string()));
    let p = render_query_box(&app);
    assert_eq!(p.title, " 🔍 Search GitHub Repositories [Filter: large] ");
    assert_eq!(p.body, Body::Text("rust game".to_string()));
}

#[test]
fn cursor_follows_the_typed_text() {
    let mut app = App::new();
    assert_eq!(ui(&app, terminal()).cursor, Some((3, 3)));
    app.handle_key(&KeyPress::new(KeyCode::Char('a')));
    app.handle_key(&KeyPress::new(KeyCode::Char('b')));
    assert_eq!(ui(&app, terminal()).cursor, Some((5, 3)));
    // A wide character takes two columns.
    app.handle_key(&KeyPress::new(KeyCode::Char('日')));
    assert_eq!(ui(&app, terminal()).cursor, Some((7, 3)));
    app.handle_key(&KeyPress::new(KeyCode::Home));
    assert_eq!(ui(&app, terminal()).cursor, Some((3, 3)));
}

#[test]
fn cursor_cell_is_inside_the_border() {
    assert_eq!(cursor_position(2, 2, 0), Some((3, 3)));
    assert_eq!(cursor_position(5, 7, 3), Some((9, 8)));
    assert_eq!(cursor_position(0, 0, 65534), Some((65535, 1)));
    assert_eq!(cursor_position(65534, 65534, 0), Some((65535, 65535)));
}

#[test]
fn cursor_cell_beyond_the_screen_is_none() {
    assert_eq!(cursor_position(0, 0, 65535), None);
    assert_eq!(cursor_position(1, 0, 65534), None);
    assert_eq!(cursor_position(65535, 0, 0), None);
    assert_eq!(cursor_position(0, 65535, 0), None);
    assert_eq!(cursor_position(0, 0, usize::MAX), None);
}

#[test]
fn results_region_welcomes_before_the_first_search() {
    let app = App::new();
    match render_results(&app) {
        ResultsRegion::Welcome(p) => {
            assert_eq!(p.title, " Results ");
            assert_eq!(p.alignment, Alignment::Center);
            assert_eq!(p.style, fg(Color::Gray));
            assert_eq!(
                body_lines(&p),
                &vec![
                    blank(),
                    line(vec![span("Welcome to Mr Krabz GitHub Search! 👋", bold(Color::Cyan))]),
                    blank(),
                    line(vec![span("Type a search query and press Enter to search.", plain())]),
                    line(vec![span(
                        "Examples: 'rust game', 'web framework', 'machine learning'",
                        plain()
                    )]),
                    blank(),
                    line(vec![span(
                        "Use ↑/↓ to navigate results, Enter to open in browser.",
                        plain()
                    )]),
                ]
            );
        }
        _ => panic!("no welcome"),
    }
}

#[test]
fn results_region_goes_by_rank() {
    let mut app = App::new();
    app.set_results(vec![full_repo()], 1);
    assert!(matches!(render_results(&app), ResultsRegion::Listing(_)));

    app.set_error("rate limit".to_string());
    match render_results(&app) {
        ResultsRegion::Failed(p) => {
            assert_eq!(p.title, " Results ");
            assert_eq!(p.body, Body::Text("❌ Error: rate limit".to_string()));
            assert_eq!(p.style, fg(Color::Red));
            assert!(p.wrap);
        }
        _ => panic!("the failure is not shown"),
    }

    app.searching = true;
    match render_results(&app) {
        ResultsRegion::Searching(p) => {
            assert_eq!(p.body, Body::Text("Searching... ⏳".to_string()));
            assert_eq!(p.style, fg(Color::Yellow));
            assert_eq!(p.alignment, Alignment::Center);
        }
        _ => panic!("the search is not shown"),
    }

    app.searching = false;
    app.error_message = None;
    app.results = Vec::new();
    assert!(matches!(render_results(&app), ResultsRegion::Welcome(_)));
}

#[test]
fn failure_hides_an_empty_page_too() {
    let mut app = App::new();
    app.set_error("boom".to_string());
    assert!(matches!(render_results(&app), ResultsRegion::Failed(_)));
}

#[test]
fn result_row_shows_name_stars_language_size() {
    assert_eq!(
        render_row(&full_repo()),
        line(vec![
            span("rust-lang/rust", bold(Color::Gray)),
            span(" | ", plain()),
            span("⭐ 90000", fg(Color::Yellow)),
            span(" | ", plain()),
            span("Rust", fg(Color::Blue)),
            span("📦 1500000", fg(Color::Gray)),
        ])
    );
    assert_eq!(
        render_row(&bare_repo()),
        line(vec![
            span("Unknown", bold(Color::Gray)),
            span(" | ", plain()),
            span("⭐ 0", fg(Color::Yellow)),
            span(" | ", plain()),
            span("Unknown", fg(Color::Blue)),
            span("📦 0", fg(Color::Gray)),
        ])
    );
}

#[test]
fn result_list_has_one_row_each_and_the_selection() {
    let mut app = App::new();
    app.set_results(vec![full_repo(), bare_repo(), full_repo()], 1234);
    app.next();
    match render_results(&app) {
        ResultsRegion::Listing(list) => {
            assert_eq!(list.title, " Results (1234 total) ");
            assert_eq!(list.rows.len(), 3);
            assert_eq!(list.rows[0], render_row(&full_repo()));
            assert_eq!(list.rows[1], render_row(&bare_repo()));
            assert_eq!(list.selected, Some(1));
            assert_eq!(
                list.highlight,
                Style { fg: None, bg: Some(Color::DarkGray), bold: true, underlined: false }
            );
            assert_eq!(list.marker, "▶ ");
        }
        _ => panic!("no list"),
    }
    app.total_count = None;
    match render_results(&app) {
        ResultsRegion::Listing(list) => assert_eq!(list.title, " Results "),
        _ => panic!("no list"),
    }
}

#[test]
fn details_prompt_without_a_selection() {
    let mut app = App::new();
    let p = render_details(&app);
    assert_eq!(p.title, " Details ");
    assert_eq!(p.body, Body::Text("Select a repository to see details".to_string()));
    assert_eq!(p.style, fg(Color::Gray));
    assert_eq!(p.alignment, Alignment::Center);

    app.set_results(vec![full_repo()], 1);
    app.selected_index = Some(5);
    let p = render_details(&app);
    assert_eq!(p.body, Body::Text("Select a repository to see details".to_string()));
}

fn head_of_details() -> Vec<Line> {
    vec![
        line(vec![span("Description: ", fg(Color::Gray)), span("Empowering everyone", plain())]),
        blank(),
        line(vec![
            span("⭐ Stars: ", fg(Color::Yellow)),
            span("90000", plain()),
            span("  ", plain()),
            span("🍴 Forks: ", fg(Color::Green)),
            span("12000", plain()),
            span("  ", plain()),
            span("💻 Language: ", fg(Color::Blue)),
            span("Rust", plain()),
        ]),
        blank(),
    ]
}

fn tail_of_details() -> Vec<Line> {
    vec![
        blank(),
        line(vec![
            span("🔗 ", fg(Color::Cyan)),
            span(
                "https://github.com/rust-lang/rust",
                Style { fg: Some(Color::Cyan), bg: None, bold: false, underlined: true },
            ),
        ]),
    ]
}

fn details_with(middle: Vec<Line>) -> Vec<Line> {
    let mut lines = head_of_details();
    lines.extend(middle);
    lines.extend(tail_of_details());
    lines
}

#[test]
fn details_of_the_selected_result() {
    let mut app = App::new();
    app.set_results(vec![full_repo()], 1);
    app.scroll_details_down();
    app.scroll_details_down();
    let p = render_details(&app);
    assert_eq!(p.title, " Details ");
    assert_eq!(p.scroll, 2);
    assert!(p.wrap);
    assert_eq!(p.alignment, Alignment::Left);
    assert_eq!(p.style, plain());
    assert_eq!(
        body_lines(&p),
        &details_with(vec![line(vec![
            span("📁 Files: ", fg(Color::Magenta)),
            span("Press 'f' to count", fg(Color::DarkGray)),
        ])])
    );
}

#[test]
fn details_of_a_result_with_nothing_known() {
    let mut app = App::new();
    app.set_results(vec![bare_repo()], 1);
    let p = render_details(&app);
    assert_eq!(
        body_lines(&p),
        &vec![
            line(vec![span("Description: ", fg(Color::Gray)), span("No description", plain())]),
            blank(),
            line(vec![
                span("⭐ Stars: ", fg(Color::Yellow)),
                span("0", plain()),
                span("  ", plain()),
                span("🍴 Forks: ", fg(Color::Green)),
                span("0", plain()),
                span("  ", plain()),
                span("💻 Language: ", fg(Color::Blue)),
                span("Unknown", plain()),
            ]),
            blank(),
            line(vec![
                span("📁 Files: ", fg(Color::Magenta)),
                span("Press 'f' to count", fg(Color::DarkGray)),
            ]),
            blank(),
            line(vec![
                span("🔗 ", fg(Color::Cyan)),
                span("", Style { fg: Some(Color::Cyan), bg: None, bold: false, underlined: true }),
            ]),
        ]
    );
}

#[test]
fn details_show_work_under_way() {
    let mut app = App::new();
    app.set_results(vec![full_repo()], 1);
    let url = "https://github.com/rust-lang/rust".to_string();
    app.finish_file_count(url.clone(), Ok("12".to_string()));

    app.begin(&Action::RequestClone(url.clone()));
    assert_eq!(
        body_lines(&render_details(&app)),
        &details_with(vec![line(vec![
            span("📦 Cloning: ", fg(Color::Cyan)),
            span("Please wait...", fg(Color::Yellow)),
        ])])
    );

    // A count under way is shown before a clone under way.
    app.begin(&Action::RequestFileCount(url));
    assert_eq!(
        body_lines(&render_details(&app)),
        &details_with(vec![line(vec![
            span("📁 Files: ", fg(Color::Magenta)),
            span("Cloning and counting...", fg(Color::Yellow)),
        ])])
    );
}

#[test]
fn details_show_the_report_line_by_line() {
    let mut app = App::new();
    app.set_results(vec![full_repo()], 1);
    app.finish_file_count(
        "https://github.com/rust-lang/rust".to_string(),
        Ok("rs: 12\r\n\nmd: 3\n".to_string()),
    );
    assert_eq!(
        body_lines(&render_details(&app)),
        &details_with(vec![
            line(vec![span("📁 File Count:", bold(Color::Magenta))]),
            blank(),
            line(vec![span("rs: 12", plain())]),
            line(vec![span("", plain())]),
            line(vec![span("md: 3", plain())]),
        ])
    );
}

#[test]
fn details_show_a_failed_count_in_place_of_the_report() {
    let mut app = App::new();
    app.set_results(vec![full_repo()], 1);
    app.finish_file_count(
        "https://github.com/rust-lang/rust".to_string(),
        Err("not found".to_string()),
    );
    assert_eq!(
        body_lines(&render_details(&app)),
        &details_with(vec![
            line(vec![span("📁 File Count:", bold(Color::Magenta))]),
            blank(),
            line(vec![span("Error: not found", plain())]),
        ])
    );
}

#[test]
fn details_show_the_report_of_the_selected_address_only() {
    let mut app = App::new();
    app.set_results(vec![full_repo()], 1);
    app.finish_file_count("https://github.com/other/repo".to_string(), Ok("1".to_string()));
    assert_eq!(
        body_lines(&render_details(&app)),
        &details_with(vec![line(vec![
            span("📁 Files: ", fg(Color::Magenta)),
            span("Press 'f' to count", fg(Color::DarkGray)),
        ])])
    );
}

#[test]
fn details_show_the_clone_message() {
    let mut app = App::new();
    app.set_results(vec![full_repo()], 1);
    app.finish_clone(Ok("/work/repositories/rust".to_string()));
    assert_eq!(
        body_lines(&render_details(&app)),
        &details_with(vec![
            line(vec![
                span("📦 Clone: ", fg(Color::Cyan)),
                span("Cloned to /work/repositories/rust", fg(Color::Green)),
            ]),
            blank(),
            line(vec![
                span("📁 Files: ", fg(Color::Magenta)),
                span("Press 'f' to count", fg(Color::DarkGray)),
            ]),
        ])
    );
}

#[test]
fn help_is_a_legend_of_the_keys() {
    let p = render_help();
    assert_eq!(p.title, " Help ");
    assert_eq!(p.alignment, Alignment::Center);
    assert_eq!(
        body_lines(&p),
        &vec![line(vec![
            span("Enter", bold(Color::Green)),
            span(": Search  ", plain()),
            span("Alt+O", bold(Color::Green)),
            span(": Open  ", plain()),
            span("↑↓", bold(Color::Green)),
            span(": Navigate  ", plain()),
            span("Alt+F", bold(Color::Magenta)),
            span(": Count  ", plain()),
            span("Alt+G", bold(Color::Green)),
            span(": Clone  ", plain()),
            span("1/2/3/0", bold(Color::Cyan)),
            span(": Filter  ", plain()),
            span("Esc", bold(Color::Red)),
            span(": Quit", plain()),
        ])]
    );
}

#[test]
fn ui_puts_the_regions_together() {
    let mut app = App::new();
    app.set_results(vec![full_repo()], 1);
    let screen = ui(&app, terminal());
    assert_eq!(screen.query, render_query_box(&app));
    assert_eq!(screen.results, render_results(&app));
    assert_eq!(screen.details, render_details(&app));
    assert_eq!(screen.help, render_help());
}

#[test]
fn ui_leaves_the_state_as_it_is() {
    let mut app = App::new();
    app.set_results(vec![full_repo(), bare_repo()], 2);
    app.next();
    app.scroll_details_down();
    let first = ui(&app, terminal());
    let second = ui(&app, terminal());
    assert_eq!(first, second);
    assert_eq!(app.selected_index, Some(1));
    assert_eq!(app.details_scroll, 1);
}
