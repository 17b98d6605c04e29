use graph_explorer::app::App;
use graph_explorer::engine::{EngineError, QueryOutcome};
use graph_explorer::input::{KeyCode, KeyEvent, KeyEventKind};
use graph_explorer::mode::Mode;
use graph_explorer::view::{
    Alignment, Area, Block, Color, Constraint, Content, Emphasis, Pane, Style,
};
use oxigraph::sparql::EvaluationError;

const DEFAULT: &str = "SELECT ?s ?p ?o WHERE { ?s ?p ?o }";
const HIGHLIGHTED: Style = Style { fg: Some(Color::Green) };
const PLAIN: Style = Style { fg: None };
const BOLD: Emphasis = Emphasis { bold: true, underlined: false };
const BOLD_UNDERLINED: Emphasis = Emphasis { bold: true, underlined: true };

fn session() -> App {
    match App::new() {
        Ok(app) => app,
        Err(_) => panic!("a store in memory cannot fail to open"),
    }
}

fn press(app: &mut App, code: KeyCode) {
    app.handle_key(KeyEvent { code, kind: KeyEventKind::Press });
}

fn type_text(app: &mut App, text: &str) {
    press(app, KeyCode::Tab);
    while !app.query().as_str().is_empty() {
        press(app, KeyCode::Backspace);
    }
    for ch in text.chars() {
        press(app, KeyCode::Char(ch));
    }
    press(app, KeyCode::Tab);
}

fn strings(items: &[&str]) -> Vec<String> {
    items.iter().map(|item| item.to_string()).collect()
}

fn area(x: u16, y: u16, width: u16, height: u16) -> Area {
    Area { x, y, width, height }
}

fn explore_block(border_style: Style) -> Block {
    Block {
        title: "Explore".to_string(),
        title_emphasis: BOLD,
        border_style,
        horizontal_padding: 1,
    }
}

fn notice() -> Content {
    Content::Paragraph { text: "NO RESULT".to_string(), alignment: Alignment::Center }
}

#[test]
fn styles_follow_the_mode() {
    let mut app = session();
    assert_eq!(app.mode(), Mode::Browse);
    assert_eq!(app.get_browser_style(), HIGHLIGHTED);
    assert_eq!(app.get_query_style(), PLAIN);
    press(&mut app, KeyCode::Tab);
    assert_eq!(app.get_browser_style(), PLAIN);
    assert_eq!(app.get_query_style(), HIGHLIGHTED);
}

#[test]
fn tab_twice_restores_mode_and_borders() {
    for start in [Mode::Browse, Mode::Query] {
        let mut app = session();
        if start == Mode::Query {
            press(&mut app, KeyCode::Tab);
        }
        let query_border = app.get_query_style();
        let browser_border = app.get_browser_style();
        press(&mut app, KeyCode::Tab);
        assert_ne!(app.mode(), start);
        assert_ne!(app.get_query_style(), query_border);
        assert_ne!(app.get_browser_style(), browser_border);
        press(&mut app, KeyCode::Tab);
        assert_eq!(app.mode(), start);
        assert_eq!(app.get_query_style(), query_border);
        assert_eq!(app.get_browser_style(), browser_border);
        assert_eq!(app.query().as_str(), DEFAULT);
    }
}

#[test]
fn row_constraints_follow_the_query_height() {
    let mut app = session();
    assert_eq!(app.row_constraints(), (Constraint::Length(3), Constraint::Fill(1)));
    type_text(&mut app, "SELECT *\nWHERE\n{ ?s ?p ?o }");
    assert_eq!(app.row_constraints(), (Constraint::Length(5), Constraint::Fill(1)));
}

#[test]
fn query_pane_shows_the_text_as_it_stands() {
    let mut app = session();
    let pane = app.render_query(area(1, 2, 30, 3));
    let expected = Pane {
        area: area(1, 2, 30, 3),
        block: Block {
            title: "Query".to_string(),
            title_emphasis: BOLD,
            border_style: PLAIN,
            horizontal_padding: 0,
        },
        content: Content::Paragraph { text: DEFAULT.to_string(), alignment: Alignment::Left },
    };
    assert_eq!(pane, expected);
    press(&mut app, KeyCode::Tab);
    press(&mut app, KeyCode::Enter);
    press(&mut app, KeyCode::Char('#'));
    let pane = app.render_query(area(0, 0, 10, 4));
    assert_eq!(pane.block.border_style, HIGHLIGHTED);
    assert_eq!(pane.block.title, "Query");
    assert_eq!(
        pane.content,
        Content::Paragraph {
            text: "SELECT ?s ?p ?o WHERE { ?s ?p ?o }\n#".to_string(),
            alignment: Alignment::Left
        }
    );
}

#[test]
fn rows_are_shown_as_a_table() {
    let app = session();
    let reply = Ok(QueryOutcome::Rows {
        columns: strings(&["a", "b"]),
        rows: vec![strings(&["1", "2"]), strings(&["3", "4"]), strings(&["", "6"])],
    });
    let pane = app.render_reply(area(0, 3, 80, 21), reply);
    let expected = Pane {
        area: area(0, 3, 80, 21),
        block: explore_block(HIGHLIGHTED),
        content: Content::Table {
            header: strings(&["a", "b"]),
            header_emphasis: BOLD_UNDERLINED,
            rows: vec![strings(&["1", "2"]), strings(&["3", "4"]), strings(&["", "6"])],
            widths: vec![Constraint::Fill(1), Constraint::Fill(1)],
            column_spacing: 1,
        },
    };
    assert_eq!(pane, expected);
}

#[test]
fn result_without_columns_is_still_a_table() {
    let app = session();
    let reply = Ok(QueryOutcome::Rows { columns: Vec::new(), rows: vec![Vec::new()] });
    let pane = app.render_reply(area(0, 0, 5, 5), reply);
    assert_eq!(
        pane.content,
        Content::Table {
            header: Vec::new(),
            header_emphasis: BOLD_UNDERLINED,
            rows: vec![Vec::new()],
            widths: Vec::new(),
            column_spacing: 1,
        }
    );
}

#[test]
fn answer_without_rows_is_shown_as_the_notice() {
    let mut app = session();
    let pane = app.render_reply(area(0, 3, 80, 21), Ok(QueryOutcome::NonTabular));
    assert_eq!(
        pane,
        Pane { area: area(0, 3, 80, 21), block: explore_block(HIGHLIGHTED), content: notice() }
    );
    press(&mut app, KeyCode::Tab);
    let pane = app.render_reply(area(0, 3, 80, 21), Ok(QueryOutcome::NonTabular));
    assert_eq!(
        pane,
        Pane { area: area(0, 3, 80, 21), block: explore_block(PLAIN), content: notice() }
    );
}

#[test]
fn refusal_is_shown_as_the_notice() {
    let app = session();
    let reply = Err(EngineError::Evaluation(EvaluationError::NotAGraph));
    let pane = app.render_reply(area(2, 2, 8, 8), reply);
    assert_eq!(
        pane,
        Pane { area: area(2, 2, 8, 8), block: explore_block(HIGHLIGHTED), content: notice() }
    );
}

#[test]
fn default_query_on_empty_dataset_shows_header_and_no_rows() {
    let app = session();
    let pane = app.render_browser(area(0, 3, 80, 21));
    assert_eq!(pane.area, area(0, 3, 80, 21));
    assert_eq!(pane.block, explore_block(HIGHLIGHTED));
    assert_eq!(
        pane.content,
        Content::Table {
            header: strings(&["s", "p", "o"]),
            header_emphasis: BOLD_UNDERLINED,
            rows: Vec::new(),
            widths: vec![Constraint::Fill(1), Constraint::Fill(1), Constraint::Fill(1)],
            column_spacing: 1,
        }
    );
    assert_ne!(pane.content, notice());
}

#[test]
fn invalid_query_shows_the_notice_centered() {
    let mut app = session();
    type_text(&mut app, "SELECT ?s WHERE { ?s ?p");
    let pane = app.render_browser(area(0, 3, 80, 21));
    assert_eq!(pane.block, explore_block(HIGHLIGHTED));
    assert_eq!(
        pane.content,
        Content::Paragraph { text: "NO RESULT".to_string(), alignment: Alignment::Center }
    );
}

#[test]
fn loaded_file_and_default_query_show_its_triples() {
    let mut app = session();
    let content = "<http://example.com/s> <http://example.com/p> <http://example.com/o> .";
    assert!(app.load("/data/graph.ttl", content).is_ok());
    let pane = app.render_browser(area(0, 3, 80, 21));
    match pane.content {
        Content::Table { header, rows, widths, column_spacing, .. } => {
            assert_eq!(header, strings(&["s", "p", "o"]));
            assert!(!rows.is_empty());
            assert_eq!(
                rows,
                vec![strings(&[
                    "<http://example.com/s>",
                    "<http://example.com/p>",
                    "<http://example.com/o>"
                ])]
            );
            assert_eq!(widths.len(), 3);
            assert_eq!(column_spacing, 1);
        }
        Content::Paragraph { .. } => panic!("the results pane shows no table"),
    }
}

#[test]
fn mode_changes_nothing_but_the_borders() {
    let mut app = session();
    let browsing = app.draw(area(0, 0, 80, 24));
    press(&mut app, KeyCode::Tab);
    let editing = app.draw(area(0, 0, 80, 24));
    assert_eq!(browsing.query.block.border_style, PLAIN);
    assert_eq!(browsing.explore.block.border_style, HIGHLIGHTED);
    assert_eq!(editing.query.block.border_style, HIGHLIGHTED);
    assert_eq!(editing.explore.block.border_style, PLAIN);
    assert_eq!(browsing.query.area, editing.query.area);
    assert_eq!(browsing.query.content, editing.query.content);
    assert_eq!(browsing.query.block.title, editing.query.block.title);
    assert_eq!(browsing.explore.area, editing.explore.area);
    assert_eq!(browsing.explore.content, editing.explore.content);
    assert_eq!(browsing.explore.block.title, editing.explore.block.title);
}

#[test]
fn screen_stacks_the_query_above_the_results() {
    let app = session();
    let screen = app.draw(area(0, 0, 80, 24));
    assert_eq!(screen.query.area, area(0, 0, 80, 3));
    assert_eq!(screen.explore.area, area(0, 3, 80, 21));
    assert_eq!(screen.query, app.render_query(area(0, 0, 80, 3)));
    assert_eq!(screen.explore, app.render_browser(area(0, 3, 80, 21)));
}

#[test]
fn query_pane_grows_with_the_line_feeds() {
    let mut app = session();
    type_text(&mut app, "SELECT ?s\nWHERE\n{ ?s ?p ?o }");
    let screen = app.draw(area(2, 5, 40, 20));
    assert_eq!(screen.query.area, area(2, 5, 40, 5));
    assert_eq!(screen.explore.area, area(2, 10, 40, 15));
}

#[test]
fn empty_query_on_empty_terminal_is_drawn() {
    let mut app = session();
    type_text(&mut app, "");
    assert_eq!(app.query().as_str(), "");
    let screen = app.draw(area(0, 0, 0, 0));
    assert_eq!(screen.query.area, area(0, 0, 0, 0));
    assert_eq!(screen.explore.area, area(0, 0, 0, 0));
    assert_eq!(
        screen.query.content,
        Content::Paragraph { text: String::new(), alignment: Alignment::Left }
    );
    assert_eq!(screen.explore.content, notice());
    assert_eq!(app.handle_event(None), graph_explorer::app::Flow::Continue);
}

#[test]
fn terminal_lower_than_the_query_pane_is_drawn() {
    let app = session();
    let screen = app.draw(area(0, 0, 10, 2));
    assert_eq!(screen.query.area.x, 0);
    assert_eq!(screen.query.area.width, 10);
    assert_eq!(screen.explore.area.x, 0);
    assert_eq!(screen.explore.area.width, 10);
    assert!(screen.query.area.height + screen.explore.area.height <= 2);
}

#[test]
fn any_terminal_is_split_into_two_rows_of_its_width() {
    let mut app = session();
    let edges = [0u16, 1, 2, 3, 4, 5, 24, 100, 32767, 65534, u16::MAX];
    for newlines in 0..3 {
        for &y in &edges {
            for &height in &edges {
                let screen = app.draw(area(7, y, 9, height));
                assert_eq!(screen.query.area.x, 7);
                assert_eq!(screen.query.area.width, 9);
                assert_eq!(screen.explore.area.x, 7);
                assert_eq!(screen.explore.area.width, 9);
                let (top, rest) = (screen.query.area, screen.explore.area);
                assert!(y <= top.y);
                assert!(top.y as u32 + top.height as u32 <= rest.y as u32);
                assert!(rest.y as u32 + rest.height as u32 <= y as u32 + height as u32);
                if y as u32 + height as u32 <= u16::MAX as u32 {
                    let top = (3 + newlines).min(height);
                    assert_eq!(screen.query.area, area(7, y, 9, top));
                    assert_eq!(screen.explore.area, area(7, y + top, 9, height - top));
                }
            }
        }
        press(&mut app, KeyCode::Tab);
        press(&mut app, KeyCode::Enter);
        press(&mut app, KeyCode::Tab);
    }
}

#[test]
fn highest_query_pane_is_drawn() {
    let mut app = session();
    press(&mut app, KeyCode::Tab);
    for _ in 0..(u16::MAX - 3) {
        press(&mut app, KeyCode::Enter);
    }
    assert_eq!(app.query().height(), u16::MAX);
    press(&mut app, KeyCode::Enter);
    assert_eq!(app.query().height(), u16::MAX);
    assert_eq!(app.query().as_str().len(), 34 + 65532);
    assert_eq!(app.row_constraints(), (Constraint::Length(u16::MAX), Constraint::Fill(1)));
    let screen = app.draw(area(0, 0, 80, 24));
    assert_eq!(screen.query.area, area(0, 0, 80, 24));
    assert_eq!(screen.explore.area, area(0, 24, 80, 0));
}
