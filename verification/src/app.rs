//! The session: the state behind the screen, the keys that change it and
//! the screen that it is drawn as.

use crate::engine::{
    base_iri, base_iri_of, dataset, evaluate, holds_loaded, is_absolute_iri, is_query,
    is_turtle, load_turtle, loads, open_store, EngineError, QueryOutcome,
};
use crate::input::{Event, KeyCode, KeyEvent, KeyEventKind, QUIT_KEY};
use crate::layout::split_rows;
use crate::mode::Mode;
use crate::query::{newlines, Query, BASE_HEIGHT, DEFAULT_QUERY};
use crate::view::{
    Alignment, Area, Block, BlockView, Color, Constraint, Content, ContentView, Emphasis, Pane,
    PaneView, Screen, Style,
};
use oxigraph::store::Store;
use vstd::prelude::*;

verus! {

/// A session as a value of its own: the text of the query, the mode, and
/// whether the user has asked to leave.
pub struct SessionView {
    pub text: Seq<char>,
    pub mode: Mode,
    pub quitting: bool,
}

impl SessionView {
    /// Whether the text can take one more line feed: the height of the
    /// query pane has to stay within `u16`.
    pub open spec fn has_room(self) -> bool {
        BASE_HEIGHT + newlines(self.text) < u16::MAX
    }

    /// The session after `ch` was typed: `ch` stands at the end of the
    /// text, unless it is a line feed for which there is no room.
    pub open spec fn typed(self, ch: char) -> SessionView {
        if ch != '\n' || self.has_room() {
            SessionView { text: self.text.push(ch), ..self }
        } else {
            self
        }
    }

    /// The session after the last character was erased, if there was one.
    pub open spec fn erased(self) -> SessionView {
        if self.text.len() > 0 {
            SessionView { text: self.text.drop_last(), ..self }
        } else {
            self
        }
    }

    /// The session in the other mode.
    pub open spec fn switched(self) -> SessionView {
        SessionView { mode: self.mode.toggled(), ..self }
    }

    /// The session once the user has asked to leave.
    pub open spec fn quit(self) -> SessionView {
        SessionView { quitting: true, ..self }
    }

    /// What a key does while the query is edited.
    pub open spec fn after_code_in_query_mode(self, code: KeyCode) -> SessionView {
        match code {
            KeyCode::Backspace => self.erased(),
            KeyCode::Enter => self.typed('\n'),
            KeyCode::Tab => self.switched(),
            KeyCode::Char(ch) => self.typed(ch),
            KeyCode::Other => self,
        }
    }

    /// What a key does while the results are browsed.
    pub open spec fn after_code_in_browse_mode(self, code: KeyCode) -> SessionView {
        match code {
            KeyCode::Tab => self.switched(),
            KeyCode::Char(ch) => if ch == QUIT_KEY {
                self.quit()
            } else {
                self
            },
            _ => self,
        }
    }

    /// What a key event does: only a key going down counts, and the mode
    /// decides what it means.
    pub open spec fn after_key(self, key: KeyEvent) -> SessionView {
        if key.kind != KeyEventKind::Press {
            self
        } else {
            match self.mode {
                Mode::Query => self.after_code_in_query_mode(key.code),
                Mode::Browse => self.after_code_in_browse_mode(key.code),
            }
        }
    }

    /// What the outcome of one wait for input does: a key event is
    /// listened to; no event, or one of another kind, changes nothing.
    pub open spec fn after_event(self, polled: Option<Event>) -> SessionView {
        match polled {
            Some(Event::Key(key)) => self.after_key(key),
            _ => self,
        }
    }
}

/// The border of the pane that the keyboard works on.
pub open spec fn highlighted() -> Style {
    Style { fg: Some(Color::Green) }
}

/// The border of the other pane.
pub open spec fn plain() -> Style {
    Style { fg: None }
}

/// The border of the query pane: highlighted while the query is edited.
pub open spec fn query_style(mode: Mode) -> Style {
    match mode {
        Mode::Query => highlighted(),
        Mode::Browse => plain(),
    }
}

/// The border of the results pane: highlighted while the results are browsed.
pub open spec fn browser_style(mode: Mode) -> Style {
    match mode {
        Mode::Browse => highlighted(),
        Mode::Query => plain(),
    }
}

/// How titles are set off.
pub open spec fn title_emphasis() -> Emphasis {
    Emphasis { bold: true, underlined: false }
}

/// How the header of the table is set off.
pub open spec fn header_emphasis() -> Emphasis {
    Emphasis { bold: true, underlined: true }
}

/// The rows that the two panes ask for: the query pane as many as its
/// text needs, the results pane all the others.
pub open spec fn row_constraints(session: SessionView) -> (Constraint, Constraint) {
    (Constraint::Length((BASE_HEIGHT + newlines(session.text)) as u16), Constraint::Fill(1))
}

/// The query pane: the text as it stands, in a frame titled "Query".
pub open spec fn query_pane(session: SessionView, rect: Area) -> PaneView {
    PaneView {
        area: rect,
        block: BlockView {
            title: "Query"@,
            title_emphasis: title_emphasis(),
            border_style: query_style(session.mode),
            horizontal_padding: 0,
        },
        content: ContentView::Paragraph { text: session.text, alignment: Alignment::Left },
    }
}

/// The table of a result: the names of the columns as its header, one row
/// for each row of the result, the columns sharing the width in equal
/// parts, one cell apart.
pub open spec fn result_table(columns: Seq<Seq<char>>, rows: Seq<Seq<Seq<char>>>) -> ContentView {
    ContentView::Table {
        header: columns,
        header_emphasis: header_emphasis(),
        rows,
        widths: Seq::new(columns.len(), |i: int| Constraint::Fill(1)),
        column_spacing: 1,
    }
}

/// What stands in place of a table where there is none.
pub open spec fn no_result() -> ContentView {
    ContentView::Paragraph { text: "NO RESULT"@, alignment: Alignment::Center }
}

/// What the results pane shows for an answer of the engine: the table of
/// the rows where the answer has rows, and the same notice for an answer
/// without rows and for a refusal.
pub open spec fn browser_content(reply: Result<QueryOutcome, EngineError>) -> ContentView {
    match reply {
        Ok(QueryOutcome::Rows { columns, rows }) => result_table(
            columns.deep_view(),
            rows.deep_view(),
        ),
        _ => no_result(),
    }
}

/// The frame of the results pane, titled "Explore".
pub open spec fn browser_block(mode: Mode) -> BlockView {
    BlockView {
        title: "Explore"@,
        title_emphasis: title_emphasis(),
        border_style: browser_style(mode),
        horizontal_padding: 1,
    }
}

/// The results pane for an answer of the engine.
pub open spec fn browser_pane(
    mode: Mode,
    rect: Area,
    reply: Result<QueryOutcome, EngineError>,
) -> PaneView {
    PaneView { area: rect, block: browser_block(mode), content: browser_content(reply) }
}

/// Whether a content is the table of some result whose rows all have one
/// cell for each column.
pub open spec fn is_result_table(content: ContentView) -> bool {
    &&& content matches ContentView::Table { header, rows, .. }
    &&& content == result_table(header, rows)
    &&& forall|i: int| 0 <= i < rows.len() ==> (#[trigger] rows[i]).len() == header.len()
}

/// Whether the loop of a session goes round once more.
#[derive(Clone, Copy, Debug, PartialEq, Eq, Structural)]
pub enum Flow {
    /// Draw the screen and wait for input again.
    Continue,
    /// Leave the loop.
    Exit,
}

/// The state of a session.
pub struct App {
    store: Store,
    mode: Mode,
    query: Query,
    quitting: bool,
}

impl View for App {
    type V = SessionView;

    closed spec fn view(&self) -> SessionView {
        SessionView { text: self.query@, mode: self.mode, quitting: self.quitting }
    }
}

impl App {
    /// The query buffer keeps its height in step with its text.
    pub closed spec fn wf(&self) -> bool {
        self.query.wf()
    }

    /// The engine's store with the dataset of the session.
    pub closed spec fn store(&self) -> Store {
        self.store
    }

    /// A session over an empty dataset: it starts in browse mode, with the
    /// query that selects every triple.
    pub fn new() -> (made: Result<App, EngineError>)
        ensures
            made matches Ok(app) && app.wf() && app@ == (SessionView {
                text: DEFAULT_QUERY@,
                mode: Mode::Browse,
                quitting: false,
            }) && dataset(app.store()) == Set::<Seq<Seq<char>>>::empty(),
    {
        match open_store() {
            Ok(store) => Ok(
                App { store, mode: Mode::Browse, query: Query::new(), quitting: false },
            ),
            Err(error) => Err(EngineError::Storage(error)),
        }
    }

    /// Adds the dataset that the file at `path` holds, `content` being
    /// what was read from it and `path` its absolute path. The file is
    /// read as Turtle, with `file://` and the path as its base identifier.
    /// A path with which that is no absolute IRI is refused, and so is
    /// content that is no Turtle; the store is then as it was. Content
    /// that is taken adds its statements to the store and takes none away.
    /// The session itself stays as it is.
    pub fn load(&mut self, path: &str, content: &str) -> (loaded: Result<(), EngineError>)
        requires
            old(self).wf(),
        ensures
            final(self).wf(),
            final(self)@ == old(self)@,
            loaded is Ok <==> loads(base_iri_of(path@), content@),
            loaded matches Err(EngineError::BaseIri(_)) <==> !is_absolute_iri(
                base_iri_of(path@),
            ),
            loaded matches Err(EngineError::Load(_)) <==> is_absolute_iri(base_iri_of(path@))
                && !is_turtle(base_iri_of(path@), content@),
            loaded is Err ==> final(self).store() == old(self).store(),
            loaded is Ok ==> holds_loaded(
                old(self).store(),
                final(self).store(),
                base_iri_of(path@),
                content@,
            ),
    {
        let base = base_iri(path);
        load_turtle(&mut self.store, base.as_str(), content)
    }

    /// Puts the text of the query buffer to the engine, as it stands. A
    /// text that is no query is refused as such.
    pub fn execute(&self) -> (reply: Result<QueryOutcome, EngineError>)
        ensures
            !is_query(self@.text) ==> reply matches Err(EngineError::Syntax(_)),
            reply matches Ok(outcome) ==> is_query(self@.text) && outcome.is_rectangular(),
            reply matches Err(error) ==> error is Syntax || error is Evaluation,
    {
        evaluate(&self.store, self.query.as_str())
    }

    /// The mode that the session is in.
    pub fn mode(&self) -> (mode: Mode)
        ensures
            mode == self@.mode,
    {
        self.mode
    }

    /// The query buffer.
    pub fn query(&self) -> (query: &Query)
        requires
            self.wf(),
        ensures
            query.wf(),
            query@ == self@.text,
    {
        &self.query
    }

    /// Whether the user has asked to leave.
    pub fn is_quitting(&self) -> (quitting: bool)
        ensures
            quitting == self@.quitting,
    {
        self.quitting
    }

    /// The border of the results pane.
    pub fn get_browser_style(&self) -> (style: Style)
        ensures
            style == browser_style(self@.mode),
    {
        match self.mode {
            Mode::Browse => Style { fg: Some(Color::Green) },
            Mode::Query => Style { fg: None },
        }
    }

    /// The border of the query pane.
    pub fn get_query_style(&self) -> (style: Style)
        ensures
            style == query_style(self@.mode),
    {
        match self.mode {
            Mode::Query => Style { fg: Some(Color::Green) },
            Mode::Browse => Style { fg: None },
        }
    }

    /// The rows that the two panes ask for.
    pub fn row_constraints(&self) -> (asked: (Constraint, Constraint))
        requires
            self.wf(),
        ensures
            asked == row_constraints(self@),
    {
        (Constraint::Length(self.query.height()), Constraint::Fill(1))
    }

    /// The query pane, to stand at `rect`.
    pub fn render_query(&self, rect: Area) -> (pane: Pane)
        ensures
            pane@ == query_pane(self@, rect),
    {
        Pane {
            area: rect,
            block: Block {
                title: "Query".to_owned(),
                title_emphasis: Emphasis { bold: true, underlined: false },
                border_style: self.get_query_style(),
                horizontal_padding: 0,
            },
            content: Content::Paragraph {
                text: self.query.as_str().to_owned(),
                alignment: Alignment::Left,
            },
        }
    }

    /// The results pane for an answer of the engine, to stand at `rect`.
    pub fn render_reply(&self, rect: Area, reply: Result<QueryOutcome, EngineError>) -> (pane:
        Pane)
        ensures
            pane@ == browser_pane(self@.mode, rect, reply),
    {
        let block = Block {
            title: "Explore".to_owned(),
            title_emphasis: Emphasis { bold: true, underlined: false },
            border_style: self.get_browser_style(),
            horizontal_padding: 1,
        };
        let content = match reply {
            Ok(QueryOutcome::Rows { columns, rows }) => {
                let mut widths: Vec<Constraint> = Vec::new();
                let mut i: usize = 0;
                while i < columns.len()
                    invariant
                        i <= columns.len(),
                        widths.len() == i,
                        forall|k: int| 0 <= k < i ==> widths[k] == Constraint::Fill(1),
                    decreases columns.len() - i,
                {
                    widths.push(Constraint::Fill(1));
                    i += 1;
                }
                assert(widths@ =~= Seq::new(
                    columns.deep_view().len(),
                    |i: int| Constraint::Fill(1),
                ));
                Content::Table {
                    header: columns,
                    header_emphasis: Emphasis { bold: true, underlined: true },
                    rows,
                    widths,
                    column_spacing: 1,
                }
            },
            _ => Content::Paragraph { text: "NO RESULT".to_owned(), alignment: Alignment::Center },
        };
        Pane { area: rect, block, content }
    }

    /// The results pane for the query as it stands, to stand at `rect`:
    /// the query is put to the engine, and the answer decides what the
    /// pane shows.
    pub fn render_browser(&self, rect: Area) -> (pane: Pane)
        ensures
            pane@.area == rect,
            pane@.block == browser_block(self@.mode),
            pane@.content == no_result() || is_result_table(pane@.content),
            !is_query(self@.text) ==> pane@.content == no_result(),
    {
        let reply = self.execute();
        proof {
            lemma_table_or_notice(reply);
        }
        self.render_reply(rect, reply)
    }

    /// The screen of the session as it stands, for a terminal of the size
    /// and place of `area`: the query pane above, asked to be as high as
    /// the query buffer says, and the results pane below it, both within
    /// the area and as wide as it.
    pub fn draw(&self, area: Area) -> (screen: Screen)
        requires
            self.wf(),
        ensures
            screen@.query == query_pane(self@, screen.query.area),
            screen@.explore.block == browser_block(self@.mode),
            screen@.explore.content == no_result() || is_result_table(screen@.explore.content),
            !is_query(self@.text) ==> screen@.explore.content == no_result(),
            screen.query.area.x == area.x,
            screen.query.area.width == area.width,
            screen.explore.area.x == area.x,
            screen.explore.area.width == area.width,
            area.y <= screen.query.area.y,
            screen.query.area.y + screen.query.area.height <= screen.explore.area.y,
            screen.explore.area.y + screen.explore.area.height <= area.y + area.height,
    {
        let (upper, lower) = self.row_constraints();
        let (top, rest) = split_rows(area, upper, lower);
        Screen { query: self.render_query(top), explore: self.render_browser(rest) }
    }

    /// Takes in the outcome of one wait for input, `None` where the wait
    /// ran out, and says whether the loop goes on.
    pub fn handle_event(&mut self, polled: Option<Event>) -> (flow: Flow)
        requires
            old(self).wf(),
        ensures
            final(self).wf(),
            final(self)@ == old(self)@.after_event(polled),
            final(self).store() == old(self).store(),
            flow == if final(self)@.quitting {
                Flow::Exit
            } else {
                Flow::Continue
            },
    {
        match polled {
            Some(Event::Key(key)) => self.handle_key(key),
            _ => {},
        }
        if self.quitting {
            Flow::Exit
        } else {
            Flow::Continue
        }
    }

    /// Takes in one key event.
    pub fn handle_key(&mut self, key: KeyEvent)
        requires
            old(self).wf(),
        ensures
            final(self).wf(),
            final(self)@ == old(self)@.after_key(key),
            final(self).store() == old(self).store(),
    {
        if key.kind != KeyEventKind::Press {
            return ;
        }
        match self.mode {
            Mode::Query => self.handle_key_code_in_query_mode(key.code),
            Mode::Browse => self.handle_key_code_in_browse_mode(key.code),
        }
    }

    /// Takes in a key that went down while the query is edited.
    pub fn handle_key_code_in_query_mode(&mut self, code: KeyCode)
        requires
            old(self).wf(),
        ensures
            final(self).wf(),
            final(self)@ == old(self)@.after_code_in_query_mode(code),
            final(self).store() == old(self).store(),
    {
        match code {
            KeyCode::Backspace => {
                self.query.pop();
            },
            KeyCode::Enter => {
                self.query.try_push('\n');
            },
            KeyCode::Tab => self.switch_mode(),
            KeyCode::Char(ch) => {
                self.query.try_push(ch);
            },
            KeyCode::Other => {},
        }
    }

    /// Takes in a key that went down while the results are browsed.
    pub fn handle_key_code_in_browse_mode(&mut self, code: KeyCode)
        requires
            old(self).wf(),
        ensures
            final(self).wf(),
            final(self)@ == old(self)@.after_code_in_browse_mode(code),
            final(self).store() == old(self).store(),
    {
        match code {
            KeyCode::Tab => self.switch_mode(),
            KeyCode::Char(ch) => {
                if ch == QUIT_KEY {
                    self.quit();
                }
            },
            _ => {},
        }
    }

    /// Goes over to the other mode.
    pub fn switch_mode(&mut self)
        requires
            old(self).wf(),
        ensures
            final(self).wf(),
            final(self)@ == old(self)@.switched(),
            final(self).store() == old(self).store(),
    {
        self.mode = self.mode.toggle();
    }

    /// Notes that the user has asked to leave.
    pub fn quit(&mut self)
        requires
            old(self).wf(),
        ensures
            final(self).wf(),
            final(self)@ == old(self)@.quit(),
            final(self).store() == old(self).store(),
    {
        self.quitting = true;
    }
}

/// Whatever the engine answers, the results pane shows either the notice
/// that there is no result or a table; and the table of an answer whose
/// rows all have one cell for each column is of that shape too.
pub proof fn lemma_table_or_notice(reply: Result<QueryOutcome, EngineError>)
    requires
        reply matches Ok(outcome) ==> outcome.is_rectangular(),
    ensures
        browser_content(reply) == no_result() || is_result_table(browser_content(reply)),
        browser_content(reply) == no_result() <==> !(reply matches Ok(QueryOutcome::Rows { .. })),
{
    if let Ok(QueryOutcome::Rows { columns, rows }) = reply {
        let cells = rows.deep_view();
        assert forall|i: int| 0 <= i < cells.len() implies (#[trigger] cells[i]).len()
            == columns.deep_view().len() by {
            assert(cells[i].len() == rows[i].len());
        }
    }
}

/// While the query is edited, no key event makes the session leave: the
/// key that quits is a character like any other.
pub proof fn lemma_editing_never_quits(session: SessionView, key: KeyEvent)
    requires
        session.mode == Mode::Query,
    ensures
        session.after_key(key).quitting == session.quitting,
        session.after_key(KeyEvent { code: KeyCode::Char(QUIT_KEY), kind: KeyEventKind::Press })
            == session.typed(QUIT_KEY),
{
}

/// While the results are browsed, no key event changes the text of the query.
pub proof fn lemma_browsing_never_edits(session: SessionView, key: KeyEvent)
    requires
        session.mode == Mode::Browse,
    ensures
        session.after_key(key).text == session.text,
{
}

/// Two presses of the tabulator key lead back to the session as it was,
/// and with it to the borders that the two panes had.
pub proof fn lemma_tab_twice_restores(session: SessionView)
    ensures
        ({
            let tab = KeyEvent { code: KeyCode::Tab, kind: KeyEventKind::Press };
            let once = session.after_key(tab);
            let twice = once.after_key(tab);
            &&& once.mode == session.mode.toggled()
            &&& twice == session
            &&& query_style(twice.mode) == query_style(session.mode)
            &&& browser_style(twice.mode) == browser_style(session.mode)
        }),
{
}

/// In either mode exactly one of the two panes is highlighted: the query
/// pane while the query is edited, the results pane while the results are
/// browsed.
pub proof fn lemma_one_pane_highlighted(mode: Mode)
    ensures
        query_style(mode) == highlighted() <==> mode == Mode::Query,
        browser_style(mode) == highlighted() <==> mode == Mode::Browse,
        query_style(mode) == highlighted() <==> browser_style(mode) == plain(),
{
}

} // verus!
