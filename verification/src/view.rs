//! What a screen is made of: two bordered panes, each with its place, its
//! title, its border and what it shows. A screen described in these terms
//! says all that a painter has to know.

use vstd::prelude::*;

verus! {

/// A rectangle of terminal cells: its upper left corner and its size.
#[derive(Clone, Copy, Debug, PartialEq, Eq, Structural)]
pub struct Area {
    pub x: u16,
    pub y: u16,
    pub width: u16,
    pub height: u16,
}

/// How much room a row of a layout or a column of a table asks for.
#[derive(Clone, Copy, Debug, PartialEq, Eq, Structural)]
pub enum Constraint {
    /// This many cells.
    Length(u16),
    /// A share of what the others leave, in proportion to the weight.
    Fill(u16),
}

/// A colour of the terminal.
#[derive(Clone, Copy, Debug, PartialEq, Eq, Structural)]
pub enum Color {
    Green,
}

/// How a border is drawn: in the given colour, or as the terminal draws by default.
#[derive(Clone, Copy, Debug, PartialEq, Eq)]
pub struct Style {
    pub fg: Option<Color>,
}

/// How a piece of text is set off.
#[derive(Clone, Copy, Debug, PartialEq, Eq, Structural)]
pub struct Emphasis {
    pub bold: bool,
    pub underlined: bool,
}

/// Where a text stands within its line.
#[derive(Clone, Copy, Debug, PartialEq, Eq, Structural)]
pub enum Alignment {
    Left,
    Center,
}

/// The frame of a pane: a border on all four sides with a title in it.
#[derive(Clone, Debug, PartialEq, Eq)]
pub struct Block {
    pub title: String,
    pub title_emphasis: Emphasis,
    pub border_style: Style,
    /// Empty cells between the border and the content, on the left and on the right.
    pub horizontal_padding: u16,
}

/// What a pane shows inside its frame.
#[derive(Clone, Debug, PartialEq, Eq)]
pub enum Content {
    /// A text, line by line.
    Paragraph { text: String, alignment: Alignment },
    /// A header and rows of cells, the columns sized by `widths` and set
    /// `column_spacing` cells apart.
    Table {
        header: Vec<String>,
        header_emphasis: Emphasis,
        rows: Vec<Vec<String>>,
        widths: Vec<Constraint>,
        column_spacing: u16,
    },
}

/// One pane: where it is, its frame and its content.
#[derive(Clone, Debug, PartialEq, Eq)]
pub struct Pane {
    pub area: Area,
    pub block: Block,
    pub content: Content,
}

/// The whole screen: the query above, the results below.
#[derive(Clone, Debug, PartialEq, Eq)]
pub struct Screen {
    pub query: Pane,
    pub explore: Pane,
}

/// A frame as a value of its own.
pub struct BlockView {
    pub title: Seq<char>,
    pub title_emphasis: Emphasis,
    pub border_style: Style,
    pub horizontal_padding: u16,
}

/// A content as a value of its own.
pub enum ContentView {
    Paragraph { text: Seq<char>, alignment: Alignment },
    Table {
        header: Seq<Seq<char>>,
        header_emphasis: Emphasis,
        rows: Seq<Seq<Seq<char>>>,
        widths: Seq<Constraint>,
        column_spacing: u16,
    },
}

/// A pane as a value of its own.
pub struct PaneView {
    pub area: Area,
    pub block: BlockView,
    pub content: ContentView,
}

/// A screen as a value of its own.
pub struct ScreenView {
    pub query: PaneView,
    pub explore: PaneView,
}

impl View for Block {
    type V = BlockView;

    open spec fn view(&self) -> BlockView {
        BlockView {
            title: self.title@,
            title_emphasis: self.title_emphasis,
            border_style: self.border_style,
            horizontal_padding: self.horizontal_padding,
        }
    }
}

impl View for Content {
    type V = ContentView;

    open spec fn view(&self) -> ContentView {
        match *self {
            Content::Paragraph { text, alignment } => ContentView::Paragraph {
                text: text@,
                alignment,
            },
            Content::Table { header, header_emphasis, rows, widths, column_spacing } => {
                ContentView::Table {
                    header: header.deep_view(),
                    header_emphasis,
                    rows: rows.deep_view(),
                    widths: widths@,
                    column_spacing,
                }
            },
        }
    }
}

impl View for Pane {
    type V = PaneView;

    open spec fn view(&self) -> PaneView {
        PaneView { area: self.area, block: self.block@, content: self.content@ }
    }
}

impl View for Screen {
    type V = ScreenView;

    open spec fn view(&self) -> ScreenView {
        ScreenView { query: self.query@, explore: self.explore@ }
    }
}

} // verus!
