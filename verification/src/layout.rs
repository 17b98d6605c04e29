//! The split of the screen into the two panes, which the terminal library computes.

use crate::view::{Area, Constraint};
use ratatui::layout::{Layout, Rect};
use vstd::prelude::*;

verus! {

/// `Layout::vertical` of the two constraints, then `Layout::split` on the
/// area: the rows that the layout solver gives the upper and the lower
/// constraint. From side to side each row is as the area is. The solver
/// decides where a row begins and how high it is, but within bounds that
/// it is required to keep: no row begins above the area or ends below
/// it, and the upper row ends where the lower one begins or above.
#[verifier::external_body]
pub(crate) fn split_rows(area: Area, upper: Constraint, lower: Constraint) -> (rows: (Area, Area))
    ensures
        rows.0.x == area.x,
        rows.0.width == area.width,
        rows.1.x == area.x,
        rows.1.width == area.width,
        area.y <= rows.0.y,
        rows.0.y + rows.0.height <= rows.1.y,
        rows.1.y + rows.1.height <= area.y + area.height,
{
    let convert = |constraint| match constraint {
        Constraint::Length(cells) => ratatui::layout::Constraint::Length(cells),
        Constraint::Fill(weight) => ratatui::layout::Constraint::Fill(weight),
    };
    let rect = Rect { x: area.x, y: area.y, width: area.width, height: area.height };
    let split = Layout::vertical([convert(upper), convert(lower)]).split(rect);
    let (top, rest) = (split[0], split[1]);
    (
        Area { x: top.x, y: top.y, width: top.width, height: top.height },
        Area { x: rest.x, y: rest.y, width: rest.width, height: rest.height },
    )
}

} // verus!
