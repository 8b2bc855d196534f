//! Dividing the terminal into the rows of the screen.
//!
//! The division is made by `ratatui`, and is trusted rather than proved.

use crate::screen::{Height, LayoutRule, Rect, Rows};
use ratatui::layout::{Constraint, Direction, Layout};
use vstd::prelude::*;

verus! {

/// What a margin leaves of an area: the area without `margin` cells on each
/// side, or nothing at all where the area is less than two margins wide or
/// high. Sizes and places stop at the largest a screen can have.
pub open spec fn inside_margin(area: Rect, margin: u16) -> Rect {
    let doubled: int = if 2 * margin > u16::MAX {
        u16::MAX as int
    } else {
        2 * margin
    };
    if area.width < doubled || area.height < doubled {
        Rect { x: 0, y: 0, width: 0, height: 0 }
    } else {
        Rect {
            x: if area.x + margin > u16::MAX {
                u16::MAX
            } else {
                (area.x + margin) as u16
            },
            y: if area.y + margin > u16::MAX {
                u16::MAX
            } else {
                (area.y + margin) as u16
            },
            width: (area.width - doubled) as u16,
            height: (area.height - doubled) as u16,
        }
    }
}

/// The row below the last row of an area. It stops at the largest a
/// screen can have.
pub open spec fn bottom(area: Rect) -> int {
    if area.y + area.height > u16::MAX {
        u16::MAX as int
    } else {
        area.y + area.height
    }
}

/// Whether a rectangle is a row of an area: it takes the whole width of
/// the area, and lies between its top and its bottom.
pub open spec fn row_within(row: Rect, area: Rect) -> bool {
    &&& row.x == area.x
    &&& row.width == area.width
    &&& area.y <= row.y
    &&& row.y + row.height <= bottom(area)
}

/// Whether each of the four rows is a row of an area.
pub open spec fn rows_within(rows: Rows, area: Rect) -> bool {
    &&& row_within(rows.query, area)
    &&& row_within(rows.results, area)
    &&& row_within(rows.details, area)
    &&& row_within(rows.help, area)
}

/// Divides an area into the four rows of the screen, by the given rule.
///
/// Trusted: this is `Layout::areas`, for a vertical layout with the margin
/// and the four heights of the rule. The contract claims that every row
/// lies within what the margin leaves of the area (the margin is taken off
/// as by `Rect::inner`): it takes the whole width, and stands between top
/// and bottom. These are the demands that the solver behind the layout
/// must meet. How high a row is, and where between top and bottom it
/// stands, the solver weighs against each other, so nothing is claimed of
/// that: not the heights of the rule, and not that the rows keep clear of
/// each other.
#[verifier::external_body]
pub(crate) fn split_rows(area: Rect, rule: &LayoutRule) -> (rows: Rows)
    ensures
        rows_within(rows, inside_margin(area, rule.margin)),
{
    let heights = [rule.query, rule.results, rule.details, rule.help].map(|h| match h {
        Height::Exactly(rows) => Constraint::Length(rows),
        Height::AtLeast(rows) => Constraint::Min(rows),
    });
    let area = ratatui::layout::Rect { x: area.x, y: area.y, width: area.width, height: area.height };
    let layout = Layout::default().direction(Direction::Vertical).margin(rule.margin);
    let rows = layout.constraints(heights).areas::<4>(area);
    let [query, results, details, help] =
        rows.map(|r| Rect { x: r.x, y: r.y, width: r.width, height: r.height });
    Rows { query, results, details, help }
}

} // verus!
