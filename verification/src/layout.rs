//! The screen's three rows: tab bar, body and log.
use vstd::prelude::*;
use tui::layout::{Constraint, Direction, Layout, Rect};

verus! {

/// Share of the screen's height that the tab bar gets, in percent.
pub const TABS_PERCENT: u16 = 10;

/// Share of the screen's height that the body gets, in percent.
pub const BODY_PERCENT: u16 = 80;

/// Share of the screen's height that the log gets, in percent.
pub const LOG_PERCENT: u16 = 10;

/// A rectangle of terminal cells.
#[derive(Clone, Copy, Debug, PartialEq, Eq, Structural)]
pub struct Region {
    pub x: u16,
    pub y: u16,
    pub width: u16,
    pub height: u16,
}

impl Region {
    /// The row just below the region, held within the 16-bit range.
    pub open spec fn bottom_spec(self) -> int {
        if self.y + self.height <= u16::MAX {
            self.y + self.height
        } else {
            u16::MAX as int
        }
    }

    /// Whether the region can be split into the dashboard's three rows: its
    /// right edge lies within the 16-bit range, and so does the largest of the
    /// three percentages times its height.
    pub open spec fn splittable_spec(&self) -> bool {
        &&& self.x + self.width <= u16::MAX
        &&& BODY_PERCENT * self.height <= u16::MAX
    }

    /// The row just below the region, held within the 16-bit range.
    pub fn bottom(&self) -> (row: u16)
        ensures
            row == self.bottom_spec(),
    {
        self.y.saturating_add(self.height)
    }

    /// Whether the region can be split into the dashboard's three rows.
    #[verifier::when_used_as_spec(splittable_spec)]
    pub fn splittable(&self) -> (fits: bool)
        ensures
            fits == self.splittable_spec(),
    {
        self.width <= u16::MAX - self.x && self.height <= u16::MAX / BODY_PERCENT
    }
}

/// Whether `row` ends no lower and no further right than `area` does.
pub open spec fn ends_within(area: Region, row: Region) -> bool {
    &&& row.x + row.width <= area.x + area.width
    &&& row.y + row.height <= area.bottom_spec()
}

/// Whether the last of `rows` starts inside `area` and ends exactly at the
/// bottom of `area`.
pub open spec fn reaches_bottom(area: Region, rows: Seq<Region>) -> bool {
    rows.len() > 0 ==> rows.last().y <= area.bottom_spec() && rows.last().y + rows.last().height
        == area.bottom_spec()
}

/// What is known of the rows that a split of `area` into `count` rows gives:
/// there are `count` of them, none ends lower or further right than the area,
/// and the last one ends exactly at the area's bottom.
///
/// This says nothing of how the height is shared out between the rows, of
/// where a row starts, or of which row lies above which: those are the layout
/// solver's choice.
pub open spec fn rows_in(area: Region, count: nat, rows: Seq<Region>) -> bool {
    &&& rows.len() == count
    &&& forall|i: int| 0 <= i < rows.len() ==> ends_within(area, #[trigger] rows[i])
    &&& reaches_bottom(area, rows)
}

/// Splits `area` into rows stacked from top to bottom, one for each entry of
/// `percents`, which gives the share of the height that the row should get.
///
/// Calls `tui::layout::Layout::split` on a vertical layout without margin
/// whose constraints are `Constraint::Percentage` of each entry.  That
/// function hands the sizes to a constraint solver that works in floating
/// point over hash maps, so the result gets no name and the contract states
/// only what the function's own text settles:
/// - it returns one rectangle per constraint;
/// - it requires of the solver, at the strength that the solver documents as
///   never violated, that every rectangle's right edge and bottom lie within
///   the area's and that no width or height is negative, and it turns the
///   solver's values into cell counts by a cast that rounds down: so no
///   rectangle ends lower or further right than the area, and the last one
///   starts no lower than the area's bottom;
/// - it then sets the height of the last rectangle to the distance from that
///   rectangle's top to the bottom of the area.
///
/// The inputs left out are those on which it panics: a percentage times the
/// height that leaves the 16-bit range, which overflows a multiplication, and
/// an area whose right edge leaves that range, for which the solver finds its
/// constraints contradictory.
#[verifier::external_body]
fn split_rows(area: Region, percents: &Vec<u16>) -> (rows: Vec<Region>)
    requires
        area.x + area.width <= u16::MAX,
        forall|i: int| 0 <= i < percents.len() ==> percents[i] * area.height <= u16::MAX,
    ensures
        rows_in(area, percents@.len(), rows@),
{
    let parts: Vec<Constraint> = percents.iter().map(|p| Constraint::Percentage(*p)).collect();
    let rect = Rect { x: area.x, y: area.y, width: area.width, height: area.height };
    let rects = Layout::default().direction(Direction::Vertical).constraints(parts).split(rect);
    rects.iter().map(|r| Region { x: r.x, y: r.y, width: r.width, height: r.height }).collect()
}

/// Splits the screen into the rows of the tab bar, the body and the log, for
/// which it asks the layout solver for 10, 80 and 10 percent of the height.
///
/// The rows are the solver's.  What is proved of them is that there are
/// three, that each stays within the screen's right edge and bottom, and that
/// the last one, the log's, starts inside the screen and ends exactly at its
/// bottom.  Their heights, their tops and their order from top to bottom are
/// not proved.
pub fn partition(area: Region) -> (rows: Vec<Region>)
    requires
        area.splittable(),
    ensures
        rows_in(area, 3, rows@),
{
    let mut percents: Vec<u16> = Vec::new();
    percents.push(TABS_PERCENT);
    percents.push(BODY_PERCENT);
    percents.push(LOG_PERCENT);
    assert(forall|i: int| 0 <= i < percents.len() ==> percents[i] * area.height <= u16::MAX) by {
        assert(forall|i: int| 0 <= i < percents.len() ==> percents[i] <= BODY_PERCENT);
        assert(forall|p: int| 0 <= p <= 80 ==> #[trigger] (p * area.height) <= 80 * area.height)
            by (nonlinear_arith);
    }
    split_rows(area, &percents)
}

} // verus!
