//! Placement of the display's panels on the terminal.
//!
//! The viewport is cut 80/20 into a main area and a status line, the main area
//! 70/30 into the board area and a sidebar, and the sidebar into two equal halves
//! for the score and the controls. The board itself takes the centred 80% of its
//! area in each dimension. The cuts are made by the `tui` layout engine.
use tui::layout::{Constraint, Direction, Layout, Rect};
use vstd::prelude::*;

verus! {

/// A rectangle of terminal cells.
#[derive(Clone, Copy, Debug, PartialEq, Eq, Structural)]
pub struct Region {
    pub x: u16,
    pub y: u16,
    pub width: u16,
    pub height: u16,
}

/// The share of an area that one part of a cut asks for.
#[derive(Clone, Copy, Debug, PartialEq, Eq, Structural)]
pub enum Share {
    /// This percentage of the area.
    Percent(u16),
    /// This fraction of the area, numerator then denominator.
    Ratio(u32, u32),
}

/// The length of `area` along the cut.
pub open spec fn extent(area: Region, vertical: bool) -> nat {
    if vertical {
        area.height as nat
    } else {
        area.width as nat
    }
}

/// The cuts the layout engine takes without overflowing: the area lies within the
/// coordinate range, each percentage times the extent fits 16 bits, and each ratio
/// has a nonzero denominator.
pub open spec fn split_admissible(area: Region, vertical: bool, shares: Seq<Share>) -> bool {
    &&& area.x + area.width <= u16::MAX
    &&& area.y + area.height <= u16::MAX
    &&& forall|i: int|
        0 <= i < shares.len() ==> match #[trigger] shares[i] {
            Share::Percent(p) => p * extent(area, vertical) <= u16::MAX,
            Share::Ratio(_, d) => d > 0,
        }
}

/// Relies on `tui::layout::Layout::split`: it cuts the area into one rectangle per
/// constraint, stacked top to bottom when `vertical`, else left to right. Where the
/// constraints leave room, which of several cuts its solver returns may differ from
/// one run to the next, so nothing more is claimed of the rectangles.
#[verifier::external_body]
fn split_area(area: Region, vertical: bool, shares: &Vec<Share>) -> (r: Vec<Region>)
    requires
        split_admissible(area, vertical, shares@),
    ensures
        r@.len() == shares@.len(),
{
    let constraints: Vec<Constraint> = shares.iter().map(|s| match *s {
        Share::Percent(p) => Constraint::Percentage(p),
        Share::Ratio(n, d) => Constraint::Ratio(n, d),
    }).collect();
    let direction = if vertical {
        Direction::Vertical
    } else {
        Direction::Horizontal
    };
    let rect = Rect { x: area.x, y: area.y, width: area.width, height: area.height };
    let parts = Layout::default().direction(direction).constraints(constraints).split(rect);
    parts.iter().map(|p| Region { x: p.x, y: p.y, width: p.width, height: p.height }).collect()
}

/// Cuts `area` for `shares` when the layout engine takes the cut, else `None`.
pub fn split_checked(area: Region, vertical: bool, shares: &Vec<Share>) -> (r: Option<Vec<Region>>)
    ensures
        match r {
            Some(parts) => split_admissible(area, vertical, shares@) && parts@.len()
                == shares@.len(),
            None => !split_admissible(area, vertical, shares@),
        },
{
    if area.x as u32 + area.width as u32 > u16::MAX as u32 || area.y as u32 + area.height as u32
        > u16::MAX as u32 {
        return None;
    }
    let ext: u32 = if vertical {
        area.height as u32
    } else {
        area.width as u32
    };
    let mut i: usize = 0;
    while i < shares.len()
        invariant
            0 <= i <= shares@.len(),
            ext == extent(area, vertical),
            forall|k: int|
                0 <= k < i ==> match #[trigger] shares@[k] {
                    Share::Percent(p) => p * extent(area, vertical) <= u16::MAX,
                    Share::Ratio(_, d) => d > 0,
                },
        decreases shares@.len() - i,
    {
        match shares[i] {
            Share::Percent(p) => {
                assert(p as u64 * ext as u64 <= 0xffff * 0xffff) by (nonlinear_arith)
                    requires
                        p <= 0xffff,
                        ext <= 0xffff,
                ;
                if p as u64 * ext as u64 > u16::MAX as u64 {
                    return None;
                }
            },
            Share::Ratio(_, d) => {
                if d == 0 {
                    return None;
                }
            },
        }
        i = i + 1;
    }
    Some(split_area(area, vertical, shares))
}

/// A region that lies within the coordinate range.
pub open spec fn in_range(r: Region) -> bool {
    r.x + r.width <= u16::MAX && r.y + r.height <= u16::MAX
}

/// The centred part of `r` that is 80% of its width and 80% of its height, rounded down.
pub open spec fn inset_spec(r: Region) -> Region {
    let w = (r.width * 80 / 100) as u16;
    let h = (r.height * 80 / 100) as u16;
    Region { x: (r.x + r.width / 2 - w / 2) as u16, y: (r.y + r.height / 2 - h / 2) as u16, width: w, height: h }
}

/// The centred part of `r` that is 80% of its width and 80% of its height.
pub fn inset(r: Region) -> (out: Region)
    requires
        in_range(r),
    ensures
        out == inset_spec(r),
        r.x <= out.x,
        r.y <= out.y,
        out.x + out.width <= r.x + r.width,
        out.y + out.height <= r.y + r.height,
{
    let w = (r.width as u32 * 80 / 100) as u16;
    let h = (r.height as u32 * 80 / 100) as u16;
    assert(w <= r.width && h <= r.height);
    assert(w / 2 <= r.width / 2 && h / 2 <= r.height / 2);
    let x = (r.x as u32 + r.width as u32 / 2 - w as u32 / 2) as u16;
    let y = (r.y as u32 + r.height as u32 / 2 - h as u32 / 2) as u16;
    Region { x, y, width: w, height: h }
}

/// Where each panel of the display goes.
#[derive(Clone, Copy, Debug, PartialEq, Eq, Structural)]
pub struct Plan {
    pub board: Region,
    pub score: Region,
    pub controls: Region,
    pub status: Region,
}

/// The cut of the viewport into main area and status line.
pub open spec fn rows_shares() -> Seq<Share> {
    seq![Share::Percent(80), Share::Percent(20)]
}

/// The cut of the main area into board area and sidebar.
pub open spec fn columns_shares() -> Seq<Share> {
    seq![Share::Percent(70), Share::Percent(30)]
}

/// The cut of the sidebar into two halves.
pub open spec fn halves_shares() -> Seq<Share> {
    seq![Share::Ratio(1, 2), Share::Ratio(1, 2)]
}

/// The placement of the panels given the three cuts: the viewport into main area and
/// status line, the main area into board area and sidebar, and the sidebar into
/// halves. `None` where the board area leaves the coordinate range.
pub open spec fn plan_of_cuts(rows: Seq<Region>, columns: Seq<Region>, halves: Seq<Region>) -> Option<Plan> {
    if in_range(columns[0]) {
        Some(Plan { board: inset_spec(columns[0]), score: halves[0], controls: halves[1], status: rows[1] })
    } else {
        None
    }
}

/// Places the panels given the three cuts: the board in the centre of the board
/// area, the score and the controls in the two halves of the sidebar, and the status
/// line below the main area.
pub fn plan_from_cuts(rows: &Vec<Region>, columns: &Vec<Region>, halves: &Vec<Region>) -> (r: Option<Plan>)
    requires
        rows@.len() == 2,
        columns@.len() == 2,
        halves@.len() == 2,
    ensures
        r == plan_of_cuts(rows@, columns@, halves@),
{
    let board_area = columns[0];
    if board_area.x as u32 + board_area.width as u32 > u16::MAX as u32 || board_area.y as u32
        + board_area.height as u32 > u16::MAX as u32 {
        return None;
    }
    Some(Plan { board: inset(board_area), score: halves[0], controls: halves[1], status: rows[1] })
}

/// Places the board, the score panel, the controls panel and the status line on
/// `viewport`: cuts it 80/20 into main area and status line, the main area 70/30
/// into board area and sidebar, and the sidebar into halves, then places the panels
/// in those cuts. `None` where the layout engine does not take one of the cuts.
pub fn plan(viewport: Region) -> (r: Option<Plan>)
    ensures
        !split_admissible(viewport, true, rows_shares()) ==> r is None,
        r matches Some(p) ==> exists|rows: Seq<Region>, columns: Seq<Region>, halves: Seq<Region>|
            {
                &&& rows.len() == 2
                &&& columns.len() == 2
                &&& halves.len() == 2
                &&& split_admissible(rows[0], false, columns_shares())
                &&& split_admissible(columns[1], true, halves_shares())
                &&& #[trigger] plan_of_cuts(rows, columns, halves) == Some(p)
            },
{
    let rows_cut = vec![Share::Percent(80), Share::Percent(20)];
    assert(rows_cut@ =~= rows_shares());
    let rows = match split_checked(viewport, true, &rows_cut) {
        Some(parts) => parts,
        None => return None,
    };
    let columns_cut = vec![Share::Percent(70), Share::Percent(30)];
    assert(columns_cut@ =~= columns_shares());
    let columns = match split_checked(rows[0], false, &columns_cut) {
        Some(parts) => parts,
        None => return None,
    };
    let halves_cut = vec![Share::Ratio(1, 2), Share::Ratio(1, 2)];
    assert(halves_cut@ =~= halves_shares());
    let halves = match split_checked(columns[1], true, &halves_cut) {
        Some(parts) => parts,
        None => return None,
    };
    let r = plan_from_cuts(&rows, &columns, &halves);
    assert(r matches Some(p) ==> plan_of_cuts(rows@, columns@, halves@) == Some(p));
    r
}

} // verus!
