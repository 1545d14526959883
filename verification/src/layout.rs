//! Screen areas and how the screen is divided among the parts of the
//! interface. The division itself is the constraint solver of the terminal
//! library; what is verified here is what is asked of it and what is done
//! with its answer.

use ratatui::layout::{Constraint, Direction, Layout, Rect};
use vstd::prelude::*;

verus! {

/// A rectangle of terminal cells.
#[derive(Clone, Copy, Debug, PartialEq, Eq, Structural)]
pub struct Area {
    pub x: u16,
    pub y: u16,
    pub width: u16,
    pub height: u16,
}

/// The direction in which an area is divided.
#[derive(Clone, Copy, Debug, PartialEq, Eq, Structural)]
pub enum Axis {
    /// Parts lie side by side, left to right.
    Horizontal,
    /// Parts lie one below the other, top to bottom.
    Vertical,
}

/// How much of an area a part of it is to take along the axis of a split.
#[derive(Clone, Copy, Debug, PartialEq, Eq, Structural)]
pub enum Extent {
    /// A share of the whole, in percent.
    Percentage(u16),
    /// A number of cells.
    Length(u16),
    /// At least a number of cells.
    Min(u16),
}

/// `part` lies within `whole`.
pub open spec fn within(part: Area, whole: Area) -> bool {
    &&& whole.x <= part.x
    &&& part.x + part.width <= whole.x + whole.width
    &&& whole.y <= part.y
    &&& part.y + part.height <= whole.y + whole.height
}

/// `part` is a slice of `whole` along `axis`: it spans `whole` across the
/// axis and lies within it along the axis.
pub open spec fn slice_of(axis: Axis, part: Area, whole: Area) -> bool {
    match axis {
        Axis::Vertical => {
            &&& part.x == whole.x
            &&& part.width == whole.width
            &&& whole.y <= part.y
            &&& part.y + part.height <= whole.y + whole.height
        },
        Axis::Horizontal => {
            &&& part.y == whole.y
            &&& part.height == whole.height
            &&& whole.x <= part.x
            &&& part.x + part.width <= whole.x + whole.width
        },
    }
}

/// `Layout::split` of ratatui, with no margin: divides `area` along one axis
/// into one part for each extent, in order. Each part spans the area across
/// the axis and, by the solver's required constraints, lies within it along
/// the axis. How the extents are weighed against each other is the solver's
/// affair, and where they cannot all be met its answer may differ from run to
/// run.
#[verifier::external_body]
pub(crate) fn layout_split(axis: Axis, extents: &Vec<Extent>, area: Area) -> (parts: Vec<Area>)
    ensures
        parts@.len() == extents@.len(),
        forall|i: int| 0 <= i < parts@.len() ==> slice_of(axis, #[trigger] parts@[i], area),
{
    let direction = match axis {
        Axis::Horizontal => Direction::Horizontal,
        Axis::Vertical => Direction::Vertical,
    };
    let constraints: Vec<Constraint> = extents.iter().map(|e| match *e {
        Extent::Percentage(p) => Constraint::Percentage(p),
        Extent::Length(l) => Constraint::Length(l),
        Extent::Min(m) => Constraint::Min(m),
    }).collect();
    let rect = Rect { x: area.x, y: area.y, width: area.width, height: area.height };
    let parts = Layout::default().direction(direction).constraints(constraints).split(rect);
    parts.iter().map(|r| Area { x: r.x, y: r.y, width: r.width, height: r.height }).collect()
}

/// The extents that put a share of `percent` in the middle of two equal
/// margins.
pub open spec fn centering(percent: u16) -> Seq<Extent>
    recommends
        percent <= 100,
{
    seq![
        Extent::Percentage(((100 - percent) / 2) as u16),
        Extent::Percentage(percent),
        Extent::Percentage(((100 - percent) / 2) as u16),
    ]
}

/// The extents of the main screen: title bar, section menu, story list, and
/// the search box, which takes no room unless the stories are searched.
pub open spec fn screen_extents(searching: bool) -> Seq<Extent> {
    seq![
        Extent::Length(3),
        Extent::Length(3),
        Extent::Min(0),
        Extent::Length(
            if searching {
                3u16
            } else {
                0u16
            },
        ),
    ]
}

/// The middle one of three parts.
pub fn middle(parts: &Vec<Area>) -> (part: Area)
    requires
        parts.len() == 3,
    ensures
        part == parts[1],
{
    parts[1]
}

/// The extents that put a share of `percent` in the middle of two equal
/// margins. The share is a percentage, at most 100.
pub fn centering_extents(percent: u16) -> (extents: Vec<Extent>)
    requires
        percent <= 100,
    ensures
        extents@ == centering(percent),
{
    let margin = (100 - percent) / 2;
    let mut extents: Vec<Extent> = Vec::new();
    extents.push(Extent::Percentage(margin));
    extents.push(Extent::Percentage(percent));
    extents.push(Extent::Percentage(margin));
    extents
}

/// The extents of the main screen, for the title bar, the section menu, the
/// story list and the search box.
pub fn main_extents(searching: bool) -> (extents: Vec<Extent>)
    ensures
        extents@ == screen_extents(searching),
{
    let mut extents: Vec<Extent> = Vec::new();
    extents.push(Extent::Length(3));
    extents.push(Extent::Length(3));
    extents.push(Extent::Min(0));
    extents.push(Extent::Length(if searching { 3 } else { 0 }));
    extents
}

/// An area in the middle of `r`: the middle column of the middle row, where
/// the layout solver is asked to give rows and columns the shares
/// `centering(percent_y)` and `centering(percent_x)`. The shares are
/// percentages, at most 100. What is promised of the solver's answer is that
/// the area lies within `r`.
pub fn centered_rect(percent_x: u16, percent_y: u16, r: Area) -> (area: Area)
    requires
        percent_x <= 100,
        percent_y <= 100,
    ensures
        within(area, r),
{
    let rows = layout_split(Axis::Vertical, &centering_extents(percent_y), r);
    let row = middle(&rows);
    let columns = layout_split(Axis::Horizontal, &centering_extents(percent_x), row);
    middle(&columns)
}

/// The four parts of the main screen, top to bottom: title bar, section
/// menu, story list, search box, as the layout solver divides the screen for
/// `screen_extents(searching)`. Each part spans the width of the screen and
/// lies within it.
pub fn screen_parts(screen: Area, searching: bool) -> (parts: Vec<Area>)
    ensures
        parts@.len() == 4,
        forall|i: int| 0 <= i < 4 ==> slice_of(Axis::Vertical, #[trigger] parts@[i], screen),
{
    layout_split(Axis::Vertical, &main_extents(searching), screen)
}

/// Rows of `area` that are left inside a border of one cell at the top and
/// one at the bottom.
pub fn inner_rows(area: Area) -> (rows: usize)
    ensures
        rows == if area.height >= 2 {
            area.height - 2
        } else {
            0
        },
{
    if area.height >= 2 {
        (area.height - 2) as usize
    } else {
        0
    }
}

/// The search line and the command list of the palette: the first three rows
/// of `area`, and the rest.
pub open spec fn palette_split(area: Area) -> (Area, Area) {
    (
        Area { x: area.x, y: area.y, width: area.width, height: 3 },
        Area {
            x: area.x,
            y: (area.y + 3) as u16,
            width: area.width,
            height: (area.height - 3) as u16,
        },
    )
}

/// Divides the palette's area into its search line, three rows high, and
/// its command list below. The area is at least three rows high, its fourth
/// row exists on the screen, and it has no more cells than the terminal
/// library allows an area to have.
pub fn palette_areas(area: Area) -> (parts: (Area, Area))
    requires
        area.height >= 3,
        area.y + 3 <= u16::MAX,
        area.width * area.height <= u16::MAX,
    ensures
        parts == palette_split(area),
{
    (
        Area { x: area.x, y: area.y, width: area.width, height: 3 },
        Area { x: area.x, y: area.y + 3, width: area.width, height: area.height - 3 },
    )
}

} // verus!
