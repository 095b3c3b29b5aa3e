//! Placing a dialog inside the terminal.
use vstd::prelude::*;

verus! {

/// A rectangle of terminal cells.
#[derive(Debug, Clone, Copy, PartialEq, Eq, Structural)]
pub struct Rect {
    pub x: u16,
    pub y: u16,
    pub width: u16,
    pub height: u16,
}

impl Rect {
    /// A rectangle at (`x`, `y`); width and height are cut so that it ends
    /// within the coordinate range.
    pub fn new(x: u16, y: u16, width: u16, height: u16) -> (res: Rect)
        ensures
            res.x == x,
            res.y == y,
            res.width == (if width > u16::MAX - x { (u16::MAX - x) as u16 } else { width }),
            res.height == (if height > u16::MAX - y { (u16::MAX - y) as u16 } else { height }),
    {
        let max_width = u16::MAX - x;
        let max_height = u16::MAX - y;
        let width = if width > max_width {
            max_width
        } else {
            width
        };
        let height = if height > max_height {
            max_height
        } else {
            height
        };
        Rect { x, y, width, height }
    }
}

/// The size of a dialog along one axis: as asked, but leaving one cell on
/// each side when there is room, and at least one cell.
pub open spec fn fitted(desired: u16, available: u16) -> u16 {
    let room: u16 = if available >= 2 { (available - 2) as u16 } else { 0 };
    let room: u16 = if room < 1 { 1 } else { room };
    if desired < room { desired } else { room }
}

/// A dialog of the desired size centred in `area` and kept inside it; an
/// empty area is returned as it is.
pub fn centered_rect(area: Rect, desired_width: u16, desired_height: u16) -> (res: Rect)
    requires
        area.x + area.width <= u16::MAX,
        area.y + area.height <= u16::MAX,
    ensures
        area.width == 0 || area.height == 0 ==> res == area,
        area.width > 0 && area.height > 0 ==> {
            &&& res.width == fitted(desired_width, area.width)
            &&& res.height == fitted(desired_height, area.height)
            &&& res.x == area.x + (area.width - res.width) / 2
            &&& res.y == area.y + (area.height - res.height) / 2
        },
{
    if area.width == 0 || area.height == 0 {
        return area;
    }
    let wroom: u16 = if area.width >= 2 {
        area.width - 2
    } else {
        0
    };
    let wroom: u16 = if wroom < 1 {
        1
    } else {
        wroom
    };
    let width: u16 = if desired_width < wroom {
        desired_width
    } else {
        wroom
    };
    let hroom: u16 = if area.height >= 2 {
        area.height - 2
    } else {
        0
    };
    let hroom: u16 = if hroom < 1 {
        1
    } else {
        hroom
    };
    let height: u16 = if desired_height < hroom {
        desired_height
    } else {
        hroom
    };
    Rect::new(area.x + (area.width - width) / 2, area.y + (area.height - height) / 2, width, height)
}

/// The dialog lies within the area, and within its one-cell margin when the
/// area is at least three cells across.
pub proof fn law_dialog_fits(area: Rect, desired_width: u16, desired_height: u16)
    requires
        area.width > 0,
        area.height > 0,
        area.x + area.width <= u16::MAX,
        area.y + area.height <= u16::MAX,
    ensures
        ({
            let w = fitted(desired_width, area.width);
            let h = fitted(desired_height, area.height);
            let x = area.x + (area.width - w) / 2;
            let y = area.y + (area.height - h) / 2;
            &&& area.x <= x && x + w <= area.x + area.width
            &&& area.y <= y && y + h <= area.y + area.height
            &&& w <= desired_width || w == 1
            &&& area.width >= 3 ==> area.x + 1 <= x && x + w + 1 <= area.x + area.width
        }),
{
}

} // verus!
