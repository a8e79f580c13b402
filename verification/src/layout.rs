use vstd::prelude::*;

verus! {

/// The width of the tab-list pane, in terminal columns.
pub const TAB_LIST_WIDTH: u16 = 20;

/// A rectangular drawing area, in terminal cells.
#[derive(Clone, Copy, PartialEq, Eq, Structural, Debug)]
pub struct Rect {
    pub x: u16,
    pub y: u16,
    pub width: u16,
    pub height: u16,
}

/// Split a drawing area into the fixed-width tab-list pane on the left
/// and the content pane that takes the rest, keeping the content pane at
/// least one column wide whenever the area has any width at all.
pub fn split_tab_content(area: Rect) -> (r: (Rect, Rect))
    requires
        area.x + area.width <= u16::MAX,
    ensures
        r.0.x == area.x && r.0.y == area.y && r.0.height == area.height,
        r.1.y == area.y && r.1.height == area.height,
        r.1.x == area.x + r.0.width,
        r.0.width + r.1.width == area.width,
        r.0.width <= TAB_LIST_WIDTH,
        area.width > TAB_LIST_WIDTH ==> r.0.width == TAB_LIST_WIDTH,
        1 <= area.width <= TAB_LIST_WIDTH ==> r.0.width == area.width - 1,
        area.width >= 1 ==> r.1.width >= 1,
{
    let tab_width: u16 = if area.width > TAB_LIST_WIDTH {
        TAB_LIST_WIDTH
    } else if area.width >= 1 {
        area.width - 1
    } else {
        0
    };
    let tabs = Rect { x: area.x, y: area.y, width: tab_width, height: area.height };
    let content = Rect {
        x: area.x + tab_width,
        y: area.y,
        width: area.width - tab_width,
        height: area.height,
    };
    (tabs, content)
}

} // verus!
