//! The fixed arrangement of the screen: columns, and bands in the left one.

use vstd::prelude::*;
use crate::cut::{
    can_cut, cut, lemma_shares_do_not_overlap, lemma_shares_keep_to_area, shares,
};
use crate::geometry::{Direction, Rect};

verus! {

/// Screens at least this wide give the left column the smaller share; only
/// wider ones show the key hint.
pub const HINT_MIN_WIDTH: u16 = 60;

/// The share of the screen, in hundredths, of the middle column.
pub const MIDDLE_SHARE: u16 = 30;

/// The share of the left column's inner height, in hundredths, of each of
/// the two bands.
pub const BAND_SHARE: u16 = 10;

/// The share of the screen, in hundredths, of the left column.
pub open spec fn left_share(width: u16) -> u16 {
    if width < HINT_MIN_WIDTH {
        10
    } else {
        5
    }
}

/// The screen is wide enough for the key hint.
pub open spec fn shows_hint(width: u16) -> bool {
    width > HINT_MIN_WIDTH
}

/// The share of a screen `width` cells wide, in hundredths, of the left
/// column.
pub fn left_percentage(width: u16) -> (share: u16)
    ensures
        share == left_share(width),
{
    if width < HINT_MIN_WIDTH {
        10
    } else {
        5
    }
}

/// The widest screen that can be arranged. Shares are scaled in 16-bit
/// arithmetic, and thirty times a greater width does not fit.
pub const MAX_WIDTH: u16 = 2184;

/// The highest screen that can be arranged. Shares are scaled in 16-bit
/// arithmetic, and ten times a greater height, less the two margin rows, does
/// not fit.
pub const MAX_HEIGHT: u16 = 6555;

/// The screen area can be arranged: its far edges are coordinates, and it is
/// neither too wide nor too high.
pub open spec fn valid_screen(area: Rect) -> bool {
    area.on_screen() && area.width <= MAX_WIDTH && area.height <= MAX_HEIGHT
}

/// Tells whether the screen area can be arranged.
pub fn is_valid_screen(area: Rect) -> (ok: bool)
    ensures
        ok == valid_screen(area),
{
    area.width <= MAX_WIDTH && area.height <= MAX_HEIGHT && area.x <= u16::MAX - area.width
        && area.y <= u16::MAX - area.height
}

/// The regions of one frame.
#[derive(Clone, Copy, Debug, PartialEq, Eq, Structural)]
pub struct Panels {
    /// The left column, which holds the bands.
    pub left: Rect,
    /// The middle column.
    pub middle: Rect,
    /// The right column, on screens wide enough for the key hint. On other
    /// screens what is right of the middle column is no region.
    pub right: Option<Rect>,
    /// The first band of the left column.
    pub top_band: Rect,
    /// The band below it.
    pub second_band: Rect,
    /// The rest of the left column.
    pub rest_band: Rect,
}

/// The columns of the screen `area`: the left column of its share, the
/// middle column, and what is left.
pub open spec fn columns(area: Rect) -> Seq<Rect> {
    shares(area, Direction::Horizontal, left_share(area.width), MIDDLE_SHARE)
}

/// The bands of the column `left`, less one row at its top and bottom: two
/// bands of a tenth, and what is left.
pub open spec fn bands(left: Rect) -> Seq<Rect> {
    shares(left.shrunk(1), Direction::Vertical, BAND_SHARE, BAND_SHARE)
}

/// The arrangement of the screen `area`. The screen is cut into three
/// columns; the third is a region only on screens that show the hint. The
/// left column is cut into three bands.
pub open spec fn arrangement(area: Rect) -> Panels {
    let columns = columns(area);
    let bands = bands(columns[0]);
    Panels {
        left: columns[0],
        middle: columns[1],
        right: if shows_hint(area.width) {
            Some(columns[2])
        } else {
            None
        },
        top_band: bands[0],
        second_band: bands[1],
        rest_band: bands[2],
    }
}

/// The bounds on a screen's size ask no more than the cuts need: a screen
/// whose far edges are coordinates is valid exactly when it can be cut into
/// its columns and its left column into its bands.
pub proof fn lemma_valid_screen_is_what_cutting_needs(area: Rect)
    requires
        area.on_screen(),
    ensures
        valid_screen(area) <==> {
            &&& can_cut(area, Direction::Horizontal, 0, left_share(area.width), MIDDLE_SHARE)
            &&& can_cut(columns(area)[0], Direction::Vertical, 1, BAND_SHARE, BAND_SHARE)
        },
{
    lemma_shares_keep_to_area(area, Direction::Horizontal, left_share(area.width), MIDDLE_SHARE);
    assert(area.shrunk(0) == area);
}

/// Arranges the screen: cuts it into columns, and the left column into bands.
pub fn partition(area: Rect) -> (panels: Panels)
    requires
        valid_screen(area),
    ensures
        panels == arrangement(area),
{
    proof {
        lemma_valid_screen_is_what_cutting_needs(area);
        assert(area.shrunk(0) == area);
    }
    let columns = cut(area, Direction::Horizontal, 0, left_percentage(area.width), MIDDLE_SHARE);
    let left = columns[0];
    let bands = cut(left, Direction::Vertical, 1, BAND_SHARE, BAND_SHARE);
    let right = if area.width > HINT_MIN_WIDTH {
        Some(columns[2])
    } else {
        None
    };
    Panels {
        left,
        middle: columns[1],
        right,
        top_band: bands[0],
        second_band: bands[1],
        rest_band: bands[2],
    }
}

/// The columns have the shares that their screen's width gives them. The
/// left column begins at the screen's left edge and is a tenth of the width
/// wide on screens narrower than the threshold, a twentieth from the
/// threshold on, rounded down. The middle column begins where the left one
/// ends and is thirty hundredths of the width wide, rounded down. There is a
/// right column exactly on screens wider than the threshold; it begins at
/// thirty-five hundredths of the width, rounded down, and ends at the screen's
/// right edge. Every column is as high as the screen.
pub proof fn lemma_columns_have_their_shares(area: Rect)
    requires
        area.on_screen(),
    ensures
        ({
            let panels = arrangement(area);
            let left_width = area.width * left_share(area.width) / 100;
            let middle_width = area.width * 30 / 100;
            let right_from = area.width * 35 / 100;
            &&& 100 * left_width <= left_share(area.width) * area.width < 100 * left_width + 100
            &&& panels.left == Rect {
                x: area.x,
                y: area.y,
                width: left_width as u16,
                height: area.height,
            }
            &&& panels.middle == Rect {
                x: (area.x + left_width) as u16,
                y: area.y,
                width: middle_width as u16,
                height: area.height,
            }
            &&& panels.right is Some <==> area.width > HINT_MIN_WIDTH
            &&& panels.right matches Some(right) ==> right == Rect {
                x: (area.x + right_from) as u16,
                y: area.y,
                width: (area.width - right_from) as u16,
                height: area.height,
            }
        }),
{
    lemma_shares_keep_to_area(area, Direction::Horizontal, left_share(area.width), MIDDLE_SHARE);
}

/// The two bands have a tenth each of the left column's height less its two
/// margin rows, rounded down, and the left column's width. The first begins
/// one row below the screen's top edge, the second where the first ends, both
/// at the screen's left edge. In a column lower than two rows every band is
/// the empty rectangle at the origin.
pub proof fn lemma_bands_have_their_shares(area: Rect)
    requires
        area.on_screen(),
    ensures
        ({
            let panels = arrangement(area);
            let band_height = (area.height - 2) * 10 / 100;
            let rest_from = (area.height - 2) * 20 / 100;
            if area.height >= 2 {
                &&& panels.top_band == Rect {
                    x: area.x,
                    y: (area.y + 1) as u16,
                    width: panels.left.width,
                    height: band_height as u16,
                }
                &&& panels.second_band == Rect {
                    x: area.x,
                    y: (area.y + 1 + band_height) as u16,
                    width: panels.left.width,
                    height: band_height as u16,
                }
                &&& panels.rest_band == Rect {
                    x: area.x,
                    y: (area.y + 1 + rest_from) as u16,
                    width: panels.left.width,
                    height: (area.height - 2 - rest_from) as u16,
                }
            } else {
                let nothing = Rect { x: 0, y: 0, width: 0, height: 0 };
                panels.top_band == nothing && panels.second_band == nothing && panels.rest_band
                    == nothing
            }
        }),
{
    lemma_shares_keep_to_area(area, Direction::Horizontal, left_share(area.width), MIDDLE_SHARE);
    let left = columns(area)[0];
    lemma_shares_keep_to_area(left.shrunk(1), Direction::Vertical, BAND_SHARE, BAND_SHARE);
}

/// The regions of an arrangement keep to their parents. No column reaches
/// past an edge of the screen, and the columns follow one another from the
/// screen's left edge. Where there is a right column, the widths of the three
/// columns add up to the width of the screen, or to one cell less. A band is
/// empty or reaches past no edge of the left column, and the heights of the
/// bands add up to the height of the left column without its two margin rows,
/// or to one cell less.
pub proof fn lemma_arrangement_keeps_bounds(area: Rect)
    requires
        area.on_screen(),
    ensures
        ({
            let panels = arrangement(area);
            &&& panels.left.within(area)
            &&& panels.middle.within(area)
            &&& panels.left.x == area.x
            &&& panels.middle.x == panels.left.right()
            &&& panels.right matches Some(right) ==> {
                &&& right.within(area)
                &&& panels.middle.right() <= right.x <= panels.middle.right() + 1
                &&& right.right() == area.right()
                &&& area.width - 1 <= panels.left.width + panels.middle.width + right.width
                    <= area.width
            }
            &&& panels.top_band.is_empty() || panels.top_band.within(panels.left)
            &&& panels.second_band.is_empty() || panels.second_band.within(panels.left)
            &&& panels.rest_band.is_empty() || panels.rest_band.within(panels.left)
            &&& panels.left.shrunk(1).height - 1 <= panels.top_band.height
                + panels.second_band.height + panels.rest_band.height
                <= panels.left.shrunk(1).height
        }),
{
    lemma_shares_keep_to_area(area, Direction::Horizontal, left_share(area.width), MIDDLE_SHARE);
    let left = columns(area)[0];
    lemma_shares_keep_to_area(left.shrunk(1), Direction::Vertical, BAND_SHARE, BAND_SHARE);
}

/// No cell of the screen belongs to two columns, and none to two bands.
pub proof fn lemma_arrangement_has_no_overlap(area: Rect, cx: int, cy: int)
    requires
        area.on_screen(),
    ensures
        ({
            let panels = arrangement(area);
            &&& !(panels.left.covers(cx, cy) && panels.middle.covers(cx, cy))
            &&& panels.right matches Some(right) ==> !(right.covers(cx, cy) && (
            panels.left.covers(cx, cy) || panels.middle.covers(cx, cy)))
            &&& !(panels.top_band.covers(cx, cy) && panels.second_band.covers(cx, cy))
            &&& !(panels.top_band.covers(cx, cy) && panels.rest_band.covers(cx, cy))
            &&& !(panels.second_band.covers(cx, cy) && panels.rest_band.covers(cx, cy))
        }),
{
    lemma_shares_keep_to_area(area, Direction::Horizontal, left_share(area.width), MIDDLE_SHARE);
    lemma_shares_do_not_overlap(
        area,
        Direction::Horizontal,
        left_share(area.width),
        MIDDLE_SHARE,
        cx,
        cy,
    );
    let left = columns(area)[0];
    lemma_shares_do_not_overlap(left.shrunk(1), Direction::Vertical, BAND_SHARE, BAND_SHARE, cx, cy);
}

} // verus!
