//! What to draw: each region of a frame with the style that fills it.

use vstd::prelude::*;
use crate::geometry::Rect;
use crate::layout::{
    arrangement, lemma_bands_have_their_shares, lemma_columns_have_their_shares, left_share,
    partition, shows_hint, valid_screen, Panels,
};

verus! {

/// A colour by its red, green and blue parts.
#[derive(Clone, Copy, Debug, PartialEq, Eq, Structural)]
pub struct Rgb {
    pub red: u8,
    pub green: u8,
    pub blue: u8,
}

/// The colour of the middle column.
pub open spec fn pale_pink() -> Rgb {
    Rgb { red: 249, green: 168, blue: 186 }
}

/// The colour of the first band.
pub open spec fn light_blue() -> Rgb {
    Rgb { red: 95, green: 196, blue: 229 }
}

/// The colour of the second band.
pub open spec fn ochre() -> Rgb {
    Rgb { red: 210, green: 178, blue: 73 }
}

/// The title of the hint region.
pub const HINT_LABEL: &'static str = "Press <Q> exit";

/// How a region is drawn.
#[derive(Clone, Copy, Debug, PartialEq, Eq)]
pub enum FillStyle {
    /// Every cell gets this background colour.
    Flat(Rgb),
    /// A border round the region, with this title on it.
    Titled(&'static str),
}

/// One region of a frame and how to draw it.
#[derive(Clone, Copy, Debug, PartialEq, Eq)]
pub struct RenderDirective {
    pub region: Rect,
    pub style: FillStyle,
}

/// The directive that fills `region` with `colour`.
pub open spec fn fill(region: Rect, colour: Rgb) -> RenderDirective {
    RenderDirective { region, style: FillStyle::Flat(colour) }
}

/// The directives of a frame, in drawing order: the middle column, the first
/// band, the second band and, where there is a right column, the hint in it.
/// The left column itself and the rest of it below the bands stay unfilled,
/// and so does, where there is no right column, what lies right of the middle
/// one.
pub open spec fn directives(panels: Panels) -> Seq<RenderDirective> {
    let fills = seq![
        fill(panels.middle, pale_pink()),
        fill(panels.top_band, light_blue()),
        fill(panels.second_band, ochre()),
    ];
    match panels.right {
        Some(right) => fills.push(
            RenderDirective { region: right, style: FillStyle::Titled(HINT_LABEL) },
        ),
        None => fills,
    }
}

/// The positions in `list` of the directives that draw a hint.
pub open spec fn hint_positions(list: Seq<RenderDirective>) -> Set<int> {
    Set::new(|i: int| 0 <= i < list.len() && list[i].style is Titled)
}

/// Lists what to draw in the regions of a frame.
pub fn assemble(panels: &Panels) -> (list: Vec<RenderDirective>)
    ensures
        list@ == directives(*panels),
{
    let mut list: Vec<RenderDirective> = Vec::new();
    list.push(
        RenderDirective {
            region: panels.middle,
            style: FillStyle::Flat(Rgb { red: 249, green: 168, blue: 186 }),
        },
    );
    list.push(
        RenderDirective {
            region: panels.top_band,
            style: FillStyle::Flat(Rgb { red: 95, green: 196, blue: 229 }),
        },
    );
    list.push(
        RenderDirective {
            region: panels.second_band,
            style: FillStyle::Flat(Rgb { red: 210, green: 178, blue: 73 }),
        },
    );
    match panels.right {
        Some(right) => {
            list.push(RenderDirective { region: right, style: FillStyle::Titled(HINT_LABEL) });
        },
        None => {},
    }
    assert(list@ =~= directives(*panels));
    list
}

/// The frame of the screen `area`: what to draw in its arrangement.
pub open spec fn frame(area: Rect) -> Seq<RenderDirective> {
    directives(arrangement(area))
}

/// Arranges the screen and lists what to draw in it.
///
/// The list is the frame of `area`, which goes by the area alone. It holds a
/// hint exactly on screens wider than the threshold, as its last and fourth
/// directive, under the fixed title.
pub fn render(area: Rect) -> (list: Vec<RenderDirective>)
    requires
        valid_screen(area),
    ensures
        list@ == frame(area),
        list.len() == if shows_hint(area.width) { 4int } else { 3int },
        hint_positions(list@) == if shows_hint(area.width) { set![3int] } else { Set::empty() },
        shows_hint(area.width) ==> list[3].style == FillStyle::Titled(HINT_LABEL),
{
    let panels = partition(area);
    let list = assemble(&panels);
    proof {
        lemma_hint_comes_last(panels);
    }
    list
}

/// A frame draws a hint exactly where there is a right column, and then as
/// its last and fourth directive, under the fixed title.
pub proof fn lemma_hint_comes_last(panels: Panels)
    ensures
        directives(panels).len() == if panels.right is Some { 4int } else { 3int },
        hint_positions(directives(panels)) == if panels.right is Some {
            set![3int]
        } else {
            Set::empty()
        },
        panels.right is Some ==> directives(panels)[3].style == FillStyle::Titled(HINT_LABEL),
{
    let list = directives(panels);
    assert(list[0].style is Flat && list[1].style is Flat && list[2].style is Flat);
    assert(hint_positions(list) =~= if panels.right is Some { set![3int] } else { Set::empty() });
}

/// Below the threshold and at it a frame draws no hint; above it a frame
/// draws exactly one, in the right column.
pub proof fn lemma_hint_on_wide_screens_only(area: Rect)
    ensures
        hint_positions(frame(area)) == if shows_hint(area.width) {
            set![3int]
        } else {
            Set::empty()
        },
        shows_hint(area.width) ==> frame(area)[3] == (RenderDirective {
            region: arrangement(area).right->Some_0,
            style: FillStyle::Titled(HINT_LABEL),
        }),
{
    lemma_hint_comes_last(arrangement(area));
}

/// Rendering is a function of the screen area: two lists rendered for one
/// area are the same list.
pub proof fn lemma_same_area_same_frame(
    area: Rect,
    first: Seq<RenderDirective>,
    second: Seq<RenderDirective>,
)
    requires
        first == frame(area),
        second == frame(area),
    ensures
        first == second,
{
}

/// What a frame draws, and where. The middle column is filled pale pink: it
/// begins where the left column's share of the width ends and is thirty
/// hundredths of the width wide. On a screen at least two rows high the first
/// band is filled light blue and the second ochre: each is as wide as the left
/// column and a tenth of the height less two rows high, the first one row
/// below the top edge, the second right below the first. Shares are rounded
/// down.
pub proof fn lemma_frame_fills_the_shares(area: Rect)
    requires
        area.on_screen(),
    ensures
        ({
            let left_width = area.width * left_share(area.width) / 100;
            let band_height = (area.height - 2) * 10 / 100;
            &&& frame(area)[0] == fill(
                Rect {
                    x: (area.x + left_width) as u16,
                    y: area.y,
                    width: (area.width * 30 / 100) as u16,
                    height: area.height,
                },
                pale_pink(),
            )
            &&& area.height >= 2 ==> frame(area)[1] == fill(
                Rect {
                    x: area.x,
                    y: (area.y + 1) as u16,
                    width: left_width as u16,
                    height: band_height as u16,
                },
                light_blue(),
            )
            &&& area.height >= 2 ==> frame(area)[2] == fill(
                Rect {
                    x: area.x,
                    y: (area.y + 1 + band_height) as u16,
                    width: left_width as u16,
                    height: band_height as u16,
                },
                ochre(),
            )
        }),
{
    lemma_columns_have_their_shares(area);
    lemma_bands_have_their_shares(area);
}

/// On a screen that shows no hint nothing is drawn right of the middle
/// column: no directive of the frame has a cell there.
pub proof fn lemma_nothing_right_of_the_middle_column(area: Rect, cx: int, cy: int)
    requires
        area.on_screen(),
        !shows_hint(area.width),
        cx >= arrangement(area).middle.right(),
    ensures
        forall|i: int| 0 <= i < frame(area).len() ==> !(#[trigger] frame(area)[i]).region.covers(
            cx,
            cy,
        ),
{
    lemma_columns_have_their_shares(area);
    lemma_bands_have_their_shares(area);
    let list = frame(area);
    assert forall|i: int| 0 <= i < list.len() implies !(#[trigger] list[i]).region.covers(
        cx,
        cy,
    ) by {
        assert(i == 0 || i == 1 || i == 2);
    }
}

} // verus!
