//! Cutting an area in three along an axis: two shares and the rest.

use vstd::prelude::*;
use crate::geometry::{Direction, Rect};
use tui::layout as grid;

verus! {

/// How much of an area one piece asks for.
#[derive(Clone, Copy, Debug, PartialEq, Eq, Structural)]
pub enum Constraint {
    /// This many hundredths of the area.
    Percentage(u16),
    /// At least this many cells.
    Min(u16),
}

impl Constraint {
    /// The request can be scaled to an area that extends `span` cells
    /// without leaving the range of a coordinate.
    pub open spec fn scales_to(self, span: int) -> bool {
        match self {
            Constraint::Percentage(p) => p * span <= u16::MAX,
            Constraint::Min(_) => true,
        }
    }
}

/// The rules of a cut in three: `first` hundredths, `second` hundredths, and
/// a piece that takes what is left.
pub open spec fn rules_of(first: u16, second: u16) -> Seq<Constraint> {
    seq![Constraint::Percentage(first), Constraint::Percentage(second), Constraint::Min(0)]
}

/// The three pieces of `area` along `direction`. The first begins where the
/// area begins and has `first` hundredths of its extent, rounded down. The
/// second begins where the first ends and has `second` hundredths, rounded
/// down. The third begins at `first + second` hundredths, rounded down, and
/// ends where the area ends. Across the cut every piece is as the area.
pub open spec fn shares(area: Rect, direction: Direction, first: u16, second: u16) -> Seq<Rect> {
    let from = area.start(direction);
    let span = area.span(direction);
    let a = span * first / 100;
    let b = span * second / 100;
    let c = span * (first + second) / 100;
    seq![
        area.strip(direction, from, a),
        area.strip(direction, from + a, b),
        area.strip(direction, from + c, span - c),
    ]
}

/// The library can ask for this cut: the far edges of the area are
/// coordinates, the doubled margin is one, the two shares are no more than the
/// whole, and each share scales to the inner area's extent.
pub open spec fn can_cut(
    area: Rect,
    direction: Direction,
    margin: u16,
    first: u16,
    second: u16,
) -> bool {
    &&& area.on_screen()
    &&& 2 * margin <= u16::MAX
    &&& first + second <= 100
    &&& first * area.shrunk(margin).span(direction) <= u16::MAX
    &&& second * area.shrunk(margin).span(direction) <= u16::MAX
}

/// Asks the layout solver to cut `area`, less `margin` rows at its top and
/// bottom, into one piece per constraint along `direction`.
///
/// Calls `tui::layout::Layout::split`. The contract claims only that there is
/// one piece for each constraint, as that function builds its result from the
/// list of constraints. Where the pieces lie is worked out by a solver in
/// floating point and is not stated; the caller tests it. The preconditions
/// keep the call away from what that function cannot take: an area whose far
/// edge is no coordinate, for which its required constraints cannot be met,
/// and a margin or a share that overflows its 16-bit arithmetic when doubled
/// or scaled.
#[verifier::external_body]
fn split(
    area: Rect,
    direction: Direction,
    margin: u16,
    constraints: &Vec<Constraint>,
) -> (pieces: Vec<Rect>)
    requires
        area.on_screen(),
        2 * margin <= u16::MAX,
        forall|i: int|
            0 <= i < constraints.len() ==> (#[trigger] constraints[i]).scales_to(
                area.shrunk(margin).span(direction),
            ),
    ensures
        pieces.len() == constraints.len(),
{
    let along = match direction {
        Direction::Horizontal => grid::Direction::Horizontal,
        Direction::Vertical => grid::Direction::Vertical,
    };
    let rules: Vec<grid::Constraint> = constraints.iter().map(|c| match c {
        Constraint::Percentage(p) => grid::Constraint::Percentage(*p),
        Constraint::Min(m) => grid::Constraint::Min(*m),
    }).collect();
    let whole = grid::Rect { x: area.x, y: area.y, width: area.width, height: area.height };
    grid::Layout::default().direction(along).vertical_margin(margin).constraints(rules).split(whole)
        .iter().map(|r| Rect { x: r.x, y: r.y, width: r.width, height: r.height }).collect()
}

/// The rules of a cut in three, as a list.
pub fn three_rules(first: u16, second: u16) -> (rules: Vec<Constraint>)
    ensures
        rules@ == rules_of(first, second),
{
    let mut rules: Vec<Constraint> = Vec::new();
    rules.push(Constraint::Percentage(first));
    rules.push(Constraint::Percentage(second));
    rules.push(Constraint::Min(0));
    assert(rules@ =~= rules_of(first, second));
    rules
}

/// A share of an extent is no more than the extent.
proof fn lemma_share_bounded(span: int, share: int)
    requires
        0 <= span,
        0 <= share <= 100,
    ensures
        0 <= span * share / 100 <= span,
{
    assert(0 <= span * share <= span * 100) by (nonlinear_arith)
        requires
            0 <= span,
            0 <= share <= 100,
    ;
}

/// Two shares rounded down make up their sum rounded down, or one less.
proof fn lemma_shares_meet(span: int, first: int, second: int)
    requires
        0 <= span,
        0 <= first,
        0 <= second,
    ensures
        span * first / 100 + span * second / 100 <= span * (first + second) / 100,
        span * (first + second) / 100 <= span * first / 100 + span * second / 100 + 1,
{
    assert(span * (first + second) == span * first + span * second) by (nonlinear_arith);
    assert(0 <= span * first && 0 <= span * second) by (nonlinear_arith)
        requires
            0 <= span,
            0 <= first,
            0 <= second,
    ;
}

fn strip_of(area: Rect, direction: Direction, start: u16, span: u16) -> (piece: Rect)
    ensures
        piece == area.strip(direction, start as int, span as int),
{
    match direction {
        Direction::Horizontal => Rect { x: start, y: area.y, width: span, height: area.height },
        Direction::Vertical => Rect { x: area.x, y: start, width: area.width, height: span },
    }
}

/// Cuts `area` in three along `direction`, by the two shares alone.
pub fn cut_by_rule(
    area: Rect,
    direction: Direction,
    first: u16,
    second: u16,
) -> (pieces: Vec<Rect>)
    requires
        area.on_screen(),
        first + second <= 100,
    ensures
        pieces@ == shares(area, direction, first, second),
{
    let (from, span): (u16, u16) = match direction {
        Direction::Horizontal => (area.x, area.width),
        Direction::Vertical => (area.y, area.height),
    };
    proof {
        lemma_share_bounded(span as int, first as int);
        lemma_share_bounded(span as int, second as int);
        lemma_share_bounded(span as int, first + second);
        assert(span * first <= span * 100 && span * second <= span * 100 && span * (first
            + second) <= span * 100) by (nonlinear_arith)
            requires
                0 <= span,
                0 <= first,
                0 <= second,
                first + second <= 100,
        ;
    }
    let wide: u32 = span as u32;
    let a: u16 = (wide * (first as u32) / 100) as u16;
    let b: u16 = (wide * (second as u32) / 100) as u16;
    let c: u16 = (wide * (first as u32 + second as u32) / 100) as u16;
    let mut pieces: Vec<Rect> = Vec::new();
    pieces.push(strip_of(area, direction, from, a));
    pieces.push(strip_of(area, direction, from + a, b));
    pieces.push(strip_of(area, direction, from + c, span - c));
    assert(pieces@ =~= shares(area, direction, first, second));
    pieces
}

/// Keeps `found` if it is the cut that the shares prescribe.
pub fn confirm(
    found: Vec<Rect>,
    area: Rect,
    direction: Direction,
    first: u16,
    second: u16,
) -> (kept: Option<Vec<Rect>>)
    requires
        area.on_screen(),
        first + second <= 100,
    ensures
        kept == if found@ == shares(area, direction, first, second) {
            Some(found)
        } else {
            None
        },
{
    let wanted = cut_by_rule(area, direction, first, second);
    if found.len() == 3 && found[0] == wanted[0] && found[1] == wanted[1] && found[2]
        == wanted[2] {
        assert(found@ =~= wanted@);
        Some(found)
    } else {
        None
    }
}

/// Asks the layout solver for the cut of `area`, less `margin` rows at its
/// top and bottom, and gives its answer where that is the cut that the shares
/// prescribe. Whether it is, the solver decides.
pub fn cut_by_solver(
    area: Rect,
    direction: Direction,
    margin: u16,
    first: u16,
    second: u16,
) -> (answer: Option<Vec<Rect>>)
    requires
        can_cut(area, direction, margin, first, second),
    ensures
        answer matches Some(pieces) ==> pieces@ == shares(
            area.shrunk(margin),
            direction,
            first,
            second,
        ),
{
    let rules = three_rules(first, second);
    assert forall|i: int| 0 <= i < rules.len() implies (#[trigger] rules[i]).scales_to(
        area.shrunk(margin).span(direction),
    ) by {
        let asked = rules_of(first, second);
        assert(rules[i] == asked[i]);
        assert(asked[0] == Constraint::Percentage(first));
        assert(asked[1] == Constraint::Percentage(second));
        assert(asked[2] == Constraint::Min(0));
    }
    let found = split(area, direction, margin, &rules);
    confirm(found, area.inner(margin), direction, first, second)
}

/// Cuts `area`, less `margin` rows at its top and bottom, in three along
/// `direction`. The layout solver is asked; where its answer is not the cut
/// that the shares prescribe, the prescribed cut is given in its place.
pub fn cut(
    area: Rect,
    direction: Direction,
    margin: u16,
    first: u16,
    second: u16,
) -> (pieces: Vec<Rect>)
    requires
        can_cut(area, direction, margin, first, second),
    ensures
        pieces@ == shares(area.shrunk(margin), direction, first, second),
{
    match cut_by_solver(area, direction, margin, first, second) {
        Some(found) => found,
        None => cut_by_rule(area.inner(margin), direction, first, second),
    }
}

/// The three pieces of a cut keep to the area and follow one another. None
/// reaches past an edge of the area; the first begins where the area begins
/// and the second where the first ends; the third begins where the second ends
/// or one cell later, and ends where the area ends. So the pieces extend,
/// taken together, over as many cells as the area, or over one less.
pub proof fn lemma_shares_keep_to_area(area: Rect, direction: Direction, first: u16, second: u16)
    requires
        area.on_screen(),
        first + second <= 100,
    ensures
        ({
            let pieces = shares(area, direction, first, second);
            &&& pieces[0].within(area) && pieces[1].within(area) && pieces[2].within(area)
            &&& pieces[0].start(direction) == area.start(direction)
            &&& pieces[1].start(direction) == pieces[0].end(direction)
            &&& pieces[1].end(direction) <= pieces[2].start(direction) <= pieces[1].end(direction)
                + 1
            &&& pieces[2].end(direction) == area.end(direction)
            &&& area.span(direction) - 1 <= pieces[0].span(direction) + pieces[1].span(direction)
                + pieces[2].span(direction) <= area.span(direction)
        }),
{
    let span = area.span(direction);
    lemma_share_bounded(span, first as int);
    lemma_share_bounded(span, second as int);
    lemma_share_bounded(span, first + second);
    lemma_shares_meet(span, first as int, second as int);
}

/// No cell belongs to two pieces of a cut.
pub proof fn lemma_shares_do_not_overlap(
    area: Rect,
    direction: Direction,
    first: u16,
    second: u16,
    cx: int,
    cy: int,
)
    requires
        area.on_screen(),
        first + second <= 100,
    ensures
        ({
            let pieces = shares(area, direction, first, second);
            &&& !(pieces[0].covers(cx, cy) && pieces[1].covers(cx, cy))
            &&& !(pieces[0].covers(cx, cy) && pieces[2].covers(cx, cy))
            &&& !(pieces[1].covers(cx, cy) && pieces[2].covers(cx, cy))
        }),
{
    lemma_shares_keep_to_area(area, direction, first, second);
}

} // verus!
