use term_layout::geometry::Rect;
use term_layout::layout::{partition, Panels};
use term_layout::render::{assemble, render, FillStyle, RenderDirective, Rgb, HINT_LABEL};

const PINK: FillStyle = FillStyle::Flat(Rgb { red: 249, green: 168, blue: 186 });
const BLUE: FillStyle = FillStyle::Flat(Rgb { red: 95, green: 196, blue: 229 });
const OCHRE: FillStyle = FillStyle::Flat(Rgb { red: 210, green: 178, blue: 73 });

fn rect(x: u16, y: u16, width: u16, height: u16) -> Rect {
    Rect { x, y, width, height }
}

fn hints(list: &[RenderDirective]) -> usize {
    list.iter().filter(|d| matches!(d.style, FillStyle::Titled(_))).count()
}

#[test]
fn the_hint_reads_press_q_exit() {
    assert_eq!(HINT_LABEL, "Press <Q> exit");
}

#[test]
fn frame_of_80_by_24() {
    let list = render(rect(0, 0, 80, 24));
    assert_eq!(
        list,
        vec![
            RenderDirective { region: rect(4, 0, 24, 24), style: PINK },
            RenderDirective { region: rect(0, 1, 4, 2), style: BLUE },
            RenderDirective { region: rect(0, 3, 4, 2), style: OCHRE },
            RenderDirective { region: rect(28, 0, 52, 24), style: FillStyle::Titled("Press <Q> exit") },
        ]
    );
}

#[test]
fn frame_of_40_by_24() {
    let list = render(rect(0, 0, 40, 24));
    assert_eq!(
        list,
        vec![
            RenderDirective { region: rect(4, 0, 12, 24), style: PINK },
            RenderDirective { region: rect(0, 1, 4, 2), style: BLUE },
            RenderDirective { region: rect(0, 3, 4, 2), style: OCHRE },
        ]
    );
    assert_eq!(hints(&list), 0);
}

#[test]
fn frame_of_60_by_24() {
    let list = render(rect(0, 0, 60, 24));
    assert_eq!(
        list,
        vec![
            RenderDirective { region: rect(3, 0, 18, 24), style: PINK },
            RenderDirective { region: rect(0, 1, 3, 2), style: BLUE },
            RenderDirective { region: rect(0, 3, 3, 2), style: OCHRE },
        ]
    );
}

#[test]
fn no_hint_below_the_threshold() {
    for w in 0..60u16 {
        let list = render(rect(0, 0, w, 24));
        assert_eq!(list.len(), 3, "width {}", w);
        assert_eq!(hints(&list), 0, "width {}", w);
    }
}

#[test]
fn no_hint_at_the_threshold() {
    let list = render(rect(0, 0, 60, 24));
    assert_eq!(list.len(), 3);
    assert_eq!(hints(&list), 0);
    assert_eq!(list[0].region, rect(3, 0, 18, 24));
}

#[test]
fn one_hint_above_the_threshold() {
    for w in [61u16, 62, 79, 80, 120, 500, 2184] {
        let list = render(rect(0, 0, w, 24));
        assert_eq!(list.len(), 4, "width {}", w);
        assert_eq!(hints(&list), 1, "width {}", w);
        assert_eq!(list[3].style, FillStyle::Titled("Press <Q> exit"));
        assert_eq!(u32::from(list[3].region.x) + u32::from(list[3].region.width), u32::from(w));
    }
}

#[test]
fn fills_come_in_drawing_order() {
    for w in [0u16, 10, 59, 60, 61, 100] {
        let list = render(rect(2, 3, w, 30));
        assert_eq!(list[0].style, PINK);
        assert_eq!(list[1].style, BLUE);
        assert_eq!(list[2].style, OCHRE);
    }
}

#[test]
fn rendering_twice_gives_the_same_list() {
    for (w, h) in [(80u16, 24u16), (40, 24), (60, 24), (61, 3), (0, 0), (75, 33)] {
        let area = rect(0, 0, w, h);
        assert_eq!(render(area), render(area));
    }
}

#[test]
fn render_lists_the_regions_of_the_arrangement() {
    for (w, h) in [(80u16, 24u16), (40, 24), (60, 24), (61, 3), (0, 0), (75, 33)] {
        let area = rect(1, 1, w, h);
        assert_eq!(render(area), assemble(&partition(area)));
    }
}

#[test]
fn assemble_lists_the_regions_it_is_given() {
    let panels = Panels {
        left: rect(1, 2, 3, 4),
        middle: rect(5, 6, 7, 8),
        right: Some(rect(9, 10, 11, 12)),
        top_band: rect(13, 14, 15, 16),
        second_band: rect(17, 18, 19, 20),
        rest_band: rect(21, 22, 23, 24),
    };
    assert_eq!(
        assemble(&panels),
        vec![
            RenderDirective { region: rect(5, 6, 7, 8), style: PINK },
            RenderDirective { region: rect(13, 14, 15, 16), style: BLUE },
            RenderDirective { region: rect(17, 18, 19, 20), style: OCHRE },
            RenderDirective { region: rect(9, 10, 11, 12), style: FillStyle::Titled("Press <Q> exit") },
        ]
    );
    let without = Panels { right: None, ..panels };
    assert_eq!(
        assemble(&without),
        vec![
            RenderDirective { region: rect(5, 6, 7, 8), style: PINK },
            RenderDirective { region: rect(13, 14, 15, 16), style: BLUE },
            RenderDirective { region: rect(17, 18, 19, 20), style: OCHRE },
        ]
    );
}

#[test]
fn narrow_screens_draw_nothing_right_of_the_middle_column() {
    for w in 0..=60u16 {
        let list = render(rect(0, 0, w, 24));
        let share: u32 = if w < 60 { 10 } else { 5 };
        let edge = u32::from(w) * share / 100 + u32::from(w) * 30 / 100;
        for d in &list {
            assert!(u32::from(d.region.x) + u32::from(d.region.width) <= edge, "width {}", w);
        }
        assert_eq!(u32::from(list[0].region.x) + u32::from(list[0].region.width), edge);
    }
    let list = render(rect(0, 0, 40, 24));
    for d in &list {
        assert!(d.region.x + d.region.width <= 16);
    }
}
