use hackertuah::layout::{
    centered_rect, centering_extents, inner_rows, main_extents, middle, palette_areas,
    screen_parts, Area, Extent,
};

fn area(x: u16, y: u16, width: u16, height: u16) -> Area {
    Area { x, y, width, height }
}

#[test]
fn centered_rect_takes_the_middle_of_the_area() {
    assert_eq!(centered_rect(50, 50, area(0, 0, 100, 100)), area(25, 25, 50, 50));
    assert_eq!(centered_rect(80, 60, area(0, 0, 100, 50)), area(10, 10, 80, 30));
    assert_eq!(centered_rect(60, 30, area(10, 20, 100, 100)), area(30, 55, 60, 30));
}

#[test]
fn centered_rect_of_the_whole_and_of_nothing() {
    assert_eq!(centered_rect(100, 100, area(3, 4, 80, 24)), area(3, 4, 80, 24));
    let none = centered_rect(0, 0, area(0, 0, 80, 24));
    assert_eq!(none.width, 0);
    assert_eq!(none.height, 0);
    assert_eq!(none.x, 40);
    assert_eq!(none.y, 12);
}

#[test]
fn centered_rect_of_an_empty_area_is_empty() {
    let r = centered_rect(50, 50, area(7, 9, 0, 0));
    assert_eq!(r, area(7, 9, 0, 0));
}

#[test]
fn centered_rect_stays_inside_the_area() {
    for (px, py) in [(10u16, 8u16), (15, 12), (80, 60), (60, 30), (33, 77)] {
        let outer = area(2, 1, 81, 25);
        let r = centered_rect(px, py, outer);
        assert!(r.x >= outer.x);
        assert!(r.y >= outer.y);
        assert!(r.x + r.width <= outer.x + outer.width);
        assert!(r.y + r.height <= outer.y + outer.height);
    }
}

#[test]
fn screen_parts_without_search() {
    let parts = screen_parts(area(0, 0, 80, 24), false);
    assert_eq!(
        parts,
        vec![area(0, 0, 80, 3), area(0, 3, 80, 3), area(0, 6, 80, 18), area(0, 24, 80, 0)]
    );
}

#[test]
fn screen_parts_with_search() {
    let parts = screen_parts(area(0, 0, 80, 24), true);
    assert_eq!(
        parts,
        vec![area(0, 0, 80, 3), area(0, 3, 80, 3), area(0, 6, 80, 15), area(0, 21, 80, 3)]
    );
}

#[test]
fn inner_rows_leave_out_the_border() {
    assert_eq!(inner_rows(area(0, 0, 80, 18)), 16);
    assert_eq!(inner_rows(area(0, 0, 80, 2)), 0);
    assert_eq!(inner_rows(area(0, 0, 80, 1)), 0);
    assert_eq!(inner_rows(area(0, 0, 80, 0)), 0);
    assert_eq!(inner_rows(area(0, 0, 1, u16::MAX)), 65533);
}

#[test]
fn middle_of_three() {
    let parts = vec![area(0, 0, 1, 1), area(1, 0, 2, 1), area(3, 0, 1, 1)];
    assert_eq!(middle(&parts), area(1, 0, 2, 1));
}

#[test]
fn palette_areas_split_off_the_search_line() {
    let (input, list) = palette_areas(area(16, 8, 48, 8));
    assert_eq!(input, area(16, 8, 48, 3));
    assert_eq!(list, area(16, 11, 48, 5));
    let (input, list) = palette_areas(area(0, 0, 10, 3));
    assert_eq!(input, area(0, 0, 10, 3));
    assert_eq!(list, area(0, 3, 10, 0));
}

#[test]
fn centering_extents_put_the_share_between_equal_margins() {
    assert_eq!(
        centering_extents(50),
        vec![Extent::Percentage(25), Extent::Percentage(50), Extent::Percentage(25)]
    );
    assert_eq!(
        centering_extents(15),
        vec![Extent::Percentage(42), Extent::Percentage(15), Extent::Percentage(42)]
    );
    assert_eq!(
        centering_extents(100),
        vec![Extent::Percentage(0), Extent::Percentage(100), Extent::Percentage(0)]
    );
    assert_eq!(
        centering_extents(0),
        vec![Extent::Percentage(50), Extent::Percentage(0), Extent::Percentage(50)]
    );
}

#[test]
fn main_extents_reserve_the_search_box_only_while_searching() {
    assert_eq!(
        main_extents(false),
        vec![Extent::Length(3), Extent::Length(3), Extent::Min(0), Extent::Length(0)]
    );
    assert_eq!(
        main_extents(true),
        vec![Extent::Length(3), Extent::Length(3), Extent::Min(0), Extent::Length(3)]
    );
}

#[test]
fn screen_parts_span_the_screen_and_stay_inside() {
    for height in [0u16, 1, 5, 8, 9, 24, 200] {
        for searching in [false, true] {
            let screen = area(4, 2, 77, height);
            let parts = screen_parts(screen, searching);
            assert_eq!(parts.len(), 4);
            for p in parts.iter() {
                assert_eq!(p.x, 4);
                assert_eq!(p.width, 77);
                assert!(p.y >= 2);
                assert!(p.y + p.height <= 2 + height);
            }
        }
    }
}
