use termdash::layout::{partition, Region, BODY_PERCENT, LOG_PERCENT, TABS_PERCENT};

#[test]
fn percentages_add_up() {
    assert_eq!(TABS_PERCENT, 10);
    assert_eq!(BODY_PERCENT, 80);
    assert_eq!(LOG_PERCENT, 10);
    assert_eq!(TABS_PERCENT + BODY_PERCENT + LOG_PERCENT, 100);
}

#[test]
fn bottom_is_top_plus_height() {
    let area = Region { x: 3, y: 5, width: 80, height: 24 };
    assert_eq!(area.bottom(), 29);
}

#[test]
fn bottom_stays_in_range() {
    let area = Region { x: 0, y: 65000, width: 1, height: 1000 };
    assert_eq!(area.bottom(), u16::MAX);
}

#[test]
fn splittable_up_to_the_overflow() {
    assert!(Region { x: 0, y: 0, width: 80, height: 24 }.splittable());
    assert!(Region { x: 0, y: 0, width: 80, height: 819 }.splittable());
    assert!(!Region { x: 0, y: 0, width: 80, height: 820 }.splittable());
    assert!(Region { x: 65455, y: 0, width: 80, height: 24 }.splittable());
    assert!(!Region { x: 65456, y: 0, width: 80, height: 24 }.splittable());
}

#[test]
fn partition_gives_three_rows_down_to_the_bottom() {
    let area = Region { x: 0, y: 0, width: 80, height: 24 };
    let rows = partition(area);
    assert_eq!(rows.len(), 3);
    assert_eq!(rows[2].y + rows[2].height, area.bottom());
    assert_ne!(rows[0], area);
}

#[test]
fn partition_of_twenty_lines() {
    let area = Region { x: 2, y: 1, width: 40, height: 20 };
    let rows = partition(area);
    assert_eq!(
        rows,
        vec![
            Region { x: 2, y: 1, width: 40, height: 2 },
            Region { x: 2, y: 3, width: 40, height: 16 },
            Region { x: 2, y: 19, width: 40, height: 2 },
        ]
    );
}

#[test]
fn partition_of_an_empty_screen() {
    let area = Region { x: 0, y: 0, width: 0, height: 0 };
    let rows = partition(area);
    assert_eq!(rows.len(), 3);
    assert_eq!(rows[2].y + rows[2].height, 0);
}

#[test]
fn partition_of_the_tallest_screen() {
    let area = Region { x: 0, y: 0, width: 10, height: 819 };
    let rows = partition(area);
    assert_eq!(rows.len(), 3);
    assert_eq!(rows[2].y + rows[2].height, 819);
}

#[test]
fn rows_stay_within_the_screen() {
    for height in [0u16, 1, 3, 7, 10, 24, 25, 33, 50, 101, 400, 819] {
        let area = Region { x: 5, y: 2, width: 37, height };
        let rows = partition(area);
        assert_eq!(rows.len(), 3);
        for row in &rows {
            assert!(row.x + row.width <= area.x + area.width, "height {}: {:?}", height, row);
            assert!(row.y + row.height <= area.bottom(), "height {}: {:?}", height, row);
        }
        assert!(rows[2].y <= area.bottom());
        assert_eq!(rows[2].y + rows[2].height, area.bottom());
    }
}

#[test]
fn last_row_ends_at_a_bottom_held_in_range() {
    let area = Region { x: 0, y: 65000, width: 4, height: 800 };
    let rows = partition(area);
    assert_eq!(rows.len(), 3);
    assert_eq!(area.bottom(), u16::MAX);
    assert_eq!(rows[2].y + rows[2].height, u16::MAX);
}
