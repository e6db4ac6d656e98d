use embedded_graphics::geometry::{Point, Size};
use embedded_graphics::primitives::Rectangle;
use vrm_panel::geometry::{cell_area, translate_point, CELL_HEIGHT, CELL_WIDTH};
use vrm_panel::navigation::{Mode, Navigation};

#[test]
fn starts_browsing_top_left() {
    let nav = Navigation::default();
    assert_eq!(nav.get_position(), (0, 0));
    assert_eq!(*nav.get_mode(), Mode::Navigation);
    assert_eq!(Mode::default(), Mode::Navigation);
}

#[test]
fn moves_one_cell() {
    let mut nav = Navigation::default();
    nav.move_right();
    assert_eq!(nav.get_position(), (1, 0));
    nav.move_down();
    assert_eq!(nav.get_position(), (1, 1));
    nav.move_down();
    assert_eq!(nav.get_position(), (1, 2));
    nav.move_left();
    assert_eq!(nav.get_position(), (0, 2));
    nav.move_up();
    assert_eq!(nav.get_position(), (0, 1));
}

#[test]
fn stops_at_the_edges() {
    let mut nav = Navigation::default();
    nav.move_left();
    assert_eq!(nav.get_position(), (0, 0));
    nav.move_up();
    assert_eq!(nav.get_position(), (0, 0));
    nav.move_right();
    nav.move_right();
    assert_eq!(nav.get_position(), (1, 0));
    nav.move_down();
    nav.move_down();
    nav.move_down();
    assert_eq!(nav.get_position(), (1, 2));
}

#[test]
fn never_leaves_the_grid() {
    let mut nav = Navigation::default();
    let mut seed: u32 = 12345;
    for _ in 0..2000 {
        seed = seed.wrapping_mul(1_103_515_245).wrapping_add(12345);
        match (seed >> 16) % 4 {
            0 => nav.move_left(),
            1 => nav.move_right(),
            2 => nav.move_up(),
            _ => nav.move_down(),
        }
        let (x, y) = nav.get_position();
        assert!((0..2).contains(&x) && (0..3).contains(&y));
    }
}

#[test]
fn change_mode_toggles_on_the_upper_rows() {
    let mut nav = Navigation::default();
    nav.change_mode();
    assert_eq!(*nav.get_mode(), Mode::Update);
    nav.change_mode();
    assert_eq!(*nav.get_mode(), Mode::Navigation);
    nav.move_down();
    nav.change_mode();
    assert_eq!(*nav.get_mode(), Mode::Update);
    assert_eq!(nav.get_position(), (0, 1));
}

#[test]
fn change_mode_is_rejected_on_the_temperature_row() {
    let mut nav = Navigation::default();
    nav.move_down();
    nav.move_down();
    nav.change_mode();
    assert_eq!(*nav.get_mode(), Mode::Navigation);
    nav.move_right();
    nav.change_mode();
    assert_eq!(*nav.get_mode(), Mode::Navigation);
    assert_eq!(nav.get_position(), (1, 2));
}

#[test]
fn cells_start_at_their_pixels() {
    assert_eq!(translate_point((0, 0)), Point::new(27, 16));
    assert_eq!(translate_point((1, 0)), Point::new(81, 16));
    assert_eq!(translate_point((0, 1)), Point::new(27, 32));
    assert_eq!(translate_point((1, 2)), Point::new(81, 48));
}

#[test]
fn cursor_point_follows_the_cursor() {
    let mut nav = Navigation::default();
    assert_eq!(nav.get_point(), Point::new(27, 16));
    nav.move_right();
    nav.move_down();
    nav.move_down();
    assert_eq!(nav.get_point(), Point::new(81, 48));
}

#[test]
fn cells_cover_five_characters() {
    assert_eq!((CELL_WIDTH, CELL_HEIGHT), (45, 16));
    assert_eq!(
        cell_area(Point::new(81, 48)),
        Rectangle { top_left: Point { x: 81, y: 48 }, size: Size { width: 45, height: 16 } }
    );
    assert_eq!(
        cell_area(translate_point((0, 0))),
        Rectangle::new(Point::new(27, 16), Size::new(45, 16))
    );
}
