use postal::geom::camera_offset;
use postal::geom::screen_to_world_milli;
use postal::geom::tile_size_px;
use postal::geom::world_to_screen_px;
use postal::geom::Pos;
use postal::player::direction_from_keys;
use postal::player::step_vector;
use postal::player::Direction;

#[test]
fn tile_size_is_width_over_15() {
    assert_eq!(tile_size_px(800), 53);
    assert_eq!(tile_size_px(1600), 106);
    assert_eq!(tile_size_px(15), 1);
}

#[test]
fn world_to_screen_scales_by_width() {
    // 15 tiles span the whole surface width.
    assert_eq!(world_to_screen_px(15000, 800), 800);
    assert_eq!(world_to_screen_px(7500, 800), 400);
    assert_eq!(world_to_screen_px(-3000, 800), -160);
    assert_eq!(world_to_screen_px(0, 800), 0);
}

#[test]
fn screen_to_world_inverts_the_scale() {
    assert_eq!(screen_to_world_milli(800, 800), 15000);
    assert_eq!(screen_to_world_milli(400, 800), 7500);
    assert_eq!(screen_to_world_milli(-160, 800), -3000);
    assert_eq!(screen_to_world_milli(world_to_screen_px(9000, 800), 800), 9000);
}

#[test]
fn camera_stays_centered_in_the_middle() {
    assert_eq!(camera_offset(Pos { x: 10000, y: 10000 }, 800, 600), (0, 0));
    assert_eq!(camera_offset(Pos { x: 15000, y: 8000 }, 800, 600), (0, 0));
}

#[test]
fn camera_pans_at_the_edges() {
    // Near corner: the view corner sits at 500 - 7500 = -7000, one tile
    // past the allowance of -1000.
    assert_eq!(camera_offset(Pos { x: 500, y: 10000 }, 800, 600), (-6000, 0));
    // Far edge on x: corner at 29000 - 7500 = 21500, past 30000 - 15000.
    assert_eq!(camera_offset(Pos { x: 29000, y: 10000 }, 800, 600), (6500, 0));
    // Far edge on y at 800x600: the vertical center shift is 5625 and
    // 11250 milli-units of world are visible, so corner 19000 - 5625 =
    // 13375 exceeds 20000 - 11250 = 8750 by 4625.
    assert_eq!(camera_offset(Pos { x: 10000, y: 19000 }, 800, 600), (0, 4625));
}

#[test]
fn direction_from_flags() {
    assert_eq!(direction_from_keys(true, false, false, false), Some(Direction::Left));
    assert_eq!(direction_from_keys(false, true, false, false), Some(Direction::Right));
    assert_eq!(direction_from_keys(false, false, true, false), Some(Direction::Up));
    assert_eq!(direction_from_keys(false, false, false, true), Some(Direction::Down));
    assert_eq!(direction_from_keys(true, false, true, false), Some(Direction::UpLeft));
    assert_eq!(direction_from_keys(true, false, false, true), Some(Direction::DownLeft));
    assert_eq!(direction_from_keys(false, true, true, false), Some(Direction::UpRight));
    assert_eq!(direction_from_keys(false, true, false, true), Some(Direction::DownRight));
    // Opposing pairs cancel to the other axis, or to idle.
    assert_eq!(direction_from_keys(true, true, true, false), Some(Direction::Up));
    assert_eq!(direction_from_keys(true, true, false, false), None);
    assert_eq!(direction_from_keys(false, false, true, true), None);
    assert_eq!(direction_from_keys(true, true, true, true), None);
}

#[test]
fn step_vector_orthogonal_and_diagonal() {
    assert_eq!(step_vector(Direction::Right, 1000), (7000, 0));
    assert_eq!(step_vector(Direction::Up, 1000), (0, -7000));
    assert_eq!(step_vector(Direction::DownLeft, 1000), (-4900, 4900));
    // The 0.70 scaling truncates toward zero on odd amounts.
    assert_eq!(step_vector(Direction::UpRight, 1), (4, -4));
}
