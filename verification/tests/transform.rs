use defend_factory::game::Game;
use defend_factory::geom::{Position, Size};

fn game_with(camera: Position, viewport: Size) -> Game {
    let mut game = Game::new();
    game.camera_position = camera;
    game.screen_size = viewport;
    game
}

#[test]
fn viewport_center_maps_to_camera_column() {
    let game = game_with(Position::new(0, 0), Size { width: 800, height: 600 });
    let world = game.screen_to_world(&Position::new(400, 300));
    assert_eq!(world, Position::new(0, 600));
}

#[test]
fn top_left_click_maps_to_left_edge() {
    let game = game_with(Position::new(0, 0), Size { width: 800, height: 600 });
    let world = game.screen_to_world(&Position::new(0, 0));
    assert_eq!(world, Position::new(-400, 300));
}

#[test]
fn world_point_maps_back_to_its_pixel() {
    let game = game_with(Position::new(0, 0), Size { width: 800, height: 600 });
    let screen = game.world_to_screen(&Position::new(0, 600));
    assert_eq!(screen, Position::new(400, 300));
}

#[test]
fn world_to_screen_with_moved_camera() {
    let game = game_with(Position::new(3, 4), Size { width: 10, height: 10 });
    let screen = game.world_to_screen(&Position::new(0, 0));
    assert_eq!(screen, Position::new(2, -9));
}

#[test]
fn screen_round_trip_is_identity() {
    let game = game_with(Position::new(-25, 17), Size { width: 800, height: 600 });
    let points = [
        Position::new(0, 0),
        Position::new(400, 300),
        Position::new(799, 599),
        Position::new(13, 1),
    ];
    for p in points {
        let world = game.screen_to_world(&p);
        let back = game.world_to_screen(&world);
        assert_eq!(back, p);
    }
}

#[test]
fn world_round_trip_is_identity() {
    let game = game_with(Position::new(1000, -2000), Size { width: 640, height: 480 });
    let points = [
        Position::new(0, 0),
        Position::new(-5000, 9000),
        Position::new(123, -456),
    ];
    for p in points {
        let screen = game.world_to_screen(&p);
        let back = game.screen_to_world(&screen);
        assert_eq!(back, p);
    }
}

#[test]
fn odd_viewport_halves_truncate() {
    let game = game_with(Position::new(10, -7), Size { width: 801, height: 601 });
    let world = game.screen_to_world(&Position::new(5, 6));
    assert_eq!(world, Position::new(-385, 299));
    let back = game.world_to_screen(&world);
    assert_eq!(back, Position::new(5, 6));
}

#[test]
fn zero_viewport_leaves_point_at_camera_offset() {
    let game = game_with(Position::new(8, 9), Size { width: 0, height: 0 });
    let world = game.screen_to_world(&Position::new(1, 2));
    assert_eq!(world, Position::new(9, 11));
    let screen = game.world_to_screen(&Position::new(9, 11));
    assert_eq!(screen, Position::new(1, 2));
}
