use dungeon::character::{Character, Direction};
use dungeon::game::{Cell, Game, KeyEvent, State};
use dungeon::level::Level;
use dungeon::room::Room;
use dungeon::tile::{Color, Tile};

#[test]
fn level_new_dimensions_and_default_fill() {
    let l = Level::new(7, 3);
    assert_eq!(l.width, 7);
    assert_eq!(l.height, 3);
    assert_eq!(l.grid.len(), 21);
    for y in 0..3 {
        for x in 0..7 {
            assert_eq!(l.tile(x, y), Tile::Empty);
        }
    }
}

#[test]
fn carve_classifies_every_cell() {
    let mut l = Level::new(10, 8);
    let room = Room::new(2, 1, 5, 4);
    l.add_room_to_map(room);
    for y in 0..8usize {
        for x in 0..10usize {
            let inside = x >= 2 && x < 7 && y >= 1 && y < 5;
            let perimeter = inside && (x == 2 || x == 6 || y == 1 || y == 4);
            let expected = if perimeter {
                Tile::Wall
            } else if inside {
                Tile::Floor
            } else {
                Tile::Empty
            };
            assert_eq!(l.tile(x, y), expected, "cell ({}, {})", x, y);
        }
    }
}

#[test]
fn carve_leaves_outside_cells_unchanged() {
    let mut l = Level::new(9, 9);
    l.add_room_to_map(Room::new(1, 1, 4, 4));
    l.add_room_to_map(Room::new(6, 6, 3, 3));
    // The first room's cells are untouched by the second, disjoint carve.
    assert_eq!(l.tile(1, 1), Tile::Wall);
    assert_eq!(l.tile(2, 2), Tile::Floor);
    assert_eq!(l.tile(5, 5), Tile::Empty);
}

#[test]
fn thin_room_is_all_wall() {
    let mut l = Level::new(8, 8);
    l.add_room_to_map(Room::new(1, 1, 2, 5));
    for y in 1..6usize {
        for x in 1..3usize {
            assert_eq!(l.tile(x, y), Tile::Wall, "cell ({}, {})", x, y);
        }
    }
    let mut l2 = Level::new(8, 8);
    l2.add_room_to_map(Room::new(2, 3, 5, 1));
    for x in 2..7usize {
        assert_eq!(l2.tile(x, 3), Tile::Wall, "cell ({}, 3)", x);
    }
}

#[test]
fn overlapping_rooms_last_write_wins() {
    let mut l = Level::new(12, 12);
    let first = Room::new(1, 1, 6, 6);
    let second = Room::new(4, 4, 6, 6);
    l.add_room_to_map(first);
    l.add_room_to_map(second);
    // Every cell of the second room shows the second room's classification,
    // also where the first room wrote something else.
    for y in 4..10usize {
        for x in 4..10usize {
            let perimeter = x == 4 || x == 9 || y == 4 || y == 9;
            let expected = if perimeter { Tile::Wall } else { Tile::Floor };
            assert_eq!(l.tile(x, y), expected, "cell ({}, {})", x, y);
        }
    }
    // (4, 5) lay strictly inside the first room (Floor) but is on the
    // second room's perimeter, so it now holds Wall.
    assert_eq!(l.tile(4, 5), Tile::Wall);
}

#[test]
fn carve_order_matters_in_the_overlap() {
    let mut forward = Level::new(12, 12);
    forward.add_room_to_map(Room::new(1, 1, 6, 6));
    forward.add_room_to_map(Room::new(4, 4, 6, 6));
    let mut backward = Level::new(12, 12);
    backward.add_room_to_map(Room::new(4, 4, 6, 6));
    backward.add_room_to_map(Room::new(1, 1, 6, 6));
    // (4, 5): perimeter of the (4,4) room, interior of the (1,1) room.
    assert_eq!(forward.tile(4, 5), Tile::Wall);
    assert_eq!(backward.tile(4, 5), Tile::Floor);
}

#[test]
fn with_rooms_matches_sequential_carves() {
    let rooms = vec![
        Room::new(5, 2, 15, 10),
        Room::new(25, 8, 30, 10),
        Room::new(60, 12, 10, 8),
    ];
    let built = Level::with_rooms(70, 20, &rooms);
    let mut carved = Level::new(70, 20);
    for r in rooms {
        carved.add_room_to_map(r);
    }
    assert_eq!(built.grid.len(), carved.grid.len());
    for y in 0..20usize {
        for x in 0..70usize {
            assert_eq!(built.tile(x, y), carved.tile(x, y), "cell ({}, {})", x, y);
        }
    }
}

#[test]
fn try_add_room_rejects_out_of_bounds_and_leaves_grid_unchanged() {
    let mut l = Level::new(6, 6);
    l.add_room_to_map(Room::new(0, 0, 4, 4));
    let before: Vec<Tile> = l.grid.clone();
    assert!(!l.try_add_room_to_map(Room::new(3, 3, 4, 4)));
    assert!(!l.try_add_room_to_map(Room::new(0, 0, 7, 2)));
    assert!(!l.try_add_room_to_map(Room::new(2, 2, 0, 3)));
    assert!(!l.try_add_room_to_map(Room::new(2, 2, 3, 0)));
    assert_eq!(l.grid, before);
    assert!(l.try_add_room_to_map(Room::new(2, 2, 4, 4)));
    assert_eq!(l.tile(3, 3), Tile::Floor);
}

#[test]
fn get_tile_checks_bounds() {
    let mut l = Level::new(4, 3);
    l.add_room_to_map(Room::new(0, 0, 4, 3));
    assert_eq!(l.get_tile(1, 1), Some(Tile::Floor));
    assert_eq!(l.get_tile(0, 2), Some(Tile::Wall));
    assert_eq!(l.get_tile(4, 0), None);
    assert_eq!(l.get_tile(0, 3), None);
    assert_eq!(l.get_tile(100, 100), None);
}

#[test]
fn index_of_is_row_major() {
    let l = Level::new(7, 3);
    assert_eq!(l.index_of(0, 0), 0);
    assert_eq!(l.index_of(6, 0), 6);
    assert_eq!(l.index_of(0, 1), 7);
    assert_eq!(l.index_of(4, 2), 18);
}

#[test]
fn tile_draw_mapping() {
    assert_eq!(Tile::Empty.draw(), (' ', Color::Blue));
    assert_eq!(Tile::Floor.draw(), ('.', Color::Blue));
    assert_eq!(Tile::Wall.draw(), ('#', Color::Blue));
}

#[test]
fn tile_default_is_wall() {
    assert_eq!(Tile::default(), Tile::Wall);
}

#[test]
fn character_draw_is_its_glyph_and_color() {
    let c = Character::new(3, 4, '@', Color::Green);
    assert_eq!(c.draw(), ('@', Color::Green));
}

#[test]
fn up_then_down_returns_to_start() {
    let mut c = Character::new(5, 5, '@', Color::Green);
    c.go(Direction::Up);
    c.go(Direction::Down);
    assert_eq!((c.x, c.y), (5, 5));
    c.go(Direction::Down);
    c.go(Direction::Up);
    assert_eq!((c.x, c.y), (5, 5));
}

#[test]
fn left_then_right_returns_to_start() {
    let mut c = Character::new(5, 5, '@', Color::Green);
    c.go(Direction::Left);
    c.go(Direction::Right);
    assert_eq!((c.x, c.y), (5, 5));
    c.go(Direction::Right);
    c.go(Direction::Left);
    assert_eq!((c.x, c.y), (5, 5));
}

#[test]
fn right_right_down_from_origin() {
    let mut c = Character::new(0, 0, '@', Color::Green);
    c.go(Direction::Right);
    c.go(Direction::Right);
    c.go(Direction::Down);
    assert_eq!((c.x, c.y), (2, 1));
}

#[test]
fn try_go_blocks_at_every_boundary() {
    let mut c = Character::new(0, 0, '@', Color::Green);
    assert!(!c.try_go(Direction::Up, 3, 3));
    assert!(!c.try_go(Direction::Left, 3, 3));
    assert_eq!((c.x, c.y), (0, 0));
    assert!(c.try_go(Direction::Right, 3, 3));
    assert!(c.try_go(Direction::Right, 3, 3));
    assert!(!c.try_go(Direction::Right, 3, 3));
    assert!(c.try_go(Direction::Down, 3, 3));
    assert!(c.try_go(Direction::Down, 3, 3));
    assert!(!c.try_go(Direction::Down, 3, 3));
    assert_eq!((c.x, c.y), (2, 2));
}

#[test]
fn end_to_end_start_position_is_floor() {
    let mut level = Level::new(70, 20);
    level.add_room_to_map(Room::new(5, 2, 15, 10));
    assert_eq!(level.tile(16, 6), Tile::Floor);
    let player = Character::new(16, 6, '@', Color::Green);
    let game = Game::new(level, player);
    assert_eq!(game.level.tile(game.player.x, game.player.y), Tile::Floor);
}

#[test]
fn escape_always_terminates() {
    let level = Level::new(10, 10);
    let player = Character::new(4, 4, '@', Color::Green);
    let mut game = Game::new(level, player);
    assert_eq!(game.state, State::Running);
    assert!(game.is_running());
    game.handle_event(KeyEvent::ArrowRight);
    game.handle_event(KeyEvent::Other);
    assert_eq!(game.state, State::Running);
    game.handle_event(KeyEvent::Escape);
    assert_eq!(game.state, State::Terminated);
    assert!(!game.is_running());
}

#[test]
fn arrow_events_move_the_character_and_keep_running() {
    let level = Level::new(10, 10);
    let player = Character::new(4, 4, '@', Color::Green);
    let mut game = Game::new(level, player);
    game.handle_event(KeyEvent::ArrowRight);
    assert_eq!((game.player.x, game.player.y), (5, 4));
    game.handle_event(KeyEvent::ArrowDown);
    assert_eq!((game.player.x, game.player.y), (5, 5));
    game.handle_event(KeyEvent::ArrowLeft);
    assert_eq!((game.player.x, game.player.y), (4, 5));
    game.handle_event(KeyEvent::ArrowUp);
    assert_eq!((game.player.x, game.player.y), (4, 4));
    assert_eq!(game.state, State::Running);
}

#[test]
fn arrow_event_at_the_boundary_is_blocked() {
    let level = Level::new(3, 3);
    let player = Character::new(0, 0, '@', Color::Green);
    let mut game = Game::new(level, player);
    game.handle_event(KeyEvent::ArrowUp);
    game.handle_event(KeyEvent::ArrowLeft);
    assert_eq!((game.player.x, game.player.y), (0, 0));
    assert_eq!(game.state, State::Running);
}

#[test]
fn other_keys_change_nothing() {
    let level = Level::new(10, 10);
    let player = Character::new(4, 4, '@', Color::Green);
    let mut game = Game::new(level, player);
    game.handle_event(KeyEvent::Other);
    assert_eq!((game.player.x, game.player.y), (4, 4));
    assert_eq!(game.state, State::Running);
}

#[test]
fn frame_shows_terrain_and_character() {
    let mut level = Level::new(6, 4);
    level.add_room_to_map(Room::new(0, 0, 4, 4));
    let player = Character::new(1, 1, '@', Color::Green);
    let game = Game::new(level, player);
    let cells = game.frame();
    assert_eq!(cells.len(), 24);
    // The character is drawn over the terrain at its own position.
    assert_eq!(cells[1 + 6 * 1], Cell { glyph: '@', color: Color::Green });
    // Terrain everywhere else: wall perimeter, floor interior, empty outside.
    assert_eq!(cells[0], Cell { glyph: '#', color: Color::Blue });
    assert_eq!(cells[2 + 6 * 1], Cell { glyph: '.', color: Color::Blue });
    assert_eq!(cells[5 + 6 * 0], Cell { glyph: ' ', color: Color::Blue });
}

#[test]
fn frame_follows_movement() {
    let mut level = Level::new(5, 5);
    level.add_room_to_map(Room::new(0, 0, 5, 5));
    let player = Character::new(2, 2, '@', Color::Green);
    let mut game = Game::new(level, player);
    game.handle_event(KeyEvent::ArrowRight);
    let cells = game.frame();
    assert_eq!(cells[3 + 5 * 2], Cell { glyph: '@', color: Color::Green });
    assert_eq!(cells[2 + 5 * 2], Cell { glyph: '.', color: Color::Blue });
}
