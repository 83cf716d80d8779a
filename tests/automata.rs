use automata::torus::neighbours_indexes;
use automata::utils::{coords_to_index, index_to_coords};
use automata::world::{next_cell_state, State, World, WorldError};

fn states(world: &World) -> Vec<State> {
    let n = world.width() * world.height();
    (0..n).map(|i| world.cell_state(i).unwrap()).collect()
}

fn running(width: usize, height: usize, alive: &[usize]) -> World {
    let mut world = World::new(width, height).unwrap();
    for &i in alive {
        world.set_cell_state(i, State::ALIVE);
    }
    world.paused = false;
    world
}

#[test]
fn coords_and_index_round_trip() {
    assert_eq!(coords_to_index(3, 2, 5), 13);
    assert_eq!(coords_to_index(0, 0, 5), 0);
    assert_eq!(index_to_coords(13, 5), (3, 2));
    assert_eq!(index_to_coords(4, 5), (4, 0));
}

#[test]
fn new_grid_is_all_dead() {
    let world = World::new(4, 3).unwrap();
    assert_eq!(world.width(), 4);
    assert_eq!(world.height(), 3);
    assert!(world.paused);
    assert_eq!(states(&world), vec![State::DEAD; 12]);
    assert_eq!(world.cell_state(12), None);
}

#[test]
fn new_rejects_zero_dimensions() {
    assert!(matches!(World::new(0, 7), Err(WorldError::InvalidDimensions)));
    assert!(matches!(World::new(7, 0), Err(WorldError::InvalidDimensions)));
    assert!(matches!(World::new(0, 0), Err(WorldError::InvalidDimensions)));
}

#[test]
fn neighbours_wrap_around_edges() {
    // 4 columns, 3 rows.
    let west_edge = neighbours_indexes(coords_to_index(0, 1, 4), 4, 3);
    assert_eq!(west_edge[3], coords_to_index(3, 1, 4));
    let east_edge = neighbours_indexes(coords_to_index(3, 1, 4), 4, 3);
    assert_eq!(east_edge[4], coords_to_index(0, 1, 4));
    let north_edge = neighbours_indexes(coords_to_index(2, 0, 4), 4, 3);
    assert_eq!(north_edge[1], coords_to_index(2, 2, 4));
    let south_edge = neighbours_indexes(coords_to_index(2, 2, 4), 4, 3);
    assert_eq!(south_edge[6], coords_to_index(2, 0, 4));
}

#[test]
fn neighbours_of_corner_in_order() {
    // NW, N, NE, W, E, SW, S, SE of (0, 0) on a 4 by 3 grid.
    assert_eq!(neighbours_indexes(0, 4, 3), [11, 8, 9, 3, 1, 7, 4, 5]);
    // An inner cell.
    assert_eq!(neighbours_indexes(5, 4, 3), [0, 1, 2, 4, 6, 8, 9, 10]);
}

#[test]
fn paused_updates_change_nothing() {
    let mut world = running(5, 5, &[11, 12, 13, 0, 24]);
    world.set_cell_state(7, State::IMMUTABLE);
    world.paused = true;
    let before = states(&world);
    for _ in 0..5 {
        world.update();
    }
    assert_eq!(states(&world), before);
    assert!(world.paused);
}

#[test]
fn immutable_cell_survives_updates() {
    let mut world = running(5, 5, &[6, 7, 8, 11, 13, 16, 17, 18]);
    world.set_cell_state(12, State::IMMUTABLE);
    for _ in 0..6 {
        world.update();
        assert_eq!(world.cell_state(12), Some(State::IMMUTABLE));
    }
}

#[test]
fn out_of_range_index_is_ignored() {
    let mut world = running(3, 2, &[1, 4]);
    let before = states(&world);
    world.set_cell_state(6, State::ALIVE);
    world.set_cell_state(7, State::IMMUTABLE);
    world.set_cell_state(usize::MAX, State::DEAD);
    assert_eq!(states(&world), before);
}

#[test]
fn set_cell_state_overwrites_one_cell() {
    let mut world = World::new(3, 2).unwrap();
    world.set_cell_state(4, State::IMMUTABLE);
    world.set_cell_state(1, State::ALIVE);
    world.set_cell_state(1, State::DEAD);
    let mut want = vec![State::DEAD; 6];
    want[4] = State::IMMUTABLE;
    assert_eq!(states(&world), want);
}

#[test]
fn blinker_oscillates() {
    let horizontal = [
        coords_to_index(1, 2, 5),
        coords_to_index(2, 2, 5),
        coords_to_index(3, 2, 5),
    ];
    let vertical = [
        coords_to_index(2, 1, 5),
        coords_to_index(2, 2, 5),
        coords_to_index(2, 3, 5),
    ];
    let mut world = running(5, 5, &horizontal);

    world.update();
    for i in 0..25 {
        let want = if vertical.contains(&i) { State::ALIVE } else { State::DEAD };
        assert_eq!(world.cell_state(i), Some(want), "cell {i} after one update");
    }

    world.update();
    for i in 0..25 {
        let want = if horizontal.contains(&i) { State::ALIVE } else { State::DEAD };
        assert_eq!(world.cell_state(i), Some(want), "cell {i} after two updates");
    }
}

#[test]
fn rule_birth_stasis_and_death() {
    // Cell 12 is the centre of a 5 by 5 grid; 6, 7, 8 lie in the row above it.
    let dead = State::DEAD;
    let alive = State::ALIVE;

    let mut cells = vec![dead; 25];
    cells[6] = alive;
    cells[7] = alive;
    assert_eq!(next_cell_state(&cells, 5, 5, 12), dead, "two neighbours keep a dead cell dead");
    cells[12] = alive;
    assert_eq!(next_cell_state(&cells, 5, 5, 12), alive, "two neighbours keep a live cell alive");
    cells[8] = alive;
    assert_eq!(next_cell_state(&cells, 5, 5, 12), alive, "three neighbours keep it alive");
    cells[12] = dead;
    assert_eq!(next_cell_state(&cells, 5, 5, 12), alive, "three neighbours bring it to life");
    cells[11] = alive;
    assert_eq!(next_cell_state(&cells, 5, 5, 12), dead, "four neighbours kill it");
    cells[12] = alive;
    assert_eq!(next_cell_state(&cells, 5, 5, 12), dead, "overcrowding");
    cells[6] = dead;
    cells[7] = dead;
    cells[8] = dead;
    assert_eq!(next_cell_state(&cells, 5, 5, 12), dead, "loneliness");
    cells[12] = State::IMMUTABLE;
    assert_eq!(next_cell_state(&cells, 5, 5, 12), State::IMMUTABLE);
}

#[test]
fn immutable_neighbours_do_not_count_as_alive() {
    let mut world = running(5, 5, &[6, 7]);
    world.set_cell_state(8, State::IMMUTABLE);
    world.update();
    // Two live neighbours leave the dead centre dead.
    assert_eq!(world.cell_state(12), Some(State::DEAD));
}

#[test]
fn single_cell_grid_is_its_own_neighbourhood() {
    assert_eq!(neighbours_indexes(0, 1, 1), [0; 8]);
    let mut world = running(1, 1, &[0]);
    world.update();
    assert_eq!(world.cell_state(0), Some(State::DEAD));
}

#[test]
fn draw_writes_state_colours() {
    let mut world = World::new(2, 2).unwrap();
    world.set_cell_state(0, State::IMMUTABLE);
    world.set_cell_state(1, State::ALIVE);
    world.set_cell_state(2, State::DEAD);
    world.set_cell_state(3, State::ALIVE);
    let mut frame = vec![0u8; 16];
    assert_eq!(world.draw(&mut frame), Ok(()));
    assert_eq!(
        frame,
        vec![
            0xFF, 0x00, 0x4D, 0xFF, //
            0x1E, 0x1E, 0x1E, 0xFF, //
            0xF8, 0xF8, 0xF8, 0xF8, //
            0x1E, 0x1E, 0x1E, 0xFF,
        ]
    );
}

#[test]
fn draw_rejects_short_buffer_untouched() {
    let world = World::new(3, 2).unwrap();
    let mut frame = vec![7u8; 3 * 2 * 4 - 1];
    assert_eq!(world.draw(&mut frame), Err(WorldError::BufferSizeMismatch));
    assert_eq!(frame, vec![7u8; 23]);
}

#[test]
fn draw_rejects_long_buffer_untouched() {
    let world = World::new(3, 2).unwrap();
    let mut frame = vec![9u8; 25];
    assert_eq!(world.draw(&mut frame), Err(WorldError::BufferSizeMismatch));
    assert_eq!(frame, vec![9u8; 25]);
}
