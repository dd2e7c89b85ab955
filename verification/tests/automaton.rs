use game_of_life::cell::{advance_cell, CellState};
use game_of_life::grid::{count_alive_neighbours, update_game, CellArray, Gamestate};

/// A reference next-generation computation done entirely from a frozen
/// snapshot of the board, for comparison against `update_game`.
fn reference_step(cells: &CellArray) -> CellArray {
    let snapshot = cells.clone();
    let w = snapshot.len();
    let mut next: CellArray = Vec::new();
    for x in 0..w {
        let h = snapshot[x].len();
        let mut column = Vec::new();
        for y in 0..h {
            let mut alive = 0;
            for dx in -1i32..=1 {
                for dy in -1i32..=1 {
                    if dx == 0 && dy == 0 {
                        continue;
                    }
                    let nx = x as i32 + dx;
                    let ny = y as i32 + dy;
                    if nx < 0 || ny < 0 || nx >= w as i32 || ny >= h as i32 {
                        continue;
                    }
                    if snapshot[nx as usize][ny as usize] == CellState::Alive {
                        alive += 1;
                    }
                }
            }
            let s = match (snapshot[x][y], alive) {
                (CellState::Alive, 2) | (CellState::Alive, 3) => CellState::Alive,
                (CellState::Alive, _) => CellState::Dead,
                (CellState::Dead, 3) => CellState::Alive,
                (CellState::Dead, _) => CellState::Dead,
            };
            column.push(s);
        }
        next.push(column);
    }
    next
}

fn uniform_grid(w: usize, h: usize, s: CellState) -> CellArray {
    let mut cells: CellArray = Vec::new();
    for _ in 0..w {
        let mut column = Vec::new();
        for _ in 0..h {
            column.push(s);
        }
        cells.push(column);
    }
    cells
}

#[test]
fn rule_table_exhaustive() {
    for n in 0..=8u32 {
        let from_alive = advance_cell(CellState::Alive, n);
        let expected_alive = if n == 2 || n == 3 {
            CellState::Alive
        } else {
            CellState::Dead
        };
        assert_eq!(from_alive, expected_alive);

        let from_dead = advance_cell(CellState::Dead, n);
        let expected_dead = if n == 3 {
            CellState::Alive
        } else {
            CellState::Dead
        };
        assert_eq!(from_dead, expected_dead);
    }
}

#[test]
fn seed_pattern_scenario() {
    let state = Gamestate::new();
    assert_eq!(state.cells[49][49], CellState::Dead);
    assert_eq!(state.cells[0][0], CellState::Alive);
    assert_eq!(state.cells[10][49], CellState::Alive);
    assert_eq!(state.cells[30][49], CellState::Dead);
}

#[test]
fn seed_shape() {
    let state = Gamestate::new();
    assert_eq!(state.cells.len(), 50);
    for column in state.cells.iter() {
        assert_eq!(column.len(), 50);
    }
}

#[test]
fn seed_deterministic() {
    let a = Gamestate::new();
    let b = Gamestate::new();
    assert_eq!(a.cells, b.cells);
}

#[test]
fn advance_deterministic() {
    let mut a = Gamestate::new();
    let mut b = Gamestate::new();
    update_game(&mut a.cells);
    update_game(&mut b.cells);
    assert_eq!(a.cells, b.cells);
}

#[test]
fn boundary_counts_on_all_alive() {
    let cells = uniform_grid(50, 50, CellState::Alive);
    assert_eq!(count_alive_neighbours(&cells, 0, 0), 3);
    assert_eq!(count_alive_neighbours(&cells, 49, 0), 3);
    assert_eq!(count_alive_neighbours(&cells, 0, 49), 3);
    assert_eq!(count_alive_neighbours(&cells, 49, 49), 3);
    assert_eq!(count_alive_neighbours(&cells, 1, 0), 5);
    assert_eq!(count_alive_neighbours(&cells, 0, 7), 5);
    assert_eq!(count_alive_neighbours(&cells, 49, 23), 5);
    assert_eq!(count_alive_neighbours(&cells, 1, 1), 8);
    assert_eq!(count_alive_neighbours(&cells, 25, 25), 8);
}

#[test]
fn single_step_scenario() {
    let mut cells = uniform_grid(3, 3, CellState::Dead);
    cells[1][1] = CellState::Alive;
    update_game(&mut cells);
    for x in 0..3 {
        for y in 0..3 {
            assert_eq!(cells[x][y], CellState::Dead);
        }
    }
}

#[test]
fn blinker_oscillates() {
    let mut cells = uniform_grid(5, 5, CellState::Dead);
    cells[2][1] = CellState::Alive;
    cells[2][2] = CellState::Alive;
    cells[2][3] = CellState::Alive;
    update_game(&mut cells);
    let mut expected = uniform_grid(5, 5, CellState::Dead);
    expected[1][2] = CellState::Alive;
    expected[2][2] = CellState::Alive;
    expected[3][2] = CellState::Alive;
    assert_eq!(cells, expected);
    update_game(&mut cells);
    let mut back = uniform_grid(5, 5, CellState::Dead);
    back[2][1] = CellState::Alive;
    back[2][2] = CellState::Alive;
    back[2][3] = CellState::Alive;
    assert_eq!(cells, back);
}

#[test]
fn update_matches_frozen_snapshot_reference() {
    let mut state = Gamestate::new();
    let expected = reference_step(&state.cells);
    update_game(&mut state.cells);
    assert_eq!(state.cells, expected);
}

#[test]
fn update_matches_reference_on_all_alive() {
    let mut cells = uniform_grid(50, 50, CellState::Alive);
    let expected = reference_step(&cells);
    update_game(&mut cells);
    assert_eq!(cells, expected);
}

#[test]
fn all_alive_interior_dies_corner_survives() {
    let mut cells = uniform_grid(50, 50, CellState::Alive);
    update_game(&mut cells);
    // interior cells had 8 live neighbours: dead
    assert_eq!(cells[10][10], CellState::Dead);
    assert_eq!(cells[25][25], CellState::Dead);
    // corners had exactly 3: alive
    assert_eq!(cells[0][0], CellState::Alive);
    assert_eq!(cells[49][49], CellState::Alive);
    // a non-corner edge cell had 5: dead
    assert_eq!(cells[1][0], CellState::Dead);
}

#[test]
fn update_keeps_shape() {
    let mut state = Gamestate::new();
    update_game(&mut state.cells);
    assert_eq!(state.cells.len(), 50);
    for column in state.cells.iter() {
        assert_eq!(column.len(), 50);
    }
}

#[test]
fn cell_default_is_alive() {
    assert_eq!(CellState::default(), CellState::Alive);
}

#[test]
fn cell_labels() {
    assert_eq!(CellState::Alive.label(), "Alive\n");
    assert_eq!(CellState::Dead.label(), "Dead\n");
}

#[test]
fn cell_glyphs() {
    assert_eq!(CellState::Alive.glyph(), 'A');
    assert_eq!(CellState::Dead.glyph(), ' ');
}
