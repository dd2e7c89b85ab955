use vstd::prelude::*;

verus! {

/// The state of a single grid cell. There are exactly two states: a cell is
/// never "unknown" or "out of bounds"; positions outside the grid are simply
/// excluded from neighbour counts.
#[derive(Clone, Copy, PartialEq, Eq, Structural, Debug)]
pub enum CellState {
    Alive,
    Dead,
}

impl Default for CellState {
    fn default() -> (r: Self)
        ensures
            r == CellState::Alive,
    {
        CellState::Alive
    }
}

impl CellState {
    /// A one-line textual form of the state.
    pub fn label(&self) -> (r: &'static str)
        ensures
            *self == CellState::Alive ==> r@ == "Alive\n"@,
            *self == CellState::Dead ==> r@ == "Dead\n"@,
    {
        match self {
            CellState::Alive => "Alive\n",
            CellState::Dead => "Dead\n",
        }
    }

    /// The glyph a renderer paints for this state: a visible mark for a live
    /// cell, a blank for a dead one.
    pub fn glyph(&self) -> (r: char)
        ensures
            r == (if *self == CellState::Alive { 'A' } else { ' ' }),
    {
        match self {
            CellState::Alive => 'A',
            CellState::Dead => ' ',
        }
    }
}

/// The transition rule, a function of a cell's previous state and its
/// live-neighbour count: a live cell survives on 2 or 3 live neighbours and
/// dies otherwise; a dead cell is born on exactly 3.
pub open spec fn next_state(s: CellState, alive_neighbours: nat) -> CellState {
    match s {
        CellState::Alive => if alive_neighbours == 2 || alive_neighbours == 3 {
            CellState::Alive
        } else {
            CellState::Dead
        },
        CellState::Dead => if alive_neighbours == 3 {
            CellState::Alive
        } else {
            CellState::Dead
        },
    }
}

/// Applies the transition rule to one cell, written out as the explicit rule
/// table keyed on (previous state, live-neighbour count).
pub fn advance_cell(s: CellState, alive_neighbours: u32) -> (r: CellState)
    ensures
        r == next_state(s, alive_neighbours as nat),
{
    match (s, alive_neighbours) {
        (CellState::Alive, 0) => CellState::Dead,
        (CellState::Alive, 1) => CellState::Dead,
        (CellState::Alive, 2) => CellState::Alive,
        (CellState::Alive, 3) => CellState::Alive,
        (CellState::Alive, _) => CellState::Dead,
        (CellState::Dead, 3) => CellState::Alive,
        (CellState::Dead, _) => CellState::Dead,
    }
}

/// The rule table is exhaustive: for every previous state and every
/// neighbour count a board can produce (0 through 8), the transition is the
/// one the table gives, row by row.
pub proof fn lemma_rule_table(s: CellState, n: nat)
    requires
        n <= 8,
    ensures
        s == CellState::Alive && n <= 1 ==> next_state(s, n) == CellState::Dead,
        s == CellState::Alive && n == 2 ==> next_state(s, n) == CellState::Alive,
        s == CellState::Alive && n == 3 ==> next_state(s, n) == CellState::Alive,
        s == CellState::Alive && n >= 4 ==> next_state(s, n) == CellState::Dead,
        s == CellState::Dead && n == 3 ==> next_state(s, n) == CellState::Alive,
        s == CellState::Dead && n != 3 ==> next_state(s, n) == CellState::Dead,
{
}

} // verus!
