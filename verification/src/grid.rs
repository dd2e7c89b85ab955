use vstd::prelude::*;
use crate::cell::{CellState, next_state, advance_cell};

verus! {

/// Board width: the range of the first coordinate.
pub const CELL_WIDTH: usize = 50;

/// Board height: the range of the second coordinate.
pub const CELL_HEIGHT: usize = 50;

/// Dense two-dimensional cell storage, indexed as `cells[x][y]` with
/// `x` in `[0, width)` and `y` in `[0, height)`.
pub type CellArray = Vec<Vec<CellState>>;

/// The mathematical value of a board: a sequence of columns, each a sequence
/// of cell states.
pub open spec fn grid_view(cells: CellArray) -> Seq<Seq<CellState>> {
    Seq::new(cells@.len(), |x: int| cells@[x]@)
}

/// The height shared by every column of a well-formed board.
pub open spec fn grid_height(g: Seq<Seq<CellState>>) -> int {
    if g.len() == 0 {
        0
    } else {
        g[0].len() as int
    }
}

/// A board is well formed when it is rectangular: every column has the same
/// length. Every position then holds exactly one state; the board is dense,
/// never sparse.
pub open spec fn grid_wf(g: Seq<Seq<CellState>>) -> bool {
    forall|x: int| 0 <= x < g.len() ==> (#[trigger] g[x]).len() == grid_height(g)
}

/// Whether `(x, y)` lies on the board. Positions outside are excluded from
/// neighbour counts entirely, never treated as dead or alive: the board is
/// finite, not toroidal.
pub open spec fn in_bounds(g: Seq<Seq<CellState>>, x: int, y: int) -> bool {
    0 <= x < g.len() && 0 <= y < grid_height(g)
}

/// 1 when `(x, y)` is on the board and alive, 0 otherwise.
pub open spec fn alive_at(g: Seq<Seq<CellState>>, x: int, y: int) -> nat {
    if in_bounds(g, x, y) && g[x][y] == CellState::Alive {
        1
    } else {
        0
    }
}

/// The live-neighbour count of `(x, y)`: how many of the eight adjacent
/// positions are on the board and alive.
pub open spec fn neighbour_count(g: Seq<Seq<CellState>>, x: int, y: int) -> nat {
    (alive_at(g, x - 1, y - 1) + alive_at(g, x - 1, y) + alive_at(g, x - 1, y + 1)
        + alive_at(g, x, y - 1) + alive_at(g, x, y + 1)
        + alive_at(g, x + 1, y - 1) + alive_at(g, x + 1, y)
        + alive_at(g, x + 1, y + 1)) as nat
}

/// One full generation: `next` has the same shape as `prev`, and every cell
/// of `next` is the transition rule applied to that cell's previous state and
/// its live-neighbour count in `prev` — the previous generation alone, so
/// no write of the pass can influence another cell's count.
pub open spec fn stepped(prev: Seq<Seq<CellState>>, next: Seq<Seq<CellState>>) -> bool {
    &&& next.len() == prev.len()
    &&& forall|x: int| 0 <= x < prev.len() ==> (#[trigger] next[x]).len() == prev[x].len()
    &&& forall|x: int, y: int|
        in_bounds(prev, x, y) ==> #[trigger] next[x][y] == next_state(
            prev[x][y],
            neighbour_count(prev, x, y),
        )
}

/// The deterministic seed pattern: dead in the rectangular notch where
/// `x > width / 2` and `y > 5`, alive everywhere else.
pub open spec fn seed_state(x: int, y: int) -> CellState {
    if x > CELL_WIDTH as int / 2 && y > 5 {
        CellState::Dead
    } else {
        CellState::Alive
    }
}

/// A full-size board carrying the seed pattern in every cell.
pub open spec fn seeded_grid(g: Seq<Seq<CellState>>) -> bool {
    &&& g.len() == CELL_WIDTH
    &&& grid_height(g) == CELL_HEIGHT
    &&& grid_wf(g)
    &&& forall|x: int, y: int| in_bounds(g, x, y) ==> #[trigger] g[x][y] == seed_state(x, y)
}

/// The whole state of the automaton: one dense board of cells.
pub struct Gamestate {
    pub cells: CellArray,
}

impl Gamestate {
    /// Builds the initial board: width × height cells, each set by the seed
    /// pattern. Deterministic — no randomness, no external input — and it
    /// always succeeds.
    #[verifier::loop_isolation(false)]
    pub fn new() -> (state: Box<Gamestate>)
        ensures
            seeded_grid(grid_view(state.cells)),
    {
        let mut cells: CellArray = Vec::new();
        let mut x: usize = 0;
        while x < CELL_WIDTH
            invariant
                x <= CELL_WIDTH,
                cells@.len() == x,
                forall|i: int| 0 <= i < x ==> (#[trigger] cells@[i])@.len() == CELL_HEIGHT,
                forall|i: int, j: int|
                    0 <= i < x && 0 <= j < CELL_HEIGHT ==> #[trigger] cells@[i]@[j] == seed_state(
                        i,
                        j,
                    ),
            decreases CELL_WIDTH - x,
        {
            let mut column: Vec<CellState> = Vec::new();
            let mut y: usize = 0;
            while y < CELL_HEIGHT
                invariant
                    y <= CELL_HEIGHT,
                    column@.len() == y,
                    forall|j: int| 0 <= j < y ==> #[trigger] column@[j] == seed_state(x as int, j),
                decreases CELL_HEIGHT - y,
            {
                let s = if x > CELL_WIDTH / 2 && y > 5 {
                    CellState::Dead
                } else {
                    CellState::Alive
                };
                column.push(s);
                y += 1;
            }
            cells.push(column);
            x += 1;
        }
        let state = Box::new(Gamestate { cells });
        proof {
            let g = grid_view(state.cells);
            assert forall|x0: int, y0: int| in_bounds(g, x0, y0) implies #[trigger] g[x0][y0]
                == seed_state(x0, y0) by {
                assert(g[x0] == state.cells@[x0]@);
            }
        }
        state
    }
}

/// Counts the live neighbours of `(x, y)`: among the eight adjacent
/// positions, those on the board whose cell is alive. Off-board positions
/// are skipped, so a corner sees at most 3 and an edge cell at most 5.
#[verifier::rlimit(50)]
pub fn count_alive_neighbours(cells: &CellArray, x: usize, y: usize) -> (n: u32)
    requires
        grid_wf(grid_view(*cells)),
        (x as int) < grid_view(*cells).len(),
        (y as int) < grid_height(grid_view(*cells)),
    ensures
        n == neighbour_count(grid_view(*cells), x as int, y as int),
        n <= 8,
{
    let ghost g = grid_view(*cells);
    let w = cells.len();
    let h = cells[x].len();
    proof {
        assert(g[x as int] == cells@[x as int]@);
        assert(h == grid_height(g));
        assert forall|i: int| 0 <= i < cells@.len() implies (#[trigger] cells@[i])@.len() == h by {
            assert(g[i] == cells@[i]@);
        }
    }
    let mut n: u32 = 0;
    if x > 0 && y > 0 && cells[x - 1][y - 1] == CellState::Alive {
        n = n + 1;
    }
    if x > 0 && cells[x - 1][y] == CellState::Alive {
        n = n + 1;
    }
    if x > 0 && y + 1 < h && cells[x - 1][y + 1] == CellState::Alive {
        n = n + 1;
    }
    if y > 0 && cells[x][y - 1] == CellState::Alive {
        n = n + 1;
    }
    if y + 1 < h && cells[x][y + 1] == CellState::Alive {
        n = n + 1;
    }
    if x + 1 < w && y > 0 && cells[x + 1][y - 1] == CellState::Alive {
        n = n + 1;
    }
    if x + 1 < w && cells[x + 1][y] == CellState::Alive {
        n = n + 1;
    }
    if x + 1 < w && y + 1 < h && cells[x + 1][y + 1] == CellState::Alive {
        n = n + 1;
    }
    n
}

/// Advances the board one generation in place. Every cell of the new board
/// is the transition rule applied to the cell's previous state and its
/// live-neighbour count, both read from the previous generation alone: the
/// new generation is built in a separate buffer and installed only once every
/// cell has been computed, so no write is visible to any count of the same
/// pass. Always succeeds; the shape of the board is unchanged.
#[verifier::loop_isolation(false)]
pub fn update_game(cells: &mut CellArray)
    requires
        grid_wf(grid_view(*old(cells))),
    ensures
        stepped(grid_view(*old(cells)), grid_view(*final(cells))),
{
    let ghost g = grid_view(*cells);
    let w = cells.len();
    let mut next: CellArray = Vec::new();
    let mut x: usize = 0;
    while x < w
        invariant
            x <= w,
            next@.len() == x,
            forall|i: int| 0 <= i < x ==> (#[trigger] next@[i])@.len() == g[i].len(),
            forall|i: int, j: int|
                in_bounds(g, i, j) && i < x ==> #[trigger] next@[i]@[j] == next_state(
                    g[i][j],
                    neighbour_count(g, i, j),
                ),
        decreases w - x,
    {
        proof {
            assert(g[x as int] == cells@[x as int]@);
        }
        let h = cells[x].len();
        let mut column: Vec<CellState> = Vec::new();
        let mut y: usize = 0;
        while y < h
            invariant
                y <= h,
                x < w,
                column@.len() == y,
                forall|j: int|
                    0 <= j < y ==> #[trigger] column@[j] == next_state(
                        g[x as int][j],
                        neighbour_count(g, x as int, j),
                    ),
            decreases h - y,
        {
            let state = cells[x][y];
            let alive = count_alive_neighbours(cells, x, y);
            column.push(advance_cell(state, alive));
            y += 1;
        }
        next.push(column);
        x += 1;
    }
    *cells = next;
    proof {
        let ng = grid_view(*cells);
        assert forall|i: int| 0 <= i < g.len() implies (#[trigger] ng[i]).len() == g[i].len() by {
            assert(ng[i] == cells@[i]@);
        }
        assert forall|i: int, j: int| in_bounds(g, i, j) implies #[trigger] ng[i][j] == next_state(
            g[i][j],
            neighbour_count(g, i, j),
        ) by {
            assert(ng[i] == cells@[i]@);
        }
    }
}

/// Every cell of the board is alive.
pub open spec fn all_alive(g: Seq<Seq<CellState>>) -> bool {
    forall|x: int, y: int| in_bounds(g, x, y) ==> #[trigger] g[x][y] == CellState::Alive
}

/// Boundary policy, corner case: a corner cell has only 3 positions adjacent
/// to it on the board, so its live-neighbour count never exceeds 3, and on a
/// board that is alive everywhere (at least 2 wide and 2 high) it is
/// exactly 3 — never 8.
pub proof fn lemma_corner_neighbours(g: Seq<Seq<CellState>>)
    requires
        grid_wf(g),
    ensures
        neighbour_count(g, 0, 0) <= 3,
        g.len() >= 2 && grid_height(g) >= 2 && all_alive(g) ==> neighbour_count(g, 0, 0) == 3,
{
    assert(alive_at(g, -1, -1) == 0);
    assert(alive_at(g, -1, 0) == 0);
    assert(alive_at(g, -1, 1) == 0);
    assert(alive_at(g, 0, -1) == 0);
    assert(alive_at(g, 1, -1) == 0);
    if g.len() >= 2 && grid_height(g) >= 2 && all_alive(g) {
        assert(g[0][1] == CellState::Alive);
        assert(g[1][0] == CellState::Alive);
        assert(g[1][1] == CellState::Alive);
    }
}

/// Boundary policy, edge case: a cell on the bottom edge but not in a corner
/// has only 5 positions adjacent to it on the board, so its live-neighbour
/// count never exceeds 5, and on a board that is alive everywhere (at least
/// 2 high) it is exactly 5.
pub proof fn lemma_edge_neighbours(g: Seq<Seq<CellState>>, x: int)
    requires
        grid_wf(g),
        1 <= x < g.len() - 1,
    ensures
        neighbour_count(g, x, 0) <= 5,
        grid_height(g) >= 2 && all_alive(g) ==> neighbour_count(g, x, 0) == 5,
{
    assert(alive_at(g, x - 1, -1) == 0);
    assert(alive_at(g, x, -1) == 0);
    assert(alive_at(g, x + 1, -1) == 0);
    if grid_height(g) >= 2 && all_alive(g) {
        assert(g[x - 1][0] == CellState::Alive);
        assert(g[x - 1][1] == CellState::Alive);
        assert(g[x][1] == CellState::Alive);
        assert(g[x + 1][0] == CellState::Alive);
        assert(g[x + 1][1] == CellState::Alive);
    }
}

/// Seeding is deterministic: any two boards carrying the seed pattern are
/// equal, cell for cell and as whole values.
pub proof fn lemma_seed_deterministic(a: Seq<Seq<CellState>>, b: Seq<Seq<CellState>>)
    requires
        seeded_grid(a),
        seeded_grid(b),
    ensures
        a == b,
{
    assert forall|x: int| 0 <= x < a.len() implies a[x] =~= b[x] by {
        assert(a[x].len() == grid_height(a));
        assert(b[x].len() == grid_height(b));
        assert forall|y: int| 0 <= y < a[x].len() implies a[x][y] == b[x][y] by {
            assert(a[x][y] == seed_state(x, y));
            assert(b[x][y] == seed_state(x, y));
        }
    }
    assert(a =~~= b);
}

/// Advancing is a pure function of the previous board: any two boards that
/// both stand one step after the same previous board are equal.
pub proof fn lemma_advance_deterministic(
    prev: Seq<Seq<CellState>>,
    a: Seq<Seq<CellState>>,
    b: Seq<Seq<CellState>>,
)
    requires
        grid_wf(prev),
        stepped(prev, a),
        stepped(prev, b),
    ensures
        a == b,
{
    assert forall|x: int| 0 <= x < a.len() implies a[x] =~= b[x] by {
        assert(a[x].len() == prev[x].len());
        assert(b[x].len() == prev[x].len());
        assert(prev[x].len() == grid_height(prev));
        assert forall|y: int| 0 <= y < a[x].len() implies a[x][y] == b[x][y] by {
            assert(in_bounds(prev, x, y));
            assert(a[x][y] == next_state(prev[x][y], neighbour_count(prev, x, y)));
            assert(b[x][y] == next_state(prev[x][y], neighbour_count(prev, x, y)));
        }
    }
    assert(a =~~= b);
}

/// After one generation, a previously live cell is still alive only where it
/// had exactly 2 or 3 live neighbours in the previous board; in particular an
/// interior cell of an all-alive board (8 live neighbours) dies.
pub proof fn lemma_survivor_had_two_or_three(
    prev: Seq<Seq<CellState>>,
    next: Seq<Seq<CellState>>,
    x: int,
    y: int,
)
    requires
        grid_wf(prev),
        stepped(prev, next),
        in_bounds(prev, x, y),
        prev[x][y] == CellState::Alive,
        next[x][y] == CellState::Alive,
    ensures
        neighbour_count(prev, x, y) == 2 || neighbour_count(prev, x, y) == 3,
{
}

/// On a board that is alive everywhere, an interior cell — one with all 8
/// adjacent positions on the board — has exactly 8 live neighbours, and so
/// dies after one generation.
pub proof fn lemma_interior_dies(
    prev: Seq<Seq<CellState>>,
    next: Seq<Seq<CellState>>,
    x: int,
    y: int,
)
    requires
        grid_wf(prev),
        stepped(prev, next),
        all_alive(prev),
        1 <= x < prev.len() - 1,
        1 <= y < grid_height(prev) - 1,
    ensures
        neighbour_count(prev, x, y) == 8,
        next[x][y] == CellState::Dead,
{
    assert(prev[x - 1][y - 1] == CellState::Alive);
    assert(prev[x - 1][y] == CellState::Alive);
    assert(prev[x - 1][y + 1] == CellState::Alive);
    assert(prev[x][y - 1] == CellState::Alive);
    assert(prev[x][y + 1] == CellState::Alive);
    assert(prev[x + 1][y - 1] == CellState::Alive);
    assert(prev[x + 1][y] == CellState::Alive);
    assert(prev[x + 1][y + 1] == CellState::Alive);
    assert(prev[x][y] == CellState::Alive);
}

} // verus!
