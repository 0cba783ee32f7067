//! The cell grid and the Game-of-Life transition rule.
//!
//! Cells are stored row-major in a flat vector of fixed length
//! `WIDTH * HEIGHT`; the cell at column `x` and row `y` sits at index
//! `y * WIDTH + x`.

use vstd::prelude::*;

verus! {

/// Number of columns of every grid.
pub const WIDTH: usize = 38;

/// Number of rows of every grid.
pub const HEIGHT: usize = 30;

/// Total number of cells of every grid.
pub const CELL_COUNT: usize = WIDTH * HEIGHT;

/// A fixed-size matrix of boolean cells; `true` is a live cell.
pub struct Grid {
    /// Row-major cell storage of length `CELL_COUNT`.
    pub cells: Vec<bool>,
}

/// How a grid is (re)populated: a random walk placing a requested number of
/// live cells, or the fixed Gosper-glider-gun preset.
pub enum Pattern {
    Random(usize),
    GosperGliderGun,
}

/// True when `(x, y)` names a cell of the grid.
pub open spec fn in_bounds(x: int, y: int) -> bool {
    0 <= x < WIDTH && 0 <= y < HEIGHT
}

/// Flat index of the cell at column `x`, row `y`.
pub open spec fn cell_index(x: int, y: int) -> int {
    y * (WIDTH as int) + x
}

/// Value of the cell at `(x, y)`; out-of-bounds coordinates read as dead.
pub open spec fn cell_at(s: Seq<bool>, x: int, y: int) -> bool {
    in_bounds(x, y) && s[cell_index(x, y)]
}

impl View for Grid {
    type V = Seq<bool>;

    open spec fn view(&self) -> Seq<bool> {
        self.cells@
    }
}

impl Grid {
    /// The grid has exactly its fixed number of cells.
    pub open spec fn wf(&self) -> bool {
        self.cells@.len() == CELL_COUNT
    }

    /// Builds a grid populated from a pattern specification.
    pub fn new(pattern: Pattern) -> (grid: Grid)
        requires
            pattern.valid(),
        ensures
            grid.wf(),
            pattern_matches(pattern, grid@),
    {
        Grid { cells: generate_pattern(pattern) }
    }

    /// Replaces every cell with a freshly generated pattern.
    pub fn reset(&mut self, pattern: Pattern)
        requires
            pattern.valid(),
        ensures
            final(self).wf(),
            pattern_matches(pattern, final(self)@),
    {
        self.cells = generate_pattern(pattern);
    }

    /// An independent, cell-for-cell identical copy of the grid.
    pub fn duplicate(&self) -> (copy: Grid)
        ensures
            copy@ == self@,
    {
        let mut cells: Vec<bool> = Vec::new();
        let mut i: usize = 0;
        while i < self.cells.len()
            invariant
                i <= self.cells@.len(),
                cells@.len() == i,
                forall|j: int| 0 <= j < i ==> cells@[j] == self.cells@[j],
            decreases self.cells@.len() - i,
        {
            cells.push(self.cells[i]);
            i += 1;
        }
        proof {
            assert(cells@ =~= self.cells@);
        }
        Grid { cells }
    }

    /// Point query; callers must bound-check the coordinates.
    pub fn is_alive(&self, x: usize, y: usize) -> (alive: bool)
        requires
            self.wf(),
            x < WIDTH,
            y < HEIGHT,
        ensures
            alive == cell_at(self@, x as int, y as int),
    {
        self.cells[y * WIDTH + x]
    }

    /// Counts the live cells among the up-to-8 Moore neighbours of
    /// `(x, y)`; edge and corner cells simply have fewer neighbours.
    #[verifier::rlimit(50)]
    pub fn count_living_neighbours(&self, x: usize, y: usize) -> (count: u8)
        requires
            self.wf(),
            x < WIDTH,
            y < HEIGHT,
        ensures
            count as int == spec_living_neighbours(self@, x as int, y as int),
            count <= 8,
    {
        let is_on_left_edge = x == 0;
        let is_on_right_edge = x == WIDTH - 1;
        let is_on_top_edge = y == 0;
        let is_on_bottom_edge = y == HEIGHT - 1;
        let mut count: u8 = 0;

        if !is_on_left_edge {
            if self.is_alive(x - 1, y) {
                count += 1;
            }
            if !is_on_top_edge && self.is_alive(x - 1, y - 1) {
                count += 1;
            }
        }

        if !is_on_top_edge {
            if self.is_alive(x, y - 1) {
                count += 1;
            }
            if !is_on_right_edge && self.is_alive(x + 1, y - 1) {
                count += 1;
            }
        }

        if !is_on_right_edge {
            if self.is_alive(x + 1, y) {
                count += 1;
            }
            if !is_on_bottom_edge && self.is_alive(x + 1, y + 1) {
                count += 1;
            }
        }

        if !is_on_bottom_edge {
            if self.is_alive(x, y + 1) {
                count += 1;
            }
            if !is_on_left_edge && self.is_alive(x - 1, y + 1) {
                count += 1;
            }
        }

        count
    }

    /// Advances the whole grid by one generation and returns the number of
    /// cells whose state flipped. Every cell is computed from the frozen
    /// pre-step grid, so a neighbour count never reflects another cell's
    /// post-step value; a result of zero signals stasis.
    pub fn next_generation(&mut self) -> (updated_count: usize)
        requires
            old(self).wf(),
        ensures
            final(self).wf(),
            final(self)@ == spec_next_generation(old(self)@),
            updated_count as int == diff_count(old(self)@, final(self)@),
            updated_count <= CELL_COUNT,
    {
        let ghost s0 = self@;
        let mut new_cells: Vec<bool> = Vec::new();
        let mut updated_count: usize = 0;
        let mut i: usize = 0;
        while i < CELL_COUNT
            invariant
                self@ == s0,
                self.wf(),
                i <= CELL_COUNT,
                new_cells@.len() == i,
                forall|j: int|
                    0 <= j < i ==> new_cells@[j] == spec_next_cell(
                        s0,
                        j % (WIDTH as int),
                        j / (WIDTH as int),
                    ),
                updated_count as int == diff_count_upto(s0, new_cells@, i as int),
                updated_count <= i,
            decreases CELL_COUNT - i,
        {
            let x = i % WIDTH;
            let y = i / WIDTH;
            let alive = self.is_alive(x, y);
            let count = self.count_living_neighbours(x, y);
            let new_state = if alive {
                count == 2 || count == 3
            } else {
                count == 3
            };
            let ghost prefix = new_cells@;
            if new_state != alive {
                updated_count += 1;
            }
            new_cells.push(new_state);
            proof {
                lemma_diff_count_upto_prefix(s0, prefix, new_cells@, i as int);
                assert(cell_index(x as int, y as int) == i);
            }
            i += 1;
        }
        proof {
            assert(new_cells@ =~= spec_next_generation(s0));
        }
        self.cells = new_cells;
        updated_count
    }

    /// Flips one cell and reports whether the coordinates were in bounds;
    /// an out-of-bounds request is rejected and leaves the grid unchanged.
    pub fn toggle_cell(&mut self, x: usize, y: usize) -> (toggled: bool)
        requires
            old(self).wf(),
        ensures
            final(self).wf(),
            toggled == in_bounds(x as int, y as int),
            final(self)@ == spec_toggle(old(self)@, x as int, y as int),
    {
        if x >= WIDTH || y >= HEIGHT {
            false
        } else {
            let idx = y * WIDTH + x;
            let current = self.cells[idx];
            self.cells.set(idx, !current);
            true
        }
    }
}

/// Number of live cells among the up-to-8 Moore neighbours of `(x, y)`.
/// The boundary does not wrap: neighbours outside the grid count as dead.
pub open spec fn spec_living_neighbours(s: Seq<bool>, x: int, y: int) -> int {
    (if cell_at(s, x - 1, y - 1) { 1int } else { 0 })
        + (if cell_at(s, x, y - 1) { 1int } else { 0 })
        + (if cell_at(s, x + 1, y - 1) { 1int } else { 0 })
        + (if cell_at(s, x - 1, y) { 1int } else { 0 })
        + (if cell_at(s, x + 1, y) { 1int } else { 0 })
        + (if cell_at(s, x - 1, y + 1) { 1int } else { 0 })
        + (if cell_at(s, x, y + 1) { 1int } else { 0 })
        + (if cell_at(s, x + 1, y + 1) { 1int } else { 0 })
}

/// The classic transition rule for one cell, read entirely from the
/// pre-step grid `s`: a live cell survives with 2 or 3 live neighbours,
/// a dead cell is born with exactly 3.
pub open spec fn spec_next_cell(s: Seq<bool>, x: int, y: int) -> bool {
    if cell_at(s, x, y) {
        spec_living_neighbours(s, x, y) == 2 || spec_living_neighbours(s, x, y) == 3
    } else {
        spec_living_neighbours(s, x, y) == 3
    }
}

/// The whole grid after one generation: every cell computed from the
/// frozen pre-step grid `s`.
pub open spec fn spec_next_generation(s: Seq<bool>) -> Seq<bool> {
    Seq::new(s.len(), |i: int| spec_next_cell(s, i % (WIDTH as int), i / (WIDTH as int)))
}

/// Number of positions below `n` at which `a` and `b` differ.
pub open spec fn diff_count_upto(a: Seq<bool>, b: Seq<bool>, n: int) -> int
    decreases n,
{
    if n <= 0 {
        0
    } else {
        diff_count_upto(a, b, n - 1) + (if a[n - 1] != b[n - 1] { 1int } else { 0 })
    }
}

/// Number of positions at which `a` and `b` differ.
pub open spec fn diff_count(a: Seq<bool>, b: Seq<bool>) -> int {
    diff_count_upto(a, b, a.len() as int)
}

/// Number of live cells below position `n`.
pub open spec fn live_count_upto(s: Seq<bool>, n: int) -> int
    decreases n,
{
    if n <= 0 {
        0
    } else {
        live_count_upto(s, n - 1) + (if s[n - 1] { 1int } else { 0 })
    }
}

/// Number of live cells of the whole grid.
pub open spec fn live_count(s: Seq<bool>) -> int {
    live_count_upto(s, s.len() as int)
}

proof fn lemma_diff_count_upto_prefix(a: Seq<bool>, b1: Seq<bool>, b2: Seq<bool>, n: int)
    requires
        forall|j: int| 0 <= j < n ==> b1[j] == b2[j],
    ensures
        diff_count_upto(a, b1, n) == diff_count_upto(a, b2, n),
    decreases n,
{
    if n > 0 {
        lemma_diff_count_upto_prefix(a, b1, b2, n - 1);
    }
}

proof fn lemma_diff_count_upto_self(a: Seq<bool>, b: Seq<bool>, n: int)
    requires
        forall|j: int| 0 <= j < n ==> a[j] == b[j],
    ensures
        diff_count_upto(a, b, n) == 0,
    decreases n,
{
    if n > 0 {
        lemma_diff_count_upto_self(a, b, n - 1);
    }
}

/// The grid after a toggle of `(x, y)`: that one cell flipped when the
/// coordinates are in bounds, everything unchanged otherwise.
pub open spec fn spec_toggle(s: Seq<bool>, x: int, y: int) -> Seq<bool> {
    if in_bounds(x, y) {
        s.update(cell_index(x, y), !s[cell_index(x, y)])
    } else {
        s
    }
}

proof fn lemma_live_count_upto_prefix(s1: Seq<bool>, s2: Seq<bool>, n: int)
    requires
        forall|j: int| 0 <= j < n ==> s1[j] == s2[j],
    ensures
        live_count_upto(s1, n) == live_count_upto(s2, n),
    decreases n,
{
    if n > 0 {
        lemma_live_count_upto_prefix(s1, s2, n - 1);
    }
}

proof fn lemma_live_count_upto_all_dead(s: Seq<bool>, n: int)
    requires
        forall|j: int| 0 <= j < n ==> !s[j],
    ensures
        live_count_upto(s, n) == 0,
    decreases n,
{
    if n > 0 {
        lemma_live_count_upto_all_dead(s, n - 1);
    }
}

proof fn lemma_live_count_upto_all_live(s: Seq<bool>, n: int)
    requires
        0 <= n,
        forall|j: int| 0 <= j < n ==> s[j],
    ensures
        live_count_upto(s, n) == n,
    decreases n,
{
    if n > 0 {
        lemma_live_count_upto_all_live(s, n - 1);
    }
}

proof fn lemma_live_count_set_live(s: Seq<bool>, i: int, n: int)
    requires
        0 <= i < n <= s.len(),
        !s[i],
    ensures
        live_count_upto(s.update(i, true), n) == live_count_upto(s, n) + 1,
    decreases n,
{
    if n - 1 == i {
        lemma_live_count_upto_prefix(s, s.update(i, true), n - 1);
    } else {
        lemma_live_count_set_live(s, i, n - 1);
    }
}

/// Toggling a cell twice restores the original grid, whatever the
/// coordinates: an in-bounds toggle flips one cell back and forth, and an
/// out-of-bounds toggle never changes anything.
pub proof fn lemma_toggle_twice(s: Seq<bool>, x: int, y: int)
    requires
        s.len() == CELL_COUNT,
    ensures
        spec_toggle(spec_toggle(s, x, y), x, y) == s,
{
    if in_bounds(x, y) {
        assert(spec_toggle(spec_toggle(s, x, y), x, y) =~= s);
    }
}

/// A grid differs from itself in no cell.
pub proof fn lemma_diff_count_self(s: Seq<bool>)
    ensures
        diff_count(s, s) == 0,
{
    lemma_diff_count_upto_self(s, s, s.len() as int);
}

/// Stepping a grid with no live cells changes nothing: every cell stays
/// dead and the number of flipped cells is zero.
pub proof fn lemma_all_dead_stays_dead(s: Seq<bool>)
    requires
        s.len() == CELL_COUNT,
        forall|i: int| 0 <= i < s.len() ==> !s[i],
    ensures
        spec_next_generation(s) == s,
        diff_count(s, spec_next_generation(s)) == 0,
{
    assert(spec_next_generation(s) =~= s);
    lemma_diff_count_upto_self(s, spec_next_generation(s), s.len() as int);
}

impl Pattern {
    /// A random pattern must not ask for more live cells than the grid has.
    pub open spec fn valid(&self) -> bool {
        match *self {
            Pattern::Random(alive_count) => alive_count <= CELL_COUNT,
            Pattern::GosperGliderGun => true,
        }
    }

    /// Runtime test of `valid`, for callers that receive an unchecked count.
    pub fn is_valid(&self) -> (r: bool)
        ensures
            r == self.valid(),
    {
        match self {
            Pattern::Random(alive_count) => *alive_count <= CELL_COUNT,
            Pattern::GosperGliderGun => true,
        }
    }
}

/// What a freshly generated grid promises: a random pattern holds exactly
/// the requested number of live cells (where they sit depends on the random
/// draws); the preset holds exactly the glider-gun cells.
pub open spec fn pattern_matches(pattern: Pattern, s: Seq<bool>) -> bool {
    match pattern {
        Pattern::Random(alive_count) => live_count(s) == alive_count,
        Pattern::GosperGliderGun => forall|x: int, y: int|
            in_bounds(x, y) ==> s[cell_index(x, y)] == gun_alive(x, y),
    }
}

/// The 2x2 still-life block with top-left corner at `(x, y)`.
pub open spec fn block_at(x: int, y: int, cx: int, cy: int) -> bool {
    (cx == x || cx == x + 1) && (cy == y || cy == y + 1)
}

/// Left half of the glider gun, anchored at `(x, y)`.
pub open spec fn gun_left_at(x: int, y: int, cx: int, cy: int) -> bool {
    ||| (cy == y && (cx == x + 2 || cx == x + 3))
    ||| (cy == y + 1 && (cx == x + 1 || cx == x + 5))
    ||| (cy == y + 2 && (cx == x || cx == x + 6))
    ||| (cy == y + 3 && (cx == x || cx == x + 4 || cx == x + 6 || cx == x + 7))
    ||| (cy == y + 4 && (cx == x || cx == x + 6))
    ||| (cy == y + 5 && (cx == x + 1 || cx == x + 5))
    ||| (cy == y + 6 && (cx == x + 2 || cx == x + 3))
}

/// Right half of the glider gun, anchored at `(x, y)`.
pub open spec fn gun_right_at(x: int, y: int, cx: int, cy: int) -> bool {
    ||| (cy == y && cx == x + 4)
    ||| (cy == y + 1 && (cx == x + 2 || cx == x + 4))
    ||| (cy == y + 2 && (cx == x || cx == x + 1))
    ||| (cy == y + 3 && (cx == x || cx == x + 1))
    ||| (cy == y + 4 && (cx == x || cx == x + 1))
    ||| (cy == y + 5 && (cx == x + 2 || cx == x + 4))
    ||| (cy == y + 6 && cx == x + 4)
}

/// The full preset: an oscillating generator (two gun halves) plus two
/// stabilizer blocks, stamped at fixed anchor coordinates.
pub open spec fn gun_alive(cx: int, cy: int) -> bool {
    ||| block_at(1, 7, cx, cy)
    ||| gun_left_at(11, 5, cx, cy)
    ||| gun_right_at(21, 3, cx, cy)
    ||| block_at(35, 5, cx, cy)
}

/// Relies on rand::random::<bool>: one draw from the thread-local
/// generator; nothing is assumed of the value.
#[verifier::external_body]
fn random_bool() -> bool {
    rand::random::<bool>()
}

/// A grid's worth of dead cells.
fn all_dead_cells() -> (cells: Vec<bool>)
    ensures
        cells@.len() == CELL_COUNT,
        forall|j: int| 0 <= j < CELL_COUNT ==> !cells@[j],
{
    let mut cells: Vec<bool> = Vec::new();
    let mut i: usize = 0;
    while i < CELL_COUNT
        invariant
            i <= CELL_COUNT,
            cells@.len() == i,
            forall|j: int| 0 <= j < i ==> !cells@[j],
        decreases CELL_COUNT - i,
    {
        cells.push(false);
        i += 1;
    }
    cells
}

/// Stamps a 2x2 block whose top-left corner is `(x, y)`.
pub fn add_block(cells: &mut Vec<bool>, x: usize, y: usize)
    requires
        old(cells)@.len() == CELL_COUNT,
        x + 1 < WIDTH,
        y + 1 < HEIGHT,
    ensures
        final(cells)@.len() == CELL_COUNT,
        forall|cx: int, cy: int|
            in_bounds(cx, cy) ==> final(cells)@[cell_index(cx, cy)] == (block_at(
                x as int,
                y as int,
                cx,
                cy,
            ) || old(cells)@[cell_index(cx, cy)]),
{
    cells.set((y + 0) * WIDTH + (x + 0), true);
    cells.set((y + 0) * WIDTH + (x + 1), true);
    cells.set((y + 1) * WIDTH + (x + 0), true);
    cells.set((y + 1) * WIDTH + (x + 1), true);
}

/// Stamps the left half of the glider gun, anchored at `(x, y)`.
#[verifier::rlimit(50)]
pub fn add_gosper_glider_gun_1(cells: &mut Vec<bool>, x: usize, y: usize)
    requires
        old(cells)@.len() == CELL_COUNT,
        x + 7 < WIDTH,
        y + 6 < HEIGHT,
    ensures
        final(cells)@.len() == CELL_COUNT,
        forall|cx: int, cy: int|
            in_bounds(cx, cy) ==> final(cells)@[cell_index(cx, cy)] == (gun_left_at(
                x as int,
                y as int,
                cx,
                cy,
            ) || old(cells)@[cell_index(cx, cy)]),
{
    cells.set((y + 0) * WIDTH + (x + 2), true);
    cells.set((y + 0) * WIDTH + (x + 3), true);
    cells.set((y + 1) * WIDTH + (x + 1), true);
    cells.set((y + 1) * WIDTH + (x + 5), true);
    cells.set((y + 2) * WIDTH + (x + 0), true);
    cells.set((y + 2) * WIDTH + (x + 6), true);
    cells.set((y + 3) * WIDTH + (x + 0), true);
    cells.set((y + 3) * WIDTH + (x + 4), true);
    cells.set((y + 3) * WIDTH + (x + 6), true);
    cells.set((y + 3) * WIDTH + (x + 7), true);
    cells.set((y + 4) * WIDTH + (x + 0), true);
    cells.set((y + 4) * WIDTH + (x + 6), true);
    cells.set((y + 5) * WIDTH + (x + 1), true);
    cells.set((y + 5) * WIDTH + (x + 5), true);
    cells.set((y + 6) * WIDTH + (x + 2), true);
    cells.set((y + 6) * WIDTH + (x + 3), true);
}

/// Stamps the right half of the glider gun, anchored at `(x, y)`.
#[verifier::rlimit(50)]
pub fn add_gosper_glider_gun_2(cells: &mut Vec<bool>, x: usize, y: usize)
    requires
        old(cells)@.len() == CELL_COUNT,
        x + 4 < WIDTH,
        y + 6 < HEIGHT,
    ensures
        final(cells)@.len() == CELL_COUNT,
        forall|cx: int, cy: int|
            in_bounds(cx, cy) ==> final(cells)@[cell_index(cx, cy)] == (gun_right_at(
                x as int,
                y as int,
                cx,
                cy,
            ) || old(cells)@[cell_index(cx, cy)]),
{
    cells.set((y + 0) * WIDTH + (x + 4), true);
    cells.set((y + 1) * WIDTH + (x + 2), true);
    cells.set((y + 1) * WIDTH + (x + 4), true);
    cells.set((y + 2) * WIDTH + (x + 0), true);
    cells.set((y + 2) * WIDTH + (x + 1), true);
    cells.set((y + 3) * WIDTH + (x + 0), true);
    cells.set((y + 3) * WIDTH + (x + 1), true);
    cells.set((y + 4) * WIDTH + (x + 0), true);
    cells.set((y + 4) * WIDTH + (x + 1), true);
    cells.set((y + 5) * WIDTH + (x + 2), true);
    cells.set((y + 5) * WIDTH + (x + 4), true);
    cells.set((y + 6) * WIDTH + (x + 4), true);
}

/// The fixed preset: the glider gun and its two stabilizer blocks.
pub fn generate_gosper_glider_gun() -> (cells: Vec<bool>)
    ensures
        cells@.len() == CELL_COUNT,
        forall|cx: int, cy: int|
            in_bounds(cx, cy) ==> cells@[cell_index(cx, cy)] == gun_alive(cx, cy),
{
    let mut cells = all_dead_cells();
    add_block(&mut cells, 1, 7);
    add_gosper_glider_gun_1(&mut cells, 11, 5);
    add_gosper_glider_gun_2(&mut cells, WIDTH - 17, 3);
    add_block(&mut cells, WIDTH - 3, 5);
    cells
}

/// Index of some dead cell; one exists because the live count is below
/// the cell count.
fn find_free_cell(cells: &Vec<bool>) -> (idx: usize)
    requires
        cells@.len() == CELL_COUNT,
        live_count(cells@) < CELL_COUNT,
    ensures
        idx < CELL_COUNT,
        !cells@[idx as int],
{
    let mut j: usize = 0;
    while j < CELL_COUNT
        invariant
            cells@.len() == CELL_COUNT,
            live_count(cells@) < CELL_COUNT,
            j <= CELL_COUNT,
            forall|k: int| 0 <= k < j ==> cells@[k],
        decreases CELL_COUNT - j,
    {
        if !cells[j] {
            return j;
        }
        j += 1;
    }
    proof {
        lemma_live_count_upto_all_live(cells@, CELL_COUNT as int);
    }
    0
}

/// Places `alive_count` live cells by a self-avoiding random walk from the
/// grid center: each placement walks to neighbouring cells until it finds a
/// dead one (a walk that would leave the grid bounces back instead). A
/// placement whose walk finds no dead cell within a fixed number of tries
/// falls back to the first dead cell in row order, so the walk terminates
/// even on a nearly full grid.
fn generate_random(alive_count: usize) -> (cells: Vec<bool>)
    requires
        alive_count <= CELL_COUNT,
    ensures
        cells@.len() == CELL_COUNT,
        live_count(cells@) == alive_count,
{
    let mut cells = all_dead_cells();
    proof {
        lemma_live_count_upto_all_dead(cells@, CELL_COUNT as int);
    }
    let mut x: usize = WIDTH / 2;
    let mut y: usize = HEIGHT / 2;
    let mut placed: usize = 0;
    while placed < alive_count
        invariant
            cells@.len() == CELL_COUNT,
            live_count(cells@) == placed,
            placed <= alive_count <= CELL_COUNT,
            x < WIDTH,
            y < HEIGHT,
        decreases alive_count - placed,
    {
        let mut tries: usize = 0;
        let mut found = false;
        while tries < 64 && !found
            invariant
                cells@.len() == CELL_COUNT,
                x < WIDTH,
                y < HEIGHT,
                found ==> !cells@[cell_index(x as int, y as int)],
            decreases 64 - tries,
        {
            if placed % 2 == 0 {
                if random_bool() {
                    if x + 1 < WIDTH {
                        x = x + 1;
                    } else {
                        x = x - 1;
                    }
                } else {
                    if x > 0 {
                        x = x - 1;
                    } else {
                        x = x + 1;
                    }
                }
            } else {
                if random_bool() {
                    if y + 1 < HEIGHT {
                        y = y + 1;
                    } else {
                        y = y - 1;
                    }
                } else {
                    if y > 0 {
                        y = y - 1;
                    } else {
                        y = y + 1;
                    }
                }
            }
            if !cells[y * WIDTH + x] {
                found = true;
            }
            tries += 1;
        }
        let idx = if found {
            y * WIDTH + x
        } else {
            find_free_cell(&cells)
        };
        proof {
            lemma_live_count_set_live(cells@, idx as int, CELL_COUNT as int);
        }
        cells.set(idx, true);
        placed += 1;
    }
    cells
}

/// Populates a grid's cells from a pattern specification.
pub fn generate_pattern(pattern: Pattern) -> (cells: Vec<bool>)
    requires
        pattern.valid(),
    ensures
        cells@.len() == CELL_COUNT,
        pattern_matches(pattern, cells@),
{
    match pattern {
        Pattern::Random(alive_count) => generate_random(alive_count),
        Pattern::GosperGliderGun => generate_gosper_glider_gun(),
    }
}

} // verus!
