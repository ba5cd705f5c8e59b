//! The minesweeper board: which cells hold mines, what each cell shows, and the
//! requests that draw it from the sprite sheet.
use vstd::prelude::*;
use rand::Rng;
use crate::requests::{copy_area_bytes, x11_copy_area};
use crate::wire::push_all;

verus! {

/// Cells per row.
pub const ENTITIES_COLUMN_COUNT: u16 = 16;
/// Rows of the board.
pub const ENTITIES_ROW_COUNT: u16 = 16;
/// Width of a cell in pixels.
pub const ENTITIES_WIDTH: u16 = 16;
/// Height of a cell in pixels.
pub const ENTITIES_HEIGHT: u16 = 16;
/// Number of cells on the board.
pub const CELL_COUNT: usize = 256;
/// A cell holds a mine with odds of one in this many.
pub const MINE_ODDS: u32 = 10;

/// What a cell shows.
#[derive(Clone, Copy, Debug, PartialEq, Eq, Structural)]
pub enum EntityKind {
    Covered,
    Flagged,
    Uncovered0,
    Uncovered1,
    Uncovered2,
    Uncovered3,
    Uncovered4,
    Uncovered5,
    Uncovered6,
    Uncovered7,
    Uncovered8,
    MineExploded,
    MineIdle,
}

/// Where a game stands.
#[derive(Clone, Copy, Debug, PartialEq, Eq, Structural)]
pub enum SceneState {
    Uninitialized,
    Initializing,
    Ready,
    Won,
    Lost,
}

/// A point in pixels.
#[derive(Clone, Copy, Debug, PartialEq, Eq, Structural)]
pub struct Position {
    pub x: u16,
    pub y: u16,
}

/// Where each kind of cell is drawn from in the sprite sheet.
pub open spec fn asset_position(kind: EntityKind) -> Position {
    match kind {
        EntityKind::Uncovered0 => Position { x: 0, y: 22 },
        EntityKind::Uncovered1 => Position { x: 16, y: 22 },
        EntityKind::Uncovered2 => Position { x: 32, y: 22 },
        EntityKind::Uncovered3 => Position { x: 48, y: 22 },
        EntityKind::Uncovered4 => Position { x: 64, y: 22 },
        EntityKind::Uncovered5 => Position { x: 80, y: 22 },
        EntityKind::Uncovered6 => Position { x: 96, y: 22 },
        EntityKind::Uncovered7 => Position { x: 112, y: 22 },
        EntityKind::Uncovered8 => Position { x: 128, y: 22 },
        EntityKind::Covered => Position { x: 0, y: 38 },
        EntityKind::Flagged => Position { x: 16, y: 38 },
        EntityKind::MineExploded => Position { x: 32, y: 40 },
        EntityKind::MineIdle => Position { x: 64, y: 40 },
    }
}

/// The sprite-sheet position of `kind`.
pub fn get_asset_coordinates(kind: EntityKind) -> (r: Position)
    ensures
        r == asset_position(kind),
{
    match kind {
        EntityKind::Uncovered0 => Position { x: 0 * 16, y: 22 },
        EntityKind::Uncovered1 => Position { x: 1 * 16, y: 22 },
        EntityKind::Uncovered2 => Position { x: 2 * 16, y: 22 },
        EntityKind::Uncovered3 => Position { x: 3 * 16, y: 22 },
        EntityKind::Uncovered4 => Position { x: 4 * 16, y: 22 },
        EntityKind::Uncovered5 => Position { x: 5 * 16, y: 22 },
        EntityKind::Uncovered6 => Position { x: 6 * 16, y: 22 },
        EntityKind::Uncovered7 => Position { x: 7 * 16, y: 22 },
        EntityKind::Uncovered8 => Position { x: 8 * 16, y: 22 },
        EntityKind::Covered => Position { x: 0, y: 38 },
        EntityKind::Flagged => Position { x: 16, y: 38 },
        EntityKind::MineExploded => Position { x: 32, y: 40 },
        EntityKind::MineIdle => Position { x: 64, y: 40 },
    }
}

/// Whether (`row`, `column`) lies on the board.
pub open spec fn in_grid(row: int, column: int) -> bool {
    0 <= row < ENTITIES_ROW_COUNT && 0 <= column < ENTITIES_COLUMN_COUNT
}

/// The index of cell (`row`, `column`), row by row.
pub open spec fn cell_index(row: int, column: int) -> int {
    row * ENTITIES_COLUMN_COUNT + column
}

/// One if (`row`, `column`) is on the board and holds a mine, else zero.
pub open spec fn mine_at(mines: Seq<bool>, row: int, column: int) -> int {
    if in_grid(row, column) && mines[cell_index(row, column)] {
        1
    } else {
        0
    }
}

/// The number of mines among the up to eight cells around (`row`, `column`).
pub open spec fn mines_around(mines: Seq<bool>, row: int, column: int) -> int {
    mine_at(mines, row - 1, column - 1) + mine_at(mines, row - 1, column) + mine_at(
        mines,
        row - 1,
        column + 1,
    ) + mine_at(mines, row, column - 1) + mine_at(mines, row, column + 1) + mine_at(
        mines,
        row + 1,
        column - 1,
    ) + mine_at(mines, row + 1, column) + mine_at(mines, row + 1, column + 1)
}

/// What an uncovered cell shows when `n` mines surround it.
pub open spec fn uncovered_kind(n: int) -> EntityKind {
    if n <= 0 {
        EntityKind::Uncovered0
    } else if n == 1 {
        EntityKind::Uncovered1
    } else if n == 2 {
        EntityKind::Uncovered2
    } else if n == 3 {
        EntityKind::Uncovered3
    } else if n == 4 {
        EntityKind::Uncovered4
    } else if n == 5 {
        EntityKind::Uncovered5
    } else if n == 6 {
        EntityKind::Uncovered6
    } else if n == 7 {
        EntityKind::Uncovered7
    } else {
        EntityKind::Uncovered8
    }
}

/// What cell `i` shows once uncovered.
pub open spec fn revealed_kind(mines: Seq<bool>, i: int) -> EntityKind {
    uncovered_kind(
        mines_around(mines, i / ENTITIES_COLUMN_COUNT as int, i % ENTITIES_COLUMN_COUNT as int),
    )
}

fn uncovered(n: u8) -> (r: EntityKind)
    requires
        n <= 8,
    ensures
        r == uncovered_kind(n as int),
{
    match n {
        0 => EntityKind::Uncovered0,
        1 => EntityKind::Uncovered1,
        2 => EntityKind::Uncovered2,
        3 => EntityKind::Uncovered3,
        4 => EntityKind::Uncovered4,
        5 => EntityKind::Uncovered5,
        6 => EntityKind::Uncovered6,
        7 => EntityKind::Uncovered7,
        _ => EntityKind::Uncovered8,
    }
}

/// The row and the column of cell `idx`.
pub fn idx_to_row_column(idx: u16) -> (r: (u16, u16))
    ensures
        r.0 == idx / ENTITIES_COLUMN_COUNT,
        r.1 == idx % ENTITIES_COLUMN_COUNT,
{
    let row = idx / ENTITIES_COLUMN_COUNT;
    let column = idx % ENTITIES_COLUMN_COUNT;
    (row, column)
}

/// Relies on rand's `Rng::gen_ratio` on the thread-local generator: `true`
/// with odds `numerator` in `denominator`; it panics when `denominator` is
/// zero or below `numerator`.
#[verifier::external_body]
fn random_ratio(numerator: u32, denominator: u32) -> (r: bool)
    requires
        0 < denominator,
        numerator <= denominator,
{
    rand::thread_rng().gen_ratio(numerator, denominator)
}

/// The board: the mines, what each cell shows, and the server resources it is
/// drawn with.
#[derive(Debug)]
pub struct Scene {
    pub state: SceneState,
    pub window_id: u32,
    pub gc_id: u32,
    pub sprite_pixmap_id: u32,
    pub displayed_entities: Vec<EntityKind>,
    pub mines: Vec<bool>,
}

/// The bytes that draw cells `0..n` of a board, each a copy of its sprite
/// into its place in the window.
pub open spec fn render_bytes(s: &Scene, n: int) -> Seq<u8>
    decreases n,
{
    if n <= 0 {
        Seq::empty()
    } else {
        let pos = asset_position(s.displayed_entities@[n - 1]);
        render_bytes(s, n - 1) + copy_area_bytes(
            s.sprite_pixmap_id,
            s.window_id,
            s.gc_id,
            pos.x,
            pos.y,
            (((n - 1) % ENTITIES_COLUMN_COUNT as int) * ENTITIES_WIDTH) as u16,
            (((n - 1) / ENTITIES_COLUMN_COUNT as int) * ENTITIES_HEIGHT) as u16,
            ENTITIES_WIDTH,
            ENTITIES_HEIGHT,
        )
    }
}

/// The number of cells among `0..n` that are covered and hold no mine.
pub open spec fn goals_in(shown: Seq<EntityKind>, mines: Seq<bool>, n: int) -> int
    decreases n,
{
    if n <= 0 {
        0
    } else {
        goals_in(shown, mines, n - 1) + if shown[n - 1] == EntityKind::Covered && !mines[n - 1] {
            1int
        } else {
            0int
        }
    }
}

/// What cell `i` shows once the whole board is uncovered, mines shown as `mine_type`.
pub open spec fn fully_uncovered(
    shown: Seq<EntityKind>,
    mines: Seq<bool>,
    i: int,
    mine_type: EntityKind,
) -> EntityKind {
    if mines[i] {
        mine_type
    } else if shown[i] == EntityKind::Covered {
        revealed_kind(mines, i)
    } else {
        shown[i]
    }
}

/// The number of covered cells among `0..n`.
pub open spec fn covered_in(shown: Seq<EntityKind>, n: int) -> int
    decreases n,
{
    if n <= 0 {
        0
    } else {
        covered_in(shown, n - 1) + if shown[n - 1] == EntityKind::Covered {
            1int
        } else {
            0int
        }
    }
}

/// `after` differs from `before` only in covered cells without a mine, each
/// of which now shows the number of mines around it.
#[verifier::opaque]
pub open spec fn reveal_only(before: Seq<EntityKind>, after: Seq<EntityKind>, mines: Seq<bool>) -> bool {
    &&& after.len() == before.len()
    &&& forall|i: int|
        0 <= i < CELL_COUNT ==> #[trigger] after[i] == before[i] || (before[i]
            == EntityKind::Covered && !mines[i] && after[i] == revealed_kind(mines, i))
}

/// Cell (`row`, `column`) is off the board or not covered.
pub open spec fn open_at(shown: Seq<EntityKind>, row: int, column: int) -> bool {
    in_grid(row, column) ==> shown[cell_index(row, column)] != EntityKind::Covered
}

/// None of the cells around (`row`, `column`) is covered.
pub open spec fn neighbors_open(shown: Seq<EntityKind>, row: int, column: int) -> bool {
    &&& open_at(shown, row - 1, column - 1)
    &&& open_at(shown, row - 1, column)
    &&& open_at(shown, row - 1, column + 1)
    &&& open_at(shown, row, column - 1)
    &&& open_at(shown, row, column + 1)
    &&& open_at(shown, row + 1, column - 1)
    &&& open_at(shown, row + 1, column)
    &&& open_at(shown, row + 1, column + 1)
}

/// Every cell uncovered between `before` and `after`, other than `except`, that
/// has no mine around it has no covered cell around it either.
#[verifier::opaque]
pub open spec fn zero_closed_except(
    before: Seq<EntityKind>,
    after: Seq<EntityKind>,
    except: int,
) -> bool {
    forall|i: int|
        0 <= i < CELL_COUNT && i != except && #[trigger] after[i] != before[i] && after[i]
            == EntityKind::Uncovered0 ==> neighbors_open(
            after,
            i / ENTITIES_COLUMN_COUNT as int,
            i % ENTITIES_COLUMN_COUNT as int,
        )
}

/// Cells `i` and `j` are distinct and touch, by a side or a corner.
pub open spec fn adjacent(i: int, j: int) -> bool {
    &&& i != j
    &&& -1 <= i / ENTITIES_COLUMN_COUNT as int - j / ENTITIES_COLUMN_COUNT as int <= 1
    &&& -1 <= i % ENTITIES_COLUMN_COUNT as int - j % ENTITIES_COLUMN_COUNT as int <= 1
}

/// Cell `i` touches a cell uncovered between `before` and `after`, of lower
/// rank, that has no mine around it.
pub open spec fn touches_lower_zero(
    before: Seq<EntityKind>,
    after: Seq<EntityKind>,
    rank: Seq<int>,
    i: int,
) -> bool {
    exists|j: int|
        0 <= j < CELL_COUNT && #[trigger] adjacent(i, j) && after[j] != before[j] && after[j]
            == EntityKind::Uncovered0 && rank[j] < rank[i]
}

/// Under `rank`, every cell uncovered between `before` and `after`, other than
/// `start`, touches an uncovered cell of lower rank with no mine around it.
pub open spec fn ranked_from(
    before: Seq<EntityKind>,
    after: Seq<EntityKind>,
    start: int,
    rank: Seq<int>,
) -> bool {
    forall|i: int|
        0 <= i < CELL_COUNT && i != start && #[trigger] after[i] != before[i] ==> touches_lower_zero(
            before,
            after,
            rank,
            i,
        )
}

/// Every cell uncovered between `before` and `after` is reached from `start`
/// through uncovered cells with no mine around them: following, from any of
/// them, a touching such cell of lower rank ends at `start`.
#[verifier::opaque]
pub open spec fn supported_except(before: Seq<EntityKind>, after: Seq<EntityKind>, start: int) -> bool {
    exists|rank: Seq<int>| #[trigger] ranked_from(before, after, start, rank)
}

/// What uncovering from cell `start` yields: only covered cells without a mine
/// are uncovered; `start` is, if it is covered and has no mine; and around each
/// uncovered cell that touches no mine, no cell stays covered; and every
/// uncovered cell is reached from `start` through such cells.
pub open spec fn flood_from(
    before: Seq<EntityKind>,
    after: Seq<EntityKind>,
    mines: Seq<bool>,
    start: int,
) -> bool {
    &&& reveal_only(before, after, mines)
    &&& zero_closed_except(before, after, -1)
    &&& supported_except(before, after, start)
    &&& (before[start] == EntityKind::Covered && !mines[start]) ==> after[start] == revealed_kind(
        mines,
        start,
    )
}

proof fn lemma_covered_update(shown: Seq<EntityKind>, i: int, k: EntityKind, n: int)
    requires
        0 <= i < n <= shown.len(),
        shown[i] == EntityKind::Covered,
        k != EntityKind::Covered,
    ensures
        covered_in(shown.update(i, k), n) == covered_in(shown, n) - 1,
    decreases n,
{
    if n - 1 > i {
        lemma_covered_update(shown, i, k, n - 1);
    } else {
        lemma_covered_same(shown, shown.update(i, k), n - 1);
    }
}

proof fn lemma_covered_bounds(shown: Seq<EntityKind>, n: int)
    requires
        0 <= n,
    ensures
        0 <= covered_in(shown, n) <= n,
    decreases n,
{
    if n > 0 {
        lemma_covered_bounds(shown, n - 1);
    }
}

proof fn lemma_covered_same(a: Seq<EntityKind>, b: Seq<EntityKind>, n: int)
    requires
        0 <= n <= a.len(),
        n <= b.len(),
        forall|j: int| 0 <= j < n ==> a[j] == b[j],
    ensures
        covered_in(a, n) == covered_in(b, n),
    decreases n,
{
    if n > 0 {
        lemma_covered_same(a, b, n - 1);
    }
}

proof fn lemma_reveal_covered(a: Seq<EntityKind>, b: Seq<EntityKind>, mines: Seq<bool>, n: int)
    requires
        0 <= n <= CELL_COUNT,
        a.len() == CELL_COUNT,
        reveal_only(a, b, mines),
    ensures
        covered_in(b, n) <= covered_in(a, n),
    decreases n,
{
    reveal(reveal_only);
    if n > 0 {
        lemma_reveal_covered(a, b, mines, n - 1);
        assert(b[n - 1] == a[n - 1] || b[n - 1] == revealed_kind(mines, n - 1));
    }
}

proof fn lemma_cell_index(row: int, column: int)
    requires
        in_grid(row, column),
    ensures
        cell_index(row, column) / ENTITIES_COLUMN_COUNT as int == row,
        cell_index(row, column) % ENTITIES_COLUMN_COUNT as int == column,
        0 <= cell_index(row, column) < CELL_COUNT,
{
}

/// A cell that is not covered stays so through a reveal.
proof fn lemma_open_mono(b: Seq<EntityKind>, c: Seq<EntityKind>, mines: Seq<bool>, row: int, column: int)
    requires
        b.len() == CELL_COUNT,
        reveal_only(b, c, mines),
    ensures
        open_at(b, row, column) ==> open_at(c, row, column),
{
    reveal(reveal_only);
    if in_grid(row, column) {
        let j = cell_index(row, column);
        assert(c[j] == b[j] || b[j] == EntityKind::Covered);
    }
}

/// The cells of `b` around (`row`, `column`) that are not covered stay so in `c`.
proof fn lemma_neighbors_mono(
    b: Seq<EntityKind>,
    c: Seq<EntityKind>,
    mines: Seq<bool>,
    row: int,
    column: int,
)
    requires
        b.len() == CELL_COUNT,
        reveal_only(b, c, mines),
    ensures
        open_at(b, row - 1, column - 1) ==> open_at(c, row - 1, column - 1),
        open_at(b, row - 1, column) ==> open_at(c, row - 1, column),
        open_at(b, row - 1, column + 1) ==> open_at(c, row - 1, column + 1),
        open_at(b, row, column - 1) ==> open_at(c, row, column - 1),
        open_at(b, row, column + 1) ==> open_at(c, row, column + 1),
        open_at(b, row + 1, column - 1) ==> open_at(c, row + 1, column - 1),
        open_at(b, row + 1, column) ==> open_at(c, row + 1, column),
        open_at(b, row + 1, column + 1) ==> open_at(c, row + 1, column + 1),
{
    lemma_open_mono(b, c, mines, row - 1, column - 1);
    lemma_open_mono(b, c, mines, row - 1, column);
    lemma_open_mono(b, c, mines, row - 1, column + 1);
    lemma_open_mono(b, c, mines, row, column - 1);
    lemma_open_mono(b, c, mines, row, column + 1);
    lemma_open_mono(b, c, mines, row + 1, column - 1);
    lemma_open_mono(b, c, mines, row + 1, column);
    lemma_open_mono(b, c, mines, row + 1, column + 1);
}

/// Nothing is uncovered from a cell that is not covered or holds a mine.
proof fn lemma_flood_none(a: Seq<EntityKind>, mines: Seq<bool>, start: int)
    requires
        0 <= start < CELL_COUNT,
        a.len() == CELL_COUNT,
        a[start] != EntityKind::Covered || mines[start],
    ensures
        flood_from(a, a, mines, start),
{
    reveal(reveal_only);
    reveal(zero_closed_except);
    reveal(supported_except);
    assert(ranked_from(a, a, start, Seq::new(CELL_COUNT as nat, |_i: int| 0int)));
}

/// Uncovering the start cell alone begins a fill, and completes one when a
/// mine touches that cell.
proof fn lemma_flood_first(a: Seq<EntityKind>, b: Seq<EntityKind>, mines: Seq<bool>, start: int)
    requires
        0 <= start < CELL_COUNT,
        a.len() == CELL_COUNT,
        a[start] == EntityKind::Covered,
        !mines[start],
        b == a.update(start, revealed_kind(mines, start)),
    ensures
        reveal_only(a, b, mines),
        zero_closed_except(a, b, start),
        supported_except(a, b, start),
        b[start] != EntityKind::Uncovered0 ==> flood_from(a, b, mines, start),
{
    reveal(reveal_only);
    reveal(zero_closed_except);
    reveal(supported_except);
    assert(ranked_from(a, b, start, Seq::new(CELL_COUNT as nat, |_i: int| 0int)));
}

/// A fill whose start cell has no covered cell around it is complete.
proof fn lemma_flood_finish(
    a: Seq<EntityKind>,
    c: Seq<EntityKind>,
    mines: Seq<bool>,
    row: int,
    column: int,
)
    requires
        in_grid(row, column),
        a.len() == CELL_COUNT,
        c[cell_index(row, column)] == revealed_kind(mines, cell_index(row, column)),
        reveal_only(a, c, mines),
        zero_closed_except(a, c, cell_index(row, column)),
        supported_except(a, c, cell_index(row, column)),
        neighbors_open(c, row, column),
    ensures
        flood_from(a, c, mines, cell_index(row, column)),
{
    reveal(zero_closed_except);
    lemma_cell_index(row, column);
}

/// One neighbour's fill, from `b` to `c`, started at (`row` + `dr`,
/// `column` + `dc`), added to the fill from `a` that began at (`row`, `column`).
proof fn lemma_flood_step(
    a: Seq<EntityKind>,
    b: Seq<EntityKind>,
    c: Seq<EntityKind>,
    mines: Seq<bool>,
    row: int,
    column: int,
    dr: int,
    dc: int,
)
    requires
        a.len() == CELL_COUNT,
        in_grid(row, column),
        -1 <= dr <= 1,
        -1 <= dc <= 1,
        dr != 0 || dc != 0,
        !in_grid(row + dr, column + dc) ==> c == b,
        mines.len() == CELL_COUNT,
        mines_around(mines, row, column) == 0,
        a[cell_index(row, column)] == EntityKind::Covered,
        b[cell_index(row, column)] == EntityKind::Uncovered0,
        reveal_only(a, b, mines),
        zero_closed_except(a, b, cell_index(row, column)),
        supported_except(a, b, cell_index(row, column)),
        in_grid(row + dr, column + dc) ==> flood_from(b, c, mines, cell_index(row + dr, column + dc)),
    ensures
        open_at(c, row + dr, column + dc),
        reveal_only(a, c, mines),
        zero_closed_except(a, c, cell_index(row, column)),
        supported_except(a, c, cell_index(row, column)),
        c[cell_index(row, column)] == EntityKind::Uncovered0,
        0 <= covered_in(c, CELL_COUNT as int) <= covered_in(b, CELL_COUNT as int),
        open_at(b, row - 1, column - 1) ==> open_at(c, row - 1, column - 1),
        open_at(b, row - 1, column) ==> open_at(c, row - 1, column),
        open_at(b, row - 1, column + 1) ==> open_at(c, row - 1, column + 1),
        open_at(b, row, column - 1) ==> open_at(c, row, column - 1),
        open_at(b, row, column + 1) ==> open_at(c, row, column + 1),
        open_at(b, row + 1, column - 1) ==> open_at(c, row + 1, column - 1),
        open_at(b, row + 1, column) ==> open_at(c, row + 1, column),
        open_at(b, row + 1, column + 1) ==> open_at(c, row + 1, column + 1),
{
    reveal(reveal_only);
    reveal(zero_closed_except);
    reveal(supported_except);
    let p = cell_index(row, column);
    let q = cell_index(row + dr, column + dc);
    lemma_cell_index(row, column);
    if in_grid(row + dr, column + dc) {
        lemma_cell_index(row + dr, column + dc);
        assert(adjacent(q, p));
        assert(mine_at(mines, row + dr, column + dc) == 0);
        assert(!mines[q]);
        assert(c[q] == b[q] || b[q] == EntityKind::Covered);
    } else {
        assert(ranked_from(b, c, q, Seq::new(CELL_COUNT as nat, |_i: int| 0int)));
    }
    assert(c[p] == b[p]);
    lemma_flood_compose(a, b, c, mines, p);
    lemma_flood_support(a, b, c, mines, p, q);
    lemma_covered_bounds(c, CELL_COUNT as int);
    lemma_reveal_covered(b, c, mines, CELL_COUNT as int);
    lemma_neighbors_mono(b, c, mines, row, column);
}

/// The step of `lemma_flood_support` for one cell `i`.
proof fn lemma_flood_support_at(
    a: Seq<EntityKind>,
    b: Seq<EntityKind>,
    c: Seq<EntityKind>,
    mines: Seq<bool>,
    p: int,
    q: int,
    r1: Seq<int>,
    r2: Seq<int>,
    r: Seq<int>,
    k: int,
    i: int,
)
    requires
        a.len() == CELL_COUNT,
        0 <= p < CELL_COUNT,
        a[p] == EntityKind::Covered,
        b[p] == EntityKind::Uncovered0,
        c[p] == b[p],
        reveal_only(a, b, mines),
        reveal_only(b, c, mines),
        ranked_from(a, b, p, r1),
        ranked_from(b, c, q, r2),
        (0 <= q < CELL_COUNT && c[q] != b[q]) ==> adjacent(q, p),
        k == r1[p] + 1 - r2[q],
        r.len() == CELL_COUNT,
        forall|x: int| 0 <= x < CELL_COUNT ==> #[trigger] r[x] == if b[x] != a[x] {
            r1[x]
        } else {
            r2[x] + k
        },
        0 <= i < CELL_COUNT,
        i != p,
        c[i] != a[i],
    ensures
        touches_lower_zero(a, c, r, i),
{
    reveal(reveal_only);
    assert(b[i] == a[i] || (a[i] == EntityKind::Covered && b[i] == revealed_kind(mines, i)));
    assert(c[i] == b[i] || (b[i] == EntityKind::Covered && c[i] == revealed_kind(mines, i)));
    if b[i] != a[i] {
        assert(touches_lower_zero(a, b, r1, i));
        let j = choose|j: int|
            0 <= j < CELL_COUNT && #[trigger] adjacent(i, j) && b[j] != a[j] && b[j]
                == EntityKind::Uncovered0 && r1[j] < r1[i];
        assert(c[j] == b[j] || b[j] == EntityKind::Covered);
        assert(r[i] == r1[i] && r[j] == r1[j]);
        assert(adjacent(i, j));
    } else if i == q {
        assert(r[i] == r2[q] + k && r[p] == r1[p]);
        assert(adjacent(i, p));
    } else {
        assert(touches_lower_zero(b, c, r2, i));
        let j = choose|j: int|
            0 <= j < CELL_COUNT && #[trigger] adjacent(i, j) && c[j] != b[j] && c[j]
                == EntityKind::Uncovered0 && r2[j] < r2[i];
        assert(b[j] == a[j] || (a[j] == EntityKind::Covered && b[j] == revealed_kind(mines, j)));
        assert(c[j] == b[j] || b[j] == EntityKind::Covered);
        assert(r[i] == r2[i] + k && r[j] == r2[j] + k);
        assert(adjacent(i, j));
    }
}

/// Every cell uncovered from `a` to `c` is reached from `p`: those of the
/// first step as that step showed, `q` from `p`, and the others of the second
/// step from `q` as that step showed, their ranks raised above that of `p`.
proof fn lemma_flood_support(
    a: Seq<EntityKind>,
    b: Seq<EntityKind>,
    c: Seq<EntityKind>,
    mines: Seq<bool>,
    p: int,
    q: int,
)
    requires
        a.len() == CELL_COUNT,
        0 <= p < CELL_COUNT,
        a[p] == EntityKind::Covered,
        b[p] == EntityKind::Uncovered0,
        c[p] == b[p],
        reveal_only(a, b, mines),
        reveal_only(b, c, mines),
        supported_except(a, b, p),
        supported_except(b, c, q),
        (0 <= q < CELL_COUNT && c[q] != b[q]) ==> adjacent(q, p),
    ensures
        supported_except(a, c, p),
{
    reveal(supported_except);
    let r1 = choose|r: Seq<int>| ranked_from(a, b, p, r);
    let r2 = choose|r: Seq<int>| ranked_from(b, c, q, r);
    let k = r1[p] + 1 - r2[q];
    let r = Seq::new(CELL_COUNT as nat, |i: int| if b[i] != a[i] { r1[i] } else { r2[i] + k });
    assert forall|i: int| 0 <= i < CELL_COUNT && i != p && #[trigger] c[i] != a[i] implies touches_lower_zero(a, c, r, i) by {
        lemma_flood_support_at(a, b, c, mines, p, q, r1, r2, r, k, i);
    }
    assert(ranked_from(a, c, p, r));
}

/// Composes the reveal made so far from `a` with one more step from `b` to `c`.
proof fn lemma_flood_compose(
    a: Seq<EntityKind>,
    b: Seq<EntityKind>,
    c: Seq<EntityKind>,
    mines: Seq<bool>,
    except: int,
)
    requires
        a.len() == CELL_COUNT,
        reveal_only(a, b, mines),
        zero_closed_except(a, b, except),
        reveal_only(b, c, mines),
        zero_closed_except(b, c, -1),
    ensures
        reveal_only(a, c, mines),
        zero_closed_except(a, c, except),
{
    reveal(reveal_only);
    reveal(zero_closed_except);
    assert forall|i: int|
        0 <= i < CELL_COUNT && i != except && #[trigger] c[i] != a[i] && c[i]
            == EntityKind::Uncovered0 implies neighbors_open(
        c,
        i / ENTITIES_COLUMN_COUNT as int,
        i % ENTITIES_COLUMN_COUNT as int,
    ) by {
        let r = i / ENTITIES_COLUMN_COUNT as int;
        let col = i % ENTITIES_COLUMN_COUNT as int;
        assert(b[i] == a[i] || b[i] == c[i]);
        if b[i] != c[i] {
            assert(neighbors_open(c, r, col));
        } else {
            assert(neighbors_open(b, r, col));
            lemma_open_mono(b, c, mines, r - 1, col - 1);
            lemma_open_mono(b, c, mines, r - 1, col);
            lemma_open_mono(b, c, mines, r - 1, col + 1);
            lemma_open_mono(b, c, mines, r, col - 1);
            lemma_open_mono(b, c, mines, r, col + 1);
            lemma_open_mono(b, c, mines, r + 1, col - 1);
            lemma_open_mono(b, c, mines, r + 1, col);
            lemma_open_mono(b, c, mines, r + 1, col + 1);
        }
    }
    assert forall|i: int| 0 <= i < CELL_COUNT implies #[trigger] c[i] == a[i] || (a[i]
        == EntityKind::Covered && !mines[i] && c[i] == revealed_kind(mines, i)) by {
        assert(b[i] == a[i] || (a[i] == EntityKind::Covered && !mines[i] && b[i] == revealed_kind(mines, i)));
        assert(c[i] == b[i] || (b[i] == EntityKind::Covered && !mines[i] && c[i] == revealed_kind(mines, i)));
    }
}

impl Scene {
    /// Both grids cover the whole board.
    pub open spec fn wf(&self) -> bool {
        &&& self.displayed_entities@.len() == CELL_COUNT
        &&& self.mines@.len() == CELL_COUNT
    }

    /// A board with every cell covered and no mines.
    pub fn new(window_id: u32, gc_id: u32, sprite_pixmap_id: u32) -> (r: Self)
        ensures
            r.wf(),
            r.state == SceneState::Uninitialized,
            r.window_id == window_id,
            r.gc_id == gc_id,
            r.sprite_pixmap_id == sprite_pixmap_id,
            forall|i: int| 0 <= i < CELL_COUNT ==> r.displayed_entities@[i] == EntityKind::Covered,
            forall|i: int| 0 <= i < CELL_COUNT ==> !r.mines@[i],
    {
        Scene {
            state: SceneState::Uninitialized,
            window_id,
            gc_id,
            sprite_pixmap_id,
            displayed_entities: vec![EntityKind::Covered; CELL_COUNT],
            mines: vec![false; CELL_COUNT],
        }
    }

    /// Covers every cell and lays the given mines.
    pub fn reset_with_mines(&mut self, mines: Vec<bool>)
        requires
            mines@.len() == CELL_COUNT,
        ensures
            final(self).wf(),
            final(self).mines@ == mines@,
            forall|i: int|
                0 <= i < CELL_COUNT ==> final(self).displayed_entities@[i] == EntityKind::Covered,
            final(self).state == old(self).state,
            final(self).window_id == old(self).window_id,
            final(self).gc_id == old(self).gc_id,
            final(self).sprite_pixmap_id == old(self).sprite_pixmap_id,
    {
        self.displayed_entities = vec![EntityKind::Covered; CELL_COUNT];
        self.mines = mines;
    }

    /// Covers every cell and lays new mines, each cell holding one with odds
    /// of one in ten.
    pub fn reset(&mut self)
        ensures
            final(self).wf(),
            forall|i: int|
                0 <= i < CELL_COUNT ==> final(self).displayed_entities@[i] == EntityKind::Covered,
            final(self).state == old(self).state,
            final(self).window_id == old(self).window_id,
            final(self).gc_id == old(self).gc_id,
            final(self).sprite_pixmap_id == old(self).sprite_pixmap_id,
    {
        let mut mines: Vec<bool> = Vec::new();
        let mut i: usize = 0;
        while i < CELL_COUNT
            invariant
                i <= CELL_COUNT,
                mines@.len() == i,
            decreases CELL_COUNT - i,
        {
            mines.push(random_ratio(1, MINE_ODDS));
            i = i + 1;
        }
        self.reset_with_mines(mines);
    }

    /// The requests that draw every cell of the board.
    pub fn render(&self) -> (r: Vec<u8>)
        requires
            self.wf(),
        ensures
            r@ == render_bytes(self, CELL_COUNT as int),
    {
        let mut out: Vec<u8> = Vec::new();
        let mut i: usize = 0;
        while i < self.displayed_entities.len()
            invariant
                self.wf(),
                i <= CELL_COUNT,
                out@ == render_bytes(self, i as int),
            decreases CELL_COUNT - i,
        {
            let pos = get_asset_coordinates(self.displayed_entities[i]);
            let (row, column) = idx_to_row_column(i as u16);
            let req = x11_copy_area(
                self.sprite_pixmap_id,
                self.window_id,
                self.gc_id,
                pos.x,
                pos.y,
                column * ENTITIES_WIDTH,
                row * ENTITIES_HEIGHT,
                ENTITIES_WIDTH,
                ENTITIES_HEIGHT,
            );
            push_all(&mut out, req.as_slice());
            i = i + 1;
        }
        out
    }

    /// One if (`row`, `column`) is on the board and holds a mine, else zero.
    fn mine_count_at(&self, row: i32, column: i32) -> (r: u8)
        requires
            self.wf(),
        ensures
            r == mine_at(self.mines@, row as int, column as int),
    {
        if 0 <= row && row < ENTITIES_ROW_COUNT as i32 && 0 <= column && column
            < ENTITIES_COLUMN_COUNT as i32 {
            let idx = self.row_column_to_idx(row as u16, column as u16) as usize;
            if self.mines[idx] {
                1
            } else {
                0
            }
        } else {
            0
        }
    }

    /// The number of mines around cell (`row`, `column`).
    fn count_mines_around_cell(&self, row: usize, column: usize) -> (r: u8)
        requires
            self.wf(),
            row < ENTITIES_ROW_COUNT,
            column < ENTITIES_COLUMN_COUNT,
        ensures
            r == mines_around(self.mines@, row as int, column as int),
            r <= 8,
    {
        let r = row as i32;
        let c = column as i32;
        let mut count: u8 = 0;
        count = count + self.mine_count_at(r - 1, c - 1);
        count = count + self.mine_count_at(r - 1, c);
        count = count + self.mine_count_at(r - 1, c + 1);
        count = count + self.mine_count_at(r, c - 1);
        count = count + self.mine_count_at(r, c + 1);
        count = count + self.mine_count_at(r + 1, c - 1);
        count = count + self.mine_count_at(r + 1, c);
        count = count + self.mine_count_at(r + 1, c + 1);
        count
    }

    /// The row and the column of cell `idx`.
    fn idx_to_row_column(&self, idx: u16) -> (r: (u16, u16))
        ensures
            r.0 == idx / ENTITIES_COLUMN_COUNT,
            r.1 == idx % ENTITIES_COLUMN_COUNT,
    {
        idx_to_row_column(idx)
    }

    /// The index of cell (`row`, `column`).
    fn row_column_to_idx(&self, row: u16, column: u16) -> (r: u16)
        requires
            row < ENTITIES_ROW_COUNT,
            column < ENTITIES_COLUMN_COUNT,
        ensures
            r == cell_index(row as int, column as int),
            r < CELL_COUNT,
    {
        row * ENTITIES_COLUMN_COUNT + column
    }

    /// The cell under window point (`win_x`, `win_y`): its index, row and column.
    fn locate_entity_by_coordinate(&self, win_x: u16, win_y: u16) -> (r: (usize, usize, usize))
        requires
            win_x < ENTITIES_COLUMN_COUNT * ENTITIES_WIDTH,
            win_y < ENTITIES_ROW_COUNT * ENTITIES_HEIGHT,
        ensures
            r.2 == win_x / ENTITIES_WIDTH,
            r.1 == win_y / ENTITIES_HEIGHT,
            r.0 == cell_index(r.1 as int, r.2 as int),
            in_grid(r.1 as int, r.2 as int),
            r.0 < CELL_COUNT,
    {
        let column = win_x as usize / ENTITIES_WIDTH as usize;
        let row = win_y as usize / ENTITIES_HEIGHT as usize;
        assert(column < 16 && row < 16) by (nonlinear_arith)
            requires
                column == win_x as usize / 16,
                row == win_y as usize / 16,
                win_x < 256,
                win_y < 256,
        ;
        let idx = self.row_column_to_idx(row as u16, column as u16);
        (idx as usize, row, column)
    }

    /// The number of cells still covered that hold no mine.
    fn count_remaining_goals(&self) -> (r: usize)
        requires
            self.wf(),
        ensures
            r == goals_in(self.displayed_entities@, self.mines@, CELL_COUNT as int),
    {
        let mut count: usize = 0;
        let mut i: usize = 0;
        while i < CELL_COUNT
            invariant
                self.wf(),
                i <= CELL_COUNT,
                count == goals_in(self.displayed_entities@, self.mines@, i as int),
                count <= i,
            decreases CELL_COUNT - i,
        {
            if self.displayed_entities[i] == EntityKind::Covered && !self.mines[i] {
                count = count + 1;
            }
            i = i + 1;
        }
        count
    }

    /// Handles a click at window point (`x`, `y`). The left button (1)
    /// uncovers the cell there unless it is flagged: on a mine the game is lost
    /// and the whole board is shown, the mines as exploded; otherwise the cells
    /// are filled from there, and when no covered cell without a mine remains the
    /// game is won and the board shown, the mines as idle. The right button (3)
    /// flags a covered cell or covers a flagged one. Other buttons do nothing.
    pub fn on_cell_clicked(&mut self, x: u16, y: u16, button: u8)
        requires
            old(self).wf(),
            x < ENTITIES_COLUMN_COUNT * ENTITIES_WIDTH,
            y < ENTITIES_ROW_COUNT * ENTITIES_HEIGHT,
        ensures
            final(self).wf(),
            final(self).mines@ == old(self).mines@,
            final(self).window_id == old(self).window_id,
            final(self).gc_id == old(self).gc_id,
            final(self).sprite_pixmap_id == old(self).sprite_pixmap_id,
            ({
                let idx = cell_index((y / ENTITIES_HEIGHT) as int, (x / ENTITIES_WIDTH) as int);
                let before = old(self).displayed_entities@;
                let after = final(self).displayed_entities@;
                let mines = old(self).mines@;
                if button == 1 {
                    if before[idx] == EntityKind::Flagged {
                        after == before && final(self).state == old(self).state
                    } else if mines[idx] {
                        &&& final(self).state == SceneState::Lost
                        &&& forall|i: int|
                            0 <= i < CELL_COUNT ==> after[i] == fully_uncovered(
                                before,
                                mines,
                                i,
                                EntityKind::MineExploded,
                            )
                    } else {
                        exists|filled: Seq<EntityKind>|
                            {
                                &&& #[trigger] flood_from(before, filled, mines, idx)
                                &&& filled.len() == CELL_COUNT
                                &&& if goals_in(filled, mines, CELL_COUNT as int) == 0 {
                                    &&& final(self).state == SceneState::Won
                                    &&& forall|i: int|
                                        0 <= i < CELL_COUNT ==> after[i] == fully_uncovered(
                                            filled,
                                            mines,
                                            i,
                                            EntityKind::MineIdle,
                                        )
                                } else {
                                    after == filled && final(self).state == old(self).state
                                }
                            }
                    }
                } else if button == 3 {
                    &&& final(self).state == old(self).state
                    &&& if before[idx] == EntityKind::Covered {
                        after == before.update(idx, EntityKind::Flagged)
                    } else if before[idx] == EntityKind::Flagged {
                        after == before.update(idx, EntityKind::Covered)
                    } else {
                        after == before
                    }
                } else {
                    after == before && final(self).state == old(self).state
                }
            }),
    {
        let (idx, row, column) = self.locate_entity_by_coordinate(x, y);
        match button {
            1 => {
                if self.displayed_entities[idx] == EntityKind::Flagged {
                    return;
                }
                let mined = self.mines[idx];
                if mined {
                    self.displayed_entities[idx] = EntityKind::MineExploded;
                    self.state = SceneState::Lost;
                    self.uncover_all_cells(EntityKind::MineExploded);
                } else {
                    self.uncover_cells_flood_fill(row, column);
                    let ghost filled = self.displayed_entities@;
                    if self.count_remaining_goals() == 0 {
                        self.state = SceneState::Won;
                        self.uncover_all_cells(EntityKind::MineIdle);
                    }
                    assert(flood_from(old(self).displayed_entities@, filled, old(self).mines@, idx as int));
                }
            },
            3 => {
                if self.displayed_entities[idx] == EntityKind::Covered {
                    self.displayed_entities[idx] = EntityKind::Flagged;
                } else if self.displayed_entities[idx] == EntityKind::Flagged {
                    self.displayed_entities[idx] = EntityKind::Covered;
                }
            },
            _ => {},
        }
    }

    /// Uncovers cell (`row`, `column`) when it is covered and holds no mine;
    /// when no mine touches it, the cells around it are filled in turn.
    fn uncover_cells_flood_fill(&mut self, row: usize, column: usize)
        requires
            old(self).wf(),
            row < ENTITIES_ROW_COUNT,
            column < ENTITIES_COLUMN_COUNT,
        ensures
            final(self).wf(),
            final(self).mines@ == old(self).mines@,
            final(self).state == old(self).state,
            final(self).window_id == old(self).window_id,
            final(self).gc_id == old(self).gc_id,
            final(self).sprite_pixmap_id == old(self).sprite_pixmap_id,
            flood_from(
                old(self).displayed_entities@,
                final(self).displayed_entities@,
                old(self).mines@,
                cell_index(row as int, column as int),
            ),
        decreases covered_in(old(self).displayed_entities@, CELL_COUNT as int),
    {
        let i = self.row_column_to_idx(row as u16, column as u16) as usize;
        if self.mines[i] || self.displayed_entities[i] != EntityKind::Covered {
            proof {
                lemma_flood_none(self.displayed_entities@, self.mines@, i as int);
            }
            return;
        }
        let mines_around_count = self.count_mines_around_cell(row, column);
        let ghost orig = self.displayed_entities@;
        assert(orig == old(self).displayed_entities@);
        let ghost mines = self.mines@;
        let ghost (r, c) = (row as int, column as int);
        proof {
            lemma_cell_index(r, c);
        }
        self.displayed_entities[i] = uncovered(mines_around_count);
        proof {
            lemma_covered_update(orig, i as int, uncovered_kind(mines_around_count as int), CELL_COUNT as int);
            lemma_covered_bounds(self.displayed_entities@, CELL_COUNT as int);
            assert(self.displayed_entities@ == orig.update(i as int, uncovered_kind(mines_around_count as int)));
            lemma_flood_first(orig, self.displayed_entities@, mines, i as int);
        }
        if mines_around_count == 0 {
            let ghost s = self.displayed_entities@;
            if row > 0 {
                self.uncover_cells_flood_fill(row - 1, column);
            }
            proof {
                lemma_flood_step(orig, s, self.displayed_entities@, mines, r, c, -1, 0);
            }
            let ghost s = self.displayed_entities@;
            if column < (ENTITIES_COLUMN_COUNT - 1) as usize {
                self.uncover_cells_flood_fill(row, column + 1);
            }
            proof {
                lemma_flood_step(orig, s, self.displayed_entities@, mines, r, c, 0, 1);
            }
            let ghost s = self.displayed_entities@;
            if row < (ENTITIES_ROW_COUNT - 1) as usize {
                self.uncover_cells_flood_fill(row + 1, column);
            }
            proof {
                lemma_flood_step(orig, s, self.displayed_entities@, mines, r, c, 1, 0);
            }
            let ghost s = self.displayed_entities@;
            if column > 0 {
                self.uncover_cells_flood_fill(row, column - 1);
            }
            proof {
                lemma_flood_step(orig, s, self.displayed_entities@, mines, r, c, 0, -1);
            }
            let ghost s = self.displayed_entities@;
            if row > 0 && column > 0 {
                self.uncover_cells_flood_fill(row - 1, column - 1);
            }
            proof {
                lemma_flood_step(orig, s, self.displayed_entities@, mines, r, c, -1, -1);
            }
            let ghost s = self.displayed_entities@;
            if row > 0 && column < (ENTITIES_COLUMN_COUNT - 1) as usize {
                self.uncover_cells_flood_fill(row - 1, column + 1);
            }
            proof {
                lemma_flood_step(orig, s, self.displayed_entities@, mines, r, c, -1, 1);
            }
            let ghost s = self.displayed_entities@;
            if row < (ENTITIES_ROW_COUNT - 1) as usize && column > 0 {
                self.uncover_cells_flood_fill(row + 1, column - 1);
            }
            proof {
                lemma_flood_step(orig, s, self.displayed_entities@, mines, r, c, 1, -1);
            }
            let ghost s = self.displayed_entities@;
            if row < (ENTITIES_ROW_COUNT - 1) as usize && column < (ENTITIES_COLUMN_COUNT - 1) as usize {
                self.uncover_cells_flood_fill(row + 1, column + 1);
            }
            proof {
                lemma_flood_step(orig, s, self.displayed_entities@, mines, r, c, 1, 1);
                lemma_flood_finish(orig, self.displayed_entities@, mines, r, c);
            }
        }
    }

    /// Shows every mine as `mine_type` and every other covered cell uncovered.
    fn uncover_all_cells(&mut self, mine_type: EntityKind)
        requires
            old(self).wf(),
        ensures
            final(self).wf(),
            final(self).mines@ == old(self).mines@,
            final(self).state == old(self).state,
            final(self).window_id == old(self).window_id,
            final(self).gc_id == old(self).gc_id,
            final(self).sprite_pixmap_id == old(self).sprite_pixmap_id,
            forall|i: int|
                0 <= i < CELL_COUNT ==> final(self).displayed_entities@[i] == fully_uncovered(
                    old(self).displayed_entities@,
                    old(self).mines@,
                    i,
                    mine_type,
                ),
    {
        let ghost before = self.displayed_entities@;
        let mut i: usize = 0;
        while i < self.displayed_entities.len()
            invariant
                self.wf(),
                i <= CELL_COUNT,
                self.mines@ == old(self).mines@,
                self.state == old(self).state,
                self.window_id == old(self).window_id,
                self.gc_id == old(self).gc_id,
                self.sprite_pixmap_id == old(self).sprite_pixmap_id,
                before == old(self).displayed_entities@,
                forall|k: int|
                    0 <= k < i ==> self.displayed_entities@[k] == fully_uncovered(
                        before,
                        self.mines@,
                        k,
                        mine_type,
                    ),
                forall|k: int| i <= k < CELL_COUNT ==> self.displayed_entities@[k] == before[k],
            decreases CELL_COUNT - i,
        {
            if self.mines[i] {
                self.displayed_entities[i] = mine_type;
            } else if self.displayed_entities[i] == EntityKind::Covered {
                let (row, column) = self.idx_to_row_column(i as u16);
                let n = self.count_mines_around_cell(row as usize, column as usize);
                self.displayed_entities[i] = uncovered(n);
            }
            i = i + 1;
        }
    }
}

} // verus!
