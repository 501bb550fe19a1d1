use vstd::prelude::*;

verus! {

/// Number of columns of the playfield.
pub const BOARD_WIDTH: usize = 10;

/// Number of rows of the playfield (two hidden spawn rows above twenty visible ones).
pub const BOARD_HEIGHT: usize = 22;

/// One square of the playfield: 0 is empty, 1 to 7 is the type of a locked piece.
#[derive(Clone, Copy, Debug, PartialEq, Eq, Structural)]
pub struct Cell {
    pub id: u8,
}

/// The playfield: `BOARD_HEIGHT` rows of `BOARD_WIDTH` cells, row 0 at the top.
pub struct Board {
    pub cells: Vec<Vec<Cell>>,
}

/// A row is full when none of its cells is empty.
pub open spec fn row_full(row: Seq<u8>) -> bool {
    forall|c: int| 0 <= c < row.len() ==> row[c] != 0
}

pub open spec fn empty_row() -> Seq<u8> {
    Seq::new(BOARD_WIDTH as nat, |c: int| 0u8)
}

/// `n` empty rows.
pub open spec fn empty_rows(n: nat) -> Seq<Seq<u8>> {
    Seq::new(n, |i: int| empty_row())
}

/// The rows that survive a clear, in their order.
pub open spec fn kept_rows(rows: Seq<Seq<u8>>) -> Seq<Seq<u8>> {
    rows.filter(|row: Seq<u8>| !row_full(row))
}

/// How many rows a clear removes.
pub open spec fn full_row_count(rows: Seq<Seq<u8>>) -> nat {
    (rows.len() - kept_rows(rows).len()) as nat
}

/// The grid after every full row is removed and the rest settle to the bottom.
pub open spec fn cleared(rows: Seq<Seq<u8>>) -> Seq<Seq<u8>> {
    empty_rows(full_row_count(rows)) + kept_rows(rows)
}

/// A well-shaped grid whose ids are all in 0..=7.
pub open spec fn grid_wf(rows: Seq<Seq<u8>>) -> bool {
    &&& rows.len() == BOARD_HEIGHT
    &&& forall|r: int| 0 <= r < rows.len() ==> #[trigger] rows[r].len() == BOARD_WIDTH
    &&& forall|r: int, c: int|
        0 <= r < rows.len() && 0 <= c < rows[r].len() ==> #[trigger] rows[r][c] <= 7
}

/// Whether (row, col) lies on the playfield.
pub open spec fn in_bounds(row: int, col: int) -> bool {
    0 <= row < BOARD_HEIGHT && 0 <= col < BOARD_WIDTH
}

/// Whether every cell of `blocks`, given as (row, col), lies on the playfield and is empty.
pub open spec fn cells_free(grid: Seq<Seq<u8>>, blocks: Seq<(i32, i32)>) -> bool {
    forall|i: int|
        0 <= i < blocks.len() ==> {
            let (r, c) = #[trigger] blocks[i];
            in_bounds(r as int, c as int) && grid[r as int][c as int] == 0
        }
}

pub open spec fn row_ids(row: Seq<Cell>) -> Seq<u8> {
    row.map_values(|cell: Cell| cell.id)
}

impl View for Board {
    type V = Seq<Seq<u8>>;

    open spec fn view(&self) -> Seq<Seq<u8>> {
        self.cells@.map_values(|row: Vec<Cell>| row_ids(row@))
    }
}

fn empty_row_cells() -> (r: Vec<Cell>)
    ensures
        r@.len() == BOARD_WIDTH,
        row_ids(r@) == empty_row(),
{
    let mut r: Vec<Cell> = Vec::new();
    let mut i: usize = 0;
    while i < BOARD_WIDTH
        invariant
            i <= BOARD_WIDTH,
            r@.len() == i,
            forall|c: int| 0 <= c < i ==> #[trigger] r@[c].id == 0,
        decreases BOARD_WIDTH - i,
    {
        r.push(Cell { id: 0 });
        i += 1;
    }
    assert(row_ids(r@) =~= empty_row());
    r
}

impl Board {
    pub open spec fn wf(&self) -> bool {
        &&& self.cells@.len() == BOARD_HEIGHT
        &&& forall|r: int| 0 <= r < self.cells@.len() ==> #[trigger] self.cells@[r]@.len() == BOARD_WIDTH
        &&& grid_wf(self@)
    }

    /// The id held at (row, col), 0 off the playfield.
    pub open spec fn cell(&self, row: int, col: int) -> u8 {
        if in_bounds(row, col) {
            self@[row][col]
        } else {
            0
        }
    }

    pub fn new() -> (b: Self)
        ensures
            b.wf(),
            b@ == empty_rows(BOARD_HEIGHT as nat),
    {
        let mut cells: Vec<Vec<Cell>> = Vec::new();
        let mut i: usize = 0;
        while i < BOARD_HEIGHT
            invariant
                i <= BOARD_HEIGHT,
                cells@.len() == i,
                forall|r: int| 0 <= r < i ==> #[trigger] cells@[r]@.len() == BOARD_WIDTH,
                forall|r: int| 0 <= r < i ==> row_ids(#[trigger] cells@[r]@) == empty_row(),
            decreases BOARD_HEIGHT - i,
        {
            cells.push(empty_row_cells());
            i += 1;
        }
        let b = Board { cells };
        assert(b@ =~= empty_rows(BOARD_HEIGHT as nat));
        b
    }

    /// Writes `id` at (row, col); a write off the playfield does nothing.
    pub fn set_cell(&mut self, row: usize, col: usize, id: u8)
        requires
            old(self).wf(),
            id <= 7,
        ensures
            final(self).wf(),
            in_bounds(row as int, col as int) ==> final(self)@ == old(self)@.update(
                row as int,
                old(self)@[row as int].update(col as int, id),
            ),
            !in_bounds(row as int, col as int) ==> final(self)@ == old(self)@,
    {
        if row < BOARD_HEIGHT && col < BOARD_WIDTH {
            self.cells[row][col].id = id;
            assert(row_ids(self.cells@[row as int]@) =~= old(self)@[row as int].update(col as int, id));
            assert(self@ =~= old(self)@.update(row as int, old(self)@[row as int].update(col as int, id)));
        }
    }

    /// The id at (row, col), 0 off the playfield.
    pub fn get_cell(&self, row: usize, col: usize) -> (r: u8)
        requires
            self.wf(),
        ensures
            r == self.cell(row as int, col as int),
    {
        if row < BOARD_HEIGHT && col < BOARD_WIDTH {
            self.cells[row][col].id
        } else {
            0
        }
    }

    pub fn get_width() -> (r: usize)
        ensures
            r == BOARD_WIDTH,
    {
        BOARD_WIDTH
    }

    pub fn get_height() -> (r: usize)
        ensures
            r == BOARD_HEIGHT,
    {
        BOARD_HEIGHT
    }
}

/// Looking at one more row from the bottom of the unexamined part: a full row is dropped,
/// any other row is kept in front of what was kept below it.
proof fn lemma_kept_step(rows: Seq<Seq<u8>>, j: int)
    requires
        0 < j <= rows.len(),
    ensures
        kept_rows(rows.subrange(j - 1, rows.len() as int)) == if row_full(rows[j - 1]) {
            kept_rows(rows.subrange(j, rows.len() as int))
        } else {
            seq![rows[j - 1]] + kept_rows(rows.subrange(j, rows.len() as int))
        },
{
    let head = seq![rows[j - 1]];
    let tail = rows.subrange(j, rows.len() as int);
    assert(rows.subrange(j - 1, rows.len() as int) =~= head + tail);
    Seq::filter_distributes_over_add(head, tail, |row: Seq<u8>| !row_full(row));
    reveal_with_fuel(Seq::filter, 2);
    assert(head.drop_last() =~= Seq::<Seq<u8>>::empty());
}

proof fn lemma_kept_all(rows: Seq<Seq<u8>>)
    requires
        forall|r: int| 0 <= r < rows.len() ==> !row_full(#[trigger] rows[r]),
    ensures
        kept_rows(rows) == rows,
    decreases rows.len(),
{
    reveal(Seq::filter);
    if rows.len() > 0 {
        lemma_kept_all(rows.drop_last());
        assert(rows.drop_last().push(rows.last()) =~= rows);
    }
}

proof fn lemma_kept_none(rows: Seq<Seq<u8>>)
    requires
        forall|r: int| 0 <= r < rows.len() ==> row_full(#[trigger] rows[r]),
    ensures
        kept_rows(rows) == Seq::<Seq<u8>>::empty(),
    decreases rows.len(),
{
    reveal(Seq::filter);
    if rows.len() > 0 {
        lemma_kept_none(rows.drop_last());
    }
}

/// A grid with no full row is left as it is, and nothing is counted.
pub proof fn lemma_clear_without_full_rows(rows: Seq<Seq<u8>>)
    requires
        grid_wf(rows),
        forall|r: int| 0 <= r < rows.len() ==> !row_full(#[trigger] rows[r]),
    ensures
        full_row_count(rows) == 0,
        cleared(rows) == rows,
{
    lemma_kept_all(rows);
    assert(cleared(rows) =~= rows);
}

/// The empty playfield has no full row: clearing it removes nothing.
pub proof fn lemma_clear_empty_board()
    ensures
        full_row_count(empty_rows(BOARD_HEIGHT as nat)) == 0,
        cleared(empty_rows(BOARD_HEIGHT as nat)) == empty_rows(BOARD_HEIGHT as nat),
{
    let rows = empty_rows(BOARD_HEIGHT as nat);
    assert forall|r: int| 0 <= r < rows.len() implies !row_full(#[trigger] rows[r]) by {
        assert(rows[r][0] == 0);
    }
    lemma_clear_without_full_rows(rows);
}

/// A grid whose rows are all full comes out empty, and every row is counted.
pub proof fn lemma_clear_all_full(rows: Seq<Seq<u8>>)
    requires
        grid_wf(rows),
        forall|r: int| 0 <= r < rows.len() ==> row_full(#[trigger] rows[r]),
    ensures
        full_row_count(rows) == BOARD_HEIGHT,
        cleared(rows) == empty_rows(BOARD_HEIGHT as nat),
{
    lemma_kept_none(rows);
    assert(cleared(rows) =~= empty_rows(BOARD_HEIGHT as nat));
}

/// With rows 18 and 20 full and no other, exactly those two rows go: two empty rows enter
/// at the top and the others keep their order.
pub proof fn lemma_clear_rows_18_and_20(rows: Seq<Seq<u8>>)
    requires
        grid_wf(rows),
        row_full(rows[18]),
        row_full(rows[20]),
        forall|r: int| 0 <= r < rows.len() && r != 18 && r != 20 ==> !row_full(#[trigger] rows[r]),
    ensures
        full_row_count(rows) == 2,
        cleared(rows) == empty_rows(2) + rows.remove(20).remove(18),
{
    let a = rows.subrange(0, 18);
    let b = rows.subrange(19, 20);
    let c = rows.subrange(21, 22);
    let f = seq![rows[18]];
    let g = seq![rows[20]];
    assert(rows =~= a + f + b + g + c);
    let pred = |row: Seq<u8>| !row_full(row);
    Seq::filter_distributes_over_add(a + f + b + g, c, pred);
    Seq::filter_distributes_over_add(a + f + b, g, pred);
    Seq::filter_distributes_over_add(a + f, b, pred);
    Seq::filter_distributes_over_add(a, f, pred);
    assert forall|r: int| 0 <= r < a.len() implies !row_full(#[trigger] a[r]) by {
        assert(a[r] == rows[r]);
    }
    assert forall|r: int| 0 <= r < b.len() implies !row_full(#[trigger] b[r]) by {
        assert(b[r] == rows[r + 19]);
    }
    assert forall|r: int| 0 <= r < c.len() implies !row_full(#[trigger] c[r]) by {
        assert(c[r] == rows[r + 21]);
    }
    lemma_kept_all(a);
    lemma_kept_all(b);
    lemma_kept_all(c);
    lemma_kept_none(f);
    lemma_kept_none(g);
    assert(kept_rows(rows) =~= a + b + c);
    assert(rows.remove(20).remove(18) =~= a + b + c);
}

impl Board {
    /// Whether every cell of `blocks`, given as (row, col), is on the playfield and empty.
    pub fn is_valid_position(&self, blocks: &[(i32, i32)]) -> (r: bool)
        requires
            self.wf(),
        ensures
            r == cells_free(self@, blocks@),
    {
        let mut i: usize = 0;
        while i < blocks.len()
            invariant
                self.wf(),
                i <= blocks@.len(),
                cells_free(self@, blocks@.subrange(0, i as int)),
            decreases blocks@.len() - i,
        {
            let (row, col) = blocks[i];
            if !(row >= 0 && row < BOARD_HEIGHT as i32 && col >= 0 && col < BOARD_WIDTH as i32) {
                assert(!cells_free(self@, blocks@)) by {
                    assert(blocks@[i as int] == (row, col));
                }
                return false;
            }
            if self.get_cell(row as usize, col as usize) != 0 {
                assert(!cells_free(self@, blocks@)) by {
                    assert(blocks@[i as int] == (row, col));
                }
                return false;
            }
            assert forall|k: int| 0 <= k < i + 1 implies {
                let (r, c) = #[trigger] blocks@.subrange(0, i + 1)[k];
                in_bounds(r as int, c as int) && self@[r as int][c as int] == 0
            } by {
                if k < i {
                    assert(blocks@.subrange(0, i + 1)[k] == blocks@.subrange(0, i as int)[k]);
                }
            }
            i += 1;
        }
        assert(blocks@.subrange(0, i as int) =~= blocks@);
        true
    }

    fn is_line_full(&self, row: usize) -> (r: bool)
        requires
            self.wf(),
            row < BOARD_HEIGHT,
        ensures
            r == row_full(self@[row as int]),
    {
        let mut c: usize = 0;
        while c < BOARD_WIDTH
            invariant
                self.wf(),
                row < BOARD_HEIGHT,
                c <= BOARD_WIDTH,
                forall|k: int| 0 <= k < c ==> #[trigger] self@[row as int][k] != 0,
            decreases BOARD_WIDTH - c,
        {
            if self.cells[row][c].id == 0 {
                assert(self@[row as int][c as int] == 0);
                return false;
            }
            c += 1;
        }
        true
    }

    /// Drops row `row`; the rows above it move down by one and an empty row enters at the top.
    fn remove_line(&mut self, row: usize)
        requires
            old(self).wf(),
            row < BOARD_HEIGHT,
        ensures
            final(self).wf(),
            final(self)@ == seq![empty_row()] + old(self)@.remove(row as int),
    {
        self.cells.remove(row);
        let top = empty_row_cells();
        self.cells.insert(0, top);
        assert(self@ =~= seq![empty_row()] + old(self)@.remove(row as int));
        assert forall|r: int, c: int|
            0 <= r < self@.len() && 0 <= c < self@[r].len() implies #[trigger] self@[r][c] <= 7 by {
            if r > 0 {
                if r - 1 < row {
                    assert(self@[r] == old(self)@[r - 1]);
                } else {
                    assert(self@[r] == old(self)@[r]);
                }
            }
        }
    }

    /// Whether no cell of the playfield is occupied.
    pub fn is_empty(&self) -> (r: bool)
        requires
            self.wf(),
        ensures
            r == (self@ == empty_rows(BOARD_HEIGHT as nat)),
    {
        let mut row: usize = 0;
        while row < BOARD_HEIGHT
            invariant
                self.wf(),
                row <= BOARD_HEIGHT,
                forall|r: int| 0 <= r < row ==> #[trigger] self@[r] == empty_row(),
            decreases BOARD_HEIGHT - row,
        {
            let mut col: usize = 0;
            while col < BOARD_WIDTH
                invariant
                    self.wf(),
                    row < BOARD_HEIGHT,
                    col <= BOARD_WIDTH,
                    forall|c: int| 0 <= c < col ==> #[trigger] self@[row as int][c] == 0,
                decreases BOARD_WIDTH - col,
            {
                if self.cells[row][col].id != 0 {
                    assert(self@[row as int][col as int] != 0);
                    assert(self@[row as int] != empty_row());
                    return false;
                }
                col += 1;
            }
            assert(self@[row as int] =~= empty_row());
            row += 1;
        }
        assert(self@ =~= empty_rows(BOARD_HEIGHT as nat));
        true
    }

    /// Removes every full row, settling the rows above down, and says how many were removed.
    pub fn clear_lines(&mut self) -> (r: u32)
        requires
            old(self).wf(),
        ensures
            final(self).wf(),
            final(self)@ == cleared(old(self)@),
            r == full_row_count(old(self)@),
    {
        let ghost rows = self@;
        let mut lines_cleared: u32 = 0;
        let mut pending: usize = BOARD_HEIGHT;
        while pending > 0
            invariant
                self.wf(),
                rows.len() == BOARD_HEIGHT,
                pending <= BOARD_HEIGHT,
                lines_cleared as int + pending as int <= BOARD_HEIGHT,
                self@ == empty_rows(lines_cleared as nat) + rows.subrange(0, pending as int)
                    + kept_rows(rows.subrange(pending as int, BOARD_HEIGHT as int)),
            decreases pending,
        {
            proof {
                lemma_kept_step(rows, pending as int);
            }
            let row = lines_cleared as usize + pending - 1;
            assert(self@[row as int] == rows[pending - 1]);
            if self.is_line_full(row) {
                self.remove_line(row);
                lines_cleared += 1;
                assert(self@ =~= empty_rows(lines_cleared as nat) + rows.subrange(0, pending - 1)
                    + kept_rows(rows.subrange(pending - 1, BOARD_HEIGHT as int)));
            } else {
                assert(self@ =~= empty_rows(lines_cleared as nat) + rows.subrange(0, pending - 1)
                    + kept_rows(rows.subrange(pending - 1, BOARD_HEIGHT as int)));
            }
            pending -= 1;
        }
        assert(rows.subrange(0, BOARD_HEIGHT as int) =~= rows);
        assert(rows.subrange(0, 0) =~= Seq::<Seq<u8>>::empty());
        assert(self@ =~= cleared(rows));
        lines_cleared
    }
}

} // verus!
