use vstd::prelude::*;

use crate::player::{other, Player};

verus! {

/// Number of cells on the board.
pub const CELLS: usize = 9;

/// Width (and height) of the board.
pub const GRID_DIM: usize = 3;

/// How a match stands after a move.
#[derive(Clone, Copy, PartialEq, Eq, Structural, Debug)]
pub enum Outcome {
    InProgress,
    Win(Player),
    Draw,
}

/// What a move did: the outcome it led to and the mark that was written.
#[derive(Clone, Copy, PartialEq, Eq, Structural, Debug)]
pub struct MoveResult {
    pub outcome: Outcome,
    pub played: Player,
}

/// The three flat indices of line `k`: rows for 0..3, columns for 3..6, then
/// the main diagonal and the anti-diagonal.
pub open spec fn line(k: int) -> (int, int, int) {
    if k == 0 {
        (0, 1, 2)
    } else if k == 1 {
        (3, 4, 5)
    } else if k == 2 {
        (6, 7, 8)
    } else if k == 3 {
        (0, 3, 6)
    } else if k == 4 {
        (1, 4, 7)
    } else if k == 5 {
        (2, 5, 8)
    } else if k == 6 {
        (0, 4, 8)
    } else {
        (2, 4, 6)
    }
}

/// All three cells of line `k` hold `p`.
pub open spec fn wins_line(g: Seq<Option<Player>>, k: int, p: Player) -> bool {
    let (a, b, c) = line(k);
    g[a] == Some(p) && g[b] == Some(p) && g[c] == Some(p)
}

/// Some line of the grid is completed by `p`.
pub open spec fn has_won(g: Seq<Option<Player>>, p: Player) -> bool {
    wins_line(g, 0, p) || wins_line(g, 1, p) || wins_line(g, 2, p) || wins_line(g, 3, p)
        || wins_line(g, 4, p) || wins_line(g, 5, p) || wins_line(g, 6, p) || wins_line(g, 7, p)
}

/// Every cell is occupied.
pub open spec fn is_full(g: Seq<Option<Player>>) -> bool {
    forall|i: int| 0 <= i < 9 ==> (#[trigger] g[i]).is_some()
}

/// A grid on which a match can go on: nine cells, no completed line, a free cell.
pub open spec fn in_play(g: Seq<Option<Player>>) -> bool {
    g.len() == 9 && !has_won(g, Player::X) && !has_won(g, Player::O) && !is_full(g)
}

/// The grid with all nine cells empty.
pub open spec fn empty_grid() -> Seq<Option<Player>> {
    Seq::new(9, |i: int| None)
}

/// The outcome of a grid on which `p` has just moved.
pub open spec fn outcome_of(g: Seq<Option<Player>>, p: Player) -> Outcome {
    if has_won(g, p) {
        Outcome::Win(p)
    } else if is_full(g) {
        Outcome::Draw
    } else {
        Outcome::InProgress
    }
}

/// The outcome of `p` writing its mark into the free cell `idx` of `g`.
pub open spec fn move_outcome(g: Seq<Option<Player>>, idx: int, p: Player) -> Outcome {
    outcome_of(g.update(idx, Some(p)), p)
}

/// The grid after `p` selects cell `idx`: unchanged where the cell is taken;
/// otherwise the mark is written, and the grid is cleared when that ends the match.
pub open spec fn grid_after(g: Seq<Option<Player>>, idx: int, p: Player) -> Seq<Option<Player>> {
    if g[idx].is_some() {
        g
    } else if move_outcome(g, idx, p) == Outcome::InProgress {
        g.update(idx, Some(p))
    } else {
        empty_grid()
    }
}

/// The player to move after `p` selects cell `idx` of `g`: the turn passes only
/// on a move that leaves the match in progress.
pub open spec fn turn_after(g: Seq<Option<Player>>, idx: int, p: Player) -> Player {
    if g[idx].is_none() && move_outcome(g, idx, p) == Outcome::InProgress {
        other(p)
    } else {
        p
    }
}

/// `c` holds the mark of `p`.
fn holds(c: Option<Player>, p: Player) -> (r: bool)
    ensures
        r == (c == Some(p)),
{
    match c {
        Some(q) => q == p,
        None => false,
    }
}

/// The cells `a`, `b` and `c` of the grid all hold `p`.
fn line_is(cells: &[Option<Player>; 9], a: usize, b: usize, c: usize, p: Player) -> (r: bool)
    requires
        a < 9,
        b < 9,
        c < 9,
    ensures
        r == (cells@[a as int] == Some(p) && cells@[b as int] == Some(p) && cells@[c as int]
            == Some(p)),
{
    holds(cells[a], p) && holds(cells[b], p) && holds(cells[c], p)
}

/// The grid and the player whose turn it is, for one match.
pub struct GameState {
    cells: [Option<Player>; 9],
    turn: Player,
}

impl GameState {
    /// The cells in flat order: cell `(row, col)` stands at `3 * row + col`.
    pub closed spec fn grid(&self) -> Seq<Option<Player>> {
        self.cells@
    }

    /// The player who writes the next mark.
    pub closed spec fn next(&self) -> Player {
        self.turn
    }

    /// The grid is one on which the match goes on.
    pub open spec fn wf(&self) -> bool {
        in_play(self.grid())
    }

    /// A match on an empty grid, with `first` to move.
    pub fn new(first: Player) -> (s: GameState)
        ensures
            s.wf(),
            s.grid() == empty_grid(),
            s.next() == first,
    {
        let s = GameState { cells: [None; 9], turn: first };
        assert(s.cells@ =~= empty_grid());
        s
    }
    /// The content of cell `index`.
    pub fn cell(&self, index: usize) -> (r: Option<Player>)
        requires
            index < 9,
        ensures
            r == self.grid()[index as int],
    {
        self.cells[index]
    }

    /// The content of cell `(row, col)`.
    pub fn cell_at(&self, row: usize, col: usize) -> (r: Option<Player>)
        requires
            row < 3,
            col < 3,
        ensures
            r == self.grid()[3 * row + col],
    {
        self.cells[GRID_DIM * row + col]
    }

    /// A copy of all nine cells in flat order.
    pub fn cells(&self) -> (r: [Option<Player>; 9])
        ensures
            r@ == self.grid(),
    {
        self.cells
    }

    /// The player who writes the next mark.
    pub fn turn(&self) -> (r: Player)
        ensures
            r == self.next(),
    {
        self.turn
    }

    /// Clears the grid and gives the first move of the new match to `first`.
    pub fn restart(&mut self, first: Player)
        ensures
            final(self).wf(),
            final(self).grid() == empty_grid(),
            final(self).next() == first,
    {
        self.cells = [None; 9];
        self.turn = first;
        assert(self.cells@ =~= empty_grid());
    }

    /// Every cell is occupied.
    fn full(&self) -> (r: bool)
        ensures
            r == is_full(self.cells@),
    {
        let mut i: usize = 0;
        while i < CELLS
            invariant
                i <= 9,
                forall|j: int| 0 <= j < i ==> (#[trigger] self.cells@[j]).is_some(),
            decreases 9 - i,
        {
            if self.cells[i].is_none() {
                return false;
            }
            i = i + 1;
        }
        true
    }

    /// Writes the mark of the player to move into cell `index`.
    ///
    /// Selecting an occupied cell changes nothing and gives `None`. Otherwise
    /// the result holds the mark written and the outcome, found from the lines
    /// through the selected cell alone. A win or a draw clears the grid and
    /// keeps the turn; a move that leaves the match in progress passes the turn.
    pub fn place_mark(&mut self, index: usize) -> (r: Option<MoveResult>)
        requires
            old(self).wf(),
            index < 9,
        ensures
            final(self).wf(),
            final(self).grid() == grid_after(old(self).grid(), index as int, old(self).next()),
            final(self).next() == turn_after(old(self).grid(), index as int, old(self).next()),
            r == (if old(self).grid()[index as int].is_some() {
                None
            } else {
                Some(
                    MoveResult {
                        outcome: move_outcome(old(self).grid(), index as int, old(self).next()),
                        played: old(self).next(),
                    },
                )
            }),
    {
        let p = self.turn;
        if self.cells[index].is_some() {
            return None;
        }
        let ghost g = self.cells@;
        self.cells[index] = Some(p);
        assert(self.cells@ == g.update(index as int, Some(p)));
        let row = index / GRID_DIM;
        let col = index % GRID_DIM;
        let won = line_is(&self.cells, GRID_DIM * row, GRID_DIM * row + 1, GRID_DIM * row + 2, p)
            || line_is(&self.cells, col, col + GRID_DIM, col + 2 * GRID_DIM, p)
            || (row == col && line_is(&self.cells, 0, 4, 8, p))
            || (row + col == 2 && line_is(&self.cells, 2, 4, 6, p));
        proof {
            lemma_local_check(g, index as int, p);
        }
        if won {
            self.cells = [None; 9];
            assert(self.cells@ =~= empty_grid());
            return Some(MoveResult { outcome: Outcome::Win(p), played: p });
        }
        if self.full() {
            self.cells = [None; 9];
            assert(self.cells@ =~= empty_grid());
            return Some(MoveResult { outcome: Outcome::Draw, played: p });
        }
        self.turn = p.other();
        Some(MoveResult { outcome: Outcome::InProgress, played: p })
    }
}

/// On a grid in play, a move completes a line only through the cell it fills,
/// and never completes one for the opponent.
proof fn lemma_local_check(g: Seq<Option<Player>>, idx: int, p: Player)
    requires
        in_play(g),
        0 <= idx < 9,
        g[idx].is_none(),
    ensures
        ({
            let h = g.update(idx, Some(p));
            let row = idx / 3;
            let col = idx % 3;
            &&& has_won(h, p) <==> ((h[3 * row] == Some(p) && h[3 * row + 1] == Some(p) && h[3
                * row + 2] == Some(p)) || (h[col] == Some(p) && h[col + 3] == Some(p) && h[col
                + 6] == Some(p)) || (row == col && wins_line(h, 6, p)) || (row + col == 2
                && wins_line(h, 7, p)))
            &&& !has_won(h, other(p))
        }),
{
    assert(0 <= idx < 9);
    if idx == 0 {
    } else if idx == 1 {
    } else if idx == 2 {
    } else if idx == 3 {
    } else if idx == 4 {
    } else if idx == 5 {
    } else if idx == 6 {
    } else if idx == 7 {
    } else {
    }
}

/// A written cell keeps its mark for the rest of the match: selecting it again
/// changes nothing, and every move that leaves the match in progress keeps it.
pub proof fn lemma_cells_written_once(g: Seq<Option<Player>>, idx: int, p: Player, i: int)
    requires
        in_play(g),
        0 <= idx < 9,
        0 <= i < 9,
        g[i].is_some(),
        g[idx].is_some() || move_outcome(g, idx, p) == Outcome::InProgress,
    ensures
        grid_after(g, idx, p)[i] == g[i],
        g[idx].is_some() ==> grid_after(g, idx, p) == g && turn_after(g, idx, p) == p,
{
}

/// The turn passes to the other player after every move that leaves the match
/// in progress, and stays with the player whose move ended it.
pub proof fn lemma_turn_alternates(g: Seq<Option<Player>>, idx: int, p: Player)
    requires
        in_play(g),
        0 <= idx < 9,
        g[idx].is_none(),
    ensures
        move_outcome(g, idx, p) == Outcome::InProgress ==> turn_after(g, idx, p) == other(p),
        move_outcome(g, idx, p) != Outcome::InProgress ==> turn_after(g, idx, p) == p,
{
}

/// Completing any of the eight lines with the mover's mark wins the match for
/// that mark.
pub proof fn lemma_completed_line_wins(g: Seq<Option<Player>>, idx: int, p: Player, k: int)
    requires
        in_play(g),
        0 <= idx < 9,
        g[idx].is_none(),
        0 <= k < 8,
        wins_line(g.update(idx, Some(p)), k, p),
    ensures
        move_outcome(g, idx, p) == Outcome::Win(p),
{
}

/// Filling the last free cell without completing a line is a draw.
pub proof fn lemma_full_grid_without_line_draws(g: Seq<Option<Player>>, idx: int, p: Player)
    requires
        in_play(g),
        0 <= idx < 9,
        g[idx].is_none(),
        forall|i: int| 0 <= i < 9 && i != idx ==> (#[trigger] g[i]).is_some(),
        !has_won(g.update(idx, Some(p)), p),
    ensures
        move_outcome(g, idx, p) == Outcome::Draw,
{
    let h = g.update(idx, Some(p));
    assert forall|i: int| 0 <= i < 9 implies (#[trigger] h[i]).is_some() by {
        if i != idx {
            assert(g[i].is_some());
        }
    }
}

/// A move that wins or draws leaves the grid empty for the next match.
pub proof fn lemma_match_end_clears_grid(g: Seq<Option<Player>>, idx: int, p: Player)
    requires
        in_play(g),
        0 <= idx < 9,
        g[idx].is_none(),
        move_outcome(g, idx, p) != Outcome::InProgress,
    ensures
        grid_after(g, idx, p) == empty_grid(),
        forall|i: int| 0 <= i < 9 ==> (#[trigger] grid_after(g, idx, p)[i]).is_none(),
{
}

} // verus!
