//! Cells, the 3x3 board, and the winning lines.

use vstd::prelude::*;

verus! {

/// What a cell holds. The same type names the player to move and the winner,
/// where `Empty` stands for "nobody".
#[derive(Clone, Copy, Debug, PartialEq, Eq, Structural)]
pub enum CellState {
    Empty,
    PlayerO,
    PlayerX,
}

/// The text that shows a cell's content: a blank as wide as a letter for an
/// empty cell, the player's letter for a marked one.
pub open spec fn glyph_of(cell: CellState) -> Seq<char> {
    match cell {
        CellState::Empty => "\u{3000}"@,
        CellState::PlayerO => "O"@,
        CellState::PlayerX => "X"@,
    }
}

impl CellState {
    /// The text that shows this cell's content.
    pub fn glyph(&self) -> (text: &'static str)
        ensures
            text@ == glyph_of(*self),
    {
        match *self {
            CellState::Empty => "\u{3000}",
            CellState::PlayerO => "O",
            CellState::PlayerX => "X",
        }
    }
}

/// Whether the three cells `a`, `b`, `c` of `board` all hold `player`.
pub open spec fn line_held(board: Seq<CellState>, a: int, b: int, c: int, player: CellState) -> bool {
    board[a] == player && board[b] == player && board[c] == player
}

/// The eight winning lines, as triples of row-major cell indices: three rows,
/// three columns, two diagonals.
pub open spec fn winning_lines() -> Seq<(int, int, int)> {
    seq![
        (0, 1, 2),
        (3, 4, 5),
        (6, 7, 8),
        (0, 3, 6),
        (1, 4, 7),
        (2, 5, 8),
        (0, 4, 8),
        (2, 4, 6),
    ]
}

/// Whether `player` holds at least one of the eight winning lines.
pub open spec fn has_line(board: Seq<CellState>, player: CellState) -> bool {
    exists|k: int|
        0 <= k < winning_lines().len() && #[trigger] line_held(
            board,
            winning_lines()[k].0,
            winning_lines()[k].1,
            winning_lines()[k].2,
            player,
        )
}

/// Whether some line is uniformly `PlayerO` or uniformly `PlayerX`.
pub open spec fn won(board: Seq<CellState>) -> bool {
    has_line(board, CellState::PlayerO) || has_line(board, CellState::PlayerX)
}

/// Whether `player` holds one of the eight lines of `cells`.
fn holds_line(cells: &[CellState; 9], player: CellState) -> (held: bool)
    ensures
        held == has_line(cells@, player),
{
    let held = (cells[0] == player && cells[1] == player && cells[2] == player)
        || (cells[3] == player && cells[4] == player && cells[5] == player)
        || (cells[6] == player && cells[7] == player && cells[8] == player)
        || (cells[0] == player && cells[3] == player && cells[6] == player)
        || (cells[1] == player && cells[4] == player && cells[7] == player)
        || (cells[2] == player && cells[5] == player && cells[8] == player)
        || (cells[0] == player && cells[4] == player && cells[8] == player)
        || (cells[2] == player && cells[4] == player && cells[6] == player);
    proof {
        lemma_has_line_unfolded(cells@, player);
    }
    held
}

/// Decides whether the board is won: whether at least one of the eight lines
/// is uniformly `PlayerO` or uniformly `PlayerX`.
pub fn is_won(cells: &[CellState; 9]) -> (result: bool)
    ensures
        result == won(cells@),
{
    holds_line(cells, CellState::PlayerO) || holds_line(cells, CellState::PlayerX)
}

/// `has_line` written out line by line.
pub proof fn lemma_has_line_unfolded(board: Seq<CellState>, player: CellState)
    ensures
        has_line(board, player) <==> {
            ||| line_held(board, 0, 1, 2, player)
            ||| line_held(board, 3, 4, 5, player)
            ||| line_held(board, 6, 7, 8, player)
            ||| line_held(board, 0, 3, 6, player)
            ||| line_held(board, 1, 4, 7, player)
            ||| line_held(board, 2, 5, 8, player)
            ||| line_held(board, 0, 4, 8, player)
            ||| line_held(board, 2, 4, 6, player)
        },
{
    let lines = winning_lines();
    assert(lines.len() == 8);
    assert(lines[0] == (0int, 1int, 2int));
    assert(lines[1] == (3int, 4int, 5int));
    assert(lines[2] == (6int, 7int, 8int));
    assert(lines[3] == (0int, 3int, 6int));
    assert(lines[4] == (1int, 4int, 7int));
    assert(lines[5] == (2int, 5int, 8int));
    assert(lines[6] == (0int, 4int, 8int));
    assert(lines[7] == (2int, 4int, 6int));
    if line_held(board, 0, 1, 2, player) {
        assert(line_held(board, lines[0].0, lines[0].1, lines[0].2, player));
    }
    if line_held(board, 3, 4, 5, player) {
        assert(line_held(board, lines[1].0, lines[1].1, lines[1].2, player));
    }
    if line_held(board, 6, 7, 8, player) {
        assert(line_held(board, lines[2].0, lines[2].1, lines[2].2, player));
    }
    if line_held(board, 0, 3, 6, player) {
        assert(line_held(board, lines[3].0, lines[3].1, lines[3].2, player));
    }
    if line_held(board, 1, 4, 7, player) {
        assert(line_held(board, lines[4].0, lines[4].1, lines[4].2, player));
    }
    if line_held(board, 2, 5, 8, player) {
        assert(line_held(board, lines[5].0, lines[5].1, lines[5].2, player));
    }
    if line_held(board, 0, 4, 8, player) {
        assert(line_held(board, lines[6].0, lines[6].1, lines[6].2, player));
    }
    if line_held(board, 2, 4, 6, player) {
        assert(line_held(board, lines[7].0, lines[7].1, lines[7].2, player));
    }
}

} // verus!
