//! The game itself: its state, the messages it reacts to, and the transition
//! that each message causes.

use vstd::prelude::*;
use crate::board::{is_won, has_line, won, CellState};

verus! {

/// What the player can ask of the game.
#[derive(Clone, Copy, Debug, PartialEq, Eq, Structural)]
pub enum Message {
    /// Place the mark of the player to move on the cell with this row-major
    /// index, `0..=8`.
    Put(usize),
    /// Start a new match.
    Reset,
}

impl Message {
    /// A `Put` names a cell of the board; `Reset` is always valid.
    pub open spec fn valid(self) -> bool {
        self matches Message::Put(position) ==> position < 9
    }

    /// Tests `valid` at run time.
    pub fn is_valid(&self) -> (ok: bool)
        ensures
            ok == self.valid(),
    {
        match *self {
            Message::Put(position) => position < 9,
            Message::Reset => true,
        }
    }
}

/// The player who moves after `player`. Nobody moves after nobody.
pub open spec fn opponent(player: CellState) -> CellState {
    match player {
        CellState::Empty => CellState::Empty,
        CellState::PlayerO => CellState::PlayerX,
        CellState::PlayerX => CellState::PlayerO,
    }
}

/// The mathematical state of a match.
pub ghost struct GameState {
    /// The nine cells, row-major.
    pub board: Seq<CellState>,
    /// The player to move; `Empty` once the match is won.
    pub turn: CellState,
    /// The player who completed a line; `Empty` while there is none.
    pub winner: CellState,
}

impl GameState {
    /// The state in which every match starts: an empty board, `PlayerO` to
    /// move, no winner.
    pub open spec fn initial() -> GameState {
        GameState {
            board: Seq::new(9, |i: int| CellState::Empty),
            turn: CellState::PlayerO,
            winner: CellState::Empty,
        }
    }

    /// What holds of every state that play can reach: the board has nine
    /// cells; while nobody has won, somebody is to move and no line is
    /// complete; once somebody has won, nobody is to move and the winner
    /// holds a line.
    pub open spec fn wf(self) -> bool {
        &&& self.board.len() == 9
        &&& self.winner is Empty ==> self.turn !is Empty && !won(self.board)
        &&& self.winner !is Empty ==> self.turn is Empty && has_line(self.board, self.winner)
    }

    /// Whether `message` can be applied: while the match is undecided a
    /// `Put` must name a cell of the board. In a decided match every `Put` is
    /// refused before its cell is looked at, so any will do.
    pub open spec fn admits(self, message: Message) -> bool {
        self.winner is Empty ==> message.valid()
    }

    /// Whether a `Put` on `position` places a mark: the match is undecided
    /// and the cell is free.
    pub open spec fn accepts(self, position: int) -> bool {
        self.winner is Empty && self.board[position] is Empty
    }

    /// The state after `Put(position)`. A refused `Put` changes nothing. An
    /// accepted one marks the cell for the player to move; if that completes
    /// a line the player has won and nobody is to move, else the opponent is
    /// to move.
    pub open spec fn put(self, position: int) -> GameState {
        if !self.accepts(position) {
            self
        } else {
            let board = self.board.update(position, self.turn);
            if won(board) {
                GameState { board, turn: CellState::Empty, winner: self.turn }
            } else {
                GameState { board, turn: opponent(self.turn), winner: self.winner }
            }
        }
    }

    /// The state after `message`.
    pub open spec fn step(self, message: Message) -> GameState {
        match message {
            Message::Put(position) => self.put(position as int),
            Message::Reset => GameState::initial(),
        }
    }
}

/// A match of tic-tac-toe.
pub struct GameModel {
    board: [CellState; 9],
    turn: CellState,
    winner: CellState,
}

impl GameModel {
    /// The mathematical state that this model holds.
    pub closed spec fn state(&self) -> GameState {
        GameState { board: self.board@, turn: self.turn, winner: self.winner }
    }

    /// A new match in its initial state.
    pub fn create() -> (model: GameModel)
        ensures
            model.state() == GameState::initial(),
            model.state().wf(),
    {
        let model = GameModel {
            board: [CellState::Empty; 9],
            turn: CellState::PlayerO,
            winner: CellState::Empty,
        };
        proof {
            assert(model.state().board =~= GameState::initial().board);
            lemma_initial_wf();
        }
        model
    }

    /// Tests at run time whether `update` can be called with `message`.
    pub fn admits(&self, message: Message) -> (ok: bool)
        ensures
            ok == self.state().admits(message),
    {
        self.winner != CellState::Empty || message.is_valid()
    }

    /// Applies `message` and says whether the screen must be drawn again,
    /// which is always so, also where a `Put` was refused.
    pub fn update(&mut self, message: Message) -> (render: bool)
        requires
            old(self).state().admits(message),
        ensures
            render,
            final(self).state() == old(self).state().step(message),
            old(self).state().wf() ==> final(self).state().wf(),
    {
        proof {
            if self.state().wf() {
                lemma_step_preserves_wf(self.state(), message);
            }
        }
        match message {
            Message::Put(position) => {
                if self.winner != CellState::Empty {
                    return true;
                }
                if self.board[position] != CellState::Empty {
                    return true;
                }
                self.board[position] = self.turn;
                if is_won(&self.board) {
                    self.winner = self.turn;
                    self.turn = CellState::Empty;
                } else {
                    self.turn = match self.turn {
                        CellState::Empty => CellState::Empty,
                        CellState::PlayerO => CellState::PlayerX,
                        CellState::PlayerX => CellState::PlayerO,
                    };
                }
            },
            Message::Reset => {
                self.board = [CellState::Empty; 9];
                self.turn = CellState::PlayerO;
                self.winner = CellState::Empty;
                assert(self.state().board =~= GameState::initial().board);
            },
        }
        true
    }

    /// Reacts to a change of the properties that the host passes in. The
    /// game has none, so nothing changes and nothing is drawn again.
    pub fn change(&mut self) -> (render: bool)
        ensures
            !render,
            final(self).state() == old(self).state(),
    {
        false
    }

    /// The nine cells, row-major.
    pub fn board(&self) -> (cells: &[CellState; 9])
        ensures
            cells@ == self.state().board,
    {
        &self.board
    }

    /// The player to move, `Empty` once the match is won.
    pub fn turn(&self) -> (player: CellState)
        ensures
            player == self.state().turn,
    {
        self.turn
    }

    /// The winner, `Empty` while there is none.
    pub fn winner(&self) -> (player: CellState)
        ensures
            player == self.state().winner,
    {
        self.winner
    }
}

/// The initial state is well formed.
pub proof fn lemma_initial_wf()
    ensures
        GameState::initial().wf(),
{
    let board = GameState::initial().board;
    crate::board::lemma_has_line_unfolded(board, CellState::PlayerO);
    crate::board::lemma_has_line_unfolded(board, CellState::PlayerX);
}

/// Every step from a well-formed state by a message that it admits ends in
/// a well-formed state.
pub proof fn lemma_step_preserves_wf(state: GameState, message: Message)
    requires
        state.wf(),
        state.admits(message),
    ensures
        state.step(message).wf(),
{
    match message {
        Message::Put(position) => {
            let position = position as int;
            if state.accepts(position) {
                let board = state.board.update(position, state.turn);
                if won(board) {
                    lemma_new_line_is_movers(state.board, position, state.turn);
                }
            }
        },
        Message::Reset => {
            lemma_initial_wf();
        },
    }
}

/// Where no line was complete and marking one free cell for `player`
/// completes one, that line is `player`'s.
pub proof fn lemma_new_line_is_movers(board: Seq<CellState>, position: int, player: CellState)
    requires
        board.len() == 9,
        0 <= position < 9,
        board[position] is Empty,
        player !is Empty,
        !won(board),
        won(board.update(position, player)),
    ensures
        has_line(board.update(position, player), player),
{
    let after = board.update(position, player);
    let rival = opponent(player);
    crate::board::lemma_has_line_unfolded(board, rival);
    crate::board::lemma_has_line_unfolded(after, rival);
}

} // verus!
