//! What the screen shows for a state of the game, as plain data: nine cell
//! buttons, a status line and a reset button. Drawing it is the host's part.

use vstd::prelude::*;
use crate::board::{glyph_of, CellState};
use crate::game::{GameModel, GameState, Message};

verus! {

/// A control that the player can activate.
#[derive(Clone, Copy, Debug, PartialEq, Eq)]
pub struct Button {
    /// The text on the button.
    pub label: &'static str,
    /// The message that the game receives when the button is activated.
    pub message: Message,
}

/// A button, with its label as a sequence of characters.
pub ghost struct ButtonView {
    pub label: Seq<char>,
    pub message: Message,
}

impl View for Button {
    type V = ButtonView;

    open spec fn view(&self) -> ButtonView {
        ButtonView { label: self.label@, message: self.message }
    }
}

/// Everything on the screen.
#[derive(Clone, Copy, Debug, PartialEq, Eq)]
pub struct Scene {
    /// The heading above the board.
    pub heading: &'static str,
    /// One button per cell, row-major, three to a row.
    pub cells: [Button; 9],
    /// The line that says who is to move or who has won.
    pub status: &'static str,
    /// The button that starts a new match.
    pub reset: Button,
}

/// A scene, with its texts as sequences of characters.
pub ghost struct SceneView {
    pub heading: Seq<char>,
    pub cells: Seq<ButtonView>,
    pub status: Seq<char>,
    pub reset: ButtonView,
}

impl View for Scene {
    type V = SceneView;

    open spec fn view(&self) -> SceneView {
        SceneView {
            heading: self.heading@,
            cells: Seq::new(9, |i: int| self.cells@[i]@),
            status: self.status@,
            reset: self.reset@,
        }
    }
}

/// The status line: who has won, if anybody has; else who is to move, and
/// nothing if nobody is.
pub open spec fn status_of(state: GameState) -> Seq<char> {
    match state.winner {
        CellState::PlayerO => "O won!"@,
        CellState::PlayerX => "X won!"@,
        CellState::Empty => match state.turn {
            CellState::PlayerO => "O's turn"@,
            CellState::PlayerX => "X's turn"@,
            CellState::Empty => ""@,
        },
    }
}

/// The button of cell `index`: it shows the cell's content and puts a mark
/// on that cell.
pub open spec fn cell_button_of(state: GameState, index: int) -> ButtonView {
    ButtonView { label: glyph_of(state.board[index]), message: Message::Put(index as usize) }
}

/// The scene that shows `state`.
pub open spec fn scene_of(state: GameState) -> SceneView {
    SceneView {
        heading: "OX game"@,
        cells: Seq::new(9, |i: int| cell_button_of(state, i)),
        status: status_of(state),
        reset: ButtonView { label: "reset"@, message: Message::Reset },
    }
}

/// The button of cell `position` of `cells`.
fn cell_button(cells: &[CellState; 9], position: usize) -> (button: Button)
    requires
        position < 9,
    ensures
        button@.label == glyph_of(cells@[position as int]),
        button@.message == Message::Put(position),
{
    Button { label: cells[position].glyph(), message: Message::Put(position) }
}

impl GameModel {
    /// The status line for this state.
    pub fn status(&self) -> (text: &'static str)
        ensures
            text@ == status_of(self.state()),
    {
        match self.winner() {
            CellState::PlayerO => "O won!",
            CellState::PlayerX => "X won!",
            CellState::Empty => match self.turn() {
                CellState::PlayerO => "O's turn",
                CellState::PlayerX => "X's turn",
                CellState::Empty => "",
            },
        }
    }

    /// Describes the screen for this state. The model is left as it is.
    pub fn view(&self) -> (scene: Scene)
        ensures
            scene@ == scene_of(self.state()),
    {
        let cells = self.board();
        let scene = Scene {
            heading: "OX game",
            cells: [
                cell_button(cells, 0),
                cell_button(cells, 1),
                cell_button(cells, 2),
                cell_button(cells, 3),
                cell_button(cells, 4),
                cell_button(cells, 5),
                cell_button(cells, 6),
                cell_button(cells, 7),
                cell_button(cells, 8),
            ],
            status: self.status(),
            reset: Button { label: "reset", message: Message::Reset },
        };
        assert(scene@.cells =~= scene_of(self.state()).cells);
        scene
    }
}

} // verus!
