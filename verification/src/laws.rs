//! What holds of every match, stated over sequences of messages and proved
//! from the definition of a step.

use vstd::prelude::*;
use crate::board::{won, CellState};
use crate::game::{lemma_initial_wf, lemma_step_preserves_wf, opponent, GameState, Message};

verus! {

/// Every message of the sequence is valid.
pub open spec fn all_valid(messages: Seq<Message>) -> bool {
    forall|k: int| 0 <= k < messages.len() ==> (#[trigger] messages[k]).valid()
}

/// No message of the sequence is a `Reset`.
pub open spec fn only_puts(messages: Seq<Message>) -> bool {
    forall|k: int| 0 <= k < messages.len() ==> #[trigger] messages[k] is Put
}

/// The state after the messages have been applied to `state`, first to last.
pub open spec fn run(state: GameState, messages: Seq<Message>) -> GameState
    decreases messages.len(),
{
    if messages.len() == 0 {
        state
    } else {
        run(state, messages.drop_last()).step(messages.last())
    }
}

/// Running one message more is running the shorter sequence and then taking
/// one step.
pub proof fn lemma_run_one_more(state: GameState, messages: Seq<Message>, k: int)
    requires
        0 <= k < messages.len(),
    ensures
        run(state, messages.take(k + 1)) == run(state, messages.take(k)).step(messages[k]),
{
    let longer = messages.take(k + 1);
    assert(longer.drop_last() =~= messages.take(k));
    assert(longer.last() == messages[k]);
}

/// A step by a valid message keeps the board at nine cells.
pub proof fn lemma_step_keeps_board_size(state: GameState, message: Message)
    requires
        state.board.len() == 9,
        message.valid(),
    ensures
        state.step(message).board.len() == 9,
{
}

/// Valid messages keep the board at nine cells.
pub proof fn lemma_run_keeps_board_size(state: GameState, messages: Seq<Message>)
    requires
        state.board.len() == 9,
        all_valid(messages),
    ensures
        run(state, messages).board.len() == 9,
    decreases messages.len(),
{
    if messages.len() > 0 {
        lemma_run_keeps_board_size(state, messages.drop_last());
        lemma_step_keeps_board_size(run(state, messages.drop_last()), messages.last());
    }
}

/// Valid messages lead from a well-formed state to a well-formed state.
pub proof fn lemma_run_preserves_wf(state: GameState, messages: Seq<Message>)
    requires
        state.wf(),
        all_valid(messages),
    ensures
        run(state, messages).wf(),
    decreases messages.len(),
{
    if messages.len() > 0 {
        lemma_run_preserves_wf(state, messages.drop_last());
        lemma_step_preserves_wf(run(state, messages.drop_last()), messages.last());
    }
}

/// Every state that play reaches from the start is well formed: nobody is
/// to move only once somebody has won, and there is a winner exactly when a
/// line is complete, which is then the winner's.
pub proof fn lemma_reachable_states_wf(messages: Seq<Message>)
    requires
        all_valid(messages),
    ensures
        run(GameState::initial(), messages).wf(),
{
    lemma_initial_wf();
    lemma_run_preserves_wf(GameState::initial(), messages);
}

/// A `Put` never changes a cell that is already marked.
pub proof fn lemma_put_keeps_marks(state: GameState, position: int, cell: int)
    requires
        state.board.len() == 9,
        0 <= position < 9,
        0 <= cell < 9,
        state.board[cell] !is Empty,
    ensures
        state.put(position).board[cell] == state.board[cell],
{
}

/// A `Put` changes no cell but the one it names.
pub proof fn lemma_put_touches_one_cell(state: GameState, position: int, cell: int)
    requires
        state.board.len() == 9,
        0 <= position < 9,
        0 <= cell < 9,
        cell != position,
    ensures
        state.put(position).board[cell] == state.board[cell],
{
}

/// Between two resets a cell changes at most once, away from `Empty`: once
/// it is marked after `j` of the messages, it holds that same mark after any
/// `k >= j` of them.
pub proof fn lemma_cell_marked_once(
    state: GameState,
    messages: Seq<Message>,
    cell: int,
    j: int,
    k: int,
)
    requires
        state.board.len() == 9,
        all_valid(messages),
        only_puts(messages),
        0 <= cell < 9,
        0 <= j <= k <= messages.len(),
        run(state, messages.take(j)).board[cell] !is Empty,
    ensures
        run(state, messages.take(k)).board[cell] == run(state, messages.take(j)).board[cell],
    decreases k - j,
{
    if j < k {
        lemma_cell_marked_once(state, messages, cell, j, k - 1);
        let before = run(state, messages.take(k - 1));
        assert(all_valid(messages.take(k - 1)));
        lemma_run_keeps_board_size(state, messages.take(k - 1));
        lemma_run_one_more(state, messages, k - 1);
        let message = messages[k - 1];
        assert(message.valid());
        assert(message is Put);
        lemma_put_keeps_marks(before, message->Put_0 as int, cell);
    }
}

/// A `Reset` leads from any state to the initial one: nine empty cells,
/// `PlayerO` to move, no winner. So does any sequence of messages that ends
/// in one.
pub proof fn lemma_reset_restores_initial(state: GameState, messages: Seq<Message>)
    ensures
        state.step(Message::Reset) == GameState::initial(),
        run(state, messages.push(Message::Reset)) == GameState::initial(),
        GameState::initial().board.len() == 9,
        forall|cell: int| 0 <= cell < 9 ==> GameState::initial().board[cell] is Empty,
        GameState::initial().turn is PlayerO,
        GameState::initial().winner is Empty,
{
    let longer = messages.push(Message::Reset);
    assert(longer.last() == Message::Reset);
}

/// An accepted `Put` marks the cell for the player to move. Unless that
/// completes a line, the turn passes to the other player: from `PlayerO` to
/// `PlayerX` and from `PlayerX` to `PlayerO`. If it does, the mover has won
/// and nobody is to move.
pub proof fn lemma_accepted_put_passes_turn(state: GameState, position: int)
    requires
        state.wf(),
        0 <= position < 9,
        state.accepts(position),
    ensures
        state.turn is PlayerO || state.turn is PlayerX,
        state.put(position).board == state.board.update(position, state.turn),
        !won(state.put(position).board) ==> {
            &&& state.put(position).winner is Empty
            &&& state.put(position).turn == opponent(state.turn)
            &&& state.turn is PlayerO ==> state.put(position).turn is PlayerX
            &&& state.turn is PlayerX ==> state.put(position).turn is PlayerO
        },
        won(state.put(position).board) ==> {
            &&& state.put(position).winner == state.turn
            &&& state.put(position).turn is Empty
        },
{
}

/// A refused `Put`, on a marked cell or in a decided match, changes nothing.
pub proof fn lemma_refused_put_changes_nothing(state: GameState, position: int)
    requires
        !state.accepts(position),
    ensures
        state.put(position) == state,
{
}

/// Once there is a winner, no sequence of `Put`s changes the board, the turn
/// or the winner.
pub proof fn lemma_decided_match_ignores_puts(state: GameState, messages: Seq<Message>)
    requires
        state.winner !is Empty,
        only_puts(messages),
    ensures
        run(state, messages) == state,
    decreases messages.len(),
{
    if messages.len() > 0 {
        lemma_decided_match_ignores_puts(state, messages.drop_last());
        assert(messages.last() is Put);
    }
}

} // verus!
