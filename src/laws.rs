use vstd::prelude::*;

use crate::console::ConsoleModel;

verus! {

/// The state after moving the cursor once per entry of `moves`: right for
/// `true`, left for `false`.
pub open spec fn apply_moves(m: ConsoleModel, moves: Seq<bool>) -> ConsoleModel
    decreases moves.len(),
{
    if moves.len() == 0 {
        m
    } else {
        let next = if moves[0] {
            m.cursor_right()
        } else {
            m.cursor_left()
        };
        apply_moves(next, moves.drop_first())
    }
}

/// The state after one wheel movement per entry of `deltas`.
pub open spec fn apply_scrolls(m: ConsoleModel, deltas: Seq<i32>) -> ConsoleModel
    decreases deltas.len(),
{
    if deltas.len() == 0 {
        m
    } else {
        apply_scrolls(m.scroll(deltas[0]), deltas.drop_first())
    }
}

/// Any run of cursor moves keeps the cursor between the start and the end
/// of the input, on a character, and leaves the input as it was.
pub proof fn lemma_cursor_moves_stay_in_bounds(m: ConsoleModel, moves: Seq<bool>)
    requires
        m.wf(),
    ensures
        apply_moves(m, moves).wf(),
        apply_moves(m, moves).cursor <= apply_moves(m, moves).input.len(),
        apply_moves(m, moves).input == m.input,
    decreases moves.len(),
{
    if moves.len() > 0 {
        let next = if moves[0] {
            m.cursor_right()
        } else {
            m.cursor_left()
        };
        lemma_cursor_moves_stay_in_bounds(next, moves.drop_first());
    }
}

/// Deleting the character before the cursor and typing it again gives back
/// the same input and cursor.
pub proof fn lemma_backspace_then_reinsert(m: ConsoleModel)
    requires
        m.wf(),
        m.visible,
        m.cursor > 0,
    ensures
        m.backspace().add_text(seq![m.input[m.cursor - 1]]).input == m.input,
        m.backspace().add_text(seq![m.input[m.cursor - 1]]).cursor == m.cursor,
{
    let k = m.cursor - 1;
    assert(m.input.remove(k).insert(k, m.input[k]) =~= m.input);
}

/// Committing an empty input adds nothing to the history, and leaves no
/// command to take when none was pending.
pub proof fn lemma_commit_empty(m: ConsoleModel)
    requires
        m.wf(),
        m.input.len() == 0,
        m.pending.len() == 0,
    ensures
        m.commit().history.len() == m.history.len(),
        m.commit().take_command().1 is None,
{
}

/// After a command is committed, going back in the history recalls it, and
/// going forward again empties the input.
pub proof fn lemma_history_round_trip(m: ConsoleModel)
    requires
        m.wf(),
        m.input.len() > 0,
    ensures
        m.commit().history_back().input == m.input,
        m.commit().history_back().cursor == m.input.len(),
        m.commit().history_back().history_forward().input.len() == 0,
{
}

/// A command is taken at most once: a second take right after the first
/// gives nothing.
pub proof fn lemma_take_at_most_once(m: ConsoleModel)
    ensures
        m.take_command().0.take_command().1 is None,
{
}

/// After a non-empty commit, the first take gives the command and the second
/// gives nothing.
pub proof fn lemma_commit_then_take_twice(m: ConsoleModel)
    requires
        m.wf(),
        m.input.len() > 0,
    ensures
        m.commit().take_command().1 == Some(m.input),
        m.commit().take_command().0.take_command().1 is None,
{
}

/// No run of wheel movements scrolls the view below zero.
pub proof fn lemma_scroll_never_negative(m: ConsoleModel, deltas: Seq<i32>)
    requires
        m.wf(),
    ensures
        apply_scrolls(m, deltas).wf(),
        apply_scrolls(m, deltas).scroll_y >= 0,
    decreases deltas.len(),
{
    if deltas.len() > 0 {
        lemma_scroll_never_negative(m.scroll(deltas[0]), deltas.drop_first());
    }
}

} // verus!
