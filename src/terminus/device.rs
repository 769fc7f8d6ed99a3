//! A model of the device's cursor: where each control sequence leaves it on
//! a screen of a given size, and what a save and a restore do.
use vstd::prelude::*;

use crate::terminus::ansi_escape_sequences::CSI;

verus! {

/// `v` brought into `[1, max]`.
pub open spec fn clamp(v: int, max: int) -> int {
    if v < 1 {
        1
    } else if v > max {
        max
    } else {
        v
    }
}

/// The device's cursor: its position as (row, column), counted from 1, and
/// the position it saved, if any.
pub type CursorModel = ((int, int), Option<(int, int)>);

/// Where `command` leaves the cursor on a screen of `rows` × `cols`. Moves
/// stop at the edges; a restore with nothing saved leaves the cursor where it
/// is; commands that do not move it leave it.
pub open spec fn step(command: CSI, state: CursorModel, rows: int, cols: int) -> CursorModel {
    let ((row, col), saved) = state;
    match command {
        CSI::CursorUp(n) => ((clamp(row - n, rows), col), saved),
        CSI::CursorDown(n) => ((clamp(row + n, rows), col), saved),
        CSI::CursorForward(n) => ((row, clamp(col + n, cols)), saved),
        CSI::CursorBack(n) => ((row, clamp(col - n, cols)), saved),
        CSI::CursorNextLine(n) => ((clamp(row + n, rows), 1), saved),
        CSI::CursorPreviousLine(n) => ((clamp(row - n, rows), 1), saved),
        CSI::CursorHorizontalAbsolute(n) => ((row, clamp(n as int, cols)), saved),
        CSI::CursorPosition(n, m) => ((clamp(n as int, rows), clamp(m as int, cols)), saved),
        CSI::HorizontalVerticalPosition(n, m) => (
            (clamp(n as int, rows), clamp(m as int, cols)),
            saved,
        ),
        CSI::SaveCursorPosition => ((row, col), Some((row, col))),
        CSI::RestoreCursorPosition => match saved {
            Some(p) => (p, saved),
            None => ((row, col), saved),
        },
        _ => ((row, col), saved),
    }
}

/// Where `commands`, run in order, leave the cursor.
pub open spec fn run(commands: Seq<CSI>, state: CursorModel, rows: int, cols: int) -> CursorModel
    decreases commands.len(),
{
    if commands.len() == 0 {
        state
    } else {
        run(commands.drop_first(), step(commands[0], state, rows, cols), rows, cols)
    }
}

/// Whether `command` touches the saved position.
pub open spec fn uses_save_slot(command: CSI) -> bool {
    command is SaveCursorPosition || command is RestoreCursorPosition
}

proof fn lemma_moves_keep_saved(moves: Seq<CSI>, state: CursorModel, rows: int, cols: int)
    requires
        forall|i: int| 0 <= i < moves.len() ==> !uses_save_slot(#[trigger] moves[i]),
    ensures
        run(moves, state, rows, cols).1 == state.1,
    decreases moves.len(),
{
    if moves.len() > 0 {
        assert(!uses_save_slot(moves[0]));
        lemma_moves_keep_saved(moves.drop_first(), step(moves[0], state, rows, cols), rows, cols);
    }
}

proof fn lemma_run_one(command: CSI, state: CursorModel, rows: int, cols: int)
    ensures
        run(seq![command], state, rows, cols) == step(command, state, rows, cols),
{
    let s = seq![command];
    assert(s.drop_first() =~= Seq::<CSI>::empty());
    assert(run(s.drop_first(), step(command, state, rows, cols), rows, cols) == step(
        command,
        state,
        rows,
        cols,
    ));
}

proof fn lemma_run_append(a: Seq<CSI>, b: Seq<CSI>, state: CursorModel, rows: int, cols: int)
    ensures
        run(a + b, state, rows, cols) == run(b, run(a, state, rows, cols), rows, cols),
    decreases a.len(),
{
    if a.len() > 0 {
        assert((a + b).drop_first() =~= a.drop_first() + b);
        lemma_run_append(a.drop_first(), b, step(a[0], state, rows, cols), rows, cols);
    } else {
        assert(a + b =~= b);
    }
}

/// A transaction that saves the cursor, makes any moves that leave the save
/// slot alone, and restores it, leaves the cursor where it found it.
pub proof fn lemma_transaction_restores_cursor(
    moves: Seq<CSI>,
    state: CursorModel,
    rows: int,
    cols: int,
)
    requires
        forall|i: int| 0 <= i < moves.len() ==> !uses_save_slot(#[trigger] moves[i]),
    ensures
        run(
            seq![CSI::SaveCursorPosition] + moves + seq![CSI::RestoreCursorPosition],
            state,
            rows,
            cols,
        ).0 == state.0,
{
    let saved = step(CSI::SaveCursorPosition, state, rows, cols);
    lemma_run_append(
        seq![CSI::SaveCursorPosition] + moves,
        seq![CSI::RestoreCursorPosition],
        state,
        rows,
        cols,
    );
    lemma_run_append(seq![CSI::SaveCursorPosition], moves, state, rows, cols);
    lemma_run_one(CSI::SaveCursorPosition, state, rows, cols);
    lemma_moves_keep_saved(moves, saved, rows, cols);
    let after = run(moves, saved, rows, cols);
    lemma_run_one(CSI::RestoreCursorPosition, after, rows, cols);
}

/// The bytes of `commands`, one sequence after another.
pub open spec fn commands_bytes(commands: Seq<CSI>) -> Seq<u8>
    decreases commands.len(),
{
    if commands.len() == 0 {
        seq![]
    } else {
        commands_bytes(commands.drop_last()) + commands.last().bytes()
    }
}

proof fn lemma_commands_bytes_append(a: Seq<CSI>, b: Seq<CSI>)
    ensures
        commands_bytes(a + b) == commands_bytes(a) + commands_bytes(b),
    decreases b.len(),
{
    if b.len() == 0 {
        assert(a + b =~= a);
        assert(commands_bytes(a) + commands_bytes(b) =~= commands_bytes(a));
    } else {
        assert((a + b).drop_last() =~= a + b.drop_last());
        lemma_commands_bytes_append(a, b.drop_last());
        assert(commands_bytes(a) + commands_bytes(b) =~= commands_bytes(a) + commands_bytes(
            b.drop_last(),
        ) + b.last().bytes());
    }
}

proof fn lemma_commands_bytes_one(c: CSI)
    ensures
        commands_bytes(seq![c]) == c.bytes(),
{
    assert(seq![c].drop_last() =~= Seq::<CSI>::empty());
    assert(commands_bytes(Seq::<CSI>::empty()) + c.bytes() =~= c.bytes());
}

/// A guarded run of moves: after what came before, the stream holds a save,
/// the moves and a restore, which is the stream of those commands in that
/// order; and the cursor ends where it was when the run began.
pub proof fn lemma_guarded_moves(
    before: Seq<u8>,
    moves: Seq<CSI>,
    state: CursorModel,
    rows: int,
    cols: int,
)
    requires
        forall|i: int| 0 <= i < moves.len() ==> !uses_save_slot(#[trigger] moves[i]),
    ensures
        before + CSI::SaveCursorPosition.bytes() + commands_bytes(moves)
            + CSI::RestoreCursorPosition.bytes() == before + commands_bytes(
            seq![CSI::SaveCursorPosition] + moves + seq![CSI::RestoreCursorPosition],
        ),
        run(
            seq![CSI::SaveCursorPosition] + moves + seq![CSI::RestoreCursorPosition],
            state,
            rows,
            cols,
        ).0 == state.0,
{
    let save = seq![CSI::SaveCursorPosition];
    let restore = seq![CSI::RestoreCursorPosition];
    lemma_commands_bytes_append(save + moves, restore);
    lemma_commands_bytes_append(save, moves);
    lemma_commands_bytes_one(CSI::SaveCursorPosition);
    lemma_commands_bytes_one(CSI::RestoreCursorPosition);
    assert(before + CSI::SaveCursorPosition.bytes() + commands_bytes(moves)
        + CSI::RestoreCursorPosition.bytes() =~= before + commands_bytes(save + moves + restore));
    lemma_transaction_restores_cursor(moves, state, rows, cols);
}

} // verus!
