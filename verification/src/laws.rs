//! Properties of the dispatch relation, stated and proved once for all
//! inputs.

use vstd::prelude::*;

use crate::controls::dispatch_ops;
use crate::keys::Chord;
use crate::keys::KeyEvent;
use crate::keys::chord_of;
use crate::state::FileToDelete;
use crate::state::Mode;
use crate::state::Op;
use crate::state::may_change_mode;

verus! {

/// Every synonym group canonicalizes to a single chord: each listed raw
/// event denotes exactly the logical chord of its group.
pub proof fn lemma_synonym_groups()
    ensures
        chord_of(KeyEvent::Ctrl('c')) == Chord::Quit,
        chord_of(KeyEvent::Char('q')) == Chord::Quit,
        chord_of(KeyEvent::Char('l')) == Chord::MoveRight,
        chord_of(KeyEvent::Right) == Chord::MoveRight,
        chord_of(KeyEvent::Ctrl('f')) == Chord::MoveRight,
        chord_of(KeyEvent::Char('h')) == Chord::MoveLeft,
        chord_of(KeyEvent::Left) == Chord::MoveLeft,
        chord_of(KeyEvent::Ctrl('b')) == Chord::MoveLeft,
        chord_of(KeyEvent::Char('j')) == Chord::MoveDown,
        chord_of(KeyEvent::Down) == Chord::MoveDown,
        chord_of(KeyEvent::Ctrl('n')) == Chord::MoveDown,
        chord_of(KeyEvent::Char('k')) == Chord::MoveUp,
        chord_of(KeyEvent::Up) == Chord::MoveUp,
        chord_of(KeyEvent::Ctrl('p')) == Chord::MoveUp,
        chord_of(KeyEvent::Char('+')) == Chord::ZoomIn,
        chord_of(KeyEvent::Char('-')) == Chord::ZoomOut,
        chord_of(KeyEvent::Char('0')) == Chord::ResetZoom,
        chord_of(KeyEvent::Char('\n')) == Chord::Confirm,
        chord_of(KeyEvent::Esc) == Chord::Cancel,
        chord_of(KeyEvent::Backspace) == Chord::DeleteRequest,
        chord_of(KeyEvent::Char('y')) == Chord::Affirmative,
        chord_of(KeyEvent::Char('n')) == Chord::Negative,
{
}

/// Raw events with the same logical chord produce the same operations in
/// every mode: dispatch depends on the event only through its chord, and in
/// `WarningMessage` mode not even on that.
pub proof fn lemma_synonyms_dispatch_alike(
    mode: Mode,
    k1: KeyEvent,
    k2: KeyEvent,
    file_to_delete: Option<FileToDelete>,
)
    requires
        chord_of(k1) == chord_of(k2),
    ensures
        dispatch_ops(mode, k1, file_to_delete) == dispatch_ops(mode, k2, file_to_delete),
{
}

/// `WarningMessage` mode dismisses the warning on any input whatsoever,
/// restoring the prior mode and nothing else.
pub proof fn lemma_warning_message_dismisses(evt: KeyEvent, file_to_delete: Option<FileToDelete>)
    ensures
        dispatch_ops(Mode::WarningMessage, evt, file_to_delete) == seq![Op::ResetUiMode],
{
}

/// `ScreenTooSmall` mode terminates the process on the quit chord and does
/// nothing at all on any other input: no movement, zoom or deletion operation
/// is ever invoked from it.
pub proof fn lemma_screen_too_small_only_exits(evt: KeyEvent, file_to_delete: Option<FileToDelete>)
    ensures
        chord_of(evt) == Chord::Quit ==> dispatch_ops(Mode::ScreenTooSmall, evt, file_to_delete)
            == seq![Op::Exit],
        chord_of(evt) != Chord::Quit ==> dispatch_ops(Mode::ScreenTooSmall, evt, file_to_delete)
            == Seq::<Op>::empty(),
{
}

/// Each of the three cancel chords of `Exiting` mode — quit, cancel and the
/// negative chord — abandons the exit by restoring the prior mode and then
/// forcing a redraw, in that order.
pub proof fn lemma_exiting_cancel_restores_then_redraws(
    evt: KeyEvent,
    file_to_delete: Option<FileToDelete>,
)
    requires
        chord_of(evt) == Chord::Quit || chord_of(evt) == Chord::Cancel || chord_of(evt)
            == Chord::Negative,
    ensures
        dispatch_ops(Mode::Exiting, evt, file_to_delete) == seq![Op::ResetUiMode, Op::Render],
{
}

/// `DeleteFileConfirm` mode deletes exactly once, with exactly the descriptor
/// held since mode entry, on the affirmative chord; on any other input no
/// deletion is invoked at all.
pub proof fn lemma_delete_file_confirm_deletes_once(evt: KeyEvent, file_to_delete: FileToDelete)
    ensures
        chord_of(evt) == Chord::Affirmative ==> dispatch_ops(
            Mode::DeleteFileConfirm,
            evt,
            Option::Some(file_to_delete),
        ) == seq![Op::DeleteFile(file_to_delete)],
        chord_of(evt) != Chord::Affirmative ==> forall|f: FileToDelete|
            !dispatch_ops(Mode::DeleteFileConfirm, evt, Option::Some(file_to_delete)).contains(
                Op::DeleteFile(f),
            ),
{
    if chord_of(evt) != Chord::Affirmative {
        let ops = dispatch_ops(Mode::DeleteFileConfirm, evt, Option::Some(file_to_delete));
        assert forall|f: FileToDelete| !ops.contains(Op::DeleteFile(f)) by {
            assert(forall|i: int| 0 <= i < ops.len() ==> ops[i] == Op::NormalMode);
        }
    }
}

/// Issuing move-right and then move-left in `Normal` mode produces exactly
/// the two selection moves, right then left; and nothing the first dispatch
/// invokes can change the mode, so the second dispatch still runs against
/// `Normal` mode's table.
pub proof fn lemma_move_right_then_left(
    k1: KeyEvent,
    k2: KeyEvent,
    file_to_delete: Option<FileToDelete>,
)
    requires
        chord_of(k1) == Chord::MoveRight,
        chord_of(k2) == Chord::MoveLeft,
    ensures
        dispatch_ops(Mode::Normal, k1, file_to_delete) + dispatch_ops(
            Mode::Normal,
            k2,
            file_to_delete,
        ) == seq![Op::MoveSelectedRight, Op::MoveSelectedLeft],
        forall|i: int|
            0 <= i < dispatch_ops(Mode::Normal, k1, file_to_delete).len() ==> !may_change_mode(
                dispatch_ops(Mode::Normal, k1, file_to_delete)[i],
            ),
{
    assert(dispatch_ops(Mode::Normal, k1, file_to_delete) + dispatch_ops(
        Mode::Normal,
        k2,
        file_to_delete,
    ) =~= seq![Op::MoveSelectedRight, Op::MoveSelectedLeft]);
}

} // verus!
