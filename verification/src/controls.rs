//! Per-mode command tables and the dispatcher.
//!
//! Each mode owns a table from chord to controller operations; a chord absent
//! from the active table produces no operation. `WarningMessage` mode is the
//! one exception: it recognizes no chord and dismisses on any input at all.

use vstd::prelude::*;

use crate::keys::Chord;
use crate::keys::KeyEvent;
use crate::keys::chord_of;
use crate::keys::normalize;
use crate::state::FileToDelete;
use crate::state::Mode;
use crate::state::Op;

verus! {

/// Command table of `Loading` mode: navigation and zoom are live while the
/// scan still runs; a delete request only brings up the warning modal.
pub open spec fn loading_mode_ops(c: Chord) -> Seq<Op> {
    match c {
        Chord::Quit => seq![Op::PromptExit],
        Chord::MoveRight => seq![Op::MoveSelectedRight],
        Chord::MoveLeft => seq![Op::MoveSelectedLeft],
        Chord::MoveDown => seq![Op::MoveSelectedDown],
        Chord::MoveUp => seq![Op::MoveSelectedUp],
        Chord::ZoomIn => seq![Op::ZoomIn],
        Chord::ZoomOut => seq![Op::ZoomOut],
        Chord::ResetZoom => seq![Op::ResetZoom],
        Chord::Confirm => seq![Op::HandleEnter],
        Chord::DeleteRequest => seq![Op::ShowWarningModal],
        Chord::Cancel => seq![Op::GoUp],
        _ => seq![],
    }
}

/// Command table of `Normal` mode: as `Loading`, except that a delete request
/// starts the file-deletion prompt instead of the warning modal.
pub open spec fn normal_mode_ops(c: Chord) -> Seq<Op> {
    match c {
        Chord::Quit => seq![Op::PromptExit],
        Chord::MoveRight => seq![Op::MoveSelectedRight],
        Chord::MoveLeft => seq![Op::MoveSelectedLeft],
        Chord::MoveDown => seq![Op::MoveSelectedDown],
        Chord::MoveUp => seq![Op::MoveSelectedUp],
        Chord::ZoomIn => seq![Op::ZoomIn],
        Chord::ZoomOut => seq![Op::ZoomOut],
        Chord::ResetZoom => seq![Op::ResetZoom],
        Chord::Confirm => seq![Op::HandleEnter],
        Chord::DeleteRequest => seq![Op::PromptFileDeletion],
        Chord::Cancel => seq![Op::GoUp],
        _ => seq![],
    }
}

/// Command table of `DeleteFileConfirm` mode: the affirmative chord deletes
/// the held descriptor; quit, cancel and the negative chord fall back to
/// `Normal` mode.
pub open spec fn delete_file_mode_ops(c: Chord, file_to_delete: FileToDelete) -> Seq<Op> {
    match c {
        Chord::Quit => seq![Op::NormalMode],
        Chord::Cancel => seq![Op::NormalMode],
        Chord::Negative => seq![Op::NormalMode],
        Chord::Affirmative => seq![Op::DeleteFile(file_to_delete)],
        _ => seq![],
    }
}

/// Command table of `ErrorMessage` mode: quit and cancel return to `Normal`
/// mode; everything else is ignored.
pub open spec fn error_message_ops(c: Chord) -> Seq<Op> {
    match c {
        Chord::Quit => seq![Op::NormalMode],
        Chord::Cancel => seq![Op::NormalMode],
        _ => seq![],
    }
}

/// Command table of `ScreenTooSmall` mode: the quit chord terminates the
/// process outright; everything else is ignored.
pub open spec fn screen_too_small_ops(c: Chord) -> Seq<Op> {
    match c {
        Chord::Quit => seq![Op::Exit],
        _ => seq![],
    }
}

/// Command table of `Exiting` mode: the affirmative chord terminates the
/// process; quit, cancel and the negative chord abandon the exit, restoring
/// the previous mode and then forcing a redraw — restoring the mode does not
/// redraw by itself.
pub open spec fn exiting_mode_ops(c: Chord) -> Seq<Op> {
    match c {
        Chord::Quit => seq![Op::ResetUiMode, Op::Render],
        Chord::Cancel => seq![Op::ResetUiMode, Op::Render],
        Chord::Negative => seq![Op::ResetUiMode, Op::Render],
        Chord::Affirmative => seq![Op::Exit],
        _ => seq![],
    }
}

/// The dispatch relation as a whole: the operations one key event produces in
/// one mode. `WarningMessage` dismisses on any input, with no canonicalization
/// at all; every other mode looks the event's chord up in its own table.
/// `DeleteFileConfirm` acts only while a deletion descriptor is held.
pub open spec fn dispatch_ops(mode: Mode, evt: KeyEvent, file_to_delete: Option<FileToDelete>) -> Seq<Op> {
    match mode {
        Mode::Loading => loading_mode_ops(chord_of(evt)),
        Mode::Normal => normal_mode_ops(chord_of(evt)),
        Mode::DeleteFileConfirm => match file_to_delete {
            Option::Some(f) => delete_file_mode_ops(chord_of(evt), f),
            Option::None => seq![],
        },
        Mode::ErrorMessage => error_message_ops(chord_of(evt)),
        Mode::ScreenTooSmall => screen_too_small_ops(chord_of(evt)),
        Mode::Exiting => exiting_mode_ops(chord_of(evt)),
        Mode::WarningMessage => seq![Op::ResetUiMode],
    }
}

fn no_ops() -> (ops: Vec<Op>)
    ensures
        ops@ == Seq::<Op>::empty(),
{
    Vec::new()
}

fn one_op(op: Op) -> (ops: Vec<Op>)
    ensures
        ops@ == seq![op],
{
    let mut ops: Vec<Op> = Vec::new();
    ops.push(op);
    proof {
        assert(ops@ =~= seq![op]);
    }
    ops
}

fn two_ops(first: Op, second: Op) -> (ops: Vec<Op>)
    ensures
        ops@ == seq![first, second],
{
    let mut ops: Vec<Op> = Vec::new();
    ops.push(first);
    ops.push(second);
    proof {
        assert(ops@ =~= seq![first, second]);
    }
    ops
}

/// Keypress handling while the scan is still loading.
pub fn handle_keypress_loading_mode(evt: KeyEvent) -> (ops: Vec<Op>)
    ensures
        ops@ == loading_mode_ops(chord_of(evt)),
{
    match normalize(evt) {
        Chord::Quit => one_op(Op::PromptExit),
        Chord::MoveRight => one_op(Op::MoveSelectedRight),
        Chord::MoveLeft => one_op(Op::MoveSelectedLeft),
        Chord::MoveDown => one_op(Op::MoveSelectedDown),
        Chord::MoveUp => one_op(Op::MoveSelectedUp),
        Chord::ZoomIn => one_op(Op::ZoomIn),
        Chord::ZoomOut => one_op(Op::ZoomOut),
        Chord::ResetZoom => one_op(Op::ResetZoom),
        Chord::Confirm => one_op(Op::HandleEnter),
        Chord::DeleteRequest => one_op(Op::ShowWarningModal),
        Chord::Cancel => one_op(Op::GoUp),
        _ => no_ops(),
    }
}

/// Keypress handling in the ordinary browsing mode.
pub fn handle_keypress_normal_mode(evt: KeyEvent) -> (ops: Vec<Op>)
    ensures
        ops@ == normal_mode_ops(chord_of(evt)),
{
    match normalize(evt) {
        Chord::Quit => one_op(Op::PromptExit),
        Chord::MoveRight => one_op(Op::MoveSelectedRight),
        Chord::MoveLeft => one_op(Op::MoveSelectedLeft),
        Chord::MoveDown => one_op(Op::MoveSelectedDown),
        Chord::MoveUp => one_op(Op::MoveSelectedUp),
        Chord::ZoomIn => one_op(Op::ZoomIn),
        Chord::ZoomOut => one_op(Op::ZoomOut),
        Chord::ResetZoom => one_op(Op::ResetZoom),
        Chord::Confirm => one_op(Op::HandleEnter),
        Chord::DeleteRequest => one_op(Op::PromptFileDeletion),
        Chord::Cancel => one_op(Op::GoUp),
        _ => no_ops(),
    }
}

/// Keypress handling while a deletion awaits confirmation. The descriptor was
/// supplied by the controller on entering the mode and is passed through to
/// the deletion operation untouched.
pub fn handle_keypress_delete_file_mode(evt: KeyEvent, file_to_delete: FileToDelete) -> (ops: Vec<Op>)
    ensures
        ops@ == delete_file_mode_ops(chord_of(evt), file_to_delete),
{
    match normalize(evt) {
        Chord::Quit => one_op(Op::NormalMode),
        Chord::Cancel => one_op(Op::NormalMode),
        Chord::Negative => one_op(Op::NormalMode),
        Chord::Affirmative => one_op(Op::DeleteFile(file_to_delete)),
        _ => no_ops(),
    }
}

/// Keypress handling while an error message is shown.
pub fn handle_keypress_error_message(evt: KeyEvent) -> (ops: Vec<Op>)
    ensures
        ops@ == error_message_ops(chord_of(evt)),
{
    match normalize(evt) {
        Chord::Quit => one_op(Op::NormalMode),
        Chord::Cancel => one_op(Op::NormalMode),
        _ => no_ops(),
    }
}

/// Keypress handling while the terminal is too small to draw.
pub fn handle_keypress_screen_too_small(evt: KeyEvent) -> (ops: Vec<Op>)
    ensures
        ops@ == screen_too_small_ops(chord_of(evt)),
{
    match normalize(evt) {
        Chord::Quit => one_op(Op::Exit),
        _ => no_ops(),
    }
}

/// Keypress handling while the exit prompt is shown.
pub fn handle_keypress_exiting_mode(evt: KeyEvent) -> (ops: Vec<Op>)
    ensures
        ops@ == exiting_mode_ops(chord_of(evt)),
{
    match normalize(evt) {
        Chord::Quit => two_ops(Op::ResetUiMode, Op::Render),
        Chord::Cancel => two_ops(Op::ResetUiMode, Op::Render),
        Chord::Negative => two_ops(Op::ResetUiMode, Op::Render),
        Chord::Affirmative => one_op(Op::Exit),
        _ => no_ops(),
    }
}

/// Keypress handling while a warning is shown: any input at all dismisses it.
pub fn handle_keypress_warning_message(_evt: KeyEvent) -> (ops: Vec<Op>)
    ensures
        ops@ == seq![Op::ResetUiMode],
{
    one_op(Op::ResetUiMode)
}

/// Dispatches one key event against the table of the current mode. The mode
/// is the controller's and is read fresh for each event; the deletion
/// descriptor is the one the controller supplied on entering
/// `DeleteFileConfirm` mode, and is `None` in every other mode.
pub fn dispatch(mode: Mode, evt: KeyEvent, file_to_delete: Option<FileToDelete>) -> (ops: Vec<Op>)
    ensures
        ops@ == dispatch_ops(mode, evt, file_to_delete),
{
    match mode {
        Mode::Loading => handle_keypress_loading_mode(evt),
        Mode::Normal => handle_keypress_normal_mode(evt),
        Mode::DeleteFileConfirm => match file_to_delete {
            Option::Some(f) => handle_keypress_delete_file_mode(evt, f),
            Option::None => no_ops(),
        },
        Mode::ErrorMessage => handle_keypress_error_message(evt),
        Mode::ScreenTooSmall => handle_keypress_screen_too_small(evt),
        Mode::Exiting => handle_keypress_exiting_mode(evt),
        Mode::WarningMessage => handle_keypress_warning_message(evt),
    }
}

/// One turn of the input loop. `None` from the event source signals end of
/// input: it is terminal, and nothing more is dispatched. Any actual event is
/// dispatched against the current mode's table.
pub fn next_step(mode: Mode, event: Option<KeyEvent>, file_to_delete: Option<FileToDelete>) -> (step: Option<Vec<Op>>)
    ensures
        event is None ==> step is None,
        (event matches Option::Some(k) ==> (step matches Option::Some(ops)
            && ops@ == dispatch_ops(mode, k, file_to_delete))),
{
    match event {
        Option::None => Option::None,
        Option::Some(k) => Option::Some(dispatch(mode, k, file_to_delete)),
    }
}

} // verus!
