//! UI modes, controller operations, and the deletion descriptor.

use vstd::prelude::*;

verus! {

/// The UI state governing which command table is active. Exactly one mode is
/// active at any time; it is owned by the controller and changes only through
/// controller operations that dispatch invokes.
#[derive(Clone, Copy, Debug, PartialEq, Eq, Structural)]
pub enum Mode {
    Loading,
    Normal,
    DeleteFileConfirm,
    ErrorMessage,
    ScreenTooSmall,
    Exiting,
    WarningMessage,
}

/// Opaque descriptor of the file whose deletion is being confirmed. It is
/// supplied by the controller on entering `DeleteFileConfirm` mode; dispatch
/// holds it only to pass it through to the deletion operation and never
/// interprets its contents.
#[derive(Clone, Debug, PartialEq, Eq)]
pub struct FileToDelete {
    pub path: String,
}

/// One controller operation, selected by a table lookup. The controller
/// performs the real effect; a value of this type only names which controller
/// capability is invoked, and with which argument.
#[derive(Clone, Debug, PartialEq, Eq)]
pub enum Op {
    PromptExit,
    Exit,
    GoUp,
    HandleEnter,
    ResetUiMode,
    NormalMode,
    MoveSelectedRight,
    MoveSelectedLeft,
    MoveSelectedDown,
    MoveSelectedUp,
    ZoomIn,
    ZoomOut,
    ResetZoom,
    PromptFileDeletion,
    ShowWarningModal,
    DeleteFile(FileToDelete),
    Render,
}

/// Whether invoking the operation may move the controller to another mode.
/// Selection movement, zoom and rendering leave the mode alone; every
/// lifecycle, navigation or deletion-flow operation may change it.
pub open spec fn may_change_mode(op: Op) -> bool {
    match op {
        Op::MoveSelectedRight => false,
        Op::MoveSelectedLeft => false,
        Op::MoveSelectedDown => false,
        Op::MoveSelectedUp => false,
        Op::ZoomIn => false,
        Op::ZoomOut => false,
        Op::ResetZoom => false,
        Op::Render => false,
        _ => true,
    }
}

} // verus!
