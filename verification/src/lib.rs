//! Modal input dispatch for a terminal dashboard: raw key events are
//! canonicalized into logical chords, each UI mode owns a command table from
//! chord to controller operation, and a dispatcher turns one event in one
//! mode into the operations the controller must perform.

pub mod controls;
pub mod events;
pub mod keys;
pub mod laws;
pub mod state;

pub use controls::dispatch;
pub use controls::next_step;
pub use events::KeyboardEvents;
pub use keys::Chord;
pub use keys::KeyEvent;
pub use keys::normalize;
pub use state::FileToDelete;
pub use state::Mode;
pub use state::Op;
