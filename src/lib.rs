//! Keyboard capture core: key identity tables, modifier tracking with
//! correction of spurious Control/Alt releases, event normalization and the
//! start/stop lifecycle of a capture session.
pub mod keys;
pub mod modifiers;
pub mod event;
pub mod session;

pub use event::KeyEvent;
pub use session::{start_grab, stop_grab};
