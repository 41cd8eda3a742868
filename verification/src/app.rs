//! The session controller: the state of the interactive session, and how
//! each key, event and reply changes it.

pub mod event;
pub mod keys;
pub mod laws;
pub mod model;
pub mod session;

pub use event::{AppEvent, Command, CommandModel, Event, Key, Popup};
pub use model::{AppModel, PopupTextModel, TAB_COUNT};
pub use session::{App, PopupText};
