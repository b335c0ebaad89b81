//! The core of a terminal task list: the list with its selection, the line
//! editor for a task's text, the line format in which tasks are stored, and the
//! rules that turn a key into a change of the session.

pub mod clock;
pub mod codec;
pub mod edit;
pub mod key;
pub mod list;
pub mod session;
pub mod task;
