//! A two-list task tracker: a todo list and a done list, the selection and
//! transfer rules that govern them, the line-oriented text form in which they
//! are stored, and the frame that a terminal front end draws for them.
//!
//! - [`status`]: the two states of an item, which are also the two tabs.
//! - [`task_list`]: a list with a selection; moving the selection and
//!   transferring the selected item.
//! - [`grammar`]: the stored text as mathematics, and the proof that writing
//!   and reading it gives the lists back.
//! - [`codec`]: reading and writing the stored text.
//! - [`ui`]: the immediate-mode drawing layer.
//! - [`app`]: key bindings, what each key does, and the frame of each tab.
//!
//! The library touches neither files nor the terminal. A front end reads the
//! file and the keys, and puts on screen what the library tells it to draw.
//! The one thing the library asks of the machine is today's date, for the
//! header, when it starts a tracker.

pub mod app;
pub mod codec;
pub mod grammar;
pub mod status;
pub mod task_list;
pub mod ui;
