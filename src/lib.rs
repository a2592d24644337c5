//! The controller of a small text editor: its state, the transition taken on each
//! message, the steps of the open and save tasks, and what the status bar shows.
//!
//! The text buffer itself belongs to the GUI toolkit; the controller says, for each
//! message, what must happen to it (see [`DocumentChange`]).

mod display;
mod editor;
mod laws;
mod model;
mod tasks;
mod toolkit;

pub use display::{decimal, digit_char, position_label, position_text};
pub use editor::{key_pressed, Chrome, Command, DocumentChange, Editor, Messages, Status, Step};
pub use laws::{
    closed_dialog_keeps_document, edit_marks_dirty, new_resets_document,
    opened_file_replaces_document, position_text_identifies_cursor, save_asks_only_without_path,
    success_clears_error,
};
pub use model::{Error, Theme};
pub use tasks::{
    begin_save, begin_save_spec, default_file, file_picked, file_picked_spec, file_read,
    file_read_spec, path_chosen, path_chosen_spec, write_finished, write_finished_spec, SaveStep,
};
