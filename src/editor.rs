use vstd::prelude::*;
use vstd::string::*;

use iced::widget::text_editor::Action;

use crate::model::{Error, Theme};

verus! {

/// An event handed to the controller: a user action or the end of a file task.
#[derive(Debug)]
pub enum Messages {
    New,
    Open,
    Save,
    /// An action on the text buffer: an edit of the text, or a move, a
    /// selection, a click, a drag or a scroll.
    Edit(Action),
    /// The open task ended: the path read and its text, or why it failed.
    FileOpened(Result<(String, String), Error>),
    /// The save task ended: the path written, or why it failed.
    FileSaved(Result<String, Error>),
    ThemeSelected(Theme),
}

/// What must happen to the text buffer after a message.
#[derive(Debug)]
pub enum DocumentChange {
    /// The buffer stays as it is.
    Keep,
    /// The buffer becomes empty.
    Clear,
    /// The buffer's whole content becomes the given text.
    Replace(String),
    /// The action is applied to the buffer.
    Apply(Action),
}

/// A file task to start after a message; its result comes back as a message.
#[derive(Debug)]
pub enum Command {
    /// No task.
    Nothing,
    /// Ask the user for a file, then read it (see [`crate::file_picked`]).
    PickFile,
    /// Read the file at the path.
    LoadFile(String),
    /// Write the buffer's text to the path, or ask for one first where there is
    /// none (see [`crate::begin_save`]).
    SaveFile(Option<String>),
}

/// The outcome of one message: the change to the buffer and the task to start.
#[derive(Debug)]
pub struct Step {
    pub document: DocumentChange,
    pub command: Command,
}

/// The controller's state, beside the text buffer.
#[derive(Debug)]
pub struct Editor {
    pub theme: Theme,
    /// The file the buffer was last read from or written to; `None` for an
    /// untitled buffer.
    pub path: Option<String>,
    /// The last failure, until an edit or a successful open or save.
    pub error: Option<Error>,
    /// Whether the buffer may differ from the file.
    pub is_dirty: bool,
}

/// What the status bar shows on its left.
#[derive(Debug, PartialEq, Eq)]
pub enum Status {
    /// The last read or write failed with this kind of error.
    Failed(std::io::ErrorKind),
    /// The path of the file being edited.
    Path(String),
    /// The buffer has no file yet.
    NewFile,
}

/// The window chrome that goes with a colour scheme.
#[derive(Clone, Copy, Debug, PartialEq, Eq, Structural)]
pub enum Chrome {
    Dark,
    Light,
}

/// The step that changes the buffer by `document` and starts `command`.
pub open spec fn step(document: DocumentChange, command: Command) -> Step {
    Step { document, command }
}

impl Editor {
    /// The state before any message: an untitled, dirty, empty buffer.
    pub open spec fn initial() -> Editor {
        Editor { theme: Theme::SolarizedDark, path: None, error: None, is_dirty: true }
    }

    /// The state after `m`, and what follows from it.
    pub open spec fn next(self, m: Messages) -> (Editor, Step) {
        match m {
            Messages::New => (
                Editor { path: None, is_dirty: true, ..self },
                step(DocumentChange::Clear, Command::Nothing),
            ),
            Messages::Open => (self, step(DocumentChange::Keep, Command::PickFile)),
            Messages::Save => (self, step(DocumentChange::Keep, Command::SaveFile(self.path))),
            Messages::Edit(action) => (
                Editor { is_dirty: self.is_dirty || action is Edit, error: None, ..self },
                step(DocumentChange::Apply(action), Command::Nothing),
            ),
            Messages::FileOpened(Ok((path, text))) => (
                Editor { path: Some(path), error: None, is_dirty: false, ..self },
                step(DocumentChange::Replace(text), Command::Nothing),
            ),
            Messages::FileOpened(Err(e)) => (
                Editor { error: Some(e), ..self },
                step(DocumentChange::Keep, Command::Nothing),
            ),
            Messages::FileSaved(Ok(path)) => (
                Editor { path: Some(path), error: None, is_dirty: false, ..self },
                step(DocumentChange::Keep, Command::Nothing),
            ),
            Messages::FileSaved(Err(e)) => (
                Editor { error: Some(e), ..self },
                step(DocumentChange::Keep, Command::Nothing),
            ),
            Messages::ThemeSelected(theme) => (
                Editor { theme, ..self },
                step(DocumentChange::Keep, Command::Nothing),
            ),
        }
    }

    /// The initial state, and the task that reads `initial_file` into the buffer.
    pub fn new(initial_file: String) -> (r: (Editor, Command))
        ensures
            r.0 == Editor::initial(),
            r.1 == Command::LoadFile(initial_file),
    {
        (
            Editor { theme: Theme::SolarizedDark, path: None, error: None, is_dirty: true },
            Command::LoadFile(initial_file),
        )
    }

    /// Takes the message `m`: changes the state, and says what happens to the
    /// buffer and which task starts. The end of a task is taken whenever it comes,
    /// also after a later New, Open or Save: the last one to end wins.
    pub fn update(&mut self, m: Messages) -> (r: Step)
        ensures
            (*final(self), r) == old(self).next(m),
    {
        match m {
            Messages::New => {
                self.is_dirty = true;
                self.path = None;
                Step { document: DocumentChange::Clear, command: Command::Nothing }
            },
            Messages::Open => Step { document: DocumentChange::Keep, command: Command::PickFile },
            Messages::Save => {
                let path = match &self.path {
                    Some(p) => Some(p.clone()),
                    None => None,
                };
                Step { document: DocumentChange::Keep, command: Command::SaveFile(path) }
            },
            Messages::Edit(action) => {
                self.is_dirty = self.is_dirty || action.is_edit();
                self.error = None;
                Step { document: DocumentChange::Apply(action), command: Command::Nothing }
            },
            Messages::FileOpened(Ok((path, text))) => {
                self.path = Some(path);
                self.error = None;
                self.is_dirty = false;
                Step { document: DocumentChange::Replace(text), command: Command::Nothing }
            },
            Messages::FileOpened(Err(e)) => {
                self.error = Some(e);
                Step { document: DocumentChange::Keep, command: Command::Nothing }
            },
            Messages::FileSaved(Ok(path)) => {
                self.path = Some(path);
                self.error = None;
                self.is_dirty = false;
                Step { document: DocumentChange::Keep, command: Command::Nothing }
            },
            Messages::FileSaved(Err(e)) => {
                self.error = Some(e);
                Step { document: DocumentChange::Keep, command: Command::Nothing }
            },
            Messages::ThemeSelected(theme) => {
                self.theme = theme;
                Step { document: DocumentChange::Keep, command: Command::Nothing }
            },
        }
    }

    pub open spec fn status_spec(&self) -> Status {
        match self.error {
            Some(Error::IOFailed(kind)) => Status::Failed(kind),
            _ => match self.path {
                Some(p) => Status::Path(p),
                None => Status::NewFile,
            },
        }
    }

    /// What the status bar shows on its left: a read or write failure first, else
    /// the file's path, else that the buffer is new. A closed dialog shows no
    /// failure.
    pub fn status(&self) -> (r: Status)
        ensures
            r == self.status_spec(),
    {
        match (&self.error, &self.path) {
            (Some(Error::IOFailed(kind)), _) => Status::Failed(*kind),
            (_, Some(p)) => Status::Path(p.clone()),
            (_, None) => Status::NewFile,
        }
    }

    /// The window chrome: dark for a dark colour scheme, else light.
    pub fn chrome(&self) -> (r: Chrome)
        ensures
            r == (if self.theme.is_dark() { Chrome::Dark } else { Chrome::Light }),
    {
        if self.theme.is_dark() {
            Chrome::Dark
        } else {
            Chrome::Light
        }
    }

    /// The message of the save button: none, which disables it, while the buffer
    /// is clean.
    pub fn save_action(&self) -> (r: Option<Messages>)
        ensures
            r == (if self.is_dirty { Some(Messages::Save) } else { None }),
    {
        if self.is_dirty {
            Some(Messages::Save)
        } else {
            None
        }
    }

    /// The window title.
    pub fn title(&self) -> (r: String)
        ensures
            r@ == "An iced out editor"@,
    {
        String::from_str("An iced out editor")
    }
}

/// The message a key press stands for: the S key with the platform's command
/// modifier saves; any other press stands for none.
pub fn key_pressed(key: &str, command: bool) -> (r: Option<Messages>)
    ensures
        r == (if command && (key@ == "s"@ || key@ == "S"@) { Some(Messages::Save) } else { None }),
{
    proof {
        reveal_strlit("s");
        reveal_strlit("S");
    }
    if command && key.unicode_len() == 1 {
        let c = key.get_char(0);
        if c == 's' || c == 'S' {
            assert(key@ =~= "s"@ || key@ =~= "S"@);
            return Some(Messages::Save);
        }
    }
    None
}

} // verus!
