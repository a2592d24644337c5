use vstd::prelude::*;
use vstd::string::*;

use std::io::ErrorKind;

use crate::model::Error;

verus! {

/// The next thing the save task does.
#[derive(Debug)]
pub enum SaveStep {
    /// Ask the user for a file name; the answer goes to [`path_chosen`].
    AskForPath,
    /// Write the buffer's text to the path; the outcome goes to [`write_finished`].
    Write(String),
    /// The task ends with this result, handed back as `Messages::FileSaved`.
    Finished(Result<String, Error>),
}

pub open spec fn begin_save_spec(path: Option<String>) -> SaveStep {
    match path {
        Some(p) => SaveStep::Write(p),
        None => SaveStep::AskForPath,
    }
}

pub open spec fn path_chosen_spec(choice: Option<String>) -> SaveStep {
    match choice {
        Some(p) => SaveStep::Write(p),
        None => SaveStep::Finished(Err(Error::DialogClosed)),
    }
}

pub open spec fn write_finished_spec(path: String, outcome: Result<(), ErrorKind>) -> Result<
    String,
    Error,
> {
    match outcome {
        Ok(()) => Ok(path),
        Err(kind) => Err(Error::IOFailed(kind)),
    }
}

pub open spec fn file_picked_spec(choice: Option<String>) -> Result<String, Error> {
    match choice {
        Some(p) => Ok(p),
        None => Err(Error::DialogClosed),
    }
}

pub open spec fn file_read_spec(path: String, outcome: Result<String, ErrorKind>) -> Result<
    (String, String),
    Error,
> {
    match outcome {
        Ok(text) => Ok((path, text)),
        Err(kind) => Err(Error::IOFailed(kind)),
    }
}

/// The first step of saving to the buffer's file `path`: write there at once, or
/// ask for a name where the buffer has no file.
pub fn begin_save(path: Option<String>) -> (r: SaveStep)
    ensures
        r == begin_save_spec(path),
{
    match path {
        Some(p) => SaveStep::Write(p),
        None => SaveStep::AskForPath,
    }
}

/// The step after the save dialog: write to the chosen file, or end with
/// `DialogClosed` where the user chose none.
pub fn path_chosen(choice: Option<String>) -> (r: SaveStep)
    ensures
        r == path_chosen_spec(choice),
{
    match choice {
        Some(p) => SaveStep::Write(p),
        None => SaveStep::Finished(Err(Error::DialogClosed)),
    }
}

/// The result of the save task once the write to `path` has ended.
pub fn write_finished(path: String, outcome: Result<(), ErrorKind>) -> (r: Result<String, Error>)
    ensures
        r == write_finished_spec(path, outcome),
{
    match outcome {
        Ok(()) => Ok(path),
        Err(kind) => Err(Error::IOFailed(kind)),
    }
}

/// The file to read after the open dialog, or `DialogClosed` where the user chose
/// none.
pub fn file_picked(choice: Option<String>) -> (r: Result<String, Error>)
    ensures
        r == file_picked_spec(choice),
{
    match choice {
        Some(p) => Ok(p),
        None => Err(Error::DialogClosed),
    }
}

/// The result of the open task once the read of `path` has ended: the path with
/// the text read, or the kind of failure.
pub fn file_read(path: String, outcome: Result<String, ErrorKind>) -> (r: Result<
    (String, String),
    Error,
>)
    ensures
        r == file_read_spec(path, outcome),
{
    match outcome {
        Ok(text) => Ok((path, text)),
        Err(kind) => Err(Error::IOFailed(kind)),
    }
}

/// The file read at start-up: the editor's own main source file under the
/// project directory `project_dir`.
pub fn default_file(project_dir: &str) -> (r: String)
    ensures
        r@ == project_dir@ + "/src/main.rs"@,
{
    let mut s = String::from_str(project_dir);
    s.append("/src/main.rs");
    s
}

} // verus!
