use vstd::prelude::*;

use iced::widget::text_editor::Action;

use crate::display::{lemma_decimal_has_no_colon, lemma_decimal_injective, position_text};
use crate::editor::{Command, DocumentChange, Editor, Messages};
use crate::model::Error;
use crate::tasks::{begin_save_spec, file_picked_spec, path_chosen_spec, SaveStep};

verus! {

/// New, whatever the state and whatever failure or unsaved edit it holds, leaves
/// an untitled, dirty buffer that is cleared, and starts no task.
pub proof fn new_resets_document(e: Editor)
    ensures
        e.next(Messages::New).0.path is None,
        e.next(Messages::New).0.is_dirty,
        e.next(Messages::New).1.document == DocumentChange::Clear,
        e.next(Messages::New).1.command == Command::Nothing,
{
}

/// Save leaves the state and the buffer alone and starts a save to the buffer's
/// file. With a file, that save writes there without asking; without one, it asks
/// for a name first and writes only where one was chosen, to that one.
pub proof fn save_asks_only_without_path(e: Editor, choice: Option<String>)
    ensures
        e.next(Messages::Save).0 == e,
        e.next(Messages::Save).1.document == DocumentChange::Keep,
        e.next(Messages::Save).1.command == Command::SaveFile(e.path),
        e.path matches Some(p) ==> begin_save_spec(e.path) == SaveStep::Write(p),
        e.path is None ==> begin_save_spec(e.path) == SaveStep::AskForPath,
        path_chosen_spec(choice) is Write <==> choice is Some,
        choice matches Some(q) ==> path_chosen_spec(choice) == SaveStep::Write(q),
{
}

/// Closing either file dialog ends its task with `DialogClosed`; handing that
/// back keeps the buffer and its file, records the closed dialog as the error and
/// starts nothing.
pub proof fn closed_dialog_keeps_document(e: Editor)
    ensures
        file_picked_spec(None) == Err::<String, Error>(Error::DialogClosed),
        path_chosen_spec(None) == SaveStep::Finished(Err(Error::DialogClosed)),
        e.next(Messages::FileOpened(Err(Error::DialogClosed))).0 == (Editor {
            error: Some(Error::DialogClosed),
            ..e
        }),
        e.next(Messages::FileOpened(Err(Error::DialogClosed))).1.document
            == DocumentChange::Keep,
        e.next(Messages::FileOpened(Err(Error::DialogClosed))).1.command == Command::Nothing,
        e.next(Messages::FileSaved(Err(Error::DialogClosed))).0 == (Editor {
            error: Some(Error::DialogClosed),
            ..e
        }),
        e.next(Messages::FileSaved(Err(Error::DialogClosed))).1.document
            == DocumentChange::Keep,
        e.next(Messages::FileSaved(Err(Error::DialogClosed))).1.command == Command::Nothing,
{
}

/// A file read successfully replaces the whole buffer with its text, becomes the
/// buffer's file, and leaves the buffer clean and without error, whatever the
/// state before.
pub proof fn opened_file_replaces_document(e: Editor, path: String, text: String)
    ensures
        e.next(Messages::FileOpened(Ok((path, text)))).1.document
            == DocumentChange::Replace(text),
        e.next(Messages::FileOpened(Ok((path, text)))).0.path == Some(path),
        !e.next(Messages::FileOpened(Ok((path, text)))).0.is_dirty,
        e.next(Messages::FileOpened(Ok((path, text)))).0.error is None,
        e.next(Messages::FileOpened(Ok((path, text)))).0.theme == e.theme,
{
}

/// An edit, a file read and a file written each clear the error of an earlier
/// failure.
pub proof fn success_clears_error(e: Editor, action: Action, path: String, text: String)
    ensures
        e.next(Messages::Edit(action)).0.error is None,
        e.next(Messages::FileOpened(Ok((path, text)))).0.error is None,
        e.next(Messages::FileSaved(Ok(path))).0.error is None,
{
}

/// The position text tells cursors apart: two cursors show the same text only
/// where they stand on the same line and in the same column.
pub proof fn position_text_identifies_cursor(
    line1: nat,
    column1: nat,
    line2: nat,
    column2: nat,
)
    requires
        position_text(line1, column1) == position_text(line2, column2),
    ensures
        line1 == line2,
        column1 == column2,
{
    let t = position_text(line1, column1);
    let x1 = crate::display::decimal(line1 + 1);
    let x2 = crate::display::decimal(line2 + 1);
    let y1 = crate::display::decimal(column1 + 1);
    let y2 = crate::display::decimal(column2 + 1);
    lemma_decimal_has_no_colon(line1 + 1);
    lemma_decimal_has_no_colon(line2 + 1);
    if x1.len() < x2.len() {
        assert(t[x1.len() as int] == ':');
        assert(t[x1.len() as int] == x2[x1.len() as int]);
    } else if x2.len() < x1.len() {
        assert(t[x2.len() as int] == ':');
        assert(t[x2.len() as int] == x1[x2.len() as int]);
    }
    assert(x1 =~= t.subrange(0, x1.len() as int));
    assert(x2 =~= t.subrange(0, x2.len() as int));
    lemma_decimal_injective(line1 + 1, line2 + 1);
    assert(y1 =~= t.subrange(x1.len() as int + 1, t.len() as int));
    assert(y2 =~= t.subrange(x2.len() as int + 1, t.len() as int));
    lemma_decimal_injective(column1 + 1, column2 + 1);
}

/// An action that edits the text leaves the buffer dirty; a move, a selection, a
/// click, a drag or a scroll leaves the flag as it was. Either way the action goes
/// to the buffer and the buffer keeps its file.
pub proof fn edit_marks_dirty(e: Editor, action: Action)
    ensures
        e.next(Messages::Edit(action)).0.is_dirty == (e.is_dirty || action is Edit),
        e.next(Messages::Edit(action)).0.path == e.path,
        e.next(Messages::Edit(action)).1.document == DocumentChange::Apply(action),
        e.next(Messages::Edit(action)).1.command == Command::Nothing,
{
}

} // verus!
