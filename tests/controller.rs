use editor::{
    begin_save, default_file, file_picked, file_read, key_pressed, path_chosen, position_label,
    write_finished, Chrome, Command, DocumentChange, Editor, Error, Messages, SaveStep, Status,
    Theme,
};
use iced::widget::text_editor::{Action, Edit, Motion};
use std::io::ErrorKind;

fn launched() -> (Editor, Command) {
    Editor::new(String::from("/work/editor/src/main.rs"))
}

#[test]
fn launch_loads_default_file() {
    let (mut e, command) = launched();
    let path = match command {
        Command::LoadFile(p) => p,
        other => panic!("unexpected command {:?}", other),
    };
    assert_eq!(path, "/work/editor/src/main.rs");
    let result = file_read(path, Ok(String::from("fn main() {}\n")));
    let step = e.update(Messages::FileOpened(result));
    assert_eq!(e.path.as_deref(), Some("/work/editor/src/main.rs"));
    assert!(!e.is_dirty);
    assert!(e.error.is_none());
    assert!(matches!(step.document, DocumentChange::Replace(ref t) if t == "fn main() {}\n"));
    assert!(matches!(step.command, Command::Nothing));
}

#[test]
fn new_then_insert_is_dirty_and_untitled() {
    let (mut e, _) = launched();
    e.update(Messages::FileOpened(Ok((String::from("/a.txt"), String::from("abc")))));
    let step = e.update(Messages::New);
    assert!(matches!(step.document, DocumentChange::Clear));
    let step = e.update(Messages::Edit(Action::Edit(Edit::Insert('x'))));
    assert!(matches!(step.document, DocumentChange::Apply(Action::Edit(Edit::Insert('x')))));
    assert!(e.is_dirty);
    assert!(e.path.is_none());
}

#[test]
fn save_without_path_cancelled() {
    let (mut e, _) = launched();
    let step = e.update(Messages::Save);
    assert!(matches!(step.document, DocumentChange::Keep));
    let path = match step.command {
        Command::SaveFile(p) => p,
        other => panic!("unexpected command {:?}", other),
    };
    assert!(path.is_none());
    assert!(matches!(begin_save(path), SaveStep::AskForPath));
    let result = match path_chosen(None) {
        SaveStep::Finished(r) => r,
        other => panic!("unexpected step {:?}", other),
    };
    assert_eq!(result, Err(Error::DialogClosed));
    let step = e.update(Messages::FileSaved(result));
    assert_eq!(e.error, Some(Error::DialogClosed));
    assert!(matches!(step.document, DocumentChange::Keep));
    assert!(e.path.is_none());
    assert_eq!(e.status(), Status::NewFile);
}

#[test]
fn open_unreadable_file() {
    let (mut e, _) = launched();
    e.update(Messages::FileOpened(Ok((String::from("/a.txt"), String::from("abc")))));
    let step = e.update(Messages::Open);
    assert!(matches!(step.command, Command::PickFile));
    let path = file_picked(Some(String::from("/root/secret.txt"))).unwrap();
    assert_eq!(path, "/root/secret.txt");
    let result = file_read(path, Err(ErrorKind::PermissionDenied));
    assert_eq!(result, Err(Error::IOFailed(ErrorKind::PermissionDenied)));
    let step = e.update(Messages::FileOpened(result));
    assert_eq!(e.error, Some(Error::IOFailed(ErrorKind::PermissionDenied)));
    assert!(matches!(step.document, DocumentChange::Keep));
    assert_eq!(e.path.as_deref(), Some("/a.txt"));
    assert_eq!(e.status(), Status::Failed(ErrorKind::PermissionDenied));
}

#[test]
fn new_resets_after_error_and_edits() {
    let (mut e, _) = launched();
    e.update(Messages::FileOpened(Ok((String::from("/a.txt"), String::from("abc")))));
    e.update(Messages::FileSaved(Err(Error::IOFailed(ErrorKind::Other))));
    let step = e.update(Messages::New);
    assert!(matches!(step.document, DocumentChange::Clear));
    assert!(matches!(step.command, Command::Nothing));
    assert!(e.path.is_none());
    assert!(e.is_dirty);
}

#[test]
fn save_with_path_writes_without_asking() {
    let (mut e, _) = launched();
    e.update(Messages::FileOpened(Ok((String::from("/a.txt"), String::from("abc")))));
    let step = e.update(Messages::Save);
    let path = match step.command {
        Command::SaveFile(p) => p,
        other => panic!("unexpected command {:?}", other),
    };
    assert_eq!(path.as_deref(), Some("/a.txt"));
    assert!(matches!(begin_save(path), SaveStep::Write(ref p) if p == "/a.txt"));
}

#[test]
fn save_dialog_choice_is_written() {
    assert!(matches!(path_chosen(Some(String::from("/b.txt"))), SaveStep::Write(ref p) if p == "/b.txt"));
    assert_eq!(write_finished(String::from("/b.txt"), Ok(())), Ok(String::from("/b.txt")));
    assert_eq!(
        write_finished(String::from("/b.txt"), Err(ErrorKind::NotFound)),
        Err(Error::IOFailed(ErrorKind::NotFound))
    );
}

#[test]
fn saved_file_becomes_path_and_cleans() {
    let (mut e, _) = launched();
    e.update(Messages::Edit(Action::Edit(Edit::Backspace)));
    e.update(Messages::FileSaved(Err(Error::IOFailed(ErrorKind::NotFound))));
    let step = e.update(Messages::FileSaved(Ok(String::from("/b.txt"))));
    assert!(matches!(step.document, DocumentChange::Keep));
    assert_eq!(e.path.as_deref(), Some("/b.txt"));
    assert!(!e.is_dirty);
    assert!(e.error.is_none());
    assert_eq!(e.status(), Status::Path(String::from("/b.txt")));
}

#[test]
fn open_dialog_closed() {
    let (mut e, _) = launched();
    e.update(Messages::FileOpened(Ok((String::from("/a.txt"), String::from("abc")))));
    let result = file_picked(None);
    assert_eq!(result, Err(Error::DialogClosed));
    let step = e.update(Messages::FileOpened(result.map(|p| (p, String::new()))));
    assert!(matches!(step.document, DocumentChange::Keep));
    assert_eq!(e.error, Some(Error::DialogClosed));
    assert_eq!(e.path.as_deref(), Some("/a.txt"));
    assert_eq!(e.status(), Status::Path(String::from("/a.txt")));
}

#[test]
fn cursor_move_keeps_clean_buffer_clean() {
    let (mut e, _) = launched();
    e.update(Messages::FileOpened(Ok((String::from("/a.txt"), String::from("abc")))));
    e.update(Messages::FileOpened(Err(Error::IOFailed(ErrorKind::NotFound))));
    let step = e.update(Messages::Edit(Action::Move(Motion::Right)));
    assert!(matches!(step.document, DocumentChange::Apply(Action::Move(Motion::Right))));
    assert!(!e.is_dirty);
    e.update(Messages::Edit(Action::SelectLine));
    assert!(!e.is_dirty);
    assert!(e.error.is_none());
}

#[test]
fn initial_state() {
    let (e, _) = launched();
    assert_eq!(e.theme, Theme::SolarizedDark);
    assert!(e.path.is_none());
    assert!(e.error.is_none());
    assert!(e.is_dirty);
    assert_eq!(e.status(), Status::NewFile);
    assert_eq!(e.title(), "An iced out editor");
}

#[test]
fn theme_selection_and_chrome() {
    let (mut e, _) = launched();
    assert_eq!(e.chrome(), Chrome::Dark);
    let step = e.update(Messages::ThemeSelected(Theme::InspiredGitHub));
    assert!(matches!(step.document, DocumentChange::Keep));
    assert_eq!(e.theme, Theme::InspiredGitHub);
    assert_eq!(e.chrome(), Chrome::Light);
    e.update(Messages::ThemeSelected(Theme::Base16Ocean));
    assert_eq!(e.chrome(), Chrome::Dark);
    assert_eq!(Theme::all().len(), 5);
    assert!(!Theme::InspiredGitHub.is_dark());
    assert!(Theme::Base16Mocha.is_dark());
}

#[test]
fn save_button_follows_dirty_flag() {
    let (mut e, _) = launched();
    assert!(matches!(e.save_action(), Some(Messages::Save)));
    e.update(Messages::FileSaved(Ok(String::from("/b.txt"))));
    assert!(e.save_action().is_none());
}

#[test]
fn position_is_counted_from_one() {
    assert_eq!(position_label(0, 0), "1:1");
    assert_eq!(position_label(9, 41), "10:42");
    assert_eq!(position_label(99, 9), "100:10");
    assert_eq!(
        position_label(usize::MAX, usize::MAX - 1),
        format!("{}:{}", usize::MAX as u128 + 1, usize::MAX)
    );
}

#[test]
fn save_shortcut() {
    assert!(matches!(key_pressed("s", true), Some(Messages::Save)));
    assert!(matches!(key_pressed("S", true), Some(Messages::Save)));
    assert!(key_pressed("s", false).is_none());
    assert!(key_pressed("a", true).is_none());
    assert!(key_pressed("ss", true).is_none());
    assert!(key_pressed("", true).is_none());
}

#[test]
fn default_file_is_main_source() {
    assert_eq!(default_file("/home/me/editor"), "/home/me/editor/src/main.rs");
}

#[test]
fn different_positions_show_differently() {
    assert_ne!(position_label(9, 0), position_label(0, 90));
    assert_ne!(position_label(1, 11), position_label(11, 1));
    assert_eq!(position_label(1, 11), "2:12");
    assert_eq!(position_label(11, 1), "12:2");
}

#[test]
fn opened_file_replaces_dirty_buffer_with_error() {
    let (mut e, _) = launched();
    e.update(Messages::Edit(Action::Edit(Edit::Insert('x'))));
    e.update(Messages::FileOpened(Err(Error::IOFailed(ErrorKind::NotFound))));
    assert!(e.is_dirty);
    let step = e.update(Messages::FileOpened(Ok((String::from("/c.txt"), String::from("one\ntwo\n")))));
    assert!(matches!(step.document, DocumentChange::Replace(ref t) if t == "one\ntwo\n"));
    assert_eq!(e.path.as_deref(), Some("/c.txt"));
    assert!(!e.is_dirty);
    assert!(e.error.is_none());
}
