use rpfm_ui::advance::{advance, expected_event, DiskFacts, Event, Expected};
use rpfm_ui::create::create_packed_files;
use rpfm_ui::error::ErrorKind;
use rpfm_ui::game::{Game, PFHVersion};
use rpfm_ui::mymod::{delete_selected_my_mod, new_my_mod, DeletionReport};
use rpfm_ui::open::open_packfile;
use rpfm_ui::packed_file_view::open_packedfile;
use rpfm_ui::packedfile_text::{PackedFileTextView, TextType};
use rpfm_ui::protocol::{
    Command, CompressionState, PFHFileType, PFHFlags, PackFileUIData, PackedFileType, Response,
    SaveAnswer,
};
use rpfm_ui::save::save_packfile;
use rpfm_ui::session::{set_my_mod_mode, Mode, Session};
use rpfm_ui::table_state::TableState;
use rpfm_ui::ui::{DecodeablePackedFileType, Outcome, TreePathType, UiAction};

fn advance_path(parts: &[&str]) -> Vec<String> {
    parts.iter().map(|part| part.to_string()).collect()
}

fn advance_facts() -> DiskFacts {
    DiskFacts {
        save_path_is_file: false,
        game_data_path: Some(advance_path(&["games", "data"])),
        game_data_path_is_dir: true,
        mymods_base_path_is_dir: Some(true),
    }
}

#[test]
fn a_ready_session_expects_nothing() {
    let session = Session::new(Game::Rome2, false);
    assert_eq!(expected_event(&session), Expected::Nothing);
}

#[test]
fn opening_goes_on_with_the_reply() {
    let mut session = Session::new(Game::Rome2, false);
    open_packfile(&mut session, vec![advance_path(&["m", "attila", "a.pack"])], "attila");
    assert_eq!(expected_event(&session), Expected::Reply);
    let data = PackFileUIData {
        pfh_file_type: PFHFileType::Mod,
        bitmask: PFHFlags {
            has_encrypted_data: false,
            has_index_with_timestamps: false,
            has_encrypted_index: false,
            has_extended_header: false,
        },
        compression_state: CompressionState::Disabled,
        pfh_version: PFHVersion::PFH4,
    };
    let step = advance(&mut session, Event::Reply(Response::DocumentOpened(data)), advance_facts());
    assert_eq!(step.outcome, Outcome::Done);
    assert_eq!(session.game_selected(), Game::Attila);
    assert_eq!(
        session.mode(),
        Mode::MyMod { game_folder_name: "attila".to_owned(), mod_name: "a.pack".to_owned() }
    );
    assert_eq!(expected_event(&session), Expected::Nothing);
}

#[test]
fn saving_goes_through_reply_choice_and_reply() {
    let mut session = Session::new(Game::Rome2, false);
    save_packfile(&mut session, false);
    assert_eq!(expected_event(&session), Expected::Reply);
    let step = advance(
        &mut session,
        Event::Reply(Response::Error(ErrorKind::PackFileIsNotAFile)),
        advance_facts(),
    );
    assert_eq!(step.outcome, Outcome::Waiting);
    assert_eq!(step.actions[1], UiAction::Send(Command::SaveDocumentAs));
    assert_eq!(expected_event(&session), Expected::Reply);
    let step = advance(
        &mut session,
        Event::Reply(Response::SavePath(advance_path(&["new.pack"]))),
        advance_facts(),
    );
    assert_eq!(
        step.actions,
        vec![UiAction::AskSaveDestination(
            "new.pack".to_owned(),
            Some(advance_path(&["games", "data"]))
        )]
    );
    assert_eq!(expected_event(&session), Expected::DestinationChoice);
    let step = advance(
        &mut session,
        Event::DestinationChosen(Some(advance_path(&["games", "data", "mine.pack"]))),
        advance_facts(),
    );
    assert_eq!(
        step.actions,
        vec![UiAction::Answer(SaveAnswer::Destination(advance_path(&[
            "games",
            "data",
            "mine.pack"
        ])))]
    );
    assert_eq!(expected_event(&session), Expected::Reply);
    let step = advance(&mut session, Event::Reply(Response::Saved(5)), advance_facts());
    assert_eq!(step.outcome, Outcome::Done);
    assert_eq!(step.actions[1], UiAction::SetPackFileName("mine.pack".to_owned()));
    assert_eq!(expected_event(&session), Expected::Nothing);
    assert!(session.ready());
}

#[test]
fn a_cancelled_choice_ends_the_save() {
    let mut session = Session::new(Game::Rome2, false);
    session.set_table_state(advance_path(&["a"]), TableState::new_empty());
    save_packfile(&mut session, true);
    advance(
        &mut session,
        Event::Reply(Response::SavePath(advance_path(&["new.pack"]))),
        advance_facts(),
    );
    let step = advance(&mut session, Event::DestinationChosen(None), advance_facts());
    assert_eq!(step.outcome, Outcome::Done);
    assert_eq!(step.actions[0], UiAction::Answer(SaveAnswer::Cancel));
    assert!(session.ready());
    assert!(session.has_table_state(&advance_path(&["a"])));
}

#[test]
fn creating_an_entry_goes_on_with_two_replies() {
    let mut session = Session::new(Game::Rome2, false);
    let kind = PackedFileType::Loc("names".to_owned());
    create_packed_files(&mut session, Some(Ok(kind)), &vec![advance_path(&["text"])]);
    assert_eq!(expected_event(&session), Expected::Reply);
    let step = advance(&mut session, Event::Reply(Response::Exists(false)), advance_facts());
    assert_eq!(step.outcome, Outcome::Waiting);
    let step = advance(&mut session, Event::Reply(Response::Success), advance_facts());
    assert_eq!(step.outcome, Outcome::Done);
    assert!(session.has_table_state(&advance_path(&["text", "names.loc"])));
    assert!(session.ready());
}

#[test]
fn an_existing_entry_ends_the_creation() {
    let mut session = Session::new(Game::Rome2, false);
    let kind = PackedFileType::Loc("names".to_owned());
    create_packed_files(&mut session, Some(Ok(kind)), &vec![advance_path(&["text"])]);
    let step = advance(&mut session, Event::Reply(Response::Exists(true)), advance_facts());
    assert_eq!(step.outcome, Outcome::Failed(ErrorKind::FileAlreadyInPackFile));
    assert!(step.actions.is_empty());
    assert!(session.table_states().is_empty());
    assert_eq!(expected_event(&session), Expected::Nothing);
}

#[test]
fn opening_an_entry_goes_on_with_the_view() {
    let mut session = Session::new(Game::Rome2, false);
    let selected = vec![TreePathType::File(advance_path(&["db", "t", "x"]))];
    open_packedfile(&mut session, false, &selected, DecodeablePackedFileType::DB, 0);
    assert_eq!(expected_event(&session), Expected::ViewConstruction);
    let step = advance(&mut session, Event::ViewConstructed(Ok(())), advance_facts());
    assert_eq!(step.outcome, Outcome::Done);
    assert_eq!(session.path_in_view(0), Some(advance_path(&["db", "t", "x"])));
    open_packedfile(&mut session, false, &selected, DecodeablePackedFileType::DB, 0);
    let step =
        advance(&mut session, Event::ViewConstructed(Err("broken".to_owned())), advance_facts());
    assert_eq!(step.outcome, Outcome::Failed(ErrorKind::DBTableDecode("broken".to_owned())));
    assert_eq!(session.path_in_view(0), Some(advance_path(&["db", "t", "x"])));
}

#[test]
fn checking_a_script_goes_on_with_the_reply() {
    let mut session = Session::new(Game::Rome2, false);
    let view = PackedFileTextView::create_text_view(
        &advance_path(&["a.lua"]),
        &TextType::PackedFile(String::new()),
        true,
    );
    view.check_syntax(&mut session);
    assert_eq!(expected_event(&session), Expected::Reply);
    let step = advance(
        &mut session,
        Event::Reply(Response::ScriptReport(advance_path(&["fine"]))),
        advance_facts(),
    );
    assert_eq!(
        step.actions,
        vec![UiAction::ShowReport("Script Checked!".to_owned(), "fine\n".to_owned())]
    );
}

#[test]
fn a_changed_text_goes_on_with_the_reply() {
    let mut session = Session::new(Game::Rome2, false);
    let view = PackedFileTextView::create_text_view(
        &advance_path(&["a.lua"]),
        &TextType::PackedFile(String::new()),
        true,
    );
    view.save_changes(&mut session, "x = 1".to_owned());
    assert_eq!(expected_event(&session), Expected::Reply);
    let step = advance(&mut session, Event::Reply(Response::Success), advance_facts());
    assert_eq!(step.outcome, Outcome::Done);
    assert!(session.has_unsaved_changes());
    assert_eq!(expected_event(&session), Expected::Nothing);
}

#[test]
fn deleting_a_my_mod_goes_on_with_the_reply() {
    let mut session = Session::new(Game::Rome2, false);
    set_my_mod_mode(&mut session, Some(advance_path(&["mymods", "rome_2", "m.pack"])));
    let report = DeletionReport {
        pack_file_exists: true,
        pack_file_removed: true,
        assets_folder_exists: true,
        assets_folder_removed: true,
    };
    let base = advance_path(&["mymods"]);
    let step = delete_selected_my_mod(&mut session, Some(&base), true, report);
    assert_eq!(step.outcome, Outcome::Waiting);
    assert_eq!(expected_event(&session), Expected::Reply);
    let step = advance(&mut session, Event::Reply(Response::Success), advance_facts());
    assert_eq!(step.outcome, Outcome::Done);
    assert_eq!(
        step.actions.last(),
        Some(&UiAction::ShowMessage("MyMod successfully deleted: \"m.pack\".".to_owned()))
    );
    assert_eq!(session.mode(), Mode::Normal);
    assert!(session.ready());
}

#[test]
fn creating_a_my_mod_goes_on_with_three_replies() {
    let mut session = Session::new(Game::Rome2, false);
    new_my_mod(&mut session, &advance_path(&["mymods"]), "m", "empire", true, true);
    assert_eq!(expected_event(&session), Expected::Reply);
    advance(&mut session, Event::Reply(Response::Created(0)), advance_facts());
    assert_eq!(expected_event(&session), Expected::Reply);
    advance(
        &mut session,
        Event::Reply(Response::SavePath(advance_path(&["x.pack"]))),
        advance_facts(),
    );
    assert_eq!(expected_event(&session), Expected::Reply);
    let step = advance(&mut session, Event::Reply(Response::Saved(1)), advance_facts());
    assert_eq!(step.outcome, Outcome::Done);
    assert_eq!(
        session.mode(),
        Mode::MyMod { game_folder_name: "empire".to_owned(), mod_name: "m.pack".to_owned() }
    );
    assert_eq!(session.game_selected(), Game::Empire);
}

#[test]
fn a_fault_ends_the_session_whatever_was_under_way() {
    let mut session = Session::new(Game::Rome2, false);
    save_packfile(&mut session, false);
    let step = advance(&mut session, Event::Reply(Response::Exists(true)), advance_facts());
    assert!(matches!(step.outcome, Outcome::Fatal(_)));
    assert!(session.is_over());
    assert!(!session.ready());
    assert_eq!(expected_event(&session), Expected::Nothing);
}
