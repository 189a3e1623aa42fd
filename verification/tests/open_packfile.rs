use rpfm_ui::error::ErrorKind;
use rpfm_ui::game::{Game, PFHVersion};
use rpfm_ui::open::{open_packfile, open_packfile_reply};
use rpfm_ui::packed_file_view::{open_packedfile, view_constructed};
use rpfm_ui::protocol::{
    Awaiting, Command, CommandKind, CompressionState, PFHFileType, PFHFlags, PackFileUIData,
    ProtocolFault, Response, ResponseKind,
};
use rpfm_ui::session::{Mode, Session};
use rpfm_ui::table_state::{ColumnsState, FilterState, SearchState, TableState};
use rpfm_ui::ui::{
    Control, DecodeablePackedFileType, Outcome, TreePathType, TreeViewOperation, UiAction,
};

fn open_path(parts: &[&str]) -> Vec<String> {
    parts.iter().map(|part| part.to_string()).collect()
}

fn open_data(version: PFHVersion, extended: bool) -> PackFileUIData {
    PackFileUIData {
        pfh_file_type: PFHFileType::Movie,
        bitmask: PFHFlags {
            has_encrypted_data: true,
            has_index_with_timestamps: false,
            has_encrypted_index: true,
            has_extended_header: extended,
        },
        compression_state: CompressionState::Enabled,
        pfh_version: version,
    }
}

fn open_state(text: &str) -> TableState {
    TableState {
        filter_state: FilterState::new(text.to_owned(), 1, false),
        search_state: SearchState::new(String::new(), String::new(), 0, false),
        columns_state: ColumnsState::new((2, false), vec![], vec![]),
    }
}

fn open_with_view(session: &mut Session, path: &[&str], slot: i32) {
    let selected = vec![TreePathType::File(open_path(path))];
    let step = open_packedfile(session, false, &selected, DecodeablePackedFileType::Text, slot);
    assert_eq!(step.outcome, Outcome::Waiting);
    let step = view_constructed(session, Ok(()));
    assert_eq!(step.outcome, Outcome::Done);
}

fn open_expected_actions(data: PackFileUIData, game: Game, my_mod: bool) -> Vec<UiAction> {
    vec![
        UiAction::SetPackFileType(data.pfh_file_type),
        UiAction::SetChecked(Control::DataIsEncrypted, data.bitmask.has_encrypted_data),
        UiAction::SetChecked(
            Control::IndexIncludesTimestamp,
            data.bitmask.has_index_with_timestamps,
        ),
        UiAction::SetChecked(Control::IndexIsEncrypted, data.bitmask.has_encrypted_index),
        UiAction::SetChecked(Control::HeaderIsExtended, data.bitmask.has_extended_header),
        UiAction::SetChecked(
            Control::DataIsCompressed,
            data.compression_state == CompressionState::Enabled,
        ),
        UiAction::UpdateTreeView(TreeViewOperation::Build(false)),
        UiAction::SelectGame(game),
        UiAction::SetEnabled(Control::DeleteSelectedMyMod, my_mod),
        UiAction::SetEnabled(Control::InstallMyMod, my_mod),
        UiAction::SetEnabled(Control::UninstallMyMod, my_mod),
        UiAction::SetEnabled(Control::Window, true),
        UiAction::PurgeAllViews,
        UiAction::CloseGlobalSearch,
        UiAction::DisplayHelpTips,
    ]
}

#[test]
fn a_new_session_is_ready_and_empty() {
    let session = Session::new(Game::Attila, true);
    assert!(session.ready());
    assert!(!session.is_over());
    assert_eq!(session.awaiting(), Awaiting::Nothing);
    assert_eq!(session.mode(), Mode::Normal);
    assert_eq!(session.game_selected(), Game::Attila);
    assert!(session.has_no_views());
    assert!(session.table_states().is_empty());
    assert!(!session.has_unsaved_changes());
    assert_eq!(session.document(), None);
}

#[test]
fn opening_disables_the_window_and_sends_the_command() {
    let mut session = Session::new(Game::Warhammer2, false);
    let paths = vec![open_path(&["home", "mods", "a.pack"]), open_path(&["home", "b.pack"])];
    let step = open_packfile(&mut session, paths.clone(), "");
    assert_eq!(step.outcome, Outcome::Waiting);
    assert_eq!(
        step.actions,
        vec![
            UiAction::SetEnabled(Control::Window, false),
            UiAction::Send(Command::OpenDocument(paths)),
        ]
    );
    assert!(!session.ready());
    assert_eq!(session.awaiting(), Awaiting::Reply(CommandKind::OpenDocument));
    assert_eq!(session.mode(), Mode::Normal);
    assert_eq!(session.game_selected(), Game::Warhammer2);
    assert_eq!(session.document(), None);
}

#[test]
fn the_pack_files_that_were_opened_are_the_document() {
    let mut session = Session::new(Game::Warhammer2, false);
    let first = vec![open_path(&["data", "a.pack"]), open_path(&["data", "b.pack"])];
    open_packfile(&mut session, first.clone(), "");
    open_packfile_reply(
        &mut session,
        Response::DocumentOpened(open_data(PFHVersion::PFH5, false)),
    );
    assert_eq!(session.document(), Some(first.clone()));
    let second = vec![open_path(&["m", "attila", "c.pack"])];
    open_packfile(&mut session, second.clone(), "attila");
    assert_eq!(session.document(), Some(first.clone()));
    let error = ErrorKind::OpenPackFileGeneric("broken".to_owned());
    open_packfile_reply(&mut session, Response::Error(error));
    assert_eq!(session.document(), Some(first));
    open_packfile(&mut session, second.clone(), "attila");
    open_packfile_reply(
        &mut session,
        Response::DocumentOpened(open_data(PFHVersion::PFH4, false)),
    );
    assert_eq!(session.document(), Some(second));
}

#[test]
fn opening_a_my_mod_enters_its_mode_whatever_the_header_says() {
    let versions = [PFHVersion::PFH5, PFHVersion::PFH4, PFHVersion::PFH3, PFHVersion::PFH0];
    for version in versions {
        for extended in [false, true] {
            let mut session = Session::new(Game::Shogun2, false);
            let paths = vec![open_path(&["mymods", "attila", "my_mod.pack"])];
            open_packfile(&mut session, paths, "attila");
            let data = open_data(version, extended);
            let step = open_packfile_reply(&mut session, Response::DocumentOpened(data));
            assert_eq!(step.outcome, Outcome::Done);
            assert_eq!(step.actions, open_expected_actions(data, Game::Attila, true));
            assert_eq!(
                session.mode(),
                Mode::MyMod {
                    game_folder_name: "attila".to_owned(),
                    mod_name: "my_mod.pack".to_owned(),
                }
            );
            assert_eq!(session.game_selected(), Game::Attila);
            assert!(session.ready());
        }
    }
}

#[test]
fn the_folder_that_was_given_names_the_mode_of_a_my_mod() {
    let mut session = Session::new(Game::Shogun2, false);
    open_packfile(&mut session, vec![open_path(&["elsewhere", "x.pack"])], "warhammer");
    let data = open_data(PFHVersion::PFH0, false);
    open_packfile_reply(&mut session, Response::DocumentOpened(data));
    assert_eq!(
        session.mode(),
        Mode::MyMod { game_folder_name: "warhammer".to_owned(), mod_name: "x.pack".to_owned() }
    );
    assert_eq!(session.game_selected(), Game::Warhammer);
}

#[test]
fn a_my_mod_of_an_unknown_folder_selects_empire() {
    let mut session = Session::new(Game::Shogun2, false);
    open_packfile(&mut session, vec![open_path(&["m", "unknown", "x.pack"])], "unknown");
    let data = open_data(PFHVersion::PFH5, false);
    let step = open_packfile_reply(&mut session, Response::DocumentOpened(data));
    assert_eq!(step.actions[7], UiAction::SelectGame(Game::Empire));
    assert_eq!(session.game_selected(), Game::Empire);
    assert_eq!(
        session.mode(),
        Mode::MyMod { game_folder_name: "unknown".to_owned(), mod_name: "x.pack".to_owned() }
    );
}

#[test]
fn several_pack_files_are_never_a_my_mod() {
    let mut session = Session::new(Game::Attila, false);
    let paths = vec![open_path(&["m", "attila", "a.pack"]), open_path(&["m", "attila", "b.pack"])];
    open_packfile(&mut session, paths, "attila");
    let data = open_data(PFHVersion::PFH3, false);
    let step = open_packfile_reply(&mut session, Response::DocumentOpened(data));
    assert_eq!(step.actions, open_expected_actions(data, Game::Shogun2, false));
    assert_eq!(session.mode(), Mode::Normal);
    assert_eq!(session.game_selected(), Game::Shogun2);
}

#[test]
fn opening_without_folder_selects_the_game_by_the_header() {
    let games = [
        Game::ThreeKingdoms,
        Game::Warhammer2,
        Game::Warhammer,
        Game::ThronesOfBritannia,
        Game::Attila,
        Game::Rome2,
        Game::Shogun2,
        Game::Napoleon,
        Game::Empire,
        Game::Arena,
    ];
    for current in games {
        for (version, extended, expected) in [
            (PFHVersion::PFH5, true, Game::Arena),
            (
                PFHVersion::PFH5,
                false,
                if current == Game::ThreeKingdoms { current } else { Game::Warhammer2 },
            ),
            (
                PFHVersion::PFH4,
                false,
                match current {
                    Game::Warhammer | Game::ThronesOfBritannia | Game::Attila => current,
                    _ => Game::Rome2,
                },
            ),
            (PFHVersion::PFH3, false, Game::Shogun2),
            (
                PFHVersion::PFH0,
                false,
                if current == Game::Napoleon { current } else { Game::Empire },
            ),
        ] {
            let mut session = Session::new(current, false);
            open_packfile(&mut session, vec![open_path(&["data", "x.pack"])], "");
            let data = open_data(version, extended);
            let step = open_packfile_reply(&mut session, Response::DocumentOpened(data));
            assert_eq!(step.outcome, Outcome::Done);
            assert_eq!(step.actions, open_expected_actions(data, expected, false));
            assert_eq!(session.game_selected(), expected);
            assert_eq!(session.mode(), Mode::Normal);
        }
    }
}

#[test]
fn opening_leaves_the_mode_of_a_my_mod() {
    let mut session = Session::new(Game::Attila, false);
    open_packfile(&mut session, vec![open_path(&["m", "attila", "a.pack"])], "attila");
    open_packfile_reply(
        &mut session,
        Response::DocumentOpened(open_data(PFHVersion::PFH4, false)),
    );
    assert!(matches!(session.mode(), Mode::MyMod { .. }));
    open_packfile(&mut session, vec![open_path(&["data", "b.pack"])], "");
    open_packfile_reply(
        &mut session,
        Response::DocumentOpened(open_data(PFHVersion::PFH4, false)),
    );
    assert_eq!(session.mode(), Mode::Normal);
    assert_eq!(session.game_selected(), Game::Attila);
}

#[test]
fn opening_a_second_document_leaves_nothing_of_the_first() {
    let mut session = Session::new(Game::Rome2, false);
    open_packfile(&mut session, vec![open_path(&["data", "a.pack"])], "");
    open_packfile_reply(
        &mut session,
        Response::DocumentOpened(open_data(PFHVersion::PFH4, false)),
    );
    open_with_view(&mut session, &["db", "units_tables", "data"], 0);
    open_with_view(&mut session, &["text", "names.loc"], 1);
    session.set_table_state(open_path(&["db", "units_tables", "data"]), open_state("one"));
    session.set_table_state(open_path(&["text", "names.loc"]), open_state("two"));
    session.set_table_state(open_path(&["closed", "long", "ago"]), open_state("three"));
    assert_eq!(session.open_slots(), vec![0, 1]);
    assert_eq!(session.table_states().len(), 3);

    open_packfile(&mut session, vec![open_path(&["data", "b.pack"])], "");
    assert_eq!(session.open_slots(), vec![0, 1]);
    assert_eq!(session.table_states().len(), 3);
    let step = open_packfile_reply(
        &mut session,
        Response::DocumentOpened(open_data(PFHVersion::PFH4, false)),
    );
    assert_eq!(step.outcome, Outcome::Done);
    assert!(step.actions.contains(&UiAction::PurgeAllViews));
    assert!(session.has_no_views());
    assert!(session.open_slots().is_empty());
    assert_eq!(session.path_in_view(0), None);
    assert_eq!(session.path_in_view(1), None);
    assert!(session.find_slots_by_path(&open_path(&["db", "units_tables", "data"])).is_empty());
    assert!(session.table_states().is_empty());
    assert!(!session.has_table_state(&open_path(&["db", "units_tables", "data"])));
    assert_eq!(session.table_state(&open_path(&["text", "names.loc"])), TableState::new_empty());
    assert!(!session.has_unsaved_changes());
}

#[test]
fn table_states_that_are_remembered_outlive_the_document() {
    let mut session = Session::new(Game::Rome2, true);
    session.set_table_state(open_path(&["db", "t", "x"]), open_state("kept"));
    open_with_view(&mut session, &["db", "t", "x"], 0);
    open_packfile(&mut session, vec![open_path(&["data", "b.pack"])], "");
    open_packfile_reply(
        &mut session,
        Response::DocumentOpened(open_data(PFHVersion::PFH4, false)),
    );
    assert!(session.has_no_views());
    assert_eq!(session.table_state(&open_path(&["db", "t", "x"])), open_state("kept"));
}

#[test]
fn a_failure_to_open_is_handed_back_and_changes_nothing() {
    let mut session = Session::new(Game::Rome2, false);
    open_with_view(&mut session, &["db", "t", "x"], 0);
    session.set_table_state(open_path(&["db", "t", "x"]), open_state("kept"));
    open_packfile(&mut session, vec![open_path(&["m", "attila", "a.pack"])], "attila");
    let error = ErrorKind::OpenPackFileGeneric("not a PackFile".to_owned());
    let step = open_packfile_reply(&mut session, Response::Error(error.clone()));
    assert_eq!(step.outcome, Outcome::Failed(error));
    assert_eq!(step.actions, vec![UiAction::SetEnabled(Control::Window, true)]);
    assert!(session.ready());
    assert_eq!(session.mode(), Mode::Normal);
    assert_eq!(session.game_selected(), Game::Rome2);
    assert_eq!(session.open_slots(), vec![0]);
    assert_eq!(session.table_state(&open_path(&["db", "t", "x"])), open_state("kept"));
}

#[test]
fn any_other_answer_to_opening_ends_the_session() {
    for response in [
        Response::Success,
        Response::Saved(1),
        Response::Exists(true),
        Response::Error(ErrorKind::PackFileIsNotAFile),
        Response::Error(ErrorKind::Generic("x".to_owned())),
    ] {
        let mut session = Session::new(Game::Rome2, false);
        open_with_view(&mut session, &["db", "t", "x"], 0);
        open_packfile(&mut session, vec![open_path(&["data", "a.pack"])], "");
        let kind = response.kind();
        let step = open_packfile_reply(&mut session, response);
        assert_eq!(
            step.outcome,
            Outcome::Fatal(ProtocolFault {
                awaiting: Awaiting::Reply(CommandKind::OpenDocument),
                response: kind,
            })
        );
        assert!(kind != ResponseKind::DocumentOpened);
        assert!(step.actions.is_empty());
        assert!(session.is_over());
        assert!(!session.ready());
        assert_eq!(session.open_slots(), vec![0]);
        assert_eq!(session.game_selected(), Game::Rome2);
    }
}

#[test]
fn selecting_a_game_changes_only_the_game() {
    let mut session = Session::new(Game::Rome2, false);
    session.set_table_state(open_path(&["a"]), open_state("kept"));
    session.select_game(Game::Napoleon);
    assert_eq!(session.game_selected(), Game::Napoleon);
    assert_eq!(session.mode(), Mode::Normal);
    assert_eq!(session.table_state(&open_path(&["a"])), open_state("kept"));
    assert!(session.ready());
}

#[test]
fn table_states_of_the_session_can_be_set_and_forgotten() {
    let mut session = Session::new(Game::Rome2, false);
    assert_eq!(session.table_state(&open_path(&["a"])), TableState::new_empty());
    session.set_table_state(open_path(&["a"]), open_state("one"));
    session.set_table_state(open_path(&["a"]), open_state("two"));
    assert!(session.has_table_state(&open_path(&["a"])));
    assert_eq!(session.table_state(&open_path(&["a"])), open_state("two"));
    session.forget_table_state(&open_path(&["a"]));
    assert!(!session.has_table_state(&open_path(&["a"])));
    let mut restored = TableState::new();
    restored.put(open_path(&["b"]), open_state("three"));
    session.restore_table_states(restored);
    assert_eq!(session.table_state(&open_path(&["b"])), open_state("three"));
    assert_eq!(session.table_states().len(), 1);
}
