//! MyMods: PackFiles kept in a folder of their own, one folder for each
//! game, with a folder of assets beside each PackFile. Creating, deleting,
//! installing and uninstalling them.

use crate::archive_path::clone_path;
use crate::create::{is_refused_step, refused_step};
use crate::error::{ErrorKind, ErrorKindView};
use crate::game::{my_mod_game_of, Game};
use crate::open::{fatal_step, is_fatal_step};
use crate::packfile_actions::{enable_packfile_actions, packfile_actions};
use crate::protocol::{
    Command,
    CommandKind,
    CommandView,
    PFHFileType,
    Response,
    ResponseView,
    SaveAnswer,
    SaveAnswerView,
};
use crate::session::{
    enable_my_mod_actions,
    my_mod_actions,
    Mode,
    ModeView,
    Pending,
    PendingView,
    Session,
};
use crate::table_state::TableStateView;
use crate::text::{chars_of, with_suffix};
use crate::ui::{
    append_actions,
    no_actions,
    push_action,
    Control,
    Outcome,
    OutcomeView,
    Step,
    StepView,
    TreeViewOperation,
    TreeViewOperationView,
    UiAction,
    UiActionView,
};
use vstd::pervasive::unreached;
use vstd::prelude::*;
use vstd::string::*;

verus! {

/// The place of the PackFile of a MyMod: in the folder of its game under
/// the folder of MyMods, named after the MyMod with the extension `pack`.
pub open spec fn new_my_mod_path(
    mymods_base_path: Seq<Seq<char>>,
    mod_game: Seq<char>,
    mod_name: Seq<char>,
) -> Seq<Seq<char>> {
    mymods_base_path.push(mod_game).push(mod_name + ".pack"@)
}

/// The place of the folder of assets of a new MyMod: beside its PackFile,
/// named after the MyMod.
pub open spec fn new_my_mod_assets_path(
    mymods_base_path: Seq<Seq<char>>,
    mod_game: Seq<char>,
    mod_name: Seq<char>,
) -> Seq<Seq<char>> {
    mymods_base_path.push(mod_game).push(mod_name)
}

/// The place of the last `.` in a file name that is not its first
/// character, or 0 where there is none.
pub open spec fn extension_dot(name: Seq<char>) -> int
    decreases name.len(),
{
    if name.len() <= 1 {
        0
    } else if name.last() == '.' {
        name.len() - 1
    } else {
        extension_dot(name.drop_last())
    }
}

/// A file name without its extension: what stands before its last `.`,
/// unless that is the first character.
pub open spec fn file_stem_of(name: Seq<char>) -> Seq<char> {
    if extension_dot(name) > 0 {
        name.take(extension_dot(name))
    } else {
        name
    }
}

/// `path` with one more segment.
pub fn child_path(path: &Vec<String>, name: &str) -> (child: Vec<String>)
    ensures
        child.deep_view() == path.deep_view().push(name@),
{
    let mut child = clone_path(path);
    let ghost before = child.deep_view();
    let segment = name.to_owned();
    child.push(segment);
    assert(child.deep_view() =~= before.push(name@));
    child
}

/// The file name without its extension.
pub fn file_stem(name: &str) -> (stem: String)
    ensures
        stem@ == file_stem_of(name@),
{
    let chars = chars_of(name);
    let mut i: usize = chars.len();
    proof {
        assert(name@.take(i as int) =~= name@);
    }
    while i > 1
        invariant
            i <= chars.len(),
            chars@ == name@,
            extension_dot(name@) == extension_dot(name@.take(i as int)),
        decreases i,
    {
        proof {
            let front = name@.take(i as int);
            assert(front.last() == name@[i - 1]);
            assert(front.drop_last() =~= name@.take(i - 1));
        }
        if chars[i - 1] == '.' {
            return name.substring_char(0, i - 1).to_owned();
        }
        i -= 1;
    }
    name.to_owned()
}

/// The places on disk of a new MyMod: the folder of its game, the folder of
/// its assets, and its PackFile.
#[derive(Debug, PartialEq, Eq)]
pub struct NewMyModPaths {
    pub game_folder: Vec<String>,
    pub assets_folder: Vec<String>,
    pub pack_file: Vec<String>,
}

/// The places on disk of the MyMod `mod_name` of the game whose folder is
/// `mod_game`, under the folder of MyMods.
pub fn new_my_mod_paths(mymods_base_path: &Vec<String>, mod_name: &str, mod_game: &str) -> (paths:
    NewMyModPaths)
    ensures
        paths.game_folder.deep_view() == mymods_base_path.deep_view().push(mod_game@),
        paths.assets_folder.deep_view() == new_my_mod_assets_path(
            mymods_base_path.deep_view(),
            mod_game@,
            mod_name@,
        ),
        paths.pack_file.deep_view() == new_my_mod_path(
            mymods_base_path.deep_view(),
            mod_game@,
            mod_name@,
        ),
{
    let game_folder = child_path(mymods_base_path, mod_game);
    let assets_folder = child_path(&game_folder, mod_name);
    let full_mod_name = with_suffix(mod_name, ".pack");
    let pack_file = child_path(&game_folder, full_mod_name.as_str());
    NewMyModPaths { game_folder, assets_folder, pack_file }
}

/// What the start of the creation of a MyMod does. The game of the MyMod is
/// selected. Where one of its two folders could not be made, the operation
/// ends with that error; else the worker is asked for a new document.
pub open spec fn new_my_mod_started(
    before: Session,
    mymods_base_path: Seq<Seq<char>>,
    mod_name: Seq<char>,
    mod_game: Seq<char>,
    game_folder_created: bool,
    assets_folder_created: bool,
    after: Session,
    step: StepView,
) -> bool {
    let game = my_mod_game_of(mod_game);
    &&& after.selected_game() == game
    &&& after.mode_view() == before.mode_view()
    &&& after.open_views() == before.open_views()
    &&& after.cached_states() == before.cached_states()
    &&& after.unsaved() == before.unsaved()
    &&& after.remembers() == before.remembers()
    &&& after.document_view() == before.document_view()
    &&& !after.faulted()
    &&& if !game_folder_created {
        &&& step.outcome == OutcomeView::Failed(ErrorKindView::IOCreateAssetFolder)
        &&& step.actions == seq![UiActionView::SelectGame(game)]
        &&& after.pending_view() is Nothing
    } else if !assets_folder_created {
        &&& step.outcome == OutcomeView::Failed(ErrorKindView::IOCreateNestedAssetFolder)
        &&& step.actions == seq![UiActionView::SelectGame(game)]
        &&& after.pending_view() is Nothing
    } else {
        &&& step.outcome == OutcomeView::Waiting
        &&& step.actions == seq![
            UiActionView::SelectGame(game),
            UiActionView::Send(CommandView::NewDocument),
        ]
        &&& after.pending_view() == PendingView::NewMyMod {
            mymod_path: new_my_mod_path(mymods_base_path, mod_game, mod_name),
        }
    }
}

/// The requests that show a MyMod that was just created: a view area
/// without views, the tree built anew, a PackFile of the type of a mod with
/// none of its flags set, the menu bar fitted to an open PackFile, the
/// actions of the mode of a MyMod, and a MyMod menu to rebuild.
pub open spec fn my_mod_created_actions(game: Game, mymods_base_path_is_dir: Option<bool>) -> Seq<
    UiActionView,
> {
    seq![
        UiActionView::PurgeAllViews,
        UiActionView::CloseGlobalSearch,
        UiActionView::DisplayHelpTips,
        UiActionView::UpdateTreeView(TreeViewOperationView::Build(false)),
        UiActionView::SetPackFileType(PFHFileType::Mod),
        UiActionView::SetChecked(Control::DataIsEncrypted, false),
        UiActionView::SetChecked(Control::IndexIncludesTimestamp, false),
        UiActionView::SetChecked(Control::IndexIsEncrypted, false),
        UiActionView::SetChecked(Control::HeaderIsExtended, false),
    ] + packfile_actions(game, mymods_base_path_is_dir, true) + my_mod_actions(true) + seq![
        UiActionView::RebuildMyModMenu,
    ]
}

/// What an answer of the worker does while a MyMod is created.
///
/// The new document is there: the worker is asked to save it under another
/// name. The worker has named the place of the document: it is told the
/// place of the MyMod. The MyMod is saved: its PackFile is the document, the
/// session is in the mode of the MyMod, without views, without table states unless they are to be
/// remembered, and with nothing unsaved. An error is handed back. Anything
/// else is a fault.
pub open spec fn new_my_mod_replied(
    before: Session,
    response: ResponseView,
    mymods_base_path_is_dir: Option<bool>,
    after: Session,
    step: StepView,
) -> bool {
    match (before.pending_view(), response) {
        (PendingView::NewMyMod { mymod_path }, ResponseView::Created(_)) => {
            &&& step.outcome == OutcomeView::Waiting
            &&& step.actions == seq![UiActionView::Send(CommandView::SaveDocumentAs)]
            &&& after.same_data(&before)
            &&& after.pending_view() == PendingView::NewMyModSaveAs { mymod_path }
            &&& !after.faulted()
        },
        (PendingView::NewMyModSaveAs { mymod_path }, ResponseView::SavePath(place)) => if place.len()
            >= 1 {
            &&& step.outcome == OutcomeView::Waiting
            &&& step.actions == seq![
                UiActionView::Answer(SaveAnswerView::Destination(mymod_path)),
            ]
            &&& after.same_data(&before)
            &&& after.pending_view() == PendingView::NewMyModSave { mymod_path }
            &&& !after.faulted()
        } else {
            is_fatal_step(before, response, after, step) && after.pending_view() is Nothing
        },
        (PendingView::NewMyModSaveAs { .. }, ResponseView::Error(ErrorKindView::PackFileIsNonEditable)) => {
            is_refused_step(before, ErrorKindView::PackFileIsNonEditable, after, step)
        },
        (PendingView::NewMyModSave { mymod_path }, ResponseView::Saved(_)) => {
            &&& step.outcome == OutcomeView::Done
            &&& step.actions == my_mod_created_actions(
                before.selected_game(),
                mymods_base_path_is_dir,
            )
            &&& after.mode_view() == crate::session::mode_for(Some(mymod_path))
            &&& after.document_view() == Some(seq![mymod_path])
            &&& after.selected_game() == before.selected_game()
            &&& after.open_views() == Map::<i32, Seq<Seq<char>>>::empty()
            &&& after.cached_states() == if before.remembers() {
                before.cached_states()
            } else {
                Map::<Seq<Seq<char>>, TableStateView>::empty()
            }
            &&& !after.unsaved()
            &&& after.remembers() == before.remembers()
            &&& after.pending_view() is Nothing
            &&& !after.faulted()
        },
        (
            PendingView::NewMyModSave { .. },
            ResponseView::Error(ErrorKindView::SavePackFileGeneric(message)),
        ) => is_refused_step(before, ErrorKindView::SavePackFileGeneric(message), after, step),
        _ => is_fatal_step(before, response, after, step) && after.pending_view() is Nothing,
    }
}

/// Starts the creation of the MyMod `mod_name` of the game whose folder is
/// `mod_game`. The two folders of the MyMod are made before:
/// `game_folder_created` and `assets_folder_created` say whether they are
/// there.
pub fn new_my_mod(
    session: &mut Session,
    mymods_base_path: &Vec<String>,
    mod_name: &str,
    mod_game: &str,
    game_folder_created: bool,
    assets_folder_created: bool,
) -> (step: Step)
    requires
        old(session).is_ready(),
    ensures
        final(session).wf(),
        new_my_mod_started(
            *old(session),
            mymods_base_path.deep_view(),
            mod_name@,
            mod_game@,
            game_folder_created,
            assets_folder_created,
            *final(session),
            step.deep_view(),
        ),
{
    let game = Game::for_my_mod_folder(mod_game);
    session.game_selected = game;
    let mut actions = no_actions();
    push_action(&mut actions, UiAction::SelectGame(game));
    if !game_folder_created {
        assert(actions.deep_view() =~= seq![UiActionView::SelectGame(game)]);
        return Step { actions, outcome: Outcome::Failed(ErrorKind::IOCreateAssetFolder) };
    }
    if !assets_folder_created {
        assert(actions.deep_view() =~= seq![UiActionView::SelectGame(game)]);
        return Step { actions, outcome: Outcome::Failed(ErrorKind::IOCreateNestedAssetFolder) };
    }
    let paths = new_my_mod_paths(mymods_base_path, mod_name, mod_game);
    let sent = session.channel.send(CommandKind::NewDocument);
    assert(sent);
    session.pending = Pending::NewMyMod { mymod_path: paths.pack_file };
    push_action(&mut actions, UiAction::Send(Command::NewDocument));
    assert(actions.deep_view() =~= seq![
        UiActionView::SelectGame(game),
        UiActionView::Send(CommandView::NewDocument),
    ]);
    Step { actions, outcome: Outcome::Waiting }
}

/// The requests that show a MyMod that was just created.
fn show_created_my_mod(session: &Session, mymods_base_path_is_dir: Option<bool>) -> (actions: Vec<
    UiAction,
>)
    ensures
        actions.deep_view() == my_mod_created_actions(
            session.selected_game(),
            mymods_base_path_is_dir,
        ),
{
    let mut actions = no_actions();
    push_action(&mut actions, UiAction::PurgeAllViews);
    push_action(&mut actions, UiAction::CloseGlobalSearch);
    push_action(&mut actions, UiAction::DisplayHelpTips);
    push_action(&mut actions, UiAction::UpdateTreeView(TreeViewOperation::Build(false)));
    push_action(&mut actions, UiAction::SetPackFileType(PFHFileType::Mod));
    push_action(&mut actions, UiAction::SetChecked(Control::DataIsEncrypted, false));
    push_action(&mut actions, UiAction::SetChecked(Control::IndexIncludesTimestamp, false));
    push_action(&mut actions, UiAction::SetChecked(Control::IndexIsEncrypted, false));
    push_action(&mut actions, UiAction::SetChecked(Control::HeaderIsExtended, false));
    append_actions(&mut actions, enable_packfile_actions(session, mymods_base_path_is_dir, true));
    append_actions(&mut actions, enable_my_mod_actions(true));
    push_action(&mut actions, UiAction::RebuildMyModMenu);
    assert(actions.deep_view() =~= my_mod_created_actions(
        session.game_selected,
        mymods_base_path_is_dir,
    ));
    actions
}

/// Takes an answer of the worker while a MyMod is created.
/// `mymods_base_path_is_dir` is `None` where no folder of MyMods is
/// configured, and else says whether the folder exists.
pub fn new_my_mod_reply(
    session: &mut Session,
    response: Response,
    mymods_base_path_is_dir: Option<bool>,
) -> (step: Step)
    requires
        old(session).wf(),
        old(session).pending_view() is NewMyMod || old(session).pending_view() is NewMyModSaveAs
            || old(session).pending_view() is NewMyModSave,
    ensures
        final(session).wf(),
        new_my_mod_replied(
            *old(session),
            response.deep_view(),
            mymods_base_path_is_dir,
            *final(session),
            step.deep_view(),
        ),
{
    let pending = match session.take_reply(&response) {
        Ok(pending) => pending,
        Err(fault) => {
            return fatal_step(fault);
        },
    };
    match pending {
        Pending::NewMyMod { mymod_path } => {
            let sent = session.channel.send(CommandKind::SaveDocumentAs);
            assert(sent);
            session.pending = Pending::NewMyModSaveAs { mymod_path };
            let mut actions = no_actions();
            push_action(&mut actions, UiAction::Send(Command::SaveDocumentAs));
            assert(actions.deep_view() =~= seq![UiActionView::Send(CommandView::SaveDocumentAs)]);
            Step { actions, outcome: Outcome::Waiting }
        },
        Pending::NewMyModSaveAs { mymod_path } => {
            match response {
                Response::SavePath(_) => {
                    let answered = session.channel.answer(false);
                    assert(answered);
                    let destination = clone_path(&mymod_path);
                    session.pending = Pending::NewMyModSave { mymod_path };
                    let mut actions = no_actions();
                    push_action(
                        &mut actions,
                        UiAction::Answer(SaveAnswer::Destination(destination)),
                    );
                    assert(actions.deep_view() =~= seq![
                        UiActionView::Answer(
                            SaveAnswerView::Destination(destination.deep_view()),
                        ),
                    ]);
                    Step { actions, outcome: Outcome::Waiting }
                },
                Response::Error(error) => refused_step(error),
                _ => unreached(),
            }
        },
        Pending::NewMyModSave { mymod_path } => {
            match response {
                Response::Saved(_) => {
                    let _ = session.registry.close_all();
                    if !session.remember_table_state_permanently {
                        session.table_states.clear();
                    }
                    let n = mymod_path.len();
                    session.mode = Mode::MyMod {
                        game_folder_name: mymod_path[n - 2].clone(),
                        mod_name: mymod_path[n - 1].clone(),
                    };
                    let mut document: Vec<Vec<String>> = Vec::new();
                    let ghost place = mymod_path.deep_view();
                    document.push(mymod_path);
                    assert(document.deep_view() =~= seq![place]);
                    session.document = Some(document);
                    session.unsaved_changes = false;
                    let actions = show_created_my_mod(session, mymods_base_path_is_dir);
                    Step { actions, outcome: Outcome::Done }
                },
                Response::Error(error) => refused_step(error),
                _ => unreached(),
            }
        },
        _ => unreached(),
    }
}

/// The place of the PackFile of the selected MyMod, and that of the folder
/// of its assets: beside the PackFile, named like it without its extension.
/// There are none outside the mode of a MyMod.
pub open spec fn my_mod_places(mode: ModeView, mymods_base_path: Seq<Seq<char>>) -> Option<
    (Seq<Seq<char>>, Seq<Seq<char>>),
> {
    match mode {
        ModeView::MyMod { game_folder_name, mod_name } => Some(
            (
                mymods_base_path.push(game_folder_name).push(mod_name),
                mymods_base_path.push(game_folder_name).push(file_stem_of(mod_name)),
            ),
        ),
        ModeView::Normal => None,
    }
}

/// The place of the PackFile of the selected MyMod, and that of the folder
/// of its assets.
pub fn selected_my_mod_places(session: &Session, mymods_base_path: &Vec<String>) -> (places:
    Option<(Vec<String>, Vec<String>)>)
    ensures
        places.deep_view() == my_mod_places(session.mode_view(), mymods_base_path.deep_view()),
{
    match &session.mode {
        Mode::MyMod { game_folder_name, mod_name } => {
            let folder = child_path(mymods_base_path, game_folder_name.as_str());
            let pack_file = child_path(&folder, mod_name.as_str());
            let stem = file_stem(mod_name.as_str());
            let assets = child_path(&folder, stem.as_str());
            Some((pack_file, assets))
        },
        Mode::Normal => None,
    }
}

/// What was found and done on disk for the deletion of a MyMod: whether its
/// PackFile was there, whether it could be removed, whether the folder of
/// its assets was there, and whether that could be removed. A later fact
/// means nothing where an earlier one is `false`.
#[derive(Clone, Copy, PartialEq, Eq, Structural, Debug)]
pub struct DeletionReport {
    pub pack_file_exists: bool,
    pub pack_file_removed: bool,
    pub assets_folder_exists: bool,
    pub assets_folder_removed: bool,
}

/// The text that tells that a MyMod was deleted.
pub open spec fn deleted_message(mod_name: Seq<char>) -> Seq<char> {
    "MyMod successfully deleted: \""@ + mod_name + "\"."@
}

/// The requests that start the deletion of the selected MyMod in the
/// session, once its PackFile is gone from the disk: a warning where the
/// folder of its assets was not there or could not be removed, then the
/// normal mode, and the request to the worker to empty the document.
pub open spec fn my_mod_removed_actions(
    assets_folder: Seq<Seq<char>>,
    report: DeletionReport,
) -> Seq<UiActionView> {
    let warning = if !report.assets_folder_exists {
        seq![UiActionView::ShowWarning(ErrorKindView::MyModPackFileDeletedFolderNotFound)]
    } else if !report.assets_folder_removed {
        seq![UiActionView::ShowWarning(ErrorKindView::IOGenericDelete(seq![assets_folder]))]
    } else {
        Seq::<UiActionView>::empty()
    };
    warning + my_mod_actions(false) + seq![UiActionView::Send(CommandView::ResetDocument)]
}

/// The requests that end the deletion of a MyMod: the menu bar fitted to no
/// PackFile, an empty tree, a MyMod menu to rebuild, and the word that the
/// MyMod was deleted.
pub open spec fn my_mod_deleted_actions(
    game: Game,
    mymods_base_path_is_dir: bool,
    mod_name: Seq<char>,
) -> Seq<UiActionView> {
    packfile_actions(game, Some(mymods_base_path_is_dir), false) + seq![
        UiActionView::UpdateTreeView(TreeViewOperationView::Clear),
        UiActionView::RebuildMyModMenu,
        UiActionView::ShowMessage(deleted_message(mod_name)),
    ]
}

/// What the deletion of the selected MyMod does, once its files were dealt
/// with on disk.
///
/// Outside the mode of a MyMod, without a folder of MyMods, where the
/// PackFile was not there and where it could not be removed, the operation
/// ends with the error for that. Else the session enters the normal mode and
/// asks the worker to empty the document.
pub open spec fn my_mod_was_removed(
    before: Session,
    mymods_base_path: Option<Seq<Seq<char>>>,
    mymods_base_path_is_dir: bool,
    report: DeletionReport,
    after: Session,
    step: StepView,
) -> bool {
    match before.mode_view() {
        ModeView::Normal => is_refused_step(
            before,
            ErrorKindView::MyModDeleteWithoutMyModSelected,
            after,
            step,
        ),
        ModeView::MyMod { game_folder_name, mod_name } => match mymods_base_path {
            None => is_refused_step(before, ErrorKindView::MyModPathNotConfigured, after, step),
            Some(base) => {
                let places = my_mod_places(before.mode_view(), base)->0;
                if !report.pack_file_exists {
                    is_refused_step(before, ErrorKindView::MyModPackFileDoesntExist, after, step)
                } else if !report.pack_file_removed {
                    is_refused_step(
                        before,
                        ErrorKindView::IOGenericDelete(seq![places.0]),
                        after,
                        step,
                    )
                } else {
                    &&& step.outcome == OutcomeView::Waiting
                    &&& step.actions == my_mod_removed_actions(places.1, report)
                    &&& after.mode_view() == ModeView::Normal
                    &&& after.unsaved() == before.unsaved()
                    &&& after.selected_game() == before.selected_game()
                    &&& after.open_views() == before.open_views()
                    &&& after.cached_states() == before.cached_states()
                    &&& after.remembers() == before.remembers()
                    &&& after.document_view() == before.document_view()
                    &&& after.pending_view() == PendingView::DeleteMyMod {
                        mod_name,
                        mymods_base_path_is_dir,
                    }
                    &&& !after.faulted()
                }
            },
        },
    }
}

/// What the answer to the request to empty the document does while a MyMod
/// is deleted: the document is empty, stands for no file, and nothing is
/// unsaved; an error is handed back; anything else is a fault.
pub open spec fn my_mod_deleted_replied(
    before: Session,
    response: ResponseView,
    after: Session,
    step: StepView,
) -> bool {
    let mod_name = before.pending_view()->DeleteMyMod_mod_name;
    let is_dir = before.pending_view()->DeleteMyMod_mymods_base_path_is_dir;
    match response {
        ResponseView::Success => {
            &&& step.outcome == OutcomeView::Done
            &&& step.actions == my_mod_deleted_actions(before.selected_game(), is_dir, mod_name)
            &&& after.document_view() is None
            &&& !after.unsaved()
            &&& after.mode_view() == before.mode_view()
            &&& after.selected_game() == before.selected_game()
            &&& after.open_views() == before.open_views()
            &&& after.cached_states() == before.cached_states()
            &&& after.remembers() == before.remembers()
            &&& after.pending_view() is Nothing
            &&& !after.faulted()
        },
        ResponseView::Error(error) => is_refused_step(before, error, after, step),
        _ => is_fatal_step(before, response, after, step) && after.pending_view() is Nothing,
    }
}

/// Goes on with the deletion of the selected MyMod once its files were
/// dealt with on disk. `mymods_base_path` is the folder of MyMods, where one
/// is configured, `mymods_base_path_is_dir` says whether it exists, and
/// `report` says what was found and done on disk.
pub fn delete_selected_my_mod(
    session: &mut Session,
    mymods_base_path: Option<&Vec<String>>,
    mymods_base_path_is_dir: bool,
    report: DeletionReport,
) -> (step: Step)
    requires
        old(session).is_ready(),
    ensures
        final(session).wf(),
        my_mod_was_removed(
            *old(session),
            mymods_base_path.deep_view(),
            mymods_base_path_is_dir,
            report,
            *final(session),
            step.deep_view(),
        ),
{
    let old_mod_name = match &session.mode {
        Mode::MyMod { mod_name, .. } => mod_name.clone(),
        Mode::Normal => {
            return refused_step(ErrorKind::MyModDeleteWithoutMyModSelected);
        },
    };
    let base = match mymods_base_path {
        Some(base) => base,
        None => {
            return refused_step(ErrorKind::MyModPathNotConfigured);
        },
    };
    let (pack_file, assets_folder) = match selected_my_mod_places(session, base) {
        Some(places) => places,
        None => unreached(),
    };
    if !report.pack_file_exists {
        return refused_step(ErrorKind::MyModPackFileDoesntExist);
    }
    if !report.pack_file_removed {
        let mut failed: Vec<Vec<String>> = Vec::new();
        failed.push(pack_file);
        assert(failed.deep_view() =~= seq![pack_file.deep_view()]);
        return refused_step(ErrorKind::IOGenericDelete(failed));
    }
    let mut actions = no_actions();
    if !report.assets_folder_exists {
        push_action(
            &mut actions,
            UiAction::ShowWarning(ErrorKind::MyModPackFileDeletedFolderNotFound),
        );
    } else if !report.assets_folder_removed {
        let mut failed: Vec<Vec<String>> = Vec::new();
        failed.push(assets_folder);
        assert(failed.deep_view() =~= seq![assets_folder.deep_view()]);
        push_action(&mut actions, UiAction::ShowWarning(ErrorKind::IOGenericDelete(failed)));
    }
    session.mode = Mode::Normal;
    append_actions(&mut actions, enable_my_mod_actions(false));
    let sent = session.channel.send(CommandKind::ResetDocument);
    assert(sent);
    session.pending = Pending::DeleteMyMod { mod_name: old_mod_name, mymods_base_path_is_dir };
    push_action(&mut actions, UiAction::Send(Command::ResetDocument));
    assert(actions.deep_view() =~= my_mod_removed_actions(assets_folder.deep_view(), report));
    Step { actions, outcome: Outcome::Waiting }
}

/// Takes the answer to the request to empty the document while a MyMod is
/// deleted.
pub fn delete_my_mod_reply(session: &mut Session, response: Response) -> (step: Step)
    requires
        old(session).wf(),
        old(session).pending_view() is DeleteMyMod,
    ensures
        final(session).wf(),
        my_mod_deleted_replied(
            *old(session),
            response.deep_view(),
            *final(session),
            step.deep_view(),
        ),
{
    let pending = match session.take_reply(&response) {
        Ok(pending) => pending,
        Err(fault) => {
            return fatal_step(fault);
        },
    };
    let (mod_name, is_dir) = match pending {
        Pending::DeleteMyMod { mod_name, mymods_base_path_is_dir } => (
            mod_name,
            mymods_base_path_is_dir,
        ),
        _ => unreached(),
    };
    match response {
        Response::Success => {
            let mut actions = enable_packfile_actions(session, Some(is_dir), false);
            push_action(&mut actions, UiAction::UpdateTreeView(TreeViewOperation::Clear));
            push_action(&mut actions, UiAction::RebuildMyModMenu);
            let mut message = "MyMod successfully deleted: \"".to_owned();
            message.append(mod_name.as_str());
            message.append("\".");
            push_action(&mut actions, UiAction::ShowMessage(message));
            session.document = None;
            session.unsaved_changes = false;
            assert(actions.deep_view() =~= my_mod_deleted_actions(
                session.game_selected,
                is_dir,
                mod_name@,
            ));
            Step { actions, outcome: Outcome::Done }
        },
        Response::Error(error) => refused_step(error),
        _ => unreached(),
    }
}

/// What was found and done on disk for the installation of a MyMod:
/// whether its PackFile was there, whether the data folder of the game was
/// there, and whether the PackFile could be copied into it. A later fact
/// means nothing where an earlier one is `false`.
#[derive(Clone, Copy, PartialEq, Eq, Structural, Debug)]
pub struct InstallReport {
    pub pack_file_exists: bool,
    pub data_folder_exists: bool,
    pub copied: bool,
}

/// The place in the data folder of the game where the selected MyMod is
/// installed. There is none outside the mode of a MyMod.
pub open spec fn installed_place(mode: ModeView, game_data_path: Seq<Seq<char>>) -> Option<
    Seq<Seq<char>>,
> {
    match mode {
        ModeView::MyMod { mod_name, .. } => Some(game_data_path.push(mod_name)),
        ModeView::Normal => None,
    }
}

/// The error with which the installation of the selected MyMod ends, if it
/// ends with one: no MyMod is selected, a folder is not configured, the
/// PackFile or the data folder is not there, or the copy failed.
pub open spec fn install_error(
    mode: ModeView,
    mymods_base_path: Option<Seq<Seq<char>>>,
    game_data_path: Option<Seq<Seq<char>>>,
    report: InstallReport,
) -> Option<ErrorKindView> {
    if mode is Normal {
        Some(ErrorKindView::MyModDeleteWithoutMyModSelected)
    } else if mymods_base_path is None {
        Some(ErrorKindView::MyModPathNotConfigured)
    } else if game_data_path is None {
        Some(ErrorKindView::GamePathNotConfigured)
    } else if !report.pack_file_exists {
        Some(ErrorKindView::MyModPackFileDoesntExist)
    } else if !report.data_folder_exists {
        Some(ErrorKindView::MyModInstallFolderDoesntExists)
    } else if !report.copied {
        Some(ErrorKindView::IOGenericCopy(installed_place(mode, game_data_path->0)->0))
    } else {
        None
    }
}

/// The place in the data folder of the game where the selected MyMod is
/// installed.
pub fn selected_my_mod_installed_place(session: &Session, game_data_path: &Vec<String>) -> (place:
    Option<Vec<String>>)
    ensures
        place.deep_view() == installed_place(session.mode_view(), game_data_path.deep_view()),
{
    match &session.mode {
        Mode::MyMod { mod_name, .. } => Some(child_path(game_data_path, mod_name.as_str())),
        Mode::Normal => None,
    }
}

/// Ends the installation of the selected MyMod: `Ok` where it is installed,
/// else the error to report.
pub fn install_my_mod(
    session: &Session,
    mymods_base_path: Option<&Vec<String>>,
    game_data_path: Option<&Vec<String>>,
    report: InstallReport,
) -> (installed: Result<(), ErrorKind>)
    ensures
        installed is Ok <==> install_error(
            session.mode_view(),
            mymods_base_path.deep_view(),
            game_data_path.deep_view(),
            report,
        ) is None,
        installed matches Err(error) ==> Some(error.deep_view()) == install_error(
            session.mode_view(),
            mymods_base_path.deep_view(),
            game_data_path.deep_view(),
            report,
        ),
{
    match &session.mode {
        Mode::Normal => {
            return Err(ErrorKind::MyModDeleteWithoutMyModSelected);
        },
        _ => {},
    }
    if mymods_base_path.is_none() {
        return Err(ErrorKind::MyModPathNotConfigured);
    }
    let data = match game_data_path {
        Some(data) => data,
        None => {
            return Err(ErrorKind::GamePathNotConfigured);
        },
    };
    if !report.pack_file_exists {
        return Err(ErrorKind::MyModPackFileDoesntExist);
    }
    if !report.data_folder_exists {
        return Err(ErrorKind::MyModInstallFolderDoesntExists);
    }
    if !report.copied {
        let place = match selected_my_mod_installed_place(session, data) {
            Some(place) => place,
            None => unreached(),
        };
        return Err(ErrorKind::IOGenericCopy(place));
    }
    Ok(())
}

/// What was found and done on disk for the removal of an installed MyMod:
/// whether it was installed, and whether it could be removed.
#[derive(Clone, Copy, PartialEq, Eq, Structural, Debug)]
pub struct UninstallReport {
    pub installed: bool,
    pub removed: bool,
}

/// The error with which the removal of the installed MyMod ends, if it ends
/// with one: no MyMod is selected, no folder is configured for the game, the
/// MyMod is not installed, or it could not be removed.
pub open spec fn uninstall_error(
    mode: ModeView,
    game_data_path: Option<Seq<Seq<char>>>,
    report: UninstallReport,
) -> Option<ErrorKindView> {
    if mode is Normal {
        Some(ErrorKindView::MyModDeleteWithoutMyModSelected)
    } else if game_data_path is None {
        Some(ErrorKindView::GamePathNotConfigured)
    } else if !report.installed {
        Some(ErrorKindView::MyModNotInstalled)
    } else if !report.removed {
        Some(ErrorKindView::IOGenericDelete(seq![installed_place(mode, game_data_path->0)->0]))
    } else {
        None
    }
}

/// Ends the removal of the installed MyMod: `Ok` where it is removed, else
/// the error to report.
pub fn uninstall_my_mod(
    session: &Session,
    game_data_path: Option<&Vec<String>>,
    report: UninstallReport,
) -> (removed: Result<(), ErrorKind>)
    ensures
        removed is Ok <==> uninstall_error(
            session.mode_view(),
            game_data_path.deep_view(),
            report,
        ) is None,
        removed matches Err(error) ==> Some(error.deep_view()) == uninstall_error(
            session.mode_view(),
            game_data_path.deep_view(),
            report,
        ),
{
    match &session.mode {
        Mode::Normal => {
            return Err(ErrorKind::MyModDeleteWithoutMyModSelected);
        },
        _ => {},
    }
    let data = match game_data_path {
        Some(data) => data,
        None => {
            return Err(ErrorKind::GamePathNotConfigured);
        },
    };
    if !report.installed {
        return Err(ErrorKind::MyModNotInstalled);
    }
    if !report.removed {
        let place = match selected_my_mod_installed_place(session, data) {
            Some(place) => place,
            None => unreached(),
        };
        let mut failed: Vec<Vec<String>> = Vec::new();
        failed.push(place);
        assert(failed.deep_view() =~= seq![place.deep_view()]);
        return Err(ErrorKind::IOGenericDelete(failed));
    }
    Ok(())
}

} // verus!
