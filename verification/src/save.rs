//! Saving the document: to its file, or under another name, which takes two
//! steps of the worker with the choice of the new place between them.

use crate::archive_path::clone_path;
use crate::error::{ErrorKind, ErrorKindView};
use crate::open::{fatal_step, is_fatal_step};
use crate::protocol::{
    Command,
    CommandKind,
    CommandView,
    Response,
    ResponseView,
    SaveAnswer,
    SaveAnswerView,
};
use crate::session::{
    enable_my_mod_actions,
    my_mod_actions,
    Mode,
    ModeView,
    Pending,
    PendingView,
    Session,
};
use crate::ui::{
    append_actions,
    no_actions,
    push_action,
    Control,
    Outcome,
    OutcomeView,
    Step,
    StepView,
    TreeViewOperation,
    TreeViewOperationView,
    UiAction,
    UiActionView,
};
use vstd::pervasive::unreached;
use vstd::prelude::*;
use vstd::string::*;

verus! {

/// The session after a save that went through: the table states of the
/// paths that no view shows are dropped, nothing is unsaved, and the rest is
/// as before.
pub open spec fn saved_from(before: Session, after: Session) -> bool {
    &&& after.cached_states() == before.cached_states().restrict(before.open_views().values())
    &&& !after.unsaved()
    &&& after.selected_game() == before.selected_game()
    &&& after.open_views() == before.open_views()
    &&& after.remembers() == before.remembers()
    &&& after.pending_view() is Nothing
    &&& !after.faulted()
}

/// The step that ends an operation with an error to report: the window is
/// enabled again, and the session holds what it held.
pub open spec fn is_failed_step(
    before: Session,
    error: ErrorKindView,
    after: Session,
    step: StepView,
) -> bool {
    &&& step.outcome == OutcomeView::Failed(error)
    &&& step.actions == seq![UiActionView::SetEnabled(Control::Window, true)]
    &&& after.same_data(&before)
    &&& after.pending_view() is Nothing
    &&& !after.faulted()
}

/// What the answer to the request to save the document to its file does.
///
/// Saved: the marks of the tree are cleared and the table states pruned.
/// The document has no file yet: the session goes on to save it under
/// another name. An error that can be reported is handed back. Anything else
/// is a fault.
pub open spec fn save_packfile_replied(
    before: Session,
    response: ResponseView,
    after: Session,
    step: StepView,
) -> bool {
    match response {
        ResponseView::Saved(date) => {
            &&& step.outcome == OutcomeView::Done
            &&& step.actions == seq![
                UiActionView::UpdateTreeView(TreeViewOperationView::Clean),
                UiActionView::SetLastModified(date),
                UiActionView::SetEnabled(Control::Window, true),
            ]
            &&& saved_from(before, after)
            &&& after.mode_view() == before.mode_view()
            &&& after.document_view() == before.document_view()
        },
        ResponseView::Error(ErrorKindView::PackFileIsNotAFile) => {
            &&& step.outcome == OutcomeView::Waiting
            &&& step.actions == seq![
                UiActionView::SetEnabled(Control::Window, false),
                UiActionView::Send(CommandView::SaveDocumentAs),
            ]
            &&& after.same_data(&before)
            &&& after.pending_view() == PendingView::SavePackFileAs
            &&& !after.faulted()
        },
        ResponseView::Error(ErrorKindView::SavePackFileGeneric(message)) => is_failed_step(
            before,
            ErrorKindView::SavePackFileGeneric(message),
            after,
            step,
        ),
        _ => is_fatal_step(before, response, after, step) && after.pending_view() is Nothing,
    }
}

/// The folder in which the choice of a new place starts: that of the
/// document where it has a file, else the data folder of the selected game
/// where one is configured and exists, else none.
pub open spec fn save_directory(
    file_path: Seq<Seq<char>>,
    path_is_file: bool,
    game_data_path: Option<Seq<Seq<char>>>,
    game_data_path_is_dir: bool,
) -> Option<Seq<Seq<char>>> {
    if path_is_file {
        Some(file_path.drop_last())
    } else if game_data_path is Some && game_data_path_is_dir {
        game_data_path
    } else {
        None
    }
}

/// What the first answer to the request to save under another name does.
///
/// The worker names the place of the document: the user is asked for the new
/// place, with the name of the file proposed. The document cannot be edited:
/// that error is handed back. Anything else is a fault.
pub open spec fn save_packfile_as_replied(
    before: Session,
    response: ResponseView,
    path_is_file: bool,
    game_data_path: Option<Seq<Seq<char>>>,
    game_data_path_is_dir: bool,
    after: Session,
    step: StepView,
) -> bool {
    match response {
        ResponseView::SavePath(file_path) => if file_path.len() >= 1 {
            &&& step.outcome == OutcomeView::Waiting
            &&& step.actions == seq![
                UiActionView::AskSaveDestination(
                    file_path.last(),
                    save_directory(file_path, path_is_file, game_data_path, game_data_path_is_dir),
                ),
            ]
            &&& after.same_data(&before)
            &&& after.pending_view() == PendingView::SaveDestinationChoice
            &&& !after.faulted()
        } else {
            is_fatal_step(before, response, after, step) && after.pending_view() is Nothing
        },
        ResponseView::Error(ErrorKindView::PackFileIsNonEditable) => is_failed_step(
            before,
            ErrorKindView::PackFileIsNonEditable,
            after,
            step,
        ),
        _ => is_fatal_step(before, response, after, step) && after.pending_view() is Nothing,
    }
}

/// What the choice of the new place does.
///
/// A place was chosen: it is sent to the worker, and the outcome is waited
/// for. None was chosen: the worker is told so and the window enabled again;
/// the session holds what it held, so what was unsaved is still unsaved and
/// no table state is dropped.
pub open spec fn save_destination_was_chosen(
    before: Session,
    destination: Option<Seq<Seq<char>>>,
    after: Session,
    step: StepView,
) -> bool {
    &&& after.same_data(&before)
    &&& !after.faulted()
    &&& match destination {
        Some(path) => {
            &&& step.outcome == OutcomeView::Waiting
            &&& step.actions == seq![UiActionView::Answer(SaveAnswerView::Destination(path))]
            &&& after.pending_view() == PendingView::SaveDestination { path }
        },
        None => {
            &&& step.outcome == OutcomeView::Done
            &&& step.actions == seq![
                UiActionView::Answer(SaveAnswerView::Cancel),
                UiActionView::SetEnabled(Control::Window, true),
            ]
            &&& after.pending_view() is Nothing
        },
    }
}

/// What the outcome of saving to the new place does.
///
/// Saved: the new place is the document, the PackFile is shown under its new
/// name, the marks of the tree are cleared, the mode is the normal one, and
/// the table states are pruned.
/// An error that can be reported is handed back. Anything else is a fault.
pub open spec fn save_destination_replied(
    before: Session,
    response: ResponseView,
    after: Session,
    step: StepView,
) -> bool {
    let path = before.pending_view()->SaveDestination_path;
    match response {
        ResponseView::Saved(date) => {
            &&& step.outcome == OutcomeView::Done
            &&& step.actions == seq![
                UiActionView::SetLastModified(date),
                UiActionView::SetPackFileName(path.last()),
                UiActionView::UpdateTreeView(TreeViewOperationView::Clean),
            ] + my_mod_actions(false) + seq![UiActionView::SetEnabled(Control::Window, true)]
            &&& saved_from(before, after)
            &&& after.mode_view() == ModeView::Normal
            &&& after.document_view() == Some(seq![path])
        },
        ResponseView::Error(ErrorKindView::SavePackFileGeneric(message)) => is_failed_step(
            before,
            ErrorKindView::SavePackFileGeneric(message),
            after,
            step,
        ),
        _ => is_fatal_step(before, response, after, step) && after.pending_view() is Nothing,
    }
}

/// The step that ends an operation with an error to report and enables the
/// window again.
pub fn failed_step(error: ErrorKind) -> (step: Step)
    ensures
        step.actions.deep_view() == seq![UiActionView::SetEnabled(Control::Window, true)],
        step.outcome.deep_view() == OutcomeView::Failed(error.deep_view()),
{
    let mut actions = no_actions();
    push_action(&mut actions, UiAction::SetEnabled(Control::Window, true));
    Step { actions, outcome: Outcome::Failed(error) }
}

/// Drops the table states of the paths that no view shows, and notes that
/// nothing is unsaved.
fn note_saved(session: &mut Session)
    requires
        old(session).registry.wf(),
        old(session).table_states.wf(),
    ensures
        final(session).registry.wf(),
        final(session).table_states.wf(),
        final(session).cached_states() == old(session).cached_states().restrict(
            old(session).open_views().values(),
        ),
        !final(session).unsaved(),
        final(session).mode_view() == old(session).mode_view(),
        final(session).selected_game() == old(session).selected_game(),
        final(session).open_views() == old(session).open_views(),
        final(session).remembers() == old(session).remembers(),
        final(session).document_view() == old(session).document_view(),
        final(session).pending_view() == old(session).pending_view(),
        final(session).awaits() == old(session).awaits(),
        final(session).faulted() == old(session).faulted(),
{
    let open_paths = session.registry.open_paths();
    session.table_states.clear_except(&open_paths);
    session.unsaved_changes = false;
}

/// Asks the worker to save the document: to its file, or, where
/// `is_as_other_file` is set, under another name. The window is disabled
/// until the operation is over.
pub fn save_packfile(session: &mut Session, is_as_other_file: bool) -> (step: Step)
    requires
        old(session).is_ready(),
    ensures
        final(session).wf(),
        final(session).same_data(old(session)),
        !final(session).faulted(),
        final(session).pending_view() == if is_as_other_file {
            PendingView::SavePackFileAs
        } else {
            PendingView::SavePackFile
        },
        step.outcome.deep_view() == OutcomeView::Waiting,
        step.actions.deep_view() == seq![
            UiActionView::SetEnabled(Control::Window, false),
            UiActionView::Send(
                if is_as_other_file {
                    CommandView::SaveDocumentAs
                } else {
                    CommandView::SaveDocument
                },
            ),
        ],
{
    let mut actions = no_actions();
    push_action(&mut actions, UiAction::SetEnabled(Control::Window, false));
    if is_as_other_file {
        let sent = session.channel.send(CommandKind::SaveDocumentAs);
        assert(sent);
        session.pending = Pending::SavePackFileAs;
        push_action(&mut actions, UiAction::Send(Command::SaveDocumentAs));
    } else {
        let sent = session.channel.send(CommandKind::SaveDocument);
        assert(sent);
        session.pending = Pending::SavePackFile;
        push_action(&mut actions, UiAction::Send(Command::SaveDocument));
    }
    Step { actions, outcome: Outcome::Waiting }
}

/// Takes the answer to the request to save the document to its file.
pub fn save_packfile_reply(session: &mut Session, response: Response) -> (step: Step)
    requires
        old(session).wf(),
        old(session).pending_view() is SavePackFile,
    ensures
        final(session).wf(),
        save_packfile_replied(*old(session), response.deep_view(), *final(session), step.deep_view()),
{
    match session.take_reply(&response) {
        Ok(_) => {},
        Err(fault) => {
            return fatal_step(fault);
        },
    }
    match response {
        Response::Saved(date) => {
            let mut actions = no_actions();
            push_action(&mut actions, UiAction::UpdateTreeView(TreeViewOperation::Clean));
            push_action(&mut actions, UiAction::SetLastModified(date));
            push_action(&mut actions, UiAction::SetEnabled(Control::Window, true));
            note_saved(session);
            assert(actions.deep_view() =~= seq![
                UiActionView::UpdateTreeView(TreeViewOperationView::Clean),
                UiActionView::SetLastModified(date),
                UiActionView::SetEnabled(Control::Window, true),
            ]);
            Step { actions, outcome: Outcome::Done }
        },
        Response::Error(ErrorKind::PackFileIsNotAFile) => {
            let sent = session.channel.send(CommandKind::SaveDocumentAs);
            assert(sent);
            session.pending = Pending::SavePackFileAs;
            let mut actions = no_actions();
            push_action(&mut actions, UiAction::SetEnabled(Control::Window, false));
            push_action(&mut actions, UiAction::Send(Command::SaveDocumentAs));
            assert(actions.deep_view() =~= seq![
                UiActionView::SetEnabled(Control::Window, false),
                UiActionView::Send(CommandView::SaveDocumentAs),
            ]);
            Step { actions, outcome: Outcome::Waiting }
        },
        Response::Error(error) => failed_step(error),
        _ => unreached(),
    }
}

/// Takes the first answer to the request to save under another name.
/// `path_is_file` says whether the place that the worker names is a file on
/// disk; `game_data_path` is the data folder configured for the selected
/// game, and `game_data_path_is_dir` says whether it exists.
pub fn save_packfile_as_reply(
    session: &mut Session,
    response: Response,
    path_is_file: bool,
    game_data_path: Option<Vec<String>>,
    game_data_path_is_dir: bool,
) -> (step: Step)
    requires
        old(session).wf(),
        old(session).pending_view() is SavePackFileAs,
    ensures
        final(session).wf(),
        save_packfile_as_replied(
            *old(session),
            response.deep_view(),
            path_is_file,
            game_data_path.deep_view(),
            game_data_path_is_dir,
            *final(session),
            step.deep_view(),
        ),
{
    match session.take_reply(&response) {
        Ok(_) => {},
        Err(fault) => {
            return fatal_step(fault);
        },
    }
    match response {
        Response::SavePath(file_path) => {
            let n = file_path.len();
            let name = file_path[n - 1].clone();
            let directory = if path_is_file {
                let mut folder = file_path;
                let ghost whole = folder.deep_view();
                let _ = folder.pop();
                assert(folder.deep_view() =~= whole.drop_last());
                Some(folder)
            } else if game_data_path.is_some() && game_data_path_is_dir {
                game_data_path
            } else {
                None
            };
            session.pending = Pending::SaveDestinationChoice;
            let mut actions = no_actions();
            push_action(&mut actions, UiAction::AskSaveDestination(name, directory));
            assert(actions.deep_view() =~= seq![
                UiActionView::AskSaveDestination(name@, directory.deep_view()),
            ]);
            Step { actions, outcome: Outcome::Waiting }
        },
        Response::Error(error) => failed_step(error),
        _ => unreached(),
    }
}

/// Takes the choice of the new place: the place, or none where the user
/// chose none.
pub fn save_destination_chosen(session: &mut Session, destination: Option<Vec<String>>) -> (step:
    Step)
    requires
        old(session).wf(),
        old(session).pending_view() is SaveDestinationChoice,
        destination matches Some(path) ==> path.len() >= 1,
    ensures
        final(session).wf(),
        save_destination_was_chosen(
            *old(session),
            destination.deep_view(),
            *final(session),
            step.deep_view(),
        ),
{
    match destination {
        Some(path) => {
            let answered = session.channel.answer(false);
            assert(answered);
            let kept = clone_path(&path);
            session.pending = Pending::SaveDestination { path: kept };
            let mut actions = no_actions();
            push_action(&mut actions, UiAction::Answer(SaveAnswer::Destination(path)));
            assert(actions.deep_view() =~= seq![
                UiActionView::Answer(SaveAnswerView::Destination(path.deep_view())),
            ]);
            Step { actions, outcome: Outcome::Waiting }
        },
        None => {
            let answered = session.channel.answer(true);
            assert(answered);
            session.pending = Pending::Nothing;
            let mut actions = no_actions();
            push_action(&mut actions, UiAction::Answer(SaveAnswer::Cancel));
            push_action(&mut actions, UiAction::SetEnabled(Control::Window, true));
            assert(actions.deep_view() =~= seq![
                UiActionView::Answer(SaveAnswerView::Cancel),
                UiActionView::SetEnabled(Control::Window, true),
            ]);
            Step { actions, outcome: Outcome::Done }
        },
    }
}

/// Takes the outcome of saving to the new place.
pub fn save_destination_reply(session: &mut Session, response: Response) -> (step: Step)
    requires
        old(session).wf(),
        old(session).pending_view() is SaveDestination,
    ensures
        final(session).wf(),
        save_destination_replied(
            *old(session),
            response.deep_view(),
            *final(session),
            step.deep_view(),
        ),
{
    let pending = match session.take_reply(&response) {
        Ok(pending) => pending,
        Err(fault) => {
            return fatal_step(fault);
        },
    };
    let path = match pending {
        Pending::SaveDestination { path } => path,
        _ => unreached(),
    };
    match response {
        Response::Saved(date) => {
            let mut actions = no_actions();
            push_action(&mut actions, UiAction::SetLastModified(date));
            let name = path[path.len() - 1].clone();
            push_action(&mut actions, UiAction::SetPackFileName(name));
            push_action(&mut actions, UiAction::UpdateTreeView(TreeViewOperation::Clean));
            session.mode = Mode::Normal;
            append_actions(&mut actions, enable_my_mod_actions(false));
            push_action(&mut actions, UiAction::SetEnabled(Control::Window, true));
            note_saved(session);
            let mut document: Vec<Vec<String>> = Vec::new();
            document.push(clone_path(&path));
            assert(document.deep_view() =~= seq![path.deep_view()]);
            session.document = Some(document);
            assert(actions.deep_view() =~= seq![
                UiActionView::SetLastModified(date),
                UiActionView::SetPackFileName(path.deep_view().last()),
                UiActionView::UpdateTreeView(TreeViewOperationView::Clean),
            ] + my_mod_actions(false) + seq![UiActionView::SetEnabled(Control::Window, true)]);
            Step { actions, outcome: Outcome::Done }
        },
        Response::Error(error) => failed_step(error),
        _ => unreached(),
    }
}

/// When no new place is chosen, the save under another name ends without
/// touching the document or the session: what was unsaved is still unsaved,
/// no table state is dropped, and nothing is sent that changes the document.
pub proof fn lemma_cancelled_save_changes_nothing(before: Session, after: Session, step: StepView)
    requires
        save_destination_was_chosen(before, None, after, step),
    ensures
        after.unsaved() == before.unsaved(),
        after.cached_states() == before.cached_states(),
        after.open_views() == before.open_views(),
        after.mode_view() == before.mode_view(),
        !crate::ui::sends_mutating_command(step.actions),
{
}

/// A save that went through keeps the table state of every path that a view
/// shows, drops every other, and adds none.
pub proof fn lemma_save_prunes_table_states(before: Session, after: Session, path: Seq<Seq<char>>)
    requires
        saved_from(before, after),
    ensures
        after.cached_states().contains_key(path) <==> before.cached_states().contains_key(path)
            && before.open_views().values().contains(path),
        after.cached_states().contains_key(path) ==> after.cached_states()[path]
            == before.cached_states()[path],
{
}

} // verus!
