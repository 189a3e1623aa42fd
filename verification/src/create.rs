//! Creating an entry: its name is checked and completed, its path worked
//! out, the worker asked whether the path is taken, and only then asked to
//! create it.

use crate::archive_path::clone_path;
use crate::error::{ErrorKind, ErrorKindView};
use crate::open::{fatal_step, is_fatal_step};
use crate::protocol::{
    Command,
    CommandKind,
    CommandView,
    PackedFileType,
    PackedFileTypeView,
    Response,
    ResponseView,
};
use crate::session::{Pending, PendingView, Session};
use crate::table_state::{empty_table_state, TableState};
use crate::text::{ends_with, non_empty_pieces, split_non_empty, str_ends_with, with_suffix};
use crate::ui::{
    no_actions,
    push_action,
    sends_mutating_command,
    Outcome,
    OutcomeView,
    Step,
    StepView,
    TreePathType,
    TreePathTypeView,
    TreeViewOperation,
    TreeViewOperationView,
    UiAction,
    UiActionView,
};
use vstd::pervasive::unreached;
use vstd::prelude::*;
use vstd::string::*;

verus! {

/// The name asked for a new entry.
pub open spec fn name_of(kind: PackedFileTypeView) -> Seq<char> {
    match kind {
        PackedFileTypeView::Loc(name) => name,
        PackedFileTypeView::Text(name) => name,
        PackedFileTypeView::DB(name, _, _) => name,
    }
}

/// `name` ends like the name of a text entry.
pub open spec fn has_text_suffix(name: Seq<char>) -> bool {
    ||| ends_with(name, ".lua"@)
    ||| ends_with(name, ".xml"@)
    ||| ends_with(name, ".xml.shader"@)
    ||| ends_with(name, ".xml.material"@)
    ||| ends_with(name, ".variantmeshdefinition"@)
    ||| ends_with(name, ".environment"@)
    ||| ends_with(name, ".lighting"@)
    ||| ends_with(name, ".wsmodel"@)
    ||| ends_with(name, ".csv"@)
    ||| ends_with(name, ".tsv"@)
    ||| ends_with(name, ".inl"@)
    ||| ends_with(name, ".battle_speech_camera"@)
    ||| ends_with(name, ".bob"@)
    ||| ends_with(name, ".cindyscene"@)
    ||| ends_with(name, ".cindyscenemanager"@)
    ||| ends_with(name, ".txt"@)
}

/// The name under which a new entry is created: that of a localisation entry
/// ends in `.loc`, that of a text entry in one of the endings of text
/// entries, `.txt` where it had none of them; that of a table is as given.
pub open spec fn completed_name(kind: PackedFileTypeView) -> Seq<char> {
    match kind {
        PackedFileTypeView::Loc(name) => if ends_with(name, ".loc"@) {
            name
        } else {
            name + ".loc"@
        },
        PackedFileTypeView::Text(name) => if has_text_suffix(name) {
            name
        } else {
            name + ".txt"@
        },
        PackedFileTypeView::DB(name, _, _) => name,
    }
}

/// The path of a new entry. A table goes into the folder of its table under
/// `db`. Any other entry goes under the one path that is selected in the
/// tree, its name read as a path of its own with `/` between the segments;
/// with no path or several selected there is no path for it.
pub open spec fn complete_path(
    kind: PackedFileTypeView,
    selected_paths: Seq<Seq<Seq<char>>>,
) -> Seq<Seq<char>> {
    match kind {
        PackedFileTypeView::DB(name, table, _) => seq!["db"@, table, name],
        _ => if selected_paths.len() == 1 {
            selected_paths[0] + non_empty_pieces(completed_name(kind), '/')
        } else {
            Seq::<Seq<char>>::empty()
        },
    }
}

/// The step that ends an operation with an error to report, without any
/// request to the window.
pub open spec fn is_refused_step(
    before: Session,
    error: ErrorKindView,
    after: Session,
    step: StepView,
) -> bool {
    &&& step.outcome == OutcomeView::Failed(error)
    &&& step.actions == Seq::<UiActionView>::empty()
    &&& after.same_data(&before)
    &&& after.pending_view() is Nothing
    &&& !after.faulted()
}

/// The step that ends an operation in which there was nothing to do.
pub open spec fn is_idle_step(before: Session, after: Session, step: StepView) -> bool {
    &&& step.outcome == OutcomeView::Done
    &&& step.actions == Seq::<UiActionView>::empty()
    &&& after.same_data(&before)
    &&& after.pending_view() is Nothing
    &&& !after.faulted()
}

/// What the request to create an entry does, from what the dialog gave:
/// nothing where the dialog was abandoned or no path is selected for the
/// entry; an error where the dialog failed or the name is empty; else the
/// worker is asked whether the path of the entry is taken.
pub open spec fn create_packed_files_started(
    before: Session,
    dialog: Option<Result<PackedFileType, ErrorKind>>,
    selected_paths: Seq<Seq<Seq<char>>>,
    after: Session,
    step: StepView,
) -> bool {
    match dialog {
        None => is_idle_step(before, after, step),
        Some(Err(error)) => is_refused_step(before, error.deep_view(), after, step),
        Some(Ok(packed_file_type)) => {
            let kind = packed_file_type.deep_view();
            let path = complete_path(kind, selected_paths);
            if name_of(kind).len() == 0 {
                is_refused_step(before, ErrorKindView::EmptyInput, after, step)
            } else if path.len() == 0 {
                is_idle_step(before, after, step)
            } else {
                &&& step.outcome == OutcomeView::Waiting
                &&& step.actions == seq![UiActionView::Send(CommandView::EntryExists(path))]
                &&& after.same_data(&before)
                &&& after.pending_view() == PendingView::PackedFileExists {
                    path,
                    packed_file_type: kind,
                }
                &&& !after.faulted()
            }
        },
    }
}

/// What the answer to the question whether the path is taken does.
///
/// Taken: the operation ends with that error; nothing is sent, and the
/// session holds what it held. Free: the worker is asked to create the
/// entry. Anything else is a fault.
pub open spec fn packed_file_exists_replied(
    before: Session,
    response: ResponseView,
    after: Session,
    step: StepView,
) -> bool {
    let path = before.pending_view()->PackedFileExists_path;
    let kind = before.pending_view()->PackedFileExists_packed_file_type;
    match response {
        ResponseView::Exists(true) => is_refused_step(
            before,
            ErrorKindView::FileAlreadyInPackFile,
            after,
            step,
        ),
        ResponseView::Exists(false) => {
            &&& step.outcome == OutcomeView::Waiting
            &&& step.actions == seq![UiActionView::Send(CommandView::CreateEntry(path, kind))]
            &&& after.same_data(&before)
            &&& after.pending_view() == PendingView::CreatePackedFile { path }
            &&& !after.faulted()
        },
        _ => is_fatal_step(before, response, after, step) && after.pending_view() is Nothing,
    }
}

/// What the answer to the request to create the entry does.
///
/// Created: the entry is added to the tree, the untouched table state is
/// cached for its path in place of any earlier one, and the document has
/// unsaved changes. Failed: the error is handed back. Anything else is a
/// fault.
pub open spec fn packed_file_created_replied(
    before: Session,
    response: ResponseView,
    after: Session,
    step: StepView,
) -> bool {
    let path = before.pending_view()->CreatePackedFile_path;
    match response {
        ResponseView::Success => {
            &&& step.outcome == OutcomeView::Done
            &&& step.actions == seq![
                UiActionView::UpdateTreeView(
                    TreeViewOperationView::Add(seq![TreePathTypeView::File(path)]),
                ),
            ]
            &&& after.cached_states() == before.cached_states().insert(path, empty_table_state())
            &&& after.unsaved()
            &&& after.mode_view() == before.mode_view()
            &&& after.selected_game() == before.selected_game()
            &&& after.open_views() == before.open_views()
            &&& after.remembers() == before.remembers()
            &&& after.document_view() == before.document_view()
            &&& after.pending_view() is Nothing
            &&& !after.faulted()
        },
        ResponseView::Error(error) => is_refused_step(before, error, after, step),
        _ => is_fatal_step(before, response, after, step) && after.pending_view() is Nothing,
    }
}

/// The step that ends an operation with an error to report, without any
/// request to the window.
pub fn refused_step(error: ErrorKind) -> (step: Step)
    ensures
        step.actions.deep_view() == Seq::<UiActionView>::empty(),
        step.outcome.deep_view() == OutcomeView::Failed(error.deep_view()),
{
    Step { actions: no_actions(), outcome: Outcome::Failed(error) }
}

/// The step that ends an operation in which there was nothing to do.
pub fn idle_step() -> (step: Step)
    ensures
        step.actions.deep_view() == Seq::<UiActionView>::empty(),
        step.outcome.deep_view() == OutcomeView::Done,
{
    Step { actions: no_actions(), outcome: Outcome::Done }
}

/// Whether `name` ends like the name of a text entry.
pub fn is_text_name(name: &str) -> (yes: bool)
    ensures
        yes == has_text_suffix(name@),
{
    str_ends_with(name, ".lua") || str_ends_with(name, ".xml") || str_ends_with(
        name,
        ".xml.shader",
    ) || str_ends_with(name, ".xml.material") || str_ends_with(name, ".variantmeshdefinition")
        || str_ends_with(name, ".environment") || str_ends_with(name, ".lighting")
        || str_ends_with(name, ".wsmodel") || str_ends_with(name, ".csv") || str_ends_with(
        name,
        ".tsv",
    ) || str_ends_with(name, ".inl") || str_ends_with(name, ".battle_speech_camera")
        || str_ends_with(name, ".bob") || str_ends_with(name, ".cindyscene") || str_ends_with(
        name,
        ".cindyscenemanager",
    ) || str_ends_with(name, ".txt")
}

/// The name under which a new entry of this kind is created.
pub fn complete_name(packed_file_type: &PackedFileType) -> (name: String)
    ensures
        name@ == completed_name(packed_file_type.deep_view()),
{
    match packed_file_type {
        PackedFileType::Loc(name) => {
            if str_ends_with(name.as_str(), ".loc") {
                name.clone()
            } else {
                with_suffix(name.as_str(), ".loc")
            }
        },
        PackedFileType::Text(name) => {
            if is_text_name(name.as_str()) {
                name.clone()
            } else {
                with_suffix(name.as_str(), ".txt")
            }
        },
        PackedFileType::DB(name, _, _) => name.clone(),
    }
}

/// The path of a new entry of this kind, given the paths selected in the
/// tree. It is empty where there is no path for the entry.
pub fn path_for_new_packed_file(
    packed_file_type: &PackedFileType,
    selected_paths: &Vec<Vec<String>>,
) -> (path: Vec<String>)
    ensures
        path.deep_view() == complete_path(packed_file_type.deep_view(), selected_paths.deep_view()),
{
    match packed_file_type {
        PackedFileType::DB(name, table, _) => {
            let mut path: Vec<String> = Vec::new();
            path.push("db".to_owned());
            path.push(table.clone());
            path.push(name.clone());
            assert(path.deep_view() =~= seq!["db"@, table@, name@]);
            path
        },
        _ => {
            if selected_paths.len() == 1 {
                let name = complete_name(packed_file_type);
                let mut path = clone_path(&selected_paths[0]);
                let mut nested = split_non_empty(name.as_str(), '/');
                let ghost folder = path.deep_view();
                let ghost pieces = nested.deep_view();
                path.append(&mut nested);
                assert(path.deep_view() =~= folder + pieces);
                assert(folder == selected_paths.deep_view()[0]);
                path
            } else {
                let path: Vec<String> = Vec::new();
                assert(path.deep_view() =~= Seq::<Seq<char>>::empty());
                path
            }
        },
    }
}

/// Starts the creation of an entry from what the dialog for it gave: `None`
/// where it was abandoned, an error where it failed, else the kind and name
/// of the entry. `selected_paths` are the paths selected in the tree.
pub fn create_packed_files(
    session: &mut Session,
    dialog: Option<Result<PackedFileType, ErrorKind>>,
    selected_paths: &Vec<Vec<String>>,
) -> (step: Step)
    requires
        old(session).is_ready(),
    ensures
        final(session).wf(),
        create_packed_files_started(
            *old(session),
            dialog,
            selected_paths.deep_view(),
            *final(session),
            step.deep_view(),
        ),
{
    let packed_file_type = match dialog {
        None => {
            return idle_step();
        },
        Some(Err(error)) => {
            return refused_step(error);
        },
        Some(Ok(packed_file_type)) => packed_file_type,
    };
    let no_name = match &packed_file_type {
        PackedFileType::Loc(name) => name.as_str().unicode_len() == 0,
        PackedFileType::Text(name) => name.as_str().unicode_len() == 0,
        PackedFileType::DB(name, _, _) => name.as_str().unicode_len() == 0,
    };
    if no_name {
        return refused_step(ErrorKind::EmptyInput);
    }
    let path = path_for_new_packed_file(&packed_file_type, selected_paths);
    if path.len() == 0 {
        return idle_step();
    }
    let sent = session.channel.send(CommandKind::EntryExists);
    assert(sent);
    let kept = clone_path(&path);
    session.pending = Pending::PackedFileExists { path: kept, packed_file_type };
    let mut actions = no_actions();
    push_action(&mut actions, UiAction::Send(Command::EntryExists(path)));
    assert(actions.deep_view() =~= seq![
        UiActionView::Send(CommandView::EntryExists(path.deep_view())),
    ]);
    Step { actions, outcome: Outcome::Waiting }
}

/// Takes the answer to the question whether the path of the new entry is
/// taken.
pub fn packed_file_exists_reply(session: &mut Session, response: Response) -> (step: Step)
    requires
        old(session).wf(),
        old(session).pending_view() is PackedFileExists,
    ensures
        final(session).wf(),
        packed_file_exists_replied(
            *old(session),
            response.deep_view(),
            *final(session),
            step.deep_view(),
        ),
{
    let pending = match session.take_reply(&response) {
        Ok(pending) => pending,
        Err(fault) => {
            return fatal_step(fault);
        },
    };
    let (path, packed_file_type) = match pending {
        Pending::PackedFileExists { path, packed_file_type } => (path, packed_file_type),
        _ => unreached(),
    };
    match response {
        Response::Exists(exists) => {
            if exists {
                refused_step(ErrorKind::FileAlreadyInPackFile)
            } else {
                let sent = session.channel.send(CommandKind::CreateEntry);
                assert(sent);
                let kept = clone_path(&path);
                session.pending = Pending::CreatePackedFile { path: kept };
                let mut actions = no_actions();
                push_action(
                    &mut actions,
                    UiAction::Send(Command::CreateEntry(path, packed_file_type)),
                );
                assert(actions.deep_view() =~= seq![
                    UiActionView::Send(
                        CommandView::CreateEntry(path.deep_view(), packed_file_type.deep_view()),
                    ),
                ]);
                Step { actions, outcome: Outcome::Waiting }
            }
        },
        _ => unreached(),
    }
}

/// Takes the answer to the request to create the entry.
pub fn packed_file_created_reply(session: &mut Session, response: Response) -> (step: Step)
    requires
        old(session).wf(),
        old(session).pending_view() is CreatePackedFile,
    ensures
        final(session).wf(),
        packed_file_created_replied(
            *old(session),
            response.deep_view(),
            *final(session),
            step.deep_view(),
        ),
{
    let pending = match session.take_reply(&response) {
        Ok(pending) => pending,
        Err(fault) => {
            return fatal_step(fault);
        },
    };
    let path = match pending {
        Pending::CreatePackedFile { path } => path,
        _ => unreached(),
    };
    match response {
        Response::Success => {
            let shown = clone_path(&path);
            let mut items: Vec<TreePathType> = Vec::new();
            items.push(TreePathType::File(shown));
            assert(items.deep_view() =~= seq![TreePathTypeView::File(path.deep_view())]);
            let mut actions = no_actions();
            push_action(&mut actions, UiAction::UpdateTreeView(TreeViewOperation::Add(items)));
            session.table_states.put(path, TableState::new_empty());
            session.unsaved_changes = true;
            assert(actions.deep_view() =~= seq![
                UiActionView::UpdateTreeView(
                    TreeViewOperationView::Add(seq![TreePathTypeView::File(path.deep_view())]),
                ),
            ]);
            Step { actions, outcome: Outcome::Done }
        },
        Response::Error(error) => refused_step(error),
        _ => unreached(),
    }
}

/// Where the worker says that the path of a new entry is taken, the
/// creation ends there: no command that changes the document is sent, and
/// the table states are what they were.
pub proof fn lemma_existing_entry_is_not_created(before: Session, after: Session, step: StepView)
    requires
        before.pending_view() is PackedFileExists,
        packed_file_exists_replied(before, ResponseView::Exists(true), after, step),
    ensures
        !sends_mutating_command(step.actions),
        step.actions.len() == 0,
        after.cached_states() == before.cached_states(),
        after.unsaved() == before.unsaved(),
        after.pending_view() is Nothing,
{
}

/// Until the worker has said that the path is free, the creation of an
/// entry sends no command that changes the document.
pub proof fn lemma_creation_asks_first(
    before: Session,
    dialog: Option<Result<PackedFileType, ErrorKind>>,
    selected_paths: Seq<Seq<Seq<char>>>,
    after: Session,
    step: StepView,
)
    requires
        create_packed_files_started(before, dialog, selected_paths, after, step),
    ensures
        !sends_mutating_command(step.actions),
        after.cached_states() == before.cached_states(),
{
}

} // verus!
