//! The view of a text: the text of an entry, or the notes of the PackFile.

use crate::archive_path::clone_path;
use crate::create::{is_refused_step, refused_step};
use crate::open::{fatal_step, is_fatal_step};
use crate::packed_file_view::{close_view, view_closed_actions};
use crate::protocol::{Command, CommandKind, CommandView, Response, ResponseView};
use crate::session::{Pending, PendingView, Session};
use crate::text::{ends_with, str_ends_with};
use crate::ui::{
    no_actions,
    push_action,
    Outcome,
    OutcomeView,
    Step,
    StepView,
    TreePathType,
    TreePathTypeView,
    TreeViewOperation,
    TreeViewOperationView,
    UiAction,
    UiActionView,
};
use vstd::pervasive::unreached;
use vstd::prelude::*;
use vstd::string::*;

verus! {

/// A text to edit, with what it is the text of.
#[derive(Debug, PartialEq, Eq)]
pub enum TextType {
    /// The text of an entry.
    PackedFile(String),
    /// The notes of the PackFile.
    Notes(String),
}

/// What a [`TextType`] holds, as mathematical values.
pub enum TextTypeView {
    PackedFile(Seq<char>),
    Notes(Seq<char>),
}

impl DeepView for TextType {
    type V = TextTypeView;

    open spec fn deep_view(&self) -> TextTypeView {
        match self {
            TextType::PackedFile(text) => TextTypeView::PackedFile(text@),
            TextType::Notes(text) => TextTypeView::Notes(text@),
        }
    }
}

impl Clone for TextType {
    fn clone(&self) -> (copy: Self)
        ensures
            copy.deep_view() == self.deep_view(),
    {
        match self {
            TextType::PackedFile(text) => TextType::PackedFile(text.clone()),
            TextType::Notes(text) => TextType::Notes(text.clone()),
        }
    }
}

/// The text that a [`TextType`] carries.
pub open spec fn text_of(text_type: TextTypeView) -> Seq<char> {
    match text_type {
        TextTypeView::PackedFile(text) => text,
        TextTypeView::Notes(text) => text,
    }
}

/// The slot in which the notes are shown.
pub const NOTES_SLOT: i32 = 1;

/// The view of a text: what it shows at first, the path of the entry it
/// belongs to, and which of its two buttons it has.
#[derive(Debug, PartialEq, Eq)]
pub struct PackedFileTextView {
    /// The text shown when the view opens.
    pub text: String,
    /// The path of the entry whose text it is. It means nothing for notes.
    pub packed_file_path: Vec<String>,
    /// Whether the text is the notes of the PackFile.
    pub is_notes: bool,
    /// Whether the view has the button that checks the syntax of a script.
    pub check_syntax_button: bool,
    /// Whether the view has the button that closes the notes.
    pub close_note_button: bool,
}

/// The command that hands the worker the changed text of a view.
pub open spec fn text_change_command(
    is_notes: bool,
    path: Seq<Seq<char>>,
    text: Seq<char>,
) -> CommandView {
    if is_notes {
        CommandView::SetNotes(text)
    } else {
        CommandView::EncodeTextEntry(text, path)
    }
}

/// The requests that follow a change of a text that the worker has taken:
/// the tree marks what has changed. A change of the notes marks the PackFile
/// for good.
pub open spec fn text_changed_actions(is_notes: bool, path: Seq<Seq<char>>) -> Seq<UiActionView> {
    if is_notes {
        seq![
            UiActionView::UpdateTreeView(
                TreeViewOperationView::Modify(seq![TreePathTypeView::PackFile]),
            ),
            UiActionView::UpdateTreeView(
                TreeViewOperationView::MarkAlwaysModified(seq![TreePathTypeView::PackFile]),
            ),
        ]
    } else {
        seq![
            UiActionView::UpdateTreeView(
                TreeViewOperationView::Modify(seq![TreePathTypeView::File(path)]),
            ),
        ]
    }
}

/// What the answer to a changed text does: where the worker has taken the
/// text, the tree marks the change and the document has unsaved changes; an
/// error is handed back; anything else is a fault.
pub open spec fn text_change_replied(
    before: Session,
    response: ResponseView,
    after: Session,
    step: StepView,
) -> bool {
    let is_notes = before.pending_view()->TextChange_is_notes;
    let path = before.pending_view()->TextChange_path;
    match response {
        ResponseView::Success => {
            &&& step.outcome == OutcomeView::Done
            &&& step.actions == text_changed_actions(is_notes, path)
            &&& after.unsaved()
            &&& after.mode_view() == before.mode_view()
            &&& after.selected_game() == before.selected_game()
            &&& after.open_views() == before.open_views()
            &&& after.cached_states() == before.cached_states()
            &&& after.remembers() == before.remembers()
            &&& after.document_view() == before.document_view()
            &&& after.pending_view() is Nothing
            &&& !after.faulted()
        },
        ResponseView::Error(error) => is_refused_step(before, error, after, step),
        _ => is_fatal_step(before, response, after, step) && after.pending_view() is Nothing,
    }
}

/// The lines of a report as one text, each line ended by a line feed.
pub open spec fn report_text(lines: Seq<Seq<char>>) -> Seq<char>
    decreases lines.len(),
{
    if lines.len() == 0 {
        Seq::<char>::empty()
    } else {
        report_text(lines.drop_last()) + lines.last() + seq!['\n']
    }
}

/// What the answer to the request to check the script does: the report is
/// shown in a window of its own; an error is handed back; anything else is a
/// fault.
pub open spec fn check_syntax_replied(
    before: Session,
    response: ResponseView,
    after: Session,
    step: StepView,
) -> bool {
    match response {
        ResponseView::ScriptReport(lines) => {
            &&& step.outcome == OutcomeView::Done
            &&& step.actions == seq![
                UiActionView::ShowReport("Script Checked!"@, report_text(lines)),
            ]
            &&& after.same_data(&before)
            &&& after.pending_view() is Nothing
            &&& !after.faulted()
        },
        ResponseView::Error(error) => is_refused_step(before, error, after, step),
        _ => is_fatal_step(before, response, after, step) && after.pending_view() is Nothing,
    }
}

/// The lines of a report as one text.
pub fn join_report(lines: &Vec<String>) -> (text: String)
    ensures
        text@ == report_text(lines.deep_view()),
{
    let mut text = String::new();
    let mut i: usize = 0;
    proof {
        reveal_strlit("\n");
        assert("\n"@ =~= seq!['\n']);
        assert(lines.deep_view().take(0) =~= Seq::<Seq<char>>::empty());
    }
    while i < lines.len()
        invariant
            i <= lines.len(),
            "\n"@ == seq!['\n'],
            text@ == report_text(lines.deep_view().take(i as int)),
        decreases lines.len() - i,
    {
        proof {
            let before = lines.deep_view().take(i as int);
            let after = lines.deep_view().take(i + 1);
            assert(after.drop_last() =~= before);
            assert(after.last() == lines[i as int]@);
        }
        text.append(lines[i].as_str());
        text.append("\n");
        i += 1;
    }
    assert(lines.deep_view().take(lines.len() as int) == lines.deep_view());
    text
}

impl PackedFileTextView {
    /// The view for the text `text_type` of the entry at `packed_file_path`.
    /// The syntax of a script can be checked where the entry is a Lua script
    /// and the selected game has the file of types that the check needs
    /// (`game_has_ca_types_file`). Notes can be closed.
    pub fn create_text_view(
        packed_file_path: &Vec<String>,
        text_type: &TextType,
        game_has_ca_types_file: bool,
    ) -> (view: Self)
        requires
            text_type is PackedFile ==> packed_file_path.len() >= 1,
        ensures
            view.text@ == text_of(text_type.deep_view()),
            view.packed_file_path.deep_view() == packed_file_path.deep_view(),
            view.is_notes == (text_type is Notes),
            view.check_syntax_button == (text_type is PackedFile && game_has_ca_types_file
                && ends_with(packed_file_path.deep_view().last(), ".lua"@)),
            view.close_note_button == (text_type is Notes),
    {
        match text_type {
            TextType::PackedFile(text) => {
                let name = &packed_file_path[packed_file_path.len() - 1];
                assert(name@ == packed_file_path.deep_view().last());
                let is_script = str_ends_with(name.as_str(), ".lua");
                Self {
                    text: text.clone(),
                    packed_file_path: clone_path(packed_file_path),
                    is_notes: false,
                    check_syntax_button: is_script && game_has_ca_types_file,
                    close_note_button: false,
                }
            },
            TextType::Notes(text) => Self {
                text: text.clone(),
                packed_file_path: clone_path(packed_file_path),
                is_notes: true,
                check_syntax_button: false,
                close_note_button: true,
            },
        }
    }

    /// Takes a change of the text of the view: the new text goes to the
    /// worker.
    pub fn save_changes(&self, session: &mut Session, text: String) -> (step: Step)
        requires
            old(session).is_ready(),
        ensures
            final(session).wf(),
            final(session).same_data(old(session)),
            !final(session).faulted(),
            final(session).pending_view() == (PendingView::TextChange {
                is_notes: self.is_notes,
                path: self.packed_file_path.deep_view(),
            }),
            step.outcome.deep_view() == OutcomeView::Waiting,
            step.actions.deep_view() == seq![
                UiActionView::Send(
                    text_change_command(self.is_notes, self.packed_file_path.deep_view(), text@),
                ),
            ],
    {
        let mut actions = no_actions();
        if self.is_notes {
            let sent = session.channel.send(CommandKind::SetNotes);
            assert(sent);
            push_action(&mut actions, UiAction::Send(Command::SetNotes(text)));
        } else {
            let sent = session.channel.send(CommandKind::EncodeTextEntry);
            assert(sent);
            push_action(
                &mut actions,
                UiAction::Send(Command::EncodeTextEntry(text, clone_path(&self.packed_file_path))),
            );
        }
        session.pending = Pending::TextChange {
            is_notes: self.is_notes,
            path: clone_path(&self.packed_file_path),
        };
        Step { actions, outcome: Outcome::Waiting }
    }

    /// Asks the worker to check the script that the view shows.
    pub fn check_syntax(&self, session: &mut Session) -> (step: Step)
        requires
            old(session).is_ready(),
        ensures
            final(session).wf(),
            final(session).same_data(old(session)),
            !final(session).faulted(),
            final(session).pending_view() == PendingView::CheckScript,
            step.outcome.deep_view() == OutcomeView::Waiting,
            step.actions.deep_view() == seq![UiActionView::Send(CommandView::CheckScript)],
    {
        let sent = session.channel.send(CommandKind::CheckScript);
        assert(sent);
        session.pending = Pending::CheckScript;
        let mut actions = no_actions();
        push_action(&mut actions, UiAction::Send(Command::CheckScript));
        Step { actions, outcome: Outcome::Waiting }
    }

    /// Closes the notes. Where no view is left the tips are shown.
    pub fn close_note(&self, session: &mut Session) -> (actions: Vec<UiAction>)
        requires
            old(session).wf(),
        ensures
            final(session).wf(),
            final(session).open_views() == old(session).open_views().remove(NOTES_SLOT),
            actions.deep_view() == view_closed_actions(
                NOTES_SLOT,
                final(session).open_views() == Map::<i32, Seq<Seq<char>>>::empty(),
            ),
            final(session).mode_view() == old(session).mode_view(),
            final(session).selected_game() == old(session).selected_game(),
            final(session).cached_states() == old(session).cached_states(),
            final(session).unsaved() == old(session).unsaved(),
            final(session).remembers() == old(session).remembers(),
            final(session).document_view() == old(session).document_view(),
            final(session).pending_view() == old(session).pending_view(),
            final(session).faulted() == old(session).faulted(),
    {
        close_view(session, NOTES_SLOT)
    }
}

/// Takes the answer to a changed text.
pub fn text_change_reply(session: &mut Session, response: Response) -> (step: Step)
    requires
        old(session).wf(),
        old(session).pending_view() is TextChange,
    ensures
        final(session).wf(),
        text_change_replied(*old(session), response.deep_view(), *final(session), step.deep_view()),
{
    let pending = match session.take_reply(&response) {
        Ok(pending) => pending,
        Err(fault) => {
            return fatal_step(fault);
        },
    };
    let (is_notes, path) = match pending {
        Pending::TextChange { is_notes, path } => (is_notes, path),
        _ => unreached(),
    };
    match response {
        Response::Success => {
            let mut actions = no_actions();
            if is_notes {
                let mut changed: Vec<TreePathType> = Vec::new();
                changed.push(TreePathType::PackFile);
                assert(changed.deep_view() =~= seq![TreePathTypeView::PackFile]);
                push_action(
                    &mut actions,
                    UiAction::UpdateTreeView(TreeViewOperation::Modify(changed)),
                );
                let mut marked: Vec<TreePathType> = Vec::new();
                marked.push(TreePathType::PackFile);
                assert(marked.deep_view() =~= seq![TreePathTypeView::PackFile]);
                push_action(
                    &mut actions,
                    UiAction::UpdateTreeView(TreeViewOperation::MarkAlwaysModified(marked)),
                );
            } else {
                let mut changed: Vec<TreePathType> = Vec::new();
                changed.push(TreePathType::File(path));
                assert(changed.deep_view() =~= seq![TreePathTypeView::File(path.deep_view())]);
                push_action(
                    &mut actions,
                    UiAction::UpdateTreeView(TreeViewOperation::Modify(changed)),
                );
            }
            session.unsaved_changes = true;
            assert(actions.deep_view() =~= text_changed_actions(is_notes, path.deep_view()));
            Step { actions, outcome: Outcome::Done }
        },
        Response::Error(error) => refused_step(error),
        _ => unreached(),
    }
}

/// Takes the answer to the request to check a script.
pub fn check_syntax_reply(session: &mut Session, response: Response) -> (step: Step)
    requires
        old(session).wf(),
        old(session).pending_view() is CheckScript,
    ensures
        final(session).wf(),
        check_syntax_replied(*old(session), response.deep_view(), *final(session), step.deep_view()),
{
    match session.take_reply(&response) {
        Ok(_) => {},
        Err(fault) => {
            return fatal_step(fault);
        },
    }
    match response {
        Response::ScriptReport(lines) => {
            let text = join_report(&lines);
            let mut actions = no_actions();
            push_action(
                &mut actions,
                UiAction::ShowReport("Script Checked!".to_owned(), text),
            );
            assert(actions.deep_view() =~= seq![
                UiActionView::ShowReport("Script Checked!"@, report_text(lines.deep_view())),
            ]);
            Step { actions, outcome: Outcome::Done }
        },
        Response::Error(error) => refused_step(error),
        _ => unreached(),
    }
}

} // verus!
