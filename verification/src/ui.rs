//! What the session asks of the window: the requests that a step of the
//! session hands back, to be carried out in order, and how the step ended.

use crate::error::{ErrorKind, ErrorKindView};
use crate::game::Game;
use crate::protocol::{
    Command,
    CommandView,
    PFHFileType,
    ProtocolFault,
    SaveAnswer,
    SaveAnswerView,
};
use vstd::prelude::*;
use vstd::string::*;

verus! {

/// Something in the window that can be enabled or checked.
#[derive(Clone, Copy, PartialEq, Eq, Structural, Debug)]
pub enum Control {
    Window,
    NewPackFile,
    SavePackFile,
    SavePackFileAs,
    NewMyMod,
    DeleteSelectedMyMod,
    InstallMyMod,
    UninstallMyMod,
    ChangePackFileTypeGroup,
    IndexIncludesTimestamp,
    DataIsCompressed,
    DataIsEncrypted,
    IndexIsEncrypted,
    HeaderIsExtended,
    GameSelectedGroup,
    OpenGameAssemblyKitFolder,
    OptimizePackFile(Game),
    GeneratePakFile(Game),
    PatchSiegeAI(Game),
    CheckSyntax,
    CloseNote,
}

/// The kinds of entry that have a view of their own.
#[derive(Clone, Copy, PartialEq, Eq, Structural, Debug)]
pub enum DecodeablePackedFileType {
    DB,
    Loc,
    Text,
    RigidModel,
    Image,
    Unknown,
}

/// An item of the tree of the document.
#[derive(Debug, PartialEq, Eq)]
pub enum TreePathType {
    File(Vec<String>),
    Folder(Vec<String>),
    PackFile,
    Nothing,
}

/// What a [`TreePathType`] holds, as mathematical values.
pub enum TreePathTypeView {
    File(Seq<Seq<char>>),
    Folder(Seq<Seq<char>>),
    PackFile,
    Nothing,
}

impl DeepView for TreePathType {
    type V = TreePathTypeView;

    open spec fn deep_view(&self) -> TreePathTypeView {
        match self {
            TreePathType::File(path) => TreePathTypeView::File(path.deep_view()),
            TreePathType::Folder(path) => TreePathTypeView::Folder(path.deep_view()),
            TreePathType::PackFile => TreePathTypeView::PackFile,
            TreePathType::Nothing => TreePathTypeView::Nothing,
        }
    }
}

/// A change to the tree of the document.
#[derive(Debug, PartialEq, Eq)]
pub enum TreeViewOperation {
    /// Build the tree anew; the flag says whether the document is a
    /// dependency shown beside the open one.
    Build(bool),
    /// Add these items.
    Add(Vec<TreePathType>),
    /// Mark these items as changed.
    Modify(Vec<TreePathType>),
    /// Mark these items as changed for good: no undo clears the mark.
    MarkAlwaysModified(Vec<TreePathType>),
    /// Clear every mark: the document is as it is on disk.
    Clean,
    /// Empty the tree.
    Clear,
}

/// What a [`TreeViewOperation`] holds, as mathematical values.
pub enum TreeViewOperationView {
    Build(bool),
    Add(Seq<TreePathTypeView>),
    Modify(Seq<TreePathTypeView>),
    MarkAlwaysModified(Seq<TreePathTypeView>),
    Clean,
    Clear,
}

impl DeepView for TreeViewOperation {
    type V = TreeViewOperationView;

    open spec fn deep_view(&self) -> TreeViewOperationView {
        match self {
            TreeViewOperation::Build(flag) => TreeViewOperationView::Build(*flag),
            TreeViewOperation::Add(items) => TreeViewOperationView::Add(items.deep_view()),
            TreeViewOperation::Modify(items) => TreeViewOperationView::Modify(items.deep_view()),
            TreeViewOperation::MarkAlwaysModified(items) => {
                TreeViewOperationView::MarkAlwaysModified(items.deep_view())
            },
            TreeViewOperation::Clean => TreeViewOperationView::Clean,
            TreeViewOperation::Clear => TreeViewOperationView::Clear,
        }
    }
}

/// A request to the window, or through it to the worker.
#[derive(Debug, PartialEq, Eq)]
pub enum UiAction {
    /// Enable or disable a control.
    SetEnabled(Control, bool),
    /// Check or uncheck a control.
    SetChecked(Control, bool),
    /// Show this as the type of the PackFile.
    SetPackFileType(PFHFileType),
    /// Select this game.
    SelectGame(Game),
    /// Send this command to the worker.
    Send(Command),
    /// Send this to the worker that waits for the new place of the document.
    Answer(SaveAnswer),
    /// Change the tree of the document.
    UpdateTreeView(TreeViewOperation),
    /// Have the view of this kind built for the entry of this path.
    BuildView(DecodeablePackedFileType, Vec<String>),
    /// Put the view that was built into this slot.
    InsertView(i32),
    /// Destroy the view in this slot.
    PurgeView(i32),
    /// Destroy every view.
    PurgeAllViews,
    /// Show the tips that fill the view area while it is idle.
    DisplayHelpTips,
    /// Close the global search and forget its results.
    CloseGlobalSearch,
    /// Show this time as the time of the last change of the PackFile.
    SetLastModified(i64),
    /// Show this as the name of the PackFile.
    SetPackFileName(String),
    /// Ask where to save the PackFile: the name to propose, and the folder
    /// to start in, if one is known.
    AskSaveDestination(String, Option<Vec<String>>),
    /// Rebuild the MyMod menu when it is next opened.
    RebuildMyModMenu,
    /// Tell the user of something that went wrong without stopping.
    ShowWarning(ErrorKind),
    /// Tell the user that this was done.
    ShowMessage(String),
    /// Show this text in a window of its own, under this title.
    ShowReport(String, String),
}

/// What a [`UiAction`] holds, as mathematical values.
pub enum UiActionView {
    SetEnabled(Control, bool),
    SetChecked(Control, bool),
    SetPackFileType(PFHFileType),
    SelectGame(Game),
    Send(CommandView),
    Answer(SaveAnswerView),
    UpdateTreeView(TreeViewOperationView),
    BuildView(DecodeablePackedFileType, Seq<Seq<char>>),
    InsertView(i32),
    PurgeView(i32),
    PurgeAllViews,
    DisplayHelpTips,
    CloseGlobalSearch,
    SetLastModified(i64),
    SetPackFileName(Seq<char>),
    AskSaveDestination(Seq<char>, Option<Seq<Seq<char>>>),
    RebuildMyModMenu,
    ShowWarning(ErrorKindView),
    ShowMessage(Seq<char>),
    ShowReport(Seq<char>, Seq<char>),
}

impl DeepView for UiAction {
    type V = UiActionView;

    open spec fn deep_view(&self) -> UiActionView {
        match self {
            UiAction::SetEnabled(control, on) => UiActionView::SetEnabled(*control, *on),
            UiAction::SetChecked(control, on) => UiActionView::SetChecked(*control, *on),
            UiAction::SetPackFileType(kind) => UiActionView::SetPackFileType(*kind),
            UiAction::SelectGame(game) => UiActionView::SelectGame(*game),
            UiAction::Send(command) => UiActionView::Send(command.deep_view()),
            UiAction::Answer(answer) => UiActionView::Answer(answer.deep_view()),
            UiAction::UpdateTreeView(operation) => UiActionView::UpdateTreeView(
                operation.deep_view(),
            ),
            UiAction::BuildView(kind, path) => UiActionView::BuildView(*kind, path.deep_view()),
            UiAction::InsertView(slot) => UiActionView::InsertView(*slot),
            UiAction::PurgeView(slot) => UiActionView::PurgeView(*slot),
            UiAction::PurgeAllViews => UiActionView::PurgeAllViews,
            UiAction::DisplayHelpTips => UiActionView::DisplayHelpTips,
            UiAction::CloseGlobalSearch => UiActionView::CloseGlobalSearch,
            UiAction::SetLastModified(date) => UiActionView::SetLastModified(*date),
            UiAction::SetPackFileName(name) => UiActionView::SetPackFileName(name@),
            UiAction::AskSaveDestination(name, folder) => UiActionView::AskSaveDestination(
                name@,
                folder.deep_view(),
            ),
            UiAction::RebuildMyModMenu => UiActionView::RebuildMyModMenu,
            UiAction::ShowWarning(error) => UiActionView::ShowWarning(error.deep_view()),
            UiAction::ShowMessage(text) => UiActionView::ShowMessage(text@),
            UiAction::ShowReport(title, text) => UiActionView::ShowReport(title@, text@),
        }
    }
}

/// How a step of the session ended.
#[derive(Debug, PartialEq, Eq)]
pub enum Outcome {
    /// The operation is complete.
    Done,
    /// The operation goes on when the answer to what was just asked is in.
    Waiting,
    /// The operation ended with an error to report.
    Failed(ErrorKind),
    /// A response broke the protocol: the session is over.
    Fatal(ProtocolFault),
}

/// What an [`Outcome`] holds, as mathematical values.
pub enum OutcomeView {
    Done,
    Waiting,
    Failed(ErrorKindView),
    Fatal(ProtocolFault),
}

impl DeepView for Outcome {
    type V = OutcomeView;

    open spec fn deep_view(&self) -> OutcomeView {
        match self {
            Outcome::Done => OutcomeView::Done,
            Outcome::Waiting => OutcomeView::Waiting,
            Outcome::Failed(error) => OutcomeView::Failed(error.deep_view()),
            Outcome::Fatal(fault) => OutcomeView::Fatal(*fault),
        }
    }
}

/// What a step of the session hands back: the requests to carry out, in
/// order, and how the step ended.
#[derive(Debug, PartialEq, Eq)]
pub struct Step {
    pub actions: Vec<UiAction>,
    pub outcome: Outcome,
}

/// What a [`Step`] holds, as mathematical values.
pub struct StepView {
    pub actions: Seq<UiActionView>,
    pub outcome: OutcomeView,
}

impl DeepView for Step {
    type V = StepView;

    open spec fn deep_view(&self) -> StepView {
        StepView { actions: self.actions.deep_view(), outcome: self.outcome.deep_view() }
    }
}

/// Whether a list of requests sends a command that changes the document.
pub open spec fn sends_mutating_command(actions: Seq<UiActionView>) -> bool {
    exists|i: int|
        0 <= i < actions.len() && (#[trigger] actions[i] matches UiActionView::Send(command)
            && crate::protocol::is_mutating(crate::protocol::kind_of_command(command)))
}

/// Appends a request to a list.
pub fn push_action(actions: &mut Vec<UiAction>, action: UiAction)
    ensures
        final(actions).deep_view() == old(actions).deep_view().push(action.deep_view()),
{
    let ghost before = actions.deep_view();
    actions.push(action);
    assert(actions.deep_view() =~= before.push(action.deep_view()));
}

/// Appends a list of requests to a list.
pub fn append_actions(actions: &mut Vec<UiAction>, more: Vec<UiAction>)
    ensures
        final(actions).deep_view() == old(actions).deep_view() + more.deep_view(),
{
    let ghost before = actions.deep_view();
    let ghost added = more.deep_view();
    let mut more = more;
    actions.append(&mut more);
    assert(actions.deep_view() =~= before + added);
}

/// A list without requests.
pub fn no_actions() -> (actions: Vec<UiAction>)
    ensures
        actions.deep_view() == Seq::<UiActionView>::empty(),
{
    let actions: Vec<UiAction> = Vec::new();
    assert(actions.deep_view() =~= Seq::<UiActionView>::empty());
    actions
}

} // verus!
