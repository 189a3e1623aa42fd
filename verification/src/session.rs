//! The state of a session of the editor: the operational mode, the selected
//! game, the open document, the open views, the cache of table states, and
//! the exchange with the document worker that is under way.

use crate::error::clone_paths;
use crate::game::Game;
use crate::protocol::{
    Awaiting,
    Channel,
    CommandKind,
    PackedFileType,
    PackedFileTypeView,
    ProtocolFault,
    Response,
    awaiting_after_reply,
    kind_of_response,
    legal_reply,
};
use crate::table_state::{empty_table_state, TableState, TableStateView};
use crate::table_states::TableStates;
use crate::ui::{
    push_action,
    DecodeablePackedFileType,
    Control,
    UiAction,
    UiActionView,
};
use crate::view_registry::{lists_slots_of, ViewRegistry};
use vstd::prelude::*;
use vstd::string::*;

verus! {

/// Where saving, installing and uninstalling look: nowhere in particular, or
/// in the folder of a MyMod.
#[derive(Debug, PartialEq, Eq)]
pub enum Mode {
    Normal,
    MyMod { game_folder_name: String, mod_name: String },
}

/// What a [`Mode`] holds, as mathematical values.
pub enum ModeView {
    Normal,
    MyMod { game_folder_name: Seq<char>, mod_name: Seq<char> },
}

impl DeepView for Mode {
    type V = ModeView;

    open spec fn deep_view(&self) -> ModeView {
        match self {
            Mode::Normal => ModeView::Normal,
            Mode::MyMod { game_folder_name, mod_name } => ModeView::MyMod {
                game_folder_name: game_folder_name@,
                mod_name: mod_name@,
            },
        }
    }
}

impl Clone for Mode {
    fn clone(&self) -> (copy: Self)
        ensures
            copy.deep_view() == self.deep_view(),
    {
        match self {
            Mode::Normal => Mode::Normal,
            Mode::MyMod { game_folder_name, mod_name } => Mode::MyMod {
                game_folder_name: game_folder_name.clone(),
                mod_name: mod_name.clone(),
            },
        }
    }
}

/// The operation that is under way, with what it needs when it goes on.
pub enum Pending {
    /// None.
    Nothing,
    /// Opening the PackFiles at these places; for a MyMod, the folder of its
    /// game and its name.
    OpenPackFile { paths: Vec<Vec<String>>, my_mod: Option<(String, String)> },
    /// Saving the document to its file.
    SavePackFile,
    /// Saving under another name: the worker is about to name the place of
    /// the document.
    SavePackFileAs,
    /// Saving under another name: the user is choosing the new place.
    SaveDestinationChoice,
    /// Saving under another name, to this place.
    SaveDestination { path: Vec<String> },
    /// Creating an entry: the worker is asked whether the path is taken.
    PackedFileExists { path: Vec<String>, packed_file_type: PackedFileType },
    /// Creating an entry of this path.
    CreatePackedFile { path: Vec<String> },
    /// Checking the open script.
    CheckScript,
    /// Handing the worker the changed text of the entry of this path, or the
    /// changed notes.
    TextChange { is_notes: bool, path: Vec<String> },
    /// Deleting the MyMod of this name: the worker is emptying the document.
    /// The flag says whether the folder of MyMods exists.
    DeleteMyMod { mod_name: String, mymods_base_path_is_dir: bool },
    /// Creating the MyMod of this PackFile: a new document is asked for.
    NewMyMod { mymod_path: Vec<String> },
    /// Creating a MyMod: the worker is about to name the place of the
    /// document.
    NewMyModSaveAs { mymod_path: Vec<String> },
    /// Creating a MyMod: its PackFile is being saved.
    NewMyModSave { mymod_path: Vec<String> },
    /// Opening an entry: its view is being built.
    ViewConstruction { kind: DecodeablePackedFileType, path: Vec<String>, slot: i32 },
}

/// What a [`Pending`] holds, as mathematical values.
pub enum PendingView {
    Nothing,
    OpenPackFile { paths: Seq<Seq<Seq<char>>>, my_mod: Option<(Seq<char>, Seq<char>)> },
    SavePackFile,
    SavePackFileAs,
    SaveDestinationChoice,
    SaveDestination { path: Seq<Seq<char>> },
    PackedFileExists { path: Seq<Seq<char>>, packed_file_type: PackedFileTypeView },
    CreatePackedFile { path: Seq<Seq<char>> },
    CheckScript,
    TextChange { is_notes: bool, path: Seq<Seq<char>> },
    DeleteMyMod { mod_name: Seq<char>, mymods_base_path_is_dir: bool },
    NewMyMod { mymod_path: Seq<Seq<char>> },
    NewMyModSaveAs { mymod_path: Seq<Seq<char>> },
    NewMyModSave { mymod_path: Seq<Seq<char>> },
    ViewConstruction { kind: DecodeablePackedFileType, path: Seq<Seq<char>>, slot: i32 },
}

impl DeepView for Pending {
    type V = PendingView;

    open spec fn deep_view(&self) -> PendingView {
        match self {
            Pending::Nothing => PendingView::Nothing,
            Pending::OpenPackFile { paths, my_mod } => PendingView::OpenPackFile {
                paths: paths.deep_view(),
                my_mod: my_mod.deep_view(),
            },
            Pending::SavePackFile => PendingView::SavePackFile,
            Pending::SavePackFileAs => PendingView::SavePackFileAs,
            Pending::SaveDestinationChoice => PendingView::SaveDestinationChoice,
            Pending::SaveDestination { path } => PendingView::SaveDestination {
                path: path.deep_view(),
            },
            Pending::PackedFileExists { path, packed_file_type } => PendingView::PackedFileExists {
                path: path.deep_view(),
                packed_file_type: packed_file_type.deep_view(),
            },
            Pending::CreatePackedFile { path } => PendingView::CreatePackedFile {
                path: path.deep_view(),
            },
            Pending::CheckScript => PendingView::CheckScript,
            Pending::TextChange { is_notes, path } => PendingView::TextChange {
                is_notes: *is_notes,
                path: path.deep_view(),
            },
            Pending::DeleteMyMod { mod_name, mymods_base_path_is_dir } => PendingView::DeleteMyMod {
                mod_name: mod_name@,
                mymods_base_path_is_dir: *mymods_base_path_is_dir,
            },
            Pending::NewMyMod { mymod_path } => PendingView::NewMyMod {
                mymod_path: mymod_path.deep_view(),
            },
            Pending::NewMyModSaveAs { mymod_path } => PendingView::NewMyModSaveAs {
                mymod_path: mymod_path.deep_view(),
            },
            Pending::NewMyModSave { mymod_path } => PendingView::NewMyModSave {
                mymod_path: mymod_path.deep_view(),
            },
            Pending::ViewConstruction { kind, path, slot } => PendingView::ViewConstruction {
                kind: *kind,
                path: path.deep_view(),
                slot: *slot,
            },
        }
    }
}

/// What the user interface waits for from the worker while the operation is
/// under way.
pub open spec fn awaited_by(pending: PendingView) -> Awaiting {
    match pending {
        PendingView::Nothing => Awaiting::Nothing,
        PendingView::OpenPackFile { .. } => Awaiting::Reply(CommandKind::OpenDocument),
        PendingView::SavePackFile => Awaiting::Reply(CommandKind::SaveDocument),
        PendingView::SavePackFileAs => Awaiting::Reply(CommandKind::SaveDocumentAs),
        PendingView::SaveDestinationChoice => Awaiting::Destination,
        PendingView::SaveDestination { .. } => Awaiting::SaveOutcome,
        PendingView::PackedFileExists { .. } => Awaiting::Reply(CommandKind::EntryExists),
        PendingView::CreatePackedFile { .. } => Awaiting::Reply(CommandKind::CreateEntry),
        PendingView::CheckScript => Awaiting::Reply(CommandKind::CheckScript),
        PendingView::TextChange { is_notes, .. } => if is_notes {
            Awaiting::Reply(CommandKind::SetNotes)
        } else {
            Awaiting::Reply(CommandKind::EncodeTextEntry)
        },
        PendingView::DeleteMyMod { .. } => Awaiting::Reply(CommandKind::ResetDocument),
        PendingView::NewMyMod { .. } => Awaiting::Reply(CommandKind::NewDocument),
        PendingView::NewMyModSaveAs { .. } => Awaiting::Reply(CommandKind::SaveDocumentAs),
        PendingView::NewMyModSave { .. } => Awaiting::SaveOutcome,
        PendingView::ViewConstruction { .. } => Awaiting::Nothing,
    }
}

/// What an operation under way must hold to go on: a place on disk has a
/// file name, and that of a MyMod the folder of its game as well; a view
/// that is being built is of a kind that has views.
pub open spec fn valid_pending(pending: PendingView) -> bool {
    match pending {
        PendingView::SaveDestination { path } => path.len() >= 1,
        PendingView::NewMyMod { mymod_path } => mymod_path.len() >= 2,
        PendingView::NewMyModSaveAs { mymod_path } => mymod_path.len() >= 2,
        PendingView::NewMyModSave { mymod_path } => mymod_path.len() >= 2,
        PendingView::ViewConstruction { kind, .. } => kind != DecodeablePackedFileType::Unknown,
        _ => true,
    }
}

/// The requests that follow a change of mode: the three actions on the
/// selected MyMod are enabled in the mode of a MyMod and disabled outside.
pub open spec fn my_mod_actions(enabled: bool) -> Seq<UiActionView> {
    seq![
        UiActionView::SetEnabled(Control::DeleteSelectedMyMod, enabled),
        UiActionView::SetEnabled(Control::InstallMyMod, enabled),
        UiActionView::SetEnabled(Control::UninstallMyMod, enabled),
    ]
}

/// The mode for the PackFile at `my_mod_path`: that of the MyMod named by the
/// file, in the folder that holds it; the normal mode for no path.
pub open spec fn mode_for(my_mod_path: Option<Seq<Seq<char>>>) -> ModeView {
    match my_mod_path {
        Some(path) => ModeView::MyMod {
            game_folder_name: path[path.len() - 2],
            mod_name: path[path.len() - 1],
        },
        None => ModeView::Normal,
    }
}

/// A session of the editor.
pub struct Session {
    pub(crate) mode: Mode,
    pub(crate) game_selected: Game,
    pub(crate) document: Option<Vec<Vec<String>>>,
    pub(crate) registry: ViewRegistry,
    pub(crate) table_states: TableStates,
    pub(crate) channel: Channel,
    pub(crate) pending: Pending,
    pub(crate) unsaved_changes: bool,
    pub(crate) remember_table_state_permanently: bool,
}

impl Session {
    /// The operational mode.
    pub open(crate) spec fn mode_view(&self) -> ModeView {
        self.mode.deep_view()
    }

    /// The selected game.
    pub open(crate) spec fn selected_game(&self) -> Game {
        self.game_selected
    }

    /// The document that is open: the places on disk of its PackFiles, or
    /// none where it stands for no file.
    pub open(crate) spec fn document_view(&self) -> Option<Seq<Seq<Seq<char>>>> {
        self.document.deep_view()
    }

    /// The open views: the path shown in each slot.
    pub open(crate) spec fn open_views(&self) -> Map<i32, Seq<Seq<char>>> {
        self.registry@
    }

    /// The cache of table states.
    pub open(crate) spec fn cached_states(&self) -> Map<Seq<Seq<char>>, TableStateView> {
        self.table_states@
    }

    /// Whether the document has changes that are not saved.
    pub open(crate) spec fn unsaved(&self) -> bool {
        self.unsaved_changes
    }

    /// Whether the table states outlive the document they were made for.
    pub open(crate) spec fn remembers(&self) -> bool {
        self.remember_table_state_permanently
    }

    /// The operation that is under way.
    pub open(crate) spec fn pending_view(&self) -> PendingView {
        self.pending.deep_view()
    }

    /// What the user interface waits for from the worker.
    pub open(crate) spec fn awaits(&self) -> Awaiting {
        self.channel.awaits()
    }

    /// Whether a response has broken the protocol. The session is then over.
    pub open(crate) spec fn faulted(&self) -> bool {
        self.channel.is_faulted()
    }

    /// The parts of the session fit together: the registry and the cache are
    /// in order, the worker is waited for as the operation under way says,
    /// and after a fault nothing is under way.
    pub open(crate) spec fn wf(&self) -> bool {
        &&& self.registry.wf()
        &&& self.table_states.wf()
        &&& valid_pending(self.pending_view())
        &&& self.awaits() == awaited_by(self.pending_view())
        &&& self.faulted() ==> self.pending_view() is Nothing
    }

    /// The session can start an operation: none is under way and the
    /// protocol is unbroken.
    pub open spec fn is_ready(&self) -> bool {
        &&& self.wf()
        &&& self.pending_view() is Nothing
        &&& !self.faulted()
    }

    /// The two sessions hold the same mode, game, document, views, table
    /// states and flags. The operation under way may differ.
    pub open spec fn same_data(&self, other: &Session) -> bool {
        &&& self.mode_view() == other.mode_view()
        &&& self.selected_game() == other.selected_game()
        &&& self.document_view() == other.document_view()
        &&& self.open_views() == other.open_views()
        &&& self.cached_states() == other.cached_states()
        &&& self.unsaved() == other.unsaved()
        &&& self.remembers() == other.remembers()
    }

    /// A session in the normal mode, without document, views or table
    /// states.
    pub fn new(game_selected: Game, remember_table_state_permanently: bool) -> (session: Self)
        ensures
            session.is_ready(),
            session.mode_view() == ModeView::Normal,
            session.selected_game() == game_selected,
            session.document_view() is None,
            session.open_views() == Map::<i32, Seq<Seq<char>>>::empty(),
            session.cached_states() == Map::<Seq<Seq<char>>, TableStateView>::empty(),
            !session.unsaved(),
            session.remembers() == remember_table_state_permanently,
    {
        Self {
            mode: Mode::Normal,
            game_selected,
            document: None,
            registry: ViewRegistry::new(),
            table_states: TableStates::new(),
            channel: Channel::new(),
            pending: Pending::Nothing,
            unsaved_changes: false,
            remember_table_state_permanently,
        }
    }

    /// The operational mode.
    pub fn mode(&self) -> (mode: Mode)
        ensures
            mode.deep_view() == self.mode_view(),
    {
        self.mode.clone()
    }

    /// The selected game.
    pub fn game_selected(&self) -> (game: Game)
        ensures
            game == self.selected_game(),
    {
        self.game_selected
    }

    /// Selects a game.
    pub fn select_game(&mut self, game: Game)
        ensures
            final(self).selected_game() == game,
            final(self).mode_view() == old(self).mode_view(),
            final(self).open_views() == old(self).open_views(),
            final(self).cached_states() == old(self).cached_states(),
            final(self).unsaved() == old(self).unsaved(),
            final(self).remembers() == old(self).remembers(),
            final(self).document_view() == old(self).document_view(),
            final(self).pending_view() == old(self).pending_view(),
            final(self).awaits() == old(self).awaits(),
            final(self).faulted() == old(self).faulted(),
            old(self).wf() ==> final(self).wf(),
    {
        self.game_selected = game;
    }

    /// The places on disk of the PackFiles of the open document, or none
    /// where it stands for no file.
    pub fn document(&self) -> (document: Option<Vec<Vec<String>>>)
        ensures
            document.deep_view() == self.document_view(),
    {
        match &self.document {
            Some(paths) => Some(clone_paths(paths)),
            None => None,
        }
    }

    /// Whether the document has changes that are not saved.
    pub fn has_unsaved_changes(&self) -> (unsaved: bool)
        ensures
            unsaved == self.unsaved(),
    {
        self.unsaved_changes
    }

    /// Whether an operation can be started.
    pub fn ready(&self) -> (ready: bool)
        requires
            self.wf(),
        ensures
            ready == self.is_ready(),
    {
        let idle = match self.pending {
            Pending::Nothing => true,
            _ => false,
        };
        idle && !self.channel.faulted()
    }

    /// Whether a response has broken the protocol.
    pub fn is_over(&self) -> (over: bool)
        ensures
            over == self.faulted(),
    {
        self.channel.faulted()
    }

    /// What the user interface waits for from the worker.
    pub fn awaiting(&self) -> (awaiting: Awaiting)
        ensures
            awaiting == self.awaits(),
    {
        self.channel.awaiting()
    }

    /// Whether no view is open.
    pub fn has_no_views(&self) -> (none: bool)
        requires
            self.wf(),
        ensures
            none == (self.open_views() == Map::<i32, Seq<Seq<char>>>::empty()),
    {
        self.registry.is_empty()
    }

    /// The path shown in `slot`, if a view is open there.
    pub fn path_in_view(&self, slot: i32) -> (path: Option<Vec<String>>)
        requires
            self.wf(),
        ensures
            path.deep_view() == if self.open_views().contains_key(slot) {
                Some(self.open_views()[slot])
            } else {
                None
            },
    {
        self.registry.path_in(slot)
    }

    /// The slots that show `path`, rising. There is at most one.
    pub fn find_slots_by_path(&self, path: &Vec<String>) -> (slots: Vec<i32>)
        requires
            self.wf(),
        ensures
            slots.len() <= 1,
            forall|slot: i32|
                slots@.contains(slot) <==> self.open_views().contains_key(slot)
                    && self.open_views()[slot] == path.deep_view(),
    {
        self.registry.find_slots_by_path(path)
    }

    /// The slots with an open view, rising.
    pub fn open_slots(&self) -> (slots: Vec<i32>)
        requires
            self.wf(),
        ensures
            lists_slots_of(slots@, self.open_views()),
    {
        self.registry.slots()
    }

    /// The table state of `path`: the cached one, or the untouched state
    /// where none is cached.
    pub fn table_state(&self, path: &Vec<String>) -> (state: TableState)
        requires
            self.wf(),
        ensures
            state.deep_view() == if self.cached_states().contains_key(path.deep_view()) {
                self.cached_states()[path.deep_view()]
            } else {
                empty_table_state()
            },
    {
        self.table_states.get(path)
    }

    /// Whether a table state is cached for `path`.
    pub fn has_table_state(&self, path: &Vec<String>) -> (cached: bool)
        requires
            self.wf(),
        ensures
            cached == self.cached_states().contains_key(path.deep_view()),
    {
        self.table_states.contains(path)
    }

    /// Caches `state` as the table state of `path`, in place of the whole of
    /// an earlier one.
    pub fn set_table_state(&mut self, path: Vec<String>, state: TableState)
        requires
            old(self).wf(),
        ensures
            final(self).wf(),
            final(self).cached_states() == old(self).cached_states().insert(
                path.deep_view(),
                state.deep_view(),
            ),
            final(self).mode_view() == old(self).mode_view(),
            final(self).selected_game() == old(self).selected_game(),
            final(self).open_views() == old(self).open_views(),
            final(self).unsaved() == old(self).unsaved(),
            final(self).remembers() == old(self).remembers(),
            final(self).document_view() == old(self).document_view(),
            final(self).pending_view() == old(self).pending_view(),
            final(self).faulted() == old(self).faulted(),
    {
        self.table_states.put(path, state);
    }

    /// Drops the table state cached for `path`.
    pub fn forget_table_state(&mut self, path: &Vec<String>)
        requires
            old(self).wf(),
        ensures
            final(self).wf(),
            final(self).cached_states() == old(self).cached_states().remove(path.deep_view()),
            final(self).mode_view() == old(self).mode_view(),
            final(self).selected_game() == old(self).selected_game(),
            final(self).open_views() == old(self).open_views(),
            final(self).unsaved() == old(self).unsaved(),
            final(self).remembers() == old(self).remembers(),
            final(self).document_view() == old(self).document_view(),
            final(self).pending_view() == old(self).pending_view(),
            final(self).faulted() == old(self).faulted(),
    {
        let _ = self.table_states.remove(path);
    }

    /// The cache of table states.
    pub fn table_states(&self) -> (states: &TableStates)
        ensures
            states@ == self.cached_states(),
            self.wf() ==> states.wf(),
    {
        &self.table_states
    }

    /// Replaces the cache of table states, as after reading the settings
    /// file.
    pub fn restore_table_states(&mut self, states: TableStates)
        requires
            old(self).wf(),
            states.wf(),
        ensures
            final(self).wf(),
            final(self).cached_states() == states@,
            final(self).mode_view() == old(self).mode_view(),
            final(self).selected_game() == old(self).selected_game(),
            final(self).open_views() == old(self).open_views(),
            final(self).unsaved() == old(self).unsaved(),
            final(self).remembers() == old(self).remembers(),
            final(self).document_view() == old(self).document_view(),
            final(self).pending_view() == old(self).pending_view(),
            final(self).faulted() == old(self).faulted(),
    {
        self.table_states = states;
    }

    /// Takes the operation under way out of the session and passes the
    /// response that has come through the channel. After a fault nothing is
    /// under way.
    pub(crate) fn take_reply(&mut self, response: &Response) -> (taken: Result<
        Pending,
        ProtocolFault,
    >)
        requires
            old(self).wf(),
        ensures
            final(self).same_data(old(self)),
            final(self).registry.wf(),
            final(self).table_states.wf(),
            final(self).pending_view() is Nothing,
            taken is Ok <==> !old(self).faulted() && legal_reply(
                old(self).awaits(),
                response.deep_view(),
            ),
            taken matches Ok(pending) ==> pending.deep_view() == old(self).pending_view()
                && !final(self).faulted() && final(self).awaits() == awaiting_after_reply(
                old(self).awaits(),
                response.deep_view(),
            ),
            taken matches Err(fault) ==> final(self).faulted() && final(self).wf()
                && fault.awaiting == old(self).awaits() && fault.response == kind_of_response(
                response.deep_view(),
            ),
    {
        let mut pending = Pending::Nothing;
        std::mem::swap(&mut self.pending, &mut pending);
        match self.channel.receive(response) {
            Ok(()) => Ok(pending),
            Err(fault) => Err(fault),
        }
    }
}

/// Sets the operational mode: that of the MyMod whose PackFile is at
/// `my_mod_path`, named by the file and kept in the folder that holds it, or
/// the normal mode for no path. The three actions on the selected MyMod are
/// enabled in the first case and disabled in the second.
pub fn set_my_mod_mode(session: &mut Session, my_mod_path: Option<Vec<String>>) -> (actions: Vec<
    UiAction,
>)
    requires
        old(session).wf(),
        my_mod_path matches Some(path) ==> path.len() >= 2,
    ensures
        final(session).wf(),
        final(session).mode_view() == mode_for(my_mod_path.deep_view()),
        actions.deep_view() == my_mod_actions(my_mod_path is Some),
        final(session).selected_game() == old(session).selected_game(),
        final(session).open_views() == old(session).open_views(),
        final(session).cached_states() == old(session).cached_states(),
        final(session).unsaved() == old(session).unsaved(),
        final(session).remembers() == old(session).remembers(),
        final(session).document_view() == old(session).document_view(),
        final(session).pending_view() == old(session).pending_view(),
        final(session).faulted() == old(session).faulted(),
{
    match my_mod_path {
        Some(path) => {
            let n = path.len();
            session.mode = Mode::MyMod {
                game_folder_name: path[n - 2].clone(),
                mod_name: path[n - 1].clone(),
            };
            enable_my_mod_actions(true)
        },
        None => {
            session.mode = Mode::Normal;
            enable_my_mod_actions(false)
        },
    }
}

/// The requests that enable or disable the three actions on the selected
/// MyMod.
pub fn enable_my_mod_actions(enabled: bool) -> (actions: Vec<UiAction>)
    ensures
        actions.deep_view() == my_mod_actions(enabled),
{
    let mut actions = crate::ui::no_actions();
    push_action(&mut actions, UiAction::SetEnabled(Control::DeleteSelectedMyMod, enabled));
    push_action(&mut actions, UiAction::SetEnabled(Control::InstallMyMod, enabled));
    push_action(&mut actions, UiAction::SetEnabled(Control::UninstallMyMod, enabled));
    actions
}

} // verus!
