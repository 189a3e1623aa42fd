//! Opening PackFiles: the request to the worker, and what the session does
//! with the answer.

use crate::error::{clone_paths, ErrorKindView};
use crate::game::{game_for_version, my_mod_game_of, Game};
use crate::protocol::{
    kind_of_response,
    Command,
    CommandKind,
    CommandView,
    CompressionState,
    PackFileUIData,
    ProtocolFault,
    Response,
    ResponseView,
};
use crate::session::{
    enable_my_mod_actions,
    my_mod_actions,
    Mode,
    ModeView,
    Pending,
    PendingView,
    Session,
};
use crate::table_state::TableStateView;
use crate::ui::{
    append_actions,
    no_actions,
    push_action,
    Control,
    Outcome,
    OutcomeView,
    Step,
    StepView,
    TreeViewOperation,
    TreeViewOperationView,
    UiAction,
    UiActionView,
};
use vstd::pervasive::unreached;
use vstd::prelude::*;
use vstd::string::*;

verus! {

/// PackFiles are opened as a MyMod where the folder of its game is given and
/// there is one PackFile.
pub open spec fn opens_as_my_mod(paths: Seq<Seq<Seq<char>>>, game_folder: Seq<char>) -> bool {
    game_folder.len() > 0 && paths.len() == 1
}

/// What a session that is opening these PackFiles keeps for the answer:
/// their places, and for a MyMod the folder of its game and the name of its
/// file.
pub open spec fn pending_open(paths: Seq<Seq<Seq<char>>>, game_folder: Seq<char>) -> PendingView {
    PendingView::OpenPackFile {
        paths,
        my_mod: if opens_as_my_mod(paths, game_folder) {
            Some((game_folder, paths[0].last()))
        } else {
            None
        },
    }
}

/// The step in which a response broke the protocol: nothing is asked of the
/// window, the data of the session is as before, and the session is over.
pub open spec fn is_fatal_step(
    before: Session,
    response: ResponseView,
    after: Session,
    step: StepView,
) -> bool {
    &&& step.actions == Seq::<UiActionView>::empty()
    &&& step.outcome == OutcomeView::Fatal(
        ProtocolFault { awaiting: before.awaits(), response: kind_of_response(response) },
    )
    &&& after.same_data(&before)
    &&& after.faulted()
}

/// The requests that show a PackFile that was opened: its type and flags,
/// the tree built anew, the game selected, the actions of the mode, and a
/// view area without views.
pub open spec fn opened_actions(data: PackFileUIData, game: Game, as_my_mod: bool) -> Seq<
    UiActionView,
> {
    seq![
        UiActionView::SetPackFileType(data.pfh_file_type),
        UiActionView::SetChecked(Control::DataIsEncrypted, data.bitmask.has_encrypted_data),
        UiActionView::SetChecked(
            Control::IndexIncludesTimestamp,
            data.bitmask.has_index_with_timestamps,
        ),
        UiActionView::SetChecked(Control::IndexIsEncrypted, data.bitmask.has_encrypted_index),
        UiActionView::SetChecked(Control::HeaderIsExtended, data.bitmask.has_extended_header),
        UiActionView::SetChecked(
            Control::DataIsCompressed,
            data.compression_state == CompressionState::Enabled,
        ),
        UiActionView::UpdateTreeView(TreeViewOperationView::Build(false)),
        UiActionView::SelectGame(game),
    ] + my_mod_actions(as_my_mod) + seq![
        UiActionView::SetEnabled(Control::Window, true),
        UiActionView::PurgeAllViews,
        UiActionView::CloseGlobalSearch,
        UiActionView::DisplayHelpTips,
    ]
}

/// The game selected once PackFiles are open: for a MyMod the game of its
/// folder, else the game that the header and the selected game give.
pub open spec fn game_after_open(
    my_mod: Option<(Seq<char>, Seq<char>)>,
    data: PackFileUIData,
    current: Game,
) -> Game {
    match my_mod {
        Some((folder, _)) => my_mod_game_of(folder),
        None => game_for_version(data.pfh_version, data.bitmask.has_extended_header, current),
    }
}

/// The mode once PackFiles are open: for a MyMod that of the MyMod, of the
/// given folder and named by the file; else the normal mode.
pub open spec fn mode_after_open(my_mod: Option<(Seq<char>, Seq<char>)>) -> ModeView {
    match my_mod {
        Some((folder, name)) => ModeView::MyMod { game_folder_name: folder, mod_name: name },
        None => ModeView::Normal,
    }
}

/// What the answer to the request to open PackFiles does to the session.
///
/// Opened: the PackFiles are the document, the game and the mode are set,
/// every view is closed, the table states are dropped unless they are to be
/// remembered, and nothing is unsaved. Refused for the reason that can be reported: the window is
/// enabled again and the error handed back. Anything else is a fault.
pub open spec fn open_packfile_replied(
    before: Session,
    response: ResponseView,
    after: Session,
    step: StepView,
) -> bool {
    let paths = before.pending_view()->OpenPackFile_paths;
    let my_mod = before.pending_view()->OpenPackFile_my_mod;
    match response {
        ResponseView::DocumentOpened(data) => {
            let game = game_after_open(my_mod, data, before.selected_game());
            &&& step.outcome == OutcomeView::Done
            &&& step.actions == opened_actions(data, game, my_mod is Some)
            &&& after.selected_game() == game
            &&& after.mode_view() == mode_after_open(my_mod)
            &&& after.document_view() == Some(paths)
            &&& after.open_views() == Map::<i32, Seq<Seq<char>>>::empty()
            &&& after.cached_states() == if before.remembers() {
                before.cached_states()
            } else {
                Map::<Seq<Seq<char>>, TableStateView>::empty()
            }
            &&& !after.unsaved()
            &&& after.remembers() == before.remembers()
            &&& !after.faulted()
        },
        ResponseView::Error(ErrorKindView::OpenPackFileGeneric(message)) => {
            &&& step.outcome == OutcomeView::Failed(ErrorKindView::OpenPackFileGeneric(message))
            &&& step.actions == seq![UiActionView::SetEnabled(Control::Window, true)]
            &&& after.same_data(&before)
            &&& !after.faulted()
        },
        _ => is_fatal_step(before, response, after, step),
    }
}

/// The step that ends a session whose protocol was broken.
pub fn fatal_step(fault: ProtocolFault) -> (step: Step)
    ensures
        step.deep_view() == (StepView {
            actions: Seq::<UiActionView>::empty(),
            outcome: OutcomeView::Fatal(fault),
        }),
{
    Step { actions: no_actions(), outcome: Outcome::Fatal(fault) }
}

/// Asks the worker to open the PackFiles at `pack_file_paths` as one
/// document. `game_folder` is the folder of the game of a MyMod, and empty
/// for any other PackFile. The window is disabled until the answer is in.
pub fn open_packfile(session: &mut Session, pack_file_paths: Vec<Vec<String>>, game_folder: &str) -> (step:
    Step)
    requires
        old(session).is_ready(),
        opens_as_my_mod(pack_file_paths.deep_view(), game_folder@) ==> pack_file_paths.deep_view()[0].len()
            >= 1,
    ensures
        final(session).wf(),
        final(session).same_data(old(session)),
        !final(session).faulted(),
        final(session).pending_view() == pending_open(pack_file_paths.deep_view(), game_folder@),
        step.deep_view() == (StepView {
            actions: seq![
                UiActionView::SetEnabled(Control::Window, false),
                UiActionView::Send(CommandView::OpenDocument(pack_file_paths.deep_view())),
            ],
            outcome: OutcomeView::Waiting,
        }),
{
    let folder = game_folder.to_owned();
    let as_my_mod = folder.as_str().unicode_len() > 0 && pack_file_paths.len() == 1;
    let my_mod = if as_my_mod {
        let first = &pack_file_paths[0];
        assert(first.deep_view() == pack_file_paths.deep_view()[0]);
        let name = first[first.len() - 1].clone();
        assert(name@ == pack_file_paths.deep_view()[0].last());
        Some((folder, name))
    } else {
        None
    };
    let sent = session.channel.send(CommandKind::OpenDocument);
    assert(sent);
    session.pending = Pending::OpenPackFile { paths: clone_paths(&pack_file_paths), my_mod };
    let mut actions = no_actions();
    push_action(&mut actions, UiAction::SetEnabled(Control::Window, false));
    push_action(&mut actions, UiAction::Send(Command::OpenDocument(pack_file_paths)));
    assert(actions.deep_view() =~= seq![
        UiActionView::SetEnabled(Control::Window, false),
        UiActionView::Send(CommandView::OpenDocument(pack_file_paths.deep_view())),
    ]);
    Step { actions, outcome: Outcome::Waiting }
}

/// The requests that show a PackFile that was opened.
pub fn show_opened_packfile(data: PackFileUIData, game: Game, as_my_mod: bool) -> (actions: Vec<
    UiAction,
>)
    ensures
        actions.deep_view() == opened_actions(data, game, as_my_mod),
{
    let mut actions = no_actions();
    push_action(&mut actions, UiAction::SetPackFileType(data.pfh_file_type));
    push_action(
        &mut actions,
        UiAction::SetChecked(Control::DataIsEncrypted, data.bitmask.has_encrypted_data),
    );
    push_action(
        &mut actions,
        UiAction::SetChecked(
            Control::IndexIncludesTimestamp,
            data.bitmask.has_index_with_timestamps,
        ),
    );
    push_action(
        &mut actions,
        UiAction::SetChecked(Control::IndexIsEncrypted, data.bitmask.has_encrypted_index),
    );
    push_action(
        &mut actions,
        UiAction::SetChecked(Control::HeaderIsExtended, data.bitmask.has_extended_header),
    );
    let compressed = match data.compression_state {
        CompressionState::Enabled => true,
        _ => false,
    };
    push_action(&mut actions, UiAction::SetChecked(Control::DataIsCompressed, compressed));
    push_action(&mut actions, UiAction::UpdateTreeView(TreeViewOperation::Build(false)));
    push_action(&mut actions, UiAction::SelectGame(game));
    append_actions(&mut actions, enable_my_mod_actions(as_my_mod));
    push_action(&mut actions, UiAction::SetEnabled(Control::Window, true));
    push_action(&mut actions, UiAction::PurgeAllViews);
    push_action(&mut actions, UiAction::CloseGlobalSearch);
    push_action(&mut actions, UiAction::DisplayHelpTips);
    assert(actions.deep_view() =~= opened_actions(data, game, as_my_mod));
    actions
}

/// Takes the answer to the request to open PackFiles.
pub fn open_packfile_reply(session: &mut Session, response: Response) -> (step: Step)
    requires
        old(session).wf(),
        old(session).pending_view() is OpenPackFile,
    ensures
        final(session).wf(),
        final(session).pending_view() is Nothing,
        open_packfile_replied(*old(session), response.deep_view(), *final(session), step.deep_view()),
{
    let pending = match session.take_reply(&response) {
        Ok(pending) => pending,
        Err(fault) => {
            return fatal_step(fault);
        },
    };
    let (paths, my_mod) = match pending {
        Pending::OpenPackFile { paths, my_mod } => (paths, my_mod),
        _ => unreached(),
    };
    match response {
        Response::DocumentOpened(data) => {
            let as_my_mod = my_mod.is_some();
            match my_mod {
                Some((folder, name)) => {
                    session.game_selected = Game::for_my_mod_folder(folder.as_str());
                    session.mode = Mode::MyMod { game_folder_name: folder, mod_name: name };
                },
                None => {
                    session.game_selected = Game::for_version(
                        data.pfh_version,
                        data.bitmask.has_extended_header,
                        session.game_selected,
                    );
                    session.mode = Mode::Normal;
                },
            }
            session.document = Some(paths);
            let _ = session.registry.close_all();
            if !session.remember_table_state_permanently {
                session.table_states.clear();
            }
            session.unsaved_changes = false;
            let actions = show_opened_packfile(data, session.game_selected, as_my_mod);
            Step { actions, outcome: Outcome::Done }
        },
        Response::Error(error) => {
            let mut actions = no_actions();
            push_action(&mut actions, UiAction::SetEnabled(Control::Window, true));
            assert(actions.deep_view() =~= seq![UiActionView::SetEnabled(Control::Window, true)]);
            Step { actions, outcome: Outcome::Failed(error) }
        },
        _ => unreached(),
    }
}

/// A PackFile opened as a MyMod puts the session into the mode of that
/// MyMod, of the folder that was given and named by the file, and selects the
/// game of the folder, whatever the header of the PackFile says.
pub proof fn lemma_my_mod_mode_ignores_header(
    asked: Session,
    paths: Seq<Seq<Seq<char>>>,
    game_folder: Seq<char>,
    data: PackFileUIData,
    opened: Session,
    step: StepView,
)
    requires
        opens_as_my_mod(paths, game_folder),
        asked.pending_view() == pending_open(paths, game_folder),
        open_packfile_replied(asked, ResponseView::DocumentOpened(data), opened, step),
    ensures
        opened.mode_view() == (ModeView::MyMod {
            game_folder_name: game_folder,
            mod_name: paths[0].last(),
        }),
        opened.selected_game() == my_mod_game_of(game_folder),
{
}

/// A PackFile opened outside any MyMod leaves the session in the normal
/// mode and selects a game by its header: the selected game where that game
/// has the version of the header, and the default game of the version
/// otherwise.
pub proof fn lemma_game_follows_header(
    asked: Session,
    paths: Seq<Seq<Seq<char>>>,
    game_folder: Seq<char>,
    data: PackFileUIData,
    opened: Session,
    step: StepView,
)
    requires
        !opens_as_my_mod(paths, game_folder),
        asked.pending_view() == pending_open(paths, game_folder),
        open_packfile_replied(asked, ResponseView::DocumentOpened(data), opened, step),
    ensures
        opened.mode_view() == ModeView::Normal,
        opened.selected_game() == game_for_version(
            data.pfh_version,
            data.bitmask.has_extended_header,
            asked.selected_game(),
        ),
        opened.selected_game() == if crate::game::games_of_version(
            data.pfh_version,
            data.bitmask.has_extended_header,
        ).contains(asked.selected_game()) {
            asked.selected_game()
        } else {
            crate::game::default_game_of_version(
                data.pfh_version,
                data.bitmask.has_extended_header,
            )
        },
{
    crate::game::lemma_game_for_version(
        data.pfh_version,
        data.bitmask.has_extended_header,
        asked.selected_game(),
    );
}

/// Once the answer that PackFiles were opened is in, no view of the earlier
/// document is left, and no table state either unless they are to be
/// remembered.
pub proof fn lemma_open_leaves_nothing_of_the_earlier_document(
    asked: Session,
    data: PackFileUIData,
    opened: Session,
    step: StepView,
)
    requires
        asked.pending_view() is OpenPackFile,
        open_packfile_replied(asked, ResponseView::DocumentOpened(data), opened, step),
    ensures
        forall|slot: i32| !opened.open_views().contains_key(slot),
        !asked.remembers() ==> forall|path: Seq<Seq<char>>|
            !opened.cached_states().contains_key(path),
{
}

} // verus!
