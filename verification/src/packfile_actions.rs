//! Which actions of the menu bar are enabled while a PackFile is open, and
//! which while none is.

use crate::game::Game;
use crate::session::Session;
use crate::ui::{append_actions, no_actions, push_action, Control, UiAction, UiActionView};
use vstd::prelude::*;

verus! {

/// The requests that enable or disable the special actions of one game:
/// the patch of the siege AI where the game has one, the optimiser and the
/// generator of PAK files. Arena has none.
pub open spec fn special_actions(game: Game, enabled: bool) -> Seq<UiActionView> {
    if game == Game::Arena {
        Seq::<UiActionView>::empty()
    } else if game.can_patch_siege_ai() {
        seq![
            UiActionView::SetEnabled(Control::PatchSiegeAI(game), enabled),
            UiActionView::SetEnabled(Control::OptimizePackFile(game), enabled),
            UiActionView::SetEnabled(Control::GeneratePakFile(game), enabled),
        ]
    } else {
        seq![
            UiActionView::SetEnabled(Control::OptimizePackFile(game), enabled),
            UiActionView::SetEnabled(Control::GeneratePakFile(game), enabled),
        ]
    }
}

/// The requests that disable the special actions of every game.
pub open spec fn no_special_actions() -> Seq<UiActionView> {
    special_actions(Game::ThreeKingdoms, false) + special_actions(Game::Warhammer2, false)
        + special_actions(Game::Warhammer, false) + special_actions(
        Game::ThronesOfBritannia,
        false,
    ) + special_actions(Game::Attila, false) + special_actions(Game::Rome2, false)
        + special_actions(Game::Shogun2, false) + special_actions(Game::Napoleon, false)
        + special_actions(Game::Empire, false)
}

/// The requests for the actions that make and save PackFiles and MyMods,
/// and for those that change the type of the PackFile.
///
/// A new PackFile can be made for every game but Arena, and a PackFile be
/// saved where one is open and the game is not Arena. A MyMod can be made
/// where the game is not Arena and the folder for MyMods is configured and
/// exists. The type of the PackFile can be changed where one is open.
pub open spec fn general_actions(
    game: Game,
    mymods_base_path_is_dir: Option<bool>,
    enable: bool,
) -> Seq<UiActionView> {
    let editable = game != Game::Arena;
    seq![
        UiActionView::SetEnabled(Control::NewPackFile, editable),
        UiActionView::SetEnabled(Control::SavePackFile, editable && enable),
        UiActionView::SetEnabled(Control::SavePackFileAs, editable && enable),
        UiActionView::SetEnabled(
            Control::NewMyMod,
            editable && mymods_base_path_is_dir == Some(true),
        ),
        UiActionView::SetEnabled(Control::ChangePackFileTypeGroup, enable),
        UiActionView::SetEnabled(Control::IndexIncludesTimestamp, enable),
    ]
}

/// The requests for compression and for the special actions of the games.
///
/// With a PackFile open, the special actions of the selected game are
/// enabled, and compression where the game has it; those of the other games
/// stay as they are, and Arena has none. With none open, compression and
/// the special actions of every game are disabled.
pub open spec fn game_actions(game: Game, enable: bool) -> Seq<UiActionView> {
    if !enable {
        seq![UiActionView::SetEnabled(Control::DataIsCompressed, false)] + no_special_actions()
    } else if game == Game::Arena {
        Seq::<UiActionView>::empty()
    } else {
        seq![UiActionView::SetEnabled(Control::DataIsCompressed, game.can_compress())]
            + special_actions(game, true)
    }
}

/// The requests that fit the menu bar to the selected game and to whether a
/// PackFile is open (`enable`): the general actions, those of the games, and
/// the assembly kit, which can be opened for the games that have one.
pub open spec fn packfile_actions(
    game: Game,
    mymods_base_path_is_dir: Option<bool>,
    enable: bool,
) -> Seq<UiActionView> {
    general_actions(game, mymods_base_path_is_dir, enable) + game_actions(game, enable) + seq![
        UiActionView::SetEnabled(Control::OpenGameAssemblyKitFolder, game.has_kit()),
    ]
}

/// The requests that enable or disable the special actions of one game.
pub fn set_special_actions(game: Game, enabled: bool) -> (actions: Vec<UiAction>)
    ensures
        actions.deep_view() == special_actions(game, enabled),
{
    let mut actions = no_actions();
    match game {
        Game::Arena => {},
        _ => {
            if game.has_siege_ai_patch() {
                push_action(&mut actions, UiAction::SetEnabled(Control::PatchSiegeAI(game), enabled));
            }
            push_action(
                &mut actions,
                UiAction::SetEnabled(Control::OptimizePackFile(game), enabled),
            );
            push_action(&mut actions, UiAction::SetEnabled(Control::GeneratePakFile(game), enabled));
        },
    }
    assert(actions.deep_view() =~= special_actions(game, enabled));
    actions
}

/// The requests for the actions that make and save PackFiles and MyMods,
/// and for those that change the type of the PackFile.
fn set_general_actions(game: Game, mymods_base_path_is_dir: Option<bool>, enable: bool) -> (actions:
    Vec<UiAction>)
    ensures
        actions.deep_view() == general_actions(game, mymods_base_path_is_dir, enable),
{
    let editable = game.supports_editing();
    let new_my_mod = match mymods_base_path_is_dir {
        Some(is_dir) => editable && is_dir,
        None => false,
    };
    let mut actions = no_actions();
    push_action(&mut actions, UiAction::SetEnabled(Control::NewPackFile, editable));
    push_action(&mut actions, UiAction::SetEnabled(Control::SavePackFile, editable && enable));
    push_action(&mut actions, UiAction::SetEnabled(Control::SavePackFileAs, editable && enable));
    push_action(&mut actions, UiAction::SetEnabled(Control::NewMyMod, new_my_mod));
    push_action(&mut actions, UiAction::SetEnabled(Control::ChangePackFileTypeGroup, enable));
    push_action(&mut actions, UiAction::SetEnabled(Control::IndexIncludesTimestamp, enable));
    assert(actions.deep_view() =~= general_actions(game, mymods_base_path_is_dir, enable));
    actions
}

/// The requests that disable the special actions of every game.
fn disable_special_actions() -> (actions: Vec<UiAction>)
    ensures
        actions.deep_view() == no_special_actions(),
{
    let mut actions = set_special_actions(Game::ThreeKingdoms, false);
    append_actions(&mut actions, set_special_actions(Game::Warhammer2, false));
    append_actions(&mut actions, set_special_actions(Game::Warhammer, false));
    append_actions(&mut actions, set_special_actions(Game::ThronesOfBritannia, false));
    append_actions(&mut actions, set_special_actions(Game::Attila, false));
    append_actions(&mut actions, set_special_actions(Game::Rome2, false));
    append_actions(&mut actions, set_special_actions(Game::Shogun2, false));
    append_actions(&mut actions, set_special_actions(Game::Napoleon, false));
    append_actions(&mut actions, set_special_actions(Game::Empire, false));
    actions
}

/// The requests for compression and for the special actions of the games.
fn set_game_actions(game: Game, enable: bool) -> (actions: Vec<UiAction>)
    ensures
        actions.deep_view() == game_actions(game, enable),
{
    let mut actions = no_actions();
    if !enable {
        push_action(&mut actions, UiAction::SetEnabled(Control::DataIsCompressed, false));
        append_actions(&mut actions, disable_special_actions());
        assert(actions.deep_view() =~= game_actions(game, enable));
    } else {
        match game {
            Game::Arena => {},
            _ => {
                push_action(
                    &mut actions,
                    UiAction::SetEnabled(Control::DataIsCompressed, game.supports_compression()),
                );
                append_actions(&mut actions, set_special_actions(game, true));
            },
        }
        assert(actions.deep_view() =~= game_actions(game, enable));
    }
    actions
}

/// The requests that fit the menu bar to the game selected in the session
/// and to whether a PackFile is open (`enable`). `mymods_base_path_is_dir`
/// is `None` where no folder for MyMods is configured, and else says whether
/// the folder exists.
pub fn enable_packfile_actions(
    session: &Session,
    mymods_base_path_is_dir: Option<bool>,
    enable: bool,
) -> (actions: Vec<UiAction>)
    ensures
        actions.deep_view() == packfile_actions(
            session.selected_game(),
            mymods_base_path_is_dir,
            enable,
        ),
{
    let game = session.game_selected;
    let mut actions = set_general_actions(game, mymods_base_path_is_dir, enable);
    append_actions(&mut actions, set_game_actions(game, enable));
    push_action(
        &mut actions,
        UiAction::SetEnabled(Control::OpenGameAssemblyKitFolder, game.has_assembly_kit()),
    );
    actions
}

} // verus!
