//! The menus that list PackFiles found on disk: the MyMod menu, with a
//! submenu of MyMods for each game, and the two submenus of PackFiles to
//! open from the folders of the selected game.

use crate::archive_path::clone_path;
use crate::name_order::{sort_by_name, sort_names, sorted_by_name, sorted_names};
use crate::session::{Mode, Session};
use crate::text::{ends_with, str_ends_with, str_eq};
use vstd::prelude::*;
use vstd::seq_lib::*;
use vstd::string::*;

verus! {

/// What the editor knows of a game: the name of its folder, the name it is
/// shown under, and whether its PackFiles can be edited.
#[derive(Debug, PartialEq, Eq)]
pub struct GameInfo {
    pub folder_name: String,
    pub display_name: String,
    pub supports_editing: bool,
}

/// What a [`GameInfo`] holds, as mathematical values.
pub struct GameInfoView {
    pub folder_name: Seq<char>,
    pub display_name: Seq<char>,
    pub supports_editing: bool,
}

impl DeepView for GameInfo {
    type V = GameInfoView;

    open spec fn deep_view(&self) -> GameInfoView {
        GameInfoView {
            folder_name: self.folder_name@,
            display_name: self.display_name@,
            supports_editing: self.supports_editing,
        }
    }
}

/// Something found in a folder: its name, and whether it is a file.
#[derive(Debug, PartialEq, Eq)]
pub struct FolderFile {
    pub name: String,
    pub is_file: bool,
}

/// What a [`FolderFile`] holds, as mathematical values.
pub struct FolderFileView {
    pub name: Seq<char>,
    pub is_file: bool,
}

impl DeepView for FolderFile {
    type V = FolderFileView;

    open spec fn deep_view(&self) -> FolderFileView {
        FolderFileView { name: self.name@, is_file: self.is_file }
    }
}

/// Something found in the folder of MyMods: its name, whether it is a
/// folder, and what it holds, where that could be read.
#[derive(Debug, PartialEq, Eq)]
pub struct GameFolder {
    pub name: String,
    pub is_dir: bool,
    pub files: Option<Vec<FolderFile>>,
}

/// What a [`GameFolder`] holds, as mathematical values.
pub struct GameFolderView {
    pub name: Seq<char>,
    pub is_dir: bool,
    pub files: Option<Seq<FolderFileView>>,
}

impl DeepView for GameFolder {
    type V = GameFolderView;

    open spec fn deep_view(&self) -> GameFolderView {
        GameFolderView { name: self.name@, is_dir: self.is_dir, files: self.files.deep_view() }
    }
}

/// The submenu of the MyMods of one game: the folder of the game, the name
/// the game is shown under, and the PackFiles of the MyMods by rising name.
#[derive(Debug, PartialEq, Eq)]
pub struct GameSubmenu {
    pub game_folder_name: String,
    pub display_name: String,
    pub mods: Vec<String>,
}

/// What a [`GameSubmenu`] holds, as mathematical values.
pub struct GameSubmenuView {
    pub game_folder_name: Seq<char>,
    pub display_name: Seq<char>,
    pub mods: Seq<Seq<char>>,
}

impl DeepView for GameSubmenu {
    type V = GameSubmenuView;

    open spec fn deep_view(&self) -> GameSubmenuView {
        GameSubmenuView {
            game_folder_name: self.game_folder_name@,
            display_name: self.display_name@,
            mods: self.mods.deep_view(),
        }
    }
}

/// The MyMod menu: which of its four actions are enabled, and the submenus
/// of the games that have MyMods.
#[derive(Debug, PartialEq, Eq)]
pub struct MyModMenu {
    pub new_mymod: bool,
    pub delete_selected_mymod: bool,
    pub install_mymod: bool,
    pub uninstall_mymod: bool,
    pub submenus: Vec<GameSubmenu>,
}

/// What a [`MyModMenu`] holds, as mathematical values.
pub struct MyModMenuView {
    pub new_mymod: bool,
    pub delete_selected_mymod: bool,
    pub install_mymod: bool,
    pub uninstall_mymod: bool,
    pub submenus: Seq<GameSubmenuView>,
}

impl DeepView for MyModMenu {
    type V = MyModMenuView;

    open spec fn deep_view(&self) -> MyModMenuView {
        MyModMenuView {
            new_mymod: self.new_mymod,
            delete_selected_mymod: self.delete_selected_mymod,
            install_mymod: self.install_mymod,
            uninstall_mymod: self.uninstall_mymod,
            submenus: self.submenus.deep_view(),
        }
    }
}

/// The name is that of a PackFile: it has the extension `pack`.
pub open spec fn is_pack_name(name: Seq<char>) -> bool {
    ends_with(name, ".pack"@) && name.len() > ".pack"@.len()
}

/// The test that something found in a folder is the PackFile of a MyMod.
pub open spec fn is_pack_file() -> spec_fn(FolderFileView) -> bool {
    |file: FolderFileView| file.is_file && is_pack_name(file.name)
}

/// The name of something found in a folder.
pub open spec fn file_name() -> spec_fn(FolderFileView) -> Seq<char> {
    |file: FolderFileView| file.name
}

/// The names of the PackFiles among `files`, in the order of `files`.
pub open spec fn pack_file_names(files: Seq<FolderFileView>) -> Seq<Seq<char>> {
    files.filter(is_pack_file()).map_values(file_name())
}

/// The name under which the first game of `games` that can be edited and
/// keeps its files in `folder` is shown.
pub open spec fn display_name_for(games: Seq<GameInfoView>, folder: Seq<char>) -> Option<
    Seq<char>,
>
    decreases games.len(),
{
    if games.len() == 0 {
        None
    } else if games[0].supports_editing && games[0].folder_name == folder {
        Some(games[0].display_name)
    } else {
        display_name_for(games.drop_first(), folder)
    }
}

/// The submenu for something found in the folder of MyMods: one for a
/// folder of a game that can be edited, if it holds a PackFile at all.
pub open spec fn submenu_for(folder: GameFolderView, games: Seq<GameInfoView>) -> Option<
    GameSubmenuView,
> {
    if folder.is_dir && display_name_for(games, folder.name) is Some && folder.files is Some
        && pack_file_names(folder.files->0).len() > 0 {
        Some(
            GameSubmenuView {
                game_folder_name: folder.name,
                display_name: display_name_for(games, folder.name)->0,
                mods: sorted_names(pack_file_names(folder.files->0)),
            },
        )
    } else {
        None
    }
}

/// The submenus for what was found in the folder of MyMods, in the order in
/// which it was found.
pub open spec fn submenus_for(folders: Seq<GameFolderView>, games: Seq<GameInfoView>) -> Seq<
    GameSubmenuView,
>
    decreases folders.len(),
{
    if folders.len() == 0 {
        Seq::<GameSubmenuView>::empty()
    } else {
        let front = submenus_for(folders.drop_last(), games);
        match submenu_for(folders.last(), games) {
            Some(submenu) => front.push(submenu),
            None => front,
        }
    }
}

/// The MyMod menu. A MyMod can be made where the folder of MyMods is
/// configured and exists; the selected MyMod can be deleted, installed and
/// uninstalled in the mode of a MyMod.
pub open spec fn my_mod_menu(
    in_my_mod_mode: bool,
    mymods_base_path_is_dir: Option<bool>,
    game_folders: Option<Seq<GameFolderView>>,
    games: Seq<GameInfoView>,
) -> MyModMenuView {
    MyModMenuView {
        new_mymod: mymods_base_path_is_dir == Some(true),
        delete_selected_mymod: in_my_mod_mode,
        install_mymod: in_my_mod_mode,
        uninstall_mymod: in_my_mod_mode,
        submenus: match game_folders {
            Some(folders) => submenus_for(folders, games),
            None => Seq::<GameSubmenuView>::empty(),
        },
    }
}

/// Whether the name is that of a PackFile.
pub fn has_pack_extension(name: &str) -> (yes: bool)
    ensures
        yes == is_pack_name(name@),
{
    proof {
        reveal_strlit(".pack");
    }
    str_ends_with(name, ".pack") && name.unicode_len() > 5
}

/// The names of the PackFiles among `files`, in the order of `files`.
pub fn pack_files_of(files: &Vec<FolderFile>) -> (names: Vec<String>)
    ensures
        names.deep_view() == pack_file_names(files.deep_view()),
{
    let mut names: Vec<String> = Vec::new();
    let mut i: usize = 0;
    proof {
        assert(files.deep_view().take(0) =~= Seq::<FolderFileView>::empty());
        reveal_with_fuel(Seq::filter, 1);
        assert(names.deep_view() =~= pack_file_names(files.deep_view().take(0)));
    }
    while i < files.len()
        invariant
            i <= files.len(),
            names.deep_view() == pack_file_names(files.deep_view().take(i as int)),
        decreases files.len() - i,
    {
        let ghost before = files.deep_view().take(i as int);
        let ghost file = files[i as int].deep_view();
        proof {
            assert(files.deep_view().take(i + 1) =~= before.push(file));
            before.lemma_filter_push(file, is_pack_file());
            before.filter(is_pack_file()).lemma_push_map_commute(file_name(), file);
        }
        if files[i].is_file && has_pack_extension(files[i].name.as_str()) {
            let name = files[i].name.clone();
            let ghost kept = names.deep_view();
            names.push(name);
            assert(names.deep_view() =~= kept.push(name@));
        }
        i += 1;
    }
    assert(files.deep_view().take(files.len() as int) == files.deep_view());
    names
}

/// The name under which the first game of `games` that can be edited and
/// keeps its files in `folder` is shown.
pub fn display_name_of(games: &Vec<GameInfo>, folder: &str) -> (name: Option<String>)
    ensures
        name.deep_view() == display_name_for(games.deep_view(), folder@),
{
    let mut i: usize = 0;
    assert(games.deep_view().skip(0) =~= games.deep_view());
    while i < games.len()
        invariant
            i <= games.len(),
            display_name_for(games.deep_view(), folder@) == display_name_for(
                games.deep_view().skip(i as int),
                folder@,
            ),
        decreases games.len() - i,
    {
        proof {
            let rest = games.deep_view().skip(i as int);
            assert(rest[0] == games[i as int].deep_view());
            assert(rest.drop_first() =~= games.deep_view().skip(i + 1));
        }
        if games[i].supports_editing && str_eq(games[i].folder_name.as_str(), folder) {
            return Some(games[i].display_name.clone());
        }
        i += 1;
    }
    None
}

/// The submenu for something found in the folder of MyMods, if it gets one.
pub fn game_submenu(folder: &GameFolder, games: &Vec<GameInfo>) -> (submenu: Option<GameSubmenu>)
    ensures
        submenu.deep_view() == submenu_for(folder.deep_view(), games.deep_view()),
{
    if !folder.is_dir {
        return None;
    }
    let display_name = match display_name_of(games, folder.name.as_str()) {
        Some(name) => name,
        None => {
            return None;
        },
    };
    let names = match &folder.files {
        Some(files) => pack_files_of(files),
        None => {
            return None;
        },
    };
    if names.len() == 0 {
        return None;
    }
    let mods = sort_names(names);
    Some(GameSubmenu { game_folder_name: folder.name.clone(), display_name, mods })
}

/// Builds the MyMod menu for the session. `mymods_base_path_is_dir` is
/// `None` where no folder of MyMods is configured, and else says whether the
/// folder exists. `game_folders` is what that folder holds, or `None` where
/// it could not be read; `games` are the games that the editor knows.
pub fn build_my_mod_menu(
    session: &Session,
    mymods_base_path_is_dir: Option<bool>,
    game_folders: Option<Vec<GameFolder>>,
    games: &Vec<GameInfo>,
) -> (menu: MyModMenu)
    ensures
        menu.deep_view() == my_mod_menu(
            session.mode_view() is MyMod,
            mymods_base_path_is_dir,
            game_folders.deep_view(),
            games.deep_view(),
        ),
{
    let mut submenus: Vec<GameSubmenu> = Vec::new();
    match &game_folders {
        Some(folders) => {
            let mut i: usize = 0;
            proof {
                assert(folders.deep_view().take(0) =~= Seq::<GameFolderView>::empty());
                assert(submenus.deep_view() =~= Seq::<GameSubmenuView>::empty());
            }
            while i < folders.len()
                invariant
                    i <= folders.len(),
                    submenus.deep_view() == submenus_for(
                        folders.deep_view().take(i as int),
                        games.deep_view(),
                    ),
                decreases folders.len() - i,
            {
                proof {
                    let done = folders.deep_view().take(i + 1);
                    assert(done.drop_last() =~= folders.deep_view().take(i as int));
                    assert(done.last() == folders[i as int].deep_view());
                }
                match game_submenu(&folders[i], games) {
                    Some(submenu) => {
                        let ghost before = submenus.deep_view();
                        submenus.push(submenu);
                        assert(submenus.deep_view() =~= before.push(submenu.deep_view()));
                    },
                    None => {},
                }
                i += 1;
            }
            assert(folders.deep_view().take(folders.len() as int) == folders.deep_view());
        },
        None => {
            assert(submenus.deep_view() =~= Seq::<GameSubmenuView>::empty());
        },
    }
    let in_my_mod_mode = match &session.mode {
        Mode::MyMod { .. } => true,
        Mode::Normal => false,
    };
    let new_mymod = match mymods_base_path_is_dir {
        Some(is_dir) => is_dir,
        None => false,
    };
    MyModMenu {
        new_mymod,
        delete_selected_mymod: in_my_mod_mode,
        install_mymod: in_my_mod_mode,
        uninstall_mymod: in_my_mod_mode,
        submenus,
    }
}

/// The two submenus of PackFiles to open: those of the content folder of the
/// selected game and those of its data folder. Each entry has the name of
/// the file and its place on disk.
#[derive(Debug, PartialEq, Eq)]
pub struct OpenFromSubmenus {
    pub content: Vec<(String, Vec<String>)>,
    pub data: Vec<(String, Vec<String>)>,
    pub content_visible: bool,
    pub data_visible: bool,
}

/// The places on disk, each with the name of its file.
pub open spec fn labelled(paths: Seq<Seq<Seq<char>>>) -> Seq<(Seq<char>, Seq<Seq<char>>)> {
    paths.map_values(|path: Seq<Seq<char>>| (path.last(), path))
}

/// `entries` list the PackFiles at `paths`, each once for each time it is
/// among `paths`, by rising name of the file. There are none for no paths.
pub open spec fn lists_pack_files(
    entries: Seq<(Seq<char>, Seq<Seq<char>>)>,
    paths: Option<Seq<Seq<Seq<char>>>>,
) -> bool {
    match paths {
        Some(paths) => sorted_by_name(entries) && entries.to_multiset() == labelled(
            paths,
        ).to_multiset(),
        None => entries.len() == 0,
    }
}

/// The entries of one submenu of PackFiles to open.
fn pack_file_entries(paths: Option<Vec<Vec<String>>>) -> (entries: Vec<(String, Vec<String>)>)
    requires
        paths matches Some(list) ==> forall|i: int| 0 <= i < list.len() ==> (#[trigger] list[i]).len() >= 1,
    ensures
        lists_pack_files(entries.deep_view(), paths.deep_view()),
{
    match paths {
        None => {
            let entries: Vec<(String, Vec<String>)> = Vec::new();
            assert(entries.deep_view() =~= Seq::empty());
            entries
        },
        Some(list) => {
            let mut entries: Vec<(String, Vec<String>)> = Vec::new();
            let mut i: usize = 0;
            while i < list.len()
                invariant
                    i <= list.len(),
                    forall|j: int| 0 <= j < list.len() ==> (#[trigger] list[j]).len() >= 1,
                    entries.len() == i,
                    forall|j: int|
                        0 <= j < i ==> (#[trigger] entries.deep_view()[j]) == (
                            list.deep_view()[j].last(),
                            list.deep_view()[j],
                        ),
                decreases list.len() - i,
            {
                let path = &list[i];
                let name = path[path.len() - 1].clone();
                let ghost before = entries.deep_view();
                let copy = clone_path(path);
                entries.push((name, copy));
                proof {
                    assert(entries.deep_view() =~= before.push((name@, copy.deep_view())));
                    assert(list.deep_view()[i as int] == path.deep_view());
                    assert(name@ == path.deep_view().last());
                }
                i += 1;
            }
            assert(entries.deep_view() =~= labelled(list.deep_view()));
            sort_by_name(entries)
        },
    }
}

/// Builds the two submenus of PackFiles to open from the PackFiles found in
/// the content folder and in the data folder of the selected game; `None`
/// stands for a folder that is not configured. A submenu is shown where it
/// has entries.
pub fn build_open_from_submenus(
    content_paths: Option<Vec<Vec<String>>>,
    data_paths: Option<Vec<Vec<String>>>,
) -> (menus: OpenFromSubmenus)
    requires
        content_paths matches Some(list) ==> forall|i: int|
            0 <= i < list.len() ==> (#[trigger] list[i]).len() >= 1,
        data_paths matches Some(list) ==> forall|i: int|
            0 <= i < list.len() ==> (#[trigger] list[i]).len() >= 1,
    ensures
        lists_pack_files(menus.content.deep_view(), content_paths.deep_view()),
        lists_pack_files(menus.data.deep_view(), data_paths.deep_view()),
        menus.content_visible == (menus.content.len() > 0),
        menus.data_visible == (menus.data.len() > 0),
{
    let content = pack_file_entries(content_paths);
    let data = pack_file_entries(data_paths);
    let content_visible = content.len() > 0;
    let data_visible = data.len() > 0;
    OpenFromSubmenus { content, data, content_visible, data_visible }
}

} // verus!
