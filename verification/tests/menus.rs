use rpfm_ui::filter::{filter_files, filter_matches_result, TreeFilter};
use rpfm_ui::game::Game;
use rpfm_ui::menus::{
    build_my_mod_menu, build_open_from_submenus, display_name_of, game_submenu,
    has_pack_extension, pack_files_of, FolderFile, GameFolder, GameInfo, GameSubmenu, MyModMenu,
};
use rpfm_ui::packfile_actions::{enable_packfile_actions, set_special_actions};
use rpfm_ui::session::{set_my_mod_mode, Session};
use rpfm_ui::table_state::FilterState;
use rpfm_ui::ui::{Control, UiAction};

fn menus_path(parts: &[&str]) -> Vec<String> {
    parts.iter().map(|part| part.to_string()).collect()
}

fn menus_games() -> Vec<GameInfo> {
    vec![
        GameInfo {
            folder_name: "warhammer_2".to_owned(),
            display_name: "Warhammer 2".to_owned(),
            supports_editing: true,
        },
        GameInfo {
            folder_name: "arena".to_owned(),
            display_name: "Arena".to_owned(),
            supports_editing: false,
        },
        GameInfo {
            folder_name: "attila".to_owned(),
            display_name: "Attila".to_owned(),
            supports_editing: true,
        },
    ]
}

fn menus_file(name: &str, is_file: bool) -> FolderFile {
    FolderFile { name: name.to_owned(), is_file }
}

fn menus_folder(name: &str, is_dir: bool, files: Option<Vec<FolderFile>>) -> GameFolder {
    GameFolder { name: name.to_owned(), is_dir, files }
}

#[test]
fn a_pack_file_has_the_extension_pack() {
    for name in ["a.pack", "a.b.pack", "..pack", "ä.pack", " .pack"] {
        assert!(has_pack_extension(name), "{name}");
    }
    for name in [".pack", "pack", "a.pack.bak", "a.PACK", "apack", "", "a.pac", "a.packs"] {
        assert!(!has_pack_extension(name), "{name}");
    }
}

#[test]
fn has_pack_extension_agrees_with_std() {
    for name in ["a.pack", ".pack", "..pack", "a", "a.b", "x.pack.pack", "pack", "a.pack."] {
        let expected = std::path::Path::new(name)
            .extension()
            .map(|extension| extension == "pack")
            .unwrap_or(false);
        assert_eq!(has_pack_extension(name), expected, "{name}");
    }
}

#[test]
fn only_files_with_the_extension_are_pack_files() {
    let files = vec![
        menus_file("b.pack", true),
        menus_file("folder.pack", false),
        menus_file("readme.txt", true),
        menus_file("a.pack", true),
        menus_file("assets", false),
    ];
    assert_eq!(pack_files_of(&files), menus_path(&["b.pack", "a.pack"]));
    assert!(pack_files_of(&Vec::new()).is_empty());
}

#[test]
fn a_game_is_shown_under_the_name_of_the_first_that_can_be_edited() {
    let mut games = menus_games();
    games.push(GameInfo {
        folder_name: "attila".to_owned(),
        display_name: "Attila again".to_owned(),
        supports_editing: true,
    });
    games.push(GameInfo {
        folder_name: "arena".to_owned(),
        display_name: "Arena, editable".to_owned(),
        supports_editing: true,
    });
    assert_eq!(display_name_of(&games, "attila"), Some("Attila".to_owned()));
    assert_eq!(display_name_of(&games, "arena"), Some("Arena, editable".to_owned()));
    assert_eq!(display_name_of(&games, "warhammer"), None);
    assert_eq!(display_name_of(&games, "Attila"), None);
    assert_eq!(display_name_of(&menus_games(), "arena"), None);
    assert_eq!(display_name_of(&Vec::new(), "attila"), None);
}

#[test]
fn a_game_with_my_mods_gets_a_submenu_with_its_pack_files_by_name() {
    let folder = menus_folder(
        "attila",
        true,
        Some(vec![
            menus_file("zeta.pack", true),
            menus_file("alpha", false),
            menus_file("alpha.pack", true),
            menus_file("Beta.pack", true),
            menus_file("notes.txt", true),
        ]),
    );
    assert_eq!(
        game_submenu(&folder, &menus_games()),
        Some(GameSubmenu {
            game_folder_name: "attila".to_owned(),
            display_name: "Attila".to_owned(),
            mods: menus_path(&["Beta.pack", "alpha.pack", "zeta.pack"]),
        })
    );
}

#[test]
fn no_submenu_without_folder_game_or_pack_file() {
    let games = menus_games();
    let files = || Some(vec![menus_file("a.pack", true)]);
    assert_eq!(game_submenu(&menus_folder("attila", false, files()), &games), None);
    assert_eq!(game_submenu(&menus_folder("arena", true, files()), &games), None);
    assert_eq!(game_submenu(&menus_folder("unknown", true, files()), &games), None);
    assert_eq!(game_submenu(&menus_folder("attila", true, None), &games), None);
    assert_eq!(game_submenu(&menus_folder("attila", true, Some(Vec::new())), &games), None);
    assert_eq!(
        game_submenu(
            &menus_folder("attila", true, Some(vec![menus_file("a.pack", false)])),
            &games
        ),
        None
    );
    assert!(game_submenu(&menus_folder("attila", true, files()), &games).is_some());
}

#[test]
fn the_my_mod_menu_lists_the_games_in_the_order_of_their_folders() {
    let session = Session::new(Game::Attila, false);
    let folders = vec![
        menus_folder("warhammer_2", true, Some(vec![menus_file("w.pack", true)])),
        menus_folder("arena", true, Some(vec![menus_file("never.pack", true)])),
        menus_folder("readme.txt", false, None),
        menus_folder("attila", true, Some(vec![menus_file("b.pack", true), menus_file("a.pack", true)])),
        menus_folder("empire", true, Some(vec![menus_file("e.pack", true)])),
    ];
    let menu = build_my_mod_menu(&session, Some(true), Some(folders), &menus_games());
    assert_eq!(
        menu,
        MyModMenu {
            new_mymod: true,
            delete_selected_mymod: false,
            install_mymod: false,
            uninstall_mymod: false,
            submenus: vec![
                GameSubmenu {
                    game_folder_name: "warhammer_2".to_owned(),
                    display_name: "Warhammer 2".to_owned(),
                    mods: menus_path(&["w.pack"]),
                },
                GameSubmenu {
                    game_folder_name: "attila".to_owned(),
                    display_name: "Attila".to_owned(),
                    mods: menus_path(&["a.pack", "b.pack"]),
                },
            ],
        }
    );
}

#[test]
fn the_actions_of_the_my_mod_menu_follow_mode_and_folder() {
    let mut session = Session::new(Game::Attila, false);
    for (base, new_mymod) in [(None, false), (Some(false), false), (Some(true), true)] {
        let menu = build_my_mod_menu(&session, base, None, &menus_games());
        assert_eq!(
            menu,
            MyModMenu {
                new_mymod,
                delete_selected_mymod: false,
                install_mymod: false,
                uninstall_mymod: false,
                submenus: Vec::new(),
            }
        );
    }
    set_my_mod_mode(&mut session, Some(menus_path(&["attila", "a.pack"])));
    let menu = build_my_mod_menu(&session, None, Some(Vec::new()), &menus_games());
    assert_eq!(
        menu,
        MyModMenu {
            new_mymod: false,
            delete_selected_mymod: true,
            install_mymod: true,
            uninstall_mymod: true,
            submenus: Vec::new(),
        }
    );
}

#[test]
fn the_submenus_to_open_from_list_the_pack_files_by_name() {
    let content = vec![
        menus_path(&["content", "123", "zeta.pack"]),
        menus_path(&["content", "456", "alpha.pack"]),
    ];
    let data = vec![
        menus_path(&["data", "b.pack"]),
        menus_path(&["data", "a.pack"]),
        menus_path(&["data", "c.pack"]),
    ];
    let menus = build_open_from_submenus(Some(content), Some(data));
    assert_eq!(
        menus.content,
        vec![
            ("alpha.pack".to_owned(), menus_path(&["content", "456", "alpha.pack"])),
            ("zeta.pack".to_owned(), menus_path(&["content", "123", "zeta.pack"])),
        ]
    );
    assert_eq!(
        menus.data,
        vec![
            ("a.pack".to_owned(), menus_path(&["data", "a.pack"])),
            ("b.pack".to_owned(), menus_path(&["data", "b.pack"])),
            ("c.pack".to_owned(), menus_path(&["data", "c.pack"])),
        ]
    );
    assert!(menus.content_visible);
    assert!(menus.data_visible);
}

#[test]
fn pack_files_of_one_name_are_all_listed() {
    let content = vec![
        menus_path(&["content", "2", "same.pack"]),
        menus_path(&["content", "1", "same.pack"]),
        menus_path(&["content", "3", "other.pack"]),
    ];
    let menus = build_open_from_submenus(Some(content.clone()), None);
    let names: Vec<&str> = menus.content.iter().map(|entry| entry.0.as_str()).collect();
    assert_eq!(names, vec!["other.pack", "same.pack", "same.pack"]);
    let mut paths: Vec<Vec<String>> = menus.content.iter().map(|entry| entry.1.clone()).collect();
    paths.sort();
    let mut expected = content;
    expected.sort();
    assert_eq!(paths, expected);
}

#[test]
fn a_submenu_without_entries_is_hidden() {
    let menus = build_open_from_submenus(None, Some(Vec::new()));
    assert!(menus.content.is_empty());
    assert!(menus.data.is_empty());
    assert!(!menus.content_visible);
    assert!(!menus.data_visible);
    let menus = build_open_from_submenus(Some(vec![menus_path(&["a.pack"])]), None);
    assert!(menus.content_visible);
    assert!(!menus.data_visible);
}

#[test]
fn the_special_actions_of_a_game() {
    assert_eq!(
        set_special_actions(Game::Warhammer, true),
        vec![
            UiAction::SetEnabled(Control::PatchSiegeAI(Game::Warhammer), true),
            UiAction::SetEnabled(Control::OptimizePackFile(Game::Warhammer), true),
            UiAction::SetEnabled(Control::GeneratePakFile(Game::Warhammer), true),
        ]
    );
    assert_eq!(
        set_special_actions(Game::Shogun2, false),
        vec![
            UiAction::SetEnabled(Control::OptimizePackFile(Game::Shogun2), false),
            UiAction::SetEnabled(Control::GeneratePakFile(Game::Shogun2), false),
        ]
    );
    assert!(set_special_actions(Game::Arena, true).is_empty());
}

#[test]
fn with_a_pack_file_open_the_menu_bar_fits_the_selected_game() {
    let session = Session::new(Game::Warhammer2, false);
    assert_eq!(
        enable_packfile_actions(&session, Some(true), true),
        vec![
            UiAction::SetEnabled(Control::NewPackFile, true),
            UiAction::SetEnabled(Control::SavePackFile, true),
            UiAction::SetEnabled(Control::SavePackFileAs, true),
            UiAction::SetEnabled(Control::NewMyMod, true),
            UiAction::SetEnabled(Control::ChangePackFileTypeGroup, true),
            UiAction::SetEnabled(Control::IndexIncludesTimestamp, true),
            UiAction::SetEnabled(Control::DataIsCompressed, true),
            UiAction::SetEnabled(Control::PatchSiegeAI(Game::Warhammer2), true),
            UiAction::SetEnabled(Control::OptimizePackFile(Game::Warhammer2), true),
            UiAction::SetEnabled(Control::GeneratePakFile(Game::Warhammer2), true),
            UiAction::SetEnabled(Control::OpenGameAssemblyKitFolder, true),
        ]
    );
    let session = Session::new(Game::Napoleon, false);
    assert_eq!(
        enable_packfile_actions(&session, Some(false), true),
        vec![
            UiAction::SetEnabled(Control::NewPackFile, true),
            UiAction::SetEnabled(Control::SavePackFile, true),
            UiAction::SetEnabled(Control::SavePackFileAs, true),
            UiAction::SetEnabled(Control::NewMyMod, false),
            UiAction::SetEnabled(Control::ChangePackFileTypeGroup, true),
            UiAction::SetEnabled(Control::IndexIncludesTimestamp, true),
            UiAction::SetEnabled(Control::DataIsCompressed, false),
            UiAction::SetEnabled(Control::OptimizePackFile(Game::Napoleon), true),
            UiAction::SetEnabled(Control::GeneratePakFile(Game::Napoleon), true),
            UiAction::SetEnabled(Control::OpenGameAssemblyKitFolder, false),
        ]
    );
}

#[test]
fn without_a_pack_file_the_special_actions_of_every_game_are_disabled() {
    let session = Session::new(Game::Rome2, false);
    let actions = enable_packfile_actions(&session, None, false);
    let mut expected = vec![
        UiAction::SetEnabled(Control::NewPackFile, true),
        UiAction::SetEnabled(Control::SavePackFile, false),
        UiAction::SetEnabled(Control::SavePackFileAs, false),
        UiAction::SetEnabled(Control::NewMyMod, false),
        UiAction::SetEnabled(Control::ChangePackFileTypeGroup, false),
        UiAction::SetEnabled(Control::IndexIncludesTimestamp, false),
        UiAction::SetEnabled(Control::DataIsCompressed, false),
        UiAction::SetEnabled(Control::OptimizePackFile(Game::ThreeKingdoms), false),
        UiAction::SetEnabled(Control::GeneratePakFile(Game::ThreeKingdoms), false),
        UiAction::SetEnabled(Control::PatchSiegeAI(Game::Warhammer2), false),
        UiAction::SetEnabled(Control::OptimizePackFile(Game::Warhammer2), false),
        UiAction::SetEnabled(Control::GeneratePakFile(Game::Warhammer2), false),
        UiAction::SetEnabled(Control::PatchSiegeAI(Game::Warhammer), false),
        UiAction::SetEnabled(Control::OptimizePackFile(Game::Warhammer), false),
        UiAction::SetEnabled(Control::GeneratePakFile(Game::Warhammer), false),
    ];
    for game in [
        Game::ThronesOfBritannia,
        Game::Attila,
        Game::Rome2,
        Game::Shogun2,
        Game::Napoleon,
        Game::Empire,
    ] {
        expected.push(UiAction::SetEnabled(Control::OptimizePackFile(game), false));
        expected.push(UiAction::SetEnabled(Control::GeneratePakFile(game), false));
    }
    expected.push(UiAction::SetEnabled(Control::OpenGameAssemblyKitFolder, true));
    assert_eq!(actions, expected);
}

#[test]
fn arena_can_neither_make_nor_save_pack_files() {
    let session = Session::new(Game::Arena, false);
    assert_eq!(
        enable_packfile_actions(&session, Some(true), true),
        vec![
            UiAction::SetEnabled(Control::NewPackFile, false),
            UiAction::SetEnabled(Control::SavePackFile, false),
            UiAction::SetEnabled(Control::SavePackFileAs, false),
            UiAction::SetEnabled(Control::NewMyMod, false),
            UiAction::SetEnabled(Control::ChangePackFileTypeGroup, true),
            UiAction::SetEnabled(Control::IndexIncludesTimestamp, true),
            UiAction::SetEnabled(Control::OpenGameAssemblyKitFolder, false),
        ]
    );
    let actions = enable_packfile_actions(&session, Some(true), false);
    assert_eq!(actions.len(), 4 + 2 + 1 + 2 + 3 + 3 + 6 * 2 + 1);
    assert_eq!(actions[0], UiAction::SetEnabled(Control::NewPackFile, false));
    assert_eq!(actions[6], UiAction::SetEnabled(Control::DataIsCompressed, false));
}

#[test]
fn a_filter_takes_what_came_with_the_request() {
    let filter =
        filter_matches_result(Some("given".to_owned()), Some(4), Some(true), "widget", 2, false);
    assert_eq!(filter, FilterState::new("given".to_owned(), 4, true));
    let filter = filter_matches_result(Some(String::new()), Some(0), Some(false), "widget", 2, true);
    assert_eq!(filter, FilterState::new(String::new(), 0, false));
}

#[test]
fn a_filter_takes_from_the_widgets_what_did_not_come() {
    let filter = filter_matches_result(None, None, None, "widget", 2, true);
    assert_eq!(filter, FilterState::new("widget".to_owned(), 2, true));
    let filter = filter_matches_result(None, Some(7), None, "widget", 2, false);
    assert_eq!(filter, FilterState::new("widget".to_owned(), 7, false));
    let filter = filter_matches_result(Some("p".to_owned()), None, Some(false), "widget", -1, true);
    assert_eq!(filter, FilterState::new("p".to_owned(), -1, false));
}

#[test]
fn the_filter_of_the_tree_is_what_its_widgets_show() {
    assert_eq!(
        filter_files("units", true, false, true),
        TreeFilter {
            pattern: "units".to_owned(),
            is_case_sensitive: false,
            filter_by_folder: true,
            expand_all: true,
        }
    );
    assert_eq!(
        filter_files("", false, true, false),
        TreeFilter {
            pattern: String::new(),
            is_case_sensitive: true,
            filter_by_folder: false,
            expand_all: false,
        }
    );
}
