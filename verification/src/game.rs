//! The games whose PackFiles the editor handles, with what each supports, and
//! the choice of a game for a PackFile that was opened.

use crate::text::str_eq;
use vstd::prelude::*;
use vstd::string::*;

verus! {

/// A supported game.
#[derive(Clone, Copy, PartialEq, Eq, Structural, Debug)]
pub enum Game {
    ThreeKingdoms,
    Warhammer2,
    Warhammer,
    ThronesOfBritannia,
    Attila,
    Rome2,
    Shogun2,
    Napoleon,
    Empire,
    Arena,
}

/// The version tag in the header of a PackFile.
#[derive(Clone, Copy, PartialEq, Eq, Structural, Debug)]
pub enum PFHVersion {
    PFH5,
    PFH4,
    PFH3,
    PFH0,
}

/// The name of the folder in which a game keeps its files.
pub open spec fn folder_name_of(game: Game) -> Seq<char> {
    match game {
        Game::ThreeKingdoms => "three_kingdoms"@,
        Game::Warhammer2 => "warhammer_2"@,
        Game::Warhammer => "warhammer"@,
        Game::ThronesOfBritannia => "thrones_of_britannia"@,
        Game::Attila => "attila"@,
        Game::Rome2 => "rome_2"@,
        Game::Shogun2 => "shogun_2"@,
        Game::Napoleon => "napoleon"@,
        Game::Empire => "empire"@,
        Game::Arena => "arena"@,
    }
}

/// The game of a MyMod kept in the folder `folder`: the game of that folder
/// name. Arena has no MyMods; its folder, like every unknown one, stands for
/// Empire.
pub open spec fn my_mod_game_of(folder: Seq<char>) -> Game {
    if folder == "three_kingdoms"@ {
        Game::ThreeKingdoms
    } else if folder == "warhammer_2"@ {
        Game::Warhammer2
    } else if folder == "warhammer"@ {
        Game::Warhammer
    } else if folder == "thrones_of_britannia"@ {
        Game::ThronesOfBritannia
    } else if folder == "attila"@ {
        Game::Attila
    } else if folder == "rome_2"@ {
        Game::Rome2
    } else if folder == "shogun_2"@ {
        Game::Shogun2
    } else if folder == "napoleon"@ {
        Game::Napoleon
    } else {
        Game::Empire
    }
}

/// The game selected for a PackFile that was opened outside any MyMod, from
/// the version of its header and the game selected until now. Where several
/// games share a version the selected one is kept if it is among them, and
/// the newest of them is taken otherwise.
pub open spec fn game_for_version(
    version: PFHVersion,
    has_extended_header: bool,
    current: Game,
) -> Game {
    match version {
        PFHVersion::PFH5 => if has_extended_header {
            Game::Arena
        } else if current == Game::ThreeKingdoms {
            Game::ThreeKingdoms
        } else {
            Game::Warhammer2
        },
        PFHVersion::PFH4 => if current == Game::Warhammer || current == Game::ThronesOfBritannia
            || current == Game::Attila {
            current
        } else {
            Game::Rome2
        },
        PFHVersion::PFH3 => Game::Shogun2,
        PFHVersion::PFH0 => if current == Game::Napoleon {
            Game::Napoleon
        } else {
            Game::Empire
        },
    }
}

/// The games that share the header version `version`.
pub open spec fn games_of_version(version: PFHVersion, has_extended_header: bool) -> Set<Game> {
    match version {
        PFHVersion::PFH5 => if has_extended_header {
            set![Game::Arena]
        } else {
            set![Game::ThreeKingdoms, Game::Warhammer2]
        },
        PFHVersion::PFH4 => set![
            Game::Warhammer,
            Game::ThronesOfBritannia,
            Game::Attila,
            Game::Rome2,
        ],
        PFHVersion::PFH3 => set![Game::Shogun2],
        PFHVersion::PFH0 => set![Game::Napoleon, Game::Empire],
    }
}

/// The game taken for a header version where the selected game has another
/// version.
pub open spec fn default_game_of_version(version: PFHVersion, has_extended_header: bool) -> Game {
    match version {
        PFHVersion::PFH5 => if has_extended_header {
            Game::Arena
        } else {
            Game::Warhammer2
        },
        PFHVersion::PFH4 => Game::Rome2,
        PFHVersion::PFH3 => Game::Shogun2,
        PFHVersion::PFH0 => Game::Empire,
    }
}

/// The game chosen for a version is the selected game where that game has
/// the version, and the default game of the version otherwise.
pub proof fn lemma_game_for_version(version: PFHVersion, has_extended_header: bool, current: Game)
    ensures
        games_of_version(version, has_extended_header).contains(
            game_for_version(version, has_extended_header, current),
        ),
        game_for_version(version, has_extended_header, current) == if games_of_version(
            version,
            has_extended_header,
        ).contains(current) {
            current
        } else {
            default_game_of_version(version, has_extended_header)
        },
{
}

impl Game {
    /// The name of the folder in which the game keeps its files.
    pub fn folder_name(self) -> (name: &'static str)
        ensures
            name@ == folder_name_of(self),
    {
        match self {
            Game::ThreeKingdoms => "three_kingdoms",
            Game::Warhammer2 => "warhammer_2",
            Game::Warhammer => "warhammer",
            Game::ThronesOfBritannia => "thrones_of_britannia",
            Game::Attila => "attila",
            Game::Rome2 => "rome_2",
            Game::Shogun2 => "shogun_2",
            Game::Napoleon => "napoleon",
            Game::Empire => "empire",
            Game::Arena => "arena",
        }
    }

    /// The game of a MyMod kept in the folder `folder`.
    pub fn for_my_mod_folder(folder: &str) -> (game: Game)
        ensures
            game == my_mod_game_of(folder@),
    {
        if str_eq(folder, "three_kingdoms") {
            Game::ThreeKingdoms
        } else if str_eq(folder, "warhammer_2") {
            Game::Warhammer2
        } else if str_eq(folder, "warhammer") {
            Game::Warhammer
        } else if str_eq(folder, "thrones_of_britannia") {
            Game::ThronesOfBritannia
        } else if str_eq(folder, "attila") {
            Game::Attila
        } else if str_eq(folder, "rome_2") {
            Game::Rome2
        } else if str_eq(folder, "shogun_2") {
            Game::Shogun2
        } else if str_eq(folder, "napoleon") {
            Game::Napoleon
        } else {
            Game::Empire
        }
    }

    /// The game selected for a PackFile that was opened outside any MyMod.
    pub fn for_version(version: PFHVersion, has_extended_header: bool, current: Game) -> (game:
        Game)
        ensures
            game == game_for_version(version, has_extended_header, current),
    {
        match version {
            PFHVersion::PFH5 => {
                if has_extended_header {
                    Game::Arena
                } else {
                    match current {
                        Game::ThreeKingdoms => Game::ThreeKingdoms,
                        _ => Game::Warhammer2,
                    }
                }
            },
            PFHVersion::PFH4 => {
                match current {
                    Game::Warhammer => Game::Warhammer,
                    Game::ThronesOfBritannia => Game::ThronesOfBritannia,
                    Game::Attila => Game::Attila,
                    _ => Game::Rome2,
                }
            },
            PFHVersion::PFH3 => Game::Shogun2,
            PFHVersion::PFH0 => {
                match current {
                    Game::Napoleon => Game::Napoleon,
                    _ => Game::Empire,
                }
            },
        }
    }

    /// Whether PackFiles of the game can be made and saved. Those of Arena
    /// can only be read.
    pub open spec fn can_edit(self) -> bool {
        self != Game::Arena
    }

    /// Whether the data of a PackFile of the game can be compressed.
    pub open spec fn can_compress(self) -> bool {
        self == Game::ThreeKingdoms || self == Game::Warhammer2
    }

    /// Whether the siege AI of the game can be patched.
    pub open spec fn can_patch_siege_ai(self) -> bool {
        self == Game::Warhammer2 || self == Game::Warhammer
    }

    /// Whether the game has an assembly kit: Rome 2 and the games after it.
    pub open spec fn has_kit(self) -> bool {
        self == Game::ThreeKingdoms || self == Game::Warhammer2 || self == Game::Warhammer || self
            == Game::ThronesOfBritannia || self == Game::Attila || self == Game::Rome2
    }

    /// Whether PackFiles of the game can be made and saved.
    pub fn supports_editing(self) -> (yes: bool)
        ensures
            yes == self.can_edit(),
    {
        match self {
            Game::Arena => false,
            _ => true,
        }
    }

    /// Whether the data of a PackFile of the game can be compressed.
    pub fn supports_compression(self) -> (yes: bool)
        ensures
            yes == self.can_compress(),
    {
        match self {
            Game::ThreeKingdoms | Game::Warhammer2 => true,
            _ => false,
        }
    }

    /// Whether the siege AI of the game can be patched.
    pub fn has_siege_ai_patch(self) -> (yes: bool)
        ensures
            yes == self.can_patch_siege_ai(),
    {
        match self {
            Game::Warhammer2 | Game::Warhammer => true,
            _ => false,
        }
    }

    /// Whether the game has an assembly kit.
    pub fn has_assembly_kit(self) -> (yes: bool)
        ensures
            yes == self.has_kit(),
    {
        match self {
            Game::ThreeKingdoms
            | Game::Warhammer2
            | Game::Warhammer
            | Game::ThronesOfBritannia
            | Game::Attila
            | Game::Rome2 => true,
            _ => false,
        }
    }
}

} // verus!
