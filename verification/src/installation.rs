//! Where things live under the game's base directory.

use crate::path::{joined, parent_of, path_join, path_parent};
use vstd::prelude::*;

verus! {

/// The number under which the game's distribution platform lists the game.
pub const DBSZ_APP_ID: u32 = 1790600;

/// The directory for binaries under the base directory `root`.
pub open spec fn binaries_root(root: Seq<char>) -> Seq<char> {
    joined(joined(root, "Binaries"@), "Win64"@)
}

/// The directory for pak archives under the base directory `root`.
pub open spec fn paks_root(root: Seq<char>) -> Seq<char> {
    joined(joined(root, "Content"@), "Paks"@)
}

/// The directory for plugin mods under the base directory `root`.
pub open spec fn mods_root(root: Seq<char>) -> Seq<char> {
    joined(root, "Mods"@)
}

/// The directory for pak mods under the base directory `root`.
pub open spec fn pak_mods_root(root: Seq<char>) -> Seq<char> {
    joined(paks_root(root), "~mods"@)
}

/// The path that stands for the game inside the directory `app_dir` that the
/// game was installed to.
pub open spec fn game_path_in(app_dir: Seq<char>) -> Seq<char> {
    joined(app_dir, "SparkingZERO"@)
}

/// The game's base directory.
#[derive(Debug)]
pub struct DBSZInstallation {
    pub root: String,
}

impl View for DBSZInstallation {
    type V = Seq<char>;

    open spec fn view(&self) -> Seq<char> {
        self.root@
    }
}

/// The given game path has no parent directory, so it names no installation.
#[derive(Debug, Clone, PartialEq, Eq)]
pub struct NoParentDirectory {
    pub path: String,
}

impl DBSZInstallation {
    /// The installation whose base directory is the parent of `game`. Fails
    /// exactly where `game` has no parent.
    pub fn from_game_path(game: &str) -> (found: Result<Self, NoParentDirectory>)
        ensures
            match found {
                Ok(installation) => parent_of(game@) == Some(installation@),
                Err(e) => parent_of(game@) is None && e.path@ == game@,
            },
    {
        match path_parent(game) {
            Some(root) => Ok(Self { root }),
            None => Err(NoParentDirectory { path: game.to_owned() }),
        }
    }

    /// The installation of the game that was installed to `app_dir`, if the
    /// game's path there names one.
    pub fn from_app_dir(app_dir: &str) -> (found: Option<Self>)
        ensures
            match found {
                Some(installation) => parent_of(game_path_in(app_dir@)) == Some(installation@),
                None => parent_of(game_path_in(app_dir@)) is None,
            },
    {
        let game = path_join(app_dir, "SparkingZERO");
        match Self::from_game_path(game.as_str()) {
            Ok(installation) => Some(installation),
            Err(_) => None,
        }
    }

    /// `Binaries/Win64` under the base directory.
    pub fn binaries_directory(&self) -> (path: String)
        ensures
            path@ == binaries_root(self@),
    {
        path_join(path_join(self.root.as_str(), "Binaries").as_str(), "Win64")
    }

    /// `Content/Paks` under the base directory.
    pub fn paks_path(&self) -> (path: String)
        ensures
            path@ == paks_root(self@),
    {
        path_join(path_join(self.root.as_str(), "Content").as_str(), "Paks")
    }

    /// `Mods` under the base directory.
    pub fn mods_path(&self) -> (path: String)
        ensures
            path@ == mods_root(self@),
    {
        path_join(self.root.as_str(), "Mods")
    }

    /// `~mods` under the pak directory.
    pub fn pak_mods_path(&self) -> (path: String)
        ensures
            path@ == pak_mods_root(self@),
    {
        path_join(self.paks_path().as_str(), "~mods")
    }
}

} // verus!
