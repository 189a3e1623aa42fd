//! The errors that the session reports to the user.

use crate::archive_path::clone_path;
use vstd::prelude::*;
use vstd::string::*;

verus! {

/// What went wrong, with what the report of it needs.
#[derive(Debug, PartialEq, Eq)]
pub enum ErrorKind {
    /// The entry is open in another view already.
    PackedFileIsOpenInAnotherView,
    /// The view of a localisation entry could not be built.
    LocDecode(String),
    /// The view of a table could not be built.
    DBTableDecode(String),
    /// The view of a text entry could not be built.
    TextDecode(String),
    /// The view of a model could not be built.
    RigidModelDecode(String),
    /// The view of an image could not be built.
    ImageDecode(String),
    /// The PackFile could not be opened.
    OpenPackFileGeneric(String),
    /// The open PackFile has no file on disk yet.
    PackFileIsNotAFile,
    /// The PackFile could not be saved.
    SavePackFileGeneric(String),
    /// The open PackFile cannot be edited, so it cannot be saved.
    PackFileIsNonEditable,
    /// The folder of the game of a new MyMod could not be made.
    IOCreateAssetFolder,
    /// The folder for the assets of a new MyMod could not be made.
    IOCreateNestedAssetFolder,
    /// The PackFile of the MyMod is not on disk.
    MyModPackFileDoesntExist,
    /// These files or folders could not be deleted.
    IOGenericDelete(Vec<Vec<String>>),
    /// The MyMod was deleted, but its assets folder was not found.
    MyModPackFileDeletedFolderNotFound,
    /// No folder for MyMods is configured.
    MyModPathNotConfigured,
    /// No MyMod is selected.
    MyModDeleteWithoutMyModSelected,
    /// The data folder of the game does not exist.
    MyModInstallFolderDoesntExists,
    /// The file could not be copied to this place.
    IOGenericCopy(Vec<String>),
    /// No folder is configured for the selected game.
    GamePathNotConfigured,
    /// The MyMod is not installed.
    MyModNotInstalled,
    /// A name was asked for and none was given.
    EmptyInput,
    /// The PackFile has an entry of that path already.
    FileAlreadyInPackFile,
    /// Any other failure that the document worker reports.
    Generic(String),
}

/// What an [`ErrorKind`] holds, as mathematical values.
pub enum ErrorKindView {
    PackedFileIsOpenInAnotherView,
    LocDecode(Seq<char>),
    DBTableDecode(Seq<char>),
    TextDecode(Seq<char>),
    RigidModelDecode(Seq<char>),
    ImageDecode(Seq<char>),
    OpenPackFileGeneric(Seq<char>),
    PackFileIsNotAFile,
    SavePackFileGeneric(Seq<char>),
    PackFileIsNonEditable,
    IOCreateAssetFolder,
    IOCreateNestedAssetFolder,
    MyModPackFileDoesntExist,
    IOGenericDelete(Seq<Seq<Seq<char>>>),
    MyModPackFileDeletedFolderNotFound,
    MyModPathNotConfigured,
    MyModDeleteWithoutMyModSelected,
    MyModInstallFolderDoesntExists,
    IOGenericCopy(Seq<Seq<char>>),
    GamePathNotConfigured,
    MyModNotInstalled,
    EmptyInput,
    FileAlreadyInPackFile,
    Generic(Seq<char>),
}

impl DeepView for ErrorKind {
    type V = ErrorKindView;

    open spec fn deep_view(&self) -> ErrorKindView {
        match self {
            ErrorKind::PackedFileIsOpenInAnotherView => ErrorKindView::PackedFileIsOpenInAnotherView,
            ErrorKind::LocDecode(m) => ErrorKindView::LocDecode(m@),
            ErrorKind::DBTableDecode(m) => ErrorKindView::DBTableDecode(m@),
            ErrorKind::TextDecode(m) => ErrorKindView::TextDecode(m@),
            ErrorKind::RigidModelDecode(m) => ErrorKindView::RigidModelDecode(m@),
            ErrorKind::ImageDecode(m) => ErrorKindView::ImageDecode(m@),
            ErrorKind::OpenPackFileGeneric(m) => ErrorKindView::OpenPackFileGeneric(m@),
            ErrorKind::PackFileIsNotAFile => ErrorKindView::PackFileIsNotAFile,
            ErrorKind::SavePackFileGeneric(m) => ErrorKindView::SavePackFileGeneric(m@),
            ErrorKind::PackFileIsNonEditable => ErrorKindView::PackFileIsNonEditable,
            ErrorKind::IOCreateAssetFolder => ErrorKindView::IOCreateAssetFolder,
            ErrorKind::IOCreateNestedAssetFolder => ErrorKindView::IOCreateNestedAssetFolder,
            ErrorKind::MyModPackFileDoesntExist => ErrorKindView::MyModPackFileDoesntExist,
            ErrorKind::IOGenericDelete(paths) => ErrorKindView::IOGenericDelete(paths.deep_view()),
            ErrorKind::MyModPackFileDeletedFolderNotFound => {
                ErrorKindView::MyModPackFileDeletedFolderNotFound
            },
            ErrorKind::MyModPathNotConfigured => ErrorKindView::MyModPathNotConfigured,
            ErrorKind::MyModDeleteWithoutMyModSelected => {
                ErrorKindView::MyModDeleteWithoutMyModSelected
            },
            ErrorKind::MyModInstallFolderDoesntExists => {
                ErrorKindView::MyModInstallFolderDoesntExists
            },
            ErrorKind::IOGenericCopy(path) => ErrorKindView::IOGenericCopy(path.deep_view()),
            ErrorKind::GamePathNotConfigured => ErrorKindView::GamePathNotConfigured,
            ErrorKind::MyModNotInstalled => ErrorKindView::MyModNotInstalled,
            ErrorKind::EmptyInput => ErrorKindView::EmptyInput,
            ErrorKind::FileAlreadyInPackFile => ErrorKindView::FileAlreadyInPackFile,
            ErrorKind::Generic(m) => ErrorKindView::Generic(m@),
        }
    }
}

impl Clone for ErrorKind {
    fn clone(&self) -> (copy: Self)
        ensures
            copy.deep_view() == self.deep_view(),
    {
        match self {
            ErrorKind::PackedFileIsOpenInAnotherView => ErrorKind::PackedFileIsOpenInAnotherView,
            ErrorKind::LocDecode(m) => ErrorKind::LocDecode(m.clone()),
            ErrorKind::DBTableDecode(m) => ErrorKind::DBTableDecode(m.clone()),
            ErrorKind::TextDecode(m) => ErrorKind::TextDecode(m.clone()),
            ErrorKind::RigidModelDecode(m) => ErrorKind::RigidModelDecode(m.clone()),
            ErrorKind::ImageDecode(m) => ErrorKind::ImageDecode(m.clone()),
            ErrorKind::OpenPackFileGeneric(m) => ErrorKind::OpenPackFileGeneric(m.clone()),
            ErrorKind::PackFileIsNotAFile => ErrorKind::PackFileIsNotAFile,
            ErrorKind::SavePackFileGeneric(m) => ErrorKind::SavePackFileGeneric(m.clone()),
            ErrorKind::PackFileIsNonEditable => ErrorKind::PackFileIsNonEditable,
            ErrorKind::IOCreateAssetFolder => ErrorKind::IOCreateAssetFolder,
            ErrorKind::IOCreateNestedAssetFolder => ErrorKind::IOCreateNestedAssetFolder,
            ErrorKind::MyModPackFileDoesntExist => ErrorKind::MyModPackFileDoesntExist,
            ErrorKind::IOGenericDelete(paths) => ErrorKind::IOGenericDelete(clone_paths(paths)),
            ErrorKind::MyModPackFileDeletedFolderNotFound => {
                ErrorKind::MyModPackFileDeletedFolderNotFound
            },
            ErrorKind::MyModPathNotConfigured => ErrorKind::MyModPathNotConfigured,
            ErrorKind::MyModDeleteWithoutMyModSelected => {
                ErrorKind::MyModDeleteWithoutMyModSelected
            },
            ErrorKind::MyModInstallFolderDoesntExists => ErrorKind::MyModInstallFolderDoesntExists,
            ErrorKind::IOGenericCopy(path) => ErrorKind::IOGenericCopy(clone_path(path)),
            ErrorKind::GamePathNotConfigured => ErrorKind::GamePathNotConfigured,
            ErrorKind::MyModNotInstalled => ErrorKind::MyModNotInstalled,
            ErrorKind::EmptyInput => ErrorKind::EmptyInput,
            ErrorKind::FileAlreadyInPackFile => ErrorKind::FileAlreadyInPackFile,
            ErrorKind::Generic(m) => ErrorKind::Generic(m.clone()),
        }
    }
}

/// A copy of a list of paths.
pub fn clone_paths(paths: &Vec<Vec<String>>) -> (copy: Vec<Vec<String>>)
    ensures
        copy.deep_view() == paths.deep_view(),
{
    let mut copy: Vec<Vec<String>> = Vec::new();
    let mut i: usize = 0;
    while i < paths.len()
        invariant
            i <= paths.len(),
            copy.len() == i,
            forall|j: int| 0 <= j < i ==> (#[trigger] copy.deep_view()[j]) == paths.deep_view()[j],
        decreases paths.len() - i,
    {
        let one = clone_path(&paths[i]);
        let ghost before = copy.deep_view();
        copy.push(one);
        assert(copy.deep_view() =~= before.push(one.deep_view()));
        i += 1;
    }
    assert(copy.deep_view() =~= paths.deep_view());
    copy
}

} // verus!
