//! Looking up the file a download is about.
use vstd::prelude::*;

use crate::types::files::File;
use crate::types::id::{FileId, GameId, ModId};
use crate::util::download::error::{Error, ErrorKind};

verus! {

/// What a download needs to know of its file.
///
/// The URL is kept as text, in the form a URL parser writes it.
#[derive(Debug)]
pub struct Info {
    pub file_id: FileId,
    pub download_url: String,
    pub filesize: u64,
    pub filesize_uncompressed: u64,
    pub filehash: String,
}

impl Info {
    /// The download information of a file: its ID, the URL its binary is
    /// downloaded from, its sizes and its MD5 hash.
    pub fn of_file(file: File) -> (r: Self)
        ensures
            r.file_id == file.id,
            r.download_url@ == file.download.binary_url@,
            r.filesize == file.filesize,
            r.filesize_uncompressed == file.filesize_uncompressed,
            r.filehash@ == file.filehash.md5@,
    {
        Info {
            file_id: file.id,
            download_url: file.download.binary_url,
            filesize: file.filesize,
            filesize_uncompressed: file.filesize_uncompressed,
            filehash: file.filehash.md5,
        }
    }
}

/// The lookup of a mod's primary file: the mod is requested, the status of
/// the response is checked, then the mod is read and its primary file taken.
pub struct GetPrimaryFile {
    game_id: GameId,
    mod_id: ModId,
}

impl GetPrimaryFile {
    /// The game of the mod.
    pub closed spec fn game(&self) -> GameId {
        self.game_id
    }

    /// The mod whose primary file is looked up.
    pub closed spec fn mod_(&self) -> ModId {
        self.mod_id
    }

    pub fn new(game_id: GameId, mod_id: ModId) -> (r: Self)
        ensures
            r.game() == game_id,
            r.mod_() == mod_id,
    {
        GetPrimaryFile { game_id, mod_id }
    }

    /// What the status of the mod's response decides: `404 Not Found` ends
    /// the lookup with [`ErrorKind::ModNotFound`]; any other status goes on
    /// to read the mod.
    pub fn on_status<S>(&self, status: u16) -> (r: Option<Error<S>>)
        ensures
            r is Some <==> status == 404,
            r matches Some(e) ==> e.spec_kind() == (ErrorKind::ModNotFound {
                game_id: self.game(),
                mod_id: self.mod_(),
            }) && !e.has_source(),
    {
        if status == 404 {
            Some(Error::new(ErrorKind::ModNotFound { game_id: self.game_id, mod_id: self.mod_id }))
        } else {
            None
        }
    }

    /// What the mod decides: its primary file, or
    /// [`ErrorKind::NoPrimaryFile`] when it has none.
    pub fn on_mod<F, S>(&self, modfile: Option<F>) -> (r: Result<F, Error<S>>)
        ensures
            modfile matches Some(f) ==> r == Ok::<F, Error<S>>(f),
            modfile is None ==> (r matches Err(e) && e.spec_kind() == (ErrorKind::NoPrimaryFile {
                game_id: self.game(),
                mod_id: self.mod_(),
            }) && !e.has_source()),
    {
        match modfile {
            Some(f) => Ok(f),
            None => Err(
                Error::new(ErrorKind::NoPrimaryFile { game_id: self.game_id, mod_id: self.mod_id }),
            ),
        }
    }
}

} // verus!
