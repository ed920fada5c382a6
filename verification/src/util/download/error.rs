//! The errors of a download.
use vstd::prelude::*;
use vstd::string::*;

use crate::text::{decimal, push_seg2, push_seg3, seg2, seg3};
use crate::types::id::{FileId, GameId, ModId};

verus! {

/// The errors that may occur when downloading a mod file, with their cause
/// of type `S`.
pub struct Error<S> {
    kind: ErrorKind,
    source: Option<S>,
}

/// What went wrong.
#[derive(Debug)]
pub enum ErrorKind {
    Request,
    Body,
    Io,
    /// The mod was not found.
    ModNotFound { game_id: GameId, mod_id: ModId },
    /// The mod has no primary file.
    NoPrimaryFile { game_id: GameId, mod_id: ModId },
    /// The specific file of a mod was not found.
    FileNotFound { game_id: GameId, mod_id: ModId, file_id: FileId },
    /// Multiple files for a given version were found and the policy was to
    /// fail.
    MultipleFilesFound { game_id: GameId, mod_id: ModId, version: String },
    /// No file for a given version was found.
    VersionNotFound { game_id: GameId, mod_id: ModId, version: String },
}

/// The message of an error of a given kind, with the IDs and the version
/// it names.
pub open spec fn message(kind: ErrorKind) -> Seq<char> {
    match kind {
        ErrorKind::Request => "request failed"@,
        ErrorKind::Body => "failed to load response body"@,
        ErrorKind::Io => "IO error"@,
        ErrorKind::ModNotFound { game_id, mod_id } => seg2(
            "Mod {id: "@,
            mod_id@ as nat,
            ", game_id: "@,
            game_id@ as nat,
            "} not found."@,
        ),
        ErrorKind::FileNotFound { game_id, mod_id, file_id } => seg3(
            "Mod {id: "@,
            mod_id@ as nat,
            ", game_id: "@,
            game_id@ as nat,
            "}: File { id: "@,
            file_id@ as nat,
            " } not found."@,
        ),
        ErrorKind::MultipleFilesFound { game_id, mod_id, version } => seg2(
            "Mod {id: "@,
            mod_id@ as nat,
            ", game_id: "@,
            game_id@ as nat,
            "}: Multiple files found for version '"@,
        ) + version@ + "'."@,
        ErrorKind::NoPrimaryFile { game_id, mod_id } => seg2(
            "Mod {id: "@,
            mod_id@ as nat,
            ", game_id: "@,
            game_id@ as nat,
            "} Mod has no primary file."@,
        ),
        ErrorKind::VersionNotFound { game_id, mod_id, version } => seg2(
            "Mod {id: "@,
            mod_id@ as nat,
            ", game_id: "@,
            game_id@ as nat,
            "}: No file with version '"@,
        ) + version@ + "' found."@,
    }
}

impl<S> Error<S> {
    /// The kind as the contracts see it.
    pub closed spec fn spec_kind(&self) -> ErrorKind {
        self.kind
    }

    /// The cause as the contracts see it.
    pub closed spec fn spec_source(&self) -> Option<S> {
        self.source
    }

    /// Whether the error carries its cause.
    pub open spec fn has_source(&self) -> bool {
        self.spec_source() is Some
    }

    /// An error of the given kind, without a cause.
    pub fn new(kind: ErrorKind) -> (r: Self)
        ensures
            r.spec_kind() == kind,
            r.spec_source() == None::<S>,
    {
        Error { kind, source: None }
    }

    /// The same error with the given cause.
    pub fn with(self, source: S) -> (r: Self)
        ensures
            r.spec_kind() == self.spec_kind(),
            r.spec_source() == Some(source),
    {
        Error { kind: self.kind, source: Some(source) }
    }

    /// What went wrong.
    pub fn kind(&self) -> (r: &ErrorKind)
        ensures
            *r == self.spec_kind(),
    {
        &self.kind
    }

    /// The cause of the error.
    pub fn source(&self) -> (r: Option<&S>)
        ensures
            r is Some <==> self.has_source(),
            r matches Some(s) ==> self.spec_source() == Some(*s),
    {
        match &self.source {
            Some(s) => Some(s),
            None => None,
        }
    }

    /// A failed request.
    pub fn request(source: S) -> (r: Self)
        ensures
            r.spec_kind() == ErrorKind::Request,
            r.spec_source() == Some(source),
    {
        Self::new(ErrorKind::Request).with(source)
    }

    /// A response body that could not be loaded.
    pub fn body(source: S) -> (r: Self)
        ensures
            r.spec_kind() == ErrorKind::Body,
            r.spec_source() == Some(source),
    {
        Self::new(ErrorKind::Body).with(source)
    }

    /// The message of the error.
    pub fn to_string(&self) -> (r: String)
        ensures
            r@ == message(self.spec_kind()),
    {
        let mut s = String::new();
        match &self.kind {
            ErrorKind::Request => s.append("request failed"),
            ErrorKind::Body => s.append("failed to load response body"),
            ErrorKind::Io => s.append("IO error"),
            ErrorKind::ModNotFound { game_id, mod_id } => {
                push_seg2(&mut s, "Mod {id: ", mod_id.get(), ", game_id: ", game_id.get(), "} not found.");
            },
            ErrorKind::FileNotFound { game_id, mod_id, file_id } => {
                push_seg3(
                    &mut s,
                    "Mod {id: ",
                    mod_id.get(),
                    ", game_id: ",
                    game_id.get(),
                    "}: File { id: ",
                    file_id.get(),
                    " } not found.",
                );
            },
            ErrorKind::MultipleFilesFound { game_id, mod_id, version } => {
                push_seg2(
                    &mut s,
                    "Mod {id: ",
                    mod_id.get(),
                    ", game_id: ",
                    game_id.get(),
                    "}: Multiple files found for version '",
                );
                s.append(version.as_str());
                s.append("'.");
            },
            ErrorKind::NoPrimaryFile { game_id, mod_id } => {
                push_seg2(
                    &mut s,
                    "Mod {id: ",
                    mod_id.get(),
                    ", game_id: ",
                    game_id.get(),
                    "} Mod has no primary file.",
                );
            },
            ErrorKind::VersionNotFound { game_id, mod_id, version } => {
                push_seg2(
                    &mut s,
                    "Mod {id: ",
                    mod_id.get(),
                    ", game_id: ",
                    game_id.get(),
                    "}: No file with version '",
                );
                s.append(version.as_str());
                s.append("' found.");
            },
        }
        assert(s@ =~= message(self.spec_kind()));
        s
    }
}

/// The message of every kind of download error, with the mod's ID, then the
/// game's, then the file's or the version where the kind names one.
pub proof fn lemma_download_messages(kind: ErrorKind)
    ensures
        match kind {
            ErrorKind::Request => message(kind) == "request failed"@,
            ErrorKind::Body => message(kind) == "failed to load response body"@,
            ErrorKind::Io => message(kind) == "IO error"@,
            ErrorKind::ModNotFound { game_id, mod_id } => message(kind) == "Mod {id: "@ + decimal(
                mod_id@ as nat,
            ) + ", game_id: "@ + decimal(game_id@ as nat) + "} not found."@,
            ErrorKind::FileNotFound { game_id, mod_id, file_id } => message(kind) == "Mod {id: "@
                + decimal(mod_id@ as nat) + ", game_id: "@ + decimal(game_id@ as nat)
                + "}: File { id: "@ + decimal(file_id@ as nat) + " } not found."@,
            ErrorKind::MultipleFilesFound { game_id, mod_id, version } => message(kind)
                == "Mod {id: "@ + decimal(mod_id@ as nat) + ", game_id: "@ + decimal(
                game_id@ as nat,
            ) + "}: Multiple files found for version '"@ + version@ + "'."@,
            ErrorKind::NoPrimaryFile { game_id, mod_id } => message(kind) == "Mod {id: "@
                + decimal(mod_id@ as nat) + ", game_id: "@ + decimal(game_id@ as nat)
                + "} Mod has no primary file."@,
            ErrorKind::VersionNotFound { game_id, mod_id, version } => message(kind)
                == "Mod {id: "@ + decimal(mod_id@ as nat) + ", game_id: "@ + decimal(
                game_id@ as nat,
            ) + "}: No file with version '"@ + version@ + "' found."@,
        },
{
}

} // verus!
