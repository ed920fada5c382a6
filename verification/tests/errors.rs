use modio::types::id::{FileId, GameId, ModId};
use modio::util::download::{Error as DownloadError, ErrorKind as DownloadErrorKind};
use modio::util::upload::{Error as UploadError, ErrorKind as UploadErrorKind};

#[test]
fn upload_errors() {
    let e: UploadError<&str> = UploadError::request("io");
    assert_eq!(*e.kind(), UploadErrorKind::Request);
    assert_eq!(e.source(), Some(&"io"));
    assert_eq!(e.to_string(), "request failed");
    let e: UploadError<&str> = UploadError::body("x");
    assert_eq!(*e.kind(), UploadErrorKind::Body);
    assert_eq!(e.to_string(), "failed to load response body");
}

#[test]
fn download_error_messages() {
    let game_id = GameId::new(1);
    let mod_id = ModId::new(2);
    let cases: Vec<(DownloadErrorKind, &str)> = vec![
        (DownloadErrorKind::Request, "request failed"),
        (DownloadErrorKind::Body, "failed to load response body"),
        (DownloadErrorKind::Io, "IO error"),
        (
            DownloadErrorKind::ModNotFound { game_id, mod_id },
            "Mod {id: 2, game_id: 1} not found.",
        ),
        (
            DownloadErrorKind::NoPrimaryFile { game_id, mod_id },
            "Mod {id: 2, game_id: 1} Mod has no primary file.",
        ),
        (
            DownloadErrorKind::FileNotFound {
                game_id,
                mod_id,
                file_id: FileId::new(3),
            },
            "Mod {id: 2, game_id: 1}: File { id: 3 } not found.",
        ),
        (
            DownloadErrorKind::MultipleFilesFound {
                game_id,
                mod_id,
                version: "1.0".to_owned(),
            },
            "Mod {id: 2, game_id: 1}: Multiple files found for version '1.0'.",
        ),
        (
            DownloadErrorKind::VersionNotFound {
                game_id,
                mod_id,
                version: "1.0".to_owned(),
            },
            "Mod {id: 2, game_id: 1}: No file with version '1.0' found.",
        ),
    ];
    for (kind, message) in cases {
        let e: DownloadError<()> = DownloadError::new(kind);
        assert_eq!(e.to_string(), message);
        assert!(e.source().is_none());
    }
    let e: DownloadError<u8> = DownloadError::request(4);
    assert!(matches!(e.kind(), DownloadErrorKind::Request));
    assert_eq!(e.source(), Some(&4));
    let e: DownloadError<u8> = DownloadError::body(5);
    assert!(matches!(e.kind(), DownloadErrorKind::Body));
    let e: DownloadError<u8> = DownloadError::new(DownloadErrorKind::Io).with(6);
    assert_eq!(e.source(), Some(&6));
}
