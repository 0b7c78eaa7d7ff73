use proton_cli::init::{check_project_folder, dir_not_empty_err, validate_project_name};
use proton_cli::{Cause, Error};

#[test]
fn messages_carry_their_values() {
    assert_eq!(Error::InvalidFrameDuration(24).message(), "Invalid frame duration: 24");
    assert_eq!(
        Error::OffsetOutOfBounds(2500, 2499).message(),
        "Offset 2500 not between 0 and 2499 (inclusive)"
    );
    assert_eq!(
        Error::DuplicateUser("key".to_string(), "bob".to_string()).message(),
        "Duplicate user 'bob' or key 'key'"
    );
    assert_eq!(
        Error::ChannelDataNotFound(4, 3).message(),
        "Channel data not found. seqid: 4, chanid: 3"
    );
    assert_eq!(
        Error::FolderNotEmpty("root".to_string(), 12).message(),
        "root was not empty: 12 files exist"
    );
    assert_eq!(Error::SequenceNotFound(0).message(), "Sequence not found: '0'");
    assert_eq!(Error::UnauthorizedAction.message(), "Unauthorized action");
}

#[test]
fn descriptions_and_causes() {
    assert_eq!(Error::ChannelNotFound(16).description(), "Channel not found");
    assert_eq!(Error::TodoErr.description(), "Todo");
    assert!(Error::MissingPermissionArg.cause().is_none());
    let io = Error::Io(std::io::Error::new(std::io::ErrorKind::Other, "disk gone"));
    assert_eq!(io.description(), "IO error occurred");
    match io.cause() {
        Some(Cause::Io(e)) => {
            assert_eq!(e.kind(), std::io::ErrorKind::Other);
            assert_eq!(e.to_string(), "disk gone");
        }
        _ => panic!("an I/O error carries its cause"),
    }
    assert_eq!(io.message(), "IO error occurred: disk gone");
}

#[test]
fn project_names() {
    assert!(validate_project_name("my_show").is_ok());
    assert!(matches!(validate_project_name("a/b"), Err(Error::InvalidProjectName(n)) if n == "a/b"));
    assert!(matches!(validate_project_name(""), Err(Error::InvalidProjectName(_))));
    assert!(matches!(validate_project_name("x?"), Err(Error::InvalidProjectName(_))));
}

#[test]
fn project_folder_must_be_empty() {
    assert!(check_project_folder("root", 0).is_ok());
    assert!(matches!(check_project_folder("root", 3), Err(Error::FolderNotEmpty(p, 3)) if p == "root"));
    assert!(matches!(dir_not_empty_err("r", 1), Err(Error::FolderNotEmpty(p, 1)) if p == "r"));
}

#[test]
fn json_encoding_cause_is_passed_through() {
    let err = Error::JsonEncode(rustc_serialize::json::EncoderError::BadHashmapKey);
    match err.cause() {
        Some(Cause::JsonEncode(e)) => {
            assert!(matches!(e, rustc_serialize::json::EncoderError::BadHashmapKey))
        }
        _ => panic!("an encoding error carries its cause"),
    }
    assert_eq!(err.message(), "Json encoding error occurred: BadHashmapKey");
    assert_eq!(err.description(), "Json encoding error occurred");
}
