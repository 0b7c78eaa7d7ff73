use vstd::prelude::*;

use postgres::Error as PostgresError;

use crate::sequence::{decimal, push_decimal};

verus! {

/// std's I/O error, carried through unchanged.
#[verifier::external_type_specification]
#[verifier::external_body]
pub struct ExIoError(std::io::Error);

/// rustc-serialize's JSON encoding error, carried through unchanged.
#[verifier::external_type_specification]
#[verifier::external_body]
pub struct ExJsonEncoderError(rustc_serialize::json::EncoderError);

/// rustc-serialize's JSON decoding error, carried through unchanged.
#[verifier::external_type_specification]
#[verifier::external_body]
pub struct ExJsonDecoderError(rustc_serialize::json::DecoderError);

/// rustc-serialize's JSON parsing error, carried through unchanged.
#[verifier::external_type_specification]
#[verifier::external_body]
pub struct ExJsonParserError(rustc_serialize::json::ParserError);

/// OpenSSL's stack of errors, carried through unchanged.
#[verifier::external_type_specification]
#[verifier::external_body]
pub struct ExSslErrorStack(openssl::error::ErrorStack);

/// The Postgres client's error, carried through unchanged.
#[verifier::external_type_specification]
#[verifier::external_body]
pub struct ExPostgresError(PostgresError);

/// The closed set of failures that the library reports.
#[derive(Debug)]
pub enum Error {
    Io(std::io::Error),
    JsonEncode(rustc_serialize::json::EncoderError),
    JsonDecode(rustc_serialize::json::DecoderError),
    JsonParse(rustc_serialize::json::ParserError),
    Ssl(openssl::error::ErrorStack),
    Rsfml(String),
    Postgres(PostgresError),
    PostgresConnection(PostgresError),
    FolderNotEmpty(String, usize),
    InvalidFileName,
    InvalidFrameDuration(u32),
    InvalidLayout(String),
    InvalidNumResults(usize),
    InvalidPatch(String),
    InvalidPermissionName(String),
    InvalidProjectName(String),
    InvalidPublicKey(String),
    InvalidSequenceName(String),
    InvalidSequenceSection(u32),
    InvalidVixenData(String),
    LoadProjectError,
    MissingPermissionArg,
    OffsetOutOfBounds(u32, u32),
    DuplicateUser(String, String),
    DuplicateSequence(String),
    MusicFileNotFound(String),
    UnsupportedFileType(String),
    AdminNotFound,
    ChannelNotFound(u32),
    ChannelDataNotFound(u32, u32),
    FixtureNotFound(u32),
    LayoutNotFound(u32),
    ProjectNotFound(String),
    SequenceNotFound(u32),
    UserNotFound,
    UnauthorizedAction,
    TodoErr,
}

/// The short description of each kind of failure.
pub open spec fn description_of(e: Error) -> Seq<char> {
    match e {
        Error::Io(_) => "IO error occurred"@,
        Error::JsonDecode(_) => "Json decoding error occurred"@,
        Error::JsonEncode(_) => "Json encoding error occurred"@,
        Error::JsonParse(_) => "Json parsing error occurred"@,
        Error::Ssl(_) => "SSL error occured"@,
        Error::Rsfml(_) => "Rsfml error occured"@,
        Error::Postgres(_) => "Postgres error occured"@,
        Error::PostgresConnection(_) => "Postgres connection error occured"@,
        Error::FolderNotEmpty(_, _) => "Root folder was not empty"@,
        Error::InvalidFileName => "Invalid file name"@,
        Error::InvalidFrameDuration(_) => "Invalid frame duration"@,
        Error::InvalidLayout(_) => "Invalid layout"@,
        Error::InvalidNumResults(_) => "Invalid number of results returned"@,
        Error::InvalidPatch(_) => "Invalid patch file"@,
        Error::InvalidPermissionName(_) => "Invalid permission name"@,
        Error::InvalidProjectName(_) => "Invalid project name"@,
        Error::InvalidPublicKey(_) => "Invalid public key"@,
        Error::InvalidSequenceName(_) => "Invalid sequence name"@,
        Error::InvalidSequenceSection(_) => "Invalid sequence section"@,
        Error::InvalidVixenData(_) => "Invalid Vixen data"@,
        Error::LoadProjectError => "Loading project failed"@,
        Error::MissingPermissionArg => "Permission argument required but missing (seqid or secid)"@,
        Error::OffsetOutOfBounds(_, _) => "Offset out of bouds"@,
        Error::DuplicateUser(_, _) => "User already exists"@,
        Error::DuplicateSequence(_) => "Sequence already exists"@,
        Error::MusicFileNotFound(_) => "Music file not found"@,
        Error::UnsupportedFileType(_) => "Unsupported file type"@,
        Error::AdminNotFound => "Admin not found"@,
        Error::ChannelNotFound(_) => "Channel not found"@,
        Error::ChannelDataNotFound(_, _) => "Channel data not found"@,
        Error::FixtureNotFound(_) => "Fixture not found"@,
        Error::LayoutNotFound(_) => "Layout not found"@,
        Error::ProjectNotFound(_) => "Project not found"@,
        Error::SequenceNotFound(_) => "Sequence not found"@,
        Error::UserNotFound => "User not found"@,
        Error::UnauthorizedAction => "Unauthorized action"@,
        Error::TodoErr => "Todo"@,
    }
}

/// Whether `e` carries a failure of an outside library or of the system.
pub open spec fn wraps_cause(e: Error) -> bool {
    match e {
        Error::Io(_) => true,
        Error::JsonDecode(_) => true,
        Error::JsonEncode(_) => true,
        Error::JsonParse(_) => true,
        Error::Ssl(_) => true,
        Error::Postgres(_) => true,
        Error::PostgresConnection(_) => true,
        _ => false,
    }
}

/// The text that precedes the cause's own text in the message of a
/// failure that carries a cause.
pub open spec fn cause_prefix(e: Error) -> Seq<char> {
    match e {
        Error::Io(_) => "IO error occurred: "@,
        Error::JsonDecode(_) => "Json decoding error occurred: "@,
        Error::JsonEncode(_) => "Json encoding error occurred: "@,
        Error::JsonParse(_) => "Json parsing error occurred: "@,
        Error::Ssl(_) => "SSL error occured: "@,
        Error::Postgres(_) => "Postgress error occured: "@,
        Error::PostgresConnection(_) => "Postgress connection error occured: "@,
        _ => Seq::empty(),
    }
}

/// The full message of a failure that carries no cause.
pub open spec fn message_of(e: Error) -> Seq<char> {
    match e {
        Error::Rsfml(a) => "Rsfml error: "@ + a@,
        Error::FolderNotEmpty(a, b) => a@ + " was not empty: "@ + decimal(b as nat) + " files exist"@,
        Error::InvalidFileName => "File name provided is invalid and cannot be retrieved"@,
        Error::InvalidFrameDuration(a) => "Invalid frame duration: "@ + decimal(a as nat),
        Error::InvalidLayout(a) => "The layout being read or decoded is invalid: "@ + a@,
        Error::InvalidNumResults(a) => "Invalid number of results returned: "@ + decimal(a as nat),
        Error::InvalidPatch(a) => "Invalid patch file: "@ + a@,
        Error::InvalidPermissionName(a) => "Invalid permission name provided: "@ + a@,
        Error::InvalidProjectName(a) => "Invalid project name provided: "@ + a@,
        Error::InvalidPublicKey(a) => "Public key is invalid: "@ + a@,
        Error::InvalidSequenceName(a) => "Sequence name had invalid characters: "@ + a@,
        Error::InvalidSequenceSection(a) => "Invalid sequence section: "@ + decimal(a as nat),
        Error::InvalidVixenData(a) => "Invalid Vixen data provided: "@ + a@,
        Error::LoadProjectError => "Loading project failed"@,
        Error::MissingPermissionArg => "Permission argument required but missing (did you forget seqid or secid?)"@,
        Error::OffsetOutOfBounds(a, b) => "Offset "@ + decimal(a as nat) + " not between 0 and "@ + decimal(b as nat) + " (inclusive)"@,
        Error::DuplicateUser(a, b) => "Duplicate user '"@ + b@ + "' or key '"@ + a@ + "'"@,
        Error::DuplicateSequence(a) => "Duplicate sequence with name '"@ + a@ + "'"@,
        Error::MusicFileNotFound(a) => "Music file not found at path '"@ + a@ + "'"@,
        Error::UnsupportedFileType(a) => "Unsupported file type: "@ + a@,
        Error::AdminNotFound => "Admin not found"@,
        Error::ChannelNotFound(a) => "Channel not found: "@ + decimal(a as nat),
        Error::ChannelDataNotFound(a, b) => "Channel data not found. seqid: "@ + decimal(a as nat) + ", chanid: "@ + decimal(b as nat),
        Error::FixtureNotFound(a) => "Fixture not found: "@ + decimal(a as nat),
        Error::LayoutNotFound(a) => "Layout not found: "@ + decimal(a as nat),
        Error::ProjectNotFound(a) => "Project not found: "@ + a@,
        Error::SequenceNotFound(a) => "Sequence not found: '"@ + decimal(a as nat) + "'"@,
        Error::UserNotFound => "User not found"@,
        Error::UnauthorizedAction => "Unauthorized action"@,
        Error::TodoErr => "TodoErr"@,
        _ => Seq::empty(),
    }
}

/// Relies on std's `Display` of an I/O error: renders it as text.
#[verifier::external_body]
fn io_error_text(e: &std::io::Error) -> String {
    format!("{}", e)
}

/// The text that rustc-serialize renders for a JSON encoding error.
pub uninterp spec fn json_encoder_text_of(e: rustc_serialize::json::EncoderError) -> Seq<char>;

/// Relies on rustc-serialize's `Display` of a JSON encoding error: renders
/// it as text that depends on the error's value alone.
#[verifier::external_body]
fn json_encoder_error_text(e: &rustc_serialize::json::EncoderError) -> (r: String)
    ensures
        r@ == json_encoder_text_of(*e),
{
    format!("{}", e)
}

/// Relies on rustc-serialize's `Display` of a JSON decoding error: renders it as text.
#[verifier::external_body]
fn json_decoder_error_text(e: &rustc_serialize::json::DecoderError) -> String {
    format!("{}", e)
}

/// Relies on rustc-serialize's `Display` of a JSON parsing error: renders it as text.
#[verifier::external_body]
fn json_parser_error_text(e: &rustc_serialize::json::ParserError) -> String {
    format!("{}", e)
}

/// Relies on openssl's `Display` of an error stack: renders it as text.
#[verifier::external_body]
fn ssl_error_text(e: &openssl::error::ErrorStack) -> String {
    format!("{}", e)
}

/// The text that the Postgres client renders for its error.
pub uninterp spec fn postgres_text_of(e: PostgresError) -> Seq<char>;

/// Relies on the Postgres client's `Display` of its error: renders it as
/// text that depends on the error's kind and contents alone.
#[verifier::external_body]
fn postgres_error_text(e: &PostgresError) -> (r: String)
    ensures
        r@ == postgres_text_of(*e),
{
    format!("{}", e)
}

/// The outside failure that an error carries, by reference.
#[derive(Debug)]
pub enum Cause<'a> {
    Io(&'a std::io::Error),
    JsonEncode(&'a rustc_serialize::json::EncoderError),
    JsonDecode(&'a rustc_serialize::json::DecoderError),
    JsonParse(&'a rustc_serialize::json::ParserError),
    Ssl(&'a openssl::error::ErrorStack),
    Postgres(&'a PostgresError),
}

impl Error {
    /// A short description of the kind of failure.
    pub fn description(&self) -> (r: &'static str)
        ensures
            r@ == description_of(*self),
    {
        match self {
            Error::Io(_) => "IO error occurred",
            Error::JsonDecode(_) => "Json decoding error occurred",
            Error::JsonEncode(_) => "Json encoding error occurred",
            Error::JsonParse(_) => "Json parsing error occurred",
            Error::Ssl(_) => "SSL error occured",
            Error::Rsfml(_) => "Rsfml error occured",
            Error::Postgres(_) => "Postgres error occured",
            Error::PostgresConnection(_) => "Postgres connection error occured",
            Error::FolderNotEmpty(_, _) => "Root folder was not empty",
            Error::InvalidFileName => "Invalid file name",
            Error::InvalidFrameDuration(_) => "Invalid frame duration",
            Error::InvalidLayout(_) => "Invalid layout",
            Error::InvalidNumResults(_) => "Invalid number of results returned",
            Error::InvalidPatch(_) => "Invalid patch file",
            Error::InvalidPermissionName(_) => "Invalid permission name",
            Error::InvalidProjectName(_) => "Invalid project name",
            Error::InvalidPublicKey(_) => "Invalid public key",
            Error::InvalidSequenceName(_) => "Invalid sequence name",
            Error::InvalidSequenceSection(_) => "Invalid sequence section",
            Error::InvalidVixenData(_) => "Invalid Vixen data",
            Error::LoadProjectError => "Loading project failed",
            Error::MissingPermissionArg => "Permission argument required but missing (seqid or secid)",
            Error::OffsetOutOfBounds(_, _) => "Offset out of bouds",
            Error::DuplicateUser(_, _) => "User already exists",
            Error::DuplicateSequence(_) => "Sequence already exists",
            Error::MusicFileNotFound(_) => "Music file not found",
            Error::UnsupportedFileType(_) => "Unsupported file type",
            Error::AdminNotFound => "Admin not found",
            Error::ChannelNotFound(_) => "Channel not found",
            Error::ChannelDataNotFound(_, _) => "Channel data not found",
            Error::FixtureNotFound(_) => "Fixture not found",
            Error::LayoutNotFound(_) => "Layout not found",
            Error::ProjectNotFound(_) => "Project not found",
            Error::SequenceNotFound(_) => "Sequence not found",
            Error::UserNotFound => "User not found",
            Error::UnauthorizedAction => "Unauthorized action",
            Error::TodoErr => "Todo",
        }
    }

    /// The outside failure that this one carries, itself, if it carries one.
    pub fn cause(&self) -> (r: Option<Cause<'_>>)
        ensures
            r is Some <==> wraps_cause(*self),
            *self matches Error::Io(x) ==> r matches Some(Cause::Io(c)) && *c == x,
            *self matches Error::JsonEncode(x) ==> r matches Some(Cause::JsonEncode(c)) && *c == x,
            *self matches Error::JsonDecode(x) ==> r matches Some(Cause::JsonDecode(c)) && *c == x,
            *self matches Error::JsonParse(x) ==> r matches Some(Cause::JsonParse(c)) && *c == x,
            *self matches Error::Ssl(x) ==> r matches Some(Cause::Ssl(c)) && *c == x,
            *self matches Error::Postgres(x) ==> r matches Some(Cause::Postgres(c)) && *c == x,
            *self matches Error::PostgresConnection(x) ==> r matches Some(Cause::Postgres(c)) && *c
                == x,
    {
        match self {
            Error::Io(e) => Some(Cause::Io(e)),
            Error::JsonDecode(e) => Some(Cause::JsonDecode(e)),
            Error::JsonEncode(e) => Some(Cause::JsonEncode(e)),
            Error::JsonParse(e) => Some(Cause::JsonParse(e)),
            Error::Ssl(e) => Some(Cause::Ssl(e)),
            Error::Postgres(e) => Some(Cause::Postgres(e)),
            Error::PostgresConnection(e) => Some(Cause::Postgres(e)),
            _ => None,
        }
    }

    /// The full message of the failure, with the values it carries.
    pub fn message(&self) -> (r: String)
        ensures
            !wraps_cause(*self) ==> r@ == message_of(*self),
            wraps_cause(*self) ==> r@.len() >= cause_prefix(*self).len() && r@.subrange(
                0,
                cause_prefix(*self).len() as int,
            ) == cause_prefix(*self),
            *self matches Error::JsonEncode(x) ==> r@ == cause_prefix(*self) + json_encoder_text_of(
                x,
            ),
            *self matches Error::Postgres(x) ==> r@ == cause_prefix(*self) + postgres_text_of(x),
            *self matches Error::PostgresConnection(x) ==> r@ == cause_prefix(*self)
                + postgres_text_of(x),
    {
        let mut s = String::new();
        match self {
            Error::Io(e) => {
                s.append("IO error occurred: ");
                let t = io_error_text(e);
                s.append(t.as_str());
                assert(s@.subrange(0, "IO error occurred: "@.len() as int) =~= "IO error occurred: "@);
            },
            Error::JsonDecode(e) => {
                s.append("Json decoding error occurred: ");
                let t = json_decoder_error_text(e);
                s.append(t.as_str());
                assert(s@.subrange(0, "Json decoding error occurred: "@.len() as int) =~= "Json decoding error occurred: "@);
            },
            Error::JsonEncode(e) => {
                s.append("Json encoding error occurred: ");
                let t = json_encoder_error_text(e);
                s.append(t.as_str());
                assert(s@.subrange(0, "Json encoding error occurred: "@.len() as int) =~= "Json encoding error occurred: "@);
                assert(s@ =~= "Json encoding error occurred: "@ + json_encoder_text_of(*e));
            },
            Error::JsonParse(e) => {
                s.append("Json parsing error occurred: ");
                let t = json_parser_error_text(e);
                s.append(t.as_str());
                assert(s@.subrange(0, "Json parsing error occurred: "@.len() as int) =~= "Json parsing error occurred: "@);
            },
            Error::Ssl(e) => {
                s.append("SSL error occured: ");
                let t = ssl_error_text(e);
                s.append(t.as_str());
                assert(s@.subrange(0, "SSL error occured: "@.len() as int) =~= "SSL error occured: "@);
            },
            Error::Postgres(e) => {
                s.append("Postgress error occured: ");
                let t = postgres_error_text(e);
                s.append(t.as_str());
                assert(s@.subrange(0, "Postgress error occured: "@.len() as int) =~= "Postgress error occured: "@);
                assert(s@ =~= "Postgress error occured: "@ + postgres_text_of(*e));
            },
            Error::PostgresConnection(e) => {
                s.append("Postgress connection error occured: ");
                let t = postgres_error_text(e);
                s.append(t.as_str());
                assert(s@.subrange(0, "Postgress connection error occured: "@.len() as int) =~= "Postgress connection error occured: "@);
                assert(s@ =~= "Postgress connection error occured: "@ + postgres_text_of(*e));
            },
            Error::Rsfml(a) => {
                s.append("Rsfml error: ");
                s.append(a.as_str());
                assert(s@ =~= message_of(*self));
            },
            Error::FolderNotEmpty(a, b) => {
                s.append(a.as_str());
                s.append(" was not empty: ");
                push_decimal(&mut s, *b as u64);
                s.append(" files exist");
                assert(s@ =~= message_of(*self));
            },
            Error::InvalidFileName => {
                s.append("File name provided is invalid and cannot be retrieved");
                assert(s@ =~= message_of(*self));
            },
            Error::InvalidFrameDuration(a) => {
                s.append("Invalid frame duration: ");
                push_decimal(&mut s, *a as u64);
                assert(s@ =~= message_of(*self));
            },
            Error::InvalidLayout(a) => {
                s.append("The layout being read or decoded is invalid: ");
                s.append(a.as_str());
                assert(s@ =~= message_of(*self));
            },
            Error::InvalidNumResults(a) => {
                s.append("Invalid number of results returned: ");
                push_decimal(&mut s, *a as u64);
                assert(s@ =~= message_of(*self));
            },
            Error::InvalidPatch(a) => {
                s.append("Invalid patch file: ");
                s.append(a.as_str());
                assert(s@ =~= message_of(*self));
            },
            Error::InvalidPermissionName(a) => {
                s.append("Invalid permission name provided: ");
                s.append(a.as_str());
                assert(s@ =~= message_of(*self));
            },
            Error::InvalidProjectName(a) => {
                s.append("Invalid project name provided: ");
                s.append(a.as_str());
                assert(s@ =~= message_of(*self));
            },
            Error::InvalidPublicKey(a) => {
                s.append("Public key is invalid: ");
                s.append(a.as_str());
                assert(s@ =~= message_of(*self));
            },
            Error::InvalidSequenceName(a) => {
                s.append("Sequence name had invalid characters: ");
                s.append(a.as_str());
                assert(s@ =~= message_of(*self));
            },
            Error::InvalidSequenceSection(a) => {
                s.append("Invalid sequence section: ");
                push_decimal(&mut s, *a as u64);
                assert(s@ =~= message_of(*self));
            },
            Error::InvalidVixenData(a) => {
                s.append("Invalid Vixen data provided: ");
                s.append(a.as_str());
                assert(s@ =~= message_of(*self));
            },
            Error::LoadProjectError => {
                s.append("Loading project failed");
                assert(s@ =~= message_of(*self));
            },
            Error::MissingPermissionArg => {
                s.append("Permission argument required but missing (did you forget seqid or secid?)");
                assert(s@ =~= message_of(*self));
            },
            Error::OffsetOutOfBounds(a, b) => {
                s.append("Offset ");
                push_decimal(&mut s, *a as u64);
                s.append(" not between 0 and ");
                push_decimal(&mut s, *b as u64);
                s.append(" (inclusive)");
                assert(s@ =~= message_of(*self));
            },
            Error::DuplicateUser(a, b) => {
                s.append("Duplicate user '");
                s.append(b.as_str());
                s.append("' or key '");
                s.append(a.as_str());
                s.append("'");
                assert(s@ =~= message_of(*self));
            },
            Error::DuplicateSequence(a) => {
                s.append("Duplicate sequence with name '");
                s.append(a.as_str());
                s.append("'");
                assert(s@ =~= message_of(*self));
            },
            Error::MusicFileNotFound(a) => {
                s.append("Music file not found at path '");
                s.append(a.as_str());
                s.append("'");
                assert(s@ =~= message_of(*self));
            },
            Error::UnsupportedFileType(a) => {
                s.append("Unsupported file type: ");
                s.append(a.as_str());
                assert(s@ =~= message_of(*self));
            },
            Error::AdminNotFound => {
                s.append("Admin not found");
                assert(s@ =~= message_of(*self));
            },
            Error::ChannelNotFound(a) => {
                s.append("Channel not found: ");
                push_decimal(&mut s, *a as u64);
                assert(s@ =~= message_of(*self));
            },
            Error::ChannelDataNotFound(a, b) => {
                s.append("Channel data not found. seqid: ");
                push_decimal(&mut s, *a as u64);
                s.append(", chanid: ");
                push_decimal(&mut s, *b as u64);
                assert(s@ =~= message_of(*self));
            },
            Error::FixtureNotFound(a) => {
                s.append("Fixture not found: ");
                push_decimal(&mut s, *a as u64);
                assert(s@ =~= message_of(*self));
            },
            Error::LayoutNotFound(a) => {
                s.append("Layout not found: ");
                push_decimal(&mut s, *a as u64);
                assert(s@ =~= message_of(*self));
            },
            Error::ProjectNotFound(a) => {
                s.append("Project not found: ");
                s.append(a.as_str());
                assert(s@ =~= message_of(*self));
            },
            Error::SequenceNotFound(a) => {
                s.append("Sequence not found: '");
                push_decimal(&mut s, *a as u64);
                s.append("'");
                assert(s@ =~= message_of(*self));
            },
            Error::UserNotFound => {
                s.append("User not found");
                assert(s@ =~= message_of(*self));
            },
            Error::UnauthorizedAction => {
                s.append("Unauthorized action");
                assert(s@ =~= message_of(*self));
            },
            Error::TodoErr => {
                s.append("TodoErr");
                assert(s@ =~= message_of(*self));
            },
        }
        s
    }
}

} // verus!
