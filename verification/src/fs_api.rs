//! The file-system command surface exposed to the embedded front end:
//! the command descriptors, their options, and the pure parts of their
//! handling — capability gating and binary-payload decoding.

use base64::Engine;
use vstd::prelude::*;

verus! {

/// A well-known base directory that a path may be resolved against.
#[derive(PartialEq, Eq, Structural, Clone, Copy, Debug)]
pub enum BaseDirectory {
    /// The user's audio directory.
    Audio,
    /// The user's cache directory.
    Cache,
    /// The user's configuration directory.
    Config,
    /// The user's data directory.
    Data,
    /// The user's local data directory.
    LocalData,
    /// The user's desktop directory.
    Desktop,
    /// The user's document directory.
    Document,
    /// The user's download directory.
    Download,
    /// The user's home directory.
    Home,
    /// The user's picture directory.
    Picture,
    /// The application's own directory.
    App,
}

/// The options for the directory operations of the file-system API.
pub struct DirOperationOptions {
    /// Whether the operation runs recursively.
    pub recursive: bool,
    /// The base directory the path is resolved against.
    pub dir: Option<BaseDirectory>,
}

/// The options for the file operations of the file-system API.
pub struct FileOperationOptions {
    /// The base directory the path is resolved against.
    pub dir: Option<BaseDirectory>,
}

/// The file-system API descriptor: one variant per operation, each
/// carrying its path arguments, options, and the success and error
/// callback names of the requesting front end.
pub enum Cmd {
    /// The read text file API.
    ReadTextFile { path: String, options: Option<FileOperationOptions>, callback: String, error: String },
    /// The read binary file API.
    ReadBinaryFile { path: String, options: Option<FileOperationOptions>, callback: String, error: String },
    /// The write file API.
    WriteFile { path: String, contents: String, options: Option<FileOperationOptions>, callback: String, error: String },
    /// The write binary file API; the contents are a base64 payload.
    WriteBinaryFile { path: String, contents: String, options: Option<FileOperationOptions>, callback: String, error: String },
    /// The read dir API.
    ReadDir { path: String, options: Option<DirOperationOptions>, callback: String, error: String },
    /// The copy file API.
    CopyFile { source: String, destination: String, options: Option<FileOperationOptions>, callback: String, error: String },
    /// The create dir API.
    CreateDir { path: String, options: Option<DirOperationOptions>, callback: String, error: String },
    /// The remove dir API.
    RemoveDir { path: String, options: Option<DirOperationOptions>, callback: String, error: String },
    /// The remove file API.
    RemoveFile { path: String, options: Option<FileOperationOptions>, callback: String, error: String },
    /// The rename file API.
    RenameFile { old_path: String, new_path: String, options: Option<FileOperationOptions>, callback: String, error: String },
    /// The resolve path API.
    ResolvePath { path: String, directory: Option<BaseDirectory>, callback: String, error: String },
}

impl Cmd {
    /// The capability name that gates this command in the allow-list.
    pub open spec fn spec_api_name(&self) -> Seq<char> {
        match self {
            Cmd::ReadTextFile { .. } => "readTextFile"@,
            Cmd::ReadBinaryFile { .. } => "readBinaryFile"@,
            Cmd::WriteFile { .. } => "writeFile"@,
            Cmd::WriteBinaryFile { .. } => "writeBinaryFile"@,
            Cmd::ReadDir { .. } => "readDir"@,
            Cmd::CopyFile { .. } => "copyFile"@,
            Cmd::CreateDir { .. } => "createDir"@,
            Cmd::RemoveDir { .. } => "removeDir"@,
            Cmd::RemoveFile { .. } => "removeFile"@,
            Cmd::RenameFile { .. } => "renameFile"@,
            Cmd::ResolvePath { .. } => "pathApi"@,
        }
    }

    /// The capability name that gates this command in the allow-list.
    pub fn api_name(&self) -> (r: &'static str)
        ensures
            r@ == self.spec_api_name(),
    {
        match self {
            Cmd::ReadTextFile { .. } => "readTextFile",
            Cmd::ReadBinaryFile { .. } => "readBinaryFile",
            Cmd::WriteFile { .. } => "writeFile",
            Cmd::WriteBinaryFile { .. } => "writeBinaryFile",
            Cmd::ReadDir { .. } => "readDir",
            Cmd::CopyFile { .. } => "copyFile",
            Cmd::CreateDir { .. } => "createDir",
            Cmd::RemoveDir { .. } => "removeDir",
            Cmd::RemoveFile { .. } => "removeFile",
            Cmd::RenameFile { .. } => "renameFile",
            Cmd::ResolvePath { .. } => "pathApi",
        }
    }
}

/// The flag stored for a capability name: the first allow-list entry
/// with that name decides; an absent name is not allowed.
pub open spec fn spec_allowed(al: Seq<(String, bool)>, name: Seq<char>) -> bool
    decreases al.len(),
{
    if al.len() == 0 {
        false
    } else if al[0].0@ == name {
        al[0].1
    } else {
        spec_allowed(al.drop_first(), name)
    }
}

/// Decides whether the allow-list grants a capability.
#[verifier::loop_isolation(false)]
pub fn allowlist_allows(al: &Vec<(String, bool)>, name: &str) -> (r: bool)
    ensures
        r == spec_allowed(al@, name@),
{
    let mut i: usize = 0;
    proof {
        assert(al@.subrange(0, al@.len() as int) =~= al@);
    }
    while i < al.len()
        invariant
            i <= al@.len(),
            spec_allowed(al@, name@) == spec_allowed(al@.subrange(i as int, al@.len() as int), name@),
        decreases al@.len() - i,
    {
        let ghost tail = al@.subrange(i as int, al@.len() as int);
        if crate::text::str_eq(al[i].0.as_str(), name) {
            proof {
                assert(tail[0] == al@[i as int]);
            }
            return al[i].1;
        }
        proof {
            assert(tail[0] == al@[i as int]);
            assert(tail.drop_first() =~= al@.subrange(i as int + 1, al@.len() as int));
        }
        i += 1;
    }
    proof {
        assert(al@.subrange(al@.len() as int, al@.len() as int) =~= Seq::<(String, bool)>::empty());
    }
    false
}

/// The bytes that a base64 payload decodes to, when it is valid; a
/// function of the payload characters alone.
pub uninterp spec fn b64_decoded(s: Seq<char>) -> Option<Seq<u8>>;

/// Relies on base64's standard-alphabet decode: the result depends on
/// the input characters alone, and an empty payload decodes to no bytes.
#[verifier::external_body]
fn base64_decode(s: &str) -> (r: Option<Vec<u8>>)
    ensures
        match r {
            Some(v) => b64_decoded(s@) == Some(v@) && (s@.len() == 0 ==> v@.len() == 0),
            None => b64_decoded(s@) is None && s@.len() != 0,
        },
{
    base64::engine::general_purpose::STANDARD.decode(s).ok()
}

/// Why a payload could not be written.
#[derive(Debug)]
pub enum FsApiError {
    /// The base64 payload of a binary write is invalid.
    Base64Decode,
}

impl FsApiError {
    /// The description of the failure.
    pub open spec fn spec_message(&self) -> Seq<char> {
        match self {
            FsApiError::Base64Decode => "the binary payload is not valid base64"@,
        }
    }

    /// A short description of the failure.
    pub fn message(&self) -> (r: String)
        ensures
            r@ == self.spec_message(),
    {
        match self {
            FsApiError::Base64Decode => String::from_str(
                "the binary payload is not valid base64",
            ),
        }
    }
}

/// Decodes the base64 payload of a binary write: the bytes to put on
/// disk. Fails exactly when the payload is not valid base64.
pub fn decode_binary_contents(contents: &str) -> (r: Result<Vec<u8>, FsApiError>)
    ensures
        match r {
            Ok(v) => b64_decoded(contents@) == Some(v@) && (contents@.len() == 0 ==> v@.len()
                == 0),
            Err(_) => b64_decoded(contents@) is None && contents@.len() != 0,
        },
{
    match base64_decode(contents) {
        Some(v) => Ok(v),
        None => Err(FsApiError::Base64Decode),
    }
}

} // verus!
