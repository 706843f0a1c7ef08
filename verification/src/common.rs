//! The error taxonomy and the resource handle that the rest of the library
//! passes bytes and paths around with.

use vstd::prelude::*;

verus! {

/// The closed error taxonomy: every fallible operation of this library
/// reports one of these two kinds.
#[derive(Debug, Clone)]
pub enum SimpleC2PAError {
    /// Wraps any underlying I/O, cryptographic, encoding, or
    /// manifest-library failure, stringified.
    Failure { message: String },
    /// Reserved for internal invariant violations.
    Unexpected { id: i32 },
}

impl SimpleC2PAError {
    /// A human-readable description of the error.
    pub fn message(&self) -> (r: String)
        ensures
            self matches SimpleC2PAError::Failure { message } ==> r@ == message@,
            self matches SimpleC2PAError::Unexpected { .. } ==> r@
                == "unexpected internal error"@,
    {
        match self {
            SimpleC2PAError::Failure { message } => message.clone(),
            SimpleC2PAError::Unexpected { id: _ } => "unexpected internal error".to_owned(),
        }
    }
}

/// A value that is either an in-memory byte buffer or a filesystem path;
/// one is resolved to the other lazily.
#[derive(Debug, Clone)]
pub struct FileData {
    pub path: Option<String>,
    pub bytes: Option<Vec<u8>>,
    pub file_name: Option<String>,
}

/// Relies on fs_err::read: returns the whole content of the file at `path`,
/// or the I/O error. What is on disk cannot be described further here.
#[verifier::external_body]
fn read_path_bytes(path: &String) -> (r: Result<Vec<u8>, SimpleC2PAError>)
    ensures
        r matches Err(e) ==> e matches SimpleC2PAError::Failure { .. },
{
    fs_err::read(path).map_err(|e| SimpleC2PAError::Failure { message: e.to_string() })
}

/// Relies on tempfile::NamedTempFile (new, write_all through std::io::Write,
/// keep): creates a fresh temporary file holding exactly `bytes` and returns
/// its path; the file is kept, not deleted on drop. The path is chosen by the
/// operating system, so nothing is stated about it.
#[verifier::external_body]
fn materialize_temp_file(bytes: &Vec<u8>) -> (r: Result<String, SimpleC2PAError>)
    ensures
        r matches Err(e) ==> e matches SimpleC2PAError::Failure { .. },
{
    let fail = |m: String| SimpleC2PAError::Failure { message: m };
    let mut file = tempfile::NamedTempFile::new().map_err(|e| fail(e.to_string()))?;
    std::io::Write::write_all(&mut file, bytes).map_err(|e| fail(e.to_string()))?;
    let (_kept, path) = file.keep().map_err(|e| fail(e.to_string()))?;
    match path.to_str() {
        Some(p) => Ok(p.to_owned()),
        None => Err(fail("temporary path is not valid UTF-8".to_owned())),
    }
}

/// Relies on fs_err::write: replaces the content of the file at `path` with
/// exactly `bytes`, or reports the I/O error.
#[verifier::external_body]
pub(crate) fn write_path_bytes(path: &String, bytes: &Vec<u8>) -> (r: Result<
    (),
    SimpleC2PAError,
>)
    ensures
        r matches Err(e) ==> e matches SimpleC2PAError::Failure { .. },
{
    fs_err::write(path, bytes).map_err(|e| SimpleC2PAError::Failure { message: e.to_string() })
}

impl FileData {
    /// Builds a resource handle from an optional path, optional in-memory
    /// bytes, and an optional suggested file name.
    pub fn new(path: Option<String>, bytes: Option<Vec<u8>>, file_name: Option<String>) -> (r:
        FileData)
        ensures
            r.path == path,
            r.bytes == bytes,
            r.file_name == file_name,
    {
        FileData { path, bytes, file_name }
    }

    /// The in-memory bytes if present, else the content read from the path,
    /// else the "No bytes or path" failure.
    pub fn get_bytes(&self) -> (r: Result<Vec<u8>, SimpleC2PAError>)
        ensures
            self.bytes matches Some(b) ==> (r matches Ok(v) && v@ == b@),
            self.bytes is None && self.path is None ==> (r matches Err(
                SimpleC2PAError::Failure { message },
            ) && message@ == "No bytes or path"@),
            r matches Err(e) ==> e matches SimpleC2PAError::Failure { .. },
    {
        if let Some(bytes) = &self.bytes {
            return Ok(bytes.clone());
        }
        if let Some(path) = &self.path {
            return read_path_bytes(path);
        }
        Err(SimpleC2PAError::Failure { message: "No bytes or path".to_owned() })
    }

    /// The path if present, else the path of a fresh temporary file that the
    /// bytes were materialized to, else the "No bytes or path" failure.
    pub fn get_path(&self) -> (r: Result<String, SimpleC2PAError>)
        ensures
            self.path matches Some(p) ==> (r matches Ok(q) && q@ == p@),
            self.path is None && self.bytes is None ==> (r matches Err(
                SimpleC2PAError::Failure { message },
            ) && message@ == "No bytes or path"@),
            r matches Err(e) ==> e matches SimpleC2PAError::Failure { .. },
    {
        if let Some(path) = &self.path {
            return Ok(path.clone());
        }
        if let Some(bytes) = &self.bytes {
            return materialize_temp_file(bytes);
        }
        Err(SimpleC2PAError::Failure { message: "No bytes or path".to_owned() })
    }
}

} // verus!
