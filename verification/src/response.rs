//! What a request is answered with.

use vstd::prelude::*;

verus! {

/// The answer to a request.  `B` is the type of a body of bytes.
#[derive(Debug)]
pub enum Response<B> {
    /// Every part of the upload was stored.
    Uploaded,
    /// The file was removed.
    Deleted,
    /// The whole file.
    File(B),
    /// The name was empty or unusable.
    InvalidName,
    /// The body of the request could not be read as what it should be.
    Malformed,
    /// The upload's target is already there.
    AlreadyExists,
    /// There is no such file.
    NotFound,
    /// The file could not be opened or read.
    ReadFailed,
    /// The file could not be created or written, or the body could not be
    /// received.
    WriteFailed,
    /// The file could not be removed.
    RemoveFailed,
    /// The handler was told of something it had not asked for, or what it
    /// asked for could not be done.
    OutOfTurn,
}

impl View for Response<Vec<u8>> {
    type V = Response<Seq<u8>>;

    open spec fn view(&self) -> Response<Seq<u8>> {
        match *self {
            Response::Uploaded => Response::Uploaded,
            Response::Deleted => Response::Deleted,
            Response::File(b) => Response::File(b@),
            Response::InvalidName => Response::InvalidName,
            Response::Malformed => Response::Malformed,
            Response::AlreadyExists => Response::AlreadyExists,
            Response::NotFound => Response::NotFound,
            Response::ReadFailed => Response::ReadFailed,
            Response::WriteFailed => Response::WriteFailed,
            Response::RemoveFailed => Response::RemoveFailed,
            Response::OutOfTurn => Response::OutOfTurn,
        }
    }
}

/// The HTTP status code of an answer.
pub open spec fn status_of(r: Response<Seq<u8>>) -> u16 {
    match r {
        Response::Uploaded | Response::Deleted | Response::File(_) => 200,
        Response::InvalidName | Response::Malformed => 400,
        Response::NotFound => 404,
        Response::AlreadyExists => 409,
        Response::ReadFailed | Response::WriteFailed | Response::RemoveFailed
        | Response::OutOfTurn => 500,
    }
}

/// The plain-text body of an answer; a file is its own body and has no text.
pub open spec fn message_of(r: Response<Seq<u8>>) -> Seq<char> {
    match r {
        Response::Uploaded => "File uploaded successfully"@,
        Response::Deleted => "File deleted successfully"@,
        Response::File(_) => ""@,
        Response::InvalidName => "Invalid filename"@,
        Response::Malformed => "Malformed request"@,
        Response::AlreadyExists => "File already exists"@,
        Response::NotFound => "File not found"@,
        Response::ReadFailed => "Could not read file"@,
        Response::WriteFailed => "Could not write file"@,
        Response::RemoveFailed => "Could not delete file"@,
        Response::OutOfTurn => "Internal error"@,
    }
}

impl Response<Vec<u8>> {
    /// The HTTP status code.
    pub fn status(&self) -> (code: u16)
        ensures
            code == status_of(self@),
    {
        match self {
            Response::Uploaded | Response::Deleted | Response::File(_) => 200,
            Response::InvalidName | Response::Malformed => 400,
            Response::NotFound => 404,
            Response::AlreadyExists => 409,
            Response::ReadFailed | Response::WriteFailed | Response::RemoveFailed
            | Response::OutOfTurn => 500,
        }
    }

    /// The plain-text body.
    pub fn message(&self) -> (text: &'static str)
        ensures
            text@ == message_of(self@),
    {
        match self {
            Response::Uploaded => "File uploaded successfully",
            Response::Deleted => "File deleted successfully",
            Response::File(_) => "",
            Response::InvalidName => "Invalid filename",
            Response::Malformed => "Malformed request",
            Response::AlreadyExists => "File already exists",
            Response::NotFound => "File not found",
            Response::ReadFailed => "Could not read file",
            Response::WriteFailed => "Could not write file",
            Response::RemoveFailed => "Could not delete file",
            Response::OutOfTurn => "Internal error",
        }
    }

    /// The file that the answer carries, if it carries one.
    pub fn into_file(self) -> (file: Option<Vec<u8>>)
        ensures
            match self@ {
                Response::File(b) => file matches Some(f) && f@ == b,
                _ => file is None,
            },
    {
        match self {
            Response::File(b) => Some(b),
            _ => None,
        }
    }
}

} // verus!
