//! An HTTP exchange as plain values: the request that an operation asks
//! for, and the answer that came back.

use crate::client::config::Timeout;
use crate::error::Error;
use crate::error::HttpError;
use vstd::prelude::*;
use vstd::string::StringExecFns;

verus! {

/// The name of the form field that holds an uploaded file.
pub const FILE_FIELD: &'static str = "file";

/// What an upload answers with when it stored nothing.
pub const NO_FILES: &'static str = "upload returned no files";

/// The HTTP methods that the API is called with.
#[derive(Debug, Clone, Copy, PartialEq, Eq, Structural)]
pub enum Method {
    /// `GET`
    Get,
    /// `POST`
    Post,
    /// `PUT`
    Put,
    /// `PATCH`
    Patch,
    /// `DELETE`
    Delete,
}

impl Method {
    /// The method as it stands in a request line.
    pub open spec fn name(self) -> Seq<char> {
        match self {
            Method::Get => "GET"@,
            Method::Post => "POST"@,
            Method::Put => "PUT"@,
            Method::Patch => "PATCH"@,
            Method::Delete => "DELETE"@,
        }
    }

    /// The method as it stands in a request line.
    pub fn as_str(&self) -> (name: &'static str)
        ensures
            name@ == self.name(),
    {
        match self {
            Method::Get => "GET",
            Method::Post => "POST",
            Method::Put => "PUT",
            Method::Patch => "PATCH",
            Method::Delete => "DELETE",
        }
    }
}

/// One file as a field of a multipart form.
#[derive(Debug, Clone)]
pub struct FilePart {
    /// The name of the form field.
    pub field: String,
    /// The name under which the file is stored.
    pub file_name: String,
    /// The content of the file.
    pub data: Vec<u8>,
}

impl FilePart {
    /// Whether this part is the one file of an upload: the field `file`,
    /// holding `data` under the name `file_name`.
    pub open spec fn is_upload(self, file_name: Seq<char>, data: Vec<u8>) -> bool {
        &&& self.field@ == FILE_FIELD@
        &&& self.file_name@ == file_name
        &&& self.data == data
    }

    /// The one file of an upload: the field `file`, holding `data` under
    /// the name `file_name`.
    pub fn upload(file_name: &str, data: Vec<u8>) -> (part: FilePart)
        ensures
            part.is_upload(file_name@, data),
    {
        FilePart {
            field: String::from_str(FILE_FIELD),
            file_name: String::from_str(file_name),
            data,
        }
    }
}

/// What a request carries. An upload is a multipart form; every other
/// body is JSON.
#[derive(Debug, Clone)]
pub enum Body<T> {
    /// Nothing.
    Empty,
    /// A record, to be written as JSON.
    Json(T),
    /// A multipart form with one file.
    Multipart(FilePart),
}

/// A request, ready for a transport to send. It holds the credential in
/// its headers, so it has no form for a log.
#[derive(Clone)]
pub struct Request<T> {
    /// The HTTP method.
    pub method: Method,
    /// The address.
    pub url: String,
    /// Name and value of each parameter to append to the address's query.
    pub query: Vec<(String, String)>,
    /// Name and value of each header.
    pub headers: Vec<(String, String)>,
    /// How long to wait for the answer.
    pub timeout: Timeout,
    /// What the request carries.
    pub body: Body<T>,
}

/// Stands where a request type is needed and the request carries no
/// record.
#[derive(Debug, Clone, Copy, PartialEq, Eq, Structural)]
pub struct NoRecord;

/// An answer, as the transport received it.
#[derive(Debug, Clone)]
pub struct Response {
    /// The status code.
    pub status: u16,
    /// The body.
    pub body: Vec<u8>,
}

/// Whether a status code is in the success range.
pub open spec fn is_success(status: u16) -> bool {
    200 <= status <= 299
}

impl Response {
    /// Passes on an answer of success and turns any other into a failure
    /// that holds its status and body. This comes before the body is read
    /// as anything.
    pub fn error_for_status(self) -> (outcome: Result<Response, Error>)
        ensures
            match outcome {
                Ok(response) => is_success(self.status) && response == self,
                Err(error) => !is_success(self.status) && error == Error::Http(
                    HttpError::Status { status: self.status, body: self.body },
                ),
            },
    {
        if 200 <= self.status && self.status <= 299 {
            Ok(self)
        } else {
            Err(Error::Http(HttpError::Status { status: self.status, body: self.body }))
        }
    }
}

impl Response {
    /// The body of an answer of success; any other answer is a failure.
    pub fn bytes(self) -> (outcome: Result<Vec<u8>, Error>)
        ensures
            match outcome {
                Ok(body) => is_success(self.status) && body == self.body,
                Err(error) => !is_success(self.status) && error == Error::Http(
                    HttpError::Status { status: self.status, body: self.body },
                ),
            },
    {
        match self.error_for_status() {
            Ok(response) => Ok(response.body),
            Err(error) => Err(error),
        }
    }

    /// Confirms an answer of success whose body does not matter; any other
    /// answer is a failure.
    pub fn confirm(self) -> (outcome: Result<(), Error>)
        ensures
            match outcome {
                Ok(_) => is_success(self.status),
                Err(error) => !is_success(self.status) && error == Error::Http(
                    HttpError::Status { status: self.status, body: self.body },
                ),
            },
    {
        match self.error_for_status() {
            Ok(_) => Ok(()),
            Err(error) => Err(error),
        }
    }
}

/// The one record that an upload stored: the first of those that the
/// server lists. An empty list is a failure of the API.
pub fn first_uploaded<T>(stored: Vec<T>) -> (outcome: Result<T, Error>)
    ensures
        match outcome {
            Ok(record) => stored.len() > 0 && record == stored[0],
            Err(error) => stored.len() == 0 && (error matches Error::Api(reason) && reason@
                == NO_FILES@),
        },
{
    let mut stored = stored;
    if stored.len() == 0 {
        Err(Error::Api(String::from_str(NO_FILES)))
    } else {
        Ok(stored.swap_remove(0))
    }
}

} // verus!
