//! Documents.

use crate::client::nvisy::is_direct;
use crate::client::nvisy::NvisyClient;
use crate::client::request::Body;
use crate::client::request::FilePart;
use crate::client::request::Method;
use crate::client::request::NoRecord;
use crate::client::request::Request;
use crate::model::document::CreateDocumentRequest;
use crate::model::document::UpdateDocumentRequest;
use crate::model::Pagination;
use crate::text::decimal;
use crate::text::decimal_text;
use crate::text::join2;
use crate::text::join3;
use crate::text::pairs_text;
use vstd::prelude::*;
use vstd::string::StringExecFns;

verus! {

/// The query that asks for one slice of a list: the offset, then the
/// limit; each where it is set.
pub open spec fn pagination_query(pagination: Option<Pagination>) -> Seq<(Seq<char>, Seq<char>)> {
    match pagination {
        Some(pagination) => {
            let skipped = match pagination.offset {
                Some(offset) => seq![("offset"@, decimal_text(offset as nat))],
                None => Seq::empty(),
            };
            match pagination.limit {
                Some(limit) => skipped.push(("limit"@, decimal_text(limit as nat))),
                None => skipped,
            }
        },
        None => Seq::empty(),
    }
}

/// Writes the query that asks for one slice of a list.
pub fn pagination_params(pagination: Option<Pagination>) -> (query: Vec<(String, String)>)
    ensures
        pairs_text(query@) == pagination_query(pagination),
{
    let mut query: Vec<(String, String)> = Vec::new();
    match pagination {
        Some(pagination) => {
            match pagination.offset {
                Some(offset) => {
                    query.push((String::from_str("offset"), decimal(offset as u64)));
                },
                None => {},
            }
            match pagination.limit {
                Some(limit) => {
                    query.push((String::from_str("limit"), decimal(limit as u64)));
                },
                None => {},
            }
        },
        None => {},
    }
    query
}

/// The operations on documents.
pub trait DocumentService {
    /// Gets the description of a document.
    fn get(&self, id: &str) -> Request<NoRecord>;

    /// Lists the documents.
    fn list(&self, pagination: Option<Pagination>) -> Request<NoRecord>;

    /// Lists the documents of a workspace.
    fn list_in_workspace(&self, workspace_id: &str, pagination: Option<Pagination>) -> Request<
        NoRecord,
    >;

    /// Registers a document, before its content is uploaded.
    fn create(&self, request: CreateDocumentRequest) -> Request<CreateDocumentRequest>;

    /// Changes the description of a document.
    fn update(&self, id: &str, request: UpdateDocumentRequest) -> Request<UpdateDocumentRequest>;

    /// Deletes a document.
    fn delete(&self, id: &str) -> Request<NoRecord>;

    /// Uploads the content of a document.
    fn upload_bytes(&self, id: &str, content: Vec<u8>) -> Request<NoRecord>;

    /// Downloads the content of a document.
    fn download_bytes(&self, id: &str) -> Request<NoRecord>;

    /// Asks for an address from which a browser can download the
    /// document.
    fn download_url(&self, id: &str) -> Request<NoRecord>;

    /// Lists the versions of a document.
    fn list_versions(&self, id: &str, pagination: Option<Pagination>) -> Request<NoRecord>;

    /// Makes a version of a document the current one again.
    fn restore_version(&self, id: &str, version: u32) -> Request<NoRecord>;
}

impl DocumentService for NvisyClient {
    /// `GET /documents/{id}`
    fn get(&self, id: &str) -> (request: Request<NoRecord>)
        ensures
            is_direct(
                request,
                self.settings(),
                Method::Get,
                "/documents/"@ + id@,
                Seq::empty(),
                Body::Empty,
            ),
    {
        let path = join2("/documents/", id);
        let request = self.direct(Method::Get, path.as_str(), Vec::new(), Body::Empty);
        assert(pairs_text(request.query@) =~= Seq::empty());
        request
    }

    /// `GET /documents`, with the slice asked for as query parameters.
    fn list(&self, pagination: Option<Pagination>) -> (request: Request<NoRecord>)
        ensures
            is_direct(
                request,
                self.settings(),
                Method::Get,
                "/documents"@,
                pagination_query(pagination),
                Body::Empty,
            ),
    {
        self.direct(Method::Get, "/documents", pagination_params(pagination), Body::Empty)
    }

    /// `GET /workspaces/{id}/documents`, with the slice asked for as query
    /// parameters.
    fn list_in_workspace(&self, workspace_id: &str, pagination: Option<Pagination>) -> (request:
        Request<NoRecord>)
        ensures
            is_direct(
                request,
                self.settings(),
                Method::Get,
                "/workspaces/"@ + workspace_id@ + "/documents"@,
                pagination_query(pagination),
                Body::Empty,
            ),
    {
        let path = join3("/workspaces/", workspace_id, "/documents");
        self.direct(Method::Get, path.as_str(), pagination_params(pagination), Body::Empty)
    }

    /// `POST /documents` with `request` as JSON.
    fn create(&self, request: CreateDocumentRequest) -> (made: Request<CreateDocumentRequest>)
        ensures
            is_direct(
                made,
                self.settings(),
                Method::Post,
                "/documents"@,
                Seq::empty(),
                Body::Json(request),
            ),
    {
        let made = self.direct(Method::Post, "/documents", Vec::new(), Body::Json(request));
        assert(pairs_text(made.query@) =~= Seq::empty());
        made
    }

    /// `PUT /documents/{id}` with `request` as JSON.
    fn update(&self, id: &str, request: UpdateDocumentRequest) -> (made: Request<
        UpdateDocumentRequest,
    >)
        ensures
            is_direct(
                made,
                self.settings(),
                Method::Put,
                "/documents/"@ + id@,
                Seq::empty(),
                Body::Json(request),
            ),
    {
        let path = join2("/documents/", id);
        let made = self.direct(Method::Put, path.as_str(), Vec::new(), Body::Json(request));
        assert(pairs_text(made.query@) =~= Seq::empty());
        made
    }

    /// `DELETE /documents/{id}`
    fn delete(&self, id: &str) -> (request: Request<NoRecord>)
        ensures
            is_direct(
                request,
                self.settings(),
                Method::Delete,
                "/documents/"@ + id@,
                Seq::empty(),
                Body::Empty,
            ),
    {
        let path = join2("/documents/", id);
        let request = self.direct(Method::Delete, path.as_str(), Vec::new(), Body::Empty);
        assert(pairs_text(request.query@) =~= Seq::empty());
        request
    }

    /// `PUT /documents/{id}/content` with a multipart form whose one
    /// field, `file`, holds `content`. The call names no file, so the
    /// content travels under the identifier of the document.
    fn upload_bytes(&self, id: &str, content: Vec<u8>) -> (request: Request<NoRecord>)
        ensures
            request.body matches Body::Multipart(part) && part.is_upload(id@, content),
            is_direct(
                request,
                self.settings(),
                Method::Put,
                "/documents/"@ + id@ + "/content"@,
                Seq::empty(),
                request.body,
            ),
    {
        let path = join3("/documents/", id, "/content");
        let form = FilePart::upload(id, content);
        let request = self.direct(Method::Put, path.as_str(), Vec::new(), Body::Multipart(form));
        assert(pairs_text(request.query@) =~= Seq::empty());
        request
    }

    /// `GET /documents/{id}/content`
    fn download_bytes(&self, id: &str) -> (request: Request<NoRecord>)
        ensures
            is_direct(
                request,
                self.settings(),
                Method::Get,
                "/documents/"@ + id@ + "/content"@,
                Seq::empty(),
                Body::Empty,
            ),
    {
        let path = join3("/documents/", id, "/content");
        let request = self.direct(Method::Get, path.as_str(), Vec::new(), Body::Empty);
        assert(pairs_text(request.query@) =~= Seq::empty());
        request
    }

    /// `GET /documents/{id}/url`
    fn download_url(&self, id: &str) -> (request: Request<NoRecord>)
        ensures
            is_direct(
                request,
                self.settings(),
                Method::Get,
                "/documents/"@ + id@ + "/url"@,
                Seq::empty(),
                Body::Empty,
            ),
    {
        let path = join3("/documents/", id, "/url");
        let request = self.direct(Method::Get, path.as_str(), Vec::new(), Body::Empty);
        assert(pairs_text(request.query@) =~= Seq::empty());
        request
    }

    /// `GET /documents/{id}/versions`, with the slice asked for as query
    /// parameters.
    fn list_versions(&self, id: &str, pagination: Option<Pagination>) -> (request: Request<
        NoRecord,
    >)
        ensures
            is_direct(
                request,
                self.settings(),
                Method::Get,
                "/documents/"@ + id@ + "/versions"@,
                pagination_query(pagination),
                Body::Empty,
            ),
    {
        let path = join3("/documents/", id, "/versions");
        self.direct(Method::Get, path.as_str(), pagination_params(pagination), Body::Empty)
    }

    /// `POST /documents/{id}/versions/{version}/restore`
    fn restore_version(&self, id: &str, version: u32) -> (request: Request<NoRecord>)
        ensures
            is_direct(
                request,
                self.settings(),
                Method::Post,
                "/documents/"@ + id@ + "/versions/"@ + decimal_text(version as nat) + "/restore"@,
                Seq::empty(),
                Body::Empty,
            ),
    {
        let number = decimal(version as u64);
        let mut path = join3("/documents/", id, "/versions/");
        path.append(number.as_str());
        path.append("/restore");
        let request = self.direct(Method::Post, path.as_str(), Vec::new(), Body::Empty);
        assert(pairs_text(request.query@) =~= Seq::empty());
        request
    }
}

} // verus!
