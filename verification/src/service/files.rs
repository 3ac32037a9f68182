//! Files.

use crate::client::nvisy::is_prepared;
use crate::client::nvisy::located;
use crate::client::nvisy::NvisyClient;
use crate::client::request::Body;
use crate::client::request::FilePart;
use crate::client::request::Method;
use crate::client::request::NoRecord;
use crate::client::request::Request;
use crate::error::Error;
use crate::model::file::ArchiveFormat;
use crate::model::file::DeleteFiles;
use crate::model::file::DownloadFiles;
use crate::model::file::FileFormat;
use crate::model::file::UpdateFile;
use crate::model::Uuid;
use crate::service::cursor_query;
use crate::service::path_of;
use crate::service::push_cursor_params;
use crate::service::resource_path;
use crate::text::pairs_text;
use vstd::prelude::*;
use vstd::string::StringExecFns;

verus! {

/// Which files of a workspace to list, and which page of them.
#[derive(Clone, Debug)]
pub struct ListFilesOptions {
    /// The formats to keep.
    pub formats: Option<Vec<FileFormat>>,
    /// The text to search for.
    pub search: Option<String>,
    /// Where the page begins.
    pub after: Option<String>,
    /// How many files the page holds at most.
    pub limit: Option<i32>,
}

impl Default for ListFilesOptions {
    fn default() -> (options: ListFilesOptions)
        ensures
            options == (ListFilesOptions { formats: None, search: None, after: None, limit: None }),
    {
        ListFilesOptions { formats: None, search: None, after: None, limit: None }
    }
}

impl ListFilesOptions {
    /// Every file, first page, of the server's own size.
    pub fn new() -> (options: ListFilesOptions)
        ensures
            options == (ListFilesOptions { formats: None, search: None, after: None, limit: None }),
    {
        ListFilesOptions { formats: None, search: None, after: None, limit: None }
    }

    /// Sets the formats to keep.
    pub fn formats(self, formats: Vec<FileFormat>) -> (options: ListFilesOptions)
        ensures
            options == (ListFilesOptions { formats: Some(formats), ..self }),
    {
        let mut options = self;
        options.formats = Some(formats);
        options
    }

    /// Sets the text to search for.
    pub fn search(self, query: &str) -> (options: ListFilesOptions)
        ensures
            options.search matches Some(set) && set@ == query@,
            options.formats == self.formats,
            options.after == self.after,
            options.limit == self.limit,
    {
        let mut options = self;
        options.search = Some(String::from_str(query));
        options
    }

    /// Sets where the page begins.
    pub fn after(self, cursor: &str) -> (options: ListFilesOptions)
        ensures
            options.after matches Some(set) && set@ == cursor@,
            options.formats == self.formats,
            options.search == self.search,
            options.limit == self.limit,
    {
        let mut options = self;
        options.after = Some(String::from_str(cursor));
        options
    }

    /// Sets how many files the page holds at most.
    pub fn limit(self, limit: i32) -> (options: ListFilesOptions)
        ensures
            options == (ListFilesOptions { limit: Some(limit), ..self }),
    {
        let mut options = self;
        options.limit = Some(limit);
        options
    }
}

/// One `formats` parameter for each format, in their order.
pub open spec fn formats_query(formats: Seq<FileFormat>) -> Seq<(Seq<char>, Seq<char>)> {
    Seq::new(formats.len(), |i: int| ("formats"@, formats[i].name()))
}

/// The query that `options` ask for: the formats, the search text, then
/// the page; each where it is set.
pub open spec fn files_query(options: Option<ListFilesOptions>) -> Seq<(Seq<char>, Seq<char>)> {
    match options {
        Some(options) => {
            let kept = match options.formats {
                Some(formats) => formats_query(formats@),
                None => Seq::empty(),
            };
            let sought = match options.search {
                Some(search) => seq![("search"@, search@)],
                None => Seq::empty(),
            };
            kept + sought + cursor_query(options.after, options.limit)
        },
        None => Seq::empty(),
    }
}

/// Writes the query that `options` ask for.
pub fn files_params(options: &ListFilesOptions) -> (query: Vec<(String, String)>)
    ensures
        pairs_text(query@) == files_query(Some(*options)),
{
    let mut query: Vec<(String, String)> = Vec::new();
    match &options.formats {
        Some(formats) => {
            let mut i: usize = 0;
            while i < formats.len()
                invariant
                    i <= formats.len(),
                    pairs_text(query@) == formats_query(formats@.take(i as int)),
                decreases formats.len() - i,
            {
                query.push((String::from_str("formats"), String::from_str(formats[i].as_str())));
                assert(formats_query(formats@.take(i + 1)) =~= formats_query(
                    formats@.take(i as int),
                ).push(("formats"@, formats@[i as int].name())));
                i = i + 1;
            }
        },
        None => {},
    }
    let ghost kept = pairs_text(query@);
    match &options.search {
        Some(search) => {
            query.push((String::from_str("search"), search.clone()));
            assert(pairs_text(query@) =~= kept + seq![("search"@, search@)]);
        },
        None => {},
    }
    push_cursor_params(&mut query, &options.after, options.limit);
    query
}

/// The operations on files.
pub trait FilesService {
    /// Lists the files of a workspace.
    fn list_files(&self, workspace_id: Uuid, options: Option<ListFilesOptions>) -> Result<
        Request<NoRecord>,
        Error,
    >;

    /// Gets the description of a file.
    fn get_file(&self, file_id: Uuid) -> Result<Request<NoRecord>, Error>;

    /// Changes the fields of a file that `update` sets.
    fn update_file(&self, file_id: Uuid, update: UpdateFile) -> Result<Request<UpdateFile>, Error>;

    /// Deletes a file.
    fn delete_file(&self, file_id: Uuid) -> Result<Request<NoRecord>, Error>;

    /// Downloads the content of a file.
    fn download_file(&self, file_id: Uuid) -> Result<Request<NoRecord>, Error>;

    /// Uploads a file to a workspace.
    fn upload_file(&self, workspace_id: Uuid, file_name: &str, file_data: Vec<u8>) -> Result<
        Request<NoRecord>,
        Error,
    >;

    /// Deletes several files of a workspace.
    fn delete_files_batch(&self, workspace_id: Uuid, file_ids: Vec<Uuid>) -> Result<
        Request<DeleteFiles>,
        Error,
    >;

    /// Downloads several files of a workspace as one archive; with no
    /// identifiers, every file of the workspace.
    fn download_files_batch(
        &self,
        workspace_id: Uuid,
        file_ids: Vec<Uuid>,
        format: ArchiveFormat,
    ) -> Result<Request<DownloadFiles>, Error>;
}

impl FilesService for NvisyClient {
    /// `GET /workspaces/{id}/files/`, with the filters and the page asked
    /// for as query parameters.
    fn list_files(&self, workspace_id: Uuid, options: Option<ListFilesOptions>) -> (outcome:
        Result<Request<NoRecord>, Error>)
        ensures
            is_prepared(
                outcome,
                self.settings(),
                Method::Get,
                path_of("/workspaces/"@, workspace_id, "/files/"@),
                files_query(options),
                Body::Empty,
            ),
    {
        let path = resource_path("/workspaces/", workspace_id, "/files/");
        let query = match &options {
            Some(options) => files_params(options),
            None => Vec::new(),
        };
        assert(pairs_text(query@) =~= files_query(options));
        self.request_builder(Method::Get, path.as_str(), query)
    }

    /// `GET /files/{id}`
    fn get_file(&self, file_id: Uuid) -> (outcome: Result<Request<NoRecord>, Error>)
        ensures
            is_prepared(
                outcome,
                self.settings(),
                Method::Get,
                path_of("/files/"@, file_id, ""@),
                Seq::empty(),
                Body::Empty,
            ),
    {
        let path = resource_path("/files/", file_id, "");
        self.prepare(Method::Get, path.as_str())
    }

    /// `PATCH /files/{id}` with `update` as JSON.
    fn update_file(&self, file_id: Uuid, update: UpdateFile) -> (outcome: Result<
        Request<UpdateFile>,
        Error,
    >)
        ensures
            is_prepared(
                outcome,
                self.settings(),
                Method::Patch,
                path_of("/files/"@, file_id, ""@),
                Seq::empty(),
                Body::Json(update),
            ),
    {
        let path = resource_path("/files/", file_id, "");
        self.prepare_json(Method::Patch, path.as_str(), update)
    }

    /// `DELETE /files/{id}`
    fn delete_file(&self, file_id: Uuid) -> (outcome: Result<Request<NoRecord>, Error>)
        ensures
            is_prepared(
                outcome,
                self.settings(),
                Method::Delete,
                path_of("/files/"@, file_id, ""@),
                Seq::empty(),
                Body::Empty,
            ),
    {
        let path = resource_path("/files/", file_id, "");
        self.prepare(Method::Delete, path.as_str())
    }

    /// `GET /files/{id}/content`
    fn download_file(&self, file_id: Uuid) -> (outcome: Result<Request<NoRecord>, Error>)
        ensures
            is_prepared(
                outcome,
                self.settings(),
                Method::Get,
                path_of("/files/"@, file_id, "/content"@),
                Seq::empty(),
                Body::Empty,
            ),
    {
        let path = resource_path("/files/", file_id, "/content");
        self.prepare(Method::Get, path.as_str())
    }

    /// `POST /workspaces/{id}/files/` with a multipart form whose one
    /// field, `file`, holds the content under the given name.
    fn upload_file(&self, workspace_id: Uuid, file_name: &str, file_data: Vec<u8>) -> (outcome:
        Result<Request<NoRecord>, Error>)
        ensures
            match outcome {
                Ok(request) => {
                    &&& request.body matches Body::Multipart(part) && part.is_upload(
                        file_name@,
                        file_data,
                    )
                    &&& is_prepared(
                        outcome,
                        self.settings(),
                        Method::Post,
                        path_of("/workspaces/"@, workspace_id, "/files/"@),
                        Seq::empty(),
                        request.body,
                    )
                },
                Err(error) => located(
                    self.settings().base_url,
                    path_of("/workspaces/"@, workspace_id, "/files/"@),
                ) is None && error is UrlParse,
            },
    {
        let path = resource_path("/workspaces/", workspace_id, "/files/");
        let form = FilePart::upload(file_name, file_data);
        self.prepare_multipart(Method::Post, path.as_str(), form)
    }

    /// `DELETE /workspaces/{id}/files/batch` with the identifiers as JSON.
    fn delete_files_batch(&self, workspace_id: Uuid, file_ids: Vec<Uuid>) -> (outcome: Result<
        Request<DeleteFiles>,
        Error,
    >)
        ensures
            is_prepared(
                outcome,
                self.settings(),
                Method::Delete,
                path_of("/workspaces/"@, workspace_id, "/files/batch"@),
                Seq::empty(),
                Body::Json(DeleteFiles { file_ids }),
            ),
    {
        let path = resource_path("/workspaces/", workspace_id, "/files/batch");
        self.prepare_json(Method::Delete, path.as_str(), DeleteFiles { file_ids })
    }

    /// `GET /workspaces/{id}/files/batch` with the identifiers and the
    /// format of the archive as JSON.
    fn download_files_batch(
        &self,
        workspace_id: Uuid,
        file_ids: Vec<Uuid>,
        format: ArchiveFormat,
    ) -> (outcome: Result<Request<DownloadFiles>, Error>)
        ensures
            is_prepared(
                outcome,
                self.settings(),
                Method::Get,
                path_of("/workspaces/"@, workspace_id, "/files/batch"@),
                Seq::empty(),
                Body::Json(DownloadFiles { file_ids, format }),
            ),
    {
        let path = resource_path("/workspaces/", workspace_id, "/files/batch");
        self.prepare_json(Method::Get, path.as_str(), DownloadFiles { file_ids, format })
    }
}

} // verus!
