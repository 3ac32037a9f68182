//! Workspaces.

use crate::client::nvisy::is_prepared;
use crate::client::nvisy::is_request;
use crate::client::nvisy::located_with;
use crate::client::nvisy::NvisyClient;
use crate::client::request::Body;
use crate::client::request::Method;
use crate::client::request::NoRecord;
use crate::client::request::Request;
use crate::error::Error;
use crate::model::workspace::CreateWorkspace;
use crate::model::workspace::UpdateNotificationSettings;
use crate::model::workspace::UpdateWorkspace;
use crate::model::Uuid;
use crate::service::cursor_query;
use crate::service::path_of;
use crate::service::push_cursor_params;
use crate::service::resource_path;
use crate::text::pairs_text;
use vstd::prelude::*;
use vstd::string::StringExecFns;

verus! {

/// Which page of the list of workspaces to ask for.
#[derive(Clone, Debug)]
pub struct ListWorkspacesOptions {
    /// Where the page begins.
    pub after: Option<String>,
    /// How many workspaces the page holds at most.
    pub limit: Option<i32>,
}

impl Default for ListWorkspacesOptions {
    fn default() -> (options: ListWorkspacesOptions)
        ensures
            options == (ListWorkspacesOptions { after: None, limit: None }),
    {
        ListWorkspacesOptions { after: None, limit: None }
    }
}

impl ListWorkspacesOptions {
    /// The first page, of the server's own size.
    pub fn new() -> (options: ListWorkspacesOptions)
        ensures
            options == (ListWorkspacesOptions { after: None, limit: None }),
    {
        ListWorkspacesOptions { after: None, limit: None }
    }

    /// Sets where the page begins.
    pub fn after(self, cursor: &str) -> (options: ListWorkspacesOptions)
        ensures
            options.after matches Some(set) && set@ == cursor@,
            options.limit == self.limit,
    {
        let mut options = self;
        options.after = Some(String::from_str(cursor));
        options
    }

    /// Sets how many workspaces the page holds at most.
    pub fn limit(self, limit: i32) -> (options: ListWorkspacesOptions)
        ensures
            options == (ListWorkspacesOptions { limit: Some(limit), ..self }),
    {
        let mut options = self;
        options.limit = Some(limit);
        options
    }
}

/// The path of the list of workspaces.
pub open spec fn workspaces_path() -> Seq<char> {
    "/workspaces/"@
}

/// The path of one workspace.
pub open spec fn workspace_path(workspace_id: Uuid) -> Seq<char> {
    path_of("/workspaces/"@, workspace_id, "/"@)
}

/// The path of the notification settings of one workspace.
pub open spec fn notifications_path(workspace_id: Uuid) -> Seq<char> {
    path_of("/workspaces/"@, workspace_id, "/notifications"@)
}

/// The query that `options` ask for.
pub open spec fn workspaces_query(options: Option<ListWorkspacesOptions>) -> Seq<
    (Seq<char>, Seq<char>),
> {
    match options {
        Some(options) => cursor_query(options.after, options.limit),
        None => Seq::empty(),
    }
}

/// The operations on workspaces.
pub trait WorkspacesService {
    /// Lists the workspaces that the caller is a member of.
    fn list_workspaces(&self, options: Option<ListWorkspacesOptions>) -> Result<
        Request<NoRecord>,
        Error,
    >;

    /// Gets a workspace.
    fn get_workspace(&self, workspace_id: Uuid) -> Result<Request<NoRecord>, Error>;

    /// Creates a workspace; the caller becomes its owner.
    fn create_workspace(&self, request: CreateWorkspace) -> Result<Request<CreateWorkspace>, Error>;

    /// Changes the fields of a workspace that `update` sets.
    fn update_workspace(&self, workspace_id: Uuid, update: UpdateWorkspace) -> Result<
        Request<UpdateWorkspace>,
        Error,
    >;

    /// Deletes a workspace.
    fn delete_workspace(&self, workspace_id: Uuid) -> Result<Request<NoRecord>, Error>;

    /// Gets the caller's notification settings in a workspace.
    fn get_workspace_notifications(&self, workspace_id: Uuid) -> Result<Request<NoRecord>, Error>;

    /// Changes the notification settings that `update` sets.
    fn update_workspace_notifications(
        &self,
        workspace_id: Uuid,
        update: UpdateNotificationSettings,
    ) -> Result<Request<UpdateNotificationSettings>, Error>;
}

impl WorkspacesService for NvisyClient {
    /// `GET /workspaces/`, with the page asked for in the query of the
    /// address.
    fn list_workspaces(&self, options: Option<ListWorkspacesOptions>) -> (outcome: Result<
        Request<NoRecord>,
        Error,
    >)
        ensures
            match outcome {
                Ok(request) => located_with(
                    self.settings().base_url,
                    workspaces_path(),
                    workspaces_query(options),
                ) matches Some(address) && is_request(
                    request,
                    self.settings(),
                    Method::Get,
                    address,
                    Seq::empty(),
                    Body::Empty,
                ),
                Err(error) => located_with(
                    self.settings().base_url,
                    workspaces_path(),
                    workspaces_query(options),
                ) is None && error is UrlParse,
            },
    {
        let mut params: Vec<(String, String)> = Vec::new();
        match &options {
            Some(options) => {
                push_cursor_params(&mut params, &options.after, options.limit);
            },
            None => {},
        }
        self.prepare_with_params(Method::Get, "/workspaces/", &params)
    }

    /// `GET /workspaces/{id}/`
    fn get_workspace(&self, workspace_id: Uuid) -> (outcome: Result<Request<NoRecord>, Error>)
        ensures
            is_prepared(
                outcome,
                self.settings(),
                Method::Get,
                workspace_path(workspace_id),
                Seq::empty(),
                Body::Empty,
            ),
    {
        let path = resource_path("/workspaces/", workspace_id, "/");
        self.prepare(Method::Get, path.as_str())
    }

    /// `POST /workspaces/` with the request as JSON.
    fn create_workspace(&self, request: CreateWorkspace) -> (outcome: Result<
        Request<CreateWorkspace>,
        Error,
    >)
        ensures
            is_prepared(
                outcome,
                self.settings(),
                Method::Post,
                workspaces_path(),
                Seq::empty(),
                Body::Json(request),
            ),
    {
        self.prepare_json(Method::Post, "/workspaces/", request)
    }

    /// `PATCH /workspaces/{id}/` with the changes as JSON.
    fn update_workspace(&self, workspace_id: Uuid, update: UpdateWorkspace) -> (outcome: Result<
        Request<UpdateWorkspace>,
        Error,
    >)
        ensures
            is_prepared(
                outcome,
                self.settings(),
                Method::Patch,
                workspace_path(workspace_id),
                Seq::empty(),
                Body::Json(update),
            ),
    {
        let path = resource_path("/workspaces/", workspace_id, "/");
        self.prepare_json(Method::Patch, path.as_str(), update)
    }

    /// `DELETE /workspaces/{id}/`
    fn delete_workspace(&self, workspace_id: Uuid) -> (outcome: Result<Request<NoRecord>, Error>)
        ensures
            is_prepared(
                outcome,
                self.settings(),
                Method::Delete,
                workspace_path(workspace_id),
                Seq::empty(),
                Body::Empty,
            ),
    {
        let path = resource_path("/workspaces/", workspace_id, "/");
        self.prepare(Method::Delete, path.as_str())
    }

    /// `GET /workspaces/{id}/notifications`
    fn get_workspace_notifications(&self, workspace_id: Uuid) -> (outcome: Result<
        Request<NoRecord>,
        Error,
    >)
        ensures
            is_prepared(
                outcome,
                self.settings(),
                Method::Get,
                notifications_path(workspace_id),
                Seq::empty(),
                Body::Empty,
            ),
    {
        let path = resource_path("/workspaces/", workspace_id, "/notifications");
        self.prepare(Method::Get, path.as_str())
    }

    /// `PATCH /workspaces/{id}/notifications` with the changes as JSON.
    fn update_workspace_notifications(
        &self,
        workspace_id: Uuid,
        update: UpdateNotificationSettings,
    ) -> (outcome: Result<Request<UpdateNotificationSettings>, Error>)
        ensures
            is_prepared(
                outcome,
                self.settings(),
                Method::Patch,
                notifications_path(workspace_id),
                Seq::empty(),
                Body::Json(update),
            ),
    {
        let path = resource_path("/workspaces/", workspace_id, "/notifications");
        self.prepare_json(Method::Patch, path.as_str(), update)
    }
}

} // verus!
