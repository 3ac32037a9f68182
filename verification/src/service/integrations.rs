//! Integrations.

use crate::client::nvisy::is_prepared;
use crate::client::nvisy::NvisyClient;
use crate::client::request::Body;
use crate::client::request::Method;
use crate::client::request::NoRecord;
use crate::client::request::Request;
use crate::error::Error;
use crate::model::Uuid;
use crate::service::cursor_query;
use crate::service::path_of;
use crate::service::push_cursor_params;
use crate::service::resource_path;
use crate::text::pairs_text;
use vstd::prelude::*;
use vstd::string::StringExecFns;
use crate::model::integration::CreateIntegration;
use crate::model::integration::UpdateIntegration;

verus! {

/// Which page of the list of integrations to ask for.
#[derive(Clone, Debug)]
pub struct ListIntegrationsOptions {
    /// Where the page begins.
    pub after: Option<String>,
    /// How many integrations the page holds at most.
    pub limit: Option<i32>,
}

impl Default for ListIntegrationsOptions {
    fn default() -> (options: ListIntegrationsOptions)
        ensures
            options == (ListIntegrationsOptions { after: None, limit: None }),
    {
        ListIntegrationsOptions { after: None, limit: None }
    }
}

impl ListIntegrationsOptions {
    /// The first page, of the server's own size.
    pub fn new() -> (options: ListIntegrationsOptions)
        ensures
            options == (ListIntegrationsOptions { after: None, limit: None }),
    {
        ListIntegrationsOptions { after: None, limit: None }
    }

    /// Sets where the page begins.
    pub fn after(self, cursor: &str) -> (options: ListIntegrationsOptions)
        ensures
            options.after matches Some(set) && set@ == cursor@,
            options.limit == self.limit,
    {
        let mut options = self;
        options.after = Some(String::from_str(cursor));
        options
    }

    /// Sets how many integrations the page holds at most.
    pub fn limit(self, limit: i32) -> (options: ListIntegrationsOptions)
        ensures
            options == (ListIntegrationsOptions { limit: Some(limit), ..self }),
    {
        let mut options = self;
        options.limit = Some(limit);
        options
    }
}

/// The query that `options` ask for.
pub open spec fn integrations_query(options: Option<ListIntegrationsOptions>) -> Seq<(Seq<char>, Seq<char>)> {
    match options {
        Some(options) => cursor_query(options.after, options.limit),
        None => Seq::empty(),
    }
}

/// The operations on integrations.
pub trait IntegrationsService {
    /// Lists the integrations of a workspace.
    fn list_integrations(&self, workspace_id: Uuid, options: Option<ListIntegrationsOptions>) -> Result<
        Request<NoRecord>,
        Error,
    >;

    /// Gets an integration.
    fn get_integration(&self, integration_id: Uuid) -> Result<Request<NoRecord>, Error>;

    /// Creates an integration in a workspace.
    fn create_integration(&self, workspace_id: Uuid, request: CreateIntegration) -> Result<Request<CreateIntegration>, Error>;

    /// Changes the fields of an integration that `update` sets.
    fn update_integration(&self, integration_id: Uuid, update: UpdateIntegration) -> Result<Request<UpdateIntegration>, Error>;

    /// Deletes an integration.
    fn delete_integration(&self, integration_id: Uuid) -> Result<Request<NoRecord>, Error>;

    /// Has an integration synchronise now.
    fn sync_integration(&self, integration_id: Uuid) -> Result<Request<NoRecord>, Error>;
}

impl IntegrationsService for NvisyClient {
    /// `GET /workspaces/{id}/integrations/`, with the page asked for as query parameters.
    fn list_integrations(&self, workspace_id: Uuid, options: Option<ListIntegrationsOptions>) -> (outcome: Result<
        Request<NoRecord>,
        Error,
    >)
        ensures
            is_prepared(
                outcome,
                self.settings(),
                Method::Get,
                path_of("/workspaces/"@, workspace_id, "/integrations/"@),
                integrations_query(options),
                Body::Empty,
            ),
    {
        let path = resource_path("/workspaces/", workspace_id, "/integrations/");
        let mut query: Vec<(String, String)> = Vec::new();
        match &options {
            Some(options) => {
                push_cursor_params(&mut query, &options.after, options.limit);
            },
            None => {},
        }
        assert(pairs_text(query@) =~= integrations_query(options));
        self.request_builder(Method::Get, path.as_str(), query)
    }

    /// `GET /integrations/{id}/`
    fn get_integration(&self, integration_id: Uuid) -> (outcome: Result<Request<NoRecord>, Error>)
        ensures
            is_prepared(
                outcome,
                self.settings(),
                Method::Get,
                path_of("/integrations/"@, integration_id, "/"@),
                Seq::empty(),
                Body::Empty,
            ),
    {
        let path = resource_path("/integrations/", integration_id, "/");
        self.prepare(Method::Get, path.as_str())
    }

    /// `POST /workspaces/{id}/integrations/` with `request` as JSON.
    fn create_integration(&self, workspace_id: Uuid, request: CreateIntegration) -> (outcome: Result<Request<CreateIntegration>, Error>)
        ensures
            is_prepared(
                outcome,
                self.settings(),
                Method::Post,
                path_of("/workspaces/"@, workspace_id, "/integrations/"@),
                Seq::empty(),
                Body::Json(request),
            ),
    {
        let path = resource_path("/workspaces/", workspace_id, "/integrations/");
        self.prepare_json(Method::Post, path.as_str(), request)
    }

    /// `PATCH /integrations/{id}/` with `update` as JSON.
    fn update_integration(&self, integration_id: Uuid, update: UpdateIntegration) -> (outcome: Result<Request<UpdateIntegration>, Error>)
        ensures
            is_prepared(
                outcome,
                self.settings(),
                Method::Patch,
                path_of("/integrations/"@, integration_id, "/"@),
                Seq::empty(),
                Body::Json(update),
            ),
    {
        let path = resource_path("/integrations/", integration_id, "/");
        self.prepare_json(Method::Patch, path.as_str(), update)
    }

    /// `DELETE /integrations/{id}/`
    fn delete_integration(&self, integration_id: Uuid) -> (outcome: Result<Request<NoRecord>, Error>)
        ensures
            is_prepared(
                outcome,
                self.settings(),
                Method::Delete,
                path_of("/integrations/"@, integration_id, "/"@),
                Seq::empty(),
                Body::Empty,
            ),
    {
        let path = resource_path("/integrations/", integration_id, "/");
        self.prepare(Method::Delete, path.as_str())
    }

    /// `POST /integrations/{id}/sync`
    fn sync_integration(&self, integration_id: Uuid) -> (outcome: Result<Request<NoRecord>, Error>)
        ensures
            is_prepared(
                outcome,
                self.settings(),
                Method::Post,
                path_of("/integrations/"@, integration_id, "/sync"@),
                Seq::empty(),
                Body::Empty,
            ),
    {
        let path = resource_path("/integrations/", integration_id, "/sync");
        self.prepare(Method::Post, path.as_str())
    }
}

} // verus!
