//! Webhooks.

use crate::client::nvisy::is_prepared;
use crate::client::nvisy::NvisyClient;
use crate::client::request::Body;
use crate::client::request::Method;
use crate::client::request::NoRecord;
use crate::client::request::Request;
use crate::error::Error;
use crate::model::Uuid;
use crate::service::cursor_query;
use crate::service::path_of;
use crate::service::push_cursor_params;
use crate::service::resource_path;
use crate::text::pairs_text;
use vstd::prelude::*;
use vstd::string::StringExecFns;
use crate::model::webhook::CreateWebhook;
use crate::model::webhook::TestWebhook;
use crate::model::webhook::UpdateWebhook;

verus! {

/// Which page of the list of webhooks to ask for.
#[derive(Clone, Debug)]
pub struct ListWebhooksOptions {
    /// Where the page begins.
    pub after: Option<String>,
    /// How many webhooks the page holds at most.
    pub limit: Option<i32>,
}

impl Default for ListWebhooksOptions {
    fn default() -> (options: ListWebhooksOptions)
        ensures
            options == (ListWebhooksOptions { after: None, limit: None }),
    {
        ListWebhooksOptions { after: None, limit: None }
    }
}

impl ListWebhooksOptions {
    /// The first page, of the server's own size.
    pub fn new() -> (options: ListWebhooksOptions)
        ensures
            options == (ListWebhooksOptions { after: None, limit: None }),
    {
        ListWebhooksOptions { after: None, limit: None }
    }

    /// Sets where the page begins.
    pub fn after(self, cursor: &str) -> (options: ListWebhooksOptions)
        ensures
            options.after matches Some(set) && set@ == cursor@,
            options.limit == self.limit,
    {
        let mut options = self;
        options.after = Some(String::from_str(cursor));
        options
    }

    /// Sets how many webhooks the page holds at most.
    pub fn limit(self, limit: i32) -> (options: ListWebhooksOptions)
        ensures
            options == (ListWebhooksOptions { limit: Some(limit), ..self }),
    {
        let mut options = self;
        options.limit = Some(limit);
        options
    }
}

/// The query that `options` ask for.
pub open spec fn webhooks_query(options: Option<ListWebhooksOptions>) -> Seq<(Seq<char>, Seq<char>)> {
    match options {
        Some(options) => cursor_query(options.after, options.limit),
        None => Seq::empty(),
    }
}

/// The operations on webhooks.
pub trait WebhooksService {
    /// Lists the webhooks of a workspace.
    fn list_webhooks(&self, workspace_id: Uuid, options: Option<ListWebhooksOptions>) -> Result<
        Request<NoRecord>,
        Error,
    >;

    /// Gets a webhook.
    fn get_webhook(&self, webhook_id: Uuid) -> Result<Request<NoRecord>, Error>;

    /// Creates a webhook in a workspace.
    fn create_webhook(&self, workspace_id: Uuid, request: CreateWebhook) -> Result<Request<CreateWebhook>, Error>;

    /// Changes the fields of a webhook that `update` sets.
    fn update_webhook(&self, webhook_id: Uuid, update: UpdateWebhook) -> Result<Request<UpdateWebhook>, Error>;

    /// Deletes a webhook.
    fn delete_webhook(&self, webhook_id: Uuid) -> Result<Request<NoRecord>, Error>;

    /// Has a webhook deliver a test payload: the usual one, or that of
    /// `request`.
    fn test_webhook(&self, webhook_id: Uuid, request: Option<TestWebhook>) -> Result<
        Request<TestWebhook>,
        Error,
    >;
}

impl WebhooksService for NvisyClient {
    /// `GET /workspaces/{id}/webhooks/`, with the page asked for as query parameters.
    fn list_webhooks(&self, workspace_id: Uuid, options: Option<ListWebhooksOptions>) -> (outcome: Result<
        Request<NoRecord>,
        Error,
    >)
        ensures
            is_prepared(
                outcome,
                self.settings(),
                Method::Get,
                path_of("/workspaces/"@, workspace_id, "/webhooks/"@),
                webhooks_query(options),
                Body::Empty,
            ),
    {
        let path = resource_path("/workspaces/", workspace_id, "/webhooks/");
        let mut query: Vec<(String, String)> = Vec::new();
        match &options {
            Some(options) => {
                push_cursor_params(&mut query, &options.after, options.limit);
            },
            None => {},
        }
        assert(pairs_text(query@) =~= webhooks_query(options));
        self.request_builder(Method::Get, path.as_str(), query)
    }

    /// `GET /webhooks/{id}/`
    fn get_webhook(&self, webhook_id: Uuid) -> (outcome: Result<Request<NoRecord>, Error>)
        ensures
            is_prepared(
                outcome,
                self.settings(),
                Method::Get,
                path_of("/webhooks/"@, webhook_id, "/"@),
                Seq::empty(),
                Body::Empty,
            ),
    {
        let path = resource_path("/webhooks/", webhook_id, "/");
        self.prepare(Method::Get, path.as_str())
    }

    /// `POST /workspaces/{id}/webhooks/` with `request` as JSON.
    fn create_webhook(&self, workspace_id: Uuid, request: CreateWebhook) -> (outcome: Result<Request<CreateWebhook>, Error>)
        ensures
            is_prepared(
                outcome,
                self.settings(),
                Method::Post,
                path_of("/workspaces/"@, workspace_id, "/webhooks/"@),
                Seq::empty(),
                Body::Json(request),
            ),
    {
        let path = resource_path("/workspaces/", workspace_id, "/webhooks/");
        self.prepare_json(Method::Post, path.as_str(), request)
    }

    /// `PATCH /webhooks/{id}/` with `update` as JSON.
    fn update_webhook(&self, webhook_id: Uuid, update: UpdateWebhook) -> (outcome: Result<Request<UpdateWebhook>, Error>)
        ensures
            is_prepared(
                outcome,
                self.settings(),
                Method::Patch,
                path_of("/webhooks/"@, webhook_id, "/"@),
                Seq::empty(),
                Body::Json(update),
            ),
    {
        let path = resource_path("/webhooks/", webhook_id, "/");
        self.prepare_json(Method::Patch, path.as_str(), update)
    }

    /// `DELETE /webhooks/{id}/`
    fn delete_webhook(&self, webhook_id: Uuid) -> (outcome: Result<Request<NoRecord>, Error>)
        ensures
            is_prepared(
                outcome,
                self.settings(),
                Method::Delete,
                path_of("/webhooks/"@, webhook_id, "/"@),
                Seq::empty(),
                Body::Empty,
            ),
    {
        let path = resource_path("/webhooks/", webhook_id, "/");
        self.prepare(Method::Delete, path.as_str())
    }

    /// `POST /webhooks/{id}/test`, with `request` as JSON where there is
    /// one.
    fn test_webhook(&self, webhook_id: Uuid, request: Option<TestWebhook>) -> (outcome: Result<
        Request<TestWebhook>,
        Error,
    >)
        ensures
            is_prepared(
                outcome,
                self.settings(),
                Method::Post,
                path_of("/webhooks/"@, webhook_id, "/test"@),
                Seq::empty(),
                match request {
                    Some(request) => Body::Json(request),
                    None => Body::Empty,
                },
            ),
    {
        let path = resource_path("/webhooks/", webhook_id, "/test");
        match request {
            Some(request) => self.prepare_json(Method::Post, path.as_str(), request),
            None => self.prepare(Method::Post, path.as_str()),
        }
    }
}

} // verus!
