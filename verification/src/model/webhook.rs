//! Webhooks: subscriptions of an address to the events of a workspace.

use crate::model::Instant;
use crate::model::Uuid;
use std::collections::HashMap;
use vstd::prelude::*;
use vstd::string::StringExecFns;

verus! {

/// The events that a webhook can be told of.
#[derive(Clone, Copy, Debug, PartialEq, Eq, Structural)]
pub enum WebhookEvent {
    /// A document was created.
    DocumentCreated,
    /// A document was updated.
    DocumentUpdated,
    /// A document was deleted.
    DocumentDeleted,
    /// A file was created.
    FileCreated,
    /// A file was updated.
    FileUpdated,
    /// A file was deleted.
    FileDeleted,
    /// A member was added to the workspace.
    MemberAdded,
    /// A member was deleted from the workspace.
    MemberDeleted,
    /// A member's details were updated.
    MemberUpdated,
    /// An integration was created.
    IntegrationCreated,
    /// An integration was updated.
    IntegrationUpdated,
    /// An integration was deleted.
    IntegrationDeleted,
    /// An integration was synchronised.
    IntegrationSynced,
    /// An integration was desynchronised.
    IntegrationDesynced,
}

/// How a webhook is doing.
#[derive(Clone, Copy, Debug, PartialEq, Eq, Structural)]
pub enum WebhookStatus {
    /// It receives events.
    Active,
    /// It is paused for a while.
    Paused,
    /// It is switched off, after too many failures for one.
    Disabled,
}

/// Where a webhook comes from.
#[derive(Clone, Copy, Debug, PartialEq, Eq, Structural)]
pub enum WebhookType {
    /// A user provided it.
    Provided,
    /// An integration created it.
    Integration,
}

/// A webhook of a workspace.
#[derive(Clone, Debug)]
pub struct Webhook {
    /// Unique webhook identifier.
    pub webhook_id: Uuid,
    /// The workspace that the webhook belongs to.
    pub workspace_id: Uuid,
    /// Name.
    pub display_name: String,
    /// What the webhook is for.
    pub description: String,
    /// The address that events are sent to.
    pub url: String,
    /// The events that it is told of.
    pub events: Vec<WebhookEvent>,
    /// Headers that go with each delivery.
    pub headers: HashMap<String, String>,
    /// How it is doing.
    pub status: WebhookStatus,
    /// Where it comes from.
    pub webhook_type: WebhookType,
    /// The integration that created it, if one did.
    pub integration_id: Option<Uuid>,
    /// When it was last triggered.
    pub last_triggered_at: Option<Instant>,
    /// The account that created it.
    pub created_by: Uuid,
    /// When it was created.
    pub created_at: Instant,
    /// When it was last changed.
    pub updated_at: Instant,
}

/// One page of a list of webhooks.
#[derive(Clone, Debug)]
pub struct WebhooksPage {
    /// The webhooks of this page.
    pub items: Vec<Webhook>,
    /// Where the next page begins.
    pub next_cursor: Option<String>,
    /// How many webhooks the list holds in all.
    pub total: Option<i64>,
}

/// What it takes to create a webhook.
#[derive(Clone, Debug)]
pub struct CreateWebhook {
    /// Name (1 to 100 characters).
    pub display_name: String,
    /// What the webhook is for (at most 500 characters).
    pub description: String,
    /// The address that events are sent to.
    pub url: String,
    /// The events that it is told of.
    pub events: Vec<WebhookEvent>,
    /// Headers that go with each delivery.
    pub headers: Option<HashMap<String, String>>,
    /// How it starts out.
    pub status: Option<WebhookStatus>,
}

impl CreateWebhook {
    /// A webhook of the given name, purpose, address and events, with
    /// nothing else set.
    pub fn new(display_name: &str, description: &str, url: &str, events: Vec<WebhookEvent>) -> (request:
        CreateWebhook)
        ensures
            request.display_name@ == display_name@,
            request.description@ == description@,
            request.url@ == url@,
            request.events == events,
            request.headers is None,
            request.status is None,
    {
        CreateWebhook {
            display_name: String::from_str(display_name),
            description: String::from_str(description),
            url: String::from_str(url),
            events,
            headers: None,
            status: None,
        }
    }

    /// Sets the headers that go with each delivery.
    pub fn headers(self, headers: HashMap<String, String>) -> (request: CreateWebhook)
        ensures
            request == (CreateWebhook { headers: Some(headers), ..self }),
    {
        let mut request = self;
        request.headers = Some(headers);
        request
    }

    /// Sets how the webhook starts out.
    pub fn status(self, status: WebhookStatus) -> (request: CreateWebhook)
        ensures
            request == (CreateWebhook { status: Some(status), ..self }),
    {
        let mut request = self;
        request.status = Some(status);
        request
    }
}

/// Changes to a webhook; a field left `None` stays as it is.
#[derive(Clone, Debug)]
pub struct UpdateWebhook {
    /// New name.
    pub display_name: Option<String>,
    /// New description.
    pub description: Option<String>,
    /// New address.
    pub url: Option<String>,
    /// New events.
    pub events: Option<Vec<WebhookEvent>>,
    /// New headers.
    pub headers: Option<HashMap<String, String>>,
    /// New status.
    pub status: Option<WebhookStatus>,
}

impl Default for UpdateWebhook {
    fn default() -> (update: UpdateWebhook)
        ensures
            update == (UpdateWebhook {
                display_name: None,
                description: None,
                url: None,
                events: None,
                headers: None,
                status: None,
            }),
    {
        UpdateWebhook {
            display_name: None,
            description: None,
            url: None,
            events: None,
            headers: None,
            status: None,
        }
    }
}

/// The options of a test delivery.
#[derive(Clone, Debug)]
pub struct TestWebhook {
    /// What to send in place of the usual test payload.
    pub payload: Option<serde_json::Value>,
}

impl Default for TestWebhook {
    fn default() -> (request: TestWebhook)
        ensures
            request == (TestWebhook { payload: None }),
    {
        TestWebhook { payload: None }
    }
}

impl TestWebhook {
    /// A test delivery with the usual payload.
    pub fn new() -> (request: TestWebhook)
        ensures
            request == (TestWebhook { payload: None }),
    {
        TestWebhook { payload: None }
    }

    /// Sets what to send.
    pub fn payload(self, payload: serde_json::Value) -> (request: TestWebhook)
        ensures
            request == (TestWebhook { payload: Some(payload) }),
    {
        let mut request = self;
        request.payload = Some(payload);
        request
    }
}

/// How a delivery went.
#[derive(Clone, Copy, Debug, PartialEq, Eq, Structural)]
pub struct WebhookResult {
    /// The status code that the address answered with.
    pub status_code: i32,
    /// How long the answer took, in milliseconds.
    pub response_time_ms: i64,
}

} // verus!
