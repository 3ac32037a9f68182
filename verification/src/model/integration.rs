//! Integrations: connections of a workspace to other services.

use crate::model::Instant;
use crate::model::Uuid;
use vstd::prelude::*;
use vstd::string::StringExecFns;

verus! {

/// What kind of service an integration connects to.
#[derive(Clone, Copy, Debug, PartialEq, Eq, Structural)]
pub enum IntegrationType {
    /// Files and documents (Drive, S3, SharePoint, Dropbox).
    Storage,
    /// Mail and chat (Gmail, Slack, Teams).
    Communication,
    /// CRM, finance, legal (Salesforce, QuickBooks).
    Business,
    /// Data platforms (Snowflake, Tableau, Looker).
    Analytics,
    /// No-code automation (Zapier, Make).
    Automation,
    /// API and webhook integrations.
    Custom,
    /// Specialised verticals (healthcare, insurance).
    Industry,
}

/// How an integration is doing.
#[derive(Clone, Copy, Debug, PartialEq, Eq, Structural)]
pub enum IntegrationStatus {
    /// Waiting to be configured or activated.
    Pending,
    /// Running.
    Running,
    /// Cancelled.
    Cancelled,
}

/// An integration of a workspace.
#[derive(Clone, Debug)]
pub struct Integration {
    /// Unique integration identifier.
    pub integration_id: Uuid,
    /// The workspace that the integration belongs to.
    pub workspace_id: Uuid,
    /// Name.
    pub integration_name: String,
    /// What the integration is for.
    pub description: String,
    /// What kind of service it connects to.
    pub integration_type: IntegrationType,
    /// Whether it is enabled.
    pub is_active: bool,
    /// How the synchronisation is doing.
    pub sync_status: Option<IntegrationStatus>,
    /// When it last synchronised with success.
    pub last_sync_at: Option<Instant>,
    /// The account that created it.
    pub created_by: Uuid,
    /// When it was created.
    pub created_at: Instant,
    /// When it was last changed.
    pub updated_at: Instant,
}

/// One page of a list of integrations.
#[derive(Clone, Debug)]
pub struct IntegrationsPage {
    /// The integrations of this page.
    pub items: Vec<Integration>,
    /// Where the next page begins.
    pub next_cursor: Option<String>,
    /// How many integrations the list holds in all.
    pub total: Option<i64>,
}

/// What it takes to create an integration.
#[derive(Clone, Debug)]
pub struct CreateIntegration {
    /// Name (1 to 100 characters).
    pub integration_name: String,
    /// What the integration is for (1 to 500 characters).
    pub description: String,
    /// What kind of service it connects to.
    pub integration_type: IntegrationType,
    /// The credentials for that service.
    pub credentials: Option<serde_json::Value>,
    /// Whether it is enabled from the start.
    pub is_active: Option<bool>,
    /// More about it.
    pub metadata: Option<serde_json::Value>,
}

impl CreateIntegration {
    /// An integration of the given name, purpose and kind, with nothing
    /// else set.
    pub fn new(integration_name: &str, description: &str, integration_type: IntegrationType) -> (request:
        CreateIntegration)
        ensures
            request.integration_name@ == integration_name@,
            request.description@ == description@,
            request.integration_type == integration_type,
            request.credentials is None,
            request.is_active is None,
            request.metadata is None,
    {
        CreateIntegration {
            integration_name: String::from_str(integration_name),
            description: String::from_str(description),
            integration_type,
            credentials: None,
            is_active: None,
            metadata: None,
        }
    }

    /// Sets the credentials.
    pub fn credentials(self, credentials: serde_json::Value) -> (request: CreateIntegration)
        ensures
            request == (CreateIntegration { credentials: Some(credentials), ..self }),
    {
        let mut request = self;
        request.credentials = Some(credentials);
        request
    }

    /// Sets whether the integration is enabled from the start.
    pub fn is_active(self, is_active: bool) -> (request: CreateIntegration)
        ensures
            request == (CreateIntegration { is_active: Some(is_active), ..self }),
    {
        let mut request = self;
        request.is_active = Some(is_active);
        request
    }

    /// Sets what more there is to say about it.
    pub fn metadata(self, metadata: serde_json::Value) -> (request: CreateIntegration)
        ensures
            request == (CreateIntegration { metadata: Some(metadata), ..self }),
    {
        let mut request = self;
        request.metadata = Some(metadata);
        request
    }
}

/// Changes to an integration; a field left `None` stays as it is.
#[derive(Clone, Debug)]
pub struct UpdateIntegration {
    /// New name.
    pub integration_name: Option<String>,
    /// New description.
    pub description: Option<String>,
    /// New kind.
    pub integration_type: Option<IntegrationType>,
    /// New credentials.
    pub credentials: Option<serde_json::Value>,
    /// Whether it is enabled.
    pub is_active: Option<bool>,
    /// New metadata.
    pub metadata: Option<serde_json::Value>,
}

impl Default for UpdateIntegration {
    fn default() -> (update: UpdateIntegration)
        ensures
            update == (UpdateIntegration {
                integration_name: None,
                description: None,
                integration_type: None,
                credentials: None,
                is_active: None,
                metadata: None,
            }),
    {
        UpdateIntegration {
            integration_name: None,
            description: None,
            integration_type: None,
            credentials: None,
            is_active: None,
            metadata: None,
        }
    }
}

} // verus!
