//! Workspaces and their notification settings.

use crate::model::Instant;
use crate::model::Uuid;
use vstd::prelude::*;
use vstd::string::StringExecFns;

verus! {

/// A workspace.
#[derive(Clone, Debug, PartialEq)]
pub struct Workspace {
    /// Unique workspace identifier.
    pub workspace_id: Uuid,
    /// Display name.
    pub display_name: String,
    /// Description.
    pub description: Option<String>,
    /// Tags.
    pub tags: Vec<String>,
    /// Whether comments are enabled.
    pub enable_comments: bool,
    /// Whether processed files need approval.
    pub require_approval: bool,
    /// The role of the caller in the workspace.
    pub member_role: WorkspaceRole,
    /// The account that created the workspace.
    pub created_by: Uuid,
    /// When it was created.
    pub created_at: Instant,
    /// When it was last changed.
    pub updated_at: Instant,
}

/// The role of a member in a workspace.
#[derive(Clone, Copy, Debug, PartialEq, Eq, Structural)]
pub enum WorkspaceRole {
    /// Full access and management rights.
    Owner,
    /// Can manage content and members.
    Admin,
    /// Can view and edit content.
    Editor,
    /// Can only view content.
    Viewer,
}

/// What it takes to create a workspace.
#[derive(Clone, Debug, PartialEq)]
pub struct CreateWorkspace {
    /// Display name.
    pub display_name: String,
    /// Description.
    pub description: Option<String>,
    /// Tags.
    pub tags: Vec<String>,
    /// Whether comments are enabled.
    pub enable_comments: bool,
    /// Whether processed files need approval.
    pub require_approval: bool,
}

/// Whether comments are enabled in a workspace whose creation does not
/// say: they are.
pub fn default_true() -> (enabled: bool)
    ensures
        enabled,
{
    true
}

impl CreateWorkspace {
    /// A workspace of the given name, without description or tags, with
    /// comments enabled and no approval required.
    pub fn new(display_name: &str) -> (request: CreateWorkspace)
        ensures
            request.display_name@ == display_name@,
            request.description is None,
            request.tags@ == Seq::<String>::empty(),
            request.enable_comments,
            !request.require_approval,
    {
        CreateWorkspace {
            display_name: String::from_str(display_name),
            description: None,
            tags: Vec::new(),
            enable_comments: default_true(),
            require_approval: false,
        }
    }

    /// Sets the description.
    pub fn with_description(self, description: &str) -> (request: CreateWorkspace)
        ensures
            request.description matches Some(set) && set@ == description@,
            request.display_name == self.display_name,
            request.tags == self.tags,
            request.enable_comments == self.enable_comments,
            request.require_approval == self.require_approval,
    {
        let mut request = self;
        request.description = Some(String::from_str(description));
        request
    }

    /// Sets the tags.
    pub fn with_tags(self, tags: Vec<String>) -> (request: CreateWorkspace)
        ensures
            request == (CreateWorkspace { tags, ..self }),
    {
        let mut request = self;
        request.tags = tags;
        request
    }

    /// Sets whether comments are enabled.
    pub fn with_comments(self, enabled: bool) -> (request: CreateWorkspace)
        ensures
            request == (CreateWorkspace { enable_comments: enabled, ..self }),
    {
        let mut request = self;
        request.enable_comments = enabled;
        request
    }

    /// Sets whether processed files need approval.
    pub fn with_approval(self, required: bool) -> (request: CreateWorkspace)
        ensures
            request == (CreateWorkspace { require_approval: required, ..self }),
    {
        let mut request = self;
        request.require_approval = required;
        request
    }
}

/// Changes to a workspace; a field left `None` stays as it is.
#[derive(Clone, Debug, PartialEq)]
pub struct UpdateWorkspace {
    /// New display name.
    pub display_name: Option<String>,
    /// New description.
    pub description: Option<String>,
    /// New tags.
    pub tags: Option<Vec<String>>,
    /// Whether comments are enabled.
    pub enable_comments: Option<bool>,
    /// Whether processed files need approval.
    pub require_approval: Option<bool>,
}

impl Default for UpdateWorkspace {
    fn default() -> (update: UpdateWorkspace)
        ensures
            update == (UpdateWorkspace {
                display_name: None,
                description: None,
                tags: None,
                enable_comments: None,
                require_approval: None,
            }),
    {
        UpdateWorkspace {
            display_name: None,
            description: None,
            tags: None,
            enable_comments: None,
            require_approval: None,
        }
    }
}

/// One page of a list of workspaces.
#[derive(Clone, Debug, PartialEq)]
pub struct WorkspacesPage {
    /// The workspaces of this page.
    pub items: Vec<Workspace>,
    /// Where the next page begins.
    pub next_cursor: Option<String>,
    /// Whether more pages follow.
    pub has_more: bool,
}

/// How a workspace notifies the caller.
#[derive(Clone, Debug, PartialEq)]
pub struct NotificationSettings {
    /// Whether mail is sent.
    pub email_enabled: bool,
    /// Whether notifications show in the application.
    pub in_app_enabled: bool,
    /// The events to notify about.
    pub events: Vec<NotificationEvent>,
}

/// The events that a workspace can notify about.
#[derive(Clone, Copy, Debug, PartialEq, Eq, Structural)]
pub enum NotificationEvent {
    /// New comment added.
    CommentAdded,
    /// Reply to a comment.
    CommentReply,
    /// File processing completed.
    FileCompleted,
    /// File processing failed.
    FileFailed,
    /// New member joined.
    MemberJoined,
    /// Member left the workspace.
    MemberLeft,
}

/// Changes to notification settings; a field left `None` stays as it is.
#[derive(Clone, Debug, PartialEq)]
pub struct UpdateNotificationSettings {
    /// Whether mail is sent.
    pub email_enabled: Option<bool>,
    /// Whether notifications show in the application.
    pub in_app_enabled: Option<bool>,
    /// The events to notify about.
    pub events: Option<Vec<NotificationEvent>>,
}

impl Default for UpdateNotificationSettings {
    fn default() -> (update: UpdateNotificationSettings)
        ensures
            update == (UpdateNotificationSettings {
                email_enabled: None,
                in_app_enabled: None,
                events: None,
            }),
    {
        UpdateNotificationSettings { email_enabled: None, in_app_enabled: None, events: None }
    }
}

} // verus!
