//! The records that the API exchanges.

pub mod document;
pub mod file;
pub mod health;
pub mod integration;
pub mod webhook;
pub mod workspace;

pub use document::CreateDocumentRequest;
pub use document::Document;
pub use document::DocumentType;
pub use document::DocumentVersion;
pub use document::UpdateDocumentRequest;
pub use file::ArchiveFormat;
pub use file::DeleteFiles;
pub use file::DownloadFiles;
pub use file::File;
pub use file::FileFormat;
pub use file::FileStatus;
pub use file::FilesPage;
pub use file::UpdateFile;
pub use health::CheckHealth;
pub use health::MonitorStatus;
pub use health::ServiceStatus;
pub use integration::CreateIntegration;
pub use integration::Integration;
pub use integration::IntegrationStatus;
pub use integration::IntegrationType;
pub use integration::IntegrationsPage;
pub use integration::UpdateIntegration;
pub use webhook::CreateWebhook;
pub use webhook::TestWebhook;
pub use webhook::UpdateWebhook;
pub use webhook::Webhook;
pub use webhook::WebhookEvent;
pub use webhook::WebhookResult;
pub use webhook::WebhookStatus;
pub use webhook::WebhookType;
pub use webhook::WebhooksPage;
pub use workspace::CreateWorkspace;
pub use workspace::NotificationEvent;
pub use workspace::NotificationSettings;
pub use workspace::UpdateNotificationSettings;
pub use workspace::UpdateWorkspace;
pub use workspace::Workspace;
pub use workspace::WorkspaceRole;
pub use workspace::WorkspacesPage;

use crate::trusted::hyphenated_text;
use crate::trusted::uuid_text;
use vstd::prelude::*;

verus! {

/// An identifier that the server assigned, as text.
pub type Id = String;

/// An instant in ISO 8601 form.
pub type Timestamp = String;

/// A 128-bit identifier that the server assigned.
#[derive(Debug, Clone, Copy, PartialEq, Eq, Hash, Structural)]
pub struct Uuid {
    /// The identifier as a number, its first byte being the most
    /// significant.
    pub value: u128,
}

impl Uuid {
    /// The identifier with the given value.
    pub fn from_u128(value: u128) -> (id: Uuid)
        ensures
            id.value == value,
    {
        Uuid { value }
    }

    /// The value of the identifier.
    pub fn as_u128(&self) -> (value: u128)
        ensures
            value == self.value,
    {
        self.value
    }

    /// The identifier as it stands in an address: 32 lower-case
    /// hexadecimal digits in five groups, with hyphens between them.
    pub fn to_text(&self) -> (text: String)
        ensures
            text@ == hyphenated_text(self.value),
            text@.len() == 36,
    {
        uuid_text(self.value)
    }
}

/// An instant in time: seconds since the Unix epoch, and the nanoseconds
/// beyond them.
#[derive(Debug, Clone, Copy, PartialEq, Eq, Structural)]
pub struct Instant {
    /// Whole seconds since 1970-01-01T00:00:00Z; negative before it.
    pub seconds: i64,
    /// Nanoseconds after that second.
    pub nanos: u32,
}

/// Which slice of a list to ask for: how many items to skip and how many
/// to return at most.
#[derive(Debug, Clone, Copy, PartialEq, Eq, Structural)]
pub struct Pagination {
    /// Number of items to skip.
    pub offset: Option<u32>,
    /// Maximum number of items to return.
    pub limit: Option<u32>,
}

impl Default for Pagination {
    fn default() -> (pagination: Pagination)
        ensures
            pagination == (Pagination { offset: None, limit: None }),
    {
        Pagination { offset: None, limit: None }
    }
}

impl Pagination {
    /// The slice of at most `limit` items after the first `offset`.
    pub fn new(offset: u32, limit: u32) -> (pagination: Pagination)
        ensures
            pagination == (Pagination { offset: Some(offset), limit: Some(limit) }),
    {
        Pagination { offset: Some(offset), limit: Some(limit) }
    }

    /// The offset at which page `page` begins, pages being counted from
    /// one and holding `per_page` items each. Page zero begins where page
    /// one does.
    pub open spec fn page_offset(page: u32, per_page: u32) -> int {
        if page == 0 {
            0
        } else {
            (page - 1) * per_page
        }
    }

    /// The slice that is page `page` of pages of `per_page` items.
    pub fn page(page: u32, per_page: u32) -> (pagination: Pagination)
        requires
            Pagination::page_offset(page, per_page) <= u32::MAX,
        ensures
            pagination.offset matches Some(offset) && offset == Pagination::page_offset(
                page,
                per_page,
            ),
            pagination.limit == Some(per_page),
    {
        let before: u32 = if page == 0 {
            0
        } else {
            page - 1
        };
        Pagination { offset: Some(before * per_page), limit: Some(per_page) }
    }
}

/// One slice of a list, with its place in the whole.
#[derive(Debug, Clone)]
pub struct PaginatedResponse<T> {
    /// The items in this slice.
    pub data: Vec<T>,
    /// Total number of items available.
    pub total: u32,
    /// Number of items before this slice.
    pub offset: u32,
    /// Maximum number of items in this slice.
    pub limit: u32,
}

impl<T> PaginatedResponse<T> {
    /// Whether items remain after this slice.
    pub open spec fn more(&self) -> bool {
        self.offset + self.limit < self.total
    }

    /// The slice that follows this one, if items remain.
    pub open spec fn next(&self) -> Option<Pagination> {
        if self.more() {
            Some(
                Pagination {
                    offset: Some((self.offset + self.limit) as u32),
                    limit: Some(self.limit),
                },
            )
        } else {
            None
        }
    }

    /// Whether items remain after this slice: whether offset and limit
    /// together fall short of the total.
    #[verifier::when_used_as_spec(more)]
    pub fn has_more(&self) -> (more: bool)
        ensures
            more == self.more(),
            more == (self.offset + self.limit < self.total),
    {
        (self.offset as u64) + (self.limit as u64) < (self.total as u64)
    }

    /// What to ask for next: nothing where no items remain, else the slice
    /// of the same limit that begins where this one ends.
    #[verifier::when_used_as_spec(next)]
    pub fn next_page(&self) -> (next: Option<Pagination>)
        ensures
            next == self.next(),
            next is None <==> !self.more(),
            next matches Some(pagination) ==> pagination.offset == Some(
                (self.offset + self.limit) as u32,
            ) && self.offset + self.limit <= u32::MAX && pagination.limit == Some(self.limit),
    {
        if self.has_more() {
            Some(Pagination { offset: Some(self.offset + self.limit), limit: Some(self.limit) })
        } else {
            None
        }
    }
}

/// Walking a list by `next_page` moves forward and ends: while items
/// remain, the next slice begins at offset plus limit, which is within the
/// total; where none remain, there is no next slice.
pub proof fn lemma_next_page<T>(response: PaginatedResponse<T>)
    ensures
        response.next() is None <==> !response.more(),
        response.more() ==> response.next() == Some(
            Pagination {
                offset: Some((response.offset + response.limit) as u32),
                limit: Some(response.limit),
            },
        ) && response.offset + response.limit < response.total,
{
}

} // verus!
