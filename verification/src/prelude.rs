//! The names that most callers need, in one import.

pub use crate::client::config::NvisyConfig;
pub use crate::client::config::NvisyConfigBuilder;
pub use crate::client::config::Timeout;
pub use crate::client::nvisy::NvisyClient;
pub use crate::client::request::Method;
pub use crate::client::request::Request;
pub use crate::client::request::Response;
pub use crate::error::Error;
pub use crate::error::Result;
pub use crate::model::document::CreateDocumentRequest;
pub use crate::model::document::Document;
pub use crate::model::document::DocumentType;
pub use crate::model::document::DocumentVersion;
pub use crate::model::document::UpdateDocumentRequest;
pub use crate::model::workspace::CreateWorkspace;
pub use crate::model::workspace::UpdateWorkspace;
pub use crate::model::workspace::Workspace;
pub use crate::model::Id;
pub use crate::model::PaginatedResponse;
pub use crate::model::Pagination;
pub use crate::model::Timestamp;
pub use crate::model::Uuid;
pub use crate::service::documents::DocumentService;
pub use crate::service::files::FilesService;
pub use crate::service::workspaces::WorkspacesService;
