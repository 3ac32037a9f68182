//! Files of a workspace.

use crate::model::Instant;
use crate::model::Uuid;
use vstd::prelude::*;

verus! {

/// The format of a file.
#[derive(Clone, Copy, Debug, PartialEq, Eq, Structural)]
pub enum FileFormat {
    /// Word document
    Docx,
    /// PDF document
    Pdf,
    /// Excel spreadsheet
    Xlsx,
    /// PowerPoint presentation
    Pptx,
    /// SVG image
    Svg,
    /// JPEG image
    Jpeg,
    /// PNG image
    Png,
    /// JSON file
    Json,
    /// XML file
    Xml,
    /// Plain text
    Text,
}

impl FileFormat {
    /// The format as a query parameter names it.
    pub open spec fn name(self) -> Seq<char> {
        match self {
            FileFormat::Docx => "docx"@,
            FileFormat::Pdf => "pdf"@,
            FileFormat::Xlsx => "xlsx"@,
            FileFormat::Pptx => "pptx"@,
            FileFormat::Svg => "svg"@,
            FileFormat::Jpeg => "jpeg"@,
            FileFormat::Png => "png"@,
            FileFormat::Json => "json"@,
            FileFormat::Xml => "xml"@,
            FileFormat::Text => "text"@,
        }
    }

    /// The format as a query parameter names it.
    pub fn as_str(&self) -> (name: &'static str)
        ensures
            name@ == self.name(),
    {
        match self {
            FileFormat::Docx => "docx",
            FileFormat::Pdf => "pdf",
            FileFormat::Xlsx => "xlsx",
            FileFormat::Pptx => "pptx",
            FileFormat::Svg => "svg",
            FileFormat::Jpeg => "jpeg",
            FileFormat::Png => "png",
            FileFormat::Json => "json",
            FileFormat::Xml => "xml",
            FileFormat::Text => "text",
        }
    }
}

/// The format of an archive of files.
#[derive(Clone, Copy, Debug, PartialEq, Eq, Structural)]
pub enum ArchiveFormat {
    /// A ZIP archive.
    Zip,
    /// A gzipped tarball.
    TarGz,
}

/// How far the processing of a file has come.
#[derive(Clone, Copy, Debug, PartialEq, Eq, Structural)]
pub enum FileStatus {
    /// Stored, not yet processed.
    Pending,
    /// Being processed.
    Processing,
    /// Processed.
    Ready,
    /// Processing failed.
    Failed,
}

/// A file of a workspace.
#[derive(Clone, Debug)]
pub struct File {
    /// Unique file identifier.
    pub file_id: Uuid,
    /// The workspace that holds the file.
    pub workspace_id: Uuid,
    /// Display name.
    pub display_name: String,
    /// Size in bytes.
    pub file_size: u64,
    /// How far its processing has come.
    pub status: FileStatus,
    /// When it was created.
    pub created_at: Instant,
    /// When it was last changed.
    pub updated_at: Instant,
}

/// One page of a list of files.
#[derive(Clone, Debug)]
pub struct FilesPage {
    /// The files of this page.
    pub items: Vec<File>,
    /// Where the next page begins.
    pub next_cursor: Option<String>,
    /// Whether more pages follow.
    pub has_more: bool,
}

/// Changes to a file; a field left `None` stays as it is.
#[derive(Clone, Debug)]
pub struct UpdateFile {
    /// New display name.
    pub display_name: Option<String>,
}

impl Default for UpdateFile {
    fn default() -> (update: UpdateFile)
        ensures
            update == (UpdateFile { display_name: None }),
    {
        UpdateFile { display_name: None }
    }
}

/// The files to delete in one call.
#[derive(Clone, Debug)]
pub struct DeleteFiles {
    /// The identifiers of the files.
    pub file_ids: Vec<Uuid>,
}

/// The files to download as one archive.
#[derive(Clone, Debug)]
pub struct DownloadFiles {
    /// The identifiers of the files; none stands for every file of the
    /// workspace.
    pub file_ids: Vec<Uuid>,
    /// The format of the archive.
    pub format: ArchiveFormat,
}

} // verus!
