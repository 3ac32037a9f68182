//! Documents and their formats.

use crate::model::Id;
use crate::model::Timestamp;
use crate::text::same_text;
use crate::text::trim_start;
use crate::text::without_leading;
use crate::trusted::lowercase;
use crate::trusted::lowercase_text;
use vstd::prelude::*;

verus! {

/// The format of a document.
#[derive(Debug, Clone, Copy, PartialEq, Eq, Structural)]
pub enum DocumentType {
    /// Word document (.docx)
    Docx,
    /// PDF document (.pdf)
    Pdf,
    /// Excel spreadsheet (.xlsx)
    Xlsx,
    /// PowerPoint presentation (.pptx)
    Pptx,
    /// SVG image (.svg)
    Svg,
    /// JPEG image (.jpg, .jpeg)
    Jpeg,
    /// PNG image (.png)
    Png,
    /// JSON file (.json)
    Json,
    /// XML file (.xml)
    Xml,
    /// Plain text (.txt)
    Text,
    /// Any other format
    Other,
}

impl DocumentType {
    /// The file extension under which this format is stored.
    pub open spec fn extension_text(self) -> Seq<char> {
        match self {
            DocumentType::Docx => "docx"@,
            DocumentType::Pdf => "pdf"@,
            DocumentType::Xlsx => "xlsx"@,
            DocumentType::Pptx => "pptx"@,
            DocumentType::Svg => "svg"@,
            DocumentType::Jpeg => "jpg"@,
            DocumentType::Png => "png"@,
            DocumentType::Json => "json"@,
            DocumentType::Xml => "xml"@,
            DocumentType::Text => "txt"@,
            DocumentType::Other => "bin"@,
        }
    }

    /// The MIME type under which this format travels.
    pub open spec fn mime_text(self) -> Seq<char> {
        match self {
            DocumentType::Docx => "application/vnd.openxmlformats-officedocument.wordprocessingml.document"@,
            DocumentType::Pdf => "application/pdf"@,
            DocumentType::Xlsx => "application/vnd.openxmlformats-officedocument.spreadsheetml.sheet"@,
            DocumentType::Pptx => "application/vnd.openxmlformats-officedocument.presentationml.presentation"@,
            DocumentType::Svg => "image/svg+xml"@,
            DocumentType::Jpeg => "image/jpeg"@,
            DocumentType::Png => "image/png"@,
            DocumentType::Json => "application/json"@,
            DocumentType::Xml => "application/xml"@,
            DocumentType::Text => "text/plain"@,
            DocumentType::Other => "application/octet-stream"@,
        }
    }

    /// The format that an extension in lower case and without a leading
    /// dot stands for; `Other` where it stands for none.
    pub open spec fn of_extension(extension: Seq<char>) -> DocumentType {
        if extension == "docx"@ || extension == "doc"@ {
            DocumentType::Docx
        } else if extension == "pdf"@ {
            DocumentType::Pdf
        } else if extension == "xlsx"@ || extension == "xls"@ {
            DocumentType::Xlsx
        } else if extension == "pptx"@ || extension == "ppt"@ {
            DocumentType::Pptx
        } else if extension == "svg"@ || extension == "svgz"@ {
            DocumentType::Svg
        } else if extension == "jpg"@ || extension == "jpeg"@ {
            DocumentType::Jpeg
        } else if extension == "png"@ {
            DocumentType::Png
        } else if extension == "json"@ {
            DocumentType::Json
        } else if extension == "xml"@ {
            DocumentType::Xml
        } else if extension == "txt"@ || extension == "text"@ {
            DocumentType::Text
        } else {
            DocumentType::Other
        }
    }

    /// The file extension under which this format is stored.
    pub fn extension(&self) -> (extension: &'static str)
        ensures
            extension@ == self.extension_text(),
    {
        match self {
            DocumentType::Docx => "docx",
            DocumentType::Pdf => "pdf",
            DocumentType::Xlsx => "xlsx",
            DocumentType::Pptx => "pptx",
            DocumentType::Svg => "svg",
            DocumentType::Jpeg => "jpg",
            DocumentType::Png => "png",
            DocumentType::Json => "json",
            DocumentType::Xml => "xml",
            DocumentType::Text => "txt",
            DocumentType::Other => "bin",
        }
    }

    /// The MIME type under which this format travels.
    pub fn mime_type(&self) -> (mime: &'static str)
        ensures
            mime@ == self.mime_text(),
    {
        match self {
            DocumentType::Docx => "application/vnd.openxmlformats-officedocument.wordprocessingml.document",
            DocumentType::Pdf => "application/pdf",
            DocumentType::Xlsx => "application/vnd.openxmlformats-officedocument.spreadsheetml.sheet",
            DocumentType::Pptx => "application/vnd.openxmlformats-officedocument.presentationml.presentation",
            DocumentType::Svg => "image/svg+xml",
            DocumentType::Jpeg => "image/jpeg",
            DocumentType::Png => "image/png",
            DocumentType::Json => "application/json",
            DocumentType::Xml => "application/xml",
            DocumentType::Text => "text/plain",
            DocumentType::Other => "application/octet-stream",
        }
    }

    /// The format that `extension` stands for, `extension` being in lower
    /// case and without a leading dot.
    pub fn from_normalized(extension: &str) -> (format: DocumentType)
        ensures
            format == DocumentType::of_extension(extension@),
    {
        if same_text(extension, "docx") || same_text(extension, "doc") {
            DocumentType::Docx
        } else if same_text(extension, "pdf") {
            DocumentType::Pdf
        } else if same_text(extension, "xlsx") || same_text(extension, "xls") {
            DocumentType::Xlsx
        } else if same_text(extension, "pptx") || same_text(extension, "ppt") {
            DocumentType::Pptx
        } else if same_text(extension, "svg") || same_text(extension, "svgz") {
            DocumentType::Svg
        } else if same_text(extension, "jpg") || same_text(extension, "jpeg") {
            DocumentType::Jpeg
        } else if same_text(extension, "png") {
            DocumentType::Png
        } else if same_text(extension, "json") {
            DocumentType::Json
        } else if same_text(extension, "xml") {
            DocumentType::Xml
        } else if same_text(extension, "txt") || same_text(extension, "text") {
            DocumentType::Text
        } else {
            DocumentType::Other
        }
    }

    /// The format that a file extension stands for, in whatever case it is
    /// written and with or without leading dots; `Other` where it stands
    /// for none.
    pub fn from_extension(ext: &str) -> (format: DocumentType)
        ensures
            format == DocumentType::of_extension(without_leading(lowercase_text(ext@), '.')),
    {
        let lowered = lowercase(ext);
        DocumentType::from_normalized(trim_start(lowered.as_str(), '.'))
    }
}

/// Every format is found again from the extension under which it is
/// stored.
pub proof fn lemma_extension_names_its_format(format: DocumentType)
    ensures
        DocumentType::of_extension(format.extension_text()) == format,
{
    reveal_strlit("docx");
    reveal_strlit("doc");
    reveal_strlit("pdf");
    reveal_strlit("xlsx");
    reveal_strlit("xls");
    reveal_strlit("pptx");
    reveal_strlit("ppt");
    reveal_strlit("svg");
    reveal_strlit("svgz");
    reveal_strlit("jpg");
    reveal_strlit("jpeg");
    reveal_strlit("png");
    reveal_strlit("json");
    reveal_strlit("xml");
    reveal_strlit("txt");
    reveal_strlit("text");
    reveal_strlit("bin");
    // The first characters of each extension tell it from every other name.
    assert("docx"@.len() == 4 && "docx"@[0] == 'd' && "docx"@[1] == 'o' && "docx"@[2] == 'c');
    assert("pdf"@.len() == 3 && "pdf"@[0] == 'p' && "pdf"@[1] == 'd' && "pdf"@[2] == 'f');
    assert("xlsx"@.len() == 4 && "xlsx"@[0] == 'x' && "xlsx"@[1] == 'l' && "xlsx"@[2] == 's');
    assert("pptx"@.len() == 4 && "pptx"@[0] == 'p' && "pptx"@[1] == 'p' && "pptx"@[2] == 't');
    assert("svg"@.len() == 3 && "svg"@[0] == 's' && "svg"@[1] == 'v' && "svg"@[2] == 'g');
    assert("jpg"@.len() == 3 && "jpg"@[0] == 'j' && "jpg"@[1] == 'p' && "jpg"@[2] == 'g');
    assert("png"@.len() == 3 && "png"@[0] == 'p' && "png"@[1] == 'n' && "png"@[2] == 'g');
    assert("json"@.len() == 4 && "json"@[0] == 'j' && "json"@[1] == 's' && "json"@[2] == 'o');
    assert("xml"@.len() == 3 && "xml"@[0] == 'x' && "xml"@[1] == 'm' && "xml"@[2] == 'l');
    assert("txt"@.len() == 3 && "txt"@[0] == 't' && "txt"@[1] == 'x' && "txt"@[2] == 't');
    assert("bin"@.len() == 3 && "bin"@[0] == 'b' && "bin"@[1] == 'i' && "bin"@[2] == 'n');
}

/// A document stored in Nvisy.
#[derive(Debug, Clone)]
pub struct Document {
    /// Unique identifier.
    pub id: Id,
    /// Name or title.
    pub name: String,
    /// Format.
    pub document_type: DocumentType,
    /// Size in bytes.
    pub size: u64,
    /// The workspace that holds the document.
    pub workspace_id: Id,
    /// The user who uploaded it.
    pub uploaded_by: Id,
    /// When it was created.
    pub created_at: Timestamp,
    /// When it was last changed.
    pub updated_at: Timestamp,
}

/// What it takes to register a new document.
#[derive(Debug, Clone)]
pub struct CreateDocumentRequest {
    /// Name or title.
    pub name: String,
    /// Format.
    pub document_type: DocumentType,
    /// The workspace to upload to.
    pub workspace_id: Id,
}

/// Changes to a document's description; a field left `None` stays as it
/// is.
#[derive(Debug, Clone)]
pub struct UpdateDocumentRequest {
    /// New name.
    pub name: Option<String>,
    /// New workspace: moves the document.
    pub workspace_id: Option<Id>,
}

impl Default for UpdateDocumentRequest {
    fn default() -> (request: UpdateDocumentRequest)
        ensures
            request.name is None,
            request.workspace_id is None,
    {
        UpdateDocumentRequest { name: None, workspace_id: None }
    }
}

/// One stored version of a document.
#[derive(Debug, Clone)]
pub struct DocumentVersion {
    /// Version number.
    pub version: u32,
    /// Size in bytes.
    pub size: u64,
    /// The user who created this version.
    pub created_by: Id,
    /// When this version was created.
    pub created_at: Timestamp,
}

} // verus!
