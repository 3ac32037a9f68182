use nvisy_sdk::model::workspace::default_true;
use nvisy_sdk::model::CheckHealth;
use nvisy_sdk::model::CreateIntegration;
use nvisy_sdk::model::CreateWebhook;
use nvisy_sdk::model::CreateWorkspace;
use nvisy_sdk::model::DocumentType;
use nvisy_sdk::model::FileFormat;
use nvisy_sdk::model::IntegrationType;
use nvisy_sdk::model::PaginatedResponse;
use nvisy_sdk::model::Pagination;
use nvisy_sdk::model::TestWebhook;
use nvisy_sdk::model::UpdateDocumentRequest;
use nvisy_sdk::model::UpdateFile;
use nvisy_sdk::model::UpdateIntegration;
use nvisy_sdk::model::UpdateNotificationSettings;
use nvisy_sdk::model::UpdateWebhook;
use nvisy_sdk::model::UpdateWorkspace;
use nvisy_sdk::model::Uuid;
use nvisy_sdk::model::WebhookEvent;
use nvisy_sdk::model::WebhookStatus;
use std::collections::HashMap;

fn page(offset: u32, limit: u32, total: u32) -> PaginatedResponse<u8> {
    PaginatedResponse { data: Vec::new(), total, offset, limit }
}

#[test]
fn pagination_new_and_page() {
    assert_eq!(Pagination::new(20, 10), Pagination { offset: Some(20), limit: Some(10) });
    assert_eq!(Pagination::page(1, 25), Pagination { offset: Some(0), limit: Some(25) });
    assert_eq!(Pagination::page(3, 25), Pagination { offset: Some(50), limit: Some(25) });
    assert_eq!(Pagination::page(0, 25), Pagination { offset: Some(0), limit: Some(25) });
    assert_eq!(Pagination::page(5, 0), Pagination { offset: Some(0), limit: Some(0) });
    assert_eq!(
        Pagination::page(65_536, 65_537),
        Pagination { offset: Some(4_294_967_295), limit: Some(65_537) }
    );
    assert_eq!(Pagination::default(), Pagination { offset: None, limit: None });
}

#[test]
fn has_more_compares_offset_plus_limit_with_total() {
    assert!(page(0, 10, 25).has_more());
    assert!(page(10, 10, 25).has_more());
    assert!(!page(20, 10, 25).has_more());
    assert!(!page(15, 10, 25).has_more());
    assert!(page(14, 10, 25).has_more());
    assert!(!page(0, 0, 0).has_more());
    assert!(page(0, 0, 1).has_more());
}

#[test]
fn has_more_does_not_wrap() {
    assert!(!page(u32::MAX, u32::MAX, u32::MAX).has_more());
    assert!(!page(u32::MAX, 1, 5).has_more());
    assert_eq!(page(u32::MAX, 1, 5).next_page(), None);
}

#[test]
fn next_page_follows_has_more() {
    assert_eq!(page(0, 10, 25).next_page(), Some(Pagination::new(10, 10)));
    assert_eq!(page(10, 10, 25).next_page(), Some(Pagination::new(20, 10)));
    assert_eq!(page(20, 10, 25).next_page(), None);
    assert_eq!(page(0, 0, 1).next_page(), Some(Pagination::new(0, 0)));
    assert_eq!(
        page(u32::MAX - 2, 1, u32::MAX).next_page(),
        Some(Pagination::new(u32::MAX - 1, 1))
    );
    for (offset, limit, total) in [(0u32, 1u32, 0u32), (3, 4, 7), (3, 4, 8), (9, 0, 9), (9, 0, 10)] {
        let response = page(offset, limit, total);
        assert_eq!(response.next_page().is_none(), !response.has_more());
    }
}

#[test]
fn walking_a_list_ends_at_the_total() {
    let mut response = page(0, 7, 30);
    let mut seen = vec![0u32];
    while let Some(next) = response.next_page() {
        let offset = next.offset.unwrap();
        seen.push(offset);
        response = page(offset, next.limit.unwrap(), 30);
    }
    assert_eq!(seen, vec![0, 7, 14, 21, 28]);
}

#[test]
fn document_type_extensions() {
    assert_eq!(DocumentType::Docx.extension(), "docx");
    assert_eq!(DocumentType::Pdf.extension(), "pdf");
    assert_eq!(DocumentType::Xlsx.extension(), "xlsx");
    assert_eq!(DocumentType::Pptx.extension(), "pptx");
    assert_eq!(DocumentType::Svg.extension(), "svg");
    assert_eq!(DocumentType::Jpeg.extension(), "jpg");
    assert_eq!(DocumentType::Png.extension(), "png");
    assert_eq!(DocumentType::Json.extension(), "json");
    assert_eq!(DocumentType::Xml.extension(), "xml");
    assert_eq!(DocumentType::Text.extension(), "txt");
    assert_eq!(DocumentType::Other.extension(), "bin");
}

#[test]
fn document_type_mime_types() {
    assert_eq!(
        DocumentType::Docx.mime_type(),
        "application/vnd.openxmlformats-officedocument.wordprocessingml.document"
    );
    assert_eq!(DocumentType::Pdf.mime_type(), "application/pdf");
    assert_eq!(
        DocumentType::Xlsx.mime_type(),
        "application/vnd.openxmlformats-officedocument.spreadsheetml.sheet"
    );
    assert_eq!(
        DocumentType::Pptx.mime_type(),
        "application/vnd.openxmlformats-officedocument.presentationml.presentation"
    );
    assert_eq!(DocumentType::Svg.mime_type(), "image/svg+xml");
    assert_eq!(DocumentType::Jpeg.mime_type(), "image/jpeg");
    assert_eq!(DocumentType::Png.mime_type(), "image/png");
    assert_eq!(DocumentType::Json.mime_type(), "application/json");
    assert_eq!(DocumentType::Xml.mime_type(), "application/xml");
    assert_eq!(DocumentType::Text.mime_type(), "text/plain");
    assert_eq!(DocumentType::Other.mime_type(), "application/octet-stream");
}

#[test]
fn document_type_from_extension() {
    assert_eq!(DocumentType::from_extension("docx"), DocumentType::Docx);
    assert_eq!(DocumentType::from_extension("doc"), DocumentType::Docx);
    assert_eq!(DocumentType::from_extension("pdf"), DocumentType::Pdf);
    assert_eq!(DocumentType::from_extension("PDF"), DocumentType::Pdf);
    assert_eq!(DocumentType::from_extension(".Pdf"), DocumentType::Pdf);
    assert_eq!(DocumentType::from_extension("...xlsx"), DocumentType::Xlsx);
    assert_eq!(DocumentType::from_extension("xls"), DocumentType::Xlsx);
    assert_eq!(DocumentType::from_extension("PPT"), DocumentType::Pptx);
    assert_eq!(DocumentType::from_extension("pptx"), DocumentType::Pptx);
    assert_eq!(DocumentType::from_extension("svg"), DocumentType::Svg);
    assert_eq!(DocumentType::from_extension("svgz"), DocumentType::Svg);
    assert_eq!(DocumentType::from_extension("jpg"), DocumentType::Jpeg);
    assert_eq!(DocumentType::from_extension("JPEG"), DocumentType::Jpeg);
    assert_eq!(DocumentType::from_extension("png"), DocumentType::Png);
    assert_eq!(DocumentType::from_extension("json"), DocumentType::Json);
    assert_eq!(DocumentType::from_extension("xml"), DocumentType::Xml);
    assert_eq!(DocumentType::from_extension("txt"), DocumentType::Text);
    assert_eq!(DocumentType::from_extension("Text"), DocumentType::Text);
    assert_eq!(DocumentType::from_extension("exe"), DocumentType::Other);
    assert_eq!(DocumentType::from_extension(""), DocumentType::Other);
    assert_eq!(DocumentType::from_extension("."), DocumentType::Other);
    assert_eq!(DocumentType::from_extension("pdf."), DocumentType::Other);
    assert_eq!(DocumentType::from_extension(" pdf"), DocumentType::Other);
}

#[test]
fn document_type_from_normalized_reads_as_written() {
    assert_eq!(DocumentType::from_normalized("pdf"), DocumentType::Pdf);
    assert_eq!(DocumentType::from_normalized("PDF"), DocumentType::Other);
    assert_eq!(DocumentType::from_normalized(".pdf"), DocumentType::Other);
}

#[test]
fn every_format_is_found_from_its_extension() {
    for format in [
        DocumentType::Docx,
        DocumentType::Pdf,
        DocumentType::Xlsx,
        DocumentType::Pptx,
        DocumentType::Svg,
        DocumentType::Jpeg,
        DocumentType::Png,
        DocumentType::Json,
        DocumentType::Xml,
        DocumentType::Text,
        DocumentType::Other,
    ] {
        assert_eq!(DocumentType::from_extension(format.extension()), format);
    }
}

#[test]
fn identifiers_are_written_hyphenated() {
    let id = Uuid::from_u128(0xa1a2a3a4_b1b2_c1c2_d1d2_d3d4d5d6d7d8);
    assert_eq!(id.as_u128(), 0xa1a2a3a4_b1b2_c1c2_d1d2_d3d4d5d6d7d8);
    assert_eq!(id.to_text(), "a1a2a3a4-b1b2-c1c2-d1d2-d3d4d5d6d7d8");
    assert_eq!(Uuid::from_u128(0).to_text(), "00000000-0000-0000-0000-000000000000");
    assert_eq!(Uuid::from_u128(u128::MAX).to_text(), "ffffffff-ffff-ffff-ffff-ffffffffffff");
    assert_eq!(
        Uuid::from_u128(0x0123456789abcdef_0123456789abcdef).to_text(),
        "01234567-89ab-cdef-0123-456789abcdef"
    );
    assert_eq!(Uuid::from_u128(1).to_text(), "00000000-0000-0000-0000-000000000001");
}

#[test]
fn create_workspace_builder() {
    let request = CreateWorkspace::new("Example");
    assert_eq!(request.display_name, "Example");
    assert_eq!(request.description, None);
    assert!(request.tags.is_empty());
    assert!(request.enable_comments);
    assert!(!request.require_approval);
    assert!(default_true());

    let request = CreateWorkspace::new("Example")
        .with_description("About it")
        .with_tags(vec!["example".to_string(), "sdk".to_string()])
        .with_comments(false)
        .with_approval(true);
    assert_eq!(
        request,
        CreateWorkspace {
            display_name: "Example".to_string(),
            description: Some("About it".to_string()),
            tags: vec!["example".to_string(), "sdk".to_string()],
            enable_comments: false,
            require_approval: true,
        }
    );
}

#[test]
fn check_health_builder() {
    assert_eq!(CheckHealth::new(), CheckHealth { timeout: None, use_cache: None });
    assert_eq!(CheckHealth::default(), CheckHealth::new());
    assert_eq!(
        CheckHealth::new().timeout(-5).use_cache(true),
        CheckHealth { timeout: Some(-5), use_cache: Some(true) }
    );
    assert_eq!(
        CheckHealth::new().use_cache(false),
        CheckHealth { timeout: None, use_cache: Some(false) }
    );
}

#[test]
fn create_integration_builder() {
    let request = CreateIntegration::new("S3", "Sync from S3", IntegrationType::Storage);
    assert_eq!(request.integration_name, "S3");
    assert_eq!(request.description, "Sync from S3");
    assert_eq!(request.integration_type, IntegrationType::Storage);
    assert!(request.credentials.is_none());
    assert!(request.is_active.is_none());
    assert!(request.metadata.is_none());

    let request = request
        .credentials(serde_json::Value::from("secret"))
        .is_active(true)
        .metadata(serde_json::Value::from(3));
    assert_eq!(request.integration_name, "S3");
    assert_eq!(request.credentials, Some(serde_json::Value::from("secret")));
    assert_eq!(request.is_active, Some(true));
    assert_eq!(request.metadata, Some(serde_json::Value::from(3)));
}

#[test]
fn create_webhook_builder() {
    let events = vec![WebhookEvent::DocumentCreated, WebhookEvent::FileDeleted];
    let request = CreateWebhook::new("Hook", "Tells us", "https://example.com/hook", events.clone());
    assert_eq!(request.display_name, "Hook");
    assert_eq!(request.description, "Tells us");
    assert_eq!(request.url, "https://example.com/hook");
    assert_eq!(request.events, events);
    assert!(request.headers.is_none());
    assert!(request.status.is_none());

    let mut headers = HashMap::new();
    headers.insert("X-Token".to_string(), "t".to_string());
    let request = request.headers(headers.clone()).status(WebhookStatus::Paused);
    assert_eq!(request.display_name, "Hook");
    assert_eq!(request.events, events);
    assert_eq!(request.headers, Some(headers));
    assert_eq!(request.status, Some(WebhookStatus::Paused));
}

#[test]
fn test_webhook_builder() {
    assert!(TestWebhook::new().payload.is_none());
    assert!(TestWebhook::default().payload.is_none());
    let request = TestWebhook::new().payload(serde_json::Value::from(true));
    assert_eq!(request.payload, Some(serde_json::Value::from(true)));
}

#[test]
fn updates_start_empty() {
    let update = UpdateWorkspace::default();
    assert_eq!(
        update,
        UpdateWorkspace {
            display_name: None,
            description: None,
            tags: None,
            enable_comments: None,
            require_approval: None,
        }
    );
    let update = UpdateNotificationSettings::default();
    assert!(update.email_enabled.is_none() && update.in_app_enabled.is_none());
    assert!(update.events.is_none());
    let update = UpdateIntegration::default();
    assert!(update.integration_name.is_none() && update.description.is_none());
    assert!(update.integration_type.is_none() && update.credentials.is_none());
    assert!(update.is_active.is_none() && update.metadata.is_none());
    let update = UpdateWebhook::default();
    assert!(update.display_name.is_none() && update.description.is_none());
    assert!(update.url.is_none() && update.events.is_none());
    assert!(update.headers.is_none() && update.status.is_none());
    let update = UpdateDocumentRequest::default();
    assert!(update.name.is_none() && update.workspace_id.is_none());
    assert!(UpdateFile::default().display_name.is_none());
}

#[test]
fn file_formats_as_query_values() {
    assert_eq!(FileFormat::Docx.as_str(), "docx");
    assert_eq!(FileFormat::Pdf.as_str(), "pdf");
    assert_eq!(FileFormat::Xlsx.as_str(), "xlsx");
    assert_eq!(FileFormat::Pptx.as_str(), "pptx");
    assert_eq!(FileFormat::Svg.as_str(), "svg");
    assert_eq!(FileFormat::Jpeg.as_str(), "jpeg");
    assert_eq!(FileFormat::Png.as_str(), "png");
    assert_eq!(FileFormat::Json.as_str(), "json");
    assert_eq!(FileFormat::Xml.as_str(), "xml");
    assert_eq!(FileFormat::Text.as_str(), "text");
}
