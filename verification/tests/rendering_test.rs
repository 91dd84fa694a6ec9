use engineering_documents_manager::components::{
    ApiEndpoint, ApiPath, AssetPath, ComponentPayload, DecisionRecord, DesignSpecSubType,
    HttpMethod, ImageLink, MermaidDiagram, ReferenceSubType, SchematicSubType,
};
use engineering_documents_manager::documents::{DocStatus, DocTypes, Document};
use engineering_documents_manager::rendering::{MarkdownRenderService, RenderMarkdown};

fn decision(alternatives: Vec<String>) -> ComponentPayload {
    ComponentPayload::DesignSpec(DesignSpecSubType::DecisionRecord(DecisionRecord {
        decision: "Use SQLite".into(),
        rationale: "Single file".into(),
        alternatives_considered: alternatives,
    }))
}

#[test]
fn decision_record_without_alternatives() {
    let out = MarkdownRenderService::render_component(&decision(Vec::new()));
    assert_eq!(out, "### Decision\nUse SQLite\n\n### Rationale\nSingle file\n\n");
}

#[test]
fn decision_record_with_alternatives() {
    let out = MarkdownRenderService::render_component(&decision(vec![
        "Postgres".to_string(),
        "Flat files".to_string(),
    ]));
    assert_eq!(
        out,
        "### Decision\nUse SQLite\n\n### Rationale\nSingle file\n\n### Alternatives Considered\n- Postgres\n- Flat files\n"
    );
}

#[test]
fn api_endpoint_with_example_is_trimmed() {
    let payload = ComponentPayload::Reference(ReferenceSubType::ApiEndpoint(ApiEndpoint {
        endpoint: ApiPath("/api/v2/users/register".to_string()),
        method: HttpMethod::Post,
        request_body_example: "\n  {\"email\": \"dev@example.com\"}\n\t ".to_string(),
    }));
    let out = MarkdownRenderService::render_component(&payload);
    assert_eq!(
        out,
        "### `POST` `/api/v2/users/register`\n\n**Request Body Example:**\n\n```json\n{\"email\": \"dev@example.com\"}\n```\n\n"
    );
}

#[test]
fn api_endpoint_without_example() {
    let payload = ComponentPayload::Reference(ReferenceSubType::ApiEndpoint(ApiEndpoint {
        endpoint: ApiPath("/health".to_string()),
        method: HttpMethod::Get,
        request_body_example: String::new(),
    }));
    let out = MarkdownRenderService::render_component(&payload);
    assert_eq!(out, "### `GET` `/health`\n\n");
}

#[test]
fn api_endpoint_with_blank_example_keeps_block() {
    let endpoint = ApiEndpoint {
        endpoint: ApiPath("/x".to_string()),
        method: HttpMethod::Delete,
        request_body_example: "   ".to_string(),
    };
    let mut out = String::from(">");
    endpoint.render_markdown(&mut out);
    assert_eq!(out, ">### `DELETE` `/x`\n\n**Request Body Example:**\n\n```json\n\n```\n\n");
}

#[test]
fn mermaid_diagram_is_trimmed() {
    let payload = ComponentPayload::Schematic(SchematicSubType::MermaidDiagram(MermaidDiagram {
        definition: "  graph TD; A-->B  \n".to_string(),
    }));
    let out = MarkdownRenderService::render_component(&payload);
    assert_eq!(out, "```mermaid\ngraph TD; A-->B\n```\n\n");
}

#[test]
fn image_link_renders_asset() {
    let payload = ComponentPayload::Schematic(SchematicSubType::ImageLink(ImageLink {
        path: AssetPath("img/arch.png".to_string()),
    }));
    let out = MarkdownRenderService::render_component(&payload);
    assert_eq!(out, "![Asset](img/arch.png)\n\n");
}

#[test]
fn unicode_whitespace_is_trimmed() {
    let payload = ComponentPayload::Schematic(SchematicSubType::MermaidDiagram(MermaidDiagram {
        definition: "\u{3000}\u{a0}flow\u{2028}\u{85}".to_string(),
    }));
    let out = MarkdownRenderService::render_component(&payload);
    assert_eq!(out, "```mermaid\nflow\n```\n\n");
}

#[test]
fn document_with_id_and_payloads() {
    let service = MarkdownRenderService::new("export");
    let mut doc = Document::new(DocTypes::Sdd, "Storage design");
    doc.id = Some(42);
    let payloads = vec![
        decision(Vec::new()),
        ComponentPayload::Schematic(SchematicSubType::ImageLink(ImageLink {
            path: AssetPath("a.png".to_string()),
        })),
    ];
    let out = service.render_document(&doc, &payloads);
    assert_eq!(
        out,
        "---\nid: 42\ndocument type: Sdd\nstatus: Draft\n---\n\n# Storage design\n\n### Decision\nUse SQLite\n\n### Rationale\nSingle file\n\n\n\n![Asset](a.png)"
    );
}

#[test]
fn document_without_id_or_payloads() {
    let service = MarkdownRenderService::new("export");
    let mut doc = Document::new(DocTypes::Api, "Public API");
    doc.status = DocStatus::Published;
    let out = service.render_document(&doc, &[]);
    assert_eq!(out, "---\ndocument type: Api\nstatus: Published\n---\n\n# Public API");
    assert!(!out.ends_with(char::is_whitespace));
}

#[test]
fn export_file_names() {
    let mut doc = Document::new(DocTypes::Sdd, "t");
    assert_eq!(MarkdownRenderService::export_file_name(&doc), "doc_0.md");
    doc.id = Some(4294967295);
    assert_eq!(MarkdownRenderService::export_file_name(&doc), "doc_4294967295.md");
    let service = MarkdownRenderService::new("out/dir");
    assert_eq!(service.output_dir(), "out/dir");
}
