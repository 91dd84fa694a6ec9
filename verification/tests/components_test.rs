use engineering_documents_manager::components::{
    ApiEndpoint, ApiPath, AssetPath, Component, ComponentChangeError, ComponentPayload,
    ComponentPayloadRefRow, ComponentRow, DecisionRecord, DesignSpecSubType, HttpMethod,
    ImageLink, MermaidDiagram, ReferenceSubType, SchematicSubType, Version,
};

fn decision(text: &str) -> ComponentPayload {
    ComponentPayload::DesignSpec(DesignSpecSubType::DecisionRecord(DecisionRecord {
        decision: text.into(),
        rationale: "Test Rationale".into(),
        alternatives_considered: Vec::new(),
    }))
}

fn image(path: &str) -> ComponentPayload {
    ComponentPayload::Schematic(SchematicSubType::ImageLink(ImageLink {
        path: AssetPath(path.into()),
    }))
}

fn mermaid() -> ComponentPayload {
    ComponentPayload::Schematic(SchematicSubType::MermaidDiagram(MermaidDiagram {
        definition: "ignored".into(),
    }))
}

fn api() -> ComponentPayload {
    ComponentPayload::Reference(ReferenceSubType::ApiEndpoint(ApiEndpoint {
        endpoint: ApiPath("ignored".into()),
        method: HttpMethod::Get,
        request_body_example: "ignored".into(),
    }))
}

#[test]
fn versions_start_at_one_and_advance() {
    assert_eq!(Version::default(), Version(1));
    assert_eq!(Version::default().next(), Version(2));
    assert_eq!(Version(41).next(), Version(42));
}

#[test]
fn identifiers_name_the_kind() {
    assert_eq!(decision("a").get_identifier(), decision("b").get_identifier());
    assert_eq!(image("a").get_identifier(), image("b").get_identifier());
    let all = [decision("a"), image("a"), mermaid(), api()];
    for (i, a) in all.iter().enumerate() {
        for (j, b) in all.iter().enumerate() {
            assert_eq!(i == j, a.get_identifier() == b.get_identifier());
            assert_eq!(i == j, a.is_same_kind(b));
        }
    }
    assert_eq!(api().get_identifier(), "reference/api_endpoint");
}

#[test]
fn methods_are_named() {
    assert_eq!(HttpMethod::Get.as_str(), "GET");
    assert_eq!(HttpMethod::Post.as_str(), "POST");
    assert_eq!(HttpMethod::Put.as_str(), "PUT");
    assert_eq!(HttpMethod::Patch.as_str(), "PATCH");
    assert_eq!(HttpMethod::Delete.as_str(), "DELETE");
}

#[test]
fn apply_changes_advances_version_and_keeps_id() {
    let current = Component { id: Some(1), version: Version(1), title: "Test".into(), payload: decision("old") };
    let incoming = Component { id: None, version: Version::default(), title: "Title Updated".into(), payload: decision("new") };
    let updated = current.apply_changes(incoming).unwrap();
    assert_eq!(updated.id, Some(1));
    assert_eq!(updated.version, Version(2));
    assert_eq!(updated.title, "Title Updated");
    assert_eq!(updated.payload.get_identifier(), decision("x").get_identifier());
}

#[test]
fn apply_changes_refuses_kind_change() {
    let current = Component { id: Some(3), version: Version(5), title: "Test".into(), payload: image("a") };
    let incoming = Component { id: None, version: Version::default(), title: "T".into(), payload: mermaid() };
    assert_eq!(current.apply_changes(incoming).unwrap_err(), ComponentChangeError::KindChanged);
}

#[test]
fn rows_become_components() {
    let row = ComponentRow { id: 7, version: 2, title: "Arch".into(), payload: "{}".into() };
    let c = row.into_component(image("p.png"));
    assert_eq!(c.id, Some(7));
    assert_eq!(c.version, Version(2));
    assert_eq!(c.title, "Arch");
    assert_eq!(c.payload.get_identifier(), image("q").get_identifier());

    let r = ComponentPayloadRefRow { component_id: 1, version_id: 3, payload_str: "{}".into() }
        .into_payload_ref(api());
    assert_eq!(r.component_id, 1);
    assert_eq!(r.version_id, 3);
    assert_eq!(r.payload.get_identifier(), api().get_identifier());
}

#[test]
fn kind_change_message() {
    assert_eq!(
        ComponentChangeError::KindChanged.message(),
        "The kind of a component cannot change once it is created"
    );
}
