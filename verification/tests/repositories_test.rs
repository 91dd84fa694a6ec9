use engineering_documents_manager::components::{
    Component, ComponentChangeError, ComponentPayload, DecisionRecord, DesignSpecSubType,
    ImageLink, AssetPath, SchematicSubType, Version,
};
use engineering_documents_manager::documents::{
    DocStatus, DocTypes, Document, DocumentMetadataForUpdate, LayoutVersionIds,
};
use engineering_documents_manager::repositories::{
    assemble_layout_replacement, deletion_confirmed, layout_rows, plan_component_update, plan_document_update,
    plan_layout_replacement, plan_version_lookup, SqliteComponentRepository,
    SqliteDocumentsRepository, ComponentFilterQuery, DocumentFilterQuery,
};

#[test]
fn layout_rows_hold_positions() {
    assert_eq!(layout_rows(1, &[4, 3, 1]), vec![(1, 4, 0), (1, 3, 1), (1, 1, 2)]);
    assert_eq!(layout_rows(9, &[]), vec![]);
}

#[test]
fn layout_replacement_statements() {
    let plan = plan_layout_replacement(1, &[4, 3, 1]).unwrap();
    assert_eq!(plan.delete_ids_json, "[4,3,1]");
    assert_eq!(plan.insert_rows_json.as_deref(), Some("[[1,4,0],[1,3,1],[1,1,2]]"));

    let empty = plan_layout_replacement(2, &[]).unwrap();
    assert_eq!(empty.delete_ids_json, "[]");
    assert_eq!(empty.insert_rows_json, None);
}

#[test]
fn version_lookup_statements() {
    assert_eq!(plan_version_lookup(&[]), Ok(None));
    assert_eq!(plan_version_lookup(&[1, 3, 4]), Ok(Some("[1,3,4]".to_string())));
}

#[test]
fn deletions_confirm_on_affected_rows() {
    assert!(!deletion_confirmed(0));
    assert!(deletion_confirmed(1));
    assert!(deletion_confirmed(3));
}

fn decision() -> ComponentPayload {
    ComponentPayload::DesignSpec(DesignSpecSubType::DecisionRecord(DecisionRecord {
        decision: "d".into(),
        rationale: "r".into(),
        alternatives_considered: vec![],
    }))
}

#[test]
fn component_update_outcomes() {
    let incoming = || Component { id: None, version: Version::default(), title: "New".into(), payload: decision() };
    assert!(plan_component_update(None, incoming()).unwrap().is_none());

    let stored = Component { id: Some(4), version: Version(1), title: "Old".into(), payload: decision() };
    let updated = plan_component_update(Some(stored), incoming()).unwrap().unwrap();
    assert_eq!((updated.id, updated.version, updated.title.as_str()), (Some(4), Version(2), "New"));

    let image = Component {
        id: Some(5),
        version: Version(1),
        title: "Img".into(),
        payload: ComponentPayload::Schematic(SchematicSubType::ImageLink(ImageLink { path: AssetPath("a".into()) })),
    };
    assert_eq!(plan_component_update(Some(image), incoming()).unwrap_err(), ComponentChangeError::KindChanged);
}

#[test]
fn document_update_outcomes() {
    let change = |title: Option<&str>| DocumentMetadataForUpdate { id: 1, title: title.map(|t| t.to_string()) };
    assert!(plan_document_update(None, change(Some("x"))).is_none());

    let mut stored = Document::new(DocTypes::Sdd, "Old");
    stored.id = Some(1);
    stored.layout_version_ids = LayoutVersionIds(vec![2, 5]);
    let renamed = plan_document_update(Some(stored.clone()), change(Some("New"))).unwrap();
    assert_eq!(renamed.title, "New");
    assert_eq!(renamed.id, Some(1));
    assert_eq!(renamed.layout_version_ids, LayoutVersionIds(vec![2, 5]));

    let unchanged = plan_document_update(Some(stored), change(None)).unwrap();
    assert_eq!(unchanged.title, "Old");
}

#[test]
fn repositories_hold_their_pool() {
    let components = SqliteComponentRepository::new(String::from("pool-a"));
    assert_eq!(components.pool(), "pool-a");
    let documents = SqliteDocumentsRepository::new(7u8);
    assert_eq!(*documents.pool(), 7);
}

fn json_error() -> serde_json::Error {
    serde_json::from_str::<u32>("x").unwrap_err()
}

#[test]
fn layout_replacement_from_written_texts() {
    let p = assemble_layout_replacement(Ok("[1]".to_string()), None).unwrap();
    assert_eq!((p.delete_ids_json.as_str(), p.insert_rows_json), ("[1]", None));
    let p = assemble_layout_replacement(Ok("[1]".to_string()), Some(Ok("[[2,1,0]]".to_string()))).unwrap();
    assert_eq!(p.insert_rows_json.as_deref(), Some("[[2,1,0]]"));
    assert!(assemble_layout_replacement(Err(json_error()), None).is_err());
    assert!(assemble_layout_replacement(Err(json_error()), Some(Ok("[]".to_string()))).is_err());
    assert!(assemble_layout_replacement(Ok("[1]".to_string()), Some(Err(json_error()))).is_err());
}

#[test]
fn filter_conditions() {
    assert!(ComponentFilterQuery { group: None }.conditions().is_empty());
    let c = ComponentFilterQuery { group: Some("schematic".into()) }.conditions();
    assert_eq!(c.len(), 1);
    assert_eq!((c[0].clause.as_str(), c[0].value.as_str()), (" AND c.type LIKE ", "schematic/%"));
    assert!(DocumentFilterQuery { status: None }.conditions().is_empty());
    let d = DocumentFilterQuery { status: Some(DocStatus::Published) }.conditions();
    assert_eq!(d.len(), 1);
    assert_eq!((d[0].clause.as_str(), d[0].value.as_str()), (" AND d.status = ", "Published"));
}

#[test]
fn version_lookup_of_one_id() {
    assert_eq!(plan_version_lookup(&[4294967295]), Ok(Some("[4294967295]".to_string())));
}
