use engineering_documents_manager::config::ServerSettings;
use engineering_documents_manager::documents::{
    parse_comma_separated_ids, DocRow, DocRowError, DocStatus, DocTypes, LayoutIdError,
    LayoutVersionIds,
};
use engineering_documents_manager::numeric::{parse_u32, u32_to_decimal, IntErrorKind};
use engineering_documents_manager::text::{str_eq, trim, trim_end};

#[test]
fn decimal_text_of_numbers() {
    assert_eq!(u32_to_decimal(0), "0");
    assert_eq!(u32_to_decimal(7), "7");
    assert_eq!(u32_to_decimal(1200), "1200");
    assert_eq!(u32_to_decimal(u32::MAX), "4294967295");
}

#[test]
fn parse_u32_matches_std() {
    let cases = [
        "", "0", "+7", "-7", "+", "-", "12a", "4294967295", "4294967296", "99999999999x", "007",
        " 1", "١",
    ];
    for c in cases {
        let expected = c.parse::<u32>().map_err(|e| match e.kind() {
            std::num::IntErrorKind::Empty => IntErrorKind::Empty,
            std::num::IntErrorKind::InvalidDigit => IntErrorKind::InvalidDigit,
            std::num::IntErrorKind::PosOverflow => IntErrorKind::PosOverflow,
            _ => unreachable!(),
        });
        assert_eq!(parse_u32(c), expected, "case {c:?}");
    }
}

#[test]
fn decimal_round_trip() {
    for n in [0u32, 1, 9, 10, 99, 100, 65535, 123456789, u32::MAX] {
        assert_eq!(parse_u32(&u32_to_decimal(n)), Ok(n));
    }
}

#[test]
fn trims_like_std() {
    for c in ["", "  ", " a b ", "\u{2003}x\u{205f}", "\tline\n", "x"] {
        assert_eq!(trim(c), c.trim());
        assert_eq!(trim_end(c), c.trim_end());
    }
    assert!(str_eq("abc", "abc"));
    assert!(!str_eq("abc", "abd"));
    assert!(!str_eq("abc", "ab"));
}

#[test]
fn comma_separated_ids() {
    assert_eq!(parse_comma_separated_ids("4,3,1"), Ok(vec![4, 3, 1]));
    assert_eq!(parse_comma_separated_ids(" 4 , 3,\t1 "), Ok(vec![4, 3, 1]));
    assert_eq!(parse_comma_separated_ids("17"), Ok(vec![17]));
    assert_eq!(
        parse_comma_separated_ids("1,,2"),
        Err(id_error(1, IntErrorKind::Empty, ""))
    );
    assert_eq!(
        parse_comma_separated_ids("1,x,4294967296"),
        Err(id_error(1, IntErrorKind::InvalidDigit, "x"))
    );
    assert_eq!(
        parse_comma_separated_ids("1,2,4294967296"),
        Err(id_error(2, IntErrorKind::PosOverflow, "4294967296"))
    );
    assert_eq!(
        parse_comma_separated_ids("3,"),
        Err(id_error(1, IntErrorKind::Empty, ""))
    );
}

#[test]
fn decode_layout_version_ids() {
    assert_eq!(LayoutVersionIds::decode(Some("4,3,1")), Ok(LayoutVersionIds(vec![4, 3, 1])));
    assert_eq!(LayoutVersionIds::decode(None), Ok(LayoutVersionIds(vec![])));
    assert_eq!(LayoutVersionIds::decode(Some("")), Ok(LayoutVersionIds(vec![])));
    assert_eq!(LayoutVersionIds::decode(Some("  \n")), Ok(LayoutVersionIds(vec![])));
    assert_eq!(
        LayoutVersionIds::decode(Some("1;2")),
        Err(id_error(0, IntErrorKind::InvalidDigit, "1;2"))
    );
    let ids = LayoutVersionIds::decode(Some("4,3,1")).unwrap();
    assert_eq!(ids.len(), 3);
    assert!(!ids.is_empty());
}

fn row(doc_type: &str, layout: Option<&str>) -> DocRow {
    DocRow {
        id: 1,
        doc_type: doc_type.to_string(),
        title: "Test SDD".to_string(),
        status: "Draft".to_string(),
        layout_version_ids: layout.map(|s| s.to_string()),
    }
}

#[test]
fn doc_row_layout_ids() {
    assert_eq!(row("Sdd", None).get_layout_version_ids_as_vec(), Ok(vec![]));
    assert_eq!(row("Sdd", Some("")).get_layout_version_ids_as_vec(), Ok(vec![]));
    assert_eq!(row("Sdd", Some("1, 3,4")).get_layout_version_ids_as_vec(), Ok(vec![1, 3, 4]));
    assert_eq!(
        row("Sdd", Some("  ")).get_layout_version_ids_as_vec(),
        Err(id_error(0, IntErrorKind::Empty, "  "))
    );
}

#[test]
fn doc_row_into_document() {
    let doc = row("Api", Some("1,3,4")).into_document(Some(DocStatus::Draft)).unwrap();
    assert_eq!(doc.id, Some(1));
    assert_eq!(doc.doc_type, DocTypes::Api);
    assert_eq!(doc.title, "Test SDD");
    assert_eq!(doc.status, DocStatus::Draft);
    assert_eq!(doc.layout_version_ids, LayoutVersionIds(vec![1, 3, 4]));

    assert_eq!(
        row("Manual", Some("x")).into_document(None).unwrap_err(),
        DocRowError::UnknownDocType
    );
    assert_eq!(
        row("Sdd", Some("x")).into_document(None).unwrap_err(),
        DocRowError::UnknownStatus
    );
    assert_eq!(
        row("Sdd", Some("x")).into_document(Some(DocStatus::Published)).unwrap_err(),
        DocRowError::InvalidLayoutId(id_error(0, IntErrorKind::InvalidDigit, "x"))
    );
}

#[test]
fn doc_type_and_status_names() {
    assert_eq!(DocTypes::parse("Sdd"), Some(DocTypes::Sdd));
    assert_eq!(DocTypes::parse("Api"), Some(DocTypes::Api));
    assert_eq!(DocTypes::parse("sdd"), None);
    assert_eq!(DocTypes::Sdd.as_str(), "Sdd");
    assert_eq!(DocStatus::Publishing.as_str(), "Publishing");
    assert_eq!(DocStatus::Published.as_str(), "Published");
    assert_eq!(DocStatus::Draft.as_str(), "Draft");
}

#[test]
fn settings_take_defaults() {
    let s = ServerSettings::from_values(None, None, None, None);
    assert_eq!(s.host, "127.0.0.1");
    assert_eq!(s.port, "3000");
    assert_eq!(s.db_url, "sqlite://data/database.db");
    assert_eq!(s.export_dir, "export");
    assert_eq!(s.addr(), "127.0.0.1:3000");
    let s = ServerSettings::from_values(Some("0.0.0.0".into()), Some("8080".into()), Some("sqlite::memory:".into()), Some("out".into()));
    assert_eq!((s.addr().as_str(), s.db_url.as_str(), s.export_dir.as_str()), ("0.0.0.0:8080", "sqlite::memory:", "out"));
}

#[test]
fn stored_layout_reads_back() {
    for ids in [vec![], vec![0u32], vec![4, 3, 1], vec![u32::MAX, 7, 7, 10]] {
        let stored: Vec<String> = ids.iter().map(|&n| u32_to_decimal(n)).collect();
        let text = stored.join(",");
        assert_eq!(LayoutVersionIds::decode(Some(&text)), Ok(LayoutVersionIds(ids.clone())));
        let row = DocRow {
            id: 1,
            doc_type: "Sdd".into(),
            title: "t".into(),
            status: "Draft".into(),
            layout_version_ids: Some(text),
        };
        assert_eq!(row.get_layout_version_ids_as_vec(), Ok(ids));
    }
}

fn id_error(index: usize, kind: IntErrorKind, piece: &str) -> LayoutIdError {
    LayoutIdError { index, kind, piece: piece.to_string() }
}

#[test]
fn parse_error_texts_match_std() {
    for (text, kind) in [
        ("", IntErrorKind::Empty),
        ("x", IntErrorKind::InvalidDigit),
        ("4294967296", IntErrorKind::PosOverflow),
    ] {
        assert_eq!(kind.description(), text.parse::<u32>().unwrap_err().to_string());
    }
}

#[test]
fn decode_error_names_the_piece() {
    let e = LayoutVersionIds::decode(Some("1,,2")).unwrap_err();
    assert!(e.message().starts_with("Failed to parse layout version id ''"));
    assert_eq!(e.message(), "Failed to parse layout version id '': cannot parse integer from empty string");
    let e = LayoutVersionIds::decode(Some("4, 9x ,1")).unwrap_err();
    assert_eq!(e, id_error(1, IntErrorKind::InvalidDigit, " 9x "));
    assert_eq!(e.message(), "Failed to parse layout version id ' 9x ': invalid digit found in string");
}

#[test]
fn doc_row_error_texts() {
    assert_eq!(DocRowError::UnknownDocType.message(), "Unknown document type");
    assert_eq!(DocRowError::UnknownStatus.message(), "Unknown document status");
    assert_eq!(
        DocRowError::InvalidLayoutId(id_error(0, IntErrorKind::PosOverflow, "99999999999")).message(),
        "number too large to fit in target type"
    );
}
