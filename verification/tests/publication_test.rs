use chrono::{Datelike, TimeZone, Timelike, Utc};
use engineering_documents_manager::documents::{DocTypes, Document};
use engineering_documents_manager::repositories::{
    format_published_at, plan_publication, PublicationError, PublishedAt,
};

fn fields(at: chrono::DateTime<Utc>) -> PublishedAt {
    PublishedAt {
        year: at.year(),
        month: at.month(),
        day: at.day(),
        hour: at.hour(),
        minute: at.minute(),
        second: at.second() + at.nanosecond() / 1_000_000_000,
    }
}

#[test]
fn published_at_matches_chrono() {
    let moments = [
        Utc.with_ymd_and_hms(2024, 3, 7, 9, 5, 2).unwrap(),
        Utc.with_ymd_and_hms(1999, 12, 31, 23, 59, 59).unwrap(),
        Utc.with_ymd_and_hms(7, 1, 1, 0, 0, 0).unwrap(),
        Utc.with_ymd_and_hms(-5, 6, 15, 12, 30, 45).unwrap(),
        Utc.with_ymd_and_hms(12345, 2, 28, 1, 2, 3).unwrap(),
        Utc.with_ymd_and_hms(-12345, 2, 28, 1, 2, 3).unwrap(),
        Utc::now(),
    ];
    for at in moments {
        assert_eq!(format_published_at(&fields(at)), at.format("%Y-%m-%d %H:%M:%S").to_string());
    }
}

#[test]
fn publication_of_a_stored_document() {
    let at = Utc.with_ymd_and_hms(2025, 1, 2, 3, 4, 5).unwrap();
    let mut doc = Document::new(DocTypes::Api, "API");
    doc.id = Some(1);
    let u = plan_publication(1, Some(doc.clone()), "Published".into(), Some(fields(at))).unwrap();
    assert_eq!(u.status, "Published");
    assert!(u.is_completed);
    assert_eq!(u.published_at.as_deref(), Some("2025-01-02 03:04:05"));
    let u = plan_publication(1, Some(doc), "Published".into(), None).unwrap();
    assert_eq!(u.published_at, None);
}

#[test]
fn publication_of_a_missing_document() {
    let e = plan_publication(7, None, "Published".into(), None).unwrap_err();
    assert_eq!(e, PublicationError::NotFound(7));
    assert_eq!(e.message(), "Document 7 is not found");
}
