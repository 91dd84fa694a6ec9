//! The SQLite repositories of components and documents: their connection
//! pools, and the decisions and statement arguments of their operations.

use vstd::prelude::*;

use crate::components::{same_kind, Component, ComponentChangeError, ComponentPayload};
use crate::documents::{
    doc_status_name, DocStatus, decoded_layout_ids, join_ids, lemma_layout_ids_roundtrip, Document, DocumentMetadataForUpdate,
};
use crate::numeric::{append_decimal, append_padded_decimal, decimal, zero_pad, IntErrorKind};
use crate::documents::opt_chars;

verus! {

#[verifier::external_type_specification]
#[verifier::external_body]
pub struct ExJsonError(serde_json::Error);

/// Stores components and their versions in SQLite, through the connection pool `P`.
pub struct SqliteComponentRepository<P> {
    dbc: P,
}

impl<P> SqliteComponentRepository<P> {
    /// The pool the repository works through.
    pub closed spec fn spec_pool(&self) -> P {
        self.dbc
    }

    /// A repository that works through `dbc`.
    pub fn new(dbc: P) -> (r: SqliteComponentRepository<P>)
        ensures
            r.spec_pool() == dbc,
    {
        SqliteComponentRepository { dbc }
    }

    /// The pool the repository works through.
    pub fn pool(&self) -> (r: &P)
        ensures
            *r == self.spec_pool(),
    {
        &self.dbc
    }
}

/// Stores documents and their layouts in SQLite, through the connection pool `P`.
pub struct SqliteDocumentsRepository<P> {
    dbc: P,
}

impl<P> SqliteDocumentsRepository<P> {
    /// The pool the repository works through.
    pub closed spec fn spec_pool(&self) -> P {
        self.dbc
    }

    /// A repository that works through `dbc`.
    pub fn new(dbc: P) -> (r: SqliteDocumentsRepository<P>)
        ensures
            r.spec_pool() == dbc,
    {
        SqliteDocumentsRepository { dbc }
    }

    /// The pool the repository works through.
    pub fn pool(&self) -> (r: &P)
        ensures
            *r == self.spec_pool(),
    {
        &self.dbc
    }
}

/// The JSON array of the given numbers, as `serde_json::to_string` writes it:
/// `[` then the decimal numbers separated by commas, then `]`.
pub open spec fn json_u32_array(ids: Seq<u32>) -> Seq<char> {
    seq!['['] + join_ids(ids) + seq![']']
}

/// The JSON array of one layout row `(document, version, position)`.
pub open spec fn json_layout_row(row: (u32, u32, usize)) -> Seq<char> {
    seq!['['] + decimal(row.0 as nat) + seq![','] + decimal(row.1 as nat) + seq![','] + decimal(
        row.2 as nat,
    ) + seq![']']
}

/// The layout rows joined by commas.
pub open spec fn join_layout_rows(rows: Seq<(u32, u32, usize)>) -> Seq<char>
    decreases rows.len(),
{
    if rows.len() == 0 {
        Seq::<char>::empty()
    } else if rows.len() == 1 {
        json_layout_row(rows[0])
    } else {
        join_layout_rows(rows.drop_last()).push(',') + json_layout_row(rows.last())
    }
}

/// The JSON array of layout rows, as `serde_json::to_string` writes it.
pub open spec fn json_layout_rows(rows: Seq<(u32, u32, usize)>) -> Seq<char> {
    seq!['['] + join_layout_rows(rows) + seq![']']
}

/// `serde_json::to_string` of a slice of `u32`: the compact JSON array of the
/// numbers in order. It writes into a `Vec<u8>`, which never fails a write,
/// and the serialization of integers and sequences raises no error of its
/// own, so it always succeeds.
#[verifier::external_body]
fn u32_list_to_json(ids: &[u32]) -> (r: Result<String, serde_json::Error>)
    ensures
        r is Ok,
        r matches Ok(s) ==> s@ == json_u32_array(ids@),
{
    serde_json::to_string(ids)
}

/// `serde_json::to_string` of layout rows: the compact JSON array whose
/// elements are the rows as three-number arrays. It writes into a `Vec<u8>`,
/// which never fails a write, and the serialization of integers, tuples and
/// sequences raises no error of its own, so it always succeeds.
#[verifier::external_body]
fn layout_rows_to_json(rows: &Vec<(u32, u32, usize)>) -> (r: Result<String, serde_json::Error>)
    ensures
        r is Ok,
        r matches Ok(s) ==> s@ == json_layout_rows(rows@),
{
    serde_json::to_string(rows)
}

/// Why the arguments of a statement could not be prepared.
#[derive(Debug, Clone, Copy, PartialEq, Eq, Structural)]
pub enum StatementError {
    /// The arguments could not be written as JSON.
    Serialization,
}

/// The layout rows of `ids` in document `doc_id`: one per id, at its position.
pub open spec fn layout_rows_spec(doc_id: u32, ids: Seq<u32>) -> Seq<(u32, u32, usize)> {
    Seq::new(ids.len(), |i: int| (doc_id, ids[i], i as usize))
}

/// The layout rows of `version_ids` in document `doc_id`: the document, the
/// version and its position, in order.
pub fn layout_rows(doc_id: u32, version_ids: &[u32]) -> (rows: Vec<(u32, u32, usize)>)
    ensures
        rows@ == layout_rows_spec(doc_id, version_ids@),
{
    let mut rows: Vec<(u32, u32, usize)> = Vec::new();
    let mut i: usize = 0;
    while i < version_ids.len()
        invariant
            i <= version_ids@.len(),
            rows@ == layout_rows_spec(doc_id, version_ids@.take(i as int)),
        decreases version_ids@.len() - i,
    {
        rows.push((doc_id, version_ids[i], i));
        i = i + 1;
        assert(rows@ =~= layout_rows_spec(doc_id, version_ids@.take(i as int)));
    }
    assert(version_ids@.take(i as int) =~= version_ids@);
    rows
}

/// Law: the rows that replace a layout place each listed version of the
/// document at its index in the list; listing the stored versions of the
/// document by position and reading the list back gives the versions in the
/// order they were written.
pub proof fn lemma_layout_replacement_read_back(doc_id: u32, ids: Seq<u32>)
    ensures
        layout_rows_spec(doc_id, ids).len() == ids.len(),
        forall|i: int|
            0 <= i < ids.len() ==> #[trigger] layout_rows_spec(doc_id, ids)[i] == (
                doc_id,
                ids[i],
                i as usize,
            ),
        decoded_layout_ids(
            Some(join_ids(layout_rows_spec(doc_id, ids).map_values(|r: (u32, u32, usize)| r.1))),
        ) == Ok::<Seq<u32>, (int, IntErrorKind, Seq<char>)>(ids),
{
    let listed = layout_rows_spec(doc_id, ids).map_values(|r: (u32, u32, usize)| r.1);
    assert(listed =~= ids);
    lemma_layout_ids_roundtrip(ids);
}

/// The statements that replace the layout of a document: delete the layout
/// entries of the listed versions, then, unless the list is empty, insert one
/// entry per listed version at its position.
pub struct LayoutReplacement {
    /// The listed versions as a JSON array, for the delete.
    pub delete_ids_json: String,
    /// The rows to insert as a JSON array, when there are any.
    pub insert_rows_json: Option<String>,
}

/// Prepares the replacement of the layout of document `doc_id` by
/// `version_ids`.
pub fn plan_layout_replacement(doc_id: u32, version_ids: &[u32]) -> (r: Result<
    LayoutReplacement,
    StatementError,
>)
    ensures
        r is Ok,
        r matches Ok(p) ==> {
            &&& p.delete_ids_json@ == json_u32_array(version_ids@)
            &&& (version_ids@.len() == 0 <==> p.insert_rows_json is None)
            &&& p.insert_rows_json matches Some(j) ==> j@ == json_layout_rows(
                layout_rows_spec(doc_id, version_ids@),
            )
        },
{
    let delete_ids_json = u32_list_to_json(version_ids);
    if delete_ids_json.is_err() || version_ids.len() == 0 {
        return assemble_layout_replacement(delete_ids_json, None);
    }
    let rows = layout_rows(doc_id, version_ids);
    let insert_rows_json = layout_rows_to_json(&rows);
    assemble_layout_replacement(delete_ids_json, Some(insert_rows_json))
}

/// The layout replacement made of the JSON texts of the listed versions and,
/// when there are rows to insert, of those rows: a replacement when every
/// text was written, else a serialization error.
pub fn assemble_layout_replacement(
    delete_ids_json: Result<String, serde_json::Error>,
    insert_rows_json: Option<Result<String, serde_json::Error>>,
) -> (r: Result<LayoutReplacement, StatementError>)
    ensures
        match (delete_ids_json, insert_rows_json) {
            (Ok(d), None) => r matches Ok(p) && p.delete_ids_json == d && p.insert_rows_json is None,
            (Ok(d), Some(Ok(j))) => r matches Ok(p) && p.delete_ids_json == d
                && p.insert_rows_json == Some(j),
            _ => r == Err::<LayoutReplacement, StatementError>(StatementError::Serialization),
        },
{
    match delete_ids_json {
        Err(_) => Err(StatementError::Serialization),
        Ok(delete_ids_json) => match insert_rows_json {
            None => Ok(LayoutReplacement { delete_ids_json, insert_rows_json: None }),
            Some(Ok(j)) => Ok(LayoutReplacement { delete_ids_json, insert_rows_json: Some(j) }),
            Some(Err(_)) => Err(StatementError::Serialization),
        },
    }
}

/// Prepares a lookup of component versions by id: no lookup at all for an
/// empty list (the answer is empty), else the ids as a JSON array.
pub fn plan_version_lookup(version_ids: &[u32]) -> (r: Result<Option<String>, StatementError>)
    ensures
        version_ids@.len() == 0 ==> r == Ok::<Option<String>, StatementError>(None),
        version_ids@.len() > 0 ==> (r matches Ok(Some(j)) && j@ == json_u32_array(version_ids@)),
{
    if version_ids.len() == 0 {
        return Ok(None);
    }
    match u32_list_to_json(version_ids) {
        Ok(s) => Ok(Some(s)),
        Err(_) => Err(StatementError::Serialization),
    }
}

/// Whether a delete found what it was to delete: it did when it affected at
/// least one row, and only then is it committed.
pub fn deletion_confirmed(rows_affected: u64) -> (r: bool)
    ensures
        r == (rows_affected > 0),
{
    rows_affected > 0
}

/// The outcome of updating a stored component: nothing when none is stored
/// under the id, else the stored component with the incoming changes.
pub fn plan_component_update(
    current: Option<Component<ComponentPayload>>,
    incoming: Component<ComponentPayload>,
) -> (r: Result<Option<Component<ComponentPayload>>, ComponentChangeError>)
    requires
        current matches Some(c) ==> c.version.0 < u32::MAX,
    ensures
        match current {
            None => r == Ok::<Option<Component<ComponentPayload>>, ComponentChangeError>(None),
            Some(c) => if same_kind(c.payload, incoming.payload) {
                r matches Ok(Some(u)) && u.id == c.id && u.version.0 == c.version.0 + 1 && u.title
                    == incoming.title && u.payload == incoming.payload
            } else {
                r == Err::<Option<Component<ComponentPayload>>, ComponentChangeError>(
                    ComponentChangeError::KindChanged,
                )
            },
        },
{
    match current {
        None => Ok(None),
        Some(c) => match c.apply_changes(incoming) {
            Ok(u) => Ok(Some(u)),
            Err(e) => Err(e),
        },
    }
}

/// The outcome of a partial update of a stored document: nothing when none
/// is stored under the id, else the stored document with the incoming
/// metadata applied.
pub fn plan_document_update(current: Option<Document>, incoming: DocumentMetadataForUpdate) -> (r:
    Option<Document>)
    ensures
        match current {
            None => r is None,
            Some(c) => r matches Some(d) && d.id == c.id && d.doc_type == c.doc_type && d.status
                == c.status && d.layout_version_ids@ == c.layout_version_ids@ && d.title@
                == match incoming.title {
                Some(t) => t@,
                None => c.title@,
            },
        },
{
    match current {
        None => None,
        Some(c) => {
            let mut d = c;
            d.apply_metadata_changes(incoming);
            Some(d)
        },
    }
}


/// A condition that a filter adds to a listing query: the SQL text that
/// precedes the bound value, and the value.
#[derive(Debug)]
pub struct FilterCondition {
    pub clause: String,
    pub value: String,
}

/// The optional filters of the component listing.
#[derive(Debug)]
pub struct ComponentFilterQuery {
    /// The group of kinds to list, the part of a kind identifier before its
    /// `/`.
    pub group: Option<String>,
}

/// The optional filters of the document listing.
#[derive(Debug)]
pub struct DocumentFilterQuery {
    /// The status to list.
    pub status: Option<DocStatus>,
}

impl ComponentFilterQuery {
    /// The conditions of this filter: none without a group, else that the
    /// kind identifier starts with the group and a `/`.
    pub fn conditions(&self) -> (r: Vec<FilterCondition>)
        ensures
            match self.group {
                None => r@.len() == 0,
                Some(g) => r@.len() == 1 && r@[0].clause@ == " AND c.type LIKE "@ && r@[0].value@
                    == g@ + "/%"@,
            },
    {
        let mut r: Vec<FilterCondition> = Vec::new();
        match &self.group {
            None => {},
            Some(g) => {
                let mut value = g.clone();
                value.append("/%");
                r.push(FilterCondition { clause: String::from_str(" AND c.type LIKE "), value });
            },
        }
        r
    }
}

impl DocumentFilterQuery {
    /// The conditions of this filter: none without a status, else that the
    /// stored status is the given one.
    pub fn conditions(&self) -> (r: Vec<FilterCondition>)
        ensures
            match self.status {
                None => r@.len() == 0,
                Some(st) => r@.len() == 1 && r@[0].clause@ == " AND d.status = "@ && r@[0].value@
                    == doc_status_name(st),
            },
    {
        let mut r: Vec<FilterCondition> = Vec::new();
        match self.status {
            None => {},
            Some(st) => {
                r.push(
                    FilterCondition {
                        clause: String::from_str(" AND d.status = "),
                        value: String::from_str(st.as_str()),
                    },
                );
            },
        }
        r
    }
}


/// A moment in UTC as calendar fields: the year, month (1 to 12), day,
/// hour, minute and second as a clock shows them (a leap second is 60).
#[derive(Debug, Clone, Copy, PartialEq, Eq, Structural)]
pub struct PublishedAt {
    pub year: i32,
    pub month: u32,
    pub day: u32,
    pub hour: u32,
    pub minute: u32,
    pub second: u32,
}

/// The year as `%Y` writes it: four digits, zero-padded, for the years 0 to
/// 9999; a sign and at least four digits for the others.
pub open spec fn year_text(y: i32) -> Seq<char> {
    if 0 <= y && y <= 9999 {
        zero_pad(decimal(y as nat), 4)
    } else if y < 0 {
        "-"@ + zero_pad(decimal((-(y as int)) as nat), 4)
    } else {
        "+"@ + zero_pad(decimal(y as nat), 4)
    }
}

/// A two-digit field, zero-padded.
pub open spec fn two_digits(n: u32) -> Seq<char> {
    zero_pad(decimal(n as nat), 2)
}

/// The moment as `%Y-%m-%d %H:%M:%S` writes it.
pub open spec fn published_at_text(t: PublishedAt) -> Seq<char> {
    year_text(t.year) + "-"@ + two_digits(t.month) + "-"@ + two_digits(t.day) + " "@ + two_digits(
        t.hour,
    ) + ":"@ + two_digits(t.minute) + ":"@ + two_digits(t.second)
}

/// The moment as `%Y-%m-%d %H:%M:%S` writes it.
pub fn format_published_at(t: &PublishedAt) -> (s: String)
    ensures
        s@ == published_at_text(*t),
{
    let mut s = String::new();
    if 0 <= t.year && t.year <= 9999 {
        append_padded_decimal(&mut s, t.year as u64, 4);
    } else if t.year < 0 {
        s.append("-");
        let magnitude: i64 = -(t.year as i64);
        append_padded_decimal(&mut s, magnitude as u64, 4);
    } else {
        s.append("+");
        append_padded_decimal(&mut s, t.year as u64, 4);
    }
    let ghost year = s@;
    assert(year == year_text(t.year));
    s.append("-");
    append_padded_decimal(&mut s, t.month as u64, 2);
    s.append("-");
    append_padded_decimal(&mut s, t.day as u64, 2);
    s.append(" ");
    append_padded_decimal(&mut s, t.hour as u64, 2);
    s.append(":");
    append_padded_decimal(&mut s, t.minute as u64, 2);
    s.append(":");
    append_padded_decimal(&mut s, t.second as u64, 2);
    assert(s@ =~= published_at_text(*t));
    s
}

/// What publishing a document writes: the new status, that the document is
/// complete, and when it was published.
#[derive(Debug)]
pub struct PublicationUpdate {
    pub status: String,
    pub is_completed: bool,
    pub published_at: Option<String>,
}

/// Why a document could not be marked as published.
#[derive(Debug, Clone, Copy, PartialEq, Eq, Structural)]
pub enum PublicationError {
    /// No document is stored under the id.
    NotFound(u32),
}

/// The message of a publication error.
pub open spec fn publication_error_text(e: PublicationError) -> Seq<char> {
    match e {
        PublicationError::NotFound(id) => "Document "@ + decimal(id as nat) + " is not found"@,
    }
}

impl PublicationError {
    /// The message of this error.
    pub fn message(&self) -> (m: String)
        ensures
            m@ == publication_error_text(*self),
    {
        match self {
            PublicationError::NotFound(id) => {
                let mut m = String::from_str("Document ");
                append_decimal(&mut m, *id as u64);
                m.append(" is not found");
                m
            },
        }
    }
}

/// The write that marks document `doc_id` as published with `status` at
/// `published_at`: refused when no document is stored under the id, else
/// the status, completion and formatted publication time.
pub fn plan_publication(
    doc_id: u32,
    stored: Option<Document>,
    status: String,
    published_at: Option<PublishedAt>,
) -> (r: Result<PublicationUpdate, PublicationError>)
    ensures
        stored is None ==> r == Err::<PublicationUpdate, PublicationError>(
            PublicationError::NotFound(doc_id),
        ),
        stored is Some ==> (r matches Ok(u) && u.status == status && u.is_completed && opt_chars(
            u.published_at,
        ) == match published_at {
            Some(t) => Some(published_at_text(t)),
            None => None::<Seq<char>>,
        }),
{
    if stored.is_none() {
        return Err(PublicationError::NotFound(doc_id));
    }
    let published_at = match published_at {
        Some(t) => Some(format_published_at(&t)),
        None => None,
    };
    Ok(PublicationUpdate { status, is_completed: true, published_at })
}

} // verus!
