//! Documents: their kinds, their publication status, the ordered list of
//! component versions that makes up their layout, and how a stored row
//! becomes a document.

use vstd::prelude::*;

use crate::numeric::{
    decimal, int_error_text, is_digit, lemma_decimal_digits, lemma_parse_decimal_roundtrip, parse_u32_chars,
    parse_u32_spec, IntErrorKind,
};
use crate::text::{
    chars_of, is_ws, split_commas, str_eq, trim_end_seq, trim_seq, trim_start_seq, trimmed_end,
    trimmed_start,
};

verus! {

/// The kind of an engineering document.
#[derive(Debug, Clone, Copy, PartialEq, Eq, Structural)]
pub enum DocTypes {
    /// Software design description.
    Sdd,
    /// API reference.
    Api,
}

/// Where a document stands in its publication workflow.
#[derive(Debug, Clone, Copy, PartialEq, Eq, Structural)]
pub enum DocStatus {
    Draft,
    Publishing,
    Published,
}

/// The name of a document kind, as it is stored and shown.
pub open spec fn doc_type_name(t: DocTypes) -> Seq<char> {
    match t {
        DocTypes::Sdd => "Sdd"@,
        DocTypes::Api => "Api"@,
    }
}

/// The name of a status, as it is stored and shown.
pub open spec fn doc_status_name(s: DocStatus) -> Seq<char> {
    match s {
        DocStatus::Draft => "Draft"@,
        DocStatus::Publishing => "Publishing"@,
        DocStatus::Published => "Published"@,
    }
}

/// The document kind named `name`, if any.
pub open spec fn doc_type_of(name: Seq<char>) -> Option<DocTypes> {
    if name == "Sdd"@ {
        Some(DocTypes::Sdd)
    } else if name == "Api"@ {
        Some(DocTypes::Api)
    } else {
        None
    }
}

/// Law: different kinds and different statuses have different names, so the
/// name shown for a document tells its kind and its status.
pub proof fn lemma_names_are_distinct(t: DocTypes, u: DocTypes, s: DocStatus, v: DocStatus)
    ensures
        t != u ==> doc_type_name(t) != doc_type_name(u),
        s != v ==> doc_status_name(s) != doc_status_name(v),
{
    reveal_strlit("Sdd");
    reveal_strlit("Api");
    reveal_strlit("Draft");
    reveal_strlit("Publishing");
    reveal_strlit("Published");
    if t != u {
        assert(doc_type_name(t)[0] != doc_type_name(u)[0]);
    }
    if s != v {
        let a = doc_status_name(s);
        let b = doc_status_name(v);
        assert(a.len() != b.len() || a[0] != b[0]);
    }
}

impl DocTypes {
    /// The name of this document kind.
    pub fn as_str(&self) -> (r: &'static str)
        ensures
            r@ == doc_type_name(*self),
    {
        match self {
            DocTypes::Sdd => "Sdd",
            DocTypes::Api => "Api",
        }
    }

    /// The document kind whose name is `s`, if any.
    pub fn parse(s: &str) -> (r: Option<DocTypes>)
        ensures
            r == doc_type_of(s@),
    {
        if str_eq(s, "Sdd") {
            Some(DocTypes::Sdd)
        } else if str_eq(s, "Api") {
            Some(DocTypes::Api)
        } else {
            None
        }
    }
}

impl DocStatus {
    /// The name of this status.
    pub fn as_str(&self) -> (r: &'static str)
        ensures
            r@ == doc_status_name(*self),
    {
        match self {
            DocStatus::Draft => "Draft",
            DocStatus::Publishing => "Publishing",
            DocStatus::Published => "Published",
        }
    }
}

/// A stored document list that could not be read: the piece at `index`
/// (counting from zero between commas), whose text is `piece`, is not a
/// `u32`, for the reason `kind`.
#[derive(Debug, Clone, PartialEq, Eq)]
pub struct LayoutIdError {
    pub index: usize,
    pub kind: IntErrorKind,
    pub piece: String,
}

/// The account of a failed list: the index of the first piece that does not
/// read, why, and the piece as it stands between the commas.
pub open spec fn failure_of(e: LayoutIdError) -> (int, IntErrorKind, Seq<char>) {
    (e.index as int, e.kind, e.piece@)
}

/// The message of a failed layout id, as the store's decoder reports it.
pub open spec fn layout_id_error_text(e: LayoutIdError) -> Seq<char> {
    "Failed to parse layout version id '"@ + e.piece@ + "': "@ + int_error_text(e.kind)
}

impl LayoutIdError {
    /// The message of this error: the piece that does not read and why.
    pub fn message(&self) -> (m: String)
        ensures
            m@ == layout_id_error_text(*self),
    {
        let mut m = String::from_str("Failed to parse layout version id '");
        m.append(self.piece.as_str());
        m.append("': ");
        m.append(self.kind.description());
        m
    }
}

/// Reads each piece, trimmed, as a `u32`; the first piece that does not read
/// decides the error.
pub open spec fn parse_id_list(pieces: Seq<Seq<char>>) -> Result<
    Seq<u32>,
    (int, IntErrorKind, Seq<char>),
>
    decreases pieces.len(),
{
    if pieces.len() == 0 {
        Ok(Seq::<u32>::empty())
    } else {
        match parse_id_list(pieces.drop_last()) {
            Err(e) => Err(e),
            Ok(ids) => match parse_u32_spec(trim_seq(pieces.last())) {
                Ok(n) => Ok(ids.push(n as u32)),
                Err(k) => Err(((pieces.len() - 1) as int, k, pieces.last())),
            },
        }
    }
}

/// The ids of a comma-separated list, each piece trimmed.
pub open spec fn comma_ids(s: Seq<char>) -> Result<Seq<u32>, (int, IntErrorKind, Seq<char>)> {
    parse_id_list(split_commas(s))
}

/// Reads a comma-separated list of `u32`s, each possibly surrounded by
/// whitespace (`s.split(',').map(|v| v.trim().parse::<u32>())`, collected).
pub fn parse_comma_separated_ids(s: &str) -> (r: Result<Vec<u32>, LayoutIdError>)
    ensures
        match (r, comma_ids(s@)) {
            (Ok(v), Ok(w)) => v@ == w,
            (Err(e), Err(f)) => failure_of(e) == f,
            _ => false,
        },
{
    let v = chars_of(s);
    let n = v.len();
    let mut ids: Vec<u32> = Vec::new();
    let mut failure: Option<LayoutIdError> = None;
    let mut start: usize = 0;
    let mut count: usize = 0;
    let ghost mut done: Seq<Seq<char>> = Seq::empty();
    assert(v@.take(0) =~= Seq::<char>::empty());
    assert(v@.subrange(0, 0) =~= Seq::<char>::empty());
    assert(split_commas(Seq::<char>::empty()) =~= done.push(Seq::<char>::empty()));
    let mut i: usize = 0;
    while i < n
        invariant
            n == v@.len(),
            v@ == s@,
            start <= i <= n,
            count == done.len(),
            count <= i,
            split_commas(v@.take(i as int)) == done.push(v@.subrange(start as int, i as int)),
            match (failure, parse_id_list(done)) {
                (None, Ok(w)) => ids@ == w,
                (Some(e), Err(f)) => failure_of(e) == f,
                _ => false,
            },
        decreases n - i,
    {
        let ghost prev = v@.take(i as int);
        assert(v@.take(i + 1).drop_last() =~= prev);
        if v[i] == ',' {
            if failure.is_none() {
                let e = trimmed_end(&v, start, i);
                let b = trimmed_start(&v, start, e);
                match parse_u32_chars(&v, b, e) {
                    Ok(x) => {
                        ids.push(x);
                    },
                    Err(k) => {
                        let piece = String::from_str(s.substring_char(start, i));
                        failure = Some(LayoutIdError { index: count, kind: k, piece });
                    },
                }
            }
            proof {
                let piece = v@.subrange(start as int, i as int);
                assert(done.push(piece).drop_last() =~= done);
                done = done.push(piece);
                assert(v@.subrange(i + 1, i + 1) =~= Seq::<char>::empty());
            }
            count = count + 1;
            start = i + 1;
        } else {
            proof {
                assert(v@.subrange(start as int, i + 1) =~= v@.subrange(start as int, i as int).push(
                    v@[i as int],
                ));
                assert(split_commas(v@.take(i + 1)) =~= done.push(
                    v@.subrange(start as int, i + 1),
                ));
            }
        }
        i = i + 1;
    }
    assert(v@.take(n as int) =~= v@);
    let ghost last = v@.subrange(start as int, n as int);
    assert(done.push(last).drop_last() =~= done);
    if failure.is_none() {
        let e = trimmed_end(&v, start, n);
        let b = trimmed_start(&v, start, e);
        match parse_u32_chars(&v, b, e) {
            Ok(x) => {
                ids.push(x);
            },
            Err(k) => {
                let piece = String::from_str(s.substring_char(start, n));
                failure = Some(LayoutIdError { index: count, kind: k, piece });
            },
        }
    }
    match failure {
        Some(e) => Err(e),
        None => Ok(ids),
    }
}


/// The characters of an optional text.
pub open spec fn opt_chars(o: Option<String>) -> Option<Seq<char>> {
    match o {
        Some(s) => Some(s@),
        None => None,
    }
}

/// The layout ids of a stored row: none when the column is missing or empty,
/// else the comma-separated list it holds.
pub open spec fn row_layout_ids(raw: Option<Seq<char>>) -> Result<
    Seq<u32>,
    (int, IntErrorKind, Seq<char>),
> {
    match raw {
        Some(s) => if s.len() > 0 {
            comma_ids(s)
        } else {
            Ok(Seq::<u32>::empty())
        },
        None => Ok(Seq::<u32>::empty()),
    }
}

/// The layout ids of a stored column: none when the column is missing or
/// holds only whitespace, else the comma-separated list it holds.
pub open spec fn decoded_layout_ids(raw: Option<Seq<char>>) -> Result<
    Seq<u32>,
    (int, IntErrorKind, Seq<char>),
> {
    match raw {
        Some(s) => if trim_seq(s).len() > 0 {
            comma_ids(s)
        } else {
            Ok(Seq::<u32>::empty())
        },
        None => Ok(Seq::<u32>::empty()),
    }
}

/// The component version ids that make up a document's layout, in layout
/// order.
#[derive(Debug, Clone, PartialEq, Eq)]
pub struct LayoutVersionIds(pub Vec<u32>);

impl View for LayoutVersionIds {
    type V = Seq<u32>;

    open spec fn view(&self) -> Seq<u32> {
        self.0@
    }
}

impl LayoutVersionIds {
    /// Reads the stored text of a layout: missing or blank text is an empty
    /// layout, anything else must be a comma-separated list of ids.
    pub fn decode(raw: Option<&str>) -> (r: Result<LayoutVersionIds, LayoutIdError>)
        ensures
            match (r, decoded_layout_ids(
                match raw {
                    Some(s) => Some(s@),
                    None => None,
                },
            )) {
                (Ok(ids), Ok(w)) => ids@ == w,
                (Err(e), Err(f)) => failure_of(e) == f,
                _ => false,
            },
    {
        match raw {
            Some(s) => {
                let t = crate::text::trim(s);
                if t.unicode_len() > 0 {
                    match parse_comma_separated_ids(s) {
                        Ok(v) => Ok(LayoutVersionIds(v)),
                        Err(e) => Err(e),
                    }
                } else {
                    Ok(LayoutVersionIds(Vec::new()))
                }
            },
            None => Ok(LayoutVersionIds(Vec::new())),
        }
    }

    /// The number of ids in the layout.
    pub fn len(&self) -> (r: usize)
        ensures
            r == self@.len(),
    {
        self.0.len()
    }

    /// Whether the layout holds no id.
    pub fn is_empty(&self) -> (r: bool)
        ensures
            r == (self@.len() == 0),
    {
        self.0.len() == 0
    }
}

/// An engineering document: its kind, title, status and layout.
#[derive(Debug, Clone)]
pub struct Document {
    pub id: Option<u32>,
    pub doc_type: DocTypes,
    pub title: String,
    pub status: DocStatus,
    pub layout_version_ids: LayoutVersionIds,
}

impl Document {
    /// A new draft document of kind `doc_type` titled `title`, not yet stored
    /// and with an empty layout.
    pub fn new(doc_type: DocTypes, title: &str) -> (d: Document)
        ensures
            d.id is None,
            d.doc_type == doc_type,
            d.title@ == title@,
            d.status == DocStatus::Draft,
            d.layout_version_ids@.len() == 0,
    {
        Document {
            id: None,
            doc_type,
            title: String::from_str(title),
            status: DocStatus::Draft,
            layout_version_ids: LayoutVersionIds(Vec::new()),
        }
    }

    /// Applies the metadata of `incoming` to this document: a given title
    /// replaces the current one; everything else stays.
    pub fn apply_metadata_changes(&mut self, incoming: DocumentMetadataForUpdate)
        ensures
            final(self).id == old(self).id,
            final(self).doc_type == old(self).doc_type,
            final(self).status == old(self).status,
            final(self).layout_version_ids@ == old(self).layout_version_ids@,
            final(self).title@ == match incoming.title {
                Some(t) => t@,
                None => old(self).title@,
            },
    {
        match incoming.title {
            Some(t) => {
                self.title = t;
            },
            None => {},
        }
    }
}

/// The metadata of a document that a partial update may change.
#[derive(Debug, Clone)]
pub struct DocumentMetadataForUpdate {
    pub id: u32,
    pub title: Option<String>,
}

/// Why a stored row is not a document.
#[derive(Debug, Clone, PartialEq, Eq)]
pub enum DocRowError {
    /// The stored kind names no document kind.
    UnknownDocType,
    /// The stored status names no status.
    UnknownStatus,
    /// The stored layout is not a list of ids.
    InvalidLayoutId(LayoutIdError),
}

/// A document as it is stored: kind and status by name, layout as a
/// comma-separated list of component version ids.
#[derive(Debug, Clone)]
pub struct DocRow {
    pub id: u32,
    pub doc_type: String,
    pub title: String,
    pub status: String,
    pub layout_version_ids: Option<String>,
}

/// The message of a row that is not a document.
pub open spec fn doc_row_error_text(e: DocRowError) -> Seq<char> {
    match e {
        DocRowError::UnknownDocType => "Unknown document type"@,
        DocRowError::UnknownStatus => "Unknown document status"@,
        DocRowError::InvalidLayoutId(l) => int_error_text(l.kind),
    }
}

impl DocRowError {
    /// The message of this error; a layout that does not read is reported by
    /// why its piece does not read.
    pub fn message(&self) -> (m: String)
        ensures
            m@ == doc_row_error_text(*self),
    {
        match self {
            DocRowError::UnknownDocType => String::from_str("Unknown document type"),
            DocRowError::UnknownStatus => String::from_str("Unknown document status"),
            DocRowError::InvalidLayoutId(l) => String::from_str(l.kind.description()),
        }
    }
}

impl DocRow {
    /// The ids of the stored layout: empty when the column is missing or
    /// empty, else the comma-separated list it holds.
    pub fn get_layout_version_ids_as_vec(&self) -> (r: Result<Vec<u32>, LayoutIdError>)
        ensures
            match (r, row_layout_ids(opt_chars(self.layout_version_ids))) {
                (Ok(v), Ok(w)) => v@ == w,
                (Err(e), Err(f)) => failure_of(e) == f,
                _ => false,
            },
    {
        match &self.layout_version_ids {
            Some(s) => {
                if s.as_str().unicode_len() > 0 {
                    parse_comma_separated_ids(s.as_str())
                } else {
                    Ok(Vec::new())
                }
            },
            None => Ok(Vec::new()),
        }
    }

    /// The document this row stores, given what its status column names
    /// (`None` when it names no status). The kind is checked first, then the
    /// status, then the layout.
    pub fn into_document(self, status: Option<DocStatus>) -> (r: Result<Document, DocRowError>)
        ensures
            match doc_type_of(self.doc_type@) {
                None => r == Err::<Document, DocRowError>(DocRowError::UnknownDocType),
                Some(t) => match status {
                    None => r == Err::<Document, DocRowError>(DocRowError::UnknownStatus),
                    Some(st) => match row_layout_ids(opt_chars(self.layout_version_ids)) {
                        Err(e) => (r matches Err(DocRowError::InvalidLayoutId(x)) && failure_of(x)
                            == e),
                        Ok(ids) => r matches Ok(d) && d.id == Some(self.id) && d.doc_type == t
                            && d.title@ == self.title@ && d.status == st
                            && d.layout_version_ids@ == ids,
                    },
                },
            },
    {
        let doc_type = match DocTypes::parse(self.doc_type.as_str()) {
            Some(t) => t,
            None => return Err(DocRowError::UnknownDocType),
        };
        let status = match status {
            Some(st) => st,
            None => return Err(DocRowError::UnknownStatus),
        };
        let ids = match self.get_layout_version_ids_as_vec() {
            Ok(v) => v,
            Err(e) => return Err(DocRowError::InvalidLayoutId(e)),
        };
        Ok(Document {
            id: Some(self.id),
            doc_type,
            title: self.title,
            status,
            layout_version_ids: LayoutVersionIds(ids),
        })
    }
}


/// The ids written as decimal numbers separated by commas, as the store
/// lists a layout (`GROUP_CONCAT` over the layout positions).
pub open spec fn join_ids(ids: Seq<u32>) -> Seq<char>
    decreases ids.len(),
{
    if ids.len() == 0 {
        Seq::<char>::empty()
    } else if ids.len() == 1 {
        decimal(ids[0] as nat)
    } else {
        join_ids(ids.drop_last()).push(',') + decimal(ids.last() as nat)
    }
}

/// Appending text without commas extends the last piece.
proof fn lemma_split_commas_append(a: Seq<char>, b: Seq<char>)
    requires
        forall|i: int| 0 <= i < b.len() ==> b[i] != ',',
    ensures
        split_commas(a + b) == split_commas(a).update(
            split_commas(a).len() - 1,
            split_commas(a).last() + b,
        ),
    decreases b.len(),
{
    crate::text::lemma_split_commas_nonempty(a);
    if b.len() == 0 {
        assert(a + b =~= a);
        assert(split_commas(a).last() + b =~= split_commas(a).last());
        assert(split_commas(a).update(split_commas(a).len() - 1, split_commas(a).last())
            =~= split_commas(a));
    } else {
        let b0 = b.drop_last();
        lemma_split_commas_append(a, b0);
        assert((a + b).drop_last() =~= a + b0);
        assert((a + b).last() == b.last());
        assert(split_commas(a).last() + b =~= (split_commas(a).last() + b0).push(b.last()));
        assert(split_commas(a + b) =~= split_commas(a).update(
            split_commas(a).len() - 1,
            split_commas(a).last() + b,
        ));
    }
}

/// Decimal text holds no comma and no whitespace, and trimming leaves it as
/// it is.
proof fn lemma_decimal_plain(n: nat)
    ensures
        forall|i: int| 0 <= i < decimal(n).len() ==> decimal(n)[i] != ',',
        trim_seq(decimal(n)) == decimal(n),
{
    lemma_decimal_digits(n);
    let d = decimal(n);
    assert forall|i: int| 0 <= i < d.len() implies d[i] != ',' by {
        assert(is_digit(d[i]));
    }
    assert(is_digit(d.last()));
    assert(!is_ws(d.last()));
    assert(trim_end_seq(d) == d);
    assert(is_digit(d[0]));
    assert(trim_start_seq(d) == d);
}

/// The pieces of a joined list are the decimal texts of the ids.
proof fn lemma_split_join(ids: Seq<u32>)
    requires
        ids.len() >= 1,
    ensures
        split_commas(join_ids(ids)) == ids.map_values(|n: u32| decimal(n as nat)),
    decreases ids.len(),
{
    lemma_decimal_plain(ids.last() as nat);
    if ids.len() == 1 {
        lemma_split_commas_append(Seq::<char>::empty(), decimal(ids[0] as nat));
        assert(Seq::<char>::empty() + decimal(ids[0] as nat) =~= decimal(ids[0] as nat));
        assert(split_commas(Seq::<char>::empty()) =~= seq![Seq::<char>::empty()]);
        assert(Seq::<char>::empty() + decimal(ids[0] as nat) =~= decimal(ids[0] as nat));
        assert(split_commas(join_ids(ids)) =~= ids.map_values(|n: u32| decimal(n as nat)));
    } else {
        let a = join_ids(ids.drop_last()).push(',');
        lemma_split_join(ids.drop_last());
        lemma_split_commas_append(a, decimal(ids.last() as nat));
        assert(a.drop_last() =~= join_ids(ids.drop_last()));
        crate::text::lemma_split_commas_nonempty(a);
        assert(split_commas(a).last() =~= Seq::<char>::empty());
        assert(Seq::<char>::empty() + decimal(ids.last() as nat) =~= decimal(ids.last() as nat));
        assert(split_commas(join_ids(ids)) =~= ids.map_values(|n: u32| decimal(n as nat)));
    }
}

/// Reading the decimal texts of ids gives the ids back.
proof fn lemma_parse_id_list_decimals(ids: Seq<u32>)
    ensures
        parse_id_list(ids.map_values(|n: u32| decimal(n as nat))) == Ok::<
            Seq<u32>,
            (int, IntErrorKind, Seq<char>),
        >(ids),
    decreases ids.len(),
{
    let pieces = ids.map_values(|n: u32| decimal(n as nat));
    if ids.len() > 0 {
        lemma_parse_id_list_decimals(ids.drop_last());
        assert(pieces.drop_last() =~= ids.drop_last().map_values(|n: u32| decimal(n as nat)));
        lemma_decimal_plain(ids.last() as nat);
        lemma_parse_decimal_roundtrip(ids.last());
        assert(ids.drop_last().push(ids.last()) =~= ids);
    } else {
        assert(ids =~= Seq::<u32>::empty());
    }
}

/// Law: reading back a stored layout gives the ids that were stored, in their
/// order, whether the column is read as a row or decoded; an empty layout
/// is stored as empty text and read back as empty.
pub proof fn lemma_layout_ids_roundtrip(ids: Seq<u32>)
    ensures
        decoded_layout_ids(Some(join_ids(ids))) == Ok::<Seq<u32>, (int, IntErrorKind, Seq<char>)>(ids),
        row_layout_ids(Some(join_ids(ids))) == Ok::<Seq<u32>, (int, IntErrorKind, Seq<char>)>(ids),
{
    if ids.len() == 0 {
        assert(ids =~= Seq::<u32>::empty());
        assert(trim_end_seq(Seq::<char>::empty()) == Seq::<char>::empty());
        assert(trim_start_seq(Seq::<char>::empty()) == Seq::<char>::empty());
    } else {
        lemma_split_join(ids);
        lemma_parse_id_list_decimals(ids);
        let j = join_ids(ids);
        if ids.len() == 1 {
            lemma_decimal_plain(ids[0] as nat);
            lemma_decimal_digits(ids[0] as nat);
        } else {
            lemma_decimal_digits(ids.last() as nat);
            assert(j.len() > 0);
            assert(j.last() == decimal(ids.last() as nat).last());
            lemma_decimal_plain(ids.last() as nat);
            assert(is_digit(j.last()));
            assert(trim_end_seq(j) == j);
        }
        assert(j.len() > 0);
        assert(trim_seq(j).len() > 0) by {
            lemma_trim_keeps_digit_end(j);
        }
    }
}

/// Text that ends in a digit keeps it when trimmed.
proof fn lemma_trim_keeps_digit_end(j: Seq<char>)
    requires
        j.len() > 0,
        is_digit(j.last()),
    ensures
        trim_seq(j).len() > 0,
{
    assert(trim_end_seq(j) == j);
    lemma_trim_start_keeps_last(j);
}

/// Trimming the start of text never removes a last character that is not
/// whitespace.
proof fn lemma_trim_start_keeps_last(j: Seq<char>)
    requires
        j.len() > 0,
        !is_ws(j.last()),
    ensures
        trim_start_seq(j).len() > 0,
    decreases j.len(),
{
    if is_ws(j[0]) {
        if j.len() == 1 {
        } else {
            assert(j.drop_first().last() == j.last());
            lemma_trim_start_keeps_last(j.drop_first());
        }
    }
}

} // verus!
