//! Markdown rendering of components and documents.

use vstd::prelude::*;

use crate::components::{
    http_method_name, ApiEndpoint, ComponentPayload, DecisionRecord, DesignSpecSubType, ImageLink,
    MermaidDiagram, ReferenceSubType, SchematicSubType,
};
use crate::documents::{doc_status_name, doc_type_name, Document};
use crate::numeric::{append_decimal, decimal};
use crate::text::{
    is_ws, lemma_trim_end_concat, lemma_trim_end_last, trim, trim_end, trim_end_seq, trim_seq,
};

verus! {

/// Values that render themselves as Markdown.
pub trait RenderMarkdown {
    /// The Markdown text of the value.
    spec fn markdown(&self) -> Seq<char>;

    /// Appends the Markdown text of the value to `out`.
    fn render_markdown(&self, out: &mut String)
        ensures
            final(out)@ == old(out)@ + self.markdown(),
    ;
}

/// One bullet line per alternative, in order.
pub open spec fn bullet_lines(alts: Seq<String>) -> Seq<char>
    decreases alts.len(),
{
    if alts.len() == 0 {
        Seq::<char>::empty()
    } else {
        bullet_lines(alts.drop_last()) + "- "@ + alts.last()@ + "\n"@
    }
}

/// The Markdown of a decision record: the decision, the rationale, and the
/// alternatives considered when there are any.
pub open spec fn decision_record_md(r: DecisionRecord) -> Seq<char> {
    "### Decision\n"@ + r.decision@ + "\n\n"@ + "### Rationale\n"@ + r.rationale@ + "\n\n"@ + if r.alternatives_considered@.len() == 0 {
        Seq::<char>::empty()
    } else {
        "### Alternatives Considered\n"@ + bullet_lines(r.alternatives_considered@)
    }
}

/// The Markdown of an API endpoint: a heading with method and path, then the
/// trimmed request body example in a JSON block when there is one.
pub open spec fn api_endpoint_md(a: ApiEndpoint) -> Seq<char> {
    "### `"@ + http_method_name(a.method) + "` `"@ + a.endpoint.0@ + "`\n\n"@ + if a.request_body_example@.len() == 0 {
        Seq::<char>::empty()
    } else {
        "**Request Body Example:**\n\n"@ + "```json\n"@ + trim_seq(a.request_body_example@) + "\n"@
            + "```\n\n"@
    }
}

/// The Markdown of a Mermaid diagram: its trimmed definition in a mermaid
/// block.
pub open spec fn mermaid_md(m: MermaidDiagram) -> Seq<char> {
    "```mermaid\n"@ + trim_seq(m.definition@) + "\n"@ + "```\n\n"@
}

/// The Markdown of an image link.
pub open spec fn image_link_md(i: ImageLink) -> Seq<char> {
    "![Asset]("@ + i.path.0@ + ")\n\n"@
}

/// The Markdown of a component payload.
pub open spec fn component_md(p: ComponentPayload) -> Seq<char> {
    match p {
        ComponentPayload::DesignSpec(DesignSpecSubType::DecisionRecord(r)) => decision_record_md(r),
        ComponentPayload::Schematic(SchematicSubType::MermaidDiagram(m)) => mermaid_md(m),
        ComponentPayload::Schematic(SchematicSubType::ImageLink(i)) => image_link_md(i),
        ComponentPayload::Reference(ReferenceSubType::ApiEndpoint(a)) => api_endpoint_md(a),
    }
}

impl RenderMarkdown for DecisionRecord {
    open spec fn markdown(&self) -> Seq<char> {
        decision_record_md(*self)
    }

    fn render_markdown(&self, out: &mut String) {
        out.append("### Decision\n");
        out.append(self.decision.as_str());
        out.append("\n\n");
        out.append("### Rationale\n");
        out.append(self.rationale.as_str());
        out.append("\n\n");
        let ghost head = out@;
        if self.alternatives_considered.len() > 0 {
            out.append("### Alternatives Considered\n");
            let ghost with_heading = out@;
            let mut i: usize = 0;
            while i < self.alternatives_considered.len()
                invariant
                    i <= self.alternatives_considered@.len(),
                    out@ == with_heading + bullet_lines(
                        self.alternatives_considered@.take(i as int),
                    ),
                decreases self.alternatives_considered@.len() - i,
            {
                assert(self.alternatives_considered@.take(i + 1).drop_last()
                    =~= self.alternatives_considered@.take(i as int));
                out.append("- ");
                out.append(self.alternatives_considered[i].as_str());
                out.append("\n");
                i = i + 1;
            }
            assert(self.alternatives_considered@.take(i as int)
                =~= self.alternatives_considered@);
        }
        assert(out@ =~= old(out)@ + decision_record_md(*self));
    }
}

impl RenderMarkdown for DesignSpecSubType {
    open spec fn markdown(&self) -> Seq<char> {
        match self {
            DesignSpecSubType::DecisionRecord(r) => decision_record_md(*r),
        }
    }

    fn render_markdown(&self, out: &mut String) {
        match self {
            DesignSpecSubType::DecisionRecord(decision_record) => decision_record.render_markdown(
                out,
            ),
        }
    }
}

impl RenderMarkdown for ApiEndpoint {
    open spec fn markdown(&self) -> Seq<char> {
        api_endpoint_md(*self)
    }

    fn render_markdown(&self, out: &mut String) {
        out.append("### `");
        out.append(self.method.as_str());
        out.append("` `");
        out.append(self.endpoint.0.as_str());
        out.append("`\n\n");
        if self.request_body_example.as_str().unicode_len() > 0 {
            out.append("**Request Body Example:**\n\n");
            out.append("```json\n");
            out.append(trim(self.request_body_example.as_str()));
            out.append("\n");
            out.append("```\n\n");
        }
        assert(out@ =~= old(out)@ + api_endpoint_md(*self));
    }
}

impl RenderMarkdown for ReferenceSubType {
    open spec fn markdown(&self) -> Seq<char> {
        match self {
            ReferenceSubType::ApiEndpoint(a) => api_endpoint_md(*a),
        }
    }

    fn render_markdown(&self, out: &mut String) {
        match self {
            ReferenceSubType::ApiEndpoint(api_endpoint) => api_endpoint.render_markdown(out),
        }
    }
}

impl RenderMarkdown for MermaidDiagram {
    open spec fn markdown(&self) -> Seq<char> {
        mermaid_md(*self)
    }

    fn render_markdown(&self, out: &mut String) {
        out.append("```mermaid\n");
        out.append(trim(self.definition.as_str()));
        out.append("\n");
        out.append("```\n\n");
        assert(out@ =~= old(out)@ + mermaid_md(*self));
    }
}

impl RenderMarkdown for ImageLink {
    open spec fn markdown(&self) -> Seq<char> {
        image_link_md(*self)
    }

    fn render_markdown(&self, out: &mut String) {
        out.append("![Asset](");
        out.append(self.path.0.as_str());
        out.append(")\n\n");
        assert(out@ =~= old(out)@ + image_link_md(*self));
    }
}

impl RenderMarkdown for SchematicSubType {
    open spec fn markdown(&self) -> Seq<char> {
        match self {
            SchematicSubType::MermaidDiagram(m) => mermaid_md(*m),
            SchematicSubType::ImageLink(i) => image_link_md(*i),
        }
    }

    fn render_markdown(&self, out: &mut String) {
        match self {
            SchematicSubType::MermaidDiagram(mermaid_diagram) => mermaid_diagram.render_markdown(
                out,
            ),
            SchematicSubType::ImageLink(image_link) => image_link.render_markdown(out),
        }
    }
}

/// The front matter of a document: its id when it has one, its kind and its
/// status, between `---` lines.
pub open spec fn front_matter(d: Document) -> Seq<char> {
    "---\n"@ + match d.id {
        Some(id) => "id: "@ + decimal(id as nat) + "\n"@,
        None => Seq::<char>::empty(),
    } + "document type: "@ + doc_type_name(d.doc_type) + "\n"@ + "status: "@ + doc_status_name(
        d.status,
    ) + "\n"@ + "---\n\n"@
}

/// Each payload's Markdown followed by a blank line, in order.
pub open spec fn body_md(payloads: Seq<ComponentPayload>) -> Seq<char>
    decreases payloads.len(),
{
    if payloads.len() == 0 {
        Seq::<char>::empty()
    } else {
        body_md(payloads.drop_last()) + component_md(payloads.last()) + "\n\n"@
    }
}

/// The Markdown of a document with the given payloads: front matter, title
/// heading and body, without trailing whitespace.
pub open spec fn document_md(d: Document, payloads: Seq<ComponentPayload>) -> Seq<char> {
    trim_end_seq(front_matter(d) + "# "@ + d.title@ + "\n\n"@ + body_md(payloads))
}

/// Law: a rendered document opens with its front matter followed by its
/// title heading, and never ends in whitespace.
pub proof fn lemma_document_md_shape(d: Document, payloads: Seq<ComponentPayload>)
    ensures
        document_md(d, payloads).len() > front_matter(d).len(),
        document_md(d, payloads).subrange(0, front_matter(d).len() as int) == front_matter(d),
        document_md(d, payloads)[front_matter(d).len() as int] == '#',
        !is_ws(document_md(d, payloads).last()),
{
    reveal_strlit("# ");
    let fm = front_matter(d);
    let rest = "# "@ + d.title@ + "\n\n"@ + body_md(payloads);
    assert(fm + "# "@ + d.title@ + "\n\n"@ + body_md(payloads) =~= fm + rest);
    assert(rest[0] == '#');
    lemma_trim_end_concat(fm, rest, 0);
    crate::text::lemma_trim_end_prefix(rest);
    assert(trim_end_seq(rest)[0] == rest[0]);
    let out = document_md(d, payloads);
    assert(out == fm + trim_end_seq(rest));
    assert(out.subrange(0, fm.len() as int) =~= fm);
    lemma_trim_end_last(fm + rest);
}

/// Law: the front matter of a rendered document names the document's own
/// id (when it has one), kind and status: the text opens with `---`, the
/// `id:` line, `document type: <kind>`, `status: <status>` and `---`, where
/// kind and status are the names of the document's own kind and status.
pub proof fn lemma_document_md_front_matter(d: Document, payloads: Seq<ComponentPayload>)
    ensures
        ({
            let id_line = match d.id {
                Some(id) => "id: "@ + decimal(id as nat) + "\n"@,
                None => Seq::<char>::empty(),
            };
            let expected = "---\n"@ + id_line + "document type: "@ + doc_type_name(d.doc_type)
                + "\n"@ + "status: "@ + doc_status_name(d.status) + "\n"@ + "---\n\n"@;
            &&& document_md(d, payloads).len() > expected.len()
            &&& document_md(d, payloads).subrange(0, expected.len() as int) == expected
        }),
{
    let id_line = match d.id {
        Some(id) => "id: "@ + decimal(id as nat) + "\n"@,
        None => Seq::<char>::empty(),
    };
    let expected = "---\n"@ + id_line + "document type: "@ + doc_type_name(d.doc_type) + "\n"@
        + "status: "@ + doc_status_name(d.status) + "\n"@ + "---\n\n"@;
    assert(expected =~= front_matter(d));
    lemma_document_md_shape(d, payloads);
}

/// Law: the Markdown of a decision record is its decision, its rationale
/// and, exactly when at least one alternative was considered, the
/// alternatives section with one bullet line per alternative.
pub proof fn lemma_decision_record_md(r: DecisionRecord)
    ensures
        ({
            let head = "### Decision\n"@ + r.decision@ + "\n\n"@ + "### Rationale\n"@ + r.rationale@
                + "\n\n"@;
            let md = component_md(ComponentPayload::DesignSpec(DesignSpecSubType::DecisionRecord(r)));
            &&& r.alternatives_considered@.len() == 0 ==> md == head
            &&& r.alternatives_considered@.len() >= 1 ==> md == head
                + "### Alternatives Considered\n"@ + bullet_lines(r.alternatives_considered@)
        }),
{
    let head = "### Decision\n"@ + r.decision@ + "\n\n"@ + "### Rationale\n"@ + r.rationale@
        + "\n\n"@;
    let md = component_md(ComponentPayload::DesignSpec(DesignSpecSubType::DecisionRecord(r)));
    if r.alternatives_considered@.len() == 0 {
        assert(md =~= head);
    } else {
        assert(md =~= head + "### Alternatives Considered\n"@ + bullet_lines(
            r.alternatives_considered@,
        ));
    }
}

/// Law: the bullet lines of a list are one line `- <alternative>` per
/// alternative, in order: one alternative gives one line, and the lines of
/// two lists joined are the lines of the first followed by those of the
/// second.
pub proof fn lemma_bullet_lines(a: String, x: Seq<String>, y: Seq<String>)
    ensures
        bullet_lines(seq![a]) == "- "@ + a@ + "\n"@,
        bullet_lines(x + y) == bullet_lines(x) + bullet_lines(y),
    decreases y.len(),
{
    assert(seq![a].drop_last() =~= Seq::<String>::empty());
    assert(bullet_lines(Seq::<String>::empty()) == Seq::<char>::empty());
    assert(bullet_lines(seq![a]) == Seq::<char>::empty() + "- "@ + a@ + "\n"@);
    assert(Seq::<char>::empty() + "- "@ + a@ + "\n"@ =~= "- "@ + a@ + "\n"@);
    if y.len() == 0 {
        assert(x + y =~= x);
        assert(bullet_lines(x) + bullet_lines(y) =~= bullet_lines(x));
    } else {
        lemma_bullet_lines(a, x, y.drop_last());
        assert((x + y).drop_last() =~= x + y.drop_last());
        assert((x + y).last() == y.last());
        assert(bullet_lines(x + y) =~= bullet_lines(x) + bullet_lines(y));
    }
}

/// Law: a Mermaid diagram renders as a mermaid block holding the whole
/// definition, trimmed only at its ends (see `lemma_trim_keeps_inner_text`).
pub proof fn lemma_mermaid_md(m: MermaidDiagram)
    ensures
        component_md(ComponentPayload::Schematic(SchematicSubType::MermaidDiagram(m)))
            == "```mermaid\n"@ + trim_seq(m.definition@) + "\n"@ + "```\n\n"@,
        component_md(ComponentPayload::Schematic(SchematicSubType::MermaidDiagram(m))).len()
            == trim_seq(m.definition@).len() + 17,
{
    reveal_strlit("```mermaid\n");
    reveal_strlit("\n");
    reveal_strlit("```\n\n");
}

/// Law: an API endpoint renders as a heading with its method and path and,
/// exactly when it has a non-empty example, a JSON block holding the whole
/// example trimmed only at its ends (see `lemma_trim_keeps_inner_text`).
pub proof fn lemma_api_endpoint_md(a: ApiEndpoint)
    ensures
        ({
            let heading = "### `"@ + http_method_name(a.method) + "` `"@ + a.endpoint.0@ + "`\n\n"@;
            let md = component_md(ComponentPayload::Reference(ReferenceSubType::ApiEndpoint(a)));
            &&& a.request_body_example@.len() == 0 ==> md == heading
            &&& a.request_body_example@.len() > 0 ==> md == heading + "**Request Body Example:**\n\n"@
                + "```json\n"@ + trim_seq(a.request_body_example@) + "\n"@ + "```\n\n"@
        }),
{
    let heading = "### `"@ + http_method_name(a.method) + "` `"@ + a.endpoint.0@ + "`\n\n"@;
    let md = component_md(ComponentPayload::Reference(ReferenceSubType::ApiEndpoint(a)));
    if a.request_body_example@.len() == 0 {
        assert(md =~= heading);
    } else {
        assert(md =~= heading + "**Request Body Example:**\n\n"@ + "```json\n"@ + trim_seq(
            a.request_body_example@,
        ) + "\n"@ + "```\n\n"@);
    }
}

/// The name of the file a document is exported to: `doc_<id>.md`, with id 0
/// for a document that was never stored.
pub open spec fn export_file_name_md(d: Document) -> Seq<char> {
    "doc_"@ + decimal(
        match d.id {
            Some(id) => id as nat,
            None => 0,
        },
    ) + ".md"@
}

/// Renders documents as Markdown files under an output directory.
pub struct MarkdownRenderService {
    output_dir: String,
}

impl MarkdownRenderService {
    /// The directory the files go to.
    pub closed spec fn spec_output_dir(&self) -> Seq<char> {
        self.output_dir@
    }

    /// A service that writes under `output_dir`.
    pub fn new(output_dir: &str) -> (s: MarkdownRenderService)
        ensures
            s.spec_output_dir() == output_dir@,
    {
        MarkdownRenderService { output_dir: String::from_str(output_dir) }
    }

    /// The directory the files go to.
    pub fn output_dir(&self) -> (r: &str)
        ensures
            r@ == self.spec_output_dir(),
    {
        self.output_dir.as_str()
    }

    /// The Markdown of one component payload.
    pub fn render_component(payload: &ComponentPayload) -> (s: String)
        ensures
            s@ == component_md(*payload),
    {
        let mut out = String::new();
        match payload {
            ComponentPayload::DesignSpec(design_spec_sub_type) => {
                design_spec_sub_type.render_markdown(&mut out)
            },
            ComponentPayload::Schematic(schematic_sub_type) => {
                schematic_sub_type.render_markdown(&mut out)
            },
            ComponentPayload::Reference(reference_sub_type) => {
                reference_sub_type.render_markdown(&mut out)
            },
        }
        assert(out@ =~= component_md(*payload));
        out
    }

    /// The full Markdown of `document` with the given payloads as its body:
    /// front matter, title heading, then each payload followed by a blank
    /// line, with trailing whitespace removed.
    pub fn render_document(&self, document: &Document, payloads: &[ComponentPayload]) -> (s: String)
        ensures
            s@ == document_md(*document, payloads@),
    {
        let mut out = String::new();
        out.append("---\n");
        match document.id {
            Some(id) => {
                out.append("id: ");
                append_decimal(&mut out, id as u64);
                out.append("\n");
            },
            None => {},
        }
        out.append("document type: ");
        out.append(document.doc_type.as_str());
        out.append("\n");
        out.append("status: ");
        out.append(document.status.as_str());
        out.append("\n");
        out.append("---\n\n");
        out.append("# ");
        out.append(document.title.as_str());
        out.append("\n\n");
        let ghost head = out@;
        assert(head =~= front_matter(*document) + "# "@ + document.title@ + "\n\n"@);
        let mut i: usize = 0;
        while i < payloads.len()
            invariant
                i <= payloads@.len(),
                out@ == head + body_md(payloads@.take(i as int)),
            decreases payloads@.len() - i,
        {
            assert(payloads@.take(i + 1).drop_last() =~= payloads@.take(i as int));
            let rendered = Self::render_component(&payloads[i]);
            out.append(rendered.as_str());
            out.append("\n\n");
            i = i + 1;
        }
        assert(payloads@.take(i as int) =~= payloads@);
        String::from_str(trim_end(out.as_str()))
    }

    /// The name of the file `document` is exported to.
    pub fn export_file_name(document: &Document) -> (s: String)
        ensures
            s@ == export_file_name_md(*document),
    {
        let doc_id = match document.id {
            Some(id) => id,
            None => 0,
        };
        let mut s = String::from_str("doc_");
        append_decimal(&mut s, doc_id as u64);
        s.append(".md");
        s
    }
}

} // verus!
