//! Components: the versioned building blocks of documents (design decision
//! records, schematics and API references), and how stored rows become
//! components.

use vstd::prelude::*;

verus! {

/// The version number of a component; the first version is 1.
#[derive(Debug, Clone, Copy, PartialEq, Eq, Structural)]
pub struct Version(pub u32);

impl Default for Version {
    fn default() -> (v: Version)
        ensures
            v.0 == 1,
    {
        Version(1)
    }
}

impl Version {
    /// The version that follows this one.
    pub fn next(&self) -> (v: Version)
        requires
            self.0 < u32::MAX,
        ensures
            v.0 == self.0 + 1,
    {
        Version(self.0 + 1)
    }
}

/// The path of an API endpoint.
#[derive(Debug, Clone)]
pub struct ApiPath(pub String);

/// The path of an asset such as an image.
#[derive(Debug, Clone)]
pub struct AssetPath(pub String);

/// An HTTP request method.
#[derive(Debug, Clone, Copy, PartialEq, Eq, Structural)]
pub enum HttpMethod {
    Get,
    Post,
    Put,
    Patch,
    Delete,
}

/// The name of a method as it is written in requests.
pub open spec fn http_method_name(m: HttpMethod) -> Seq<char> {
    match m {
        HttpMethod::Get => "GET"@,
        HttpMethod::Post => "POST"@,
        HttpMethod::Put => "PUT"@,
        HttpMethod::Patch => "PATCH"@,
        HttpMethod::Delete => "DELETE"@,
    }
}

impl HttpMethod {
    /// The name of this method as it is written in requests.
    pub fn as_str(&self) -> (r: &'static str)
        ensures
            r@ == http_method_name(*self),
    {
        match self {
            HttpMethod::Get => "GET",
            HttpMethod::Post => "POST",
            HttpMethod::Put => "PUT",
            HttpMethod::Patch => "PATCH",
            HttpMethod::Delete => "DELETE",
        }
    }
}

/// A recorded design decision with its rationale and the alternatives that
/// were weighed.
#[derive(Debug, Clone)]
pub struct DecisionRecord {
    pub decision: String,
    pub rationale: String,
    pub alternatives_considered: Vec<String>,
}

/// The kinds of design specification.
#[derive(Debug, Clone)]
pub enum DesignSpecSubType {
    DecisionRecord(DecisionRecord),
}

/// A diagram written in the Mermaid language.
#[derive(Debug, Clone)]
pub struct MermaidDiagram {
    pub definition: String,
}

/// A link to an image asset.
#[derive(Debug, Clone)]
pub struct ImageLink {
    pub path: AssetPath,
}

/// The kinds of schematic.
#[derive(Debug, Clone)]
pub enum SchematicSubType {
    MermaidDiagram(MermaidDiagram),
    ImageLink(ImageLink),
}

/// An API endpoint with an example request body.
#[derive(Debug, Clone)]
pub struct ApiEndpoint {
    pub endpoint: ApiPath,
    pub method: HttpMethod,
    pub request_body_example: String,
}

/// The kinds of reference.
#[derive(Debug, Clone)]
pub enum ReferenceSubType {
    ApiEndpoint(ApiEndpoint),
}

/// What a component holds.
#[derive(Debug, Clone)]
pub enum ComponentPayload {
    DesignSpec(DesignSpecSubType),
    Schematic(SchematicSubType),
    Reference(ReferenceSubType),
}

/// The identifier of the kind of a payload, under which it is stored.
pub open spec fn payload_identifier(p: ComponentPayload) -> Seq<char> {
    match p {
        ComponentPayload::DesignSpec(DesignSpecSubType::DecisionRecord(_)) => "design_spec/decision_record"@,
        ComponentPayload::Schematic(SchematicSubType::MermaidDiagram(_)) => "schematic/mermaid_diagram"@,
        ComponentPayload::Schematic(SchematicSubType::ImageLink(_)) => "schematic/image_link"@,
        ComponentPayload::Reference(ReferenceSubType::ApiEndpoint(_)) => "reference/api_endpoint"@,
    }
}

/// Whether two payloads are of the same kind.
pub open spec fn same_kind(a: ComponentPayload, b: ComponentPayload) -> bool {
    match (a, b) {
        (ComponentPayload::DesignSpec(_), ComponentPayload::DesignSpec(_)) => true,
        (
            ComponentPayload::Schematic(SchematicSubType::MermaidDiagram(_)),
            ComponentPayload::Schematic(SchematicSubType::MermaidDiagram(_)),
        ) => true,
        (
            ComponentPayload::Schematic(SchematicSubType::ImageLink(_)),
            ComponentPayload::Schematic(SchematicSubType::ImageLink(_)),
        ) => true,
        (ComponentPayload::Reference(_), ComponentPayload::Reference(_)) => true,
        _ => false,
    }
}

impl ComponentPayload {
    /// The identifier of the kind of this payload.
    pub fn get_identifier(&self) -> (r: String)
        ensures
            r@ == payload_identifier(*self),
    {
        let s = match self {
            ComponentPayload::DesignSpec(DesignSpecSubType::DecisionRecord(_)) => "design_spec/decision_record",
            ComponentPayload::Schematic(SchematicSubType::MermaidDiagram(_)) => "schematic/mermaid_diagram",
            ComponentPayload::Schematic(SchematicSubType::ImageLink(_)) => "schematic/image_link",
            ComponentPayload::Reference(ReferenceSubType::ApiEndpoint(_)) => "reference/api_endpoint",
        };
        String::from_str(s)
    }

    /// Whether `self` and `other` are of the same kind.
    pub fn is_same_kind(&self, other: &ComponentPayload) -> (r: bool)
        ensures
            r == same_kind(*self, *other),
    {
        match (self, other) {
            (ComponentPayload::DesignSpec(_), ComponentPayload::DesignSpec(_)) => true,
            (
                ComponentPayload::Schematic(SchematicSubType::MermaidDiagram(_)),
                ComponentPayload::Schematic(SchematicSubType::MermaidDiagram(_)),
            ) => true,
            (
                ComponentPayload::Schematic(SchematicSubType::ImageLink(_)),
                ComponentPayload::Schematic(SchematicSubType::ImageLink(_)),
            ) => true,
            (ComponentPayload::Reference(_), ComponentPayload::Reference(_)) => true,
            _ => false,
        }
    }
}

/// Payloads have the same identifier exactly when they are of the same kind.
pub proof fn lemma_identifier_names_kind(a: ComponentPayload, b: ComponentPayload)
    ensures
        same_kind(a, b) <==> payload_identifier(a) == payload_identifier(b),
{
    reveal_strlit("design_spec/decision_record");
    reveal_strlit("schematic/mermaid_diagram");
    reveal_strlit("schematic/image_link");
    reveal_strlit("reference/api_endpoint");
    if !same_kind(a, b) {
        let ia = payload_identifier(a);
        let ib = payload_identifier(b);
        assert(ia.len() != ib.len() || ia[0] != ib[0] || ia[12] != ib[12]);
    }
}

/// Law: the kind of a payload is its variant alone, whatever the payload
/// holds: two payloads of the same variant are of the same kind and share
/// one identifier, so an update that keeps the variant and changes the
/// content is never a change of kind.
pub proof fn lemma_kind_is_variant(a: ComponentPayload, b: ComponentPayload)
    ensures
        (a is DesignSpec && b is DesignSpec) ==> same_kind(a, b) && payload_identifier(a)
            == "design_spec/decision_record"@ && payload_identifier(b)
            == "design_spec/decision_record"@,
        (a matches ComponentPayload::Schematic(SchematicSubType::MermaidDiagram(_))
            && b matches ComponentPayload::Schematic(SchematicSubType::MermaidDiagram(_)))
            ==> same_kind(a, b) && payload_identifier(a) == "schematic/mermaid_diagram"@
            && payload_identifier(b) == "schematic/mermaid_diagram"@,
        (a matches ComponentPayload::Schematic(SchematicSubType::ImageLink(_))
            && b matches ComponentPayload::Schematic(SchematicSubType::ImageLink(_)))
            ==> same_kind(a, b) && payload_identifier(a) == "schematic/image_link"@
            && payload_identifier(b) == "schematic/image_link"@,
        (a is Reference && b is Reference) ==> same_kind(a, b) && payload_identifier(a)
            == "reference/api_endpoint"@ && payload_identifier(b) == "reference/api_endpoint"@,
{
}

/// A component: a titled payload at a version, with its id once stored.
#[derive(Debug, Clone)]
pub struct Component<T> {
    pub id: Option<u32>,
    pub version: Version,
    pub title: String,
    pub payload: T,
}

/// Why a component cannot take the changes of an update.
#[derive(Debug, Clone, Copy, PartialEq, Eq, Structural)]
pub enum ComponentChangeError {
    /// The update would change the kind of the component.
    KindChanged,
}

impl ComponentChangeError {
    /// The message that explains the refusal.
    pub fn message(&self) -> (m: String)
        ensures
            m@ == "The kind of a component cannot change once it is created"@,
    {
        String::from_str("The kind of a component cannot change once it is created")
    }
}

impl Component<ComponentPayload> {
    /// This component after `incoming` changes it: the title and payload of
    /// `incoming` at the next version, under this component's id. The kind
    /// of a component is fixed when it is created.
    pub fn apply_changes(self, incoming: Component<ComponentPayload>) -> (r: Result<
        Component<ComponentPayload>,
        ComponentChangeError,
    >)
        requires
            self.version.0 < u32::MAX,
        ensures
            !same_kind(self.payload, incoming.payload) ==> r == Err::<
                Component<ComponentPayload>,
                ComponentChangeError,
            >(ComponentChangeError::KindChanged),
            same_kind(self.payload, incoming.payload) ==> (r matches Ok(c) && c.id == self.id
                && c.version.0 == self.version.0 + 1 && c.title == incoming.title && c.payload
                == incoming.payload),
    {
        if !self.payload.is_same_kind(&incoming.payload) {
            return Err(ComponentChangeError::KindChanged);
        }
        Ok(Component {
            id: self.id,
            version: self.version.next(),
            title: incoming.title,
            payload: incoming.payload,
        })
    }
}

/// A component as it is stored: its latest version with the payload as JSON
/// text.
#[derive(Debug, Clone)]
pub struct ComponentRow {
    pub id: u32,
    pub version: u32,
    pub title: String,
    pub payload: String,
}

impl ComponentRow {
    /// The component this row stores, given the payload its JSON text reads
    /// as.
    pub fn into_component(self, payload: ComponentPayload) -> (c: Component<ComponentPayload>)
        ensures
            c.id == Some(self.id),
            c.version.0 == self.version,
            c.title == self.title,
            c.payload == payload,
    {
        Component { id: Some(self.id), version: Version(self.version), title: self.title, payload }
    }
}

/// A stored version of a component together with its payload.
#[derive(Debug, Clone)]
pub struct ComponentPayloadRef {
    pub component_id: u32,
    pub version_id: u32,
    pub payload: ComponentPayload,
}

/// A stored version of a component with its payload as JSON text.
#[derive(Debug, Clone)]
pub struct ComponentPayloadRefRow {
    pub component_id: u32,
    pub version_id: u32,
    pub payload_str: String,
}

impl ComponentPayloadRefRow {
    /// The version this row stores, given the payload its JSON text reads as.
    pub fn into_payload_ref(self, payload: ComponentPayload) -> (r: ComponentPayloadRef)
        ensures
            r.component_id == self.component_id,
            r.version_id == self.version_id,
            r.payload == payload,
    {
        ComponentPayloadRef {
            component_id: self.component_id,
            version_id: self.version_id,
            payload,
        }
    }
}

/// A stored version of a component together with the identifier of its kind.
#[derive(Debug, Clone)]
pub struct ComponentRef {
    pub id: u32,
    pub version_id: u32,
    pub component_type: String,
}

} // verus!
