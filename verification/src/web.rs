//! The HTTP surface: request and response payloads, and how the outcome of a
//! repository call is answered.

use vstd::prelude::*;

use crate::components::{Component, Version};
use crate::documents::{DocTypes, DocStatus, Document, DocumentMetadataForUpdate};
use crate::numeric::{append_decimal, decimal};

verus! {

/// The body of a request that creates a component.
#[derive(Debug)]
pub struct CreateComponentRequest<T> {
    pub title: String,
    pub payload: T,
}

impl<T> From<CreateComponentRequest<T>> for Component<T> {
    fn from(req: CreateComponentRequest<T>) -> (c: Component<T>) {
        Component { id: None, version: Version(1), title: req.title, payload: req.payload }
    }
}

impl<T> vstd::std_specs::convert::FromSpecImpl<CreateComponentRequest<T>> for Component<T> {
    open spec fn obeys_from_spec() -> bool {
        true
    }

    /// A new component: no id yet, at the first version, with the title and
    /// payload of the request.
    open spec fn from_spec(req: CreateComponentRequest<T>) -> Component<T> {
        Component { id: None, version: Version(1), title: req.title, payload: req.payload }
    }
}

/// The body of a request that updates a component.
#[derive(Debug)]
pub struct UpdateComponentRequest<T> {
    pub title: String,
    pub payload: T,
}

impl<T> UpdateComponentRequest<T> {
    /// The incoming changes: the title and payload of the request, without
    /// id, at the first version.
    pub fn into_component(self) -> (c: Component<T>)
        ensures
            c.id is None,
            c.version.0 == 1,
            c.title == self.title,
            c.payload == self.payload,
    {
        Component { id: None, title: self.title, version: Version::default(), payload: self.payload }
    }
}

/// The answer to a successful creation.
#[derive(Debug, Clone, Copy, PartialEq, Eq, Structural)]
pub struct CreatedResponse {
    pub id: u32,
}

/// The body of a request that creates a document.
#[derive(Debug)]
pub struct CreateDocRequest {
    pub doc_type: DocTypes,
    pub title: String,
}

impl CreateDocRequest {
    /// The new draft document this request asks for.
    pub fn into_document(self) -> (d: Document)
        ensures
            d.id is None,
            d.doc_type == self.doc_type,
            d.title@ == self.title@,
            d.status == DocStatus::Draft,
            d.layout_version_ids@.len() == 0,
    {
        Document::new(self.doc_type, self.title.as_str())
    }
}

/// The body of a request that partially updates a document.
#[derive(Debug)]
pub struct UpdateDocRequest {
    pub title: Option<String>,
}

impl UpdateDocRequest {
    /// The metadata changes this request asks of document `id`.
    pub fn into_metadata(self, id: u32) -> (m: DocumentMetadataForUpdate)
        ensures
            m.id == id,
            m.title == self.title,
    {
        DocumentMetadataForUpdate { id, title: self.title }
    }
}

/// What the service answers; the body of `Ok` is sent as JSON.
#[derive(Debug)]
pub enum Reply<T> {
    /// 201, with the id of what was created.
    Created(CreatedResponse),
    /// 200, with a body.
    Success(T),
    /// 202.
    Accepted,
    /// 204.
    NoContent,
    /// 400, with a message.
    BadRequest(String),
    /// 403, with a message.
    Forbidden(String),
    /// 404, with a message.
    NotFound(String),
    /// 409, with a message.
    Conflict(String),
    /// 422, with a message.
    UnprocessableEntity(String),
    /// 500, with a message.
    InternalError(String),
}

/// The HTTP status code of a reply.
pub open spec fn reply_status<T>(r: Reply<T>) -> u16 {
    match r {
        Reply::Created(_) => 201,
        Reply::Success(_) => 200,
        Reply::Accepted => 202,
        Reply::NoContent => 204,
        Reply::BadRequest(_) => 400,
        Reply::Forbidden(_) => 403,
        Reply::NotFound(_) => 404,
        Reply::Conflict(_) => 409,
        Reply::UnprocessableEntity(_) => 422,
        Reply::InternalError(_) => 500,
    }
}

impl<T> Reply<T> {
    /// The HTTP status code of this reply.
    pub fn status_code(&self) -> (c: u16)
        ensures
            c == reply_status(*self),
    {
        match self {
            Reply::Created(_) => 201,
            Reply::Success(_) => 200,
            Reply::Accepted => 202,
            Reply::NoContent => 204,
            Reply::BadRequest(_) => 400,
            Reply::Forbidden(_) => 403,
            Reply::NotFound(_) => 404,
            Reply::Conflict(_) => 409,
            Reply::UnprocessableEntity(_) => 422,
            Reply::InternalError(_) => 500,
        }
    }
}

/// Why a repository call failed.
#[derive(Debug, Clone)]
pub enum RepositoryFailure {
    /// A rule of the domain refused the change; the message says which.
    Domain(String),
    /// The store failed.
    Internal,
}

/// The two kinds of stored resource.
#[derive(Debug, Clone, Copy, PartialEq, Eq, Structural)]
pub enum Resource {
    Component,
    Document,
}

/// The message of a failed creation.
pub open spec fn creation_failed_text(r: Resource) -> Seq<char> {
    match r {
        Resource::Component => "Failed to register component changes to the workspace history ledger."@,
        Resource::Document => "Failed to register document changes to the workspace history ledger."@,
    }
}

/// The message of a failed listing.
pub open spec fn listing_failed_text(r: Resource) -> Seq<char> {
    match r {
        Resource::Component => "Failed to read components"@,
        Resource::Document => "Failed to read documents"@,
    }
}

/// The message of a lookup that found nothing.
pub open spec fn not_found_text(r: Resource) -> Seq<char> {
    match r {
        Resource::Component => "Found no component with expected id"@,
        Resource::Document => "Found no document with expected id"@,
    }
}

/// The message of a failed lookup.
pub open spec fn lookup_failed_text(r: Resource) -> Seq<char> {
    match r {
        Resource::Component => "Failed to find component"@,
        Resource::Document => "Failed to find document"@,
    }
}

/// The message of an update that found nothing to update.
pub open spec fn update_not_found_text(r: Resource) -> Seq<char> {
    match r {
        Resource::Component => "Component not found"@,
        Resource::Document => "Found no document with expected id for update"@,
    }
}

/// The message of an update that the store failed.
pub open spec fn update_failed_text(r: Resource) -> Seq<char> {
    match r {
        Resource::Component => "Internal server error"@,
        Resource::Document => "Failed to update document"@,
    }
}

/// The message of a removal that found nothing to remove.
pub open spec fn removal_not_found_text(r: Resource, id: u32) -> Seq<char> {
    let prefix = match r {
        Resource::Component => "Component with ID "@,
        Resource::Document => "Document with ID "@,
    };
    prefix + decimal(id as nat) + " does not exist"@
}

/// Answers a creation: 201 with the new id, or 500.
pub fn created_reply<T>(resource: Resource, outcome: Result<u32, RepositoryFailure>) -> (r: Reply<T>)
    ensures
        match outcome {
            Ok(id) => r == Reply::<T>::Created(CreatedResponse { id }),
            Err(_) => r matches Reply::InternalError(m) && m@ == creation_failed_text(resource),
        },
{
    match outcome {
        Ok(id) => Reply::Created(CreatedResponse { id }),
        Err(_) => Reply::InternalError(
            String::from_str(
                match resource {
                    Resource::Component => "Failed to register component changes to the workspace history ledger.",
                    Resource::Document => "Failed to register document changes to the workspace history ledger.",
                },
            ),
        ),
    }
}

/// Answers a listing: 200 with the list, or 500.
pub fn listed_reply<T>(resource: Resource, outcome: Result<T, RepositoryFailure>) -> (r: Reply<T>)
    ensures
        match outcome {
            Ok(list) => r == Reply::<T>::Success(list),
            Err(_) => r matches Reply::InternalError(m) && m@ == listing_failed_text(resource),
        },
{
    match outcome {
        Ok(list) => Reply::Success(list),
        Err(_) => Reply::InternalError(
            String::from_str(
                match resource {
                    Resource::Component => "Failed to read components",
                    Resource::Document => "Failed to read documents",
                },
            ),
        ),
    }
}

/// Answers a lookup by id: 200 with what was found, 404 when nothing was, or
/// 500.
pub fn found_reply<T>(resource: Resource, outcome: Result<Option<T>, RepositoryFailure>) -> (r:
    Reply<T>)
    ensures
        match outcome {
            Ok(Some(v)) => r == Reply::<T>::Success(v),
            Ok(None) => r matches Reply::NotFound(m) && m@ == not_found_text(resource),
            Err(_) => r matches Reply::InternalError(m) && m@ == lookup_failed_text(resource),
        },
{
    match outcome {
        Ok(Some(v)) => Reply::Success(v),
        Ok(None) => Reply::NotFound(
            String::from_str(
                match resource {
                    Resource::Component => "Found no component with expected id",
                    Resource::Document => "Found no document with expected id",
                },
            ),
        ),
        Err(_) => Reply::InternalError(
            String::from_str(
                match resource {
                    Resource::Component => "Failed to find component",
                    Resource::Document => "Failed to find document",
                },
            ),
        ),
    }
}

/// Answers an update: 200 with the updated value, 404 when nothing was
/// stored under the id, the domain's refusal with its message (403 for a
/// component, 400 for a document), or 500.
pub fn updated_reply<T>(resource: Resource, outcome: Result<Option<T>, RepositoryFailure>) -> (r:
    Reply<T>)
    ensures
        match outcome {
            Ok(Some(v)) => r == Reply::<T>::Success(v),
            Ok(None) => r matches Reply::NotFound(m) && m@ == update_not_found_text(resource),
            Err(RepositoryFailure::Domain(msg)) => match resource {
                Resource::Component => r == Reply::<T>::Forbidden(msg),
                Resource::Document => r == Reply::<T>::BadRequest(msg),
            },
            Err(RepositoryFailure::Internal) => r matches Reply::InternalError(m) && m@
                == update_failed_text(resource),
        },
{
    match outcome {
        Ok(Some(v)) => Reply::Success(v),
        Ok(None) => Reply::NotFound(
            String::from_str(
                match resource {
                    Resource::Component => "Component not found",
                    Resource::Document => "Found no document with expected id for update",
                },
            ),
        ),
        Err(RepositoryFailure::Domain(msg)) => match resource {
            Resource::Component => Reply::Forbidden(msg),
            Resource::Document => Reply::BadRequest(msg),
        },
        Err(RepositoryFailure::Internal) => Reply::InternalError(
            String::from_str(
                match resource {
                    Resource::Component => "Internal server error",
                    Resource::Document => "Failed to update document",
                },
            ),
        ),
    }
}

/// Answers a removal of `id`: 204 when something was removed, 404 when
/// nothing was stored under the id, or 500.
pub fn removed_reply<T>(resource: Resource, id: u32, outcome: Result<bool, RepositoryFailure>) -> (r:
    Reply<T>)
    ensures
        match outcome {
            Ok(true) => r == Reply::<T>::NoContent,
            Ok(false) => r matches Reply::NotFound(m) && m@ == removal_not_found_text(resource, id),
            Err(_) => r matches Reply::InternalError(m) && m@ == "Internal server error"@,
        },
{
    match outcome {
        Ok(true) => Reply::NoContent,
        Ok(false) => {
            let mut m = String::from_str(
                match resource {
                    Resource::Component => "Component with ID ",
                    Resource::Document => "Document with ID ",
                },
            );
            append_decimal(&mut m, id as u64);
            m.append(" does not exist");
            Reply::NotFound(m)
        },
        Err(_) => Reply::InternalError(String::from_str("Internal server error")),
    }
}


/// Why the layout of a document could not be replaced.
#[derive(Debug, Clone)]
pub enum LayoutUpdateFailure {
    /// No document is stored under the id.
    DocumentNotFound(u32),
    /// Not every listed version was found.
    IncompatibleComponentCount { expected: u64, found: u64 },
    /// Two listed versions belong to the same component.
    DuplicateRootComponents,
    /// A listed component is not allowed in the document's kind.
    TypeMismatch,
    /// The document's status forbids the change; the message says why.
    Status(String),
    /// The store failed.
    Internal,
}

/// The message of a document that is not there.
pub open spec fn document_not_found_text(id: u32) -> Seq<char> {
    "Document "@ + decimal(id as nat) + " not found"@
}

fn document_not_found_message(id: u32) -> (m: String)
    ensures
        m@ == document_not_found_text(id),
{
    let mut m = String::from_str("Document ");
    append_decimal(&mut m, id as u64);
    m.append(" not found");
    m
}

/// Answers a replacement of a document's layout: 204 when done, 404 when the
/// document is not there, 400 when not every version was found, 409 when two
/// versions belong to the same component, 403 when a component is not
/// allowed in the document, 422 when the document's status forbids it, or
/// 500.
pub fn layouts_updated_reply<T>(outcome: Result<(), LayoutUpdateFailure>) -> (r: Reply<T>)
    ensures
        match outcome {
            Ok(()) => r == Reply::<T>::NoContent,
            Err(LayoutUpdateFailure::DocumentNotFound(id)) => r matches Reply::NotFound(m) && m@
                == document_not_found_text(id),
            Err(LayoutUpdateFailure::IncompatibleComponentCount { expected, found }) => r matches Reply::BadRequest(m) && m@ == "Component count mismatch: expected "@ + decimal(expected as nat) + ", found "@ + decimal(found as nat),
            Err(LayoutUpdateFailure::DuplicateRootComponents) => r matches Reply::Conflict(m) && m@
                == "Cannot add multiple versions of the same root component"@,
            Err(LayoutUpdateFailure::TypeMismatch) => r matches Reply::Forbidden(m) && m@
                == "One or more components are not allowed in this document type"@,
            Err(LayoutUpdateFailure::Status(msg)) => r == Reply::<T>::UnprocessableEntity(msg),
            Err(LayoutUpdateFailure::Internal) => r matches Reply::InternalError(m) && m@
                == "Internal server error"@,
        },
{
    match outcome {
        Ok(()) => Reply::NoContent,
        Err(LayoutUpdateFailure::DocumentNotFound(id)) => Reply::NotFound(document_not_found_message(id)),
        Err(LayoutUpdateFailure::IncompatibleComponentCount { expected, found }) => {
            let mut m = String::from_str("Component count mismatch: expected ");
            append_decimal(&mut m, expected);
            m.append(", found ");
            append_decimal(&mut m, found);
            Reply::BadRequest(m)
        },
        Err(LayoutUpdateFailure::DuplicateRootComponents) => Reply::Conflict(
            String::from_str("Cannot add multiple versions of the same root component"),
        ),
        Err(LayoutUpdateFailure::TypeMismatch) => Reply::Forbidden(
            String::from_str("One or more components are not allowed in this document type"),
        ),
        Err(LayoutUpdateFailure::Status(msg)) => Reply::UnprocessableEntity(msg),
        Err(LayoutUpdateFailure::Internal) => Reply::InternalError(
            String::from_str("Internal server error"),
        ),
    }
}

/// Why a document could not be published.
#[derive(Debug, Clone)]
pub enum PublishFailure {
    /// No document is stored under the id.
    NotFound(u32),
    /// A rule of the domain refused publication; the message says which.
    Domain(String),
    /// The store or the export failed.
    Internal,
}

/// Answers a publication: 202 when it was accepted, 404 when the document is
/// not there, 422 with the domain's message when publication is refused, or
/// 500.
pub fn published_reply<T>(outcome: Result<(), PublishFailure>) -> (r: Reply<T>)
    ensures
        match outcome {
            Ok(()) => r == Reply::<T>::Accepted,
            Err(PublishFailure::NotFound(id)) => r matches Reply::NotFound(m) && m@
                == document_not_found_text(id),
            Err(PublishFailure::Domain(msg)) => r == Reply::<T>::UnprocessableEntity(msg),
            Err(PublishFailure::Internal) => r matches Reply::InternalError(m) && m@
                == "Internal server error"@,
        },
{
    match outcome {
        Ok(()) => Reply::Accepted,
        Err(PublishFailure::NotFound(id)) => Reply::NotFound(document_not_found_message(id)),
        Err(PublishFailure::Domain(msg)) => Reply::UnprocessableEntity(msg),
        Err(PublishFailure::Internal) => Reply::InternalError(
            String::from_str("Internal server error"),
        ),
    }
}

} // verus!
