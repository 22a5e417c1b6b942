//! The parts of an OpenAPI document, as `utoipa` builds and holds them.
//!
//! Each part has a model that says what it holds. In a model, `bare` says whether every
//! part that has no field of its own there is at the default that its builder starts from.
use crate::json::{json, Json};
use serde_json::Value;
use utoipa::openapi::content::{Content, ContentBuilder};
use utoipa::openapi::path::{
    HttpMethod, Operation, OperationBuilder, PathItem, PathItemBuilder, Paths, PathsBuilder,
};
use utoipa::openapi::request_body::{RequestBody, RequestBodyBuilder};
use utoipa::openapi::response::{Response, ResponseBuilder};
use utoipa::openapi::schema::{Object, ObjectBuilder, Ref, Schema, Type};
use utoipa::openapi::tag::{Tag, TagBuilder};
use utoipa::openapi::{OpenApi, RefOr, Required};
use vstd::prelude::*;

verus! {

/// The type of value that a schema describes.
#[derive(Debug, Clone, Copy, PartialEq, Eq, Structural)]
pub enum SchemaKind {
    Object,
    Number,
    Integer,
    Boolean,
    Text,
}

/// An HTTP method that the interface answers.
#[derive(Debug, Clone, Copy, PartialEq, Eq, Structural)]
pub enum Method {
    Get,
    Post,
}

/// An object schema: its type, the schema of each property, and which of them are
/// required.
pub struct ObjectModel {
    pub kind: SchemaKind,
    pub properties: Map<Seq<char>, SchemaModel>,
    pub required: Seq<Seq<char>>,
    pub bare: bool,
}

/// A reference by its location.
pub struct RefModel {
    pub location: Seq<char>,
    pub bare: bool,
}

/// A schema: a reference, or an object schema in place.
pub enum SchemaModel {
    Reference { location: Seq<char>, bare: bool },
    Inline {
        kind: SchemaKind,
        properties: Map<Seq<char>, SchemaModel>,
        required: Seq<Seq<char>>,
        bare: bool,
    },
}

/// The schema and the example of one media type.
pub struct ContentModel {
    pub schema: Option<SchemaModel>,
    pub example: Option<Json>,
    pub bare: bool,
}

/// A response: its description and its content by media type.
pub struct ResponseModel {
    pub description: Seq<char>,
    pub content: Map<Seq<char>, ContentModel>,
    pub bare: bool,
}

/// A request body: its content by media type and whether it must be sent.
pub struct RequestBodyModel {
    pub content: Map<Seq<char>, ContentModel>,
    pub required: Option<bool>,
    pub bare: bool,
}

/// An operation on a path.
pub struct OperationModel {
    pub tags: Option<Seq<Seq<char>>>,
    pub summary: Option<Seq<char>>,
    pub description: Option<Seq<char>>,
    /// The names of the parameters.
    pub parameters: Option<Seq<Seq<char>>>,
    pub request_body: Option<RequestBodyModel>,
    pub responses: Map<Seq<char>, ResponseModel>,
    pub bare: bool,
}

/// The operations of one path.
pub struct PathItemModel {
    pub get: Option<OperationModel>,
    pub put: Option<OperationModel>,
    pub post: Option<OperationModel>,
    pub delete: Option<OperationModel>,
    pub options: Option<OperationModel>,
    pub head: Option<OperationModel>,
    pub patch: Option<OperationModel>,
    pub trace: Option<OperationModel>,
    pub bare: bool,
}

/// The paths with the item of each.
pub struct PathsModel {
    pub items: Map<Seq<char>, PathItemModel>,
    pub bare: bool,
}

/// A tag with what it documents.
pub struct TagModel {
    pub name: Seq<char>,
    pub description: Option<Seq<char>>,
    pub bare: bool,
}

/// A whole document.
pub struct DocumentModel {
    pub title: Seq<char>,
    pub description: Option<Seq<char>>,
    pub version: Seq<char>,
    /// The reusable schemas by name, each as the JSON that it is written as.
    pub schemas: Map<Seq<char>, Json>,
    /// What else the document holds, as the JSON that it is written as.
    pub rest: Map<Seq<char>, Json>,
    pub tags: Option<Seq<TagModel>>,
    pub paths: PathsModel,
}

/// What each tag of an optional list holds, in order.
pub open spec fn tag_models(tags: Option<Vec<Tag>>) -> Option<Seq<TagModel>> {
    match tags {
        Some(list) => Some(list@.map_values(|listed: Tag| tag_of(listed))),
        None => None,
    }
}

/// Where a document keeps the reusable schema of that name.
pub open spec fn schema_location(name: Seq<char>) -> Seq<char> {
    "#/components/schemas/"@ + name
}

/// A path without operations.
pub open spec fn empty_item() -> PathItemModel {
    PathItemModel {
        get: None,
        put: None,
        post: None,
        delete: None,
        options: None,
        head: None,
        patch: None,
        trace: None,
        bare: true,
    }
}

/// The first operation where there is one, else the second.
pub open spec fn first_of(
    first: Option<OperationModel>,
    second: Option<OperationModel>,
) -> Option<OperationModel> {
    if first is Some {
        first
    } else {
        second
    }
}

/// The operations of `existing`, and from `item` those that `existing` lacks.
pub open spec fn merge_items(existing: PathItemModel, item: PathItemModel) -> PathItemModel {
    PathItemModel {
        get: first_of(existing.get, item.get),
        put: first_of(existing.put, item.put),
        post: first_of(existing.post, item.post),
        delete: first_of(existing.delete, item.delete),
        options: first_of(existing.options, item.options),
        head: first_of(existing.head, item.head),
        patch: first_of(existing.patch, item.patch),
        trace: first_of(existing.trace, item.trace),
        bare: existing.bare,
    }
}

/// The paths with `item` added at `path`.
pub open spec fn add_path(
    known: Map<Seq<char>, PathItemModel>,
    path: Seq<char>,
    item: PathItemModel,
) -> Map<Seq<char>, PathItemModel> {
    if known.contains_key(path) {
        known.insert(path, merge_items(known[path], item))
    } else {
        known.insert(path, item)
    }
}

/// The builder of an operation.
#[verifier::external_type_specification]
#[verifier::external_body]
pub struct ExOperationBuilder(utoipa::openapi::path::OperationBuilder);

/// An operation.
#[verifier::external_type_specification]
#[verifier::external_body]
pub struct ExOperation(utoipa::openapi::path::Operation);

/// The builder of a response.
#[verifier::external_type_specification]
#[verifier::external_body]
pub struct ExResponseBuilder(utoipa::openapi::response::ResponseBuilder);

/// A response.
#[verifier::external_type_specification]
#[verifier::external_body]
pub struct ExResponse(utoipa::openapi::response::Response);

/// The builder of the content of one media type.
#[verifier::external_type_specification]
#[verifier::external_body]
pub struct ExContentBuilder(utoipa::openapi::content::ContentBuilder);

/// The content of one media type.
#[verifier::external_type_specification]
#[verifier::external_body]
pub struct ExContent(utoipa::openapi::content::Content);

/// The builder of a request body.
#[verifier::external_type_specification]
#[verifier::external_body]
pub struct ExRequestBodyBuilder(utoipa::openapi::request_body::RequestBodyBuilder);

/// A request body.
#[verifier::external_type_specification]
#[verifier::external_body]
pub struct ExRequestBody(utoipa::openapi::request_body::RequestBody);

/// The builder of a path item.
#[verifier::external_type_specification]
#[verifier::external_body]
pub struct ExPathItemBuilder(utoipa::openapi::path::PathItemBuilder);

/// A path item.
#[verifier::external_type_specification]
#[verifier::external_body]
pub struct ExPathItem(utoipa::openapi::path::PathItem);

/// The builder of the map of paths.
#[verifier::external_type_specification]
#[verifier::external_body]
pub struct ExPathsBuilder(utoipa::openapi::path::PathsBuilder);

/// The map of paths.
#[verifier::external_type_specification]
#[verifier::external_body]
pub struct ExPaths(utoipa::openapi::path::Paths);

/// The builder of an object schema.
#[verifier::external_type_specification]
#[verifier::external_body]
pub struct ExObjectBuilder(utoipa::openapi::schema::ObjectBuilder);

/// An object schema.
#[verifier::external_type_specification]
#[verifier::external_body]
pub struct ExObject(utoipa::openapi::schema::Object);

/// A schema in place.
#[verifier::external_type_specification]
#[verifier::external_body]
pub struct ExSchema(utoipa::openapi::schema::Schema);

/// A reference to a reusable part.
#[verifier::external_type_specification]
#[verifier::external_body]
pub struct ExRef(utoipa::openapi::schema::Ref);

/// The builder of a tag.
#[verifier::external_type_specification]
#[verifier::external_body]
pub struct ExTagBuilder(utoipa::openapi::tag::TagBuilder);

/// A tag.
#[verifier::external_type_specification]
#[verifier::external_body]
pub struct ExTag(utoipa::openapi::tag::Tag);

/// A document.
#[verifier::external_type_specification]
#[verifier::external_body]
pub struct ExOpenApi(utoipa::openapi::OpenApi);

/// A reference, or the thing itself.
#[verifier::external_type_specification]
#[verifier::external_body]
#[verifier::reject_recursive_types(T)]
pub struct ExRefOr<T>(utoipa::openapi::RefOr<T>);

/// What an operation builder holds.
pub uninterp spec fn operation_builder(builder: OperationBuilder) -> OperationModel;

/// What an operation holds.
pub uninterp spec fn operation_of(built: Operation) -> OperationModel;

/// What a response builder holds.
pub uninterp spec fn response_builder(builder: ResponseBuilder) -> ResponseModel;

/// What a response holds.
pub uninterp spec fn response_of(built: Response) -> ResponseModel;

/// What a content builder holds.
pub uninterp spec fn content_builder(builder: ContentBuilder) -> ContentModel;

/// What a content holds.
pub uninterp spec fn content_of(built: Content) -> ContentModel;

/// What a request body builder holds.
pub uninterp spec fn request_body_builder(builder: RequestBodyBuilder) -> RequestBodyModel;

/// What a request body holds.
pub uninterp spec fn request_body_of(built: RequestBody) -> RequestBodyModel;

/// What a path item builder holds.
pub uninterp spec fn path_item_builder(builder: PathItemBuilder) -> PathItemModel;

/// What a path item holds.
pub uninterp spec fn path_item_of(built: PathItem) -> PathItemModel;

/// What a paths builder holds.
pub uninterp spec fn paths_builder(builder: PathsBuilder) -> PathsModel;

/// What a map of paths holds.
pub uninterp spec fn paths_of(built: Paths) -> PathsModel;

/// What an object schema builder holds.
pub uninterp spec fn object_builder(builder: ObjectBuilder) -> ObjectModel;

/// What an object schema holds.
pub uninterp spec fn object_of(built: Object) -> ObjectModel;

/// What a schema holds.
pub uninterp spec fn schema_of(built: RefOr<Schema>) -> SchemaModel;

/// What a reference holds.
pub uninterp spec fn ref_of(reference: Ref) -> RefModel;

/// What a tag builder holds.
pub uninterp spec fn tag_builder(builder: TagBuilder) -> TagModel;

/// What a tag holds.
pub uninterp spec fn tag_of(built: Tag) -> TagModel;

/// What a document holds.
pub uninterp spec fn document_of(doc: OpenApi) -> DocumentModel;

/// `ObjectBuilder::new`: type `object`, without properties, nothing required.
pub assume_specification[ ObjectBuilder::new ]() -> (builder: ObjectBuilder)
    ensures
        object_builder(builder) == (ObjectModel {
            kind: SchemaKind::Object,
            properties: Map::empty(),
            required: Seq::empty(),
            bare: true,
        }),
;

/// `ObjectBuilder::schema_type`: the type is set, the rest stays.
#[verifier::external_body]
pub(crate) fn with_type(builder: ObjectBuilder, kind: SchemaKind) -> (changed: ObjectBuilder)
    ensures
        object_builder(changed) == (ObjectModel { kind, ..object_builder(builder) }),
{
    builder.schema_type(match kind {
        SchemaKind::Object => Type::Object,
        SchemaKind::Number => Type::Number,
        SchemaKind::Integer => Type::Integer,
        SchemaKind::Boolean => Type::Boolean,
        SchemaKind::Text => Type::String,
    })
}

/// `ObjectBuilder::property`: the property has this schema, whatever it had before;
/// the rest stays.
#[verifier::external_body]
pub(crate) fn with_property(
    builder: ObjectBuilder,
    name: &str,
    component: RefOr<Schema>,
) -> (changed: ObjectBuilder)
    ensures
        object_builder(changed) == (ObjectModel {
            properties: object_builder(builder).properties.insert(name@, schema_of(component)),
            ..object_builder(builder)
        }),
{
    builder.property(name, component)
}

/// `ObjectBuilder::build`: what was built holds what the builder held.
pub assume_specification[ ObjectBuilder::build ](builder: ObjectBuilder) -> (built: Object)
    ensures
        object_of(built) == object_builder(builder),
;

/// `Schema::Object` in `RefOr::T`: the object schema in place.
#[verifier::external_body]
pub(crate) fn inline_schema(built: Object) -> (component: RefOr<Schema>)
    ensures
        schema_of(component) == (SchemaModel::Inline {
            kind: object_of(built).kind,
            properties: object_of(built).properties,
            required: object_of(built).required,
            bare: object_of(built).bare,
        }),
{
    RefOr::T(Schema::Object(built))
}

/// `Ref::from_schema_name`: a reference to the reusable schema of that name.
#[verifier::external_body]
pub(crate) fn ref_to_schema(name: &str) -> (reference: Ref)
    ensures
        ref_of(reference) == (RefModel { location: schema_location(name@), bare: true }),
{
    Ref::from_schema_name(name)
}

/// `RefOr::Ref`: the schema that the reference points to.
#[verifier::external_body]
pub(crate) fn referenced_schema(reference: Ref) -> (component: RefOr<Schema>)
    ensures
        schema_of(component) == (SchemaModel::Reference {
            location: ref_of(reference).location,
            bare: ref_of(reference).bare,
        }),
{
    RefOr::Ref(reference)
}

/// `ContentBuilder::new`: neither schema nor example.
pub assume_specification[ ContentBuilder::new ]() -> (builder: ContentBuilder)
    ensures
        content_builder(builder) == (ContentModel { schema: None, example: None, bare: true }),
;

/// `ContentBuilder::schema`: the schema is set, the rest stays.
#[verifier::external_body]
pub(crate) fn with_schema(
    builder: ContentBuilder,
    component: RefOr<Schema>,
) -> (changed: ContentBuilder)
    ensures
        content_builder(changed) == (ContentModel {
            schema: Some(schema_of(component)),
            ..content_builder(builder)
        }),
{
    builder.schema(Some(component))
}

/// `ContentBuilder::example`: the example is set, the rest stays.
#[verifier::external_body]
pub(crate) fn with_example(builder: ContentBuilder, example: Value) -> (changed: ContentBuilder)
    ensures
        content_builder(changed) == (ContentModel {
            example: Some(json(example)),
            ..content_builder(builder)
        }),
{
    builder.example(Some(example))
}

/// `ContentBuilder::build`: what was built holds what the builder held.
pub assume_specification[ ContentBuilder::build ](builder: ContentBuilder) -> (built: Content)
    ensures
        content_of(built) == content_builder(builder),
;

/// `ResponseBuilder::new`: an empty description and no content.
pub assume_specification[ ResponseBuilder::new ]() -> (builder: ResponseBuilder)
    ensures
        response_builder(builder) == (ResponseModel {
            description: Seq::empty(),
            content: Map::empty(),
            bare: true,
        }),
;

/// `ResponseBuilder::description`: the description is set, the rest stays.
#[verifier::external_body]
pub(crate) fn with_response_description(
    builder: ResponseBuilder,
    description: &str,
) -> (changed: ResponseBuilder)
    ensures
        response_builder(changed) == (ResponseModel {
            description: description@,
            ..response_builder(builder)
        }),
{
    builder.description(description)
}

/// `ResponseBuilder::content`: the media type has this content, whatever it had before;
/// the rest stays.
#[verifier::external_body]
pub(crate) fn with_response_content(
    builder: ResponseBuilder,
    media_type: &str,
    body: Content,
) -> (changed: ResponseBuilder)
    ensures
        response_builder(changed) == (ResponseModel {
            content: response_builder(builder).content.insert(media_type@, content_of(body)),
            ..response_builder(builder)
        }),
{
    builder.content(media_type, body)
}

/// `ResponseBuilder::build`: what was built holds what the builder held.
pub assume_specification[ ResponseBuilder::build ](builder: ResponseBuilder) -> (built: Response)
    ensures
        response_of(built) == response_builder(builder),
;

/// `RequestBodyBuilder::new`: no content, and nothing said of whether it must be sent.
pub assume_specification[ RequestBodyBuilder::new ]() -> (builder: RequestBodyBuilder)
    ensures
        request_body_builder(builder) == (RequestBodyModel {
            content: Map::empty(),
            required: None,
            bare: true,
        }),
;

/// `RequestBodyBuilder::content`: the media type has this content, whatever it had
/// before; the rest stays.
#[verifier::external_body]
pub(crate) fn with_body_content(
    builder: RequestBodyBuilder,
    media_type: &str,
    body: Content,
) -> (changed: RequestBodyBuilder)
    ensures
        request_body_builder(changed) == (RequestBodyModel {
            content: request_body_builder(builder).content.insert(media_type@, content_of(body)),
            ..request_body_builder(builder)
        }),
{
    builder.content(media_type, body)
}

/// `RequestBodyBuilder::required`: whether it must be sent is set, the rest stays.
#[verifier::external_body]
pub(crate) fn with_required(
    builder: RequestBodyBuilder,
    required: bool,
) -> (changed: RequestBodyBuilder)
    ensures
        request_body_builder(changed) == (RequestBodyModel {
            required: Some(required),
            ..request_body_builder(builder)
        }),
{
    builder.required(Some(match required {
        true => Required::True,
        false => Required::False,
    }))
}

/// `RequestBodyBuilder::build`: what was built holds what the builder held.
pub assume_specification[ RequestBodyBuilder::build ](
    builder: RequestBodyBuilder,
) -> (built: RequestBody)
    ensures
        request_body_of(built) == request_body_builder(builder),
;

/// `OperationBuilder::new`: nothing is set.
pub assume_specification[ OperationBuilder::new ]() -> (builder: OperationBuilder)
    ensures
        operation_builder(builder) == (OperationModel {
            tags: None,
            summary: None,
            description: None,
            parameters: None,
            request_body: None,
            responses: Map::empty(),
            bare: true,
        }),
;

/// `OperationBuilder::tag`: the tag comes behind those that are there; the rest stays.
#[verifier::external_body]
pub(crate) fn with_tag(builder: OperationBuilder, name: &str) -> (changed: OperationBuilder)
    ensures
        operation_builder(changed) == (OperationModel {
            tags: Some(
                match operation_builder(builder).tags {
                    Some(tags) => tags.push(name@),
                    None => seq![name@],
                },
            ),
            ..operation_builder(builder)
        }),
{
    builder.tag(name)
}

/// `OperationBuilder::summary`: the summary is set, the rest stays.
#[verifier::external_body]
pub(crate) fn with_summary(builder: OperationBuilder, summary: &str) -> (changed: OperationBuilder)
    ensures
        operation_builder(changed) == (OperationModel {
            summary: Some(summary@),
            ..operation_builder(builder)
        }),
{
    builder.summary(Some(summary))
}

/// `OperationBuilder::description`: the description is set, the rest stays.
#[verifier::external_body]
pub(crate) fn with_description(
    builder: OperationBuilder,
    description: &str,
) -> (changed: OperationBuilder)
    ensures
        operation_builder(changed) == (OperationModel {
            description: Some(description@),
            ..operation_builder(builder)
        }),
{
    builder.description(Some(description))
}

/// `OperationBuilder::request_body`: the request body is set, the rest stays.
#[verifier::external_body]
pub(crate) fn with_request_body(
    builder: OperationBuilder,
    body: RequestBody,
) -> (changed: OperationBuilder)
    ensures
        operation_builder(changed) == (OperationModel {
            request_body: Some(request_body_of(body)),
            ..operation_builder(builder)
        }),
{
    builder.request_body(Some(body))
}

/// `OperationBuilder::response`: the status code has this response, whatever it had
/// before; the rest stays.
#[verifier::external_body]
pub(crate) fn with_response(
    builder: OperationBuilder,
    code: &str,
    reply: Response,
) -> (changed: OperationBuilder)
    ensures
        operation_builder(changed) == (OperationModel {
            responses: operation_builder(builder).responses.insert(code@, response_of(reply)),
            ..operation_builder(builder)
        }),
{
    builder.response(code, reply)
}

/// `OperationBuilder::build`: what was built holds what the builder held.
pub assume_specification[ OperationBuilder::build ](builder: OperationBuilder) -> (built: Operation)
    ensures
        operation_of(built) == operation_builder(builder),
;

/// `PathItemBuilder::new`: no operation.
pub assume_specification[ PathItemBuilder::new ]() -> (builder: PathItemBuilder)
    ensures
        path_item_builder(builder) == empty_item(),
;

/// `PathItemBuilder::operation`: the method has this operation, whatever it had before;
/// the other methods keep theirs.
#[verifier::external_body]
pub(crate) fn with_operation(
    builder: PathItemBuilder,
    method: Method,
    action: Operation,
) -> (changed: PathItemBuilder)
    ensures
        path_item_builder(changed) == (match method {
            Method::Get => PathItemModel {
                get: Some(operation_of(action)),
                ..path_item_builder(builder)
            },
            Method::Post => PathItemModel {
                post: Some(operation_of(action)),
                ..path_item_builder(builder)
            },
        }),
{
    builder.operation(
        match method {
            Method::Get => HttpMethod::Get,
            Method::Post => HttpMethod::Post,
        },
        action,
    )
}

/// `PathItemBuilder::build`: what was built holds what the builder held.
pub assume_specification[ PathItemBuilder::build ](builder: PathItemBuilder) -> (built: PathItem)
    ensures
        path_item_of(built) == path_item_builder(builder),
;

/// `PathsBuilder::new`: no path.
pub assume_specification[ PathsBuilder::new ]() -> (builder: PathsBuilder)
    ensures
        paths_builder(builder) == (PathsModel { items: Map::empty(), bare: true }),
;

/// `PathsBuilder::path`: a new path gets the item; a path that is there takes from the
/// item the operations that it lacks. The other paths stay.
#[verifier::external_body]
pub(crate) fn with_path(
    builder: PathsBuilder,
    path: &str,
    item: PathItem,
) -> (changed: PathsBuilder)
    ensures
        paths_builder(changed) == (PathsModel {
            items: add_path(paths_builder(builder).items, path@, path_item_of(item)),
            ..paths_builder(builder)
        }),
{
    builder.path(path, item)
}

/// `PathsBuilder::build`: what was built holds what the builder held.
pub assume_specification[ PathsBuilder::build ](builder: PathsBuilder) -> (built: Paths)
    ensures
        paths_of(built) == paths_builder(builder),
;

/// `TagBuilder::new`: an empty name and no description.
pub assume_specification[ TagBuilder::new ]() -> (builder: TagBuilder)
    ensures
        tag_builder(builder) == (TagModel { name: Seq::empty(), description: None, bare: true }),
;

/// `TagBuilder::name`: the name is set, the rest stays.
#[verifier::external_body]
pub(crate) fn with_tag_name(builder: TagBuilder, name: &str) -> (changed: TagBuilder)
    ensures
        tag_builder(changed) == (TagModel { name: name@, ..tag_builder(builder) }),
{
    builder.name(name)
}

/// `TagBuilder::description`: the description is set, the rest stays.
#[verifier::external_body]
pub(crate) fn with_tag_description(builder: TagBuilder, description: &str) -> (changed: TagBuilder)
    ensures
        tag_builder(changed) == (TagModel {
            description: Some(description@),
            ..tag_builder(builder)
        }),
{
    builder.description(Some(description))
}

/// `TagBuilder::build`: what was built holds what the builder held.
pub assume_specification[ TagBuilder::build ](builder: TagBuilder) -> (built: Tag)
    ensures
        tag_of(built) == tag_builder(builder),
;

/// `OpenApi::tags`, taken out: the document is left without tags, the rest of it stays.
#[verifier::external_body]
pub(crate) fn take_tags(doc: &mut OpenApi) -> (tags: Option<Vec<Tag>>)
    ensures
        tag_models(tags) == document_of(*old(doc)).tags,
        document_of(*final(doc)) == (DocumentModel { tags: None, ..document_of(*old(doc)) }),
{
    doc.tags.take()
}

/// `OpenApi::tags`, set: these tags take the place of those that were there; the rest
/// of the document stays.
#[verifier::external_body]
pub(crate) fn set_tags(doc: &mut OpenApi, tags: Option<Vec<Tag>>)
    ensures
        document_of(*final(doc)) == (DocumentModel {
            tags: tag_models(tags),
            ..document_of(*old(doc))
        }),
{
    doc.tags = tags;
}

/// Puts a tag behind those that the document has; the rest of the document stays.
pub(crate) fn push_tag(doc: &mut OpenApi, added: Tag)
    ensures
        document_of(*final(doc)) == (DocumentModel {
            tags: Some(
                match document_of(*old(doc)).tags {
                    Some(tags) => tags.push(tag_of(added)),
                    None => seq![tag_of(added)],
                },
            ),
            ..document_of(*old(doc))
        }),
{
    let mut tags = match take_tags(doc) {
        Some(tags) => tags,
        None => Vec::new(),
    };
    tags.push(added);
    assert(tag_models(Some(tags))->0 =~= match document_of(*old(doc)).tags {
        Some(before) => before.push(tag_of(added)),
        None => seq![tag_of(added)],
    });
    set_tags(doc, Some(tags));
}

/// `OpenApi::paths`: these paths take the place of those that were there; the rest
/// of the document stays.
#[verifier::external_body]
pub(crate) fn set_paths(doc: &mut OpenApi, replacement: Paths)
    ensures
        document_of(*final(doc)) == (DocumentModel {
            paths: paths_of(replacement),
            ..document_of(*old(doc))
        }),
{
    doc.paths = replacement;
}

} // verus!
