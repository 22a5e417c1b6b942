//! The OpenAPI document of the HTTP side.
use crate::apidoc::{
    add_path, content_of, document_of, empty_item, operation_of, path_item_of, paths_builder, push_tag,
    ref_to_schema, referenced_schema, request_body_of, response_of, schema_location,
    schema_of, set_paths, tag_of, with_body_content, with_description, with_example,
    with_operation, with_path, with_request_body, with_required, with_response,
    with_response_content, with_response_description, with_schema, with_summary, with_tag,
    with_tag_description, with_tag_name, ContentModel, DocumentModel, Method, OperationModel,
    PathItemModel, PathsModel, RequestBodyModel, ResponseModel, SchemaModel, TagModel,
};
use crate::driver::{CommandMode, FieldModel};
use crate::http::fields::{
    build_command_schema, build_data_schema, build_example_payload, conforms, describes,
    example_conforms_to_schema, example_payload, example_shows_each_field, exemplifies, field_kind,
    field_properties, fields_schema, gives_the_value, last_field_gives_the_value,
    schema_shows_each_field, FieldKind,
};
use crate::http::protocol::{command_packets, protocol_info};
use crate::http::routes::{
    is_per_sensor, path_tells_sensor_and_handler, route_plan, sensor_path, sensor_path_is_its_own,
    served_routes, serves, Handler,
};
use crate::json::Json;
use crate::registry::{sensor_models, SensorInfo, SensorModel};
use crate::text::{
    decimal, decimal_reads_back, decimal_text, is_decimal, join, join3, names_number, names_numbers,
};
use utoipa::openapi::content::{Content, ContentBuilder};
use utoipa::openapi::path::{Operation, OperationBuilder, PathItem, PathItemBuilder, PathsBuilder};
use utoipa::openapi::request_body::{RequestBody, RequestBodyBuilder};
use utoipa::openapi::response::{Response, ResponseBuilder};
use utoipa::openapi::schema::Schema;
use utoipa::openapi::tag::{Tag, TagBuilder};
use utoipa::openapi::{OpenApi, RefOr};
use vstd::prelude::*;

verus! {

/// JSON content and no other.
pub open spec fn json_content(schema: SchemaModel, example: Option<Json>) -> Map<
    Seq<char>,
    ContentModel,
> {
    Map::empty().insert("application/json"@, ContentModel { schema: Some(schema), example, bare: true })
}

/// One response, of status 200, with JSON content of this schema.
pub open spec fn ok_response(description: Seq<char>, schema: SchemaModel) -> Map<
    Seq<char>,
    ResponseModel,
> {
    Map::empty().insert(
        "200"@,
        ResponseModel { description, content: json_content(schema, None), bare: true },
    )
}

/// The reusable schema of that name.
pub open spec fn reusable(name: Seq<char>) -> SchemaModel {
    SchemaModel::Reference { location: schema_location(name), bare: true }
}

/// The operation that lists the sensors.
pub open spec fn discover_operation() -> OperationModel {
    OperationModel {
        tags: Some(seq!["discovery"@]),
        summary: Some("List all available sensors"@),
        description: Some(
            "Returns every registered sensor with its ID, name, UDP ports, command mode, and HTTP endpoint paths."@,
        ),
        parameters: None,
        request_body: None,
        responses: ok_response("List of sensors"@, reusable("DiscoverResponse"@)),
        bare: true,
    }
}

/// A command mode in words.
pub open spec fn mode_text(mode: CommandMode) -> Seq<char> {
    match mode {
        CommandMode::Rest => "REST (one-shot)"@,
        CommandMode::Stream { interval_ms } => "Stream ("@ + decimal_text(interval_ms as nat)
            + "ms watchdog)"@,
    }
}

/// The operation that describes a sensor.
pub open spec fn info_operation(sensor: SensorModel) -> OperationModel {
    OperationModel {
        tags: Some(seq![sensor.id]),
        summary: Some(sensor.display_name + " - Info"@),
        description: Some(
            "Full schema and UDP protocol details for **"@ + sensor.display_name
                + "**.\n\nMode: "@ + mode_text(sensor.command_mode) + "\nData UDP port: "@
                + decimal_text(sensor.data_port as nat) + "\nCommand UDP port: "@
                + decimal_text(sensor.command_port as nat),
        ),
        parameters: None,
        request_body: None,
        responses: ok_response(
            "Sensor info with schemas and UDP protocol"@,
            reusable("SensorInfoResponse"@),
        ),
        bare: true,
    }
}

/// The operation that reads a sensor.
pub open spec fn data_operation(sensor: SensorModel) -> OperationModel {
    OperationModel {
        tags: Some(seq![sensor.id]),
        summary: Some(sensor.display_name + " - Read Data"@),
        description: Some(
            "Read current data from **"@ + sensor.display_name
                + "**.\n\nThis mirrors what you'd get via UDP subscription on port "@
                + decimal_text(sensor.data_port as nat) + "."@,
        ),
        parameters: None,
        request_body: None,
        responses: ok_response("Current sensor data"@, fields_schema(sensor.data_schema)),
        bare: true,
    }
}

/// The operation that commands a sensor.
pub open spec fn command_operation(sensor: SensorModel) -> OperationModel {
    OperationModel {
        tags: Some(seq![sensor.id]),
        summary: Some(sensor.display_name + " - Send Command"@),
        description: Some(
            "Send a command to **"@ + sensor.display_name + "**.\n\nMode: "@ + mode_text(
                sensor.command_mode,
            ) + "\nUDP command port: "@ + decimal_text(sensor.command_port as nat)
                + "\n\nThe JSON body is the same payload used in UDP Command (0x10) packets."@,
        ),
        parameters: None,
        request_body: Some(
            RequestBodyModel {
                content: json_content(
                    fields_schema(sensor.command_schema),
                    Some(example_payload(sensor.command_schema)),
                ),
                required: Some(true),
                bare: true,
            },
        ),
        responses: ok_response("Command result"@, reusable("CommandResult"@)),
        bare: true,
    }
}

/// A path item with this operation under GET alone.
pub open spec fn get_item(operation: OperationModel) -> PathItemModel {
    PathItemModel { get: Some(operation), ..empty_item() }
}

/// A path item with this operation under POST alone.
pub open spec fn post_item(operation: OperationModel) -> PathItemModel {
    PathItemModel { post: Some(operation), ..empty_item() }
}

/// The paths with those of one more sensor.
pub open spec fn with_sensor(
    known: Map<Seq<char>, PathItemModel>,
    sensor: SensorModel,
) -> Map<Seq<char>, PathItemModel> {
    add_path(
        add_path(
            add_path(
                known,
                sensor_path(sensor.id, Handler::Info),
                get_item(info_operation(sensor)),
            ),
            sensor_path(sensor.id, Handler::Data),
            get_item(data_operation(sensor)),
        ),
        sensor_path(sensor.id, Handler::Command),
        post_item(command_operation(sensor)),
    )
}

/// The documented paths: the list of sensors, then those of each sensor in turn.
pub open spec fn documented_paths(sensors: Seq<SensorModel>) -> Map<Seq<char>, PathItemModel>
    decreases sensors.len(),
{
    if sensors.len() == 0 {
        Map::empty().insert("/discover"@, get_item(discover_operation()))
    } else {
        with_sensor(documented_paths(sensors.drop_last()), sensors.last())
    }
}

/// The tag of a sensor.
pub open spec fn sensor_tag(sensor: SensorModel) -> TagModel {
    TagModel {
        name: sensor.id,
        description: Some(
            sensor.display_name + " | "@ + mode_text(sensor.command_mode) + " | Data UDP:"@
                + decimal_text(sensor.data_port as nat) + " | Cmd UDP:"@ + decimal_text(
                sensor.command_port as nat,
            ),
        ),
        bare: true,
    }
}

/// The tags with one for each sensor behind them, in order.
pub open spec fn documented_tags(
    known: Option<Seq<TagModel>>,
    sensors: Seq<SensorModel>,
) -> Option<Seq<TagModel>> {
    if sensors.len() == 0 {
        known
    } else {
        let own = Seq::new(sensors.len(), |i: int| sensor_tag(sensors[i]));
        match known {
            Some(tags) => Some(tags + own),
            None => Some(own),
        }
    }
}

/// The document of these sensors: the base with their paths in place of its own, and
/// with their tags behind its own.
pub open spec fn api_document(base: DocumentModel, sensors: Seq<SensorModel>) -> DocumentModel {
    DocumentModel {
        tags: documented_tags(base.tags, sensors),
        paths: PathsModel { items: documented_paths(sensors), bare: true },
        ..base
    }
}

fn json_body(component: RefOr<Schema>) -> (built: Content)
    ensures
        content_of(built) == (ContentModel {
            schema: Some(schema_of(component)),
            example: None,
            bare: true,
        }),
{
    with_schema(ContentBuilder::new(), component).build()
}

fn ok_reply(description: &str, component: RefOr<Schema>) -> (built: Response)
    ensures
        response_of(built) == (ResponseModel {
            description: description@,
            content: json_content(schema_of(component), None),
            bare: true,
        }),
{
    with_response_content(
        with_response_description(ResponseBuilder::new(), description),
        "application/json",
        json_body(component),
    ).build()
}

fn reusable_schema(name: &str) -> (component: RefOr<Schema>)
    ensures
        schema_of(component) == reusable(name@),
{
    referenced_schema(ref_to_schema(name))
}

fn item(method: Method, operation: Operation) -> (built: PathItem)
    ensures
        path_item_of(built) == (match method {
            Method::Get => get_item(operation_of(operation)),
            Method::Post => post_item(operation_of(operation)),
        }),
{
    with_operation(PathItemBuilder::new(), method, operation).build()
}

fn mode_words(mode: CommandMode) -> (text: String)
    ensures
        text@ == mode_text(mode),
{
    match mode {
        CommandMode::Rest => "REST (one-shot)".to_owned(),
        CommandMode::Stream { interval_ms } => join3(
            "Stream (",
            decimal(interval_ms).as_str(),
            "ms watchdog)",
        ),
    }
}

fn discover_op() -> (built: Operation)
    ensures
        operation_of(built) == discover_operation(),
{
    let described = with_description(
        with_summary(
            with_tag(OperationBuilder::new(), "discovery"),
            "List all available sensors",
        ),
        "Returns every registered sensor with its ID, name, UDP ports, command mode, and HTTP endpoint paths.",
    );
    with_response(
        described,
        "200",
        ok_reply("List of sensors", reusable_schema("DiscoverResponse")),
    ).build()
}

fn info_op(sensor: &SensorInfo) -> (built: Operation)
    ensures
        operation_of(built) == info_operation(sensor@),
{
    let summary = join(sensor.display_name.as_str(), " - Info");
    let description = join3(
        "Full schema and UDP protocol details for **",
        sensor.display_name.as_str(),
        "**.\n\nMode: ",
    ).concat(mode_words(sensor.command_mode).as_str()).concat("\nData UDP port: ").concat(
        decimal(sensor.data_port as u64).as_str(),
    ).concat("\nCommand UDP port: ").concat(decimal(sensor.command_port as u64).as_str());
    let described = with_description(
        with_summary(
            with_tag(OperationBuilder::new(), sensor.id.as_str()),
            summary.as_str(),
        ),
        description.as_str(),
    );
    with_response(
        described,
        "200",
        ok_reply(
            "Sensor info with schemas and UDP protocol",
            reusable_schema("SensorInfoResponse"),
        ),
    ).build()
}

fn data_op(sensor: &SensorInfo) -> (built: Operation)
    ensures
        operation_of(built) == data_operation(sensor@),
{
    let summary = join(sensor.display_name.as_str(), " - Read Data");
    let description = join3(
        "Read current data from **",
        sensor.display_name.as_str(),
        "**.\n\nThis mirrors what you'd get via UDP subscription on port ",
    ).concat(decimal(sensor.data_port as u64).as_str()).concat(".");
    let described = with_description(
        with_summary(
            with_tag(OperationBuilder::new(), sensor.id.as_str()),
            summary.as_str(),
        ),
        description.as_str(),
    );
    with_response(
        described,
        "200",
        ok_reply("Current sensor data", build_data_schema(sensor.data_schema.as_slice())),
    ).build()
}

fn command_body(sensor: &SensorInfo) -> (built: RequestBody)
    ensures
        Some(request_body_of(built)) == command_operation(sensor@).request_body,
{
    let content = with_example(
        with_schema(
            ContentBuilder::new(),
            build_command_schema(sensor.command_schema.as_slice()),
        ),
        build_example_payload(sensor.command_schema.as_slice()),
    ).build();
    with_required(
        with_body_content(RequestBodyBuilder::new(), "application/json", content),
        true,
    ).build()
}

fn command_op(sensor: &SensorInfo) -> (built: Operation)
    ensures
        operation_of(built) == command_operation(sensor@),
{
    let summary = join(sensor.display_name.as_str(), " - Send Command");
    let description = join3(
        "Send a command to **",
        sensor.display_name.as_str(),
        "**.\n\nMode: ",
    ).concat(mode_words(sensor.command_mode).as_str()).concat("\nUDP command port: ").concat(
        decimal(sensor.command_port as u64).as_str(),
    ).concat("\n\nThe JSON body is the same payload used in UDP Command (0x10) packets.");
    let described = with_description(
        with_summary(
            with_tag(OperationBuilder::new(), sensor.id.as_str()),
            summary.as_str(),
        ),
        description.as_str(),
    );
    with_response(
        with_request_body(described, command_body(sensor)),
        "200",
        ok_reply("Command result", reusable_schema("CommandResult")),
    ).build()
}

fn tag_for(sensor: &SensorInfo) -> (built: Tag)
    ensures
        tag_of(built) == sensor_tag(sensor@),
{
    let description = join3(
        sensor.display_name.as_str(),
        " | ",
        mode_words(sensor.command_mode).as_str(),
    ).concat(" | Data UDP:").concat(decimal(sensor.data_port as u64).as_str()).concat(
        " | Cmd UDP:",
    ).concat(decimal(sensor.command_port as u64).as_str());
    with_tag_description(
        with_tag_name(TagBuilder::new(), sensor.id.as_str()),
        description.as_str(),
    ).build()
}

/// Completes the base document, which has the title, the reusable schemas and the tags
/// that belong to no sensor, with the paths of the interface and a tag for each sensor.
pub fn build_openapi(base: OpenApi, sensors: &Vec<SensorInfo>) -> (doc: OpenApi)
    ensures
        document_of(doc) == api_document(document_of(base), sensor_models(sensors@)),
{
    let ghost start = document_of(base);
    let ghost models = sensor_models(sensors@);
    let mut doc = base;
    let mut paths = with_path(
        PathsBuilder::new(),
        "/discover",
        item(Method::Get, discover_op()),
    );
    assert(models.take(0) =~= Seq::empty());
    let mut i: usize = 0;
    while i < sensors.len()
        invariant
            i <= sensors.len(),
            models == sensor_models(sensors@),
            paths_builder(paths) == (PathsModel {
                items: documented_paths(models.take(i as int)),
                bare: true,
            }),
            document_of(doc) == (DocumentModel {
                tags: documented_tags(start.tags, models.take(i as int)),
                ..start
            }),
        decreases sensors.len() - i,
    {
        let sensor = &sensors[i];
        let base_path = join("/", sensor.id.as_str());
        let info_path = join(base_path.as_str(), "/info");
        let data_path = join(base_path.as_str(), "/data");
        let command_path = join(base_path.as_str(), "/command");
        paths = with_path(paths, info_path.as_str(), item(Method::Get, info_op(sensor)));
        paths = with_path(paths, data_path.as_str(), item(Method::Get, data_op(sensor)));
        paths = with_path(paths, command_path.as_str(), item(Method::Post, command_op(sensor)));
        push_tag(&mut doc, tag_for(sensor));
        proof {
            let before = models.take(i as int);
            let taken = models.take(i + 1);
            assert(taken.drop_last() =~= before);
            assert(taken.last() == sensors@[i as int]@);
            assert(documented_tags(start.tags, taken)->0 =~= match documented_tags(
                start.tags,
                before,
            ) {
                Some(tags) => tags.push(sensor_tag(taken.last())),
                None => seq![sensor_tag(taken.last())],
            });
        }
        i += 1;
    }
    assert(models.take(i as int) =~= models);
    set_paths(&mut doc, paths.build());
    doc
}

/// What is documented of a sensor's route.
pub open spec fn sensor_item(sensor: SensorModel, handler: Handler) -> PathItemModel {
    match handler {
        Handler::Info => get_item(info_operation(sensor)),
        Handler::Data => get_item(data_operation(sensor)),
        _ => post_item(command_operation(sensor)),
    }
}

/// Whether no earlier sensor has the ID of the sensor at `i`.
pub open spec fn is_first_of_id(sensors: Seq<SensorModel>, i: int) -> bool {
    &&& 0 <= i < sensors.len()
    &&& forall|j: int| 0 <= j < i ==> #[trigger] sensors[j].id != sensors[i].id
}

/// Whether the item at `path` is that of a handler of the sensor at `i`.
pub open spec fn comes_from(
    sensors: Seq<SensorModel>,
    path: Seq<char>,
    item: PathItemModel,
    i: int,
    handler: Handler,
) -> bool {
    &&& is_first_of_id(sensors, i)
    &&& is_per_sensor(handler)
    &&& path == sensor_path(sensors[i].id, handler)
    &&& item == sensor_item(sensors[i], handler)
}

/// The paths of one more sensor change nothing elsewhere; where the sensor's own paths
/// are new, they get its items.
proof fn sensor_adds_its_paths(
    known: Map<Seq<char>, PathItemModel>,
    sensor: SensorModel,
    path: Seq<char>,
)
    ensures
        ({
            let all = with_sensor(known, sensor);
            let info = sensor_path(sensor.id, Handler::Info);
            let data = sensor_path(sensor.id, Handler::Data);
            let command = sensor_path(sensor.id, Handler::Command);
            &&& path != info && path != data && path != command ==> all.contains_key(path)
                == known.contains_key(path) && all[path] == known[path]
            &&& all.contains_key(info) && all.contains_key(data) && all.contains_key(command)
            &&& all[info] == add_path(known, info, sensor_item(sensor, Handler::Info))[info]
            &&& all[data] == add_path(known, data, sensor_item(sensor, Handler::Data))[data]
            &&& all[command] == add_path(
                known,
                command,
                sensor_item(sensor, Handler::Command),
            )[command]
        }),
{
    let info = sensor_path(sensor.id, Handler::Info);
    let data = sensor_path(sensor.id, Handler::Data);
    let command = sensor_path(sensor.id, Handler::Command);
    if info == data {
        path_tells_sensor_and_handler(sensor.id, Handler::Info, sensor.id, Handler::Data);
    }
    if info == command {
        path_tells_sensor_and_handler(sensor.id, Handler::Info, sensor.id, Handler::Command);
    }
    if data == command {
        path_tells_sensor_and_handler(sensor.id, Handler::Data, sensor.id, Handler::Command);
    }
}

/// The item of an earlier sensor's path stays when the paths of one more sensor come.
proof fn own_path_keeps_its_item(
    known: Map<Seq<char>, PathItemModel>,
    sensor: SensorModel,
    earlier: SensorModel,
    handler: Handler,
)
    requires
        is_per_sensor(handler),
        known.contains_key(sensor_path(earlier.id, handler)),
        known[sensor_path(earlier.id, handler)] == sensor_item(earlier, handler),
    ensures
        with_sensor(known, sensor)[sensor_path(earlier.id, handler)] == sensor_item(
            earlier,
            handler,
        ),
{
    let path = sensor_path(earlier.id, handler);
    sensor_adds_its_paths(known, sensor, path);
    if path == sensor_path(sensor.id, Handler::Info) {
        path_tells_sensor_and_handler(earlier.id, handler, sensor.id, Handler::Info);
    }
    if path == sensor_path(sensor.id, Handler::Data) {
        path_tells_sensor_and_handler(earlier.id, handler, sensor.id, Handler::Data);
    }
    if path == sensor_path(sensor.id, Handler::Command) {
        path_tells_sensor_and_handler(earlier.id, handler, sensor.id, Handler::Command);
    }
}

/// Where a documented path comes from, and that every sensor's paths are documented.
proof fn documented_item(sensors: Seq<SensorModel>, path: Seq<char>)
    ensures
        path == "/discover"@ ==> documented_paths(sensors).contains_key(path)
            && documented_paths(sensors)[path] == get_item(discover_operation()),
        documented_paths(sensors).contains_key(path) && path != "/discover"@ ==> exists|
            i: int,
            handler: Handler,
        | #[trigger]
            comes_from(sensors, path, documented_paths(sensors)[path], i, handler),
        forall|i: int, handler: Handler|
            0 <= i < sensors.len() && is_per_sensor(handler) && path == #[trigger] sensor_path(
                sensors[i].id,
                handler,
            ) ==> documented_paths(sensors).contains_key(path),
    decreases sensors.len(),
{
    if sensors.len() > 0 {
        let before = sensors.drop_last();
        let sensor = sensors.last();
        let end = sensors.len() - 1;
        let known = documented_paths(before);
        let all = documented_paths(sensors);
        documented_item(before, path);
        sensor_adds_its_paths(known, sensor, path);
        sensor_path_is_its_own(sensor.id, Handler::Info, Handler::Discover);
        sensor_path_is_its_own(sensor.id, Handler::Data, Handler::Discover);
        sensor_path_is_its_own(sensor.id, Handler::Command, Handler::Discover);
        if known.contains_key(path) && path != "/discover"@ {
            let (i, handler) = choose|i: int, handler: Handler| #[trigger]
                comes_from(before, path, known[path], i, handler);
            assert(sensors[i] == before[i]);
            assert forall|j: int| 0 <= j < i implies #[trigger] sensors[j].id
                != sensors[i].id by {
                assert(before[j] == sensors[j]);
            }
            own_path_keeps_its_item(known, sensor, sensors[i], handler);
            assert(comes_from(sensors, path, all[path], i, handler));
        } else if all.contains_key(path) && path != "/discover"@ {
            let handler = if path == sensor_path(sensor.id, Handler::Info) {
                Handler::Info
            } else if path == sensor_path(sensor.id, Handler::Data) {
                Handler::Data
            } else {
                Handler::Command
            };
            assert forall|j: int| 0 <= j < end implies #[trigger] sensors[j].id
                != sensors[end].id by {
                assert(before[j] == sensors[j]);
                if sensors[j].id == sensor.id {
                    assert(path == sensor_path(before[j].id, handler));
                }
            }
            assert(comes_from(sensors, path, all[path], end, handler));
        }
        assert forall|i: int, handler: Handler|
            0 <= i < sensors.len() && is_per_sensor(handler) && path == #[trigger] sensor_path(
                sensors[i].id,
                handler,
            ) implies all.contains_key(path) by {
            if i < end {
                assert(before[i] == sensors[i]);
                assert(path == sensor_path(before[i].id, handler));
            }
        }
    }
}

/// The document describes the list of sensors, and of each sensor its own three
/// routes; of sensors that share an ID, the first one.
pub proof fn sensor_is_documented(sensors: Seq<SensorModel>, i: int, handler: Handler)
    requires
        is_first_of_id(sensors, i),
        is_per_sensor(handler),
    ensures
        documented_paths(sensors).contains_key("/discover"@),
        documented_paths(sensors)["/discover"@] == get_item(discover_operation()),
        documented_paths(sensors).contains_key(sensor_path(sensors[i].id, handler)),
        documented_paths(sensors)[sensor_path(sensors[i].id, handler)] == sensor_item(
            sensors[i],
            handler,
        ),
{
    let path = sensor_path(sensors[i].id, handler);
    documented_item(sensors, "/discover"@);
    documented_item(sensors, path);
    sensor_path_is_its_own(sensors[i].id, handler, Handler::Discover);
    let (j, same) = choose|j: int, same: Handler| #[trigger]
        comes_from(sensors, path, documented_paths(sensors)[path], j, same);
    path_tells_sensor_and_handler(sensors[i].id, handler, sensors[j].id, same);
    if i < j {
        assert(sensors[i].id != sensors[j].id);
    } else if j < i {
        assert(sensors[j].id != sensors[i].id);
    }
}

/// Whether a document has an operation for this method at this path.
pub open spec fn documents(
    known: Map<Seq<char>, PathItemModel>,
    method: Method,
    path: Seq<char>,
) -> bool {
    &&& known.contains_key(path)
    &&& match method {
        Method::Get => known[path].get is Some,
        Method::Post => known[path].post is Some,
    }
}

/// A route is documented if and only if it is served, the routes of the documentation
/// itself aside.
pub proof fn documented_routes_are_the_served_ones(
    sensors: Seq<SensorModel>,
    method: Method,
    path: Seq<char>,
)
    ensures
        documents(documented_paths(sensors), method, path) <==> exists|
            handler: Handler,
            sensor: Option<int>,
        |
            {
                &&& handler !is Docs
                &&& handler !is OpenApi
                &&& #[trigger] serves(route_plan(sensors), method, path, handler, sensor)
            },
{
    let known = documented_paths(sensors);
    documented_item(sensors, path);
    if documents(known, method, path) {
        if path == "/discover"@ {
            served_routes(sensors, method, path, Handler::Discover, None);
            assert(serves(route_plan(sensors), method, path, Handler::Discover, None));
        } else {
            let (i, handler) = choose|i: int, handler: Handler| #[trigger]
                comes_from(sensors, path, known[path], i, handler);
            served_routes(sensors, method, path, handler, Some(i));
            assert(serves(route_plan(sensors), method, path, handler, Some(i)));
        }
    }
    assert forall|handler: Handler, sensor: Option<int>|
        {
            &&& handler !is Docs
            &&& handler !is OpenApi
            &&& #[trigger] serves(route_plan(sensors), method, path, handler, sensor)
        } implies documents(known, method, path) by {
        served_routes(sensors, method, path, handler, sensor);
        if let Some(i) = sensor {
            assert(path == sensor_path(sensors[i].id, handler));
            sensor_path_is_its_own(sensors[i].id, handler, Handler::Discover);
            let (j, same) = choose|j: int, same: Handler| #[trigger]
                comes_from(sensors, path, known[path], j, same);
            path_tells_sensor_and_handler(sensors[i].id, handler, sensors[j].id, same);
        }
    }
}

/// A sensor that is registered after the routes and the document were made, under an ID
/// that no sensor had then, has neither a route nor an entry in the document.
pub proof fn later_sensor_has_no_route(
    sensors: Seq<SensorModel>,
    later: SensorModel,
    handler: Handler,
)
    requires
        forall|i: int| 0 <= i < sensors.len() ==> #[trigger] sensors[i].id != later.id,
        is_per_sensor(handler),
    ensures
        !documented_paths(sensors).contains_key(sensor_path(later.id, handler)),
        forall|method: Method, found: Handler, sensor: Option<int>|
            !#[trigger] serves(
                route_plan(sensors),
                method,
                sensor_path(later.id, handler),
                found,
                sensor,
            ),
{
    let known = documented_paths(sensors);
    let path = sensor_path(later.id, handler);
    documented_item(sensors, path);
    sensor_path_is_its_own(later.id, handler, Handler::Discover);
    if known.contains_key(path) {
        let (i, same) = choose|i: int, same: Handler| #[trigger]
            comes_from(sensors, path, known[path], i, same);
        path_tells_sensor_and_handler(sensors[i].id, same, later.id, handler);
    }
    assert forall|method: Method, found: Handler, sensor: Option<int>|
        !#[trigger] serves(route_plan(sensors), method, path, found, sensor) by {
        served_routes(sensors, method, path, found, sensor);
        if serves(route_plan(sensors), method, path, found, sensor) {
            match sensor {
                None => {
                    sensor_path_is_its_own(later.id, handler, found);
                },
                Some(i) => {
                    path_tells_sensor_and_handler(sensors[i].id, found, later.id, handler);
                },
            }
        }
    }
}

/// Whether the item has this operation under this method, and nothing else.
pub open spec fn is_only_operation(
    item: PathItemModel,
    method: Method,
    operation: OperationModel,
) -> bool {
    item == match method {
        Method::Get => get_item(operation),
        Method::Post => post_item(operation),
    }
}

/// Whether a content is JSON and nothing else.
pub open spec fn is_json_only(content: Map<Seq<char>, ContentModel>) -> bool {
    content.dom() == set!["application/json"@]
}

/// Whether an operation takes no parameters, answers JSON under status 200 alone, and
/// takes a body if and only if it is posted: JSON that must be sent.
pub open spec fn exchanges_json(operation: OperationModel, method: Method) -> bool {
    &&& operation.parameters is None
    &&& operation.responses.dom() == set!["200"@]
    &&& is_json_only(operation.responses["200"@].content)
    &&& match operation.request_body {
        None => method is Get,
        Some(body) => method is Post && body.required == Some(true) && is_json_only(body.content),
    }
}

/// Every documented path has one operation, and each operation exchanges JSON.
pub proof fn documented_path_has_one_operation(sensors: Seq<SensorModel>, path: Seq<char>)
    requires
        documented_paths(sensors).contains_key(path),
    ensures
        exists|method: Method, operation: OperationModel| #[trigger]
            is_only_operation(documented_paths(sensors)[path], method, operation)
                && exchanges_json(operation, method),
{
    let item = documented_paths(sensors)[path];
    documented_item(sensors, path);
    let (method, operation) = if path == "/discover"@ {
        (Method::Get, discover_operation())
    } else {
        let (i, handler) = choose|i: int, handler: Handler| #[trigger]
            comes_from(sensors, path, item, i, handler);
        match handler {
            Handler::Info => (Method::Get, info_operation(sensors[i])),
            Handler::Data => (Method::Get, data_operation(sensors[i])),
            _ => (Method::Post, command_operation(sensors[i])),
        }
    };
    assert(is_only_operation(item, method, operation));
    assert(operation.responses.dom() =~= set!["200"@]);
    assert(operation.responses["200"@].content.dom() =~= set!["application/json"@]);
    if let Some(body) = operation.request_body {
        assert(body.content.dom() =~= set!["application/json"@]);
    }
}

/// The words for a mode tell the mode: a stream's give its milliseconds.
pub proof fn mode_text_tells_the_mode(mode: CommandMode)
    ensures
        match mode {
            CommandMode::Rest => mode_text(mode) == "REST (one-shot)"@,
            CommandMode::Stream { interval_ms } => names_number(
                mode_text(mode),
                "Stream ("@,
                interval_ms as nat,
                "ms watchdog)"@,
            ),
        },
{
    if let CommandMode::Stream { interval_ms } = mode {
        decimal_reads_back(interval_ms as nat);
        assert(is_decimal(decimal_text(interval_ms as nat), interval_ms as nat));
    }
}

/// The schema that a content gives for JSON.
pub open spec fn json_schema(content: Map<Seq<char>, ContentModel>) -> Option<SchemaModel> {
    if content.contains_key("application/json"@) {
        content["application/json"@].schema
    } else {
        None
    }
}

/// Whether a response has this description and JSON content that refers to the reusable
/// schema of that name.
pub open spec fn refers_to(
    response: ResponseModel,
    description: Seq<char>,
    name: Seq<char>,
) -> bool {
    &&& response.description == description
    &&& json_schema(response.content) matches Some(SchemaModel::Reference { location, bare })
        && location == "#/components/schemas/"@ + name && bare
    &&& response.content["application/json"@].example is None
}

/// At `/{id}/info` the document describes a GET that is tagged with the sensor, names it
/// with its mode and its two ports, each in its place, and answers with its description.
pub proof fn info_is_documented(sensors: Seq<SensorModel>, i: int)
    requires
        is_first_of_id(sensors, i),
    ensures
        documented_paths(sensors).contains_key("/"@ + sensors[i].id + "/info"@),
        documented_paths(sensors)["/"@ + sensors[i].id + "/info"@].get matches Some(operation) && {
            let sensor = sensors[i];
            &&& operation.tags == Some(seq![sensor.id])
            &&& operation.summary == Some(sensor.display_name + " - Info"@)
            &&& operation.description matches Some(text) && names_numbers(
                text,
                "Full schema and UDP protocol details for **"@ + sensor.display_name
                    + "**.\n\nMode: "@ + mode_text(sensor.command_mode) + "\nData UDP port: "@,
                sensor.data_port as nat,
                "\nCommand UDP port: "@,
                sensor.command_port as nat,
            )
            &&& refers_to(
                operation.responses["200"@],
                "Sensor info with schemas and UDP protocol"@,
                "SensorInfoResponse"@,
            )
        },
{
    sensor_is_documented(sensors, i, Handler::Info);
    decimal_reads_back(sensors[i].data_port as nat);
    decimal_reads_back(sensors[i].command_port as nat);
    assert(is_decimal(
        decimal_text(sensors[i].data_port as nat),
        sensors[i].data_port as nat,
    ));
    assert(is_decimal(
        decimal_text(sensors[i].command_port as nat),
        sensors[i].command_port as nat,
    ));
}

/// At `/{id}/data` the document describes a GET that is tagged with the sensor, names its
/// data port, and answers with an object that has the sensor's data fields, each of its
/// type: those and no other, whatever the sensor's mode.
pub proof fn data_is_documented(sensors: Seq<SensorModel>, i: int)
    requires
        is_first_of_id(sensors, i),
    ensures
        documented_paths(sensors).contains_key("/"@ + sensors[i].id + "/data"@),
        documented_paths(sensors)["/"@ + sensors[i].id + "/data"@].get matches Some(operation) && {
            let sensor = sensors[i];
            let response = operation.responses["200"@];
            &&& operation.tags == Some(seq![sensor.id])
            &&& operation.summary == Some(sensor.display_name + " - Read Data"@)
            &&& operation.description matches Some(text) && names_number(
                text,
                "Read current data from **"@ + sensor.display_name
                    + "**.\n\nThis mirrors what you'd get via UDP subscription on port "@,
                sensor.data_port as nat,
                "."@,
            )
            &&& response.description == "Current sensor data"@
            &&& response.content["application/json"@].example is None
            &&& json_schema(response.content) matches Some(shape) && describes(
                shape,
                sensor.data_schema,
            )
        },
{
    sensor_is_documented(sensors, i, Handler::Data);
    schema_shows_each_field(sensors[i].data_schema);
    decimal_reads_back(sensors[i].data_port as nat);
    assert(is_decimal(
        decimal_text(sensors[i].data_port as nat),
        sensors[i].data_port as nat,
    ));
}

/// At `/{id}/command` the document describes a POST that is tagged with the sensor, names
/// its mode and its command port, and takes an object that has the sensor's command
/// fields, each of its type, with an example of such an object.
pub proof fn command_is_documented(sensors: Seq<SensorModel>, i: int)
    requires
        is_first_of_id(sensors, i),
    ensures
        documented_paths(sensors).contains_key("/"@ + sensors[i].id + "/command"@),
        documented_paths(sensors)["/"@ + sensors[i].id + "/command"@].post matches Some(operation)
            && {
            let sensor = sensors[i];
            &&& operation.tags == Some(seq![sensor.id])
            &&& operation.summary == Some(sensor.display_name + " - Send Command"@)
            &&& operation.description matches Some(text) && names_number(
                text,
                "Send a command to **"@ + sensor.display_name + "**.\n\nMode: "@ + mode_text(
                    sensor.command_mode,
                ) + "\nUDP command port: "@,
                sensor.command_port as nat,
                "\n\nThe JSON body is the same payload used in UDP Command (0x10) packets."@,
            )
            &&& operation.request_body matches Some(body) && {
                &&& body.required == Some(true)
                &&& json_schema(body.content) matches Some(shape) && describes(
                    shape,
                    sensor.command_schema,
                )
                &&& body.content["application/json"@].example matches Some(example)
                    && exemplifies(example, sensor.command_schema)
            }
            &&& refers_to(operation.responses["200"@], "Command result"@, "CommandResult"@)
        },
{
    sensor_is_documented(sensors, i, Handler::Command);
    schema_shows_each_field(sensors[i].command_schema);
    example_shows_each_field(sensors[i].command_schema);
    decimal_reads_back(sensors[i].command_port as nat);
    assert(is_decimal(
        decimal_text(sensors[i].command_port as nat),
        sensors[i].command_port as nat,
    ));
}

/// What is documented of reading a sensor follows from its ID, its name, its data port and
/// its data fields alone: neither its mode nor what its commands are matters.
pub proof fn documented_data_ignores_commands(left: SensorModel, right: SensorModel)
    requires
        left.id == right.id,
        left.display_name == right.display_name,
        left.data_port == right.data_port,
        left.data_schema == right.data_schema,
    ensures
        sensor_item(left, Handler::Data) == sensor_item(right, Handler::Data),
{
}

/// What is documented of commanding a sensor follows from its ID, its name, its mode, its
/// command port and its command fields alone: what its data are does not matter.
pub proof fn documented_command_ignores_data(left: SensorModel, right: SensorModel)
    requires
        left.id == right.id,
        left.display_name == right.display_name,
        left.command_mode == right.command_mode,
        left.command_port == right.command_port,
        left.command_schema == right.command_schema,
    ensures
        sensor_item(left, Handler::Command) == sensor_item(right, Handler::Command),
{
}

/// The data that a sensor's UDP description shows as pushed is what the document describes
/// for a read, entry by entry, as long as the type of each data field is known.
pub proof fn pushed_example_is_what_is_documented(
    sensors: Seq<SensorModel>,
    i: int,
    version: u8,
)
    requires
        is_first_of_id(sensors, i),
        forall|j: int| #[trigger]
            gives_the_value(sensors[i].data_schema, j) ==> field_kind(
                sensors[i].data_schema[j].rust_type,
            ) != FieldKind::Unknown,
    ensures
        ({
            let pushed = protocol_info(sensors[i], version).data_subscription.data_push_packet;
            let item = documented_paths(sensors)["/"@ + sensors[i].id + "/data"@];
            &&& pushed.payload_example matches Some(example)
            &&& item.get matches Some(operation)
            &&& json_schema(operation.responses["200"@].content) matches Some(shape)
            &&& conforms(example, shape)
            &&& same_names(example, shape)
        }),
{
    sensor_is_documented(sensors, i, Handler::Data);
    example_conforms_to_schema(sensors[i].data_schema);
}

/// The command that a sensor's UDP description shows is what the document describes for a
/// command, entry by entry, as long as the type of each command field is known.
pub proof fn shown_command_is_what_is_documented(
    sensors: Seq<SensorModel>,
    i: int,
    version: u8,
)
    requires
        is_first_of_id(sensors, i),
        forall|j: int| #[trigger]
            gives_the_value(sensors[i].command_schema, j) ==> field_kind(
                sensors[i].command_schema[j].rust_type,
            ) != FieldKind::Unknown,
    ensures
        ({
            let shown = protocol_info(sensors[i], version).command_protocol.packets[0];
            let item = documented_paths(sensors)["/"@ + sensors[i].id + "/command"@];
            &&& shown.payload_example matches Some(example)
            &&& item.post matches Some(operation)
            &&& operation.request_body matches Some(body)
            &&& json_schema(body.content) matches Some(shape)
            &&& conforms(example, shape)
            &&& same_names(example, shape)
        }),
{
    sensor_is_documented(sensors, i, Handler::Command);
    example_conforms_to_schema(sensors[i].command_schema);
}

/// Whether a value is an object with an entry for each property of a schema, and no other.
pub open spec fn same_names(value: Json, shape: SchemaModel) -> bool {
    &&& value matches Json::Object(members)
    &&& shape matches SchemaModel::Inline { kind, properties, required, bare }
    &&& members.dom() == properties.dom()
}

/// The tag of a sensor is its ID, with its name, its mode and its two ports, each in its
/// place.
pub proof fn tag_tells_the_sensor(sensor: SensorModel)
    ensures
        sensor_tag(sensor).name == sensor.id,
        sensor_tag(sensor).description matches Some(text) && names_numbers(
            text,
            sensor.display_name + " | "@ + mode_text(sensor.command_mode) + " | Data UDP:"@,
            sensor.data_port as nat,
            " | Cmd UDP:"@,
            sensor.command_port as nat,
        ),
{
    decimal_reads_back(sensor.data_port as nat);
    decimal_reads_back(sensor.command_port as nat);
    assert(is_decimal(decimal_text(sensor.data_port as nat), sensor.data_port as nat));
    assert(is_decimal(decimal_text(sensor.command_port as nat), sensor.command_port as nat));
}

/// The tags of an optional list, none where there is no list.
pub open spec fn listed(tags: Option<Seq<TagModel>>) -> Seq<TagModel> {
    match tags {
        Some(tags) => tags,
        None => Seq::empty(),
    }
}

/// The document keeps what the base has, all but the paths, and has the tag of each sensor
/// behind the base's own, in order.
pub proof fn document_keeps_the_base(base: DocumentModel, sensors: Seq<SensorModel>)
    ensures
        ({
            let doc = api_document(base, sensors);
            let own = listed(base.tags);
            &&& doc.title == base.title
            &&& doc.description == base.description
            &&& doc.version == base.version
            &&& doc.schemas == base.schemas
            &&& doc.rest == base.rest
            &&& doc.paths.items == documented_paths(sensors)
            &&& doc.tags is None <==> base.tags is None && sensors.len() == 0
            &&& doc.tags matches Some(tags) ==> {
                &&& tags.len() == own.len() + sensors.len()
                &&& forall|k: int| 0 <= k < own.len() ==> #[trigger] tags[k] == own[k]
                &&& forall|k: int|
                    0 <= k < sensors.len() ==> #[trigger] tags[own.len() + k] == sensor_tag(
                        sensors[k],
                    )
            }
        }),
{
}

/// The example in the document of a sensor's command is the one that the sensor's own
/// description gives for the UDP command packet, and for the stream's where it has one.
pub proof fn command_examples_agree(sensor: SensorModel, version: u8)
    ensures
        command_operation(sensor).request_body matches Some(body)
            && body.content["application/json"@].example == command_packets(
            sensor,
            version,
        )[0].payload_example,
        sensor.command_mode is Stream ==> command_packets(sensor, version)[1].payload_example
            == command_packets(sensor, version)[0].payload_example,
{
}

/// Whether every reference in a schema is to one of these reusable schemas.
pub open spec fn schema_resolves(shape: SchemaModel, schemas: Map<Seq<char>, Json>) -> bool
    decreases shape,
{
    match shape {
        SchemaModel::Reference { location, bare } => exists|name: Seq<char>| #[trigger]
            schemas.contains_key(name) && location == schema_location(name),
        SchemaModel::Inline { kind, properties, required, bare } => forall|name: Seq<char>|
            #![trigger properties[name]]
            properties.contains_key(name) ==> schema_resolves(properties[name], schemas),
    }
}

/// Whether every reference in a content is to one of these reusable schemas.
pub open spec fn content_resolves(
    content: Map<Seq<char>, ContentModel>,
    schemas: Map<Seq<char>, Json>,
) -> bool {
    forall|media_type: Seq<char>| #[trigger]
        content.contains_key(media_type) ==> (content[media_type].schema matches Some(shape)
            ==> schema_resolves(shape, schemas))
}

/// Whether every reference in an operation is to one of these reusable schemas.
pub open spec fn operation_resolves(operation: OperationModel, schemas: Map<Seq<char>, Json>) -> bool {
    &&& operation.request_body matches Some(body) ==> content_resolves(body.content, schemas)
    &&& forall|code: Seq<char>| #[trigger]
        operation.responses.contains_key(code) ==> content_resolves(
            operation.responses[code].content,
            schemas,
        )
}

/// Whether a tag of that name is among these.
pub open spec fn declares(tags: Option<Seq<TagModel>>, name: Seq<char>) -> bool {
    tags matches Some(known) && exists|i: int|
        0 <= i < known.len() && (#[trigger] known[i]).name == name
}

/// Whether an operation is tagged, and with declared tags alone.
pub open spec fn tags_are_declared(
    operation: OperationModel,
    tags: Option<Seq<TagModel>>,
) -> bool {
    operation.tags matches Some(names) && names.len() > 0 && forall|i: int|
        0 <= i < names.len() ==> declares(tags, #[trigger] names[i])
}

proof fn field_schemas_resolve(fields: Seq<FieldModel>, schemas: Map<Seq<char>, Json>)
    ensures
        schema_resolves(fields_schema(fields), schemas),
{
    let properties = field_properties(fields);
    assert forall|name: Seq<char>| properties.contains_key(name) implies schema_resolves(
        #[trigger] properties[name],
        schemas,
    ) by {
        last_field_gives_the_value(fields, name);
        reveal_with_fuel(schema_resolves, 2);
    }
}

/// Whether the operation is one of the item's, under whatever method.
pub open spec fn has_operation(item: PathItemModel, operation: OperationModel) -> bool {
    ||| item.get == Some(operation)
    ||| item.put == Some(operation)
    ||| item.post == Some(operation)
    ||| item.delete == Some(operation)
    ||| item.options == Some(operation)
    ||| item.head == Some(operation)
    ||| item.patch == Some(operation)
    ||| item.trace == Some(operation)
}

/// Where the base declares the `discovery` tag and has the three reusable schemas that
/// the paths refer to, each operation of the document is tagged with declared tags and
/// refers to nothing that the document lacks.
pub proof fn document_is_closed(
    base: DocumentModel,
    sensors: Seq<SensorModel>,
    path: Seq<char>,
    operation: OperationModel,
)
    requires
        declares(base.tags, "discovery"@),
        base.schemas.contains_key("DiscoverResponse"@),
        base.schemas.contains_key("SensorInfoResponse"@),
        base.schemas.contains_key("CommandResult"@),
        api_document(base, sensors).paths.items.contains_key(path),
        has_operation(api_document(base, sensors).paths.items[path], operation),
    ensures
        tags_are_declared(operation, api_document(base, sensors).tags),
        operation_resolves(operation, api_document(base, sensors).schemas),
{
    let doc = api_document(base, sensors);
    let item = doc.paths.items[path];
    documented_item(sensors, path);
    if path == "/discover"@ {
        let i = choose|i: int|
            0 <= i < base.tags->0.len() && (#[trigger] base.tags->0[i]).name == "discovery"@;
        assert(doc.tags->0[i] == base.tags->0[i]);
        assert(declares(doc.tags, "discovery"@));
    } else {
        let (i, handler) = choose|i: int, handler: Handler| #[trigger]
            comes_from(sensors, path, item, i, handler);
        field_schemas_resolve(sensors[i].data_schema, doc.schemas);
        field_schemas_resolve(sensors[i].command_schema, doc.schemas);
        let place = base.tags->0.len() + i;
        assert(doc.tags->0[place] == sensor_tag(sensors[i]));
        assert(declares(doc.tags, sensors[i].id));
    }
}

} // verus!
