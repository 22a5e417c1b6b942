use capra_rove_interface::apidoc::Method;
use capra_rove_interface::driver::{CommandMode, DriverError, FieldDescriptor, SensorDriver};
use capra_rove_interface::http::fields::{
    build_command_schema, build_data_schema, build_example_payload, classify, type_to_schema,
    FieldKind,
};
use capra_rove_interface::http::openapi::build_openapi;
use capra_rove_interface::http::protocol::build_protocol_info;
use capra_rove_interface::http::routes::{
    build_router, command_reply, data_reply, discover, sensor_command, sensor_data, sensor_info,
    serve_scalar, Handler,
};
use capra_rove_interface::registry::SensorInfo;
use serde_json::Value;
use utoipa::openapi::schema::{ComponentsBuilder, ObjectBuilder};
use utoipa::openapi::server::Server;
use utoipa::openapi::tag::TagBuilder;
use utoipa::openapi::{Info, OpenApi, Paths};

fn parse(text: &str) -> Value {
    serde_json::from_str(text).unwrap()
}

fn gps() -> SensorInfo {
    SensorInfo {
        id: "gps".to_string(),
        display_name: "GNSS Receiver".to_string(),
        command_mode: CommandMode::Rest,
        data_port: 5000,
        command_port: 5001,
        data_schema: vec![
            FieldDescriptor::new("latitude", "WGS84 latitude", "f64").with_unit("degrees"),
            FieldDescriptor::new("satellites", "Number of satellites in fix", "u8"),
        ],
        command_schema: vec![FieldDescriptor::new("set_update_rate_hz", "Rate", "u8")],
    }
}

fn motor() -> SensorInfo {
    SensorInfo {
        id: "left".to_string(),
        display_name: "Left motor".to_string(),
        command_mode: CommandMode::Stream { interval_ms: 100 },
        data_port: 5002,
        command_port: 5003,
        data_schema: vec![FieldDescriptor::new("rpm", "Speed", "f64")],
        command_schema: vec![
            FieldDescriptor::new("target_rpm", "Speed", "f64"),
            FieldDescriptor::new("enable", "On", "bool"),
        ],
    }
}

#[test]
fn classify_knows_the_types() {
    for name in ["f64", "f32"] {
        assert_eq!(classify(name), FieldKind::Float);
    }
    for name in ["u8", "u16", "u32", "u64", "i8", "i16", "i32", "i64"] {
        assert_eq!(classify(name), FieldKind::Integer);
    }
    assert_eq!(classify("bool"), FieldKind::Boolean);
    for name in ["String", "str"] {
        assert_eq!(classify(name), FieldKind::Text);
    }
    for name in ["", "usize", "F64", "string", "Vec<u8>"] {
        assert_eq!(classify(name), FieldKind::Unknown);
    }
}

#[test]
fn example_payload_has_a_value_of_each_type() {
    let fields = vec![
        FieldDescriptor::new("a", "", "f32"),
        FieldDescriptor::new("b", "", "i64"),
        FieldDescriptor::new("c", "", "bool"),
        FieldDescriptor::new("d", "", "str"),
        FieldDescriptor::new("e", "", "Pose"),
    ];
    let payload = build_example_payload(&fields);
    assert_eq!(payload, parse(r#"{"a": 0.0, "b": 0, "c": false, "d": "", "e": null}"#));
    assert!(payload["a"].is_f64());
    assert!(payload["b"].is_u64());
    assert_eq!(build_example_payload(&[]), parse("{}"));
}

#[test]
fn last_field_of_a_name_gives_the_example_and_the_schema() {
    let fields = vec![
        FieldDescriptor::new("x", "", "bool"),
        FieldDescriptor::new("x", "", "u8"),
    ];
    assert_eq!(build_example_payload(&fields), parse(r#"{"x": 0}"#));
    assert_eq!(
        serde_json::to_value(build_data_schema(&fields)).unwrap(),
        parse(r#"{"type": "object", "properties": {"x": {"type": "integer"}}}"#)
    );
}

#[test]
fn type_to_schema_gives_the_json_type() {
    for (name, expected) in [
        ("f64", r#"{"type": "number"}"#),
        ("u16", r#"{"type": "integer"}"#),
        ("bool", r#"{"type": "boolean"}"#),
        ("String", r#"{"type": "string"}"#),
        ("Pose", r#"{"type": "object"}"#),
    ] {
        assert_eq!(serde_json::to_value(type_to_schema(name)).unwrap(), parse(expected));
    }
}

#[test]
fn command_schema_has_each_field() {
    assert_eq!(
        serde_json::to_value(build_command_schema(&motor().command_schema)).unwrap(),
        parse(
            r#"{"type": "object", "properties":
                {"target_rpm": {"type": "number"}, "enable": {"type": "boolean"}}}"#
        )
    );
}

#[test]
fn rest_sensor_takes_one_command_packet() {
    let info = build_protocol_info(&gps(), 1);
    assert_eq!(
        info.header_format,
        "| version (1B) | msg_type (1B) | seq_num (2B LE) | payload (JSON) |"
    );
    let command = &info.command_protocol;
    assert_eq!(command.description, "Send commands to UDP port 5001. Mode: Rest.");
    assert_eq!(command.flow, "Client --Command(0x10)--> Robot --CommandAck(0x11)--> Client");
    assert_eq!(command.packets.len(), 1);
    assert_eq!(command.packets[0].name, "Command");
    assert_eq!(command.packets[0].description, "Send a one-shot command");
    assert_eq!(command.packets[0].header_hex, "01 10 01 00 + JSON");
    assert_eq!(
        command.packets[0].payload_example,
        Some(parse(r#"{"set_update_rate_hz": 0}"#))
    );
}

#[test]
fn stream_sensor_takes_start_and_stop_packets() {
    let info = build_protocol_info(&motor(), 1);
    let command = info.command_protocol;
    assert_eq!(
        command.description,
        "Send commands to UDP port 5003. Mode: Stream { interval_ms: 100 }."
    );
    assert_eq!(
        command.flow,
        "Client --StreamStart(0x12)--> Robot --StreamAck(0x14)--> Client (robot re-sends to HW every 100ms) | Client --StreamStop(0x13)--> Robot --StreamAck(0x14)--> Client"
    );
    assert_eq!(command.packets.len(), 3);
    let payload = Some(parse(r#"{"target_rpm": 0.0, "enable": false}"#));
    assert_eq!(command.packets[0].payload_example, payload);
    let start = &command.packets[1];
    assert_eq!(start.name, "StreamStart");
    assert_eq!(start.description, "Begin streaming command every 100ms (watchdog keepalive)");
    assert_eq!(start.header_hex, "01 12 01 00 + JSON");
    assert_eq!(start.payload_example, payload);
    let stop = &command.packets[2];
    assert_eq!(stop.name, "StreamStop");
    assert_eq!(stop.description, "Stop the active command stream");
    assert_eq!(stop.header_hex, "01 13 01 00");
    assert_eq!(stop.payload_example, None);
}

#[test]
fn subscription_is_described() {
    let data = build_protocol_info(&gps(), 0x2F).data_subscription;
    assert_eq!(
        data.description,
        "Send Subscribe to UDP port 5000 and the robot will push sensor data to your address."
    );
    assert_eq!(
        data.flow,
        "Client --Subscribe(0x01)--> Robot --SubscribeAck(0x04)--> Client, then Robot --Data(0x03)--> Client (continuously)"
    );
    assert_eq!(data.subscribe_packet.name, "Subscribe");
    assert_eq!(data.subscribe_packet.header_hex, "2F 01 01 00");
    assert_eq!(
        data.subscribe_packet.description,
        "Subscribe to data pushes. Optional payload: {\"interval_ms\": 100}"
    );
    assert_eq!(data.subscribe_packet.payload_example, Some(parse(r#"{"interval_ms": 100}"#)));
    assert_eq!(data.unsubscribe_packet.name, "Unsubscribe");
    assert_eq!(data.unsubscribe_packet.description, "Stop receiving data pushes");
    assert_eq!(data.unsubscribe_packet.header_hex, "2F 02 01 00");
    assert_eq!(data.unsubscribe_packet.payload_example, None);
    assert_eq!(data.data_push_packet.name, "Data");
    assert_eq!(data.data_push_packet.description, "Pushed by robot to subscriber");
    assert_eq!(data.data_push_packet.header_hex, "2F 03 XX XX + JSON");
    assert_eq!(
        data.data_push_packet.payload_example,
        Some(parse(r#"{"latitude": 0.0, "satellites": 0}"#))
    );
}

#[test]
fn discover_lists_every_sensor_in_order() {
    let response = discover(&vec![gps(), motor()]);
    assert_eq!(response.sensors.len(), 2);
    let first = &response.sensors[0];
    assert_eq!(first.id, "gps");
    assert_eq!(first.display_name, "GNSS Receiver");
    assert_eq!(first.command_mode, CommandMode::Rest);
    assert_eq!((first.data_port, first.command_port), (5000, 5001));
    assert_eq!(first.endpoints.info, "/gps/info");
    assert_eq!(first.endpoints.data, "/gps/data");
    assert_eq!(first.endpoints.command, "/gps/command");
    assert_eq!(response.sensors[1].endpoints.command, "/left/command");
    assert!(discover(&Vec::new()).sensors.is_empty());
}

#[test]
fn sensor_info_repeats_the_sensor() {
    let response = sensor_info(&motor(), 1);
    assert_eq!(response.id, "left");
    assert_eq!(response.display_name, "Left motor");
    assert_eq!(response.command_mode, CommandMode::Stream { interval_ms: 100 });
    assert_eq!((response.data_port, response.command_port), (5002, 5003));
    assert_eq!(response.data_schema.len(), 1);
    assert_eq!(response.data_schema[0].name, "rpm");
    assert_eq!(response.command_schema.len(), 2);
    assert_eq!(response.udp_protocol.command_protocol.packets.len(), 3);
}

/// A driver that answers a read with its data and a command with the payload, or fails.
struct Fixed {
    data: Option<Value>,
}

impl SensorDriver for Fixed {
    fn id(&self) -> &'static str {
        "fixed"
    }

    fn display_name(&self) -> &'static str {
        "Fixed"
    }

    fn data_schema(&self) -> Vec<FieldDescriptor> {
        Vec::new()
    }

    fn command_schema(&self) -> Vec<FieldDescriptor> {
        Vec::new()
    }

    fn command_mode(&self) -> CommandMode {
        CommandMode::Rest
    }

    fn read_data(&self) -> Result<Value, DriverError> {
        match &self.data {
            Some(data) => Ok(data.clone()),
            None => Err(DriverError { message: "no fix".to_string() }),
        }
    }

    fn execute_command(&self, payload: &Value) -> Result<Value, DriverError> {
        match &self.data {
            Some(_) => Ok(payload.clone()),
            None => Err(DriverError { message: "no link".to_string() }),
        }
    }
}

#[test]
fn working_driver_is_answered_with_its_value() {
    let driver = Fixed { data: Some(Value::from(7)) };
    assert_eq!(sensor_data(&driver).ok(), Some(Value::from(7)));
    let answer = sensor_command(&driver, &Value::from("up")).ok().unwrap();
    assert_eq!(answer.status, "ok");
    assert_eq!(answer.result, Value::from("up"));
}

#[test]
fn failing_driver_is_answered_with_status_500() {
    let driver: Box<dyn SensorDriver> = Box::new(Fixed { data: None });
    let (status, body) = sensor_data(&*driver).err().unwrap();
    assert_eq!((status, body.error.as_str()), (500, "no fix"));
    let (status, body) = sensor_command(&*driver, &Value::Null).err().unwrap();
    assert_eq!((status, body.error.as_str()), (500, "no link"));
}

#[test]
fn replies_follow_the_outcome() {
    assert_eq!(data_reply(Ok(Value::Bool(true))).ok(), Some(Value::Bool(true)));
    let failed = || Err(DriverError { message: "x".to_string() });
    assert_eq!(data_reply(failed()).err().unwrap().1.error, "x");
    assert_eq!(command_reply(failed()).err().unwrap().0, 500);
    assert_eq!(command_reply(Ok(Value::Null)).ok().unwrap().result, Value::Null);
}

#[test]
fn scalar_page_loads_the_document() {
    let page = serve_scalar();
    assert!(page.starts_with("<!DOCTYPE html>\n<html>\n<head>\n    <title>Capra Rove"));
    assert!(page.contains(r#"<script id="api-reference" data-url="/openapi.json"></script>"#));
    assert!(page.ends_with("</body>\n</html>"));
}

#[test]
fn router_serves_what_discover_lists() {
    let sensors = vec![gps(), motor()];
    let plan = build_router(&sensors);
    let top: Vec<(String, Method, Handler)> =
        plan.routes.into_iter().map(|r| (r.path, r.method, r.handler)).collect();
    assert_eq!(
        top,
        vec![
            ("/discover".to_string(), Method::Get, Handler::Discover),
            ("/docs".to_string(), Method::Get, Handler::Docs),
            ("/openapi.json".to_string(), Method::Get, Handler::OpenApi),
        ]
    );
    let listed = discover(&sensors).sensors;
    assert_eq!(plan.mounts.len(), listed.len());
    for (place, (mount, summary)) in plan.mounts.iter().zip(&listed).enumerate() {
        assert_eq!(mount.sensor, place);
        let served: Vec<(String, Method, Handler)> = mount
            .routes
            .iter()
            .map(|r| (format!("{}{}", mount.prefix, r.path), r.method, r.handler))
            .collect();
        assert_eq!(
            served,
            vec![
                (summary.endpoints.info.clone(), Method::Get, Handler::Info),
                (summary.endpoints.data.clone(), Method::Get, Handler::Data),
                (summary.endpoints.command.clone(), Method::Post, Handler::Command),
            ]
        );
    }
}

fn base() -> OpenApi {
    let mut doc = OpenApi::new(Info::new("Rove", "0.1.0"), Paths::new());
    doc.tags = Some(vec![TagBuilder::new().name("discovery").build()]);
    doc
}

#[test]
fn document_describes_the_list_of_sensors() {
    let doc = serde_json::to_value(build_openapi(base(), &Vec::new())).unwrap();
    assert_eq!(doc["info"]["title"], "Rove");
    assert_eq!(doc["tags"], parse(r#"[{"name": "discovery"}]"#));
    assert_eq!(
        doc["paths"],
        parse(
            r##"{"/discover": {"get": {
                "tags": ["discovery"],
                "summary": "List all available sensors",
                "description": "Returns every registered sensor with its ID, name, UDP ports, command mode, and HTTP endpoint paths.",
                "responses": {"200": {
                    "description": "List of sensors",
                    "content": {"application/json": {
                        "schema": {"$ref": "#/components/schemas/DiscoverResponse"}}}}}}}}"##
        )
    );
}

#[test]
fn document_describes_the_routes_of_a_sensor() {
    let doc = serde_json::to_value(build_openapi(base(), &vec![motor()])).unwrap();
    assert_eq!(
        doc["tags"],
        parse(
            r#"[{"name": "discovery"}, {"name": "left",
                "description": "Left motor | Stream (100ms watchdog) | Data UDP:5002 | Cmd UDP:5003"}]"#
        )
    );
    assert_eq!(doc["paths"].as_object().unwrap().len(), 4);
    assert_eq!(
        doc["paths"]["/left/info"],
        parse(
            r##"{"get": {
                "tags": ["left"],
                "summary": "Left motor - Info",
                "description": "Full schema and UDP protocol details for **Left motor**.\n\nMode: Stream (100ms watchdog)\nData UDP port: 5002\nCommand UDP port: 5003",
                "responses": {"200": {
                    "description": "Sensor info with schemas and UDP protocol",
                    "content": {"application/json": {
                        "schema": {"$ref": "#/components/schemas/SensorInfoResponse"}}}}}}}"##
        )
    );
    assert_eq!(
        doc["paths"]["/left/data"],
        parse(
            r##"{"get": {
                "tags": ["left"],
                "summary": "Left motor - Read Data",
                "description": "Read current data from **Left motor**.\n\nThis mirrors what you'd get via UDP subscription on port 5002.",
                "responses": {"200": {
                    "description": "Current sensor data",
                    "content": {"application/json": {
                        "schema": {"type": "object", "properties": {"rpm": {"type": "number"}}}}}}}}}"##
        )
    );
    assert_eq!(
        doc["paths"]["/left/command"],
        parse(
            r##"{"post": {
                "tags": ["left"],
                "summary": "Left motor - Send Command",
                "description": "Send a command to **Left motor**.\n\nMode: Stream (100ms watchdog)\nUDP command port: 5003\n\nThe JSON body is the same payload used in UDP Command (0x10) packets.",
                "requestBody": {
                    "content": {"application/json": {
                        "schema": {"type": "object", "properties": {
                            "target_rpm": {"type": "number"}, "enable": {"type": "boolean"}}},
                        "example": {"target_rpm": 0.0, "enable": false}}},
                    "required": true},
                "responses": {"200": {
                    "description": "Command result",
                    "content": {"application/json": {
                        "schema": {"$ref": "#/components/schemas/CommandResult"}}}}}}}"##
        )
    );
}

#[test]
fn document_names_the_one_shot_mode() {
    let doc = serde_json::to_value(build_openapi(base(), &vec![gps()])).unwrap();
    assert_eq!(
        doc["tags"][1]["description"],
        "GNSS Receiver | REST (one-shot) | Data UDP:5000 | Cmd UDP:5001"
    );
}

#[test]
fn document_without_tags_gets_the_sensors_tags() {
    let mut start = base();
    start.tags = None;
    let doc = build_openapi(start, &vec![gps(), motor()]);
    let names: Vec<String> = doc.tags.unwrap().into_iter().map(|tag| tag.name).collect();
    assert_eq!(names, vec!["gps", "left"]);
}

#[test]
fn first_sensor_of_an_id_is_documented() {
    let mut other = gps();
    other.display_name = "Other".to_string();
    let doc = serde_json::to_value(build_openapi(base(), &vec![gps(), other])).unwrap();
    assert_eq!(doc["paths"]["/gps/info"]["get"]["summary"], "GNSS Receiver - Info");
    assert_eq!(doc["paths"]["/gps/command"]["post"]["summary"], "GNSS Receiver - Send Command");
    assert_eq!(doc["tags"].as_array().unwrap().len(), 3);
}

#[test]
fn document_and_packets_show_the_same_example() {
    let doc = serde_json::to_value(build_openapi(base(), &vec![motor()])).unwrap();
    let example =
        &doc["paths"]["/left/command"]["post"]["requestBody"]["content"]["application/json"]["example"];
    let packets = build_protocol_info(&motor(), 1).command_protocol.packets;
    assert_eq!(Some(example), packets[0].payload_example.as_ref());
    assert_eq!(Some(example), packets[1].payload_example.as_ref());
}

fn collect_refs(value: &Value, refs: &mut Vec<String>) {
    match value {
        Value::Object(map) => {
            for (key, inner) in map {
                match inner {
                    Value::String(target) if key == "$ref" => refs.push(target.clone()),
                    _ => collect_refs(inner, refs),
                }
            }
        }
        Value::Array(items) => {
            for item in items {
                collect_refs(item, refs);
            }
        }
        _ => {}
    }
}

#[test]
fn document_refers_to_three_schemas_and_declares_its_tags() {
    let doc = serde_json::to_value(build_openapi(base(), &vec![gps(), motor()])).unwrap();
    let mut refs = Vec::new();
    collect_refs(&doc["paths"], &mut refs);
    refs.sort();
    refs.dedup();
    assert_eq!(
        refs,
        vec![
            "#/components/schemas/CommandResult",
            "#/components/schemas/DiscoverResponse",
            "#/components/schemas/SensorInfoResponse",
        ]
    );
    let declared: Vec<&str> =
        doc["tags"].as_array().unwrap().iter().map(|tag| tag["name"].as_str().unwrap()).collect();
    for item in doc["paths"].as_object().unwrap().values() {
        for operation in item.as_object().unwrap().values() {
            for tag in operation["tags"].as_array().unwrap() {
                assert!(declared.contains(&tag.as_str().unwrap()));
            }
        }
    }
}

#[test]
fn documented_routes_are_the_served_ones() {
    let sensors = vec![gps(), motor()];
    let doc = serde_json::to_value(build_openapi(base(), &sensors)).unwrap();
    let mut documented: Vec<(String, String)> = Vec::new();
    for (path, item) in doc["paths"].as_object().unwrap() {
        for method in item.as_object().unwrap().keys() {
            documented.push((path.clone(), method.clone()));
        }
    }
    let name = |method: Method| match method {
        Method::Get => "get".to_string(),
        Method::Post => "post".to_string(),
    };
    let plan = build_router(&sensors);
    let mut served: Vec<(String, String)> = vec![("/discover".to_string(), "get".to_string())];
    for mount in &plan.mounts {
        for route in &mount.routes {
            served.push((format!("{}{}", mount.prefix, route.path), name(route.method)));
        }
    }
    documented.sort();
    served.sort();
    assert_eq!(documented, served);
    served.dedup();
    assert_eq!(served.len(), 7);
}

#[test]
fn document_keeps_the_rest_of_the_base() {
    let mut start = base();
    let widget = ObjectBuilder::new().property("size", type_to_schema("u8")).required("size");
    start.components = Some(ComponentsBuilder::new().schema("Widget", widget.build()).build());
    start.info.description = Some("About".to_string());
    start.servers = Some(vec![Server::new("/v1")]);
    let before = serde_json::to_value(start.clone()).unwrap();
    let doc = serde_json::to_value(build_openapi(start, &vec![gps()])).unwrap();
    let names: Vec<&String> = doc.as_object().unwrap().keys().collect();
    assert_eq!(names, before.as_object().unwrap().keys().collect::<Vec<&String>>());
    for name in ["openapi", "info", "servers", "components"] {
        assert_eq!(doc[name], before[name]);
    }
    assert_eq!(doc["components"]["schemas"]["Widget"]["required"], parse(r#"["size"]"#));
}

#[test]
fn each_documented_path_has_one_operation() {
    let doc = serde_json::to_value(build_openapi(base(), &vec![gps(), motor(), gps()])).unwrap();
    for (path, item) in doc["paths"].as_object().unwrap() {
        let operations = item.as_object().unwrap();
        assert_eq!(operations.len(), 1);
        let (method, operation) = operations.iter().next().unwrap();
        assert_eq!(method == "post", path.ends_with("/command"));
        assert_eq!(operation.get("requestBody").is_some(), method == "post");
        assert!(operation.get("parameters").is_none());
        let codes: Vec<&String> = operation["responses"].as_object().unwrap().keys().collect();
        assert_eq!(codes, vec!["200"]);
    }
}

#[test]
fn no_field_is_required() {
    let schema = serde_json::to_value(build_data_schema(&gps().data_schema)).unwrap();
    assert!(schema.get("required").is_none());
    let schema = serde_json::to_value(build_command_schema(&motor().command_schema)).unwrap();
    assert!(schema.get("required").is_none());
}

#[test]
fn later_sensor_is_listed_but_has_no_route() {
    let sensors = vec![gps()];
    let plan = build_router(&sensors);
    let doc = serde_json::to_value(build_openapi(base(), &sensors)).unwrap();
    let listed = discover(&vec![gps(), motor()]).sensors;
    assert_eq!(listed[1].id, "left");
    assert!(plan.mounts.iter().all(|mount| mount.prefix != "/left"));
    assert!(doc["paths"].get(&listed[1].endpoints.info).is_none());
    assert!(doc["paths"].get(&listed[0].endpoints.info).is_some());
}
