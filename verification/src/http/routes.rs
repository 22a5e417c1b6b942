//! The routes of the HTTP side and what they answer.
use crate::apidoc::Method;
use crate::driver::{copy_fields, field_models, DriverError, SensorDriver};
use crate::http::protocol::{build_protocol_info, protocol_info};
use crate::http::responses::{
    CommandResult, DiscoverResponse, EndpointsModel, ErrorResponse, InfoModel, SensorEndpoints,
    SensorInfoResponse, SensorSummary, SummaryModel,
};
use crate::registry::{ids_are_unique, sensor_models, SensorInfo, SensorModel};
use crate::text::{join, join3};
use serde_json::Value;
use vstd::prelude::*;

verus! {

/// What answers a route.
#[derive(Debug, Clone, Copy, PartialEq, Eq, Structural)]
pub enum Handler {
    /// The list of sensors.
    Discover,
    /// The description of one sensor.
    Info,
    /// The current data of one sensor.
    Data,
    /// A command to one sensor.
    Command,
    /// The page that shows the documentation.
    Docs,
    /// The OpenAPI document.
    OpenApi,
}

/// What a route is.
pub struct RouteModel {
    pub path: Seq<char>,
    pub method: Method,
    pub handler: Handler,
}

/// A path, the method it is asked with, and what answers it.
#[derive(Debug)]
pub struct Route {
    pub path: String,
    pub method: Method,
    pub handler: Handler,
}

impl View for Route {
    type V = RouteModel;

    open spec fn view(&self) -> RouteModel {
        RouteModel { path: self.path@, method: self.method, handler: self.handler }
    }
}

/// The models of some routes, in order.
pub open spec fn route_models(routes: Seq<Route>) -> Seq<RouteModel> {
    routes.map_values(|route: Route| route@)
}

/// What the routes under a sensor's prefix are.
pub struct MountModel {
    pub prefix: Seq<char>,
    pub sensor: int,
    pub routes: Seq<RouteModel>,
}

/// The routes of one sensor, under its prefix.
#[derive(Debug)]
pub struct Mount {
    pub prefix: String,
    /// Where the sensor stands in the list of sensors.
    pub sensor: usize,
    pub routes: Vec<Route>,
}

impl View for Mount {
    type V = MountModel;

    open spec fn view(&self) -> MountModel {
        MountModel {
            prefix: self.prefix@,
            sensor: self.sensor as int,
            routes: route_models(self.routes@),
        }
    }
}

/// What a router has to serve.
pub struct PlanModel {
    pub routes: Seq<RouteModel>,
    pub mounts: Seq<MountModel>,
}

/// Everything that the HTTP server answers.
#[derive(Debug)]
pub struct RoutePlan {
    /// The routes that belong to no sensor.
    pub routes: Vec<Route>,
    /// The routes of each sensor.
    pub mounts: Vec<Mount>,
}

impl View for RoutePlan {
    type V = PlanModel;

    open spec fn view(&self) -> PlanModel {
        PlanModel {
            routes: route_models(self.routes@),
            mounts: self.mounts@.map_values(|mount: Mount| mount@),
        }
    }
}

/// What a handler's path ends in: the last part for a sensor's route, else all of it.
pub open spec fn handler_path(handler: Handler) -> Seq<char> {
    match handler {
        Handler::Discover => "/discover"@,
        Handler::Info => "/info"@,
        Handler::Data => "/data"@,
        Handler::Command => "/command"@,
        Handler::Docs => "/docs"@,
        Handler::OpenApi => "/openapi.json"@,
    }
}

/// The method that a handler is asked with: only a command is posted.
pub open spec fn handler_method(handler: Handler) -> Method {
    match handler {
        Handler::Command => Method::Post,
        _ => Method::Get,
    }
}

/// Whether a handler speaks for one sensor.
pub open spec fn is_per_sensor(handler: Handler) -> bool {
    handler is Info || handler is Data || handler is Command
}

/// The route of a handler, without a prefix.
pub open spec fn handler_route(handler: Handler) -> RouteModel {
    RouteModel { path: handler_path(handler), method: handler_method(handler), handler }
}

/// Where the routes of a sensor hang.
pub open spec fn sensor_prefix(id: Seq<char>) -> Seq<char> {
    "/"@ + id
}

/// The path of a sensor's route.
pub open spec fn sensor_path(id: Seq<char>, handler: Handler) -> Seq<char> {
    sensor_prefix(id) + handler_path(handler)
}

/// The routes of one sensor.
pub open spec fn sensor_mount(id: Seq<char>, sensor: int) -> MountModel {
    MountModel {
        prefix: sensor_prefix(id),
        sensor,
        routes: seq![
            handler_route(Handler::Info),
            handler_route(Handler::Data),
            handler_route(Handler::Command),
        ],
    }
}

/// Everything that is served for these sensors.
pub open spec fn route_plan(sensors: Seq<SensorModel>) -> PlanModel {
    PlanModel {
        routes: seq![
            handler_route(Handler::Discover),
            handler_route(Handler::Docs),
            handler_route(Handler::OpenApi),
        ],
        mounts: Seq::new(sensors.len(), |i: int| sensor_mount(sensors[i].id, i)),
    }
}

fn route_for(handler: Handler) -> (route: Route)
    ensures
        route@ == handler_route(handler),
{
    let path = match handler {
        Handler::Discover => "/discover",
        Handler::Info => "/info",
        Handler::Data => "/data",
        Handler::Command => "/command",
        Handler::Docs => "/docs",
        Handler::OpenApi => "/openapi.json",
    };
    let method = match handler {
        Handler::Command => Method::Post,
        _ => Method::Get,
    };
    Route { path: path.to_owned(), method, handler }
}

/// The routes for these sensors: `/{sensor_id}/info`, `/{sensor_id}/data` and
/// `/{sensor_id}/command` for each, the list of sensors, and the documentation.
pub fn build_router(sensors: &Vec<SensorInfo>) -> (plan: RoutePlan)
    ensures
        plan@ == route_plan(sensor_models(sensors@)),
        plan.routes@.len() == 3,
        plan.mounts@.len() == sensors@.len(),
        forall|i: int|
            0 <= i < sensors@.len() ==> {
                &&& (#[trigger] plan.mounts@[i]).prefix@ == "/"@ + sensors@[i].id@
                &&& plan.mounts@[i].sensor == i
                &&& plan.mounts@[i].routes@.len() == 3
            },
{
    let mut routes: Vec<Route> = Vec::new();
    routes.push(route_for(Handler::Discover));
    routes.push(route_for(Handler::Docs));
    routes.push(route_for(Handler::OpenApi));

    let ghost models = sensor_models(sensors@);
    let mut mounts: Vec<Mount> = Vec::new();
    let mut i: usize = 0;
    while i < sensors.len()
        invariant
            i <= sensors.len(),
            models == sensor_models(sensors@),
            mounts.len() == i,
            forall|j: int| 0 <= j < i ==> #[trigger] mounts@[j]@ == sensor_mount(models[j].id, j),
            forall|j: int|
                0 <= j < i ==> {
                    &&& (#[trigger] mounts@[j]).prefix@ == "/"@ + sensors@[j].id@
                    &&& mounts@[j].sensor == j
                    &&& mounts@[j].routes@.len() == 3
                },
        decreases sensors.len() - i,
    {
        let mut under: Vec<Route> = Vec::new();
        under.push(route_for(Handler::Info));
        under.push(route_for(Handler::Data));
        under.push(route_for(Handler::Command));
        let mount = Mount {
            prefix: join("/", sensors[i].id.as_str()),
            sensor: i,
            routes: under,
        };
        assert(mount@.routes =~= sensor_mount(models[i as int].id, i as int).routes);
        mounts.push(mount);
        i += 1;
    }
    let plan = RoutePlan { routes, mounts };
    assert(plan@.routes =~= route_plan(models).routes);
    assert(plan@.mounts =~= route_plan(models).mounts);
    plan
}

/// Whether the plan answers a request, and with what: for a sensor's handler,
/// `sensor` is the sensor's place in the list.
pub open spec fn serves(
    plan: PlanModel,
    method: Method,
    path: Seq<char>,
    handler: Handler,
    sensor: Option<int>,
) -> bool {
    match sensor {
        None => exists|i: int|
            {
                &&& 0 <= i < plan.routes.len()
                &&& #[trigger] plan.routes[i] == (RouteModel { path, method, handler })
            },
        Some(place) => exists|i: int, j: int|
            {
                &&& 0 <= i < plan.mounts.len()
                &&& plan.mounts[i].sensor == place
                &&& 0 <= j < plan.mounts[i].routes.len()
                &&& path == plan.mounts[i].prefix + (#[trigger] plan.mounts[i].routes[j]).path
                &&& plan.mounts[i].routes[j].method == method
                &&& plan.mounts[i].routes[j].handler == handler
            },
    }
}

/// The paths of a sensor's routes.
pub open spec fn sensor_endpoints(id: Seq<char>) -> EndpointsModel {
    EndpointsModel {
        info: sensor_path(id, Handler::Info),
        data: sensor_path(id, Handler::Data),
        command: sensor_path(id, Handler::Command),
    }
}

/// The summary of a sensor.
pub open spec fn sensor_summary(sensor: SensorModel) -> SummaryModel {
    SummaryModel {
        id: sensor.id,
        display_name: sensor.display_name,
        command_mode: sensor.command_mode,
        data_port: sensor.data_port,
        command_port: sensor.command_port,
        endpoints: sensor_endpoints(sensor.id),
    }
}

/// The summaries of some sensors, in order.
pub open spec fn discovered(sensors: Seq<SensorModel>) -> Seq<SummaryModel> {
    sensors.map_values(|sensor: SensorModel| sensor_summary(sensor))
}

/// Lists every registered sensor with its ports, its command mode and its paths.
pub fn discover(sensors: &Vec<SensorInfo>) -> (response: DiscoverResponse)
    ensures
        response@ == discovered(sensor_models(sensors@)),
        response.sensors@.len() == sensors@.len(),
        forall|i: int|
            0 <= i < sensors@.len() ==> {
                &&& (#[trigger] response.sensors@[i]).id@ == sensors@[i].id@
                &&& response.sensors@[i].display_name@ == sensors@[i].display_name@
                &&& response.sensors@[i].command_mode == sensors@[i].command_mode
                &&& response.sensors@[i].data_port == sensors@[i].data_port
                &&& response.sensors@[i].command_port == sensors@[i].command_port
            },
{
    let mut summaries: Vec<SensorSummary> = Vec::new();
    let mut i: usize = 0;
    while i < sensors.len()
        invariant
            i <= sensors.len(),
            summaries.len() == i,
            forall|j: int|
                0 <= j < i ==> #[trigger] summaries@[j]@ == sensor_summary(sensors@[j]@),
            forall|j: int|
                0 <= j < i ==> {
                    &&& (#[trigger] summaries@[j]).id@ == sensors@[j].id@
                    &&& summaries@[j].display_name@ == sensors@[j].display_name@
                    &&& summaries@[j].command_mode == sensors@[j].command_mode
                    &&& summaries@[j].data_port == sensors@[j].data_port
                    &&& summaries@[j].command_port == sensors@[j].command_port
                },
        decreases sensors.len() - i,
    {
        let sensor = &sensors[i];
        let endpoints = SensorEndpoints {
            info: join3("/", sensor.id.as_str(), "/info"),
            data: join3("/", sensor.id.as_str(), "/data"),
            command: join3("/", sensor.id.as_str(), "/command"),
        };
        summaries.push(
            SensorSummary {
                id: sensor.id.clone(),
                display_name: sensor.display_name.clone(),
                command_mode: sensor.command_mode,
                data_port: sensor.data_port,
                command_port: sensor.command_port,
                endpoints,
            },
        );
        i += 1;
    }
    let response = DiscoverResponse { sensors: summaries };
    assert(response@ =~= discovered(sensor_models(sensors@)));
    response
}

/// The description of a sensor.
pub open spec fn info_response(sensor: SensorModel, version: u8) -> InfoModel {
    InfoModel {
        id: sensor.id,
        display_name: sensor.display_name,
        command_mode: sensor.command_mode,
        data_port: sensor.data_port,
        command_port: sensor.command_port,
        data_schema: sensor.data_schema,
        command_schema: sensor.command_schema,
        udp_protocol: protocol_info(sensor, version),
    }
}

/// Describes one sensor: its schemas and its UDP protocol of the given version.
pub fn sensor_info(info: &SensorInfo, version: u8) -> (response: SensorInfoResponse)
    ensures
        response@ == info_response(info@, version),
        response.id@ == info.id@,
        response.display_name@ == info.display_name@,
        response.command_mode == info.command_mode,
        response.data_port == info.data_port,
        response.command_port == info.command_port,
        field_models(response.data_schema@) == field_models(info.data_schema@),
        field_models(response.command_schema@) == field_models(info.command_schema@),
{
    SensorInfoResponse {
        id: info.id.clone(),
        display_name: info.display_name.clone(),
        command_mode: info.command_mode,
        data_port: info.data_port,
        command_port: info.command_port,
        data_schema: copy_fields(&info.data_schema),
        command_schema: copy_fields(&info.command_schema),
        udp_protocol: build_protocol_info(info, version),
    }
}

/// The status of a request that a driver could not answer.
pub const INTERNAL_SERVER_ERROR: u16 = 500;

/// Whether `refusal` tells a client that a driver failed with `error`.
pub open spec fn reports(refusal: (u16, ErrorResponse), error: DriverError) -> bool {
    &&& refusal.0 == INTERNAL_SERVER_ERROR
    &&& refusal.1.error@ == error.message@
}

fn refuse(error: DriverError) -> (refusal: (u16, ErrorResponse))
    ensures
        reports(refusal, error),
{
    (INTERNAL_SERVER_ERROR, ErrorResponse { error: error.to_message() })
}

/// Whether `reply` answers a read that ended in `outcome`.
pub open spec fn answers_read(
    reply: Result<Value, (u16, ErrorResponse)>,
    outcome: Result<Value, DriverError>,
) -> bool {
    match outcome {
        Ok(data) => reply == Ok::<Value, (u16, ErrorResponse)>(data),
        Err(error) => reply matches Err(refusal) && reports(refusal, error),
    }
}

/// Whether `reply` answers a command that ended in `outcome`.
pub open spec fn answers_command(
    reply: Result<CommandResult, (u16, ErrorResponse)>,
    outcome: Result<Value, DriverError>,
) -> bool {
    match outcome {
        Ok(result) => reply matches Ok(answer) && answer.status@ == "ok"@ && answer.result
            == result,
        Err(error) => reply matches Err(refusal) && reports(refusal, error),
    }
}

/// Answers a read: the data that came, or the driver's error under status 500.
pub fn data_reply(outcome: Result<Value, DriverError>) -> (reply: Result<
    Value,
    (u16, ErrorResponse),
>)
    ensures
        answers_read(reply, outcome),
        outcome matches Ok(data) ==> reply == Ok::<Value, (u16, ErrorResponse)>(data),
        outcome matches Err(error) ==> (reply matches Err(refusal) && refusal.0 == 500
            && refusal.1.error@ == error.message@),
{
    match outcome {
        Ok(data) => Ok(data),
        Err(error) => Err(refuse(error)),
    }
}

/// Answers a command: what the driver returned, or its error under status 500.
pub fn command_reply(outcome: Result<Value, DriverError>) -> (reply: Result<
    CommandResult,
    (u16, ErrorResponse),
>)
    ensures
        answers_command(reply, outcome),
        outcome matches Ok(result) ==> (reply matches Ok(answer) && answer.result == result),
        outcome matches Err(error) ==> (reply matches Err(refusal) && refusal.0 == 500
            && refusal.1.error@ == error.message@),
{
    match outcome {
        Ok(result) => Ok(CommandResult { status: "ok".to_owned(), result }),
        Err(error) => Err(refuse(error)),
    }
}

/// Reads a sensor's data once and answers with what came.
pub fn sensor_data<D: SensorDriver + ?Sized>(driver: &D) -> (reply: Result<
    Value,
    (u16, ErrorResponse),
>)
    ensures
        exists|outcome: Result<Value, DriverError>| #[trigger]
            call_ensures(D::read_data, (driver,), outcome) && answers_read(reply, outcome),
{
    let outcome = driver.read_data();
    let ghost came = outcome;
    let reply = data_reply(outcome);
    assert(call_ensures(D::read_data, (driver,), came) && answers_read(reply, came));
    reply
}

/// Hands the payload to a sensor's driver once and answers with what came.
pub fn sensor_command<D: SensorDriver + ?Sized>(driver: &D, payload: &Value) -> (reply: Result<
    CommandResult,
    (u16, ErrorResponse),
>)
    ensures
        exists|outcome: Result<Value, DriverError>| #[trigger]
            call_ensures(D::execute_command, (driver, payload), outcome) && answers_command(
                reply,
                outcome,
            ),
{
    let outcome = driver.execute_command(payload);
    let ghost came = outcome;
    let reply = command_reply(outcome);
    assert(call_ensures(D::execute_command, (driver, payload), came) && answers_command(
        reply,
        came,
    ));
    reply
}

/// The page that shows the documentation.
pub open spec fn scalar_page() -> Seq<char> {
    r#"<!DOCTYPE html>
<html>
<head>
    <title>Capra Rove - Sensor Interface</title>
    <meta charset="utf-8" />
    <meta name="viewport" content="width=device-width, initial-scale=1" />
</head>
<body>
    <script id="api-reference" data-url="/openapi.json"></script>
    <script src="https://cdn.jsdelivr.net/npm/@scalar/api-reference"></script>
</body>
</html>"#@
}

/// The page that shows the documentation, which it loads from `/openapi.json`.
pub fn serve_scalar() -> (page: String)
    ensures
        page@ == scalar_page(),
{
    r#"<!DOCTYPE html>
<html>
<head>
    <title>Capra Rove - Sensor Interface</title>
    <meta charset="utf-8" />
    <meta name="viewport" content="width=device-width, initial-scale=1" />
</head>
<body>
    <script id="api-reference" data-url="/openapi.json"></script>
    <script src="https://cdn.jsdelivr.net/npm/@scalar/api-reference"></script>
</body>
</html>"#.to_owned()
}

/// Whether `part` stands in `text` from `start` on.
pub open spec fn stands_at(text: Seq<char>, part: Seq<char>, start: int) -> bool {
    &&& 0 <= start
    &&& start + part.len() <= text.len()
    &&& text.subrange(start, start + part.len()) == part
}

/// Whether `part` stands somewhere in `text`.
pub open spec fn has_part(text: Seq<char>, part: Seq<char>) -> bool {
    exists|start: int| #[trigger] stands_at(text, part, start)
}

/// The page loads the document from the path at which the document is served, and shows it
/// with the script of Scalar.
pub proof fn page_loads_the_served_document()
    ensures
        has_part(
            scalar_page(),
            r#"<script id="api-reference" data-url=""#@ + handler_path(Handler::OpenApi) + r#""></script>"#@,
        ),
        has_part(scalar_page(), r#"<title>Capra Rove - Sensor Interface</title>"#@),
        has_part(scalar_page(), r#"<meta charset="utf-8" />"#@),
        has_part(scalar_page(), r#"<meta name="viewport" content="width=device-width, initial-scale=1" />"#@),
        has_part(scalar_page(), r#"<script src="https://cdn.jsdelivr.net/npm/@scalar/api-reference"></script>"#@),
{
    reveal_strlit(
        r#"<!DOCTYPE html>
<html>
<head>
    <title>Capra Rove - Sensor Interface</title>
    <meta charset="utf-8" />
    <meta name="viewport" content="width=device-width, initial-scale=1" />
</head>
<body>
    <script id="api-reference" data-url="/openapi.json"></script>
    <script src="https://cdn.jsdelivr.net/npm/@scalar/api-reference"></script>
</body>
</html>"#,
    );
    reveal_strlit("/openapi.json");
    reveal_strlit(r#"<title>Capra Rove - Sensor Interface</title>"#);
    reveal_strlit(r#"<meta charset="utf-8" />"#);
    reveal_strlit(r#"<meta name="viewport" content="width=device-width, initial-scale=1" />"#);
    reveal_strlit(r#"<script src="https://cdn.jsdelivr.net/npm/@scalar/api-reference"></script>"#);
    reveal_strlit(r#"<script id="api-reference" data-url=""#);
    reveal_strlit(r#""></script>"#);
    let link = r#"<script id="api-reference" data-url=""#@ + handler_path(Handler::OpenApi) + r#""></script>"#@;
    assert(scalar_page().subrange(34, 78) =~= r#"<title>Capra Rove - Sensor Interface</title>"#@);
    assert(stands_at(scalar_page(), r#"<title>Capra Rove - Sensor Interface</title>"#@, 34));
    assert(scalar_page().subrange(83, 107) =~= r#"<meta charset="utf-8" />"#@);
    assert(stands_at(scalar_page(), r#"<meta charset="utf-8" />"#@, 83));
    assert(scalar_page().subrange(112, 182) =~= r#"<meta name="viewport" content="width=device-width, initial-scale=1" />"#@);
    assert(stands_at(scalar_page(), r#"<meta name="viewport" content="width=device-width, initial-scale=1" />"#@, 112));
    assert(scalar_page().subrange(268, 342) =~= r#"<script src="https://cdn.jsdelivr.net/npm/@scalar/api-reference"></script>"#@);
    assert(stands_at(scalar_page(), r#"<script src="https://cdn.jsdelivr.net/npm/@scalar/api-reference"></script>"#@, 268));
    assert(scalar_page().subrange(202, 263) =~= link);
    assert(stands_at(scalar_page(), link, 202));
}

/// An answer to a read tells how the read ended: data is handed on as it came, and a
/// failure is told under status 500 in the driver's own words.
pub proof fn read_reply_tells_the_outcome(
    reply: Result<Value, (u16, ErrorResponse)>,
    outcome: Result<Value, DriverError>,
)
    requires
        answers_read(reply, outcome),
    ensures
        reply is Ok <==> outcome is Ok,
        outcome matches Ok(data) ==> reply == Ok::<Value, (u16, ErrorResponse)>(data),
        outcome matches Err(error) ==> (reply matches Err(refusal) && refusal.0 == 500
            && refusal.1.error@ == error.message@),
{
}

/// An answer to a command tells how the command ended: what the driver returned is handed
/// on under the status `ok`, and a failure is told under status 500 in the driver's own
/// words.
pub proof fn command_reply_tells_the_outcome(
    reply: Result<CommandResult, (u16, ErrorResponse)>,
    outcome: Result<Value, DriverError>,
)
    requires
        answers_command(reply, outcome),
    ensures
        reply is Ok <==> outcome is Ok,
        outcome matches Ok(result) ==> (reply matches Ok(answer) && answer.status@ == "ok"@
            && answer.result == result),
        outcome matches Err(error) ==> (reply matches Err(refusal) && refusal.0 == 500
            && refusal.1.error@ == error.message@),
{
}

/// The list gives each sensor's own ID, name, mode and ports, whatever they are, and the
/// paths under its ID.
pub proof fn summary_repeats_the_sensor(sensors: Seq<SensorModel>, i: int)
    requires
        0 <= i < sensors.len(),
    ensures
        ({
            let summary = discovered(sensors)[i];
            &&& summary.id == sensors[i].id
            &&& summary.display_name == sensors[i].display_name
            &&& summary.command_mode == sensors[i].command_mode
            &&& summary.data_port == sensors[i].data_port
            &&& summary.command_port == sensors[i].command_port
            &&& summary.endpoints.info == "/"@ + sensors[i].id + "/info"@
            &&& summary.endpoints.data == "/"@ + sensors[i].id + "/data"@
            &&& summary.endpoints.command == "/"@ + sensors[i].id + "/command"@
        }),
{
}

/// The description of a sensor has the sensor's own ID, name, mode, ports and fields, and
/// the protocol of that very sensor. In what both give, it agrees with the list.
pub proof fn info_repeats_the_sensor(sensors: Seq<SensorModel>, i: int, version: u8)
    requires
        0 <= i < sensors.len(),
    ensures
        ({
            let info = info_response(sensors[i], version);
            let summary = discovered(sensors)[i];
            &&& info.id == sensors[i].id && info.id == summary.id
            &&& info.display_name == sensors[i].display_name && info.display_name == summary.display_name
            &&& info.command_mode == sensors[i].command_mode && info.command_mode == summary.command_mode
            &&& info.data_port == sensors[i].data_port && info.data_port == summary.data_port
            &&& info.command_port == sensors[i].command_port && info.command_port == summary.command_port
            &&& info.data_schema == sensors[i].data_schema
            &&& info.command_schema == sensors[i].command_schema
            &&& info.udp_protocol == protocol_info(sensors[i], version)
        }),
{
}

/// The path of a sensor's route is the ID between slashes and the word for the route; only
/// a command is posted.
pub proof fn sensor_paths_are_spelled_out(id: Seq<char>, handler: Handler)
    ensures
        sensor_path(id, Handler::Info) == "/"@ + id + "/info"@,
        sensor_path(id, Handler::Data) == "/"@ + id + "/data"@,
        sensor_path(id, Handler::Command) == "/"@ + id + "/command"@,
        handler_method(handler) is Post <==> handler is Command,
        is_per_sensor(handler) <==> handler !is Discover && handler !is Docs && handler
            !is OpenApi,
{
}

/// The model of a plan shows the plan, route by route.
pub proof fn plan_model_shows_the_plan(plan: RoutePlan)
    ensures
        plan@.routes.len() == plan.routes@.len(),
        forall|i: int|
            0 <= i < plan.routes@.len() ==> shows_route(
                #[trigger] plan@.routes[i],
                plan.routes@[i],
            ),
        plan@.mounts.len() == plan.mounts@.len(),
        forall|i: int|
            0 <= i < plan.mounts@.len() ==> {
                let mount = plan.mounts@[i];
                &&& (#[trigger] plan@.mounts[i]).prefix == mount.prefix@
                &&& plan@.mounts[i].sensor == mount.sensor
                &&& plan@.mounts[i].routes.len() == mount.routes@.len()
                &&& forall|j: int|
                    0 <= j < mount.routes@.len() ==> shows_route(
                        #[trigger] plan@.mounts[i].routes[j],
                        mount.routes@[j],
                    )
            },
{
}

/// Whether a model shows a route, part by part.
pub open spec fn shows_route(model: RouteModel, route: Route) -> bool {
    &&& model.path == route.path@
    &&& model.method == route.method
    &&& model.handler == route.handler
}

/// The list of sensors and the documentation have one route each, and every sensor has
/// one mount of three routes under its ID, in the order of the sensors.
pub proof fn plan_has_one_mount_per_sensor(sensors: Seq<SensorModel>)
    ensures
        route_plan(sensors).routes.len() == 3,
        route_plan(sensors).mounts.len() == sensors.len(),
        forall|i: int|
            0 <= i < sensors.len() ==> {
                let mount = #[trigger] route_plan(sensors).mounts[i];
                &&& mount.prefix == "/"@ + sensors[i].id
                &&& mount.sensor == i
                &&& mount.routes.len() == 3
            },
{
}

/// The list of sensors has one entry for each of them, in order, and a sensor that is
/// registered later comes behind those that are there.
pub proof fn every_sensor_is_discovered(sensors: Seq<SensorModel>, later: SensorModel)
    ensures
        discovered(sensors).len() == sensors.len(),
        forall|i: int|
            0 <= i < sensors.len() ==> #[trigger] discovered(sensors)[i] == sensor_summary(
                sensors[i],
            ),
        discovered(sensors.push(later)) == discovered(sensors).push(sensor_summary(later)),
{
    assert(discovered(sensors.push(later)) =~= discovered(sensors).push(sensor_summary(later)));
}

/// What is served: the list of sensors and the documentation at their own paths,
/// and a sensor's handlers under the sensor's prefix, each with its one method.
pub proof fn served_routes(
    sensors: Seq<SensorModel>,
    method: Method,
    path: Seq<char>,
    handler: Handler,
    sensor: Option<int>,
)
    ensures
        serves(route_plan(sensors), method, path, handler, sensor) <==> {
            &&& method == handler_method(handler)
            &&& match sensor {
                None => !is_per_sensor(handler) && path == handler_path(handler),
                Some(i) => {
                    &&& is_per_sensor(handler)
                    &&& 0 <= i < sensors.len()
                    &&& path == sensor_path(sensors[i].id, handler)
                },
            }
        },
{
    let plan = route_plan(sensors);
    match sensor {
        None => {
            assert(plan.routes[0].handler == Handler::Discover);
            assert(plan.routes[1].handler == Handler::Docs);
            assert(plan.routes[2].handler == Handler::OpenApi);
        },
        Some(i) => {
            if 0 <= i < sensors.len() {
                assert(plan.mounts[i].routes[0].handler == Handler::Info);
                assert(plan.mounts[i].routes[1].handler == Handler::Data);
                assert(plan.mounts[i].routes[2].handler == Handler::Command);
            }
        },
    }
}

/// Every path that the list of sensors gives is served: info and data by GET, the
/// command by POST, each for the sensor that the list gives it for.
pub proof fn discovered_endpoints_are_served(sensors: Seq<SensorModel>, i: int)
    requires
        0 <= i < sensors.len(),
    ensures
        ({
            let plan = route_plan(sensors);
            let endpoints = discovered(sensors)[i].endpoints;
            &&& serves(plan, Method::Get, endpoints.info, Handler::Info, Some(i))
            &&& serves(plan, Method::Get, endpoints.data, Handler::Data, Some(i))
            &&& serves(plan, Method::Post, endpoints.command, Handler::Command, Some(i))
        }),
{
    let endpoints = sensor_summary(sensors[i]).endpoints;
    served_routes(sensors, Method::Get, endpoints.info, Handler::Info, Some(i));
    served_routes(sensors, Method::Get, endpoints.data, Handler::Data, Some(i));
    served_routes(sensors, Method::Post, endpoints.command, Handler::Command, Some(i));
}

/// A handler's path tells the handler by its last character.
proof fn last_character_tells_handler(left: Handler, right: Handler)
    ensures
        handler_path(left).len() > 0,
        handler_path(right).len() > 0,
        handler_path(left).last() == handler_path(right).last() ==> left == right,
{
    reveal_strlit("/discover");
    reveal_strlit("/info");
    reveal_strlit("/data");
    reveal_strlit("/command");
    reveal_strlit("/docs");
    reveal_strlit("/openapi.json");
}

/// The path of a sensor's route tells the sensor's ID and the handler.
pub proof fn path_tells_sensor_and_handler(
    left_id: Seq<char>,
    left: Handler,
    right_id: Seq<char>,
    right: Handler,
)
    requires
        sensor_path(left_id, left) == sensor_path(right_id, right),
    ensures
        left == right,
        left_id == right_id,
{
    last_character_tells_handler(left, right);
    let path = sensor_path(left_id, left);
    assert(path.last() == handler_path(left).last());
    assert(sensor_path(right_id, right).last() == handler_path(right).last());
    reveal_strlit("/");
    let end = path.len() - handler_path(left).len();
    assert(left_id =~= path.subrange(1, end));
    assert(right_id =~= sensor_path(right_id, right).subrange(1, end));
}

/// A sensor's route is at none of the paths that belong to no sensor.
pub proof fn sensor_path_is_its_own(id: Seq<char>, handler: Handler, other: Handler)
    requires
        handler != other,
    ensures
        sensor_path(id, handler) != handler_path(other),
{
    last_character_tells_handler(handler, other);
    assert(sensor_path(id, handler).last() == handler_path(handler).last());
}

/// Where no two sensors share an ID, a path is served by one handler for one sensor.
pub proof fn one_path_has_one_handler(
    sensors: Seq<SensorModel>,
    path: Seq<char>,
    left_method: Method,
    left: Handler,
    left_sensor: Option<int>,
    right_method: Method,
    right: Handler,
    right_sensor: Option<int>,
)
    requires
        ids_are_unique(sensors),
        serves(route_plan(sensors), left_method, path, left, left_sensor),
        serves(route_plan(sensors), right_method, path, right, right_sensor),
    ensures
        left == right,
        left_method == right_method,
        left_sensor == right_sensor,
{
    served_routes(sensors, left_method, path, left, left_sensor);
    served_routes(sensors, right_method, path, right, right_sensor);
    last_character_tells_handler(left, right);
    assert(path.last() == handler_path(left).last());
    assert(path.last() == handler_path(right).last());
    if let (Some(i), Some(j)) = (left_sensor, right_sensor) {
        path_tells_sensor_and_handler(sensors[i].id, left, sensors[j].id, right);
        if i < j {
            assert(sensors[i].id != sensors[j].id);
        } else if j < i {
            assert(sensors[j].id != sensors[i].id);
        }
    }
}

} // verus!
