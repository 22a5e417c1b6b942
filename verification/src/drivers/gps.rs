//! A GNSS receiver.
use crate::driver::{
    field_models, plain_field, unit_field, CommandMode, DriverError, FieldDescriptor, FieldModel,
};
use crate::http::fields::{
    conforms, example_entries, example_payload, field_properties, fields_schema, has_width,
    last_field_gives_the_value, type_names_have_widths,
};
use crate::http::openapi::{
    documented_paths, is_first_of_id, json_schema, same_names, sensor_is_documented,
};
use crate::http::routes::Handler;
use crate::registry::SensorModel;
use crate::json::{
    float, integer, integer_value, json, number_of, numeric, object, text, whole_float, Json,
    NumberModel,
};
use serde_json::{Number, Value};
use vstd::prelude::*;

verus! {

/// What a position fix says.
pub struct FixModel {
    pub latitude: NumberModel,
    pub longitude: NumberModel,
    pub altitude_m: NumberModel,
    pub speed_mps: NumberModel,
    pub satellites: u8,
}

/// A position fix, with each measured quantity as the JSON number that is reported.
struct GpsFix {
    latitude: Number,
    longitude: Number,
    altitude_m: Number,
    speed_mps: Number,
    satellites: u8,
}

/// A request to the receiver.
#[derive(Debug)]
pub struct GpsCommand {
    pub set_update_rate_hz: Option<u8>,
}

/// Example REST-style sensor: a GNSS receiver.
///
/// Demonstrates the template pattern for simple request/response sensors.
pub struct GpsSensor {
    last_fix: GpsFix,
}

impl View for GpsSensor {
    type V = FixModel;

    closed spec fn view(&self) -> FixModel {
        FixModel {
            latitude: number_of(self.last_fix.latitude),
            longitude: number_of(self.last_fix.longitude),
            altitude_m: number_of(self.last_fix.altitude_m),
            speed_mps: number_of(self.last_fix.speed_mps),
            satellites: self.last_fix.satellites,
        }
    }
}

/// The simulated fix at a place: at rest, 35 m above the sea, from twelve satellites.
pub open spec fn simulated_fix(latitude: NumberModel, longitude: NumberModel) -> FixModel {
    FixModel {
        latitude,
        longitude,
        altitude_m: whole_float(35),
        speed_mps: whole_float(0),
        satellites: 12,
    }
}

/// The data that is reported of a fix.
pub open spec fn fix_report(fix: FixModel) -> Json {
    Json::Object(
        Map::empty().insert("latitude"@, Json::Number(fix.latitude)).insert(
            "longitude"@,
            Json::Number(fix.longitude),
        ).insert("altitude_m"@, Json::Number(fix.altitude_m)).insert(
            "speed_mps"@,
            Json::Number(fix.speed_mps),
        ).insert("satellites"@, integer_value(fix.satellites as int)),
    )
}

/// The fields of a fix.
pub open spec fn fix_fields() -> Seq<FieldModel> {
    seq![
        unit_field("latitude"@, "WGS84 latitude"@, "f64"@, "degrees"@),
        unit_field("longitude"@, "WGS84 longitude"@, "f64"@, "degrees"@),
        unit_field("altitude_m"@, "Altitude above mean sea level"@, "f64"@, "m"@),
        unit_field("speed_mps"@, "Ground speed"@, "f64"@, "m/s"@),
        plain_field("satellites"@, "Number of satellites in fix"@, "u8"@),
    ]
}

/// The fields of a request.
pub open spec fn gps_command_fields() -> Seq<FieldModel> {
    seq![unit_field("set_update_rate_hz"@, "Set the GPS update rate"@, "u8"@, "Hz"@)]
}

/// The answer to a request: the new rate, or that there was nothing to do.
pub open spec fn gps_reply(command: GpsCommand) -> Json {
    match command.set_update_rate_hz {
        Some(rate) => Json::Object(
            Map::empty().insert("status"@, Json::Text("ok"@)).insert(
                "update_rate_hz"@,
                integer_value(rate as int),
            ),
        ),
        None => Json::Object(Map::empty().insert("status"@, Json::Text("no-op"@))),
    }
}

impl GpsSensor {
    /// A sensor that reports the simulated fix at this place.
    pub fn new(latitude: Number, longitude: Number) -> (sensor: Self)
        ensures
            sensor@ == simulated_fix(number_of(latitude), number_of(longitude)),
    {
        GpsSensor {
            last_fix: GpsFix {
                latitude,
                longitude,
                altitude_m: float(35),
                speed_mps: float(0),
                satellites: 12,
            },
        }
    }

    /// The ID of the sensor.
    pub fn id(&self) -> (id: &'static str)
        ensures
            id@ == "gps"@,
    {
        "gps"
    }

    /// The name that people read.
    pub fn display_name(&self) -> (name: &'static str)
        ensures
            name@ == "GNSS Receiver"@,
    {
        "GNSS Receiver"
    }

    /// The fields that the sensor reports.
    pub fn data_schema(&self) -> (fields: Vec<FieldDescriptor>)
        ensures
            field_models(fields@) == fix_fields(),
    {
        let mut fields: Vec<FieldDescriptor> = Vec::new();
        fields.push(
            FieldDescriptor::new("latitude", "WGS84 latitude", "f64").with_unit("degrees"),
        );
        fields.push(
            FieldDescriptor::new("longitude", "WGS84 longitude", "f64").with_unit("degrees"),
        );
        fields.push(
            FieldDescriptor::new("altitude_m", "Altitude above mean sea level", "f64").with_unit(
                "m",
            ),
        );
        fields.push(FieldDescriptor::new("speed_mps", "Ground speed", "f64").with_unit("m/s"));
        fields.push(FieldDescriptor::new("satellites", "Number of satellites in fix", "u8"));
        assert(field_models(fields@) =~= fix_fields());
        fields
    }

    /// The fields that a request has.
    pub fn command_schema(&self) -> (fields: Vec<FieldDescriptor>)
        ensures
            field_models(fields@) == gps_command_fields(),
    {
        let mut fields: Vec<FieldDescriptor> = Vec::new();
        fields.push(
            FieldDescriptor::new("set_update_rate_hz", "Set the GPS update rate", "u8").with_unit(
                "Hz",
            ),
        );
        assert(field_models(fields@) =~= gps_command_fields());
        fields
    }

    /// Requests are answered one by one.
    pub fn command_mode(&self) -> (mode: CommandMode)
        ensures
            mode == CommandMode::Rest,
    {
        CommandMode::Rest
    }

    /// The last fix as it is reported. A request takes the sensor by a shared reference
    /// and leaves the fix as it is, so every read reports the same.
    pub fn read_data(&self) -> (data: Result<Value, DriverError>)
        ensures
            data matches Ok(report) && json(report) == fix_report(self@),
    {
        let mut map = serde_json::Map::<String, Value>::new();
        map.insert("latitude".to_owned(), numeric(self.last_fix.latitude.clone()));
        map.insert("longitude".to_owned(), numeric(self.last_fix.longitude.clone()));
        map.insert("altitude_m".to_owned(), numeric(self.last_fix.altitude_m.clone()));
        map.insert("speed_mps".to_owned(), numeric(self.last_fix.speed_mps.clone()));
        map.insert("satellites".to_owned(), integer(self.last_fix.satellites as u64));
        Ok(object(map))
    }

    /// Carries out a request and answers it.
    pub fn execute_command(&self, command: &GpsCommand) -> (reply: Result<Value, DriverError>)
        ensures
            reply matches Ok(answer) && json(answer) == gps_reply(*command),
    {
        let mut map = serde_json::Map::<String, Value>::new();
        match command.set_update_rate_hz {
            Some(rate) => {
                map.insert("status".to_owned(), text("ok"));
                map.insert("update_rate_hz".to_owned(), integer(rate as u64));
            },
            None => {
                map.insert("status".to_owned(), text("no-op"));
            },
        }
        Ok(object(map))
    }
}

/// The report of a fix is what the sensor's data schema describes, field for field.
pub proof fn fix_report_conforms_to_schema(fix: FixModel)
    ensures
        conforms(fix_report(fix), fields_schema(fix_fields())),
        fix_report(fix)->Object_0.dom() == field_properties(fix_fields()).dom(),
{
    reveal_strlit("latitude");
    reveal_strlit("longitude");
    reveal_strlit("altitude_m");
    reveal_strlit("speed_mps");
    reveal_strlit("satellites");
    reveal_strlit("f64");
    reveal_strlit("f32");
    reveal_strlit("u8");
    assert("longitude"@[0] != "speed_mps"@[0]);
    assert("altitude_m"@[0] != "satellites"@[0]);
    assert("u8"@.len() != "f64"@.len() && "u8"@.len() != "f32"@.len());
    let fields = fix_fields();
    let members = fix_report(fix)->Object_0;
    let properties = field_properties(fields);
    assert forall|name: Seq<char>| members.contains_key(name) && properties.contains_key(
        name,
    ) implies conforms(#[trigger] members[name], properties[name]) by {
        last_field_gives_the_value(fields, name);
    }
    assert forall|name: Seq<char>| members.dom().contains(name) <==> properties.dom().contains(
        name,
    ) by {
        last_field_gives_the_value(fields, name);
        assert(fields[0].name == "latitude"@);
        assert(fields[1].name == "longitude"@);
        assert(fields[2].name == "altitude_m"@);
        assert(fields[3].name == "speed_mps"@);
        assert(fields[4].name == "satellites"@);
    }
    assert(members.dom() =~= properties.dom());
}

/// The report of a fix has five entries, each with the quantity that it is named after.
pub proof fn report_gives_each_quantity(fix: FixModel)
    ensures
        fix_report(fix) matches Json::Object(members) && {
            &&& members.dom() == set![
                "latitude"@,
                "longitude"@,
                "altitude_m"@,
                "speed_mps"@,
                "satellites"@,
            ]
            &&& members["latitude"@] == Json::Number(fix.latitude)
            &&& members["longitude"@] == Json::Number(fix.longitude)
            &&& members["altitude_m"@] == Json::Number(fix.altitude_m)
            &&& members["speed_mps"@] == Json::Number(fix.speed_mps)
            &&& members["satellites"@] == Json::Number(NumberModel::Integer(fix.satellites as int))
        },
{
    reveal_strlit("latitude");
    reveal_strlit("longitude");
    reveal_strlit("altitude_m");
    reveal_strlit("speed_mps");
    reveal_strlit("satellites");
    assert("longitude"@[0] != "speed_mps"@[0]);
    assert("altitude_m"@[0] != "satellites"@[0]);
    assert("latitude"@.len() == 8 && "longitude"@.len() == 9 && "altitude_m"@.len() == 10);
    assert("speed_mps"@.len() == 9 && "satellites"@.len() == 10);
    assert(fix_report(fix)->Object_0.dom() =~= set![
        "latitude"@,
        "longitude"@,
        "altitude_m"@,
        "speed_mps"@,
        "satellites"@,
    ]);
}

/// A fresh sensor is where it was put, at rest, 35 m above the sea and in sight of twelve
/// satellites, wherever that is.
pub proof fn fresh_fix_is_at_its_place(latitude: NumberModel, longitude: NumberModel)
    ensures
        simulated_fix(latitude, longitude).latitude == latitude,
        simulated_fix(latitude, longitude).longitude == longitude,
        simulated_fix(latitude, longitude).altitude_m == (NumberModel::Float {
            numerator: 35,
            denominator: 1,
        }),
        simulated_fix(latitude, longitude).speed_mps == (NumberModel::Float {
            numerator: 0,
            denominator: 1,
        }),
        simulated_fix(latitude, longitude).satellites == 12,
{
}

/// A request that sets a rate, whatever rate it is, is answered with `ok` and that rate;
/// one that sets none is answered with `no-op` and nothing else.
pub proof fn reply_repeats_the_rate(rate: u8)
    ensures
        gps_reply(GpsCommand { set_update_rate_hz: Some(rate) }) matches Json::Object(members) && {
            &&& members.dom() == set!["status"@, "update_rate_hz"@]
            &&& members["status"@] == Json::Text("ok"@)
            &&& members["update_rate_hz"@] == Json::Number(NumberModel::Integer(rate as int))
        },
        gps_reply(GpsCommand { set_update_rate_hz: None }) matches Json::Object(members) && {
            &&& members.dom() == set!["status"@]
            &&& members["status"@] == Json::Text("no-op"@)
        },
{
    reveal_strlit("status");
    reveal_strlit("update_rate_hz");
    assert("status"@.len() != "update_rate_hz"@.len());
    let set_reply = gps_reply(GpsCommand { set_update_rate_hz: Some(rate) });
    let other_reply = gps_reply(GpsCommand { set_update_rate_hz: None });
    assert(set_reply->Object_0.dom() =~= set!["status"@, "update_rate_hz"@]);
    assert(other_reply->Object_0.dom() =~= set!["status"@]);
}

/// An answer tells the request: the status is `no-op` if and only if no rate was set, and
/// requests that are answered alike set the same.
pub proof fn reply_tells_the_request(left: GpsCommand, right: GpsCommand)
    ensures
        gps_reply(left)->Object_0["status"@] == Json::Text("no-op"@)
            <==> left.set_update_rate_hz is None,
        gps_reply(left) == gps_reply(right) ==> left == right,
{
    reveal_strlit("ok");
    reveal_strlit("no-op");
    assert("ok"@.len() != "no-op"@.len());
    if let Some(rate) = left.set_update_rate_hz {
        reply_repeats_the_rate(rate);
    }
    if let Some(rate) = right.set_update_rate_hz {
        reply_repeats_the_rate(rate);
    }
    reply_repeats_the_rate(0);
}

/// The request that sets a rate, as a client writes it.
pub open spec fn rate_request(rate: u8) -> Json {
    Json::Object(
        Map::empty().insert(
            "set_update_rate_hz"@,
            Json::Number(NumberModel::Integer(rate as int)),
        ),
    )
}

/// Every request that sets a rate is what the schema of the sensor's command fields
/// describes, under the same name, and so is the empty one. The example payload of these
/// fields is the request that sets the rate zero.
pub proof fn requests_conform_to_schema(rate: u8)
    ensures
        conforms(rate_request(rate), fields_schema(gps_command_fields())),
        same_names(rate_request(rate), fields_schema(gps_command_fields())),
        conforms(Json::Object(Map::empty()), fields_schema(gps_command_fields())),
        example_payload(gps_command_fields()) == rate_request(0),
{
    reveal_strlit("u8");
    reveal_strlit("f64");
    reveal_strlit("f32");
    assert("u8"@.len() != "f64"@.len() && "u8"@.len() != "f32"@.len());
    let fields = gps_command_fields();
    let properties = field_properties(fields);
    let members = rate_request(rate)->Object_0;
    assert(fields[0].name == "set_update_rate_hz"@);
    assert forall|name: Seq<char>| members.contains_key(name) && properties.contains_key(
        name,
    ) implies conforms(#[trigger] members[name], properties[name]) by {
        last_field_gives_the_value(fields, name);
        reveal_with_fuel(conforms, 2);
    }
    assert forall|name: Seq<char>| members.dom().contains(name) <==> properties.dom().contains(
        name,
    ) by {
        last_field_gives_the_value(fields, name);
    }
    assert(members.dom() =~= properties.dom());
    assert(fields.drop_last() =~= Seq::empty());
    reveal_with_fuel(example_entries, 2);
    assert(example_payload(fields)->Object_0 =~= rate_request(0)->Object_0);
}

/// The report of every fix is what the document describes for a read of a sensor with
/// these data fields, wherever the sensor stands and whatever its mode.
pub proof fn fix_report_is_what_is_documented(sensors: Seq<SensorModel>, i: int, fix: FixModel)
    requires
        is_first_of_id(sensors, i),
        sensors[i].data_schema == fix_fields(),
    ensures
        documented_paths(sensors)["/"@ + sensors[i].id + "/data"@].get matches Some(operation)
            && json_schema(operation.responses["200"@].content) matches Some(shape) && conforms(
            fix_report(fix),
            shape,
        ) && same_names(fix_report(fix), shape),
{
    sensor_is_documented(sensors, i, Handler::Data);
    fix_report_conforms_to_schema(fix);
}

/// Each measured quantity of a fix is a float of 64 bits with its unit; the satellites and
/// the update rate are counted in eight bits.
pub proof fn fix_fields_have_their_types_and_units()
    ensures
        fix_fields().len() == 5,
        gps_command_fields().len() == 1,
        forall|i: int| 0 <= i < 4 ==> has_width((#[trigger] fix_fields()[i]).rust_type, 'f', 64),
        has_width(fix_fields()[4].rust_type, 'u', 8),
        has_width(gps_command_fields()[0].rust_type, 'u', 8),
        fix_fields()[0].name == "latitude"@ && fix_fields()[0].unit == Some("degrees"@),
        fix_fields()[1].name == "longitude"@ && fix_fields()[1].unit == Some("degrees"@),
        fix_fields()[2].name == "altitude_m"@ && fix_fields()[2].unit == Some("m"@),
        fix_fields()[3].name == "speed_mps"@ && fix_fields()[3].unit == Some("m/s"@),
        fix_fields()[4].name == "satellites"@ && fix_fields()[4].unit is None,
        gps_command_fields()[0].name == "set_update_rate_hz"@,
        gps_command_fields()[0].unit == Some("Hz"@),
        fix_fields()[0].description == "WGS84 latitude"@,
        fix_fields()[1].description == "WGS84 longitude"@,
        fix_fields()[2].description == "Altitude above mean sea level"@,
        fix_fields()[3].description == "Ground speed"@,
        fix_fields()[4].description == "Number of satellites in fix"@,
        gps_command_fields()[0].description == "Set the GPS update rate"@,
{
    type_names_have_widths();
}

} // verus!
