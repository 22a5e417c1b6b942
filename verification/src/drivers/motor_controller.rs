//! A CAN bus motor controller.
use crate::driver::{
    field_models, plain_field, unit_field, CommandMode, DriverError, FieldDescriptor, FieldModel,
};
use crate::http::fields::{
    conforms, example_entries, example_payload, field_properties, fields_schema, has_width,
    last_field_gives_the_value, type_names_have_widths,
};
use crate::http::openapi::{
    documented_paths, is_first_of_id, json_schema, same_names, sensor_is_documented,
};
use crate::http::routes::Handler;
use crate::json::{
    boolean, float, integer, integer_value, json, number_of, numeric, object, text, whole_float,
    Json, NumberModel,
};
use crate::registry::SensorModel;
use serde_json::{Number, Value};
use std::time::Duration;
use vstd::prelude::*;

verus! {

/// What a motor reports.
pub struct TelemetryModel {
    pub rpm: NumberModel,
    pub current_amps: NumberModel,
    pub temperature_c: NumberModel,
    pub fault_code: u16,
}

/// The state of a motor, with each measured quantity as the JSON number that is
/// reported.
struct MotorTelemetry {
    rpm: Number,
    current_amps: Number,
    temperature_c: Number,
    fault_code: u16,
}

/// What a motor controller is.
pub struct MotorModel {
    pub name: Seq<char>,
    pub id: Seq<char>,
    pub telemetry: TelemetryModel,
}

/// Example stream-style sensor: a CAN bus motor controller.
///
/// Demonstrates the template pattern for sensors with hardware watchdogs. Commands
/// are re-sent at the configured interval once a stream has been started.
pub struct MotorController {
    name: &'static str,
    id: &'static str,
    last_telemetry: MotorTelemetry,
}

impl View for MotorController {
    type V = MotorModel;

    closed spec fn view(&self) -> MotorModel {
        MotorModel {
            name: self.name@,
            id: self.id@,
            telemetry: TelemetryModel {
                rpm: number_of(self.last_telemetry.rpm),
                current_amps: number_of(self.last_telemetry.current_amps),
                temperature_c: number_of(self.last_telemetry.temperature_c),
                fault_code: self.last_telemetry.fault_code,
            },
        }
    }
}

/// A motor at rest, at 25 degrees, without a fault.
pub open spec fn at_rest() -> TelemetryModel {
    TelemetryModel {
        rpm: whole_float(0),
        current_amps: whole_float(0),
        temperature_c: whole_float(25),
        fault_code: 0,
    }
}

/// What a motor reports after a command: an enabled motor turns at the speed that it
/// reaches, a disabled one stands still. Nothing else changes.
pub open spec fn after_command(
    telemetry: TelemetryModel,
    reached_rpm: NumberModel,
    enable: bool,
) -> TelemetryModel {
    TelemetryModel {
        rpm: if enable {
            reached_rpm
        } else {
            whole_float(0)
        },
        ..telemetry
    }
}

/// The entries of a motor's report.
pub open spec fn telemetry_entries(telemetry: TelemetryModel) -> Map<Seq<char>, Json> {
    Map::empty().insert("rpm"@, Json::Number(telemetry.rpm)).insert(
        "current_amps"@,
        Json::Number(telemetry.current_amps),
    ).insert("temperature_c"@, Json::Number(telemetry.temperature_c)).insert(
        "fault_code"@,
        integer_value(telemetry.fault_code as int),
    )
}

/// The answer to a command.
pub open spec fn motor_reply(target_rpm: NumberModel, enable: bool) -> Json {
    Json::Object(
        Map::empty().insert("status"@, Json::Text("sent"@)).insert(
            "target_rpm"@,
            Json::Number(target_rpm),
        ).insert("enabled"@, Json::Bool(enable)),
    )
}

/// The fields of a motor's report.
pub open spec fn telemetry_fields() -> Seq<FieldModel> {
    seq![
        unit_field("rpm"@, "Current motor speed"@, "f64"@, "rpm"@),
        unit_field("current_amps"@, "Motor current draw"@, "f64"@, "A"@),
        unit_field("temperature_c"@, "Motor temperature"@, "f64"@, "C"@),
        plain_field("fault_code"@, "Active fault code (0 = none)"@, "u16"@),
    ]
}

/// The fields of a command.
pub open spec fn motor_command_fields() -> Seq<FieldModel> {
    seq![
        unit_field("target_rpm"@, "Desired motor speed"@, "f64"@, "rpm"@),
        plain_field("enable"@, "Enable/disable motor"@, "bool"@),
    ]
}

impl MotorController {
    /// A controller of a motor at rest.
    pub fn new(id: &'static str, name: &'static str) -> (controller: Self)
        ensures
            controller@ == (MotorModel { name: name@, id: id@, telemetry: at_rest() }),
    {
        MotorController {
            name,
            id,
            last_telemetry: MotorTelemetry {
                rpm: float(0),
                current_amps: float(0),
                temperature_c: float(25),
                fault_code: 0,
            },
        }
    }

    /// The ID of the sensor.
    pub fn id(&self) -> (id: &'static str)
        ensures
            id@ == self@.id,
    {
        self.id
    }

    /// The name that people read.
    pub fn display_name(&self) -> (name: &'static str)
        ensures
            name@ == self@.name,
    {
        self.name
    }

    /// The fields that the motor reports.
    pub fn data_schema(&self) -> (fields: Vec<FieldDescriptor>)
        ensures
            field_models(fields@) == telemetry_fields(),
    {
        let mut fields: Vec<FieldDescriptor> = Vec::new();
        fields.push(FieldDescriptor::new("rpm", "Current motor speed", "f64").with_unit("rpm"));
        fields.push(
            FieldDescriptor::new("current_amps", "Motor current draw", "f64").with_unit("A"),
        );
        fields.push(
            FieldDescriptor::new("temperature_c", "Motor temperature", "f64").with_unit("C"),
        );
        fields.push(FieldDescriptor::new("fault_code", "Active fault code (0 = none)", "u16"));
        assert(field_models(fields@) =~= telemetry_fields());
        fields
    }

    /// The fields that a command has.
    pub fn command_schema(&self) -> (fields: Vec<FieldDescriptor>)
        ensures
            field_models(fields@) == motor_command_fields(),
    {
        let mut fields: Vec<FieldDescriptor> = Vec::new();
        fields.push(
            FieldDescriptor::new("target_rpm", "Desired motor speed", "f64").with_unit("rpm"),
        );
        fields.push(FieldDescriptor::new("enable", "Enable/disable motor", "bool"));
        assert(field_models(fields@) =~= motor_command_fields());
        fields
    }

    /// Commands are re-sent: the CAN watchdog requires a frame every 100 ms.
    pub fn command_mode(&self) -> (mode: CommandMode)
        ensures
            mode == (CommandMode::Stream { interval_ms: 100 }),
    {
        CommandMode::stream(Duration::from_millis(100))
    }

    /// The last telemetry as it is reported.
    pub fn read_data(&self) -> (data: Result<Value, DriverError>)
        ensures
            data matches Ok(report) && json(report) == Json::Object(
                telemetry_entries(self@.telemetry),
            ),
    {
        let mut map = serde_json::Map::<String, Value>::new();
        map.insert("rpm".to_owned(), numeric(self.last_telemetry.rpm.clone()));
        map.insert("current_amps".to_owned(), numeric(self.last_telemetry.current_amps.clone()));
        map.insert("temperature_c".to_owned(), numeric(self.last_telemetry.temperature_c.clone()));
        map.insert("fault_code".to_owned(), integer(self.last_telemetry.fault_code as u64));
        Ok(object(map))
    }

    /// Carries out a command and answers it. An enabled motor that is asked for
    /// `target_rpm` reaches `reached_rpm`.
    pub fn execute_command(
        &mut self,
        target_rpm: Number,
        reached_rpm: Number,
        enable: bool,
    ) -> (reply: Result<Value, DriverError>)
        ensures
            final(self)@ == (MotorModel {
                telemetry: after_command(old(self)@.telemetry, number_of(reached_rpm), enable),
                ..old(self)@
            }),
            reply matches Ok(answer) && json(answer) == motor_reply(
                number_of(target_rpm),
                enable,
            ),
    {
        if enable {
            self.last_telemetry.rpm = reached_rpm;
        } else {
            self.last_telemetry.rpm = float(0);
        }
        let mut map = serde_json::Map::<String, Value>::new();
        map.insert("status".to_owned(), text("sent"));
        map.insert("target_rpm".to_owned(), numeric(target_rpm));
        map.insert("enabled".to_owned(), boolean(enable));
        Ok(object(map))
    }
}

/// A read after a command reports the speed that the command led to, and of everything
/// else what a read before the command reported.
pub proof fn read_reports_last_command(
    telemetry: TelemetryModel,
    reached_rpm: NumberModel,
    enable: bool,
)
    ensures
        ({
            let before = telemetry_entries(telemetry);
            let after = telemetry_entries(after_command(telemetry, reached_rpm, enable));
            &&& enable ==> after == before.insert("rpm"@, Json::Number(reached_rpm))
            &&& !enable ==> after == before.insert("rpm"@, Json::Number(whole_float(0)))
        }),
{
    names_differ();
    let before = telemetry_entries(telemetry);
    let after = telemetry_entries(after_command(telemetry, reached_rpm, enable));
    assert(after =~= before.insert(
        "rpm"@,
        Json::Number(
            if enable {
                reached_rpm
            } else {
                whole_float(0)
            },
        ),
    ));
}

/// The names in a motor's report are four different ones.
proof fn names_differ()
    ensures
        "rpm"@.len() == 3,
        "current_amps"@.len() == 12,
        "temperature_c"@.len() == 13,
        "fault_code"@.len() == 10,
{
    reveal_strlit("rpm");
    reveal_strlit("current_amps");
    reveal_strlit("temperature_c");
    reveal_strlit("fault_code");
}

/// One command to a motor: the speed that the motor reaches if it is enabled, and
/// whether it is.
pub struct MotorCommandModel {
    pub reached_rpm: NumberModel,
    pub enable: bool,
}

/// What a motor reports after these commands, from rest on.
pub open spec fn after_commands(commands: Seq<MotorCommandModel>) -> TelemetryModel
    decreases commands.len(),
{
    if commands.len() == 0 {
        at_rest()
    } else {
        after_command(
            after_commands(commands.drop_last()),
            commands.last().reached_rpm,
            commands.last().enable,
        )
    }
}

/// Whatever commands a motor has had, it reports four entries: the number that is its
/// speed, no current, 25 degrees and no fault. The speed is the one that the last command
/// led to.
pub proof fn report_after_commands(commands: Seq<MotorCommandModel>)
    ensures
        ({
            let report = telemetry_entries(after_commands(commands));
            let speed = if commands.len() > 0 && commands.last().enable {
                commands.last().reached_rpm
            } else {
                whole_float(0)
            };
            &&& report.dom() == set!["rpm"@, "current_amps"@, "temperature_c"@, "fault_code"@]
            &&& report["rpm"@] == Json::Number(speed)
            &&& report["current_amps"@] == Json::Number(whole_float(0))
            &&& report["temperature_c"@] == Json::Number(whole_float(25))
            &&& report["fault_code"@] == integer_value(0)
        }),
    decreases commands.len(),
{
    names_differ();
    let report = telemetry_entries(after_commands(commands));
    if commands.len() > 0 {
        let before = commands.drop_last();
        report_after_commands(before);
        read_reports_last_command(
            after_commands(before),
            commands.last().reached_rpm,
            commands.last().enable,
        );
    }
    assert(report.dom() =~= set!["rpm"@, "current_amps"@, "temperature_c"@, "fault_code"@]);
}

/// The report of a motor is what its data schema describes, field for field.
pub proof fn telemetry_conforms_to_schema(telemetry: TelemetryModel)
    ensures
        conforms(Json::Object(telemetry_entries(telemetry)), fields_schema(telemetry_fields())),
        telemetry_entries(telemetry).dom() == field_properties(telemetry_fields()).dom(),
{
    names_differ();
    reveal_strlit("f64");
    reveal_strlit("f32");
    reveal_strlit("u16");
    assert("u16"@[0] != "f64"@[0] && "u16"@[0] != "f32"@[0]);
    let fields = telemetry_fields();
    let members = telemetry_entries(telemetry);
    let properties = field_properties(fields);
    assert forall|name: Seq<char>| members.contains_key(name) && properties.contains_key(
        name,
    ) implies conforms(#[trigger] members[name], properties[name]) by {
        last_field_gives_the_value(fields, name);
    }
    assert forall|name: Seq<char>| members.dom().contains(name) <==> properties.dom().contains(
        name,
    ) by {
        last_field_gives_the_value(fields, name);
        assert(fields[0].name == "rpm"@);
        assert(fields[1].name == "current_amps"@);
        assert(fields[2].name == "temperature_c"@);
        assert(fields[3].name == "fault_code"@);
    }
    assert(members.dom() =~= properties.dom());
}

/// The answer to a command repeats the speed that was asked for and whether the motor is
/// enabled, whatever they are.
pub proof fn reply_repeats_the_command(target_rpm: NumberModel, enable: bool)
    ensures
        motor_reply(target_rpm, enable) matches Json::Object(members) && {
            &&& members.dom() == set!["status"@, "target_rpm"@, "enabled"@]
            &&& members["status"@] == Json::Text("sent"@)
            &&& members["target_rpm"@] == Json::Number(target_rpm)
            &&& members["enabled"@] == Json::Bool(enable)
        },
{
    reveal_strlit("status");
    reveal_strlit("target_rpm");
    reveal_strlit("enabled");
    assert("status"@.len() == 6 && "target_rpm"@.len() == 10 && "enabled"@.len() == 7);
    assert(motor_reply(target_rpm, enable)->Object_0.dom() =~= set![
        "status"@,
        "target_rpm"@,
        "enabled"@,
    ]);
}

/// A command to a motor, as a client writes it.
pub open spec fn motor_command(target_rpm: NumberModel, enable: bool) -> Json {
    Json::Object(
        Map::empty().insert("target_rpm"@, Json::Number(target_rpm)).insert(
            "enable"@,
            Json::Bool(enable),
        ),
    )
}

/// Every command that a motor takes is what the schema of its command fields describes,
/// under the same names. The example payload of these fields is the command that switches
/// the motor off and asks for no speed.
pub proof fn commands_conform_to_schema(target_rpm: NumberModel, enable: bool)
    ensures
        conforms(motor_command(target_rpm, enable), fields_schema(motor_command_fields())),
        same_names(motor_command(target_rpm, enable), fields_schema(motor_command_fields())),
        example_payload(motor_command_fields()) == motor_command(
            NumberModel::Float { numerator: 0, denominator: 1 },
            false,
        ),
{
    reveal_strlit("target_rpm");
    reveal_strlit("enable");
    reveal_strlit("f64");
    reveal_strlit("f32");
    reveal_strlit("bool");
    reveal_strlit("u8");
    reveal_strlit("u16");
    reveal_strlit("u32");
    reveal_strlit("u64");
    reveal_strlit("i8");
    reveal_strlit("i16");
    reveal_strlit("i32");
    reveal_strlit("i64");
    assert("target_rpm"@.len() == 10 && "enable"@.len() == 6);
    assert("bool"@.len() == 4);
    let fields = motor_command_fields();
    let properties = field_properties(fields);
    let members = motor_command(target_rpm, enable)->Object_0;
    assert(fields[0].name == "target_rpm"@);
    assert(fields[1].name == "enable"@);
    assert forall|name: Seq<char>| members.contains_key(name) && properties.contains_key(
        name,
    ) implies conforms(#[trigger] members[name], properties[name]) by {
        last_field_gives_the_value(fields, name);
        reveal_with_fuel(conforms, 2);
    }
    assert forall|name: Seq<char>| members.dom().contains(name) <==> properties.dom().contains(
        name,
    ) by {
        last_field_gives_the_value(fields, name);
    }
    assert(members.dom() =~= properties.dom());
    let first = fields.drop_last();
    assert(first.drop_last() =~= Seq::empty());
    reveal_with_fuel(example_entries, 3);
    assert(first.last() == fields[0]);
    assert(example_payload(fields)->Object_0 =~= motor_command(whole_float(0), false)->Object_0);
}

/// The report of every motor is what the document describes for a read of a sensor with
/// these data fields, wherever the sensor stands and whatever its mode.
pub proof fn telemetry_is_what_is_documented(
    sensors: Seq<SensorModel>,
    i: int,
    telemetry: TelemetryModel,
)
    requires
        is_first_of_id(sensors, i),
        sensors[i].data_schema == telemetry_fields(),
    ensures
        documented_paths(sensors)["/"@ + sensors[i].id + "/data"@].get matches Some(operation)
            && json_schema(operation.responses["200"@].content) matches Some(shape) && conforms(
            Json::Object(telemetry_entries(telemetry)),
            shape,
        ) && same_names(Json::Object(telemetry_entries(telemetry)), shape),
{
    sensor_is_documented(sensors, i, Handler::Data);
    telemetry_conforms_to_schema(telemetry);
}

/// Each entry of a motor's report has the quantity that it is named after.
pub proof fn report_gives_each_quantity(telemetry: TelemetryModel)
    ensures
        ({
            let report = telemetry_entries(telemetry);
            &&& report.dom() == set!["rpm"@, "current_amps"@, "temperature_c"@, "fault_code"@]
            &&& report["rpm"@] == Json::Number(telemetry.rpm)
            &&& report["current_amps"@] == Json::Number(telemetry.current_amps)
            &&& report["temperature_c"@] == Json::Number(telemetry.temperature_c)
            &&& report["fault_code"@] == Json::Number(
                NumberModel::Integer(telemetry.fault_code as int),
            )
        }),
{
    names_differ();
    assert(telemetry_entries(telemetry).dom() =~= set![
        "rpm"@,
        "current_amps"@,
        "temperature_c"@,
        "fault_code"@,
    ]);
}

/// Each measured quantity of a motor is a float of 64 bits with its unit, and so is the
/// speed that a command asks for; a fault code has 16 bits.
pub proof fn motor_fields_have_their_types_and_units()
    ensures
        telemetry_fields().len() == 4,
        motor_command_fields().len() == 2,
        forall|i: int|
            0 <= i < 3 ==> has_width((#[trigger] telemetry_fields()[i]).rust_type, 'f', 64),
        has_width(telemetry_fields()[3].rust_type, 'u', 16),
        has_width(motor_command_fields()[0].rust_type, 'f', 64),
        motor_command_fields()[1].rust_type == "bool"@,
        telemetry_fields()[0].name == "rpm"@ && telemetry_fields()[0].unit == Some("rpm"@),
        telemetry_fields()[1].name == "current_amps"@ && telemetry_fields()[1].unit == Some("A"@),
        telemetry_fields()[2].name == "temperature_c"@ && telemetry_fields()[2].unit == Some("C"@),
        telemetry_fields()[3].name == "fault_code"@ && telemetry_fields()[3].unit is None,
        motor_command_fields()[0].name == "target_rpm"@,
        motor_command_fields()[0].unit == Some("rpm"@),
        motor_command_fields()[1].name == "enable"@ && motor_command_fields()[1].unit is None,
        telemetry_fields()[0].description == "Current motor speed"@,
        telemetry_fields()[1].description == "Motor current draw"@,
        telemetry_fields()[2].description == "Motor temperature"@,
        telemetry_fields()[3].description == "Active fault code (0 = none)"@,
        motor_command_fields()[0].description == "Desired motor speed"@,
        motor_command_fields()[1].description == "Enable/disable motor"@,
{
    type_names_have_widths();
}

} // verus!
