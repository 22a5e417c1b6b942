use capra_rove_interface::driver::{CommandMode, DriverError, FieldDescriptor, SensorDriver};
use capra_rove_interface::drivers::gps::{GpsCommand, GpsSensor};
use capra_rove_interface::drivers::motor_controller::MotorController;
use capra_rove_interface::udp::stream::{
    after_send, stream_action, stream_step, StreamAction, StreamEvent, StreamStep,
};
use serde_json::{Number, Value};
use std::sync::Mutex;
use std::time::Duration;

fn parse(text: &str) -> Value {
    serde_json::from_str(text).unwrap()
}

#[test]
fn stream_keeps_whole_milliseconds() {
    assert_eq!(
        CommandMode::stream(Duration::from_millis(100)),
        CommandMode::Stream { interval_ms: 100 }
    );
    assert_eq!(
        CommandMode::stream(Duration::from_micros(2_999)),
        CommandMode::Stream { interval_ms: 2 }
    );
    assert_eq!(
        CommandMode::stream(Duration::from_nanos(999_999)),
        CommandMode::Stream { interval_ms: 0 }
    );
}

#[test]
fn stream_drops_milliseconds_above_64_bits() {
    let longest = Duration::from_secs(u64::MAX);
    let CommandMode::Stream { interval_ms } = CommandMode::stream(longest) else {
        panic!("not a stream");
    };
    assert_eq!(interval_ms, (u64::MAX as u128 * 1000 % (1u128 << 64)) as u64);
}

#[test]
fn interval_gives_back_what_the_stream_was_made_with() {
    assert_eq!(CommandMode::Rest.interval(), None);
    let interval = Duration::from_millis(1_250);
    assert_eq!(CommandMode::stream(interval).interval(), Some(interval));
    assert_eq!(
        CommandMode::Stream { interval_ms: u64::MAX }.interval(),
        Some(Duration::from_millis(u64::MAX))
    );
}

#[test]
fn debug_text_is_what_debug_prints() {
    for mode in [
        CommandMode::Rest,
        CommandMode::Stream { interval_ms: 0 },
        CommandMode::Stream { interval_ms: 100 },
        CommandMode::Stream { interval_ms: u64::MAX },
    ] {
        assert_eq!(mode.debug_text(), format!("{:?}", mode));
    }
}

#[test]
fn field_descriptor_takes_its_last_unit() {
    let field = FieldDescriptor::new("rpm", "Speed", "f64");
    assert_eq!(field.name, "rpm");
    assert_eq!(field.description, "Speed");
    assert_eq!(field.rust_type, "f64");
    assert_eq!(field.unit, None);
    let field = field.with_unit("rpm").with_unit("rad/s");
    assert_eq!(field.name, "rpm");
    assert_eq!(field.unit.as_deref(), Some("rad/s"));
    let duplicate = field.clone();
    assert_eq!(duplicate.unit, field.unit);
    assert_eq!(duplicate.description, field.description);
}

#[test]
fn driver_error_tells_its_message() {
    let error = DriverError { message: "bus off".to_string() };
    assert_eq!(error.to_message(), "bus off");
}

fn number(value: f64) -> Number {
    Number::from_f64(value).unwrap()
}

fn montreal() -> GpsSensor {
    GpsSensor::new(number(45.5017), number(-73.5673))
}

#[test]
fn gps_reports_its_fix() {
    let sensor = montreal();
    assert_eq!(sensor.id(), "gps");
    assert_eq!(sensor.display_name(), "GNSS Receiver");
    assert_eq!(sensor.command_mode(), CommandMode::Rest);
    let expected = parse(
        r#"{"latitude": 45.5017, "longitude": -73.5673, "altitude_m": 35.0, "speed_mps": 0.0,
            "satellites": 12}"#,
    );
    assert_eq!(sensor.read_data().unwrap(), expected);
}

#[test]
fn gps_answers_a_rate_and_a_no_op() {
    let sensor = montreal();
    let before = sensor.read_data().unwrap();
    let reply = sensor.execute_command(&GpsCommand { set_update_rate_hz: Some(10) }).unwrap();
    assert_eq!(reply, parse(r#"{"status": "ok", "update_rate_hz": 10}"#));
    let reply = sensor.execute_command(&GpsCommand { set_update_rate_hz: None }).unwrap();
    assert_eq!(reply, parse(r#"{"status": "no-op"}"#));
    assert_eq!(sensor.read_data().unwrap(), before);
}

#[test]
fn gps_schemas_name_every_field() {
    let sensor = montreal();
    let fields: Vec<(String, String, Option<String>)> = sensor
        .data_schema()
        .into_iter()
        .map(|f| (f.name, f.rust_type, f.unit))
        .collect();
    let unit = |u: &str| Some(u.to_string());
    let row = |n: &str, t: &str, u: Option<String>| (n.to_string(), t.to_string(), u);
    assert_eq!(
        fields,
        vec![
            row("latitude", "f64", unit("degrees")),
            row("longitude", "f64", unit("degrees")),
            row("altitude_m", "f64", unit("m")),
            row("speed_mps", "f64", unit("m/s")),
            row("satellites", "u8", None),
        ]
    );
    let command = sensor.command_schema();
    assert_eq!(command.len(), 1);
    assert_eq!(command[0].name, "set_update_rate_hz");
    assert_eq!(command[0].unit.as_deref(), Some("Hz"));
    let report = sensor.read_data().unwrap();
    for (name, _, _) in &fields {
        assert!(report.get(name).is_some());
    }
    assert_eq!(report.as_object().unwrap().len(), fields.len());
}

#[test]
fn motor_starts_at_rest() {
    let motor = MotorController::new("left", "Left motor");
    assert_eq!(motor.id(), "left");
    assert_eq!(motor.display_name(), "Left motor");
    assert_eq!(motor.command_mode(), CommandMode::Stream { interval_ms: 100 });
    assert_eq!(
        motor.read_data().unwrap(),
        parse(r#"{"rpm": 0.0, "current_amps": 0.0, "temperature_c": 25.0, "fault_code": 0}"#)
    );
}

#[test]
fn motor_report_has_floats_and_an_integer() {
    let report = MotorController::new("left", "Left motor").read_data().unwrap();
    assert!(report["rpm"].is_f64());
    assert!(report["temperature_c"].is_f64());
    assert!(report["fault_code"].is_u64());
}

#[test]
fn motor_reports_the_last_command() {
    let mut motor = MotorController::new("left", "Left motor");
    let reply = motor
        .execute_command(number(1000.0), number(1000.0 * 0.95), true)
        .unwrap();
    assert_eq!(reply, parse(r#"{"status": "sent", "target_rpm": 1000.0, "enabled": true}"#));
    assert_eq!(
        motor.read_data().unwrap(),
        parse(r#"{"rpm": 950.0, "current_amps": 0.0, "temperature_c": 25.0, "fault_code": 0}"#)
    );
    let reply = motor
        .execute_command(number(500.0), number(475.0), false)
        .unwrap();
    assert_eq!(reply, parse(r#"{"status": "sent", "target_rpm": 500.0, "enabled": false}"#));
    assert_eq!(
        motor.read_data().unwrap(),
        parse(r#"{"rpm": 0.0, "current_amps": 0.0, "temperature_c": 25.0, "fault_code": 0}"#)
    );
}

#[test]
fn motor_reports_four_entries_after_any_commands() {
    let mut motor = MotorController::new("left", "Left motor");
    for (target, enable) in vec![(1000.0, true), (-20.5, true), (3.0, false), (1e300, true)] {
        motor.execute_command(number(target), number(target * 0.95), enable).unwrap();
        let report = motor.read_data().unwrap();
        assert_eq!(report.as_object().unwrap().len(), 4);
        let speed = if enable { target * 0.95 } else { 0.0 };
        assert_eq!(report["rpm"].as_f64(), Some(speed));
        assert_eq!(report["current_amps"].as_f64(), Some(0.0));
        assert_eq!(report["temperature_c"].as_f64(), Some(25.0));
        assert_eq!(report["fault_code"].as_u64(), Some(0));
        assert_eq!(motor.read_data().unwrap(), report);
    }
}

#[test]
fn motor_schemas_name_every_field() {
    let motor = MotorController::new("left", "Left motor");
    let names: Vec<String> = motor.data_schema().into_iter().map(|f| f.name).collect();
    assert_eq!(names, vec!["rpm", "current_amps", "temperature_c", "fault_code"]);
    let fields = motor.command_schema();
    assert_eq!(fields.len(), 2);
    assert_eq!(fields[0].name, "target_rpm");
    assert_eq!(fields[0].unit.as_deref(), Some("rpm"));
    assert_eq!(fields[1].name, "enable");
    assert_eq!(fields[1].rust_type, "bool");
    assert_eq!(fields[1].unit, None);
}

/// A driver that keeps the payloads it gets, and fails on the payload `false`.
struct Recorder {
    seen: Mutex<Vec<Value>>,
}

impl SensorDriver for Recorder {
    fn id(&self) -> &'static str {
        "recorder"
    }

    fn display_name(&self) -> &'static str {
        "Recorder"
    }

    fn data_schema(&self) -> Vec<FieldDescriptor> {
        Vec::new()
    }

    fn command_schema(&self) -> Vec<FieldDescriptor> {
        Vec::new()
    }

    fn command_mode(&self) -> CommandMode {
        CommandMode::Rest
    }

    fn read_data(&self) -> Result<Value, DriverError> {
        Ok(Value::Null)
    }

    fn execute_command(&self, payload: &Value) -> Result<Value, DriverError> {
        self.seen.lock().unwrap().push(payload.clone());
        if payload == &Value::Bool(false) {
            Err(DriverError { message: "refused".to_string() })
        } else {
            Ok(Value::Null)
        }
    }
}

#[test]
fn stream_sends_at_a_tick_and_stops_when_cancelled() {
    assert_eq!(stream_action(StreamEvent::Tick), StreamAction::Send);
    assert_eq!(stream_action(StreamEvent::Cancelled), StreamAction::Stop);
}

#[test]
fn stream_sends_at_each_tick_until_cancelled() {
    let driver = Recorder { seen: Mutex::new(Vec::new()) };
    let payload = Value::from("go");
    for _ in 0..3 {
        assert!(matches!(stream_step(&driver, &payload, StreamEvent::Tick), StreamStep::Sent));
    }
    assert!(matches!(
        stream_step(&driver, &payload, StreamEvent::Cancelled),
        StreamStep::Stopped
    ));
    assert_eq!(*driver.seen.lock().unwrap(), vec![payload.clone(), payload.clone(), payload]);
}

#[test]
fn failed_command_does_not_end_the_stream() {
    let driver = Recorder { seen: Mutex::new(Vec::new()) };
    let payload = Value::Bool(false);
    for _ in 0..2 {
        match stream_step(&driver, &payload, StreamEvent::Tick) {
            StreamStep::Failed(error) => assert_eq!(error.to_message(), "refused"),
            other => panic!("{:?}", other),
        }
    }
    assert_eq!(driver.seen.lock().unwrap().len(), 2);
}

#[test]
fn after_send_tells_success_from_failure() {
    assert!(matches!(after_send(Ok(Value::Null)), StreamStep::Sent));
    let failed = after_send(Err(DriverError { message: "no bus".to_string() }));
    assert!(matches!(failed, StreamStep::Failed(error) if error.message == "no bus"));
}
