//! What the framework knows of a sensor driver.
use crate::text::{decimal, decimal_reads_back, decimal_text, is_decimal, join3, names_number};
use serde_json::Value;
use std::time::Duration;
use vstd::prelude::*;

verus! {

/// How many nanoseconds a `Duration` lasts.
pub uninterp spec fn nanos(duration: Duration) -> nat;

/// `Duration::as_millis`: the whole milliseconds that the duration contains.
pub assume_specification[ Duration::as_millis ](duration: &Duration) -> (millis: u128)
    ensures
        millis == nanos(*duration) / 1_000_000,
;

/// `Duration::from_millis`: a duration of so many milliseconds.
pub assume_specification[ Duration::from_millis ](millis: u64) -> (duration: Duration)
    ensures
        nanos(duration) == millis * 1_000_000,
;

/// Whether commands are one-shot or must be continuously re-sent.
#[derive(Debug, Clone, Copy, PartialEq, Eq, Structural)]
pub enum CommandMode {
    /// Request/response: send once, get one reply.
    Rest,
    /// Streaming: command must be re-sent at `interval_ms` to satisfy
    /// a hardware watchdog (e.g. CAN bus motor controllers).
    Stream {
        /// Re-send interval in milliseconds.
        interval_ms: u64,
    },
}

/// Streaming at `interval`: its whole milliseconds, kept to 64 bits.
pub open spec fn stream_mode(interval: Duration) -> CommandMode {
    CommandMode::Stream {
        interval_ms: ((nanos(interval) / 1_000_000) % 0x1_0000_0000_0000_0000) as u64,
    }
}

/// How many nanoseconds lie between two commands of a stream.
pub open spec fn interval_nanos(mode: CommandMode) -> Option<nat> {
    match mode {
        CommandMode::Rest => None,
        CommandMode::Stream { interval_ms } => Some((interval_ms * 1_000_000) as nat),
    }
}

/// A stream is re-sent at the interval that it was made with, less what that
/// interval has below a millisecond, as long as its milliseconds fit in 64 bits.
pub proof fn stream_keeps_interval(interval: Duration)
    requires
        nanos(interval) / 1_000_000 < 0x1_0000_0000_0000_0000,
    ensures
        interval_nanos(stream_mode(interval)) == Some(
            (nanos(interval) - nanos(interval) % 1_000_000) as nat,
        ),
        nanos(interval) % 1_000_000 == 0 ==> interval_nanos(stream_mode(interval)) == Some(
            nanos(interval),
        ),
{
}

/// A stream has the whole milliseconds of the interval that it was made with, as long as
/// they fit in 64 bits; else it has what is left of them after steps of 2 to the 64.
pub proof fn stream_has_the_milliseconds(interval: Duration)
    ensures
        stream_mode(interval) matches CommandMode::Stream { interval_ms } && {
            let whole = nanos(interval) as int / 1_000_000;
            &&& interval_ms <= whole
            &&& (whole - interval_ms) % 0x1_0000_0000_0000_0000 == 0
            &&& whole < 0x1_0000_0000_0000_0000 ==> interval_ms * 1_000_000 <= nanos(interval)
                < (interval_ms + 1) * 1_000_000
        },
{
    let whole = nanos(interval) as int / 1_000_000;
    let kept = whole % 0x1_0000_0000_0000_0000;
    assert(whole - kept == (whole / 0x1_0000_0000_0000_0000) * 0x1_0000_0000_0000_0000);
}

/// A one-shot mode has no interval, and a stream's lasts as long as its milliseconds.
pub proof fn interval_lasts_its_milliseconds(interval_ms: u64)
    ensures
        interval_nanos(CommandMode::Rest) is None,
        interval_nanos(CommandMode::Stream { interval_ms }) == Some(
            (interval_ms as int * 1_000_000) as nat,
        ),
{
}

/// The printed mode tells the mode: the word alone for a one-shot mode, and for a stream
/// its milliseconds.
pub proof fn debug_text_tells_the_mode(mode: CommandMode)
    ensures
        match mode {
            CommandMode::Rest => mode_debug_text(mode) == "Rest"@,
            CommandMode::Stream { interval_ms } => names_number(
                mode_debug_text(mode),
                "Stream { interval_ms: "@,
                interval_ms as nat,
                " }"@,
            ),
        },
{
    if let CommandMode::Stream { interval_ms } = mode {
        decimal_reads_back(interval_ms as nat);
        assert(is_decimal(decimal_text(interval_ms as nat), interval_ms as nat));
    }
}

/// A command mode as `{:?}` prints it.
pub open spec fn mode_debug_text(mode: CommandMode) -> Seq<char> {
    match mode {
        CommandMode::Rest => "Rest"@,
        CommandMode::Stream { interval_ms } => "Stream { interval_ms: "@ + decimal_text(
            interval_ms as nat,
        ) + " }"@,
    }
}

impl CommandMode {
    /// Streaming at the given interval.
    ///
    /// What the interval has below a millisecond is dropped, and so is what its
    /// milliseconds have above 64 bits.
    pub fn stream(interval: Duration) -> (mode: Self)
        ensures
            mode == stream_mode(interval),
            mode is Stream,
    {
        let millis: u128 = interval.as_millis();
        assert(millis as u64 == millis % 0x1_0000_0000_0000_0000) by (bit_vector);
        CommandMode::Stream { interval_ms: #[verifier::truncate] (millis as u64) }
    }

    /// The re-send interval; a one-shot mode has none.
    pub fn interval(&self) -> (interval: Option<Duration>)
        ensures
            match interval {
                Some(duration) => interval_nanos(*self) == Some(nanos(duration)),
                None => interval_nanos(*self) is None,
            },
            interval is None <==> self is Rest,
    {
        match self {
            CommandMode::Rest => None,
            CommandMode::Stream { interval_ms } => Some(Duration::from_millis(*interval_ms)),
        }
    }

    /// The mode as `{:?}` prints it.
    pub fn debug_text(&self) -> (text: String)
        ensures
            text@ == mode_debug_text(*self),
    {
        match self {
            CommandMode::Rest => "Rest".to_owned(),
            CommandMode::Stream { interval_ms } => join3(
                "Stream { interval_ms: ",
                decimal(*interval_ms).as_str(),
                " }",
            ),
        }
    }
}

/// The texts of a field descriptor.
pub struct FieldModel {
    pub name: Seq<char>,
    pub description: Seq<char>,
    pub rust_type: Seq<char>,
    pub unit: Option<Seq<char>>,
}

/// Describes one field in a data or command schema (for OpenAPI/Scalar docs).
#[derive(Debug)]
pub struct FieldDescriptor {
    pub name: String,
    pub description: String,
    /// Rust type name: "f64", "u16", "bool", "String", etc.
    pub rust_type: String,
    /// Physical unit if applicable: "degrees", "rpm", "m/s".
    pub unit: Option<String>,
}

/// The text in an optional string.
pub open spec fn optional_text(text: Option<String>) -> Option<Seq<char>> {
    match text {
        Some(s) => Some(s@),
        None => None,
    }
}

impl View for FieldDescriptor {
    type V = FieldModel;

    open spec fn view(&self) -> FieldModel {
        FieldModel {
            name: self.name@,
            description: self.description@,
            rust_type: self.rust_type@,
            unit: optional_text(self.unit),
        }
    }
}

impl Clone for FieldDescriptor {
    fn clone(&self) -> (duplicate: Self)
        ensures
            duplicate@ == self@,
            duplicate.name@ == self.name@,
            duplicate.description@ == self.description@,
            duplicate.rust_type@ == self.rust_type@,
            optional_text(duplicate.unit) == optional_text(self.unit),
    {
        FieldDescriptor {
            name: self.name.clone(),
            description: self.description.clone(),
            rust_type: self.rust_type.clone(),
            unit: match &self.unit {
                Some(unit) => Some(unit.clone()),
                None => None,
            },
        }
    }
}

/// A field without a unit.
pub open spec fn plain_field(
    name: Seq<char>,
    description: Seq<char>,
    rust_type: Seq<char>,
) -> FieldModel {
    FieldModel { name, description, rust_type, unit: None }
}

/// A field with a unit.
pub open spec fn unit_field(
    name: Seq<char>,
    description: Seq<char>,
    rust_type: Seq<char>,
    unit: Seq<char>,
) -> FieldModel {
    FieldModel { name, description, rust_type, unit: Some(unit) }
}

impl FieldDescriptor {
    /// A field without a unit.
    pub fn new(name: &str, description: &str, rust_type: &str) -> (field: Self)
        ensures
            field@ == plain_field(name@, description@, rust_type@),
            field.name@ == name@,
            field.description@ == description@,
            field.rust_type@ == rust_type@,
            field.unit is None,
    {
        FieldDescriptor {
            name: name.to_owned(),
            description: description.to_owned(),
            rust_type: rust_type.to_owned(),
            unit: None,
        }
    }

    /// The same field with this unit, in place of the one it had.
    pub fn with_unit(self, unit: &str) -> (field: Self)
        ensures
            field@ == (FieldModel { unit: Some(unit@), ..self@ }),
            field.unit matches Some(text) && text@ == unit@,
            field.name == self.name,
            field.description == self.description,
            field.rust_type == self.rust_type,
    {
        let mut field = self;
        field.unit = Some(unit.to_owned());
        field
    }
}

/// The models of the fields of a schema, in order.
pub open spec fn field_models(fields: Seq<FieldDescriptor>) -> Seq<FieldModel> {
    fields.map_values(|field: FieldDescriptor| field@)
}

/// The models of some fields show the fields, each text for itself.
pub proof fn models_show_the_fields(fields: Seq<FieldDescriptor>)
    ensures
        field_models(fields).len() == fields.len(),
        forall|i: int|
            0 <= i < fields.len() ==> {
                let model = #[trigger] field_models(fields)[i];
                &&& model.name == fields[i].name@
                &&& model.description == fields[i].description@
                &&& model.rust_type == fields[i].rust_type@
                &&& model.unit is Some <==> fields[i].unit is Some
                &&& fields[i].unit matches Some(unit) ==> model.unit == Some(unit@)
            },
{
}

/// A copy of a schema.
pub(crate) fn copy_fields(fields: &Vec<FieldDescriptor>) -> (duplicate: Vec<FieldDescriptor>)
    ensures
        field_models(duplicate@) == field_models(fields@),
{
    let mut duplicate: Vec<FieldDescriptor> = Vec::new();
    let mut i: usize = 0;
    while i < fields.len()
        invariant
            i <= fields.len(),
            duplicate.len() == i,
            forall|j: int| 0 <= j < i ==> #[trigger] duplicate@[j]@ == fields@[j]@,
        decreases fields.len() - i,
    {
        duplicate.push(fields[i].clone());
        i += 1;
    }
    assert(field_models(duplicate@) =~= field_models(fields@));
    duplicate
}

/// Why a driver could not answer.
#[derive(Debug)]
pub struct DriverError {
    /// The reason in words.
    pub message: String,
}

impl DriverError {
    /// The reason in words.
    pub fn to_message(&self) -> (text: String)
        ensures
            text@ == self.message@,
    {
        self.message.clone()
    }
}

/// The core trait every sensor driver must implement.
///
/// The framework handles UDP sockets, HTTP routes, and documentation.
pub trait SensorDriver: Send + Sync + 'static {
    /// Unique string ID used in UDP port mapping and HTTP routes.
    fn id(&self) -> &'static str;

    /// Human-readable name shown in Scalar UI.
    fn display_name(&self) -> &'static str;

    /// Describes the data fields this sensor produces.
    fn data_schema(&self) -> Vec<FieldDescriptor>;

    /// Describes the command fields this sensor accepts.
    fn command_schema(&self) -> Vec<FieldDescriptor>;

    /// REST or Stream (with watchdog interval).
    fn command_mode(&self) -> CommandMode;

    /// Read current sensor data. Returns a JSON-serializable value.
    fn read_data(&self) -> Result<Value, DriverError>;

    /// Execute a command. For Stream-mode drivers, the framework
    /// calls this repeatedly at the configured interval.
    fn execute_command(&self, payload: &Value) -> Result<Value, DriverError>;
}

} // verus!
