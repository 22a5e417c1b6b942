//! What the registry knows of each sensor.
use crate::driver::{copy_fields, field_models, CommandMode, FieldDescriptor, FieldModel};
use vstd::prelude::*;

verus! {

/// What a registered sensor is.
pub struct SensorModel {
    pub id: Seq<char>,
    pub display_name: Seq<char>,
    pub command_mode: CommandMode,
    pub data_port: u16,
    pub command_port: u16,
    pub data_schema: Seq<FieldModel>,
    pub command_schema: Seq<FieldModel>,
}

/// One registered sensor: what its driver says of it, and the UDP ports it was given.
#[derive(Debug)]
pub struct SensorInfo {
    pub id: String,
    pub display_name: String,
    pub command_mode: CommandMode,
    pub data_port: u16,
    pub command_port: u16,
    pub data_schema: Vec<FieldDescriptor>,
    pub command_schema: Vec<FieldDescriptor>,
}

impl View for SensorInfo {
    type V = SensorModel;

    open spec fn view(&self) -> SensorModel {
        SensorModel {
            id: self.id@,
            display_name: self.display_name@,
            command_mode: self.command_mode,
            data_port: self.data_port,
            command_port: self.command_port,
            data_schema: field_models(self.data_schema@),
            command_schema: field_models(self.command_schema@),
        }
    }
}

impl Clone for SensorInfo {
    fn clone(&self) -> (duplicate: Self)
        ensures
            duplicate@ == self@,
            duplicate.id@ == self.id@,
            duplicate.display_name@ == self.display_name@,
            duplicate.command_mode == self.command_mode,
            duplicate.data_port == self.data_port,
            duplicate.command_port == self.command_port,
            field_models(duplicate.data_schema@) == field_models(self.data_schema@),
            field_models(duplicate.command_schema@) == field_models(self.command_schema@),
    {
        SensorInfo {
            id: self.id.clone(),
            display_name: self.display_name.clone(),
            command_mode: self.command_mode,
            data_port: self.data_port,
            command_port: self.command_port,
            data_schema: copy_fields(&self.data_schema),
            command_schema: copy_fields(&self.command_schema),
        }
    }
}

/// The models of the registered sensors, in order.
pub open spec fn sensor_models(sensors: Seq<SensorInfo>) -> Seq<SensorModel> {
    sensors.map_values(|sensor: SensorInfo| sensor@)
}

/// The models of some sensors show the sensors, in order and part by part.
pub proof fn models_show_the_sensors(sensors: Seq<SensorInfo>)
    ensures
        sensor_models(sensors).len() == sensors.len(),
        forall|i: int|
            0 <= i < sensors.len() ==> {
                let model = #[trigger] sensor_models(sensors)[i];
                &&& model == sensors[i]@
                &&& model.id == sensors[i].id@
                &&& model.display_name == sensors[i].display_name@
                &&& model.command_mode == sensors[i].command_mode
                &&& model.data_port == sensors[i].data_port
                &&& model.command_port == sensors[i].command_port
                &&& model.data_schema == field_models(sensors[i].data_schema@)
                &&& model.command_schema == field_models(sensors[i].command_schema@)
            },
{
}

/// Whether no two sensors share an ID.
pub open spec fn ids_are_unique(sensors: Seq<SensorModel>) -> bool {
    forall|i: int, j: int|
        0 <= i < j < sensors.len() ==> #[trigger] sensors[i].id != #[trigger] sensors[j].id
}

} // verus!
