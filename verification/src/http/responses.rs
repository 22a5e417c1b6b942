//! The bodies that the HTTP routes answer with.
use crate::driver::{field_models, CommandMode, FieldDescriptor, FieldModel};
use crate::json::{json, Json};
use serde_json::Value;
use vstd::prelude::*;

verus! {

/// Every sensor, in the order of registration.
pub struct DiscoverResponse {
    pub sensors: Vec<SensorSummary>,
}

impl View for DiscoverResponse {
    type V = Seq<SummaryModel>;

    open spec fn view(&self) -> Seq<SummaryModel> {
        self.sensors@.map_values(|summary: SensorSummary| summary@)
    }
}

/// What a sensor summary says.
pub struct SummaryModel {
    pub id: Seq<char>,
    pub display_name: Seq<char>,
    pub command_mode: CommandMode,
    pub data_port: u16,
    pub command_port: u16,
    pub endpoints: EndpointsModel,
}

/// What a client needs to find a sensor.
pub struct SensorSummary {
    pub id: String,
    pub display_name: String,
    pub command_mode: CommandMode,
    pub data_port: u16,
    pub command_port: u16,
    /// HTTP paths for this sensor.
    pub endpoints: SensorEndpoints,
}

impl View for SensorSummary {
    type V = SummaryModel;

    open spec fn view(&self) -> SummaryModel {
        SummaryModel {
            id: self.id@,
            display_name: self.display_name@,
            command_mode: self.command_mode,
            data_port: self.data_port,
            command_port: self.command_port,
            endpoints: self.endpoints@,
        }
    }
}

/// The paths of a sensor's routes.
pub struct EndpointsModel {
    pub info: Seq<char>,
    pub data: Seq<char>,
    pub command: Seq<char>,
}

/// The HTTP paths of one sensor.
pub struct SensorEndpoints {
    pub info: String,
    pub data: String,
    pub command: String,
}

impl View for SensorEndpoints {
    type V = EndpointsModel;

    open spec fn view(&self) -> EndpointsModel {
        EndpointsModel { info: self.info@, data: self.data@, command: self.command@ }
    }
}

/// What a sensor info response says.
pub struct InfoModel {
    pub id: Seq<char>,
    pub display_name: Seq<char>,
    pub command_mode: CommandMode,
    pub data_port: u16,
    pub command_port: u16,
    pub data_schema: Seq<FieldModel>,
    pub command_schema: Seq<FieldModel>,
    pub udp_protocol: ProtocolModel,
}

/// A sensor with its schemas and its UDP protocol.
pub struct SensorInfoResponse {
    pub id: String,
    pub display_name: String,
    pub command_mode: CommandMode,
    pub data_port: u16,
    pub command_port: u16,
    pub data_schema: Vec<FieldDescriptor>,
    pub command_schema: Vec<FieldDescriptor>,
    pub udp_protocol: UdpProtocolInfo,
}

impl View for SensorInfoResponse {
    type V = InfoModel;

    open spec fn view(&self) -> InfoModel {
        InfoModel {
            id: self.id@,
            display_name: self.display_name@,
            command_mode: self.command_mode,
            data_port: self.data_port,
            command_port: self.command_port,
            data_schema: field_models(self.data_schema@),
            command_schema: field_models(self.command_schema@),
            udp_protocol: self.udp_protocol@,
        }
    }
}

/// What the description of the UDP protocol says.
pub struct ProtocolModel {
    pub header_format: Seq<char>,
    pub data_subscription: SubscriptionModel,
    pub command_protocol: CommandProtocolModel,
}

/// How to talk to a sensor over UDP.
pub struct UdpProtocolInfo {
    pub header_format: String,
    pub data_subscription: DataSubscriptionInfo,
    pub command_protocol: CommandProtocolInfo,
}

impl View for UdpProtocolInfo {
    type V = ProtocolModel;

    open spec fn view(&self) -> ProtocolModel {
        ProtocolModel {
            header_format: self.header_format@,
            data_subscription: self.data_subscription@,
            command_protocol: self.command_protocol@,
        }
    }
}

/// What the description of a data subscription says.
pub struct SubscriptionModel {
    pub description: Seq<char>,
    pub flow: Seq<char>,
    pub subscribe_packet: PacketModel,
    pub unsubscribe_packet: PacketModel,
    pub data_push_packet: PacketModel,
}

/// How to subscribe to a sensor's data.
pub struct DataSubscriptionInfo {
    pub description: String,
    pub flow: String,
    pub subscribe_packet: PacketExample,
    pub unsubscribe_packet: PacketExample,
    pub data_push_packet: PacketExample,
}

impl View for DataSubscriptionInfo {
    type V = SubscriptionModel;

    open spec fn view(&self) -> SubscriptionModel {
        SubscriptionModel {
            description: self.description@,
            flow: self.flow@,
            subscribe_packet: self.subscribe_packet@,
            unsubscribe_packet: self.unsubscribe_packet@,
            data_push_packet: self.data_push_packet@,
        }
    }
}

/// What the description of the command protocol says.
pub struct CommandProtocolModel {
    pub description: Seq<char>,
    pub flow: Seq<char>,
    pub packets: Seq<PacketModel>,
}

/// How to send commands to a sensor.
pub struct CommandProtocolInfo {
    pub description: String,
    pub flow: String,
    pub packets: Vec<PacketExample>,
}

impl View for CommandProtocolInfo {
    type V = CommandProtocolModel;

    open spec fn view(&self) -> CommandProtocolModel {
        CommandProtocolModel {
            description: self.description@,
            flow: self.flow@,
            packets: self.packets@.map_values(|packet: PacketExample| packet@),
        }
    }
}

/// What a packet example says.
pub struct PacketModel {
    pub name: Seq<char>,
    pub description: Seq<char>,
    pub header_hex: Seq<char>,
    pub payload_example: Option<Json>,
}

/// One kind of packet, with its header in print.
pub struct PacketExample {
    pub name: String,
    pub description: String,
    pub header_hex: String,
    pub payload_example: Option<Value>,
}

impl View for PacketExample {
    type V = PacketModel;

    open spec fn view(&self) -> PacketModel {
        PacketModel {
            name: self.name@,
            description: self.description@,
            header_hex: self.header_hex@,
            payload_example: match self.payload_example {
                Some(value) => Some(json(value)),
                None => None,
            },
        }
    }
}

/// What a driver answered to a command.
pub struct CommandResult {
    pub status: String,
    pub result: Value,
}

/// Why a request could not be answered.
pub struct ErrorResponse {
    pub error: String,
}

/// The model of a list of sensors shows each summary, part by part.
pub proof fn list_model_shows_the_list(response: DiscoverResponse)
    ensures
        response@.len() == response.sensors@.len(),
        forall|i: int|
            0 <= i < response.sensors@.len() ==> {
                let summary = response.sensors@[i];
                &&& (#[trigger] response@[i]).id == summary.id@
                &&& response@[i].display_name == summary.display_name@
                &&& response@[i].command_mode == summary.command_mode
                &&& response@[i].data_port == summary.data_port
                &&& response@[i].command_port == summary.command_port
                &&& response@[i].endpoints.info == summary.endpoints.info@
                &&& response@[i].endpoints.data == summary.endpoints.data@
                &&& response@[i].endpoints.command == summary.endpoints.command@
            },
{
}

/// The model of a sensor's description shows it, part by part.
pub proof fn info_model_shows_the_info(response: SensorInfoResponse)
    ensures
        response@.id == response.id@,
        response@.display_name == response.display_name@,
        response@.command_mode == response.command_mode,
        response@.data_port == response.data_port,
        response@.command_port == response.command_port,
        response@.data_schema == field_models(response.data_schema@),
        response@.command_schema == field_models(response.command_schema@),
        response@.udp_protocol == response.udp_protocol@,
{
}

/// Whether a model shows a packet example, part by part.
pub open spec fn shows_packet(model: PacketModel, packet: PacketExample) -> bool {
    &&& model.name == packet.name@
    &&& model.description == packet.description@
    &&& model.header_hex == packet.header_hex@
    &&& model.payload_example is Some <==> packet.payload_example is Some
    &&& packet.payload_example matches Some(value) ==> model.payload_example == Some(json(value))
}

/// The model of a protocol description shows it, part by part.
pub proof fn protocol_model_shows_the_protocol(info: UdpProtocolInfo)
    ensures
        info@.header_format == info.header_format@,
        info@.data_subscription.description == info.data_subscription.description@,
        info@.data_subscription.flow == info.data_subscription.flow@,
        shows_packet(
            info@.data_subscription.subscribe_packet,
            info.data_subscription.subscribe_packet,
        ),
        shows_packet(
            info@.data_subscription.unsubscribe_packet,
            info.data_subscription.unsubscribe_packet,
        ),
        shows_packet(
            info@.data_subscription.data_push_packet,
            info.data_subscription.data_push_packet,
        ),
        info@.command_protocol.description == info.command_protocol.description@,
        info@.command_protocol.flow == info.command_protocol.flow@,
        info@.command_protocol.packets.len() == info.command_protocol.packets@.len(),
        forall|i: int|
            0 <= i < info.command_protocol.packets@.len() ==> shows_packet(
                #[trigger] info@.command_protocol.packets[i],
                info.command_protocol.packets@[i],
            ),
{
}

} // verus!
