//! How a sensor is reached over UDP, in words and examples.
use crate::driver::{mode_debug_text, CommandMode};
use crate::http::fields::{
    build_example_payload, example_payload, example_shows_each_field, exemplifies,
};
use crate::http::responses::{
    CommandProtocolInfo, CommandProtocolModel, DataSubscriptionInfo, PacketExample, PacketModel,
    ProtocolModel, SubscriptionModel, UdpProtocolInfo,
};
use crate::json::{integer, integer_value, object, Json, NumberModel};
use crate::packet::{header_hex, header_reads_back, header_text, mention, message_name, MessageType};
use crate::registry::{SensorInfo, SensorModel};
use crate::text::{
    decimal, decimal_reads_back, decimal_text, is_decimal, join3, names_number,
};
use serde_json::Value;
use vstd::prelude::*;

verus! {

/// The example of a one-shot command.
pub open spec fn command_packet(sensor: SensorModel, version: u8) -> PacketModel {
    PacketModel {
        name: "Command"@,
        description: "Send a one-shot command"@,
        header_hex: header_text(version, MessageType::Command, " 01 00 + JSON"@),
        payload_example: Some(example_payload(sensor.command_schema)),
    }
}

/// The example of the start of a command stream.
pub open spec fn stream_start_packet(
    sensor: SensorModel,
    version: u8,
    interval_ms: u64,
) -> PacketModel {
    PacketModel {
        name: "StreamStart"@,
        description: "Begin streaming command every "@ + decimal_text(interval_ms as nat)
            + "ms (watchdog keepalive)"@,
        header_hex: header_text(version, MessageType::StreamStart, " 01 00 + JSON"@),
        payload_example: Some(example_payload(sensor.command_schema)),
    }
}

/// The example of the stop of a command stream.
pub open spec fn stream_stop_packet(version: u8) -> PacketModel {
    PacketModel {
        name: "StreamStop"@,
        description: "Stop the active command stream"@,
        header_hex: header_text(version, MessageType::StreamStop, " 01 00"@),
        payload_example: None,
    }
}

/// The packets that a sensor's command port takes.
pub open spec fn command_packets(sensor: SensorModel, version: u8) -> Seq<PacketModel> {
    match sensor.command_mode {
        CommandMode::Rest => seq![command_packet(sensor, version)],
        CommandMode::Stream { interval_ms } => seq![
            command_packet(sensor, version),
            stream_start_packet(sensor, version, interval_ms),
            stream_stop_packet(version),
        ],
    }
}

/// Who sends what when a command is given.
pub open spec fn command_flow(mode: CommandMode) -> Seq<char> {
    match mode {
        CommandMode::Rest =>
            "Client --Command(0x10)--> Robot --CommandAck(0x11)--> Client"@,
        CommandMode::Stream { interval_ms } =>
            "Client --StreamStart(0x12)--> Robot --StreamAck(0x14)--> Client (robot re-sends to HW every "@
                + decimal_text(interval_ms as nat)
                + "ms) | Client --StreamStop(0x13)--> Robot --StreamAck(0x14)--> Client"@,
    }
}

/// The payload that asks for a push every 100 milliseconds.
pub open spec fn subscribe_payload() -> Json {
    Json::Object(Map::empty().insert("interval_ms"@, integer_value(100)))
}

/// How to subscribe to a sensor's data.
pub open spec fn data_subscription(sensor: SensorModel, version: u8) -> SubscriptionModel {
    SubscriptionModel {
        description: "Send Subscribe to UDP port "@ + decimal_text(sensor.data_port as nat)
            + " and the robot will push sensor data to your address."@,
        flow:
            "Client --Subscribe(0x01)--> Robot --SubscribeAck(0x04)--> Client, then Robot --Data(0x03)--> Client (continuously)"@,
        subscribe_packet: PacketModel {
            name: "Subscribe"@,
            description: "Subscribe to data pushes. Optional payload: {\"interval_ms\": 100}"@,
            header_hex: header_text(version, MessageType::Subscribe, " 01 00"@),
            payload_example: Some(subscribe_payload()),
        },
        unsubscribe_packet: PacketModel {
            name: "Unsubscribe"@,
            description: "Stop receiving data pushes"@,
            header_hex: header_text(version, MessageType::Unsubscribe, " 01 00"@),
            payload_example: None,
        },
        data_push_packet: PacketModel {
            name: "Data"@,
            description: "Pushed by robot to subscriber"@,
            header_hex: header_text(version, MessageType::Data, " XX XX + JSON"@),
            payload_example: Some(example_payload(sensor.data_schema)),
        },
    }
}

/// How to talk to a sensor over UDP.
pub open spec fn protocol_info(sensor: SensorModel, version: u8) -> ProtocolModel {
    ProtocolModel {
        header_format: "| version (1B) | msg_type (1B) | seq_num (2B LE) | payload (JSON) |"@,
        data_subscription: data_subscription(sensor, version),
        command_protocol: CommandProtocolModel {
            description: "Send commands to UDP port "@ + decimal_text(sensor.command_port as nat)
                + ". Mode: "@ + mode_debug_text(sensor.command_mode) + "."@,
            flow: command_flow(sensor.command_mode),
            packets: command_packets(sensor, version),
        },
    }
}

fn subscription(info: &SensorInfo, version: u8) -> (built: DataSubscriptionInfo)
    ensures
        built@ == data_subscription(info@, version),
{
    let mut subscribe = serde_json::Map::<String, Value>::new();
    subscribe.insert("interval_ms".to_owned(), integer(100));
    DataSubscriptionInfo {
        description: join3(
            "Send Subscribe to UDP port ",
            decimal(info.data_port as u64).as_str(),
            " and the robot will push sensor data to your address.",
        ),
        flow:
            "Client --Subscribe(0x01)--> Robot --SubscribeAck(0x04)--> Client, then Robot --Data(0x03)--> Client (continuously)".to_owned(),
        subscribe_packet: PacketExample {
            name: "Subscribe".to_owned(),
            description: "Subscribe to data pushes. Optional payload: {\"interval_ms\": 100}".to_owned(),
            header_hex: header_hex(version, MessageType::Subscribe, " 01 00"),
            payload_example: Some(object(subscribe)),
        },
        unsubscribe_packet: PacketExample {
            name: "Unsubscribe".to_owned(),
            description: "Stop receiving data pushes".to_owned(),
            header_hex: header_hex(version, MessageType::Unsubscribe, " 01 00"),
            payload_example: None,
        },
        data_push_packet: PacketExample {
            name: "Data".to_owned(),
            description: "Pushed by robot to subscriber".to_owned(),
            header_hex: header_hex(version, MessageType::Data, " XX XX + JSON"),
            payload_example: Some(build_example_payload(info.data_schema.as_slice())),
        },
    }
}

/// How to talk to a sensor over UDP, for packets of the given protocol version.
pub fn build_protocol_info(info: &SensorInfo, version: u8) -> (built: UdpProtocolInfo)
    ensures
        built@ == protocol_info(info@, version),
{
    let example_payload = build_example_payload(info.command_schema.as_slice());

    let mut cmd_packets: Vec<PacketExample> = Vec::new();
    cmd_packets.push(
        PacketExample {
            name: "Command".to_owned(),
            description: "Send a one-shot command".to_owned(),
            header_hex: header_hex(version, MessageType::Command, " 01 00 + JSON"),
            payload_example: Some(example_payload.clone()),
        },
    );
    assert(cmd_packets@[0]@ == command_packet(info@, version));

    let cmd_flow = match info.command_mode {
        CommandMode::Rest => "Client --Command(0x10)--> Robot --CommandAck(0x11)--> Client".to_owned(),
        CommandMode::Stream { interval_ms } => {
            let interval = decimal(interval_ms);
            cmd_packets.push(
                PacketExample {
                    name: "StreamStart".to_owned(),
                    description: join3(
                        "Begin streaming command every ",
                        interval.as_str(),
                        "ms (watchdog keepalive)",
                    ),
                    header_hex: header_hex(version, MessageType::StreamStart, " 01 00 + JSON"),
                    payload_example: Some(example_payload),
                },
            );
            cmd_packets.push(
                PacketExample {
                    name: "StreamStop".to_owned(),
                    description: "Stop the active command stream".to_owned(),
                    header_hex: header_hex(version, MessageType::StreamStop, " 01 00"),
                    payload_example: None,
                },
            );
            join3(
                "Client --StreamStart(0x12)--> Robot --StreamAck(0x14)--> Client (robot re-sends to HW every ",
                interval.as_str(),
                "ms) | Client --StreamStop(0x13)--> Robot --StreamAck(0x14)--> Client",
            )
        },
    };

    let built = UdpProtocolInfo {
        header_format: "| version (1B) | msg_type (1B) | seq_num (2B LE) | payload (JSON) |".to_owned(),
        data_subscription: subscription(info, version),
        command_protocol: CommandProtocolInfo {
            description: join3(
                "Send commands to UDP port ",
                decimal(info.command_port as u64).as_str(),
                ". Mode: ",
            ).concat(info.command_mode.debug_text().as_str()).concat("."),
            flow: cmd_flow,
            packets: cmd_packets,
        },
    };
    assert(built.command_protocol@.packets =~= command_packets(info@, version));
    built
}

/// The text on subscribing names the sensor's data port, the pushed example has the
/// sensor's data fields, and a subscription asks for a push every 100 milliseconds.
pub proof fn subscription_is_about_the_data(sensor: SensorModel, version: u8)
    ensures
        ({
            let subscription = protocol_info(sensor, version).data_subscription;
            &&& names_number(
                subscription.description,
                "Send Subscribe to UDP port "@,
                sensor.data_port as nat,
                " and the robot will push sensor data to your address."@,
            )
            &&& subscription.data_push_packet.payload_example matches Some(example)
                && exemplifies(example, sensor.data_schema)
            &&& subscription.subscribe_packet.payload_example matches Some(Json::Object(members))
                && members.dom() == set!["interval_ms"@] && members["interval_ms"@]
                == Json::Number(NumberModel::Integer(100))
            &&& subscription.unsubscribe_packet.payload_example is None
        }),
{
    let port = sensor.data_port as nat;
    decimal_reads_back(port);
    assert(is_decimal(decimal_text(port), port));
    example_shows_each_field(sensor.data_schema);
    let subscription = protocol_info(sensor, version).data_subscription;
    assert(subscription.subscribe_packet.payload_example->0->Object_0.dom()
        =~= set!["interval_ms"@]);
}

/// How to subscribe follows from the data port and the data fields alone: neither the
/// name, the mode, the command port nor the command fields of a sensor matter.
pub proof fn subscription_ignores_commands(left: SensorModel, right: SensorModel, version: u8)
    requires
        left.data_port == right.data_port,
        left.data_schema == right.data_schema,
    ensures
        protocol_info(left, version).data_subscription == protocol_info(
            right,
            version,
        ).data_subscription,
{
}

/// How to subscribe to two sensors differs in the port, in the pushed example and in the
/// version that the headers show, and in nothing else.
pub proof fn subscriptions_are_alike(
    left: SensorModel,
    version: u8,
    right: SensorModel,
    other_version: u8,
)
    ensures
        ({
            let one = protocol_info(left, version);
            let other = protocol_info(right, other_version);
            let here = one.data_subscription;
            let there = other.data_subscription;
            &&& one.header_format == other.header_format
            &&& here.flow == there.flow
            &&& here.subscribe_packet.name == there.subscribe_packet.name
            &&& here.subscribe_packet.description == there.subscribe_packet.description
            &&& here.unsubscribe_packet.name == there.unsubscribe_packet.name
            &&& here.unsubscribe_packet.description == there.unsubscribe_packet.description
            &&& here.data_push_packet.name == there.data_push_packet.name
            &&& here.data_push_packet.description == there.data_push_packet.description
        }),
{
}

/// The text on commands names the sensor's command port and its mode, and each packet
/// that carries a command shows one with the sensor's command fields.
pub proof fn command_protocol_is_about_the_commands(sensor: SensorModel, version: u8)
    ensures
        ({
            let protocol = protocol_info(sensor, version).command_protocol;
            &&& names_number(
                protocol.description,
                "Send commands to UDP port "@,
                sensor.command_port as nat,
                ". Mode: "@ + mode_debug_text(sensor.command_mode) + "."@,
            )
            &&& protocol.packets.len() == if sensor.command_mode is Rest {
                1nat
            } else {
                3
            }
            &&& protocol.packets[0].payload_example matches Some(example) && exemplifies(
                example,
                sensor.command_schema,
            )
            &&& protocol.packets[0].description == "Send a one-shot command"@
        }),
{
    let port = sensor.command_port as nat;
    decimal_reads_back(port);
    assert(is_decimal(decimal_text(port), port));
    example_shows_each_field(sensor.command_schema);
    let protocol = protocol_info(sensor, version).command_protocol;
    assert(protocol.description =~= "Send commands to UDP port "@ + decimal_text(port)
        + (". Mode: "@ + mode_debug_text(sensor.command_mode) + "."@));
}

/// A stream is started with the command of the sensor, at the interval of its mode, and
/// stopped without one.
pub proof fn stream_packets_keep_the_interval(
    sensor: SensorModel,
    version: u8,
    interval_ms: u64,
)
    requires
        sensor.command_mode == (CommandMode::Stream { interval_ms }),
    ensures
        ({
            let protocol = protocol_info(sensor, version).command_protocol;
            &&& names_number(
                protocol.flow,
                "Client --StreamStart(0x12)--> Robot --StreamAck(0x14)--> Client (robot re-sends to HW every "@,
                interval_ms as nat,
                "ms) | Client --StreamStop(0x13)--> Robot --StreamAck(0x14)--> Client"@,
            )
            &&& names_number(
                protocol.packets[1].description,
                "Begin streaming command every "@,
                interval_ms as nat,
                "ms (watchdog keepalive)"@,
            )
            &&& protocol.packets[1].payload_example == protocol.packets[0].payload_example
            &&& protocol.packets[2].description == "Stop the active command stream"@
            &&& protocol.packets[2].payload_example is None
        }),
{
    decimal_reads_back(interval_ms as nat);
    assert(is_decimal(decimal_text(interval_ms as nat), interval_ms as nat));
}

/// How to send commands follows from the command port, the mode and the command fields
/// alone: neither the name, the data port nor the data fields of a sensor matter.
pub proof fn command_protocol_ignores_data(left: SensorModel, right: SensorModel, version: u8)
    requires
        left.command_port == right.command_port,
        left.command_mode == right.command_mode,
        left.command_schema == right.command_schema,
    ensures
        protocol_info(left, version).command_protocol == protocol_info(
            right,
            version,
        ).command_protocol,
{
}

/// Behind version and code, a printed header has the sequence number of a first packet,
/// low byte first, or blanks for it where the robot counts; where a payload follows, the
/// header says so.
pub proof fn headers_end_in_the_sequence_number(sensor: SensorModel, version: u8)
    ensures
        ({
            let info = protocol_info(sensor, version);
            let subscription = info.data_subscription;
            let packets = info.command_protocol.packets;
            &&& subscription.subscribe_packet.header_hex.skip(5) == " 01 00"@
            &&& subscription.unsubscribe_packet.header_hex.skip(5) == " 01 00"@
            &&& subscription.data_push_packet.header_hex.skip(5) == " XX XX + JSON"@
            &&& packets[0].header_hex.skip(5) == " 01 00 + JSON"@
            &&& sensor.command_mode is Stream ==> packets[1].header_hex.skip(5)
                == " 01 00 + JSON"@ && packets[2].header_hex.skip(5) == " 01 00"@
        }),
{
    header_reads_back(version, MessageType::Subscribe, " 01 00"@);
    header_reads_back(version, MessageType::Unsubscribe, " 01 00"@);
    header_reads_back(version, MessageType::Data, " XX XX + JSON"@);
    header_reads_back(version, MessageType::Command, " 01 00 + JSON"@);
    header_reads_back(version, MessageType::StreamStart, " 01 00 + JSON"@);
    header_reads_back(version, MessageType::StreamStop, " 01 00"@);
}

/// Whether a packet example is named after the message whose code its header has.
pub open spec fn shows_message(packet: PacketModel, version: u8, message: MessageType) -> bool {
    &&& packet.name == message_name(message)
    &&& header_text(version, message, ""@).is_prefix_of(packet.header_hex)
}

/// Each packet example of a sensor is named after the message whose code its header
/// has, behind the protocol version. A sensor takes stream packets if and only if it
/// is in stream mode.
pub proof fn packets_show_their_message(sensor: SensorModel, version: u8)
    ensures
        shows_message(
            data_subscription(sensor, version).subscribe_packet,
            version,
            MessageType::Subscribe,
        ),
        shows_message(
            data_subscription(sensor, version).unsubscribe_packet,
            version,
            MessageType::Unsubscribe,
        ),
        shows_message(
            data_subscription(sensor, version).data_push_packet,
            version,
            MessageType::Data,
        ),
        shows_message(command_packets(sensor, version)[0], version, MessageType::Command),
        sensor.command_mode is Rest <==> command_packets(sensor, version).len() == 1,
        sensor.command_mode is Stream ==> {
            &&& command_packets(sensor, version).len() == 3
            &&& shows_message(
                command_packets(sensor, version)[1],
                version,
                MessageType::StreamStart,
            )
            &&& shows_message(command_packets(sensor, version)[2], version, MessageType::StreamStop)
        },
{
    reveal_strlit("");
    header_extends(version, MessageType::Subscribe, " 01 00"@);
    header_extends(version, MessageType::Unsubscribe, " 01 00"@);
    header_extends(version, MessageType::Data, " XX XX + JSON"@);
    header_extends(version, MessageType::Command, " 01 00 + JSON"@);
    header_extends(version, MessageType::StreamStart, " 01 00 + JSON"@);
    header_extends(version, MessageType::StreamStop, " 01 00"@);
}

proof fn header_extends(version: u8, message: MessageType, rest: Seq<char>)
    ensures
        header_text(version, message, ""@).is_prefix_of(header_text(version, message, rest)),
{
    reveal_strlit("");
    let head = header_text(version, message, ""@);
    let whole = header_text(version, message, rest);
    assert(head =~= whole.take(head.len() as int));
}

/// The flow texts name each message with the code that its packets carry.
pub proof fn flows_show_codes(sensor: SensorModel, version: u8)
    ensures
        protocol_info(sensor, version).data_subscription == data_subscription(sensor, version),
        protocol_info(sensor, version).command_protocol.flow == command_flow(sensor.command_mode),
        protocol_info(sensor, version).command_protocol.packets == command_packets(
            sensor,
            version,
        ),
        data_subscription(sensor, version).flow == "Client --"@ + mention(MessageType::Subscribe)
            + "--> Robot --"@ + mention(MessageType::SubscribeAck) + "--> Client, then Robot --"@
            + mention(MessageType::Data) + "--> Client (continuously)"@,
        match sensor.command_mode {
            CommandMode::Rest => command_flow(sensor.command_mode) == "Client --"@ + mention(
                MessageType::Command,
            ) + "--> Robot --"@ + mention(MessageType::CommandAck) + "--> Client"@,
            CommandMode::Stream { interval_ms } => command_flow(sensor.command_mode)
                == "Client --"@ + mention(MessageType::StreamStart) + "--> Robot --"@ + mention(
                MessageType::StreamAck,
            ) + "--> Client (robot re-sends to HW every "@ + decimal_text(interval_ms as nat)
                + "ms) | Client --"@ + mention(MessageType::StreamStop) + "--> Robot --"@ + mention(
                MessageType::StreamAck,
            ) + "--> Client"@,
        },
{
    data_flow_shows_codes();
    match sensor.command_mode {
        CommandMode::Rest => {
            reveal_strlit("0");
            reveal_strlit("1");
            reveal_strlit("(0x");
            reveal_strlit(")");
            reveal_strlit("Client --");
            reveal_strlit("--> Robot --");
            reveal_strlit("--> Client");
            reveal_strlit("Command");
            reveal_strlit("CommandAck");
            reveal_strlit("Client --Command(0x10)--> Robot --CommandAck(0x11)--> Client");
            assert("Client --Command(0x10)--> Robot --CommandAck(0x11)--> Client"@ =~= "Client --"@
                + mention(MessageType::Command) + "--> Robot --"@ + mention(MessageType::CommandAck)
                + "--> Client"@);
        },
        CommandMode::Stream { interval_ms } => {
            stream_flow_shows_codes();
            let interval = decimal_text(interval_ms as nat);
            assert(command_flow(sensor.command_mode) =~= "Client --"@ + mention(
                MessageType::StreamStart,
            ) + "--> Robot --"@ + mention(MessageType::StreamAck)
                + "--> Client (robot re-sends to HW every "@ + interval + "ms) | Client --"@
                + mention(MessageType::StreamStop) + "--> Robot --"@ + mention(
                MessageType::StreamAck,
            ) + "--> Client"@);
        },
    }
}

proof fn data_flow_shows_codes()
    ensures
        "Client --Subscribe(0x01)--> Robot --SubscribeAck(0x04)--> Client, then Robot --Data(0x03)--> Client (continuously)"@
            == "Client --"@ + mention(MessageType::Subscribe) + "--> Robot --"@ + mention(
            MessageType::SubscribeAck,
        ) + "--> Client, then Robot --"@ + mention(MessageType::Data)
            + "--> Client (continuously)"@,
{
    reveal_strlit("0");
    reveal_strlit("1");
    reveal_strlit("3");
    reveal_strlit("4");
    reveal_strlit("(0x");
    reveal_strlit(")");
    reveal_strlit("Client --");
    reveal_strlit("--> Robot --");
    reveal_strlit("--> Client, then Robot --");
    reveal_strlit("--> Client (continuously)");
    reveal_strlit("Subscribe");
    reveal_strlit("SubscribeAck");
    reveal_strlit("Data");
    reveal_strlit(
        "Client --Subscribe(0x01)--> Robot --SubscribeAck(0x04)--> Client, then Robot --Data(0x03)--> Client (continuously)",
    );
    assert("Client --Subscribe(0x01)--> Robot --SubscribeAck(0x04)--> Client, then Robot --Data(0x03)--> Client (continuously)"@
        =~= "Client --"@ + mention(MessageType::Subscribe) + "--> Robot --"@ + mention(
        MessageType::SubscribeAck,
    ) + "--> Client, then Robot --"@ + mention(MessageType::Data) + "--> Client (continuously)"@);
}

proof fn stream_flow_shows_codes()
    ensures
        "Client --StreamStart(0x12)--> Robot --StreamAck(0x14)--> Client (robot re-sends to HW every "@
            == "Client --"@ + mention(MessageType::StreamStart) + "--> Robot --"@ + mention(
            MessageType::StreamAck,
        ) + "--> Client (robot re-sends to HW every "@,
        "ms) | Client --StreamStop(0x13)--> Robot --StreamAck(0x14)--> Client"@
            == "ms) | Client --"@ + mention(MessageType::StreamStop) + "--> Robot --"@ + mention(
            MessageType::StreamAck,
        ) + "--> Client"@,
{
    reveal_strlit("1");
    reveal_strlit("2");
    reveal_strlit("3");
    reveal_strlit("4");
    reveal_strlit("(0x");
    reveal_strlit(")");
    reveal_strlit("Client --");
    reveal_strlit("--> Robot --");
    reveal_strlit("--> Client");
    reveal_strlit("--> Client (robot re-sends to HW every ");
    reveal_strlit("ms) | Client --");
    reveal_strlit("StreamStart");
    reveal_strlit("StreamStop");
    reveal_strlit("StreamAck");
    reveal_strlit(
        "Client --StreamStart(0x12)--> Robot --StreamAck(0x14)--> Client (robot re-sends to HW every ",
    );
    reveal_strlit("ms) | Client --StreamStop(0x13)--> Robot --StreamAck(0x14)--> Client");
    assert("Client --StreamStart(0x12)--> Robot --StreamAck(0x14)--> Client (robot re-sends to HW every "@
        =~= "Client --"@ + mention(MessageType::StreamStart) + "--> Robot --"@ + mention(
        MessageType::StreamAck,
    ) + "--> Client (robot re-sends to HW every "@);
    assert("ms) | Client --StreamStop(0x13)--> Robot --StreamAck(0x14)--> Client"@
        =~= "ms) | Client --"@ + mention(MessageType::StreamStop) + "--> Robot --"@ + mention(
        MessageType::StreamAck,
    ) + "--> Client"@);
}

} // verus!
