//! The messages of the UDP protocol.
use crate::text::{digit, digit_value, hex_byte, hex_reads_back, hex_text};
use vstd::prelude::*;

verus! {

/// What a packet is for.
#[derive(Debug, Clone, Copy, PartialEq, Eq, Structural)]
pub enum MessageType {
    /// A client asks for sensor data.
    Subscribe,
    /// A client asks for no more sensor data.
    Unsubscribe,
    /// The robot pushes sensor data.
    Data,
    /// The robot confirms a subscription.
    SubscribeAck,
    /// A client sends a one-shot command.
    Command,
    /// The robot answers a one-shot command.
    CommandAck,
    /// A client starts a command stream.
    StreamStart,
    /// A client stops a command stream.
    StreamStop,
    /// The robot confirms the start or the stop of a stream.
    StreamAck,
}

/// The byte that stands for a message type in a packet's header.
pub open spec fn message_code(message: MessageType) -> u8 {
    match message {
        MessageType::Subscribe => 0x01,
        MessageType::Unsubscribe => 0x02,
        MessageType::Data => 0x03,
        MessageType::SubscribeAck => 0x04,
        MessageType::Command => 0x10,
        MessageType::CommandAck => 0x11,
        MessageType::StreamStart => 0x12,
        MessageType::StreamStop => 0x13,
        MessageType::StreamAck => 0x14,
    }
}

/// The name of a message type in print.
pub open spec fn message_name(message: MessageType) -> Seq<char> {
    match message {
        MessageType::Subscribe => "Subscribe"@,
        MessageType::Unsubscribe => "Unsubscribe"@,
        MessageType::Data => "Data"@,
        MessageType::SubscribeAck => "SubscribeAck"@,
        MessageType::Command => "Command"@,
        MessageType::CommandAck => "CommandAck"@,
        MessageType::StreamStart => "StreamStart"@,
        MessageType::StreamStop => "StreamStop"@,
        MessageType::StreamAck => "StreamAck"@,
    }
}

/// A message type by its name and its code.
pub open spec fn mention(message: MessageType) -> Seq<char> {
    message_name(message) + "(0x"@ + hex_text(message_code(message)) + ")"@
}

impl MessageType {
    /// The byte that stands for this type in a packet's header.
    pub fn code(self) -> (code: u8)
        ensures
            code == message_code(self),
    {
        match self {
            MessageType::Subscribe => 0x01,
            MessageType::Unsubscribe => 0x02,
            MessageType::Data => 0x03,
            MessageType::SubscribeAck => 0x04,
            MessageType::Command => 0x10,
            MessageType::CommandAck => 0x11,
            MessageType::StreamStart => 0x12,
            MessageType::StreamStop => 0x13,
            MessageType::StreamAck => 0x14,
        }
    }
}

/// The first bytes of a packet in print: the version, the code of the message, and
/// what follows.
pub open spec fn header_text(version: u8, message: MessageType, rest: Seq<char>) -> Seq<char> {
    hex_text(version) + " "@ + hex_text(message_code(message)) + rest
}

/// The first bytes of a packet in print.
pub fn header_hex(version: u8, message: MessageType, rest: &str) -> (text: String)
    ensures
        text@ == header_text(version, message, rest@),
{
    hex_byte(version).concat(" ").concat(hex_byte(message.code()).as_str()).concat(rest)
}

/// Reading a printed header gives back what went into it: two hexadecimal digits are the
/// version, two more behind a space are the code, and the rest follows.
pub proof fn header_reads_back(version: u8, message: MessageType, rest: Seq<char>)
    ensures
        ({
            let text = header_text(version, message, rest);
            &&& text.len() == 5 + rest.len()
            &&& digit_value(text[0]) * 16 + digit_value(text[1]) == version
            &&& text[2] == ' '
            &&& digit_value(text[3]) * 16 + digit_value(text[4]) == message_code(message)
            &&& text.skip(5) == rest
        }),
{
    reveal_strlit(" ");
    hex_reads_back(version);
    hex_reads_back(message_code(message));
    let text = header_text(version, message, rest);
    assert(text[0] == hex_text(version)[0] && text[1] == hex_text(version)[1]);
    assert(text[3] == hex_text(message_code(message))[0]);
    assert(text[4] == hex_text(message_code(message))[1]);
    assert(text.skip(5) =~= rest);
}

/// What concerns sensor data has a code below 16, what concerns commands one from there on.
pub proof fn codes_tell_data_from_commands(message: MessageType)
    ensures
        message_code(message) < 0x10 <==> {
            ||| message is Subscribe
            ||| message is Unsubscribe
            ||| message is Data
            ||| message is SubscribeAck
        },
{
}

/// Two message types never share a code.
pub proof fn codes_are_distinct(left: MessageType, right: MessageType)
    requires
        message_code(left) == message_code(right),
    ensures
        left == right,
{
}

/// The printed header of a packet tells its version and its message type.
pub proof fn header_tells_version_and_message(
    version: u8,
    message: MessageType,
    rest: Seq<char>,
    other_version: u8,
    other_message: MessageType,
    other_rest: Seq<char>,
)
    requires
        header_text(version, message, rest) == header_text(
            other_version,
            other_message,
            other_rest,
        ),
    ensures
        version == other_version,
        message == other_message,
        rest == other_rest,
{
    let left = header_text(version, message, rest);
    let right = header_text(other_version, other_message, other_rest);
    reveal_strlit(" ");
    digit_is_injective((version / 16) as int, (other_version / 16) as int);
    digit_is_injective((version % 16) as int, (other_version % 16) as int);
    digit_is_injective(
        (message_code(message) / 16) as int,
        (message_code(other_message) / 16) as int,
    );
    digit_is_injective(
        (message_code(message) % 16) as int,
        (message_code(other_message) % 16) as int,
    );
    assert(digit((version / 16) as int)[0] == left[0]);
    assert(digit((other_version / 16) as int)[0] == right[0]);
    assert(digit((version % 16) as int)[0] == left[1]);
    assert(digit((other_version % 16) as int)[0] == right[1]);
    assert(digit((message_code(message) / 16) as int)[0] == left[3]);
    assert(digit((message_code(other_message) / 16) as int)[0] == right[3]);
    assert(digit((message_code(message) % 16) as int)[0] == left[4]);
    assert(digit((message_code(other_message) % 16) as int)[0] == right[4]);
    codes_are_distinct(message, other_message);
    assert(rest =~= left.skip(5));
    assert(other_rest =~= right.skip(5));
}

/// A digit is one character, and different digits differ in it.
proof fn digit_is_injective(left: int, right: int)
    requires
        0 <= left < 16,
        0 <= right < 16,
    ensures
        digit(left).len() == 1,
        digit(right).len() == 1,
        digit(left)[0] == digit(right)[0] ==> left == right,
{
    reveal_strlit("0");
    reveal_strlit("1");
    reveal_strlit("2");
    reveal_strlit("3");
    reveal_strlit("4");
    reveal_strlit("5");
    reveal_strlit("6");
    reveal_strlit("7");
    reveal_strlit("8");
    reveal_strlit("9");
    reveal_strlit("A");
    reveal_strlit("B");
    reveal_strlit("C");
    reveal_strlit("D");
    reveal_strlit("E");
    reveal_strlit("F");
}

} // verus!
