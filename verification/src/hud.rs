//! The texts shown on the headset while no stream is running.

use vstd::prelude::*;

verus! {

/// The message shown while the client looks for a streamer.
pub const INITIAL_MESSAGE: &'static str =
    "Searching for streamer...\nOpen ALVR on your PC then click \"Trust\"\nnext to the client entry";

/// The message shown when the announcement cannot be sent.
pub const NETWORK_UNREACHABLE_MESSAGE: &'static str = "Cannot connect to the internet";

/// The message shown once the streamer has agreed to start.
pub const STREAM_STARTING_MESSAGE: &'static str = "The stream will begin soon\nPlease wait...";

/// The message shown when the streamer announces its restart.
pub const SERVER_RESTART_MESSAGE: &'static str = "The streamer is restarting\nPlease wait...";

/// The message shown when the streamer is gone.
pub const SERVER_DISCONNECTED_MESSAGE: &'static str = "The streamer has disconnected.";

/// The message shown when the streamer answers the handshake with a packet
/// that has no place there.
pub const UNEXPECTED_PACKET_MESSAGE: &'static str = "Unexpected packet";

/// The occasions on which the client posts a message.
#[derive(Clone, Copy, Debug, PartialEq, Eq, Structural)]
pub enum HudText {
    Initial,
    NetworkUnreachable,
    StreamStarting,
    ServerRestart,
    ServerDisconnected,
    UnexpectedPacket,
    /// A session failed while it was set up; the text names the cause.
    ConnectionError,
}

/// The text of a message. Only a connection error's text holds the cause.
pub open spec fn body_text(kind: HudText, cause: Seq<char>) -> Seq<char> {
    match kind {
        HudText::Initial => INITIAL_MESSAGE@,
        HudText::NetworkUnreachable => NETWORK_UNREACHABLE_MESSAGE@,
        HudText::StreamStarting => STREAM_STARTING_MESSAGE@,
        HudText::ServerRestart => SERVER_RESTART_MESSAGE@,
        HudText::ServerDisconnected => SERVER_DISCONNECTED_MESSAGE@,
        HudText::UnexpectedPacket => UNEXPECTED_PACKET_MESSAGE@,
        HudText::ConnectionError => "Connection error:\n"@ + cause + "\nCheck the PC for more details"@,
    }
}

/// A message as it is posted: the application's version, the client's
/// hostname and its local address, an empty line, and the text.
pub open spec fn framed_text(
    version: Seq<char>,
    hostname: Seq<char>,
    local_ip: Seq<char>,
    body: Seq<char>,
) -> Seq<char> {
    "ALVR v"@ + version + "\nhostname: "@ + hostname + "\nIP: "@ + local_ip + "\n\n"@ + body
}

/// The text of a message; `cause` is read for a connection error only.
pub fn message_body(kind: HudText, cause: &str) -> (text: String)
    ensures
        text@ == body_text(kind, cause@),
{
    match kind {
        HudText::Initial => String::from_str(INITIAL_MESSAGE),
        HudText::NetworkUnreachable => String::from_str(NETWORK_UNREACHABLE_MESSAGE),
        HudText::StreamStarting => String::from_str(STREAM_STARTING_MESSAGE),
        HudText::ServerRestart => String::from_str(SERVER_RESTART_MESSAGE),
        HudText::ServerDisconnected => String::from_str(SERVER_DISCONNECTED_MESSAGE),
        HudText::UnexpectedPacket => String::from_str(UNEXPECTED_PACKET_MESSAGE),
        HudText::ConnectionError => {
            let mut text = String::from_str("Connection error:\n");
            text.append(cause);
            text.append("\nCheck the PC for more details");
            text
        },
    }
}

/// Frames a text with the version, the hostname and the local address.
pub fn hud_message(version: &str, hostname: &str, local_ip: &str, body: &str) -> (text: String)
    ensures
        text@ == framed_text(version@, hostname@, local_ip@, body@),
{
    let mut text = String::from_str("ALVR v");
    text.append(version);
    text.append("\nhostname: ");
    text.append(hostname);
    text.append("\nIP: ");
    text.append(local_ip);
    text.append("\n\n");
    text.append(body);
    text
}

} // verus!
