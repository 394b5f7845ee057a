//! The WebSocket bridge to the Godot editor plugin: addresses, command framing, and the
//! decisions taken on each message while a command waits for its reply.
use vstd::prelude::*;
use crate::error::McpError;
use crate::json::Json;
use crate::text::{decimal, push_decimal};

verus! {

/// Where the editor bridge listens: the loopback address and a port.
#[derive(Clone, Debug)]
pub struct BridgeClient {
    port: u16,
}

/// The URL of the editor bridge on a port.
pub open spec fn bridge_url(port: u16) -> Seq<char> {
    "ws://127.0.0.1:"@ + decimal(port as nat)
}

impl BridgeClient {
    /// The port the bridge listens on.
    pub closed spec fn spec_port(&self) -> u16 {
        self.port
    }

    /// A client for the bridge on `port`.
    pub fn new(port: u16) -> (c: Self)
        ensures
            c.spec_port() == port,
    {
        Self { port }
    }

    /// The port the bridge listens on.
    pub fn port(&self) -> (p: u16)
        ensures
            p == self.spec_port(),
    {
        self.port
    }

    /// The URL of the bridge: `ws://127.0.0.1:<port>`.
    pub fn url(&self) -> (u: String)
        ensures
            u@ == bridge_url(self.spec_port()),
    {
        let mut u = String::from_str("ws://127.0.0.1:");
        push_decimal(&mut u, self.port as u64);
        u
    }

    /// The error reported when the connection attempt failed with `reason`.
    pub fn connect_failed(&self, reason: &str) -> (e: McpError)
        ensures
            e matches McpError::Bridge(m) && m@ == "Failed to connect to Godot Editor bridge at "@
                + bridge_url(self.spec_port()) + ": "@ + reason@
                + ". Ensure Godot is running and the Godot MCP Bridge plugin is enabled."@,
    {
        let mut m = String::from_str("Failed to connect to Godot Editor bridge at ");
        m.append(self.url().as_str());
        m.append(": ");
        m.append(reason);
        m.append(". Ensure Godot is running and the Godot MCP Bridge plugin is enabled.");
        McpError::Bridge(m)
    }

    /// The error reported when the connection attempt did not finish in time.
    pub fn connect_timed_out(&self) -> (e: McpError)
        ensures
            e matches McpError::Bridge(m) && m@ == "Connection to Godot Editor bridge at "@
                + bridge_url(self.spec_port())
                + " timed out. Ensure Godot Editor is open and plugin is active on port "@
                + decimal(self.spec_port() as nat) + "."@,
    {
        let mut m = String::from_str("Connection to Godot Editor bridge at ");
        m.append(self.url().as_str());
        m.append(" timed out. Ensure Godot Editor is open and plugin is active on port ");
        push_decimal(&mut m, self.port as u64);
        m.append(".");
        McpError::Bridge(m)
    }

    /// Frames a new command of type `command_type` with a fresh id, and the record of
    /// it that waits for the reply.
    pub fn prepare_command(&self, command_type: &str, params: Json) -> (r: (
        BridgeCommand,
        PendingCommand,
    ))
        ensures
            r.0.command_type@ == command_type@,
            r.0.params == params,
            is_uuid_text(r.0.command_id@),
            r.1.command_id@ == r.0.command_id@,
            r.1.command_type@ == command_type@,
    {
        let id = fresh_command_id();
        let pending = PendingCommand {
            command_id: id.clone(),
            command_type: String::from_str(command_type),
        };
        let command = BridgeCommand {
            command_id: id,
            command_type: String::from_str(command_type),
            params,
        };
        (command, pending)
    }
}

/// The text of a version-4 UUID in hyphenated lower-case form, such as
/// `67e55044-10b1-426f-9247-bb680e5fe0c8`.
pub open spec fn is_uuid_text(s: Seq<char>) -> bool {
    &&& s.len() == 36
    &&& forall|i: int|
        0 <= i < 36 ==> if i == 8 || i == 13 || i == 18 || i == 23 {
            s[i] == '-'
        } else {
            ('0' <= #[trigger] s[i] <= '9') || ('a' <= s[i] <= 'f')
        }
    &&& s[14] == '4'
}

/// `Uuid::new_v4().to_string()`: a random version-4 UUID, printed hyphenated in lower case.
/// Which UUID comes out is left open; only its shape is stated.
#[verifier::external_body]
fn fresh_command_id() -> (id: String)
    ensures
        is_uuid_text(id@),
{
    uuid::Uuid::new_v4().to_string()
}

/// A command sent to the editor bridge.
pub struct BridgeCommand {
    pub command_id: String,
    pub command_type: String,
    pub params: Json,
}

/// A reply from the editor bridge.
pub struct BridgeResponse {
    pub command_id: String,
    pub status: String,
    pub result: Option<Json>,
    pub error: Option<String>,
}

/// A command that was sent and waits for the reply with its id.
pub struct PendingCommand {
    pub command_id: String,
    pub command_type: String,
}

/// What the connection delivered while a command waits for its reply.
pub enum BridgeEvent {
    /// A text message, decoded as a reply, or the text of the decoding error.
    Text(Result<BridgeResponse, String>),
    Binary,
    Ping(Vec<u8>),
    Pong,
    Close,
    Frame,
    /// Receiving failed, with the text of the error.
    ReceiveError(String),
    /// The connection ended without another message.
    Ended,
}

/// What to do after an event.
pub enum BridgeStep {
    /// Keep waiting for the next message.
    Wait,
    /// Answer a ping with a pong carrying the same payload, then keep waiting.
    Pong(Vec<u8>),
    /// The command is finished with this outcome.
    Done(Result<Json, McpError>),
}

impl PendingCommand {
    /// The step taken on `event`.
    ///
    /// A reply with another command's id is ignored; a reply with this command's id
    /// finishes it; pings are answered; binary, pong and raw frames are ignored; closing,
    /// a receive error or the end of the stream finish the command with a bridge error,
    /// and an undecodable text message with a protocol error.
    pub fn on_event(&self, event: BridgeEvent) -> (step: BridgeStep)
        ensures
            match event {
                BridgeEvent::Text(Ok(reply)) => if reply.command_id@ == self.command_id@ {
                    if reply.status@ == "success"@ {
                        step == BridgeStep::Done(
                            Ok(
                                match reply.result {
                                    Some(v) => v,
                                    None => Json::Null,
                                },
                            ),
                        )
                    } else {
                        step matches BridgeStep::Done(Err(McpError::ToolExecution(m))) && m@ == (
                        match reply.error {
                            Some(e) => e@,
                            None => "Unknown engine error"@,
                        })
                    }
                } else {
                    step is Wait
                },
                BridgeEvent::Text(Err(e)) => step matches BridgeStep::Done(
                    Err(McpError::Protocol(m)),
                ) && m@ == "Malformed bridge response: "@ + e@,
                BridgeEvent::Ping(data) => step == BridgeStep::Pong(data),
                BridgeEvent::Binary | BridgeEvent::Pong | BridgeEvent::Frame => step is Wait,
                BridgeEvent::Close => step matches BridgeStep::Done(Err(McpError::Bridge(m)))
                    && m@ == "Connection closed by Godot Editor bridge"@,
                BridgeEvent::ReceiveError(e) => step matches BridgeStep::Done(
                    Err(McpError::Bridge(m)),
                ) && m@ == "WebSocket receive error: "@ + e@,
                BridgeEvent::Ended => step matches BridgeStep::Done(Err(McpError::Bridge(m)))
                    && m@ == "WebSocket connection closed without response"@,
            },
    {
        match event {
            BridgeEvent::Text(Ok(reply)) => {
                if reply.command_id == self.command_id {
                    if reply.status == String::from_str("success") {
                        let value = match reply.result {
                            Some(v) => v,
                            None => Json::Null,
                        };
                        BridgeStep::Done(Ok(value))
                    } else {
                        let message = match reply.error {
                            Some(e) => e,
                            None => String::from_str("Unknown engine error"),
                        };
                        BridgeStep::Done(Err(McpError::ToolExecution(message)))
                    }
                } else {
                    BridgeStep::Wait
                }
            },
            BridgeEvent::Text(Err(e)) => {
                let mut m = String::from_str("Malformed bridge response: ");
                m.append(e.as_str());
                BridgeStep::Done(Err(McpError::Protocol(m)))
            },
            BridgeEvent::Ping(data) => BridgeStep::Pong(data),
            BridgeEvent::Binary | BridgeEvent::Pong | BridgeEvent::Frame => BridgeStep::Wait,
            BridgeEvent::Close => BridgeStep::Done(
                Err(McpError::Bridge(String::from_str("Connection closed by Godot Editor bridge"))),
            ),
            BridgeEvent::ReceiveError(e) => {
                let mut m = String::from_str("WebSocket receive error: ");
                m.append(e.as_str());
                BridgeStep::Done(Err(McpError::Bridge(m)))
            },
            BridgeEvent::Ended => BridgeStep::Done(
                Err(
                    McpError::Bridge(
                        String::from_str("WebSocket connection closed without response"),
                    ),
                ),
            ),
        }
    }

    /// The error reported when sending the command failed with `reason`.
    pub fn send_failed(&self, reason: &str) -> (e: McpError)
        ensures
            e matches McpError::Bridge(m) && m@ == "Failed to send command to Godot: "@ + reason@,
    {
        let mut m = String::from_str("Failed to send command to Godot: ");
        m.append(reason);
        McpError::Bridge(m)
    }

    /// The error reported when no reply came in time.
    pub fn timed_out(&self) -> (e: McpError)
        ensures
            e matches McpError::Bridge(m) && m@
                == "Timed out waiting for response from Godot Editor for command '"@
                + self.command_type@ + "'"@,
    {
        let mut m = String::from_str(
            "Timed out waiting for response from Godot Editor for command '",
        );
        m.append(self.command_type.as_str());
        m.append("'");
        McpError::Bridge(m)
    }
}

} // verus!
