//! Chat messages: what a client may send, and what the server makes of it.

use crate::clock::{is_elapsed, timestamp, unix_time_ns};
use crate::ident::{is_random_id, random_id};
use crate::metrics::Metrics;
use vstd::prelude::*;

verus! {

/// The Redis channel on which all instances publish and listen.
pub const REDIS_CHANNEL: &'static str = "blazechat:v1:messages";

/// The longest name of a room or a user, in bytes.
pub const MAX_NAME_BYTES: usize = 128;

/// The longest text of a message, in bytes.
pub const MAX_TEXT_BYTES: usize = 16_384;

/// The largest message that a client's socket may carry, in bytes.
pub const MAX_MESSAGE_SIZE: usize = 65_536;

/// The largest frame that a client's socket may carry, in bytes.
pub const MAX_FRAME_SIZE: usize = 65_536;

/// A message as a client sends it.
#[derive(Clone, Debug)]
pub struct ClientMessage {
    pub room: String,
    pub user: String,
    pub text: String,
    pub client_ts_ns: u64,
    pub sequence: u64,
}

/// A message as the server sends it on.
#[derive(Clone, Debug)]
pub struct ServerMessage {
    pub id: u128,
    pub instance: String,
    pub room: String,
    pub user: String,
    pub text: String,
    pub client_ts_ns: u64,
    pub sequence: u64,
    pub server_ts_ns: u64,
}

/// Why a message was not published.
#[derive(Clone, Copy, Debug, PartialEq, Eq, Structural)]
pub enum PublishError {
    /// The text encodes no message.
    InvalidJson,
    /// A field is empty or too long.
    InvalidFieldLength,
}

/// The contents of a `ClientMessage`.
pub struct ClientMessageView {
    pub room: Seq<char>,
    pub user: Seq<char>,
    pub text: Seq<char>,
    pub client_ts_ns: u64,
    pub sequence: u64,
}

/// The contents of a `ServerMessage`.
pub struct ServerMessageView {
    pub id: u128,
    pub instance: Seq<char>,
    pub room: Seq<char>,
    pub user: Seq<char>,
    pub text: Seq<char>,
    pub client_ts_ns: u64,
    pub sequence: u64,
    pub server_ts_ns: u64,
}

impl View for ClientMessage {
    type V = ClientMessageView;

    open spec fn view(&self) -> ClientMessageView {
        ClientMessageView {
            room: self.room@,
            user: self.user@,
            text: self.text@,
            client_ts_ns: self.client_ts_ns,
            sequence: self.sequence,
        }
    }
}

impl View for ServerMessage {
    type V = ServerMessageView;

    open spec fn view(&self) -> ServerMessageView {
        ServerMessageView {
            id: self.id,
            instance: self.instance@,
            room: self.room@,
            user: self.user@,
            text: self.text@,
            client_ts_ns: self.client_ts_ns,
            sequence: self.sequence,
            server_ts_ns: self.server_ts_ns,
        }
    }
}

/// The number of bytes that a text takes in UTF-8.
pub open spec fn byte_len(text: Seq<char>) -> nat {
    vstd::utf8::encode_utf8(text).len()
}

/// Whether a text is neither empty nor longer than so many bytes.
pub open spec fn fits(text: Seq<char>, limit: usize) -> bool {
    text.len() > 0 && byte_len(text) <= limit
}

impl ClientMessageView {
    /// Whether the message may be published.
    pub open spec fn within_limits(self) -> bool {
        &&& fits(self.room, MAX_NAME_BYTES)
        &&& fits(self.user, MAX_NAME_BYTES)
        &&& fits(self.text, MAX_TEXT_BYTES)
    }

    /// The message as an instance sends it on, under an identifier and with a timestamp.
    pub open spec fn stamped(
        self,
        instance: Seq<char>,
        id: u128,
        server_ts_ns: u64,
    ) -> ServerMessageView {
        ServerMessageView {
            id,
            instance,
            room: self.room,
            user: self.user,
            text: self.text,
            client_ts_ns: self.client_ts_ns,
            sequence: self.sequence,
            server_ts_ns,
        }
    }
}

/// Whether a text is neither empty nor longer than so many bytes.
fn check_fits(text: &str, limit: usize) -> (ok: bool)
    ensures
        ok == fits(text@, limit),
{
    !text.is_empty() && text.as_bytes().len() <= limit
}

impl PublishError {
    /// The error in words.
    pub fn message(&self) -> (words: &'static str)
        ensures
            words@ == match self {
                PublishError::InvalidJson => "invalid JSON"@,
                PublishError::InvalidFieldLength => "invalid field length"@,
            },
    {
        match self {
            PublishError::InvalidJson => "invalid JSON",
            PublishError::InvalidFieldLength => "invalid field length",
        }
    }
}

/// Why what a client sent may not be published, if it may not: `None` stands for a text that
/// encodes no message.
pub open spec fn refusal(input: Option<ClientMessage>) -> Option<PublishError> {
    match input {
        None => Some(PublishError::InvalidJson),
        Some(message) => if message@.within_limits() {
            None
        } else {
            Some(PublishError::InvalidFieldLength)
        },
    }
}

/// Lets through what may be published.
pub fn admit_message(input: Option<ClientMessage>) -> (admitted: Result<
    ClientMessage,
    PublishError,
>)
    ensures
        match admitted {
            Ok(message) => refusal(input) is None && input == Some(message),
            Err(error) => refusal(input) == Some(error),
        },
{
    match input {
        None => Err(PublishError::InvalidJson),
        Some(message) => {
            if !check_fits(message.room.as_str(), MAX_NAME_BYTES)
                || !check_fits(message.user.as_str(), MAX_NAME_BYTES)
                || !check_fits(message.text.as_str(), MAX_TEXT_BYTES)
            {
                return Err(PublishError::InvalidFieldLength);
            }
            Ok(message)
        },
    }
}

/// The message as an instance sends it on, under the given identifier and timestamp.
pub fn stamp_message(
    instance: &str,
    input: ClientMessage,
    id: u128,
    server_ts_ns: u64,
) -> (message: ServerMessage)
    ensures
        message@ == input@.stamped(instance@, id, server_ts_ns),
        message.id == id,
        message.instance@ == instance@,
        message.room@ == input.room@,
        message.user@ == input.user@,
        message.text@ == input.text@,
        message.client_ts_ns == input.client_ts_ns,
        message.sequence == input.sequence,
        message.server_ts_ns == server_ts_ns,
{
    ServerMessage {
        id,
        instance: instance.to_owned(),
        room: input.room,
        user: input.user,
        text: input.text,
        client_ts_ns: input.client_ts_ns,
        sequence: input.sequence,
        server_ts_ns,
    }
}

/// Makes the message to publish of what a client sent, under a random identifier and with the
/// current time.
pub fn publish_client_message(
    instance: &str,
    input: Option<ClientMessage>,
) -> (published: Result<ServerMessage, PublishError>)
    ensures
        match published {
            Ok(message) => {
                &&& refusal(input) is None
                &&& is_random_id(message.id)
                &&& exists|elapsed: Option<u128>| #[trigger]
                    is_elapsed(elapsed) && message.server_ts_ns == timestamp(elapsed)
                &&& message@ == input->0@.stamped(instance@, message.id, message.server_ts_ns)
                &&& message.instance@ == instance@
                &&& message.room@ == input->0.room@
                &&& message.user@ == input->0.user@
                &&& message.text@ == input->0.text@
                &&& message.client_ts_ns == input->0.client_ts_ns
                &&& message.sequence == input->0.sequence
            },
            Err(error) => refusal(input) == Some(error),
        },
{
    match admit_message(input) {
        Ok(message) => {
            let id: u128 = random_id();
            let server_ts_ns: u64 = unix_time_ns();
            Ok(stamp_message(instance, message, id, server_ts_ns))
        },
        Err(error) => Err(error),
    }
}

impl ServerMessage {
    /// Counts the message as published, and names the room that its sender has thereby joined.
    pub fn confirm_published(self, metrics: &mut Metrics) -> (room: String)
        ensures
            room@ == self@.room,
            room@ == self.room@,
            *final(metrics) == old(metrics).with_published(),
    {
        metrics.count_published();
        self.room
    }
}

impl ServerMessageView {
    /// What a reader of the message knows of what the client sent.
    pub open spec fn as_client_message(self) -> ClientMessageView {
        ClientMessageView {
            room: self.room,
            user: self.user,
            text: self.text,
            client_ts_ns: self.client_ts_ns,
            sequence: self.sequence,
        }
    }
}

/// A message that was sent on still says, field by field, all that the client sent, and besides it
/// which instance sent it on, under which identifier and when.
pub proof fn stamped_message_reads_back(
    input: ClientMessageView,
    instance: Seq<char>,
    id: u128,
    server_ts_ns: u64,
)
    ensures
        input.stamped(instance, id, server_ts_ns).room == input.room,
        input.stamped(instance, id, server_ts_ns).user == input.user,
        input.stamped(instance, id, server_ts_ns).text == input.text,
        input.stamped(instance, id, server_ts_ns).client_ts_ns == input.client_ts_ns,
        input.stamped(instance, id, server_ts_ns).sequence == input.sequence,
        input.stamped(instance, id, server_ts_ns).as_client_message() == input,
        input.stamped(instance, id, server_ts_ns).instance == instance,
        input.stamped(instance, id, server_ts_ns).id == id,
        input.stamped(instance, id, server_ts_ns).server_ts_ns == server_ts_ns,
{
}

/// Messages that look the same once they are sent on were the same when they were sent, by the same
/// instance, under the same identifier and at the same time.
pub proof fn stamping_loses_nothing(
    a: ClientMessageView,
    b: ClientMessageView,
    instances: (Seq<char>, Seq<char>),
    ids: (u128, u128),
    times: (u64, u64),
)
    requires
        a.stamped(instances.0, ids.0, times.0) == b.stamped(instances.1, ids.1, times.1),
    ensures
        a == b,
        instances.0 == instances.1,
        ids.0 == ids.1,
        times.0 == times.1,
{
    stamped_message_reads_back(a, instances.0, ids.0, times.0);
    stamped_message_reads_back(b, instances.1, ids.1, times.1);
}

/// A message may be published exactly if its room and its user take 1 to 128 bytes each in UTF-8,
/// and its text 1 to 16384: nothing else about it matters.
pub proof fn limits_are_on_bytes_alone(input: ClientMessage)
    ensures
        refusal(Some(input)) is None <==> {
            &&& 1 <= vstd::utf8::encode_utf8(input.room@).len() <= 128
            &&& 1 <= vstd::utf8::encode_utf8(input.user@).len() <= 128
            &&& 1 <= vstd::utf8::encode_utf8(input.text@).len() <= 16_384
        },
        refusal(Some(input)) is Some ==> refusal(Some(input)) == Some(
            PublishError::InvalidFieldLength,
        ),
        refusal(None) == Some(PublishError::InvalidJson),
{
    lemma_empty_takes_no_bytes(input.room@);
    lemma_empty_takes_no_bytes(input.user@);
    lemma_empty_takes_no_bytes(input.text@);
}

/// Only the empty text takes no bytes.
proof fn lemma_empty_takes_no_bytes(text: Seq<char>)
    ensures
        text.len() == 0 <==> vstd::utf8::encode_utf8(text).len() == 0,
{
    if text.len() > 0 {
        vstd::utf8::encode_utf8_first_scalar(text);
        vstd::utf8::encode_utf8_decode_utf8(text);
    }
}

/// The contents of messages are all that they carry.
pub proof fn message_views_are_whole(client: ClientMessage, server: ServerMessage)
    ensures
        client@.room == client.room@,
        client@.user == client.user@,
        client@.text == client.text@,
        client@.client_ts_ns == client.client_ts_ns,
        client@.sequence == client.sequence,
        server@.id == server.id,
        server@.instance == server.instance@,
        server@.room == server.room@,
        server@.user == server.user@,
        server@.text == server.text@,
        server@.client_ts_ns == server.client_ts_ns,
        server@.sequence == server.sequence,
        server@.server_ts_ns == server.server_ts_ns,
{
}

} // verus!
