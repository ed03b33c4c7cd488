//! The envelope: how a command is wrapped for the hub, and how the hub's
//! reply is read and held against the command.

use crate::error::{ClientError, ClientErrorView};
use crate::json::{
    array_value, as_i64, as_str, integer_value, json_parse_bytes, json_print, json_view, member,
    members_insert, members_new, object_value, parse_bytes, string_value, to_text, Json,
};
use vstd::prelude::*;
use vstd::slice::slice_to_vec;

verus! {

/// The tag that every command carries; its reply must carry it too.
pub const COMMAND_ID: i64 = 1;

/// A command without an argument: the object that maps its name to 0.
pub open spec fn void_command(command: Seq<char>) -> Json {
    Json::single(command, Json::Int(0))
}

/// A command with one string argument: the object that maps its name to the
/// argument.
pub open spec fn string_command(command: Seq<char>, arg: Seq<char>) -> Json {
    Json::single(command, Json::Str(arg))
}

/// The compact text of a value.
fn print(v: &serde_json::Value) -> (r: String)
    ensures
        r@ == json_print(json_view(*v)),
{
    to_text(v).unwrap()
}

/// The object with the single member `key`.
fn single_value(key: &str, value: serde_json::Value) -> (r: serde_json::Value)
    ensures
        json_view(r) == Json::single(key@, json_view(value)),
{
    let mut members = members_new();
    members_insert(&mut members, key, value);
    object_value(members)
}

/// The text of a command without an argument.
pub fn serialise_void(command: &str) -> (r: String)
    ensures
        r@ == json_print(void_command(command@)),
{
    print(&single_value(command, integer_value(0)))
}

/// The text of a command with one string argument.
pub fn serialise_str(command: &str, arg: &str) -> (r: String)
    ensures
        r@ == json_print(string_command(command@, arg@)),
{
    print(&single_value(command, string_value(arg)))
}

/// The hub's reply envelope.
#[derive(Debug, Clone, PartialEq, Eq)]
pub struct CommandResponse {
    /// The tag of the command that is answered.
    pub command_id: i64,
    /// The hub's hardware address.
    pub device_id: String,
    pub message_type: String,
    /// The command's result: JSON, held as text.
    pub response: String,
}

/// A reply envelope as a mathematical value.
pub struct CommandResponseView {
    pub command_id: i64,
    pub device_id: Seq<char>,
    pub message_type: Seq<char>,
    pub response: Seq<char>,
}

impl View for CommandResponse {
    type V = CommandResponseView;

    open spec fn view(&self) -> CommandResponseView {
        CommandResponseView {
            command_id: self.command_id,
            device_id: self.device_id@,
            message_type: self.message_type@,
            response: self.response@,
        }
    }
}

/// The message type of a frame that carries commands to the hub.
pub open spec fn request_type() -> Seq<char> {
    "hm_get_command_queue"@
}

/// The message type of a frame that carries the hub's reply.
pub open spec fn response_type() -> Seq<char> {
    "hm_set_command_response"@
}

/// One entry of the command queue: the command's text and its tag.
pub open spec fn queued_command(command: Seq<char>) -> Json {
    Json::Object(
        Json::no_members().insert("COMMAND"@, Json::Str(command)).insert(
            "COMMANDID"@,
            Json::Int(COMMAND_ID as int),
        ),
    )
}

/// The inner message: the token and a queue of the one command.
pub open spec fn request_document(token: Seq<char>, command: Seq<char>) -> Json {
    Json::Object(
        Json::no_members().insert("token"@, Json::Str(token)).insert(
            "COMMANDS"@,
            Json::Array(seq![queued_command(command)]),
        ),
    )
}

/// The outer envelope: its type, and the inner message as a string.
pub open spec fn frame_document(message: Seq<char>) -> Json {
    Json::Object(
        Json::no_members().insert("message_type"@, Json::Str(request_type())).insert(
            "message"@,
            Json::Str(message),
        ),
    )
}

/// The frame that carries `command` under `token`: the inner message is
/// written out first, and that text is then written out again as a string of
/// the envelope.
pub open spec fn request_frame(token: Seq<char>, command: Seq<char>) -> Seq<char> {
    json_print(frame_document(json_print(request_document(token, command))))
}

/// The inner message as a value.
pub fn request_value(token: &str, command: &str) -> (r: serde_json::Value)
    ensures
        json_view(r) == request_document(token@, command@),
{
    let mut entry = members_new();
    members_insert(&mut entry, "COMMAND", string_value(command));
    members_insert(&mut entry, "COMMANDID", integer_value(COMMAND_ID));
    let mut queue: Vec<serde_json::Value> = Vec::new();
    queue.push(object_value(entry));
    let ghost queued = queue@;
    let commands = array_value(queue);
    assert(Seq::new(queued.len(), |i: int| json_view(queued[i])) =~= seq![
        queued_command(command@),
    ]);
    let mut request = members_new();
    members_insert(&mut request, "token", string_value(token));
    members_insert(&mut request, "COMMANDS", commands);
    object_value(request)
}

/// The envelope as a value.
pub fn frame_value(message: &str) -> (r: serde_json::Value)
    ensures
        json_view(r) == frame_document(message@),
{
    let mut frame = members_new();
    members_insert(&mut frame, "message_type", string_value("hm_get_command_queue"));
    members_insert(&mut frame, "message", string_value(message));
    object_value(frame)
}

/// The text of the inner message.
pub fn inner_message(token: &str, command: &str) -> (r: String)
    ensures
        r@ == json_print(request_document(token@, command@)),
{
    print(&request_value(token, command))
}

/// The text of the frame that carries `command` under `token`.
pub fn encode(token: &str, command: &str) -> (r: String)
    ensures
        r@ == request_frame(token@, command@),
{
    let message = inner_message(token, command);
    print(&frame_value(message.as_str()))
}

/// The string member of a value under `key`, if it has one.
pub fn text_member(doc: &serde_json::Value, key: &str) -> (r: Option<String>)
    ensures
        match json_view(*doc).member_text(key@) {
            Some(text) => r matches Some(found) && found@ == text,
            None => r is None,
        },
{
    match member(doc, key) {
        Some(found) => match as_str(found) {
            Some(text) => Some(text.to_owned()),
            None => None,
        },
        None => None,
    }
}

/// The integer member of a value under `key`, if it has one.
pub fn integer_member(doc: &serde_json::Value, key: &str) -> (r: Option<i64>)
    ensures
        r == json_view(*doc).member_integer(key@),
{
    match member(doc, key) {
        Some(found) => as_i64(found),
        None => None,
    }
}

/// The envelope that a document holds: an object with an integer
/// `command_id` and the strings `device_id`, `message_type` and `response`.
/// Further members are ignored.
pub open spec fn envelope_of(doc: Json) -> Option<CommandResponseView> {
    match (
        doc.member_integer("command_id"@),
        doc.member_text("device_id"@),
        doc.member_text("message_type"@),
        doc.member_text("response"@),
    ) {
        (Some(command_id), Some(device_id), Some(message_type), Some(response)) => Some(
            CommandResponseView { command_id, device_id, message_type, response },
        ),
        _ => None,
    }
}

/// What an exchange yields: the hub's address and the response text.
pub open spec fn exchange_view(r: Result<(String, String), ClientError>) -> Result<
    (Seq<char>, Seq<char>),
    ClientErrorView,
> {
    match r {
        Ok((device_id, response)) => Ok((device_id@, response@)),
        Err(e) => Err(e@),
    }
}

impl CommandResponseView {
    /// Whether the envelope is the reply to the command: it has the type of
    /// a reply and carries the command's tag.
    pub open spec fn is_reply(self) -> bool {
        self.message_type == response_type() && self.command_id == COMMAND_ID
    }

    /// What the envelope yields: its address and response where it is the
    /// reply; else a protocol error that carries it.
    pub open spec fn accepted(self) -> Result<(Seq<char>, Seq<char>), ClientErrorView> {
        if self.is_reply() {
            Ok((self.device_id, self.response))
        } else {
            Err(ClientErrorView::Protocol(self))
        }
    }
}

impl CommandResponse {
    /// Reads the envelope out of a parsed frame.
    pub fn from_value(doc: &serde_json::Value) -> (r: Option<CommandResponse>)
        ensures
            match envelope_of(json_view(*doc)) {
                Some(envelope) => r matches Some(found) && found@ == envelope,
                None => r is None,
            },
    {
        let command_id = integer_member(doc, "command_id");
        let device_id = text_member(doc, "device_id");
        let message_type = text_member(doc, "message_type");
        let response = text_member(doc, "response");
        match (command_id, device_id, message_type, response) {
            (Some(command_id), Some(device_id), Some(message_type), Some(response)) => Some(
                CommandResponse { command_id, device_id, message_type, response },
            ),
            _ => None,
        }
    }

    /// Holds the envelope against the command that was sent.
    pub fn accept(self) -> (r: Result<(String, String), ClientError>)
        ensures
            exchange_view(r) == self@.accepted(),
    {
        let expected = "hm_set_command_response".to_owned();
        if self.message_type == expected && self.command_id == COMMAND_ID {
            Ok((self.device_id, self.response))
        } else {
            Err(ClientError::Protocol(self))
        }
    }
}

/// What a frame yields: a decode error that carries the frame where it is
/// no JSON or holds no envelope; else what the envelope yields.
pub open spec fn decoded(frame: Seq<u8>) -> Result<(Seq<char>, Seq<char>), ClientErrorView> {
    match json_parse_bytes(frame) {
        Some(doc) => match envelope_of(doc) {
            Some(envelope) => envelope.accepted(),
            None => Err(ClientErrorView::Decode(frame)),
        },
        None => Err(ClientErrorView::Decode(frame)),
    }
}

/// Reads a frame of the hub as the reply to the command.
pub fn decode(frame: &[u8]) -> (r: Result<(String, String), ClientError>)
    ensures
        exchange_view(r) == decoded(frame@),
{
    match parse_bytes(frame) {
        Ok(doc) => match CommandResponse::from_value(&doc) {
            Some(envelope) => envelope.accept(),
            None => Err(ClientError::Decode(slice_to_vec(frame))),
        },
        Err(_) => Err(ClientError::Decode(slice_to_vec(frame))),
    }
}

/// Classes the outcome of reading a response text as the type that the
/// caller expects: the value where there is one; else a payload error that
/// carries the text.
pub fn typed<T>(response: &str, value: Option<T>) -> (r: Result<T, ClientError>)
    ensures
        match value {
            Some(found) => r == Ok::<T, ClientError>(found),
            None => r matches Err(e) && e@ == ClientErrorView::Payload(response@),
        },
{
    match value {
        Some(found) => Ok(found),
        None => Err(ClientError::Payload(response.to_owned())),
    }
}

/// What the inner message says, read back member by member: the token, and
/// the text and the tag of the first command in the queue.
pub open spec fn request_of(doc: Json) -> Option<(Seq<char>, Seq<char>, i64)> {
    match (doc.member_text("token"@), doc.member("COMMANDS"@)) {
        (Some(token), Some(Json::Array(queue))) => if queue.len() == 1 {
            match (queue[0].member_text("COMMAND"@), queue[0].member_integer("COMMANDID"@)) {
                (Some(command), Some(id)) => Some((token, command, id)),
                _ => None,
            }
        } else {
            None
        },
        _ => None,
    }
}

/// Reading the inner message back recovers the token and the command as they
/// went in, with the fixed tag, whatever the two texts hold.
pub proof fn lemma_request_round_trip(token: Seq<char>, command: Seq<char>)
    ensures
        request_of(request_document(token, command)) == Some((token, command, COMMAND_ID)),
{
    reveal_strlit("token");
    reveal_strlit("COMMANDS");
    reveal_strlit("COMMAND");
    reveal_strlit("COMMANDID");
    assert("token"@.len() != "COMMANDS"@.len());
    assert("COMMAND"@.len() != "COMMANDID"@.len());
    assert(seq![queued_command(command)][0] == queued_command(command));
}

/// Reading a command back recovers its name and its argument: the one member
/// of the command is under its name, and holds 0 or the argument.
pub proof fn lemma_command_round_trip(command: Seq<char>, arg: Seq<char>)
    ensures
        void_command(command).member_integer(command) == Some(0i64),
        string_command(command, arg).member_text(command) == Some(arg),
        forall|key: Seq<char>|
            key != command ==> (#[trigger] void_command(command).member(key)) is None,
        forall|key: Seq<char>|
            key != command ==> (#[trigger] string_command(command, arg).member(key)) is None,
{
}

/// Two inner messages are the same only where token and command are.
pub proof fn lemma_request_injective(
    token: Seq<char>,
    command: Seq<char>,
    other_token: Seq<char>,
    other_command: Seq<char>,
)
    requires
        request_document(token, command) == request_document(other_token, other_command),
    ensures
        token == other_token,
        command == other_command,
{
    lemma_request_round_trip(token, command);
    lemma_request_round_trip(other_token, other_command);
}

/// An envelope of another message type than a reply's is rejected, whatever
/// its command id.
pub proof fn lemma_wrong_type_rejected(envelope: CommandResponseView)
    requires
        envelope.message_type != response_type(),
    ensures
        envelope.accepted() == Err::<(Seq<char>, Seq<char>), _>(
            ClientErrorView::Protocol(envelope),
        ),
{
}

/// An envelope of a reply's message type is rejected where its command id is
/// not the command's.
pub proof fn lemma_wrong_id_rejected(envelope: CommandResponseView)
    requires
        envelope.message_type == response_type(),
        envelope.command_id != COMMAND_ID,
    ensures
        envelope.accepted() == Err::<(Seq<char>, Seq<char>), _>(
            ClientErrorView::Protocol(envelope),
        ),
{
}

/// A frame yields the address and the response exactly where it holds an
/// envelope that is the reply; no other frame yields anything but an error.
pub proof fn lemma_decoded_only_reply(frame: Seq<u8>)
    ensures
        decoded(frame) is Ok <==> (json_parse_bytes(frame) matches Some(doc) && envelope_of(
            doc,
        ) matches Some(envelope) && envelope.is_reply()),
{
}

} // verus!
