use neohub::codec::{
    decode, encode, frame_value, inner_message, integer_member, request_value, text_member,
    typed, COMMAND_ID,
};
use neohub::{serialise_str, serialise_void, ClientError, CommandResponse};
use serde_json::Value;

fn object(members: Vec<(&str, Value)>) -> Value {
    let mut map = serde_json::Map::new();
    for (key, value) in members {
        map.insert(key.to_owned(), value);
    }
    Value::Object(map)
}

fn request(token: &str, command: &str) -> Value {
    object(vec![
        ("token", Value::from(token)),
        (
            "COMMANDS",
            Value::Array(vec![object(vec![
                ("COMMAND", Value::from(command)),
                ("COMMANDID", Value::from(1)),
            ])]),
        ),
    ])
}

fn reply_frame(command_id: Value, device_id: &str, message_type: &str, response: &str) -> Vec<u8> {
    let doc = object(vec![
        ("command_id", command_id),
        ("device_id", Value::from(device_id)),
        ("message_type", Value::from(message_type)),
        ("response", Value::from(response)),
    ]);
    serde_json::to_vec(&doc).unwrap()
}

fn envelope(command_id: i64, message_type: &str) -> CommandResponse {
    CommandResponse {
        command_id,
        device_id: "00:11:22:33:44:55".to_owned(),
        message_type: message_type.to_owned(),
        response: "{}".to_owned(),
    }
}

#[test]
fn command_id_is_one() {
    assert_eq!(COMMAND_ID, 1);
}

#[test]
fn void_command_maps_name_to_zero() {
    assert_eq!(serialise_void("AWAY_ON"), "{\"AWAY_ON\":0}");
    assert_eq!(serialise_void("FIRMWARE"), "{\"FIRMWARE\":0}");
}

#[test]
fn void_command_is_json_whatever_the_name_holds() {
    let name = "A\"B\\C'D\n";
    let text = serialise_void(name);
    assert_eq!(text, "{\"A\\\"B\\\\C'D\\n\":0}");
    let parsed: Value = serde_json::from_str(&text).unwrap();
    assert_eq!(parsed, object(vec![(name, Value::from(0))]));
}

#[test]
fn void_command_with_empty_name() {
    assert_eq!(serialise_void(""), "{\"\":0}");
}

#[test]
fn string_command_pairs_name_and_argument() {
    let text = serialise_str("SET_PROFILE", "Winter");
    assert_eq!(text, "{\"SET_PROFILE\":\"Winter\"}");
    let parsed: Value = serde_json::from_str(&text).unwrap();
    assert_eq!(parsed, object(vec![("SET_PROFILE", Value::from("Winter"))]));
}

#[test]
fn string_command_is_json_whatever_the_argument_holds() {
    let arg = "it's \"cold\" \\ outside\t\u{1}é";
    let text = serialise_str("SET_PROFILE", arg);
    let parsed: Value = serde_json::from_str(&text).unwrap();
    assert_eq!(parsed, object(vec![("SET_PROFILE", Value::from(arg))]));
    assert!(!text.contains('\''.to_string().as_str()) || arg.contains('\''));
}

#[test]
fn inner_message_for_firmware() {
    let text = inner_message("abc123", "FIRMWARE");
    let parsed: Value = serde_json::from_str(&text).unwrap();
    assert_eq!(parsed, request("abc123", "FIRMWARE"));
    assert_eq!(
        text,
        "{\"COMMANDS\":[{\"COMMAND\":\"FIRMWARE\",\"COMMANDID\":1}],\"token\":\"abc123\"}"
    );
}

#[test]
fn inner_message_is_what_the_crate_prints_for_the_same_value() {
    let expected = serde_json::to_string(&request("t0k\"en", "{\"AWAY_ON\":0}")).unwrap();
    assert_eq!(inner_message("t0k\"en", "{\"AWAY_ON\":0}"), expected);
}

#[test]
fn request_value_is_the_request() {
    assert_eq!(request_value("abc123", "FIRMWARE"), request("abc123", "FIRMWARE"));
    let queue = request_value("a", "b");
    assert_eq!(queue["COMMANDS"].as_array().unwrap().len(), 1);
    assert_eq!(queue["COMMANDS"][0]["COMMANDID"], Value::from(1));
}

#[test]
fn frame_value_holds_type_and_message() {
    assert_eq!(
        frame_value("inner"),
        object(vec![
            ("message_type", Value::from("hm_get_command_queue")),
            ("message", Value::from("inner")),
        ])
    );
}

#[test]
fn void_command_sits_in_the_command_field_as_text() {
    let text = inner_message("abc123", &serialise_void("AWAY_ON"));
    let parsed: Value = serde_json::from_str(&text).unwrap();
    let command = parsed["COMMANDS"][0]["COMMAND"].as_str().unwrap();
    assert_eq!(command, "{\"AWAY_ON\":0}");
    let inner: Value = serde_json::from_str(command).unwrap();
    assert_eq!(inner, object(vec![("AWAY_ON", Value::from(0))]));
}

#[test]
fn inner_message_round_trips() {
    let cases = vec![
        ("abc123", "FIRMWARE"),
        ("", ""),
        ("tok\"en\\", "{\"SET_PROFILE\":\"Win\\\"ter\"}"),
        ("t\u{0}\u{1f}\u{7f}", "line\nbreak\r\ttab"),
        ("ключ", "命令 🔥"),
        ("COMMANDS", "token"),
    ];
    for (token, command) in cases {
        let text = inner_message(token, command);
        let parsed: Value = serde_json::from_str(&text).unwrap();
        assert_eq!(text_member(&parsed, "token"), Some(token.to_owned()));
        let queue = parsed["COMMANDS"].as_array().unwrap();
        assert_eq!(queue.len(), 1);
        assert_eq!(text_member(&queue[0], "COMMAND"), Some(command.to_owned()));
        assert_eq!(integer_member(&queue[0], "COMMANDID"), Some(1));
        assert_eq!(parsed, request(token, command));
    }
}

#[test]
fn frame_embeds_the_inner_message_as_a_string() {
    let frame = encode("abc123", "FIRMWARE");
    let parsed: Value = serde_json::from_str(&frame).unwrap();
    assert_eq!(parsed["message_type"], Value::from("hm_get_command_queue"));
    let message = parsed["message"].as_str().unwrap();
    assert_eq!(message, inner_message("abc123", "FIRMWARE"));
    assert_eq!(parsed.as_object().unwrap().len(), 2);
    let inner: Value = serde_json::from_str(message).unwrap();
    assert_eq!(inner, request("abc123", "FIRMWARE"));
}

#[test]
fn frame_text_is_exact() {
    assert_eq!(
        encode("abc123", "FIRMWARE"),
        "{\"message\":\"{\\\"COMMANDS\\\":[{\\\"COMMAND\\\":\\\"FIRMWARE\\\",\\\"COMMANDID\\\":1}],\\\"token\\\":\\\"abc123\\\"}\",\"message_type\":\"hm_get_command_queue\"}"
    );
}

#[test]
fn text_member_reads_strings_only() {
    let doc = object(vec![
        ("a", Value::from("x")),
        ("b", Value::from(7)),
        ("c", Value::Null),
    ]);
    assert_eq!(text_member(&doc, "a"), Some("x".to_owned()));
    assert_eq!(text_member(&doc, "b"), None);
    assert_eq!(text_member(&doc, "c"), None);
    assert_eq!(text_member(&doc, "missing"), None);
    assert_eq!(text_member(&Value::from("a"), "a"), None);
    assert_eq!(text_member(&Value::Array(vec![Value::from("a")]), "0"), None);
}

#[test]
fn integer_member_reads_integers_of_64_bits_only() {
    let doc = object(vec![
        ("one", Value::from(1)),
        ("neg", Value::from(-5)),
        ("min", Value::from(i64::MIN)),
        ("max", Value::from(i64::MAX)),
        ("big", Value::from(u64::MAX)),
        ("text", Value::from("1")),
        ("flag", Value::Bool(true)),
    ]);
    assert_eq!(integer_member(&doc, "one"), Some(1));
    assert_eq!(integer_member(&doc, "neg"), Some(-5));
    assert_eq!(integer_member(&doc, "min"), Some(i64::MIN));
    assert_eq!(integer_member(&doc, "max"), Some(i64::MAX));
    assert_eq!(integer_member(&doc, "big"), None);
    assert_eq!(integer_member(&doc, "text"), None);
    assert_eq!(integer_member(&doc, "flag"), None);
    assert_eq!(integer_member(&doc, "missing"), None);
    let fraction: Value = serde_json::from_str("{\"n\":1.0}").unwrap();
    assert_eq!(integer_member(&fraction, "n"), None);
}

#[test]
fn envelope_is_read_from_a_value() {
    let doc = object(vec![
        ("command_id", Value::from(1)),
        ("device_id", Value::from("00:11:22:33:44:55")),
        ("message_type", Value::from("hm_set_command_response")),
        ("response", Value::from("{}")),
        ("extra", Value::Bool(false)),
    ]);
    assert_eq!(
        CommandResponse::from_value(&doc),
        Some(envelope(1, "hm_set_command_response"))
    );
}

#[test]
fn envelope_needs_all_four_members() {
    let names = ["command_id", "device_id", "message_type", "response"];
    for missing in names {
        let mut members = vec![
            ("command_id", Value::from(1)),
            ("device_id", Value::from("d")),
            ("message_type", Value::from("hm_set_command_response")),
            ("response", Value::from("{}")),
        ];
        members.retain(|(key, _)| *key != missing);
        assert_eq!(CommandResponse::from_value(&object(members)), None);
    }
    assert_eq!(CommandResponse::from_value(&Value::Null), None);
    assert_eq!(CommandResponse::from_value(&Value::Array(vec![])), None);
}

#[test]
fn accept_yields_address_and_response() {
    assert_eq!(
        envelope(1, "hm_set_command_response").accept(),
        Ok(("00:11:22:33:44:55".to_owned(), "{}".to_owned()))
    );
}

#[test]
fn accept_rejects_another_message_type_whatever_the_id() {
    for id in [1, 0, 2, -1, i64::MAX, i64::MIN] {
        for message_type in ["hm_get_command_queue", "", "hm_set_command_respons", "HM_SET_COMMAND_RESPONSE", "hm_set_command_response "] {
            let reply = envelope(id, message_type);
            assert_eq!(reply.clone().accept(), Err(ClientError::Protocol(reply)));
        }
    }
}

#[test]
fn accept_rejects_another_id() {
    for id in [0, 2, -1, i64::MAX, i64::MIN] {
        let reply = envelope(id, "hm_set_command_response");
        assert_eq!(reply.clone().accept(), Err(ClientError::Protocol(reply)));
    }
}

#[test]
fn decode_reads_a_reply() {
    let frame = reply_frame(
        Value::from(1),
        "00:11:22:33:44:55",
        "hm_set_command_response",
        "{\"firmware version\":\"1.2.3\"}",
    );
    assert_eq!(
        decode(&frame),
        Ok((
            "00:11:22:33:44:55".to_owned(),
            "{\"firmware version\":\"1.2.3\"}".to_owned()
        ))
    );
}

#[test]
fn decode_leaves_the_response_unparsed() {
    let frame = reply_frame(Value::from(1), "d", "hm_set_command_response", "not json at all");
    assert_eq!(decode(&frame), Ok(("d".to_owned(), "not json at all".to_owned())));
}

#[test]
fn decode_rejects_wrong_type() {
    let frame = reply_frame(Value::from(1), "d", "hm_get_command_queue", "{}");
    assert_eq!(
        decode(&frame),
        Err(ClientError::Protocol(CommandResponse {
            command_id: 1,
            device_id: "d".to_owned(),
            message_type: "hm_get_command_queue".to_owned(),
            response: "{}".to_owned(),
        }))
    );
}

#[test]
fn decode_rejects_wrong_id() {
    let frame = reply_frame(Value::from(2), "d", "hm_set_command_response", "{}");
    assert_eq!(
        decode(&frame),
        Err(ClientError::Protocol(CommandResponse {
            command_id: 2,
            device_id: "d".to_owned(),
            message_type: "hm_set_command_response".to_owned(),
            response: "{}".to_owned(),
        }))
    );
}

#[test]
fn decode_rejects_what_is_no_json() {
    for frame in [&b""[..], b"{", b"hello", b"{\"command_id\":1,}", b"{} trailing", &[0xff, 0xfe]] {
        assert_eq!(decode(frame), Err(ClientError::Decode(frame.to_vec())));
    }
}

#[test]
fn decode_rejects_json_that_is_no_envelope() {
    let frames = vec![
        b"null".to_vec(),
        b"[]".to_vec(),
        b"{}".to_vec(),
        b"\"hm_set_command_response\"".to_vec(),
        reply_frame(Value::from("1"), "d", "hm_set_command_response", "{}"),
        reply_frame(Value::from(u64::MAX), "d", "hm_set_command_response", "{}"),
        b"{\"command_id\":1.0,\"device_id\":\"d\",\"message_type\":\"hm_set_command_response\",\"response\":\"{}\"}".to_vec(),
        b"{\"command_id\":1,\"device_id\":5,\"message_type\":\"hm_set_command_response\",\"response\":\"{}\"}".to_vec(),
        b"{\"command_id\":1,\"device_id\":\"d\",\"message_type\":null,\"response\":\"{}\"}".to_vec(),
        b"{\"command_id\":1,\"device_id\":\"d\",\"message_type\":\"hm_set_command_response\",\"response\":{}}".to_vec(),
        b"{\"command_id\":1,\"device_id\":\"d\",\"message_type\":\"hm_set_command_response\"}".to_vec(),
    ];
    for frame in frames {
        assert_eq!(decode(&frame), Err(ClientError::Decode(frame.clone())));
    }
}

#[test]
fn decode_ignores_further_members_and_white_space() {
    let frame = b" { \"response\" : \"r\", \"other\": [1, 2], \"message_type\": \"hm_set_command_response\",\n \"device_id\": \"d\", \"command_id\": 1 } ";
    assert_eq!(decode(frame), Ok(("d".to_owned(), "r".to_owned())));
}

#[test]
fn typed_passes_the_value_on_or_carries_the_text() {
    assert_eq!(typed("17", Some(17u16)), Ok(17u16));
    assert_eq!(typed("[1]", Some(vec![1u8])), Ok(vec![1u8]));
    assert_eq!(typed::<u16>("seventeen", None), Err(ClientError::Payload("seventeen".to_owned())));
    assert_eq!(typed::<String>("", None), Err(ClientError::Payload(String::new())));
}
