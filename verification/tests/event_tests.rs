use dice_session::error::Error;
use dice_session::event::{
    decode, decode_with, describe, handle_events, handle_sse, tail_events, DecodedEvent, Event,
    Frame, Record, Roll,
};
use dice_session::log::SessionLog;

fn record(kind: &str, payload: &str) -> Record {
    Record { kind: kind.to_string(), payload: payload.to_string() }
}

#[test]
fn roll_record_decodes_to_line() {
    let r = record("roll", r#"{"Username":"bob","Room":"42","Result":17}"#);
    assert_eq!(
        decode(&r),
        Ok(DecodedEvent::Roll { username: "bob".to_string(), room: "42".to_string(), result: 17 })
    );
    assert_eq!(handle_events(&r), Ok("bob rolled 17".to_string()));
}

#[test]
fn ping_record_passes_through() {
    let r = record("ping", "x");
    assert_eq!(
        decode(&r),
        Ok(DecodedEvent::Unrecognized { kind: "ping".to_string(), payload: "x".to_string() })
    );
    assert_eq!(handle_events(&r), Ok("Event type: ping\nEvent data: x".to_string()));
}

#[test]
fn unrecognized_kinds_are_never_lost() {
    for (kind, payload) in [
        ("", ""),
        ("Roll", "{}"),
        ("ROLL", "not json"),
        ("roll ", "1"),
        ("joined", "bob"),
        ("message", "{\"Username\":\"bob\"}"),
        ("\n", "\n"),
    ] {
        let r = record(kind, payload);
        assert_eq!(
            decode(&r),
            Ok(DecodedEvent::Unrecognized {
                kind: kind.to_string(),
                payload: payload.to_string()
            })
        );
        assert_eq!(
            handle_events(&r),
            Ok(format!("Event type: {}\nEvent data: {}", kind, payload))
        );
    }
}

#[test]
fn join_record_decodes_to_line() {
    let r = record("join", "alice");
    assert_eq!(decode(&r), Ok(DecodedEvent::Join { username: "alice".to_string() }));
    assert_eq!(handle_events(&r), Ok("alice joined the party!".to_string()));
    assert_eq!(handle_events(&record("join", "")), Ok(" joined the party!".to_string()));
}

#[test]
fn roll_results_at_the_edges() {
    let low = record("roll", r#"{"Username":"a","Room":"","Result":0}"#);
    assert_eq!(handle_events(&low), Ok("a rolled 0".to_string()));
    let high = record("roll", r#"{"Result":255,"Room":"r","Username":"b","Extra":[1,2]}"#);
    assert_eq!(handle_events(&high), Ok("b rolled 255".to_string()));
    let hundred = record("roll", " {\"Username\":\"c\", \"Room\":\"r\", \"Result\":100} ");
    assert_eq!(handle_events(&hundred), Ok("c rolled 100".to_string()));
}

#[test]
fn malformed_roll_payload_is_a_decode_error() {
    for payload in [
        "",
        "x",
        "[]",
        "17",
        "{}",
        r#"{"Username":"bob","Room":"42"}"#,
        r#"{"Username":"bob","Result":17}"#,
        r#"{"Room":"42","Result":17}"#,
        r#"{"Username":"bob","Room":"42","Result":256}"#,
        r#"{"Username":"bob","Room":"42","Result":-1}"#,
        r#"{"Username":"bob","Room":"42","Result":1.5}"#,
        r#"{"Username":"bob","Room":"42","Result":"17"}"#,
        r#"{"Username":7,"Room":"42","Result":17}"#,
        r#"{"Username":"bob","Room":null,"Result":17}"#,
        r#"{"username":"bob","room":"42","result":17}"#,
        r#"{"Username":"bob","Room":"42","Result":17"#,
    ] {
        let r = record("roll", payload);
        assert_eq!(decode(&r), Err(Error::Decode(payload.to_string())));
        assert_eq!(handle_events(&r), Err(Error::Decode(payload.to_string())));
    }
}

#[test]
fn decode_with_takes_the_roll_read_before() {
    let roll = Roll { username: "bob".to_string(), room: "42".to_string(), result: 17 };
    assert_eq!(
        decode_with(&record("roll", "anything"), Some(roll.clone())),
        Ok(DecodedEvent::Roll { username: "bob".to_string(), room: "42".to_string(), result: 17 })
    );
    assert_eq!(
        decode_with(&record("roll", "anything"), None),
        Err(Error::Decode("anything".to_string()))
    );
    assert_eq!(
        decode_with(&record("join", "amy"), Some(roll.clone())),
        Ok(DecodedEvent::Join { username: "amy".to_string() })
    );
    assert_eq!(
        decode_with(&record("ping", "x"), Some(roll)),
        Ok(DecodedEvent::Unrecognized { kind: "ping".to_string(), payload: "x".to_string() })
    );
}

#[test]
fn roll_from_members_needs_all_three_and_a_byte() {
    let s = |t: &str| Some(t.to_string());
    assert_eq!(
        Roll::from_members(s("bob"), s("42"), Some(17)),
        Some(Roll { username: "bob".to_string(), room: "42".to_string(), result: 17 })
    );
    assert_eq!(
        Roll::from_members(s(""), s(""), Some(255)),
        Some(Roll { username: String::new(), room: String::new(), result: 255 })
    );
    assert_eq!(Roll::from_members(s("bob"), s("42"), Some(256)), None);
    assert_eq!(Roll::from_members(s("bob"), s("42"), Some(u64::MAX)), None);
    assert_eq!(Roll::from_members(None, s("42"), Some(17)), None);
    assert_eq!(Roll::from_members(s("bob"), None, Some(17)), None);
    assert_eq!(Roll::from_members(s("bob"), s("42"), None), None);
}

#[test]
fn roll_parse_reads_the_three_members() {
    assert_eq!(
        Roll::parse(r#"{"Username":"bob","Room":"42","Result":17}"#),
        Some(Roll { username: "bob".to_string(), room: "42".to_string(), result: 17 })
    );
    assert_eq!(
        Roll::parse(r#"{"Username":"bé","Room":"\n","Result":3}"#),
        Some(Roll { username: "bé".to_string(), room: "\n".to_string(), result: 3 })
    );
    assert_eq!(Roll::parse("bob"), None);
}

#[test]
fn event_kinds() {
    assert_eq!(Event::from_str("roll"), Ok(Event::Roll));
    assert_eq!(Event::from_str("join"), Ok(Event::Join));
    assert_eq!(Event::from_str("ping"), Err(()));
    assert_eq!(Event::from_str(""), Err(()));
    assert_eq!(Event::from_str("rol"), Err(()));
    assert_eq!(Event::from_str("rolls"), Err(()));
}

#[test]
fn render_formats() {
    let e = DecodedEvent::Roll { username: "bob".to_string(), room: "42".to_string(), result: 9 };
    assert_eq!(e.render(), "bob rolled 9");
    let e = DecodedEvent::Join { username: "amy".to_string() };
    assert_eq!(e.render(), "amy joined the party!");
    let e = DecodedEvent::Unrecognized { kind: "k".to_string(), payload: "p".to_string() };
    assert_eq!(e.render(), "Event type: k\nEvent data: p");
}

#[test]
fn protocol_frames_render_as_lines() {
    assert_eq!(describe(&Frame::Connected(200)), Ok("Connected! 200".to_string()));
    assert_eq!(describe(&Frame::Connected(0)), Ok("Connected! 0".to_string()));
    assert_eq!(describe(&Frame::Connected(65535)), Ok("Connected! 65535".to_string()));
    assert_eq!(
        describe(&Frame::Comment("keep-alive".to_string())),
        Ok("Comment: \nkeep-alive".to_string())
    );
    assert_eq!(
        describe(&Frame::Event(record("join", "amy"))),
        Ok("amy joined the party!".to_string())
    );
}

#[test]
fn tail_events_appends_one_line() {
    let mut log = SessionLog::new();
    assert_eq!(tail_events(&Frame::Connected(200), &mut log), Ok(()));
    assert_eq!(tail_events(&Frame::Event(record("ping", "x")), &mut log), Ok(()));
    assert_eq!(
        log.snapshot(),
        vec!["Connected! 200".to_string(), "Event type: ping\nEvent data: x".to_string()]
    );
    let bad = Frame::Event(record("roll", "oops"));
    assert_eq!(tail_events(&bad, &mut log), Err(Error::Decode("oops".to_string())));
    assert_eq!(log.len(), 2);
}

#[test]
fn ingest_keeps_arrival_order() {
    let frames = vec![
        Frame::Connected(200),
        Frame::Event(record("join", "bob")),
        Frame::Comment("hi".to_string()),
        Frame::Event(record("roll", r#"{"Username":"bob","Room":"42","Result":17}"#)),
        Frame::Event(record("ping", "x")),
        Frame::Event(record("join", "bob")),
    ];
    let mut log = SessionLog::new();
    assert_eq!(handle_sse(&frames, &mut log), Ok(()));
    assert_eq!(
        log.snapshot(),
        vec![
            "Connected! 200".to_string(),
            "bob joined the party!".to_string(),
            "Comment: \nhi".to_string(),
            "bob rolled 17".to_string(),
            "Event type: ping\nEvent data: x".to_string(),
            "bob joined the party!".to_string(),
        ]
    );
}

#[test]
fn ingest_stops_at_the_first_frame_without_a_line() {
    let frames = vec![
        Frame::Event(record("join", "bob")),
        Frame::Event(record("roll", "{}")),
        Frame::Event(record("join", "amy")),
    ];
    let mut log = SessionLog::new();
    log.append("earlier".to_string());
    assert_eq!(handle_sse(&frames, &mut log), Err(Error::Decode("{}".to_string())));
    assert_eq!(
        log.snapshot(),
        vec!["earlier".to_string(), "bob joined the party!".to_string()]
    );
    let mut log = SessionLog::new();
    assert_eq!(handle_sse(&Vec::new(), &mut log), Ok(()));
    assert_eq!(log.len(), 0);
}
