use spotify_skill::bus_connection::{DispatchError, EventHandler, MsgHandler};
use spotify_skill::envelope::{BusEnvelope, DecodeError};
use spotify_skill::handlers::{
    search_response, start_album, Album, HandlerError, Outcome, Track,
};
use spotify_skill::player::{NormalizationLevel, PlaybackCommand, PlaybackItem};

fn registry() -> EventHandler {
    EventHandler::new(vec![
        ("spotify.search".to_string(), MsgHandler::Search),
        ("spotify.play".to_string(), MsgHandler::Play),
        ("spotify.next".to_string(), MsgHandler::Next),
        ("spotify.prev".to_string(), MsgHandler::Previous),
        ("spotify.pause".to_string(), MsgHandler::Pause),
        ("spotify.resume".to_string(), MsgHandler::Resume),
    ])
}

fn parsed(text: &str) -> serde_json::Value {
    serde_json::from_str::<serde_json::Value>(text).unwrap()
}

#[test]
fn pause_frame_gives_exactly_one_pause() {
    let r = registry().handle_msg(br#"{"type":"spotify.pause"}"#);
    assert_eq!(r, Ok(Outcome::Enqueue(PlaybackCommand::Pause)));
}

#[test]
fn search_frame_leads_to_the_response_frame() {
    let r = registry().handle_msg(br#"{"type":"spotify.search","data":{"query":"hello nasty"}}"#);
    assert_eq!(r, Ok(Outcome::Search("hello nasty".to_string())));
    let found =
        vec![Album { id: "abc".to_string(), name: "Hello Nasty".to_string(), tracks: Vec::new() }];
    let frame = search_response(&found).unwrap().encode();
    assert_eq!(
        parsed(&frame),
        parsed(
            r#"{"type":"spotify.search.response","data":{"id":"abc","name":"Hello Nasty","media_type":"album"}}"#
        )
    );
}

#[test]
fn play_frame_leads_to_a_loaded_queue() {
    let r = registry().handle_msg(br#"{"type":"spotify.play","data":{"album":"abc"}}"#);
    assert_eq!(r, Ok(Outcome::Resolve("abc".to_string())));
    let album = Album {
        id: "abc".to_string(),
        name: "Hello Nasty".to_string(),
        tracks: vec![
            Track { id: "t1".to_string() },
            Track { id: "t2".to_string() },
            Track { id: "t3".to_string() },
        ],
    };
    let item = |id: &str| PlaybackItem {
        item_id: id.to_string(),
        norm_level: NormalizationLevel::Track,
    };
    assert_eq!(
        start_album(&album),
        PlaybackCommand::LoadQueue { items: vec![item("t1"), item("t2"), item("t3")], position: 0 }
    );
}

#[test]
fn malformed_frame_does_not_stop_the_next() {
    let handler = registry();
    assert_eq!(handler.handle_msg(b"not json"), Err(DispatchError::Decode(DecodeError::Syntax)));
    assert_eq!(
        handler.handle_msg(br#"{"type":"spotify.next"}"#),
        Ok(Outcome::Enqueue(PlaybackCommand::Next))
    );
    assert_eq!(handler.handle_msg(&[0x80]), Err(DispatchError::Decode(DecodeError::NotUtf8)));
    assert_eq!(
        handler.handle_msg(br#"{"data":{"query":"x"}}"#),
        Err(DispatchError::Decode(DecodeError::MissingType))
    );
    assert_eq!(
        handler.handle_msg(br#"{"type":"spotify.resume"}"#),
        Ok(Outcome::Enqueue(PlaybackCommand::Resume))
    );
}

#[test]
fn unknown_type_gives_no_outcome() {
    let r = registry().handle_msg(br#"{"type":"spotify.unknown"}"#);
    assert_eq!(r, Err(DispatchError::HandlerNotFound("spotify.unknown".to_string())));
}

#[test]
fn each_registered_type_runs_its_own_handler() {
    let handler = registry();
    let frame = br#"{"type":"x","data":{"query":"q","album":"a"}}"#;
    let msg = BusEnvelope::decode(frame).unwrap();
    assert_eq!(handler.call("spotify.search", &msg), Ok(Outcome::Search("q".to_string())));
    assert_eq!(handler.call("spotify.play", &msg), Ok(Outcome::Resolve("a".to_string())));
    assert_eq!(handler.call("spotify.next", &msg), Ok(Outcome::Enqueue(PlaybackCommand::Next)));
    assert_eq!(
        handler.call("spotify.prev", &msg),
        Ok(Outcome::Enqueue(PlaybackCommand::Previous))
    );
    assert_eq!(handler.call("spotify.pause", &msg), Ok(Outcome::Enqueue(PlaybackCommand::Pause)));
    assert_eq!(
        handler.call("spotify.resume", &msg),
        Ok(Outcome::Enqueue(PlaybackCommand::Resume))
    );
}

#[test]
fn call_goes_by_the_name_given_not_by_the_envelope() {
    let handler = registry();
    let msg = BusEnvelope::decode(br#"{"type":"spotify.pause"}"#).unwrap();
    assert_eq!(handler.call("spotify.next", &msg), Ok(Outcome::Enqueue(PlaybackCommand::Next)));
}

#[test]
fn lookup_is_by_exact_match() {
    let handler = registry();
    let msg = BusEnvelope::decode(br#"{"type":"spotify.pause"}"#).unwrap();
    for name in ["spotify.paus", "spotify.pause ", "Spotify.pause", "\"spotify.pause\"", ""] {
        assert_eq!(
            handler.call(name, &msg),
            Err(DispatchError::HandlerNotFound(name.to_string()))
        );
    }
}

#[test]
fn handler_failure_is_reported_not_raised() {
    let handler = registry();
    assert_eq!(
        handler.handle_msg(br#"{"type":"spotify.search","data":{}}"#),
        Err(DispatchError::Handler(HandlerError::MissingField))
    );
    assert_eq!(
        handler.handle_msg(br#"{"type":"spotify.play"}"#),
        Err(DispatchError::Handler(HandlerError::MissingField))
    );
}

#[test]
fn second_registration_replaces_the_first() {
    let mut handler = EventHandler::new(Vec::new());
    handler.add("spotify.toggle", MsgHandler::Pause);
    handler.add("spotify.other", MsgHandler::Next);
    handler.add("spotify.toggle", MsgHandler::Resume);
    assert_eq!(
        handler.handle_msg(br#"{"type":"spotify.toggle"}"#),
        Ok(Outcome::Enqueue(PlaybackCommand::Resume))
    );
    assert_eq!(
        handler.handle_msg(br#"{"type":"spotify.other"}"#),
        Ok(Outcome::Enqueue(PlaybackCommand::Next))
    );
}

#[test]
fn new_lets_the_last_of_equal_keys_win() {
    let handler = EventHandler::new(vec![
        ("k".to_string(), MsgHandler::Pause),
        ("j".to_string(), MsgHandler::Previous),
        ("k".to_string(), MsgHandler::Next),
    ]);
    assert_eq!(handler.handle_msg(br#"{"type":"k"}"#), Ok(Outcome::Enqueue(PlaybackCommand::Next)));
    assert_eq!(
        handler.handle_msg(br#"{"type":"j"}"#),
        Ok(Outcome::Enqueue(PlaybackCommand::Previous))
    );
}

#[test]
fn empty_registry_finds_nothing() {
    let handler = EventHandler::new(Vec::new());
    assert_eq!(
        handler.handle_msg(br#"{"type":"spotify.pause"}"#),
        Err(DispatchError::HandlerNotFound("spotify.pause".to_string()))
    );
}

#[test]
fn add_registers_under_the_name_itself() {
    let mut handler = EventHandler::new(Vec::new());
    handler.add("spotify.pause", MsgHandler::Pause);
    assert_eq!(
        handler.handle_msg(br#"{"type":"spotify.pause"}"#),
        Ok(Outcome::Enqueue(PlaybackCommand::Pause))
    );
}

#[test]
fn lost_player_refuses_playback_and_keeps_search() {
    let mut handler = registry();
    assert!(!handler.player_gone());
    handler.player_lost();
    assert!(handler.player_gone());
    assert_eq!(handler.handle_msg(br#"{"type":"spotify.pause"}"#), Err(DispatchError::ChannelClosed));
    assert_eq!(
        handler.handle_msg(br#"{"type":"spotify.play","data":{"album":"abc"}}"#),
        Err(DispatchError::ChannelClosed)
    );
    assert_eq!(
        handler.handle_msg(br#"{"type":"spotify.search","data":{"query":"q"}}"#),
        Ok(Outcome::Search("q".to_string()))
    );
    assert_eq!(
        handler.handle_msg(br#"{"type":"spotify.play","data":{}}"#),
        Err(DispatchError::Handler(HandlerError::MissingField))
    );
    assert_eq!(
        handler.handle_msg(br#"{"type":"spotify.unknown"}"#),
        Err(DispatchError::HandlerNotFound("spotify.unknown".to_string()))
    );
}

#[test]
fn commands_come_out_in_the_order_of_the_frames() {
    let handler = registry();
    let frames: [&[u8]; 4] = [
        br#"{"type":"spotify.pause"}"#,
        br#"{"type":"spotify.next"}"#,
        br#"{"type":"spotify.resume"}"#,
        br#"{"type":"spotify.prev"}"#,
    ];
    let mut sent = Vec::new();
    for frame in frames {
        if let Ok(Outcome::Enqueue(command)) = handler.handle_msg(frame) {
            sent.push(command);
        }
    }
    assert_eq!(
        sent,
        vec![
            PlaybackCommand::Pause,
            PlaybackCommand::Next,
            PlaybackCommand::Resume,
            PlaybackCommand::Previous
        ]
    );
}

#[test]
fn run_is_what_call_runs() {
    let msg = BusEnvelope::decode(br#"{"type":"x","data":{"album":"abc"}}"#).unwrap();
    assert_eq!(MsgHandler::Play.run(&msg), Ok(Outcome::Resolve("abc".to_string())));
    assert_eq!(MsgHandler::Search.run(&msg), Err(HandlerError::MissingField));
    assert_eq!(MsgHandler::Pause.run(&msg), Ok(Outcome::Enqueue(PlaybackCommand::Pause)));
}

#[test]
fn handler_for_reads_the_registry() {
    let handler = registry();
    assert_eq!(handler.handler_for("spotify.search"), Some(MsgHandler::Search));
    assert_eq!(handler.handler_for("spotify.prev"), Some(MsgHandler::Previous));
    assert_eq!(handler.handler_for("spotify.previous"), None);
}

#[test]
fn unknown_type_leaves_the_registry_as_it_was() {
    let handler = registry();
    let names =
        ["spotify.search", "spotify.play", "spotify.next", "spotify.prev", "spotify.pause",
         "spotify.resume", "spotify.unknown"];
    let before: Vec<Option<MsgHandler>> = names.iter().map(|n| handler.handler_for(n)).collect();
    let r = handler.handle_msg(br#"{"type":"spotify.unknown","data":{"query":"q"}}"#);
    assert_eq!(r, Err(DispatchError::HandlerNotFound("spotify.unknown".to_string())));
    let after: Vec<Option<MsgHandler>> = names.iter().map(|n| handler.handler_for(n)).collect();
    assert_eq!(before, after);
    assert!(!handler.player_gone());
}

#[test]
fn add_keeps_the_other_registrations() {
    let mut handler = registry();
    handler.add("spotify.pause", MsgHandler::Resume);
    handler.add("spotify.stop", MsgHandler::Pause);
    assert_eq!(handler.handler_for("spotify.pause"), Some(MsgHandler::Resume));
    assert_eq!(handler.handler_for("spotify.stop"), Some(MsgHandler::Pause));
    assert_eq!(handler.handler_for("spotify.search"), Some(MsgHandler::Search));
    assert_eq!(handler.handler_for("spotify.resume"), Some(MsgHandler::Resume));
    assert_eq!(handler.handler_for("spotify.next"), Some(MsgHandler::Next));
}
