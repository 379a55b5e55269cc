use vollibrespot::encoding::{SpotifyAudioType, SpotifyId};
use vollibrespot::meta_pipe::{
    DomainEvent, EventPoll, MetaMsgs, MetaPipeConfig, MetaPipeThread, MetaThreadTask, Observation,
    PipeEffect, PipeInput, PipeMsgs, SpircCommand, TaskPoll, Token, TokenInfo, EVENT_WAIT_MILLIS,
    SCOPES, TOKEN_MARGIN_SECS,
};
use vollibrespot::metadata::{Album, Artist, Fetched, Track};
use vollibrespot::volume::VolumePercent;

fn worker() -> MetaPipeThread {
    let config = MetaPipeConfig { port: 5030, version: "vollibrespot v0.2.0".to_string() };
    MetaPipeThread::new(config, Some("client".to_string()))
}

fn worker_without_client_id() -> MetaPipeThread {
    let config = MetaPipeConfig { port: 5030, version: "vollibrespot v0.2.0".to_string() };
    MetaPipeThread::new(config, None)
}

fn send(text: &str) -> PipeEffect {
    PipeEffect::Send(text.to_string())
}

fn id(n: u128) -> SpotifyId {
    SpotifyId { id: n, audio_type: SpotifyAudioType::Track }
}

fn token(expires_in: u32) -> Token {
    Token {
        access_token: "abc".to_string(),
        expires_in,
        token_type: "Bearer".to_string(),
        scope: vec!["streaming".to_string(), "user-read-private".to_string()],
    }
}

fn command(w: &mut MetaPipeThread, bytes: &[u8]) -> Vec<PipeEffect> {
    w.run(PipeInput::Datagram(Some(bytes.to_vec())), 0)
}

#[test]
fn the_codes_of_the_commands() {
    let all = [
        (1u8, PipeMsgs::Hello),
        (2, PipeMsgs::HeartBeat),
        (3, PipeMsgs::ReqToken),
        (4, PipeMsgs::Pause),
        (5, PipeMsgs::Play),
        (6, PipeMsgs::PlayPause),
        (7, PipeMsgs::Next),
        (8, PipeMsgs::Prev),
        (9, PipeMsgs::Volume),
    ];
    for (code, msg) in all {
        assert_eq!(msg.code(), code);
        assert_eq!(PipeMsgs::from_code(code), Some(msg));
    }
    assert_eq!(PipeMsgs::from_code(0), None);
    for code in 10..=255u8 {
        assert_eq!(PipeMsgs::from_code(code), None);
    }
    assert_eq!(PipeMsgs::Pause.name(), "Pause");
    assert_eq!(PipeMsgs::PlayPause.name(), "PlayPause");
    assert_eq!(PipeMsgs::ReqToken.name(), "ReqToken");
}

#[test]
fn set_volume_50_asks_the_controller_for_32768_once() {
    let mut w = worker();
    let effects = command(&mut w, &[0x9, 50]);
    assert_eq!(effects, vec![PipeEffect::Controller(SpircCommand::Volume(32768))]);
}

#[test]
fn set_volume_at_the_ends_and_beyond() {
    let mut w = worker();
    assert_eq!(command(&mut w, &[0x9, 0]), vec![PipeEffect::Controller(SpircCommand::Volume(0))]);
    assert_eq!(command(&mut w, &[0x9, 100]), vec![PipeEffect::Controller(SpircCommand::Volume(65535))]);
    assert_eq!(command(&mut w, &[0x9, 200]), vec![PipeEffect::Controller(SpircCommand::Volume(65534))]);
}

#[test]
fn transport_commands_are_relayed() {
    let mut w = worker();
    assert_eq!(command(&mut w, &[0x5, 0]), vec![PipeEffect::Controller(SpircCommand::Play)]);
    assert_eq!(command(&mut w, &[0x6, 0]), vec![PipeEffect::Controller(SpircCommand::PlayPause)]);
    assert_eq!(command(&mut w, &[0x7, 0]), vec![PipeEffect::Controller(SpircCommand::Next)]);
    assert_eq!(command(&mut w, &[0x8, 0]), vec![PipeEffect::Controller(SpircCommand::Prev)]);
}

#[test]
fn pause_is_relayed_and_answered() {
    let mut w = worker();
    assert_eq!(
        command(&mut w, &[0x4, 0]),
        vec![PipeEffect::Controller(SpircCommand::Pause), send("{\"pong\":\"Pause\"}")]
    );
}

#[test]
fn hello_and_heartbeat_do_nothing() {
    let mut w = worker();
    assert!(command(&mut w, &[0x1, 0]).is_empty());
    assert!(command(&mut w, &[0x2, 0]).is_empty());
}

#[test]
fn unknown_bytes_are_discarded() {
    let mut w = worker();
    assert!(command(&mut w, &[0x0, 50]).is_empty());
    assert!(command(&mut w, &[0xA, 50]).is_empty());
    assert!(command(&mut w, &[0xFF, 0xFF]).is_empty());
    assert!(!w.is_stopped());
}

#[test]
fn a_token_request_needs_a_client_id() {
    let mut w = worker();
    assert_eq!(command(&mut w, &[0x3, 0]), vec![PipeEffect::RequestToken]);
    assert_eq!(w.request_access_token(), vec![PipeEffect::RequestToken]);
    assert_eq!(w.client_id(), Some(&"client".to_string()));

    let mut w = worker_without_client_id();
    assert!(command(&mut w, &[0x3, 0]).is_empty());
    assert!(w.request_access_token().is_empty());
    assert_eq!(w.client_id(), None);
}

#[test]
fn an_empty_read_is_no_command() {
    let mut w = worker();
    assert!(w.run(PipeInput::Datagram(None), 0).is_empty());
    assert!(!w.is_stopped());
}

#[test]
fn a_short_datagram_leaves_the_rest_of_the_buffer() {
    let mut w = worker();
    // A fresh buffer is zero: a lone set-volume byte sets volume 0.
    assert_eq!(command(&mut w, &[0x9]), vec![PipeEffect::Controller(SpircCommand::Volume(0))]);
    assert_eq!(command(&mut w, &[0x9, 50]), vec![PipeEffect::Controller(SpircCommand::Volume(32768))]);
    assert_eq!(command(&mut w, &[0x9]), vec![PipeEffect::Controller(SpircCommand::Volume(32768))]);
    assert_eq!(command(&mut w, &[]), vec![PipeEffect::Controller(SpircCommand::Volume(32768))]);
    // What lies behind the second byte is not read.
    assert_eq!(command(&mut w, &[0x5, 1, 2, 3]), vec![PipeEffect::Controller(SpircCommand::Play)]);
}

#[test]
fn receive_then_handle_is_what_a_datagram_does() {
    let mut w = worker();
    w.receive(&vec![0x9, 100]);
    assert_eq!(w.handle_volumio_msg(), vec![PipeEffect::Controller(SpircCommand::Volume(65535))]);
    assert_eq!(w.handle_volumio_msg(), vec![PipeEffect::Controller(SpircCommand::Volume(65535))]);
}

#[test]
fn the_worker_announces_itself() {
    let w = worker();
    assert_eq!(w.init_socket(), vec![send("vollibrespot v0.2.0")]);
    assert_eq!(w.config().port, 5030);
    assert!(!w.is_stopped());
    assert_eq!(w.token_info(), None);
}

#[test]
fn the_command_port_is_the_one_above() {
    let config = MetaPipeConfig { port: 5030, version: String::new() };
    assert_eq!(config.publish_port(), 5030);
    assert_eq!(config.command_port(), Some(5031));
    let config = MetaPipeConfig { port: 65534, version: String::new() };
    assert_eq!(config.command_port(), Some(65535));
    let config = MetaPipeConfig { port: 65535, version: String::new() };
    assert_eq!(config.command_port(), None);
    let config = MetaPipeConfig { port: 0, version: String::new() };
    assert_eq!(config.command_port(), Some(1));
}

#[test]
fn load_and_track_change_fetch_metadata() {
    let mut w = worker();
    assert_eq!(
        w.handle_event(DomainEvent::Load { track_id: id(7) }, 0),
        vec![PipeEffect::Fetch { id: id(7), position_ms: None }]
    );
    assert_eq!(
        w.handle_event(DomainEvent::TrackChanged { track_id: id(8) }, 0),
        vec![PipeEffect::Fetch { id: id(8), position_ms: None }]
    );
}

#[test]
fn play_and_pause_publish_the_state_then_fetch_metadata() {
    let mut w = worker();
    assert_eq!(
        w.handle_event(DomainEvent::Play { track_id: id(7), position_ms: 1200 }, 0),
        vec![send("{\"status\":\"play\"}"), PipeEffect::Fetch { id: id(7), position_ms: Some(1200) }]
    );
    assert_eq!(
        w.handle_event(DomainEvent::Pause { track_id: id(7), position_ms: 0 }, 0),
        vec![send("{\"status\":\"pause\"}"), PipeEffect::Fetch { id: id(7), position_ms: Some(0) }]
    );
}

#[test]
fn lifecycle_events_publish_their_markers() {
    let mut w = worker();
    assert_eq!(w.handle_event(DomainEvent::PlaybackLoading, 0), vec![send("kSpPlaybackLoading")]);
    assert_eq!(w.handle_event(DomainEvent::PlaybackStarted, 0), vec![send("kSpPlaybackActive")]);
    assert_eq!(w.handle_event(DomainEvent::PlaybackStopped, 0), vec![send("kSpPlaybackInactive")]);
    assert_eq!(
        w.handle_event(DomainEvent::SessionActive { became_active_at: 99 }, 0),
        vec![send("kSpDeviceActive")]
    );
    assert_eq!(w.handle_event(DomainEvent::SessionInactive, 0), vec![send("kSpDeviceInactive")]);
    assert_eq!(w.handle_event(DomainEvent::SinkActive, 0), vec![send("kSpSinkActive")]);
    assert_eq!(w.handle_event(DomainEvent::SinkInactive, 0), vec![send("kSpSinkInactive")]);
    assert_eq!(w.token_info(), None);
}

#[test]
fn seek_publishes_the_position() {
    let mut w = worker();
    assert_eq!(
        w.handle_event(DomainEvent::Seek { position_ms: 1234 }, 0),
        vec![send("{\"position_ms\":1234}")]
    );
    assert_eq!(w.handle_event(DomainEvent::Seek { position_ms: 0 }, 0), vec![send("{\"position_ms\":0}")]);
    assert_eq!(
        w.handle_event(DomainEvent::Seek { position_ms: u32::MAX }, 0),
        vec![send("{\"position_ms\":4294967295}")]
    );
}

#[test]
fn a_volume_change_publishes_the_percentage() {
    let mut w = worker();
    assert_eq!(
        w.handle_event(DomainEvent::Volume { volume_to_mixer: 32768 }, 0),
        vec![PipeEffect::SendVolume(VolumePercent { whole: 50, rest: 50 })]
    );
    assert_eq!(
        w.handle_event(DomainEvent::Volume { volume_to_mixer: 65535 }, 0),
        vec![PipeEffect::SendVolume(VolumePercent { whole: 100, rest: 0 })]
    );
    assert_eq!(
        w.handle_event(DomainEvent::Volume { volume_to_mixer: 0 }, 0),
        vec![PipeEffect::SendVolume(VolumePercent { whole: 0, rest: 0 })]
    );
}

#[test]
fn a_token_is_put_on_record_and_published() {
    let mut w = worker();
    let effects = w.handle_event(DomainEvent::GotToken { token: token(3600) }, 1000);
    let expected = [
        "{\"token\":{\"accessToken\":\"abc\",\"expiresIn\":3600,",
        "\"tokenType\":\"Bearer\",\"scope\":[\"streaming\",\"user-read-private\"]}}"
    ].concat();
    assert_eq!(effects, vec![send(&expected)]);
    assert_eq!(w.token_info(), Some(TokenInfo { acquired_at: 1000, validity: 3480 }));
    assert_eq!(TOKEN_MARGIN_SECS, 120);
}

#[test]
fn a_token_shorter_than_the_margin_is_good_for_no_time() {
    let mut w = worker();
    w.handle_token(token(100), 5);
    assert_eq!(w.token_info(), Some(TokenInfo { acquired_at: 5, validity: 0 }));
    w.handle_token(token(120), 6);
    assert_eq!(w.token_info(), Some(TokenInfo { acquired_at: 6, validity: 0 }));
    w.handle_token(token(121), 7);
    assert_eq!(w.token_info(), Some(TokenInfo { acquired_at: 7, validity: 1 }));
}

#[test]
fn an_expired_token_is_asked_for_again() {
    let mut w = worker();
    assert!(w.run(PipeInput::TokenCheck, 10_000).is_empty());
    w.handle_token(token(3600), 1000);
    assert!(!w.token_expired(1000));
    assert!(!w.token_expired(4480));
    assert!(w.token_expired(4481));
    assert!(!w.token_expired(0));
    assert!(w.run(PipeInput::TokenCheck, 4480).is_empty());
    assert_eq!(w.run(PipeInput::TokenCheck, 4481), vec![PipeEffect::RequestToken]);
    // The new token is good again.
    w.handle_token(token(3600), 4482);
    assert!(w.run(PipeInput::TokenCheck, 4483).is_empty());
}

#[test]
fn an_expired_token_without_a_client_id_is_let_be() {
    let mut w = worker_without_client_id();
    w.handle_token(token(3600), 0);
    assert!(w.token_expired(5000));
    assert!(w.run(PipeInput::TokenCheck, 5000).is_empty());
}

#[test]
fn an_invalid_session_stops_the_worker() {
    let mut w = worker();
    assert!(w.run(PipeInput::Session { valid: true }, 0).is_empty());
    assert!(!w.is_stopped());
    assert_eq!(w.run(PipeInput::Session { valid: false }, 0), vec![send("kSpSinkInactive")]);
    assert!(w.is_stopped());
}

#[test]
fn a_disconnected_owner_stops_the_worker() {
    let mut w = worker();
    assert!(w.run(PipeInput::Task(TaskPoll::Empty), 0).is_empty());
    assert!(w.run(PipeInput::Task(TaskPoll::Task(MetaThreadTask::Reconnect)), 0).is_empty());
    assert!(!w.is_stopped());
    assert_eq!(w.run(PipeInput::Task(TaskPoll::Disconnected), 0), vec![send("kSpSinkInactive")]);
    assert!(w.is_stopped());
}

#[test]
fn a_disconnected_event_channel_stops_the_worker() {
    let mut w = worker();
    assert!(w.run(PipeInput::Event(EventPoll::Timeout), 0).is_empty());
    assert!(!w.is_stopped());
    assert_eq!(
        w.run(PipeInput::Event(EventPoll::Disconnected), 0),
        vec![send("kSpPlaybackInactive"), send("kSpSinkInactive")]
    );
    assert!(w.is_stopped());
}

#[test]
fn a_stopped_worker_ignores_every_input() {
    let mut w = worker();
    w.handle_token(token(3600), 0);
    w.run(PipeInput::Session { valid: false }, 0);
    assert!(w.run(PipeInput::Session { valid: false }, 1).is_empty());
    assert!(w.run(PipeInput::Task(TaskPoll::Disconnected), 1).is_empty());
    assert!(w.run(PipeInput::Event(EventPoll::Disconnected), 1).is_empty());
    assert!(w.run(PipeInput::Event(EventPoll::Event(DomainEvent::SinkActive)), 1).is_empty());
    assert!(w.run(PipeInput::TokenCheck, 100_000).is_empty());
    assert!(w.run(PipeInput::Datagram(Some(vec![0x5, 0])), 1).is_empty());
    assert!(w.is_stopped());
}

#[test]
fn an_event_from_the_channel_is_handled() {
    let mut w = worker();
    assert_eq!(
        w.run(PipeInput::Event(EventPoll::Event(DomainEvent::Seek { position_ms: 5 })), 0),
        vec![send("{\"position_ms\":5}")]
    );
    w.run(PipeInput::Event(EventPoll::Event(DomainEvent::GotToken { token: token(1000) })), 77);
    assert_eq!(w.token_info(), Some(TokenInfo { acquired_at: 77, validity: 880 }));
}

#[test]
fn fetched_metadata_is_published_with_a_line_end() {
    let w = worker();
    let track = Track { id: id(1), name: "T".to_string(), duration: 1, number: 2, album: id(3), artists: vec![id(4)] };
    let album = Album { id: id(3), name: "A".to_string(), covers: vec![], date: "2001".to_string() };
    let artists = vec![Artist { id: id(4), name: "R".to_string() }];
    let fetched = Fetched::Track { track, album, artists };
    let effects = w.handle_track_id(id(1), &fetched, Some(9));
    let expected = [
        "{\"metadata\":{\"album_id\":\"0000000000000000000003\",\"album_name\":\"A\",",
        "\"album_release_date\":\"2001\",\"albumartId\":[],",
        "\"artist_id\":[\"0000000000000000000004\"],\"artist_name\":[\"R\"],",
        "\"duration_ms\":1,\"position_ms\":9,\"track_id\":\"0000000000000000000001\",",
        "\"track_name\":\"T\",\"track_number\":2}}"
    ].concat();
    assert_eq!(effects, vec![send(&expected), send("\r\n")]);
}

#[test]
fn a_failed_fetch_publishes_nothing() {
    let w = worker();
    assert!(w.handle_track_id(id(1), &Fetched::Failed, None).is_empty());
    assert!(!w.is_stopped());
}

#[test]
fn the_texts_of_the_messages() {
    assert_eq!(MetaMsgs::kSpPlaybackLoading.text(), Some("kSpPlaybackLoading".to_string()));
    assert_eq!(MetaMsgs::kSpPlaybackActive.text(), Some("kSpPlaybackActive".to_string()));
    assert_eq!(MetaMsgs::kSpPlaybackInactive.text(), Some("kSpPlaybackInactive".to_string()));
    assert_eq!(MetaMsgs::kSpDeviceActive.text(), Some("kSpDeviceActive".to_string()));
    assert_eq!(MetaMsgs::kSpDeviceInactive.text(), Some("kSpDeviceInactive".to_string()));
    assert_eq!(MetaMsgs::kSpSinkActive.text(), Some("kSpSinkActive".to_string()));
    assert_eq!(MetaMsgs::kSpSinkInactive.text(), Some("kSpSinkInactive".to_string()));
    assert_eq!(MetaMsgs::position_ms(7).text(), Some("{\"position_ms\":7}".to_string()));
    assert_eq!(MetaMsgs::state { status: "play" }.text(), Some("{\"status\":\"play\"}".to_string()));
    assert_eq!(MetaMsgs::state { status: "a\"b" }.text(), Some("{\"status\":\"a\\\"b\"}".to_string()));
    assert_eq!(MetaMsgs::pong(PipeMsgs::Next).text(), Some("{\"pong\":\"Next\"}".to_string()));
    assert_eq!(MetaMsgs::volume(VolumePercent { whole: 50, rest: 0 }).text(), None);
    let empty = Token { access_token: String::new(), expires_in: 0, token_type: String::new(), scope: vec![] };
    assert_eq!(
        MetaMsgs::token(empty).text(),
        Some("{\"token\":{\"accessToken\":\"\",\"expiresIn\":0,\"tokenType\":\"\",\"scope\":[]}}".to_string())
    );
}

#[test]
fn the_scopes_that_a_token_is_asked_for() {
    assert!(SCOPES.starts_with("streaming,user-read-playback-state,"));
    assert!(SCOPES.ends_with(",playlist-read-collaborative"));
    assert_eq!(SCOPES.split(',').count(), 11);
}

#[test]
fn the_wait_for_an_event_is_half_a_second() {
    assert_eq!(EVENT_WAIT_MILLIS, 500);
}

#[test]
fn the_sources_are_looked_at_in_turn() {
    let mut w = worker();
    assert_eq!(w.next_observation(), Some(Observation::Session));
    w.run(PipeInput::Session { valid: true }, 0);
    assert_eq!(w.next_observation(), Some(Observation::Task));
    w.run(PipeInput::Task(TaskPoll::Empty), 0);
    assert_eq!(w.next_observation(), Some(Observation::Event));
    w.run(PipeInput::Event(EventPoll::Timeout), 0);
    assert_eq!(w.next_observation(), Some(Observation::TokenCheck));
    w.run(PipeInput::TokenCheck, 0);
    assert_eq!(w.next_observation(), Some(Observation::Datagram));
    w.run(PipeInput::Datagram(None), 0);
    assert_eq!(w.next_observation(), Some(Observation::Session));
    w.run(PipeInput::Session { valid: false }, 0);
    assert_eq!(w.next_observation(), None);
}

#[test]
fn the_turn_follows_what_was_observed() {
    let mut w = worker();
    w.run(PipeInput::Event(EventPoll::Event(DomainEvent::SinkActive)), 0);
    assert_eq!(w.next_observation(), Some(Observation::TokenCheck));
    w.handle_event(DomainEvent::SinkActive, 0);
    w.handle_token(token(500), 0);
    w.receive(&vec![1]);
    assert_eq!(w.next_observation(), Some(Observation::TokenCheck));
}
