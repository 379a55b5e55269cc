//! The metadata and control pipe: what its worker publishes for each playback
//! event, what it does with each command that comes in, and when it stops.
//!
//! The worker owns no socket and no channel. Whoever runs it hands it what it
//! observed, as a [`PipeInput`], and carries out the [`PipeEffect`]s that it
//! answers with, in order.

use crate::encoding::SpotifyId;
use crate::json::{decimal, json_string_text, spec_decimal, spec_string_array, spec_texts};
use crate::json::{json_string, string_array};
use crate::metadata::{get_metadata, spec_get_metadata, spec_meta_json, Fetched};
use crate::volume::{spec_volume_from_percent, spec_volume_percent, volume_from_percent};
use crate::volume::{volume_percent, VolumePercent};
use vstd::prelude::*;
use vstd::string::StringExecFns;

verus! {

/// The permissions that an access token is asked for.
pub const SCOPES: &'static str =
    "streaming,user-read-playback-state,user-modify-playback-state,user-read-currently-playing,user-read-private,user-library-modify,user-top-read,user-read-recently-played,user-library-read,playlist-read-private,playlist-read-collaborative";

/// Seconds by which a token is taken to expire early.
pub const TOKEN_MARGIN_SECS: u64 = 120;

/// Milliseconds that one cycle waits for a playback event at most.
pub const EVENT_WAIT_MILLIS: u64 = 500;

/// The commands of the inbound protocol. The first byte of a datagram names
/// one of them, by its code.
#[derive(Clone, Copy, Debug, PartialEq, Eq, Structural)]
pub enum PipeMsgs {
    Hello,
    HeartBeat,
    ReqToken,
    Pause,
    Play,
    PlayPause,
    Next,
    Prev,
    Volume,
}

/// The code of a command.
pub open spec fn spec_code(msg: PipeMsgs) -> u8 {
    match msg {
        PipeMsgs::Hello => 1,
        PipeMsgs::HeartBeat => 2,
        PipeMsgs::ReqToken => 3,
        PipeMsgs::Pause => 4,
        PipeMsgs::Play => 5,
        PipeMsgs::PlayPause => 6,
        PipeMsgs::Next => 7,
        PipeMsgs::Prev => 8,
        PipeMsgs::Volume => 9,
    }
}

/// The command that a first byte names, if it names one.
pub open spec fn spec_from_code(code: u8) -> Option<PipeMsgs> {
    if code == 1 {
        Some(PipeMsgs::Hello)
    } else if code == 2 {
        Some(PipeMsgs::HeartBeat)
    } else if code == 3 {
        Some(PipeMsgs::ReqToken)
    } else if code == 4 {
        Some(PipeMsgs::Pause)
    } else if code == 5 {
        Some(PipeMsgs::Play)
    } else if code == 6 {
        Some(PipeMsgs::PlayPause)
    } else if code == 7 {
        Some(PipeMsgs::Next)
    } else if code == 8 {
        Some(PipeMsgs::Prev)
    } else if code == 9 {
        Some(PipeMsgs::Volume)
    } else {
        None
    }
}

/// The name of a command, as it is written in a message.
pub open spec fn spec_name(msg: PipeMsgs) -> Seq<char> {
    match msg {
        PipeMsgs::Hello => "Hello"@,
        PipeMsgs::HeartBeat => "HeartBeat"@,
        PipeMsgs::ReqToken => "ReqToken"@,
        PipeMsgs::Pause => "Pause"@,
        PipeMsgs::Play => "Play"@,
        PipeMsgs::PlayPause => "PlayPause"@,
        PipeMsgs::Next => "Next"@,
        PipeMsgs::Prev => "Prev"@,
        PipeMsgs::Volume => "Volume"@,
    }
}

impl PipeMsgs {
    /// The code of the command.
    pub fn code(&self) -> (code: u8)
        ensures
            code == spec_code(*self),
            1 <= code <= 9,
    {
        match self {
            PipeMsgs::Hello => 1,
            PipeMsgs::HeartBeat => 2,
            PipeMsgs::ReqToken => 3,
            PipeMsgs::Pause => 4,
            PipeMsgs::Play => 5,
            PipeMsgs::PlayPause => 6,
            PipeMsgs::Next => 7,
            PipeMsgs::Prev => 8,
            PipeMsgs::Volume => 9,
        }
    }

    /// The command that the first byte of a datagram names. Bytes other than
    /// 1 to 9 name none.
    pub fn from_code(code: u8) -> (msg: Option<PipeMsgs>)
        ensures
            msg == spec_from_code(code),
            msg is Some <==> 1 <= code <= 9,
            msg matches Some(m) ==> spec_code(m) == code,
    {
        match code {
            1 => Some(PipeMsgs::Hello),
            2 => Some(PipeMsgs::HeartBeat),
            3 => Some(PipeMsgs::ReqToken),
            4 => Some(PipeMsgs::Pause),
            5 => Some(PipeMsgs::Play),
            6 => Some(PipeMsgs::PlayPause),
            7 => Some(PipeMsgs::Next),
            8 => Some(PipeMsgs::Prev),
            9 => Some(PipeMsgs::Volume),
            _ => None,
        }
    }

    /// The name of the command, as it is written in a message.
    pub fn name(&self) -> (name: &'static str)
        ensures
            name@ == spec_name(*self),
    {
        match self {
            PipeMsgs::Hello => "Hello",
            PipeMsgs::HeartBeat => "HeartBeat",
            PipeMsgs::ReqToken => "ReqToken",
            PipeMsgs::Pause => "Pause",
            PipeMsgs::Play => "Play",
            PipeMsgs::PlayPause => "PlayPause",
            PipeMsgs::Next => "Next",
            PipeMsgs::Prev => "Prev",
            PipeMsgs::Volume => "Volume",
        }
    }
}

/// Every command is found again from its code.
pub proof fn lemma_code_round_trip(msg: PipeMsgs)
    ensures
        spec_from_code(spec_code(msg)) == Some(msg),
{
}

/// An access token, as the session hands it out.
#[derive(Clone, Debug, PartialEq, Eq)]
pub struct Token {
    pub access_token: String,
    /// Seconds for which the token is good.
    pub expires_in: u32,
    pub token_type: String,
    pub scope: Vec<String>,
}

/// When a token was acquired and for how long it is taken to be good, both in
/// seconds.
#[derive(Clone, Copy, Debug, PartialEq, Eq, Structural)]
pub struct TokenInfo {
    pub acquired_at: u64,
    pub validity: u64,
}

/// The record of a token with the given lifetime, acquired at `now`: it is
/// taken to be good for the lifetime less the margin, and not at all where
/// the lifetime is shorter than the margin.
pub open spec fn spec_token_info(expires_in: u32, now: u64) -> TokenInfo {
    TokenInfo {
        acquired_at: now,
        validity: if expires_in >= TOKEN_MARGIN_SECS {
            (expires_in - TOKEN_MARGIN_SECS) as u64
        } else {
            0
        },
    }
}

/// Whether more time than its validity has passed since a token was
/// acquired.
pub open spec fn spec_token_expired(info: TokenInfo, now: u64) -> bool {
    now >= info.acquired_at && now - info.acquired_at > info.validity
}

/// The JSON text of a token message.
pub open spec fn spec_token_text(token: Token) -> Seq<char> {
    "{\"token\":{\"accessToken\":"@ + json_string_text(token.access_token@) + ",\"expiresIn\":"@
        + spec_decimal(token.expires_in as int) + ",\"tokenType\":"@ + json_string_text(
        token.token_type@,
    ) + ",\"scope\":"@ + spec_string_array(spec_texts(token.scope@)) + "}}"@
}

/// The JSON text of a position message.
pub open spec fn spec_position_text(position_ms: u32) -> Seq<char> {
    "{\"position_ms\":"@ + spec_decimal(position_ms as int) + "}"@
}

/// The JSON text of a playback state message.
pub open spec fn spec_state_text(status: Seq<char>) -> Seq<char> {
    "{\"status\":"@ + json_string_text(status) + "}"@
}

/// The JSON text of the answer to a command.
pub open spec fn spec_pong_text(msg: PipeMsgs) -> Seq<char> {
    "{\"pong\":"@ + json_string_text(spec_name(msg)) + "}"@
}

/// The messages of the outbound protocol.
#[allow(non_camel_case_types)]
#[derive(Clone, Debug, PartialEq, Eq)]
pub enum MetaMsgs<'a> {
    kSpPlaybackLoading,
    kSpPlaybackActive,
    kSpPlaybackInactive,
    kSpDeviceActive,
    kSpDeviceInactive,
    kSpSinkActive,
    kSpSinkInactive,
    token(Token),
    position_ms(u32),
    /// The volume as a percentage of the mixer's scale.
    volume(VolumePercent),
    state { status: &'a str },
    pong(PipeMsgs),
}

/// The text of a message: its bare name for a message without content, a
/// JSON object for one with content. The volume message has none here: its
/// number is not whole, and is written by whoever sends it.
pub open spec fn spec_text(msg: MetaMsgs) -> Option<Seq<char>> {
    match msg {
        MetaMsgs::kSpPlaybackLoading => Some("kSpPlaybackLoading"@),
        MetaMsgs::kSpPlaybackActive => Some("kSpPlaybackActive"@),
        MetaMsgs::kSpPlaybackInactive => Some("kSpPlaybackInactive"@),
        MetaMsgs::kSpDeviceActive => Some("kSpDeviceActive"@),
        MetaMsgs::kSpDeviceInactive => Some("kSpDeviceInactive"@),
        MetaMsgs::kSpSinkActive => Some("kSpSinkActive"@),
        MetaMsgs::kSpSinkInactive => Some("kSpSinkInactive"@),
        MetaMsgs::token(token) => Some(spec_token_text(token)),
        MetaMsgs::position_ms(position) => Some(spec_position_text(position)),
        MetaMsgs::volume(_) => None,
        MetaMsgs::state { status } => Some(spec_state_text(status@)),
        MetaMsgs::pong(msg) => Some(spec_pong_text(msg)),
    }
}

impl<'a> MetaMsgs<'a> {
    /// The text of the message, for every message but the volume message.
    pub fn text(&self) -> (text: Option<String>)
        ensures
            text is Some <==> spec_text(*self) is Some,
            text matches Some(t) ==> Some(t@) == spec_text(*self),
            text is None <==> *self is volume,
    {
        match self {
            MetaMsgs::kSpPlaybackLoading => Some(String::from_str("kSpPlaybackLoading")),
            MetaMsgs::kSpPlaybackActive => Some(String::from_str("kSpPlaybackActive")),
            MetaMsgs::kSpPlaybackInactive => Some(String::from_str("kSpPlaybackInactive")),
            MetaMsgs::kSpDeviceActive => Some(String::from_str("kSpDeviceActive")),
            MetaMsgs::kSpDeviceInactive => Some(String::from_str("kSpDeviceInactive")),
            MetaMsgs::kSpSinkActive => Some(String::from_str("kSpSinkActive")),
            MetaMsgs::kSpSinkInactive => Some(String::from_str("kSpSinkInactive")),
            MetaMsgs::token(token) => {
                let mut text = String::from_str("{\"token\":{\"accessToken\":");
                text.append(json_string(token.access_token.as_str()).as_str());
                text.append(",\"expiresIn\":");
                text.append(decimal(token.expires_in as i64).as_str());
                text.append(",\"tokenType\":");
                text.append(json_string(token.token_type.as_str()).as_str());
                text.append(",\"scope\":");
                text.append(string_array(&token.scope).as_str());
                text.append("}}");
                Some(text)
            },
            MetaMsgs::position_ms(position) => {
                let mut text = String::from_str("{\"position_ms\":");
                text.append(decimal(*position as i64).as_str());
                text.append("}");
                Some(text)
            },
            MetaMsgs::volume(_) => None,
            MetaMsgs::state { status } => {
                let mut text = String::from_str("{\"status\":");
                text.append(json_string(status).as_str());
                text.append("}");
                Some(text)
            },
            MetaMsgs::pong(msg) => {
                let mut text = String::from_str("{\"pong\":");
                text.append(json_string(msg.name()).as_str());
                text.append("}");
                Some(text)
            },
        }
    }
}

/// Where the pipe lives: it publishes to `port` on the local host and
/// listens for commands on the port above it. `version` is the name under
/// which it announces itself.
#[derive(Clone, Debug, PartialEq, Eq)]
pub struct MetaPipeConfig {
    pub port: u16,
    pub version: String,
}

impl MetaPipeConfig {
    /// The port to which messages are published.
    pub fn publish_port(&self) -> (port: u16)
        ensures
            port == self.port,
    {
        self.port
    }

    /// The port on which commands are listened for: the one above the
    /// publishing port. There is none above the last port.
    pub fn command_port(&self) -> (port: Option<u16>)
        ensures
            self.port < 65535 ==> port == Some((self.port + 1) as u16),
            self.port == 65535 ==> port is None,
    {
        self.port.checked_add(1)
    }
}

/// A playback event, as the controller reports it.
#[derive(Clone, Debug, PartialEq, Eq)]
pub enum DomainEvent {
    Load { track_id: SpotifyId },
    Play { track_id: SpotifyId, position_ms: u32 },
    Pause { track_id: SpotifyId, position_ms: u32 },
    TrackChanged { track_id: SpotifyId },
    PlaybackLoading,
    PlaybackStarted,
    PlaybackStopped,
    SessionActive { became_active_at: u64 },
    SessionInactive,
    SinkActive,
    SinkInactive,
    Seek { position_ms: u32 },
    GotToken { token: Token },
    /// The volume changed to this value of the mixer's scale.
    Volume { volume_to_mixer: u16 },
}

/// A command for the playback controller.
#[derive(Clone, Copy, Debug, PartialEq, Eq, Structural)]
pub enum SpircCommand {
    Play,
    Pause,
    PlayPause,
    Next,
    Prev,
    /// Set the volume to this value of the mixer's scale.
    Volume(u16),
}

/// A directive from the pipe's owner to its worker.
#[derive(Clone, Copy, Debug, PartialEq, Eq, Structural)]
pub enum MetaThreadTask {
    Reconnect,
}

/// What a look at the owner's channel found.
#[derive(Clone, Copy, Debug, PartialEq, Eq, Structural)]
pub enum TaskPoll {
    Task(MetaThreadTask),
    Empty,
    Disconnected,
}

/// What the wait for the next playback event brought.
#[derive(Clone, Debug, PartialEq, Eq)]
pub enum EventPoll {
    Event(DomainEvent),
    Timeout,
    Disconnected,
}

/// The sources that the worker looks at, in the order in which one cycle of
/// its loop looks at them.
#[derive(Clone, Copy, Debug, PartialEq, Eq, Structural)]
pub enum Observation {
    /// Is the session still valid?
    Session,
    /// What does the owner's channel hold?
    Task,
    /// What does the event channel bring within [`EVENT_WAIT_MILLIS`]?
    Event,
    /// Has the token outlived its validity?
    TokenCheck,
    /// What does the command socket hold?
    Datagram,
}

/// The source that is looked at after `source`.
pub open spec fn spec_following(source: Observation) -> Observation {
    match source {
        Observation::Session => Observation::Task,
        Observation::Task => Observation::Event,
        Observation::Event => Observation::TokenCheck,
        Observation::TokenCheck => Observation::Datagram,
        Observation::Datagram => Observation::Session,
    }
}

/// The source that an observation was made at.
pub open spec fn spec_source(input: PipeInput) -> Observation {
    match input {
        PipeInput::Session { .. } => Observation::Session,
        PipeInput::Task(_) => Observation::Task,
        PipeInput::Event(_) => Observation::Event,
        PipeInput::TokenCheck => Observation::TokenCheck,
        PipeInput::Datagram(_) => Observation::Datagram,
    }
}

/// Every source has its turn once in five: from any source, the four that
/// follow are the four others, and the fifth is the source itself.
pub proof fn lemma_every_source_has_its_turn(source: Observation)
    ensures
        spec_following(spec_following(spec_following(spec_following(spec_following(source)))))
            == source,
        spec_following(source) != source,
        spec_following(spec_following(source)) != source,
        spec_following(spec_following(spec_following(source))) != source,
        spec_following(spec_following(spec_following(spec_following(source)))) != source,
{
}

/// One observation of the worker's cycle.
#[derive(Clone, Debug, PartialEq, Eq)]
pub enum PipeInput {
    /// Whether the session is still valid.
    Session { valid: bool },
    /// What the owner's channel held.
    Task(TaskPoll),
    /// What the event channel brought within the wait.
    Event(EventPoll),
    /// The moment at which the token is to be checked.
    TokenCheck,
    /// The datagram that the command socket held, if it held one.
    Datagram(Option<Vec<u8>>),
}

/// One thing for the worker's owner to do.
#[derive(Clone, Debug, PartialEq, Eq)]
pub enum PipeEffect {
    /// Publish this payload.
    Send(String),
    /// Publish the volume message for this percentage.
    SendVolume(VolumePercent),
    /// Look `id` up in the catalogue and hand the result to
    /// [`MetaPipeThread::handle_track_id`], with this position.
    Fetch { id: SpotifyId, position_ms: Option<u32> },
    /// Ask the session for an access token, for the worker's client id and
    /// [`SCOPES`], and hand it to [`MetaPipeThread::handle_token`].
    RequestToken,
    /// Relay this command to the playback controller.
    Controller(SpircCommand),
}

/// What an effect holds.
pub enum PipeEffectView {
    Send(Seq<char>),
    SendVolume(VolumePercent),
    Fetch { id: SpotifyId, position_ms: Option<u32> },
    RequestToken,
    Controller(SpircCommand),
}

impl View for PipeEffect {
    type V = PipeEffectView;

    open spec fn view(&self) -> PipeEffectView {
        match *self {
            PipeEffect::Send(text) => PipeEffectView::Send(text@),
            PipeEffect::SendVolume(percent) => PipeEffectView::SendVolume(percent),
            PipeEffect::Fetch { id, position_ms } => PipeEffectView::Fetch { id, position_ms },
            PipeEffect::RequestToken => PipeEffectView::RequestToken,
            PipeEffect::Controller(command) => PipeEffectView::Controller(command),
        }
    }
}

/// What each effect of `effects` holds.
pub open spec fn spec_effects(effects: Seq<PipeEffect>) -> Seq<PipeEffectView> {
    effects.map_values(|e: PipeEffect| e@)
}

/// The worker's state.
pub struct PipeState {
    /// The name under which the pipe announces itself.
    pub version: Seq<char>,
    /// Whether the worker has a client id to ask tokens for.
    pub has_client_id: bool,
    /// The record of the token held.
    pub token_info: Option<TokenInfo>,
    /// The two bytes of the command buffer.
    pub buf: (u8, u8),
    /// The source to look at next.
    pub next: Observation,
    /// Whether the worker has stopped.
    pub stopped: bool,
}

/// The effect of publishing a message without content.
pub open spec fn spec_send(text: Seq<char>) -> PipeEffectView {
    PipeEffectView::Send(text)
}

/// What the worker does first: it announces itself.
pub open spec fn spec_startup(s: PipeState) -> Seq<PipeEffectView> {
    seq![spec_send(s.version)]
}

/// What asking for a token comes to: a request where there is a client id,
/// nothing where there is none.
pub open spec fn spec_request_access_token(s: PipeState) -> Seq<PipeEffectView> {
    if s.has_client_id {
        seq![PipeEffectView::RequestToken]
    } else {
        Seq::empty()
    }
}

/// What the worker publishes or asks for on a playback event.
pub open spec fn spec_event_effects(event: DomainEvent) -> Seq<PipeEffectView> {
    match event {
        DomainEvent::Load { track_id } => seq![
            PipeEffectView::Fetch { id: track_id, position_ms: None },
        ],
        DomainEvent::Play { track_id, position_ms } => seq![
            spec_send(spec_state_text("play"@)),
            PipeEffectView::Fetch { id: track_id, position_ms: Some(position_ms) },
        ],
        DomainEvent::Pause { track_id, position_ms } => seq![
            spec_send(spec_state_text("pause"@)),
            PipeEffectView::Fetch { id: track_id, position_ms: Some(position_ms) },
        ],
        DomainEvent::TrackChanged { track_id } => seq![
            PipeEffectView::Fetch { id: track_id, position_ms: None },
        ],
        DomainEvent::PlaybackLoading => seq![spec_send("kSpPlaybackLoading"@)],
        DomainEvent::PlaybackStarted => seq![spec_send("kSpPlaybackActive"@)],
        DomainEvent::PlaybackStopped => seq![spec_send("kSpPlaybackInactive"@)],
        DomainEvent::SessionActive { became_active_at } => seq![spec_send("kSpDeviceActive"@)],
        DomainEvent::SessionInactive => seq![spec_send("kSpDeviceInactive"@)],
        DomainEvent::SinkActive => seq![spec_send("kSpSinkActive"@)],
        DomainEvent::SinkInactive => seq![spec_send("kSpSinkInactive"@)],
        DomainEvent::Seek { position_ms } => seq![spec_send(spec_position_text(position_ms))],
        DomainEvent::GotToken { token } => seq![spec_send(spec_token_text(token))],
        DomainEvent::Volume { volume_to_mixer } => seq![
            PipeEffectView::SendVolume(spec_volume_percent(volume_to_mixer)),
        ],
    }
}

/// The worker's state after a playback event seen at `now`: a token is put
/// on record, nothing else changes.
pub open spec fn spec_event_state(s: PipeState, event: DomainEvent, now: u64) -> PipeState {
    match event {
        DomainEvent::GotToken { token } => PipeState {
            token_info: Some(spec_token_info(token.expires_in, now)),
            ..s
        },
        _ => s,
    }
}

/// What the worker does with the command in its buffer.
pub open spec fn spec_command_effects(s: PipeState) -> Seq<PipeEffectView> {
    match spec_from_code(s.buf.0) {
        Some(PipeMsgs::Hello) => Seq::empty(),
        Some(PipeMsgs::HeartBeat) => Seq::empty(),
        Some(PipeMsgs::ReqToken) => spec_request_access_token(s),
        Some(PipeMsgs::Pause) => seq![
            PipeEffectView::Controller(SpircCommand::Pause),
            spec_send(spec_pong_text(PipeMsgs::Pause)),
        ],
        Some(PipeMsgs::Play) => seq![PipeEffectView::Controller(SpircCommand::Play)],
        Some(PipeMsgs::PlayPause) => seq![PipeEffectView::Controller(SpircCommand::PlayPause)],
        Some(PipeMsgs::Next) => seq![PipeEffectView::Controller(SpircCommand::Next)],
        Some(PipeMsgs::Prev) => seq![PipeEffectView::Controller(SpircCommand::Prev)],
        Some(PipeMsgs::Volume) => seq![
            PipeEffectView::Controller(
                SpircCommand::Volume(spec_volume_from_percent(s.buf.1) as u16),
            ),
        ],
        None => Seq::empty(),
    }
}

/// The command buffer after a datagram was read into it: the datagram's
/// first two bytes take the place of the buffer's, as far as the datagram
/// has them.
pub open spec fn spec_received(buf: (u8, u8), datagram: Seq<u8>) -> (u8, u8) {
    (
        if datagram.len() >= 1 {
            datagram[0]
        } else {
            buf.0
        },
        if datagram.len() >= 2 {
            datagram[1]
        } else {
            buf.1
        },
    )
}

/// What the lookups for `id` lead to: the record and a line end are
/// published, or nothing where there is no record.
pub open spec fn spec_track_effects(id: SpotifyId, fetched: Fetched, position_ms: Option<u32>) -> Seq<
    PipeEffectView,
> {
    match spec_get_metadata(id, fetched, position_ms) {
        Some(meta) => seq![spec_send(spec_meta_json(meta)), spec_send("\r\n"@)],
        None => Seq::empty(),
    }
}

/// The worker's last word.
pub open spec fn spec_farewell() -> Seq<PipeEffectView> {
    seq![spec_send("kSpSinkInactive"@)]
}

/// What an observation changes and asks for, apart from whose turn is next.
pub open spec fn spec_observed(s: PipeState, input: PipeInput, now: u64) -> (
    PipeState,
    Seq<PipeEffectView>,
) {
    match input {
        PipeInput::Session { valid } => if valid {
            (s, Seq::empty())
        } else {
            (PipeState { stopped: true, ..s }, spec_farewell())
        },
        PipeInput::Task(poll) => if poll == TaskPoll::Disconnected {
            (PipeState { stopped: true, ..s }, spec_farewell())
        } else {
            (s, Seq::empty())
        },
        PipeInput::Event(poll) => match poll {
            EventPoll::Event(event) => (spec_event_state(s, event, now), spec_event_effects(event)),
            EventPoll::Timeout => (s, Seq::empty()),
            EventPoll::Disconnected => (
                PipeState { stopped: true, ..s },
                seq![spec_send("kSpPlaybackInactive"@)] + spec_farewell(),
            ),
        },
        PipeInput::TokenCheck => match s.token_info {
            Some(info) => if spec_token_expired(info, now) {
                (s, spec_request_access_token(s))
            } else {
                (s, Seq::empty())
            },
            None => (s, Seq::empty()),
        },
        PipeInput::Datagram(datagram) => match datagram {
            Some(bytes) => (
                PipeState { buf: spec_received(s.buf, bytes@), ..s },
                spec_command_effects(PipeState { buf: spec_received(s.buf, bytes@), ..s }),
            ),
            None => (s, Seq::empty()),
        },
    }
}

/// The worker's transition function: its state after `input` was observed at
/// `now`, and what to do about it. The worker stops, with its last word, when
/// the session is no longer valid or a channel is disconnected; a stopped
/// worker ignores every input. After an observation it is the turn of the
/// source that follows the one observed.
pub open spec fn spec_pipe_step(s: PipeState, input: PipeInput, now: u64) -> (
    PipeState,
    Seq<PipeEffectView>,
) {
    if s.stopped {
        (s, Seq::empty())
    } else {
        (
            PipeState {
                next: spec_following(spec_source(input)),
                ..spec_observed(s, input, now).0
            },
            spec_observed(s, input, now).1,
        )
    }
}

/// The pipe's worker.
pub struct MetaPipeThread {
    config: MetaPipeConfig,
    client_id: Option<String>,
    token_info: Option<TokenInfo>,
    buf: [u8; 2],
    next: Observation,
    stopped: bool,
}

impl View for MetaPipeThread {
    type V = PipeState;

    closed spec fn view(&self) -> PipeState {
        PipeState {
            version: self.config.version@,
            has_client_id: self.client_id is Some,
            token_info: self.token_info,
            buf: (self.buf[0], self.buf[1]),
            next: self.next,
            stopped: self.stopped,
        }
    }
}

impl MetaPipeThread {
    /// A worker for the pipe at `config`, which asks tokens for `client_id`,
    /// where it has one. It holds no token, its command buffer is zero, and
    /// it looks at the session first.
    pub fn new(config: MetaPipeConfig, client_id: Option<String>) -> (worker: MetaPipeThread)
        ensures
            worker@ == (PipeState {
                version: config.version@,
                has_client_id: client_id is Some,
                token_info: None,
                buf: (0u8, 0u8),
                next: Observation::Session,
                stopped: false,
            }),
            worker.spec_config() == config,
            worker.spec_client_id() == client_id,
    {
        MetaPipeThread {
            config,
            client_id,
            token_info: None,
            buf: [0u8, 0u8],
            next: Observation::Session,
            stopped: false,
        }
    }

    /// Where the pipe lives.
    pub closed spec fn spec_config(&self) -> MetaPipeConfig {
        self.config
    }

    /// The client id that tokens are asked for.
    pub closed spec fn spec_client_id(&self) -> Option<String> {
        self.client_id
    }

    /// Where the pipe lives.
    pub fn config(&self) -> (config: &MetaPipeConfig)
        ensures
            *config == self.spec_config(),
    {
        &self.config
    }

    /// The client id that tokens are asked for.
    pub fn client_id(&self) -> (id: Option<&String>)
        ensures
            id is Some <==> self@.has_client_id,
            id matches Some(c) ==> self.spec_client_id() == Some(*c),
    {
        self.client_id.as_ref()
    }

    /// The record of the token held.
    pub fn token_info(&self) -> (info: Option<TokenInfo>)
        ensures
            info == self@.token_info,
    {
        self.token_info
    }

    /// The source to look at next, as long as the worker runs.
    pub fn next_observation(&self) -> (next: Option<Observation>)
        ensures
            next == (if self@.stopped {
                None
            } else {
                Some(self@.next)
            }),
    {
        if self.stopped {
            None
        } else {
            Some(self.next)
        }
    }

    /// Whether the worker has stopped.
    pub fn is_stopped(&self) -> (stopped: bool)
        ensures
            stopped == self@.stopped,
    {
        self.stopped
    }

    /// What the worker does first, once its sockets stand: it announces
    /// itself.
    pub fn init_socket(&self) -> (effects: Vec<PipeEffect>)
        ensures
            spec_effects(effects@) == spec_startup(self@),
    {
        let mut effects: Vec<PipeEffect> = Vec::new();
        effects.push(PipeEffect::Send(self.config.version.clone()));
        effects
    }

    /// Asks for an access token, where there is a client id to ask for.
    pub fn request_access_token(&self) -> (effects: Vec<PipeEffect>)
        ensures
            spec_effects(effects@) == spec_request_access_token(self@),
    {
        let mut effects: Vec<PipeEffect> = Vec::new();
        if self.client_id.is_some() {
            effects.push(PipeEffect::RequestToken);
        }
        effects
    }

    /// Takes a token that was acquired at `now`: puts it on record and
    /// publishes it.
    pub fn handle_token(&mut self, token: Token, now: u64) -> (effects: Vec<PipeEffect>)
        ensures
            final(self)@ == (PipeState {
                token_info: Some(spec_token_info(token.expires_in, now)),
                ..old(self)@
            }),
            final(self).spec_config() == old(self).spec_config(),
            final(self).spec_client_id() == old(self).spec_client_id(),
            spec_effects(effects@) == seq![spec_send(spec_token_text(token))],
    {
        let validity: u64 = if token.expires_in as u64 >= TOKEN_MARGIN_SECS {
            token.expires_in as u64 - TOKEN_MARGIN_SECS
        } else {
            0
        };
        self.token_info = Some(TokenInfo { acquired_at: now, validity });
        let mut effects: Vec<PipeEffect> = Vec::new();
        let text = send_text(&MetaMsgs::token(token));
        effects.push(text);
        effects
    }

    /// Whether the token held has outlived its validity at `now`.
    pub fn token_expired(&self, now: u64) -> (expired: bool)
        ensures
            expired == (self@.token_info matches Some(info) && spec_token_expired(info, now)),
    {
        match self.token_info {
            Some(info) => now >= info.acquired_at && now - info.acquired_at > info.validity,
            None => false,
        }
    }

    /// Takes a playback event seen at `now`, and says what to publish or to
    /// ask for.
    pub fn handle_event(&mut self, event: DomainEvent, now: u64) -> (effects: Vec<PipeEffect>)
        ensures
            final(self)@ == spec_event_state(old(self)@, event, now),
            final(self).spec_config() == old(self).spec_config(),
            final(self).spec_client_id() == old(self).spec_client_id(),
            spec_effects(effects@) == spec_event_effects(event),
    {
        let mut effects: Vec<PipeEffect> = Vec::new();
        match event {
            DomainEvent::Load { track_id } => {
                effects.push(PipeEffect::Fetch { id: track_id, position_ms: None });
            },
            DomainEvent::Play { track_id, position_ms } => {
                effects.push(send_text(&MetaMsgs::state { status: "play" }));
                effects.push(PipeEffect::Fetch { id: track_id, position_ms: Some(position_ms) });
            },
            DomainEvent::Pause { track_id, position_ms } => {
                effects.push(send_text(&MetaMsgs::state { status: "pause" }));
                effects.push(PipeEffect::Fetch { id: track_id, position_ms: Some(position_ms) });
            },
            DomainEvent::TrackChanged { track_id } => {
                effects.push(PipeEffect::Fetch { id: track_id, position_ms: None });
            },
            DomainEvent::PlaybackLoading => {
                effects.push(send_text(&MetaMsgs::kSpPlaybackLoading));
            },
            DomainEvent::PlaybackStarted => {
                effects.push(send_text(&MetaMsgs::kSpPlaybackActive));
            },
            DomainEvent::PlaybackStopped => {
                effects.push(send_text(&MetaMsgs::kSpPlaybackInactive));
            },
            DomainEvent::SessionActive { became_active_at } => {
                effects.push(send_text(&MetaMsgs::kSpDeviceActive));
            },
            DomainEvent::SessionInactive => {
                effects.push(send_text(&MetaMsgs::kSpDeviceInactive));
            },
            DomainEvent::SinkActive => {
                effects.push(send_text(&MetaMsgs::kSpSinkActive));
            },
            DomainEvent::SinkInactive => {
                effects.push(send_text(&MetaMsgs::kSpSinkInactive));
            },
            DomainEvent::Seek { position_ms } => {
                effects.push(send_text(&MetaMsgs::position_ms(position_ms)));
            },
            DomainEvent::GotToken { token } => {
                return self.handle_token(token, now);
            },
            DomainEvent::Volume { volume_to_mixer } => {
                effects.push(PipeEffect::SendVolume(volume_percent(volume_to_mixer)));
            },
        }
        effects
    }

    /// Reads a datagram into the command buffer: its first two bytes, as far
    /// as it has them.
    pub fn receive(&mut self, datagram: &Vec<u8>)
        ensures
            final(self)@ == (PipeState {
                buf: spec_received(old(self)@.buf, datagram@),
                ..old(self)@
            }),
            final(self).spec_config() == old(self).spec_config(),
            final(self).spec_client_id() == old(self).spec_client_id(),
    {
        if datagram.len() >= 1 {
            self.buf[0] = datagram[0];
        }
        if datagram.len() >= 2 {
            self.buf[1] = datagram[1];
        }
    }

    /// Acts on the command in the buffer: relays it to the controller, asks
    /// for a token, or, for a byte that names no command, does nothing.
    pub fn handle_volumio_msg(&self) -> (effects: Vec<PipeEffect>)
        ensures
            spec_effects(effects@) == spec_command_effects(self@),
    {
        let mut effects: Vec<PipeEffect> = Vec::new();
        match PipeMsgs::from_code(self.buf[0]) {
            Some(PipeMsgs::Hello) => {},
            Some(PipeMsgs::HeartBeat) => {},
            Some(PipeMsgs::ReqToken) => {
                return self.request_access_token();
            },
            Some(PipeMsgs::Pause) => {
                effects.push(PipeEffect::Controller(SpircCommand::Pause));
                effects.push(send_text(&MetaMsgs::pong(PipeMsgs::Pause)));
            },
            Some(PipeMsgs::Play) => {
                effects.push(PipeEffect::Controller(SpircCommand::Play));
            },
            Some(PipeMsgs::PlayPause) => {
                effects.push(PipeEffect::Controller(SpircCommand::PlayPause));
            },
            Some(PipeMsgs::Next) => {
                effects.push(PipeEffect::Controller(SpircCommand::Next));
            },
            Some(PipeMsgs::Prev) => {
                effects.push(PipeEffect::Controller(SpircCommand::Prev));
            },
            Some(PipeMsgs::Volume) => {
                let volume = volume_from_percent(self.buf[1]);
                effects.push(PipeEffect::Controller(SpircCommand::Volume(volume)));
            },
            None => {},
        }
        effects
    }

    /// Takes what the lookups for `id` brought, and publishes the record and
    /// a line end. Where there is no record, nothing is published.
    pub fn handle_track_id(&self, id: SpotifyId, fetched: &Fetched, position_ms: Option<u32>) -> (effects:
        Vec<PipeEffect>)
        ensures
            spec_effects(effects@) == spec_track_effects(id, *fetched, position_ms),
    {
        let mut effects: Vec<PipeEffect> = Vec::new();
        match get_metadata(id, fetched, position_ms) {
            Some(meta) => {
                effects.push(PipeEffect::Send(meta.json()));
                effects.push(PipeEffect::Send(String::from_str("\r\n")));
            },
            None => {},
        }
        effects
    }

    /// One step of the worker's loop: takes what was observed at `now`, and
    /// says what to do about it. The loop goes on, with the source that
    /// [`Self::next_observation`] names, until the worker has stopped.
    pub fn run(&mut self, input: PipeInput, now: u64) -> (effects: Vec<PipeEffect>)
        ensures
            final(self)@ == spec_pipe_step(old(self)@, input, now).0,
            final(self).spec_config() == old(self).spec_config(),
            final(self).spec_client_id() == old(self).spec_client_id(),
            spec_effects(effects@) == spec_pipe_step(old(self)@, input, now).1,
    {
        if self.stopped {
            let effects: Vec<PipeEffect> = Vec::new();
            return effects;
        }
        let following = match &input {
            PipeInput::Session { .. } => Observation::Task,
            PipeInput::Task(_) => Observation::Event,
            PipeInput::Event(_) => Observation::TokenCheck,
            PipeInput::TokenCheck => Observation::Datagram,
            PipeInput::Datagram(_) => Observation::Session,
        };
        let effects = self.observe(input, now);
        self.next = following;
        effects
    }

    /// What an observation changes and asks for, apart from whose turn is
    /// next.
    fn observe(&mut self, input: PipeInput, now: u64) -> (effects: Vec<PipeEffect>)
        requires
            !old(self)@.stopped,
        ensures
            final(self)@ == spec_observed(old(self)@, input, now).0,
            final(self).spec_config() == old(self).spec_config(),
            final(self).spec_client_id() == old(self).spec_client_id(),
            spec_effects(effects@) == spec_observed(old(self)@, input, now).1,
    {
        let mut effects: Vec<PipeEffect> = Vec::new();
        match input {
            PipeInput::Session { valid } => {
                if !valid {
                    self.stopped = true;
                    effects.push(send_text(&MetaMsgs::kSpSinkInactive));
                }
            },
            PipeInput::Task(poll) => {
                match poll {
                    TaskPoll::Disconnected => {
                        self.stopped = true;
                        effects.push(send_text(&MetaMsgs::kSpSinkInactive));
                    },
                    _ => {},
                }
            },
            PipeInput::Event(poll) => {
                match poll {
                    EventPoll::Event(event) => {
                        return self.handle_event(event, now);
                    },
                    EventPoll::Timeout => {},
                    EventPoll::Disconnected => {
                        self.stopped = true;
                        effects.push(send_text(&MetaMsgs::kSpPlaybackInactive));
                        effects.push(send_text(&MetaMsgs::kSpSinkInactive));
                    },
                }
            },
            PipeInput::TokenCheck => {
                if self.token_expired(now) {
                    return self.request_access_token();
                }
            },
            PipeInput::Datagram(datagram) => {
                match datagram {
                    Some(bytes) => {
                        self.receive(&bytes);
                        return self.handle_volumio_msg();
                    },
                    None => {},
                }
            },
        }
        effects
    }
}

/// The effect of publishing `msg`, for a message that has a text.
fn send_text(msg: &MetaMsgs) -> (effect: PipeEffect)
    requires
        !(*msg is volume),
    ensures
        Some(effect@) == (match spec_text(*msg) {
            Some(text) => Some(spec_send(text)),
            None => None,
        }),
{
    match msg.text() {
        Some(text) => PipeEffect::Send(text),
        None => PipeEffect::RequestToken,
    }
}

} // verus!
