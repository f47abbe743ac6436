//! The lifecycle of the client: the search for a streamer, the handshake, the
//! streaming phase and the teardown, as one state machine.
//!
//! The machine decides; the caller acts. Each step answers with the effects
//! to perform, in order, and with one request. Effects cannot fail. A request
//! is the one operation whose outcome the machine waits for: the caller
//! carries it out and reports how it ended, which gives the next step.

use crate::hud::HudText;
use crate::negotiation::{
    NegotiatedValues, Resolution, DEFAULT_GAME_AUDIO_SAMPLE_RATE, DEFAULT_REFRESH_RATE_HINT_BITS,
};
use crate::workers::ServerPacket;
use vstd::prelude::*;

verus! {

/// The wait for a host to answer one announcement, in milliseconds.
pub const DISCOVERY_RETRY_PAUSE_MS: u64 = 500;

/// How long the missing network is reported before the search starts again,
/// in milliseconds.
pub const RETRY_CONNECT_MIN_INTERVAL_MS: u64 = 1000;

/// The pause between two sessions, in milliseconds.
pub const CONNECTION_RETRY_INTERVAL_MS: u64 = 1000;

/// The timeout of each action of the handshake, in milliseconds.
pub const HANDSHAKE_ACTION_TIMEOUT_MS: u64 = 2000;

/// The timeout of every receive while streaming, in milliseconds.
pub const STREAMING_RECV_TIMEOUT_MS: u64 = 500;

/// How long the client listens for the stream transport, in milliseconds.
pub const STREAM_LISTEN_TIMEOUT_MS: u64 = 1000;

/// The workers of a streaming session: video, game audio, microphone,
/// haptics, control send, control receive and the transport's pump.
pub const WORKER_COUNT: u8 = 7;

/// What the lifecycle reads of a session's stream configuration: three
/// switches of the settings, and the negotiated values.
#[derive(Clone, Copy, Debug, PartialEq, Eq, Structural)]
pub struct SessionConfig {
    /// Game audio is played on the headset.
    pub game_audio: bool,
    /// The microphone is recorded and sent.
    pub microphone: bool,
    /// Log records are mirrored to the streamer.
    pub log_mirror: bool,
    /// The values negotiated for the session.
    pub negotiated: NegotiatedValues,
}

/// The workers of a streaming session.
#[derive(Clone, Copy, Debug, PartialEq, Eq, Structural)]
pub enum Worker {
    VideoReceive,
    GameAudio,
    MicrophoneRecord,
    HapticsReceive,
    ControlSend,
    ControlReceive,
    StreamPump,
}

/// Whether a worker has work in a session so configured. All seven are
/// started and joined; the two audio workers return at once where their
/// switch is off.
pub open spec fn has_work(worker: Worker, config: SessionConfig) -> bool {
    match worker {
        Worker::GameAudio => config.game_audio,
        Worker::MicrophoneRecord => config.microphone,
        _ => true,
    }
}

/// Where the client stands. Each phase but the last waits for the outcome of
/// one request.
#[derive(Clone, Copy, Debug, PartialEq, Eq, Structural)]
pub enum Phase {
    /// Between two sessions: the flags decide whether another one starts.
    Supervising,
    /// The sockets of the search are being opened.
    OpeningDiscovery,
    /// In the search, before an announcement: the flags decide whether it goes on.
    Discovering,
    /// An announcement is being sent.
    Broadcasting,
    /// A host may connect.
    AwaitingHost,
    /// The client's acceptance is being sent.
    Accepting,
    /// The stream configuration is awaited.
    ReceivingConfig,
    /// The control socket is being split into its two halves.
    SplittingControl,
    /// The streamer's word to start is awaited.
    AwaitingStart,
    /// The stream transport is being bound.
    BindingStream,
    /// The client's readiness is being sent.
    SendingReady,
    /// The streamer's connection to the stream transport is awaited.
    AcceptingStream,
    /// The audio devices that the session needs are being opened.
    OpeningAudio,
    /// The session streams until somebody fires the disconnect notifier.
    Streaming,
    /// The process is no longer alive: the lifecycle has returned.
    Stopped,
}

/// The one operation whose outcome the machine waits for.
#[derive(Clone, Copy, Debug, PartialEq, Eq, Structural)]
pub enum Request {
    /// Read the flags `alive` and `resumed`.
    ReadFlags,
    /// Open the announcer and the listener for the streamer's connection.
    OpenDiscovery,
    /// Send one announcement.
    Broadcast,
    /// Accept a connection from a streamer.
    AcceptHost { timeout_ms: u64 },
    /// Send the acceptance with the client's capabilities.
    SendConnectionAccepted,
    /// Receive the stream configuration and read both of its parts.
    ReceiveStreamConfig { timeout_ms: u64 },
    /// Split the control socket; its halves then receive with this timeout.
    SplitControl { timeout_ms: u64 },
    /// Receive one control packet.
    ReceiveControl { timeout_ms: u64 },
    /// Bind the stream transport as the settings say.
    ListenForStream { timeout_ms: u64 },
    /// Tell the streamer that the client is ready.
    SendStreamReady,
    /// Accept the stream transport's connection from the known streamer.
    AcceptStream { timeout_ms: u64 },
    /// Open the audio devices of the workers that are switched on.
    OpenAudioDevices,
    /// Block until the disconnect notifier fires.
    AwaitDisconnect,
    /// Nothing more: return to the caller of the lifecycle.
    Exit,
}

/// How a request ended.
#[derive(Clone, Copy, Debug, PartialEq, Eq)]
pub enum Outcome {
    /// The flags as read.
    Flags { alive: bool, resumed: bool },
    /// The operation succeeded. For `AcceptHost`: a streamer has connected.
    /// For `AwaitDisconnect`: the wait is over.
    Done,
    /// The operation failed or timed out.
    Failed,
    /// The stream configuration arrived and both parts could be read.
    Configured(SessionConfig),
    /// A control packet arrived.
    Control(ServerPacket),
}

/// Something for the caller to do that cannot fail.
#[derive(Clone, Copy, Debug, PartialEq, Eq)]
pub enum Effect {
    /// Post a message to the headset's display.
    PostHud(HudText),
    /// Sleep for that many milliseconds.
    Pause(u64),
    /// Make the disconnect notifier and put its sending side in its slot.
    InstallNotifier,
    /// Empty the slot of the disconnect notifier.
    ClearNotifier,
    /// Install a fresh statistics manager for the negotiated values.
    InstallStatistics,
    /// Hand the buffering parameters and the codec options to the decoder.
    PublishDecoderConfig,
    /// Subscribe to video, game audio and haptics; ask for the senders of
    /// tracking and statistics.
    OpenEndpoints,
    /// Set the flag `streaming`.
    SetStreaming(bool),
    /// Put the senders of control, tracking and statistics in their slots.
    PublishSenders,
    /// Put the log mirror's sender and threshold in its slot.
    InstallLogMirror,
    /// Emit the event that streaming has started, with these negotiated
    /// values and the session's settings.
    EmitStreamingStarted(NegotiatedValues),
    /// Start the seven workers.
    SpawnWorkers,
    /// Empty the slots of control, log mirror, tracking and statistics.
    ClearSenders,
    /// Emit the event that streaming has stopped.
    EmitStreamingStopped,
    /// Drop the decoder's handles.
    ClearDecoder,
    /// Wait for every worker to end.
    JoinWorkers,
}

/// What a session holds outside the machine, as the effects leave it.
#[derive(Clone, Copy, Debug, PartialEq, Eq, Structural)]
pub struct Resources {
    /// The flag `streaming`.
    pub streaming: bool,
    /// The control sender's slot is filled.
    pub control_sender: bool,
    /// The tracking sender's slot is filled.
    pub tracking_sender: bool,
    /// The statistics sender's slot is filled.
    pub statistics_sender: bool,
    /// The log mirror's slot is filled.
    pub log_mirror: bool,
    /// The disconnect notifier's slot is filled.
    pub notifier: bool,
    /// The workers that were started and not yet joined.
    pub workers: u8,
}

/// A step's answer: the effects to perform in order, then the request to
/// carry out.
pub struct Step {
    pub effects: Vec<Effect>,
    pub request: Request,
}

/// What the machine does on an outcome: the phase and the configuration it goes on
/// with, and the effects on the way.
pub struct Transition {
    pub phase: Phase,
    pub config: SessionConfig,
    pub effects: Seq<Effect>,
}

/// The machine together with what the session holds.
pub struct LifecycleState {
    pub phase: Phase,
    pub config: SessionConfig,
    pub resources: Resources,
}

/// Nothing held: no flag set, no slot filled, no worker running.
pub open spec fn nothing_held() -> Resources {
    Resources {
        streaming: false,
        control_sender: false,
        tracking_sender: false,
        statistics_sender: false,
        log_mirror: false,
        notifier: false,
        workers: 0,
    }
}

/// The configuration before any was read: every switch off, every value at
/// its default.
pub open spec fn unconfigured() -> SessionConfig {
    SessionConfig {
        game_audio: false,
        microphone: false,
        log_mirror: false,
        negotiated: NegotiatedValues {
            view_resolution: Resolution { width: 0, height: 0 },
            refresh_rate_hint_bits: DEFAULT_REFRESH_RATE_HINT_BITS,
            game_audio_sample_rate: DEFAULT_GAME_AUDIO_SAMPLE_RATE as u32,
        },
    }
}

/// What an effect does to what the session holds.
pub open spec fn apply_effect(held: Resources, effect: Effect) -> Resources {
    match effect {
        Effect::InstallNotifier => Resources { notifier: true, ..held },
        Effect::ClearNotifier => Resources { notifier: false, ..held },
        Effect::SetStreaming(on) => Resources { streaming: on, ..held },
        Effect::PublishSenders => Resources {
            control_sender: true,
            tracking_sender: true,
            statistics_sender: true,
            ..held
        },
        Effect::InstallLogMirror => Resources { log_mirror: true, ..held },
        Effect::SpawnWorkers => Resources { workers: WORKER_COUNT, ..held },
        Effect::ClearSenders => Resources {
            control_sender: false,
            tracking_sender: false,
            statistics_sender: false,
            log_mirror: false,
            ..held
        },
        Effect::JoinWorkers => Resources { workers: 0, ..held },
        _ => held,
    }
}

/// What a run of effects, performed in order, does to what the session holds.
pub open spec fn apply_effects(held: Resources, effects: Seq<Effect>) -> Resources
    decreases effects.len(),
{
    if effects.len() == 0 {
        held
    } else {
        apply_effect(apply_effects(held, effects.drop_last()), effects.last())
    }
}

/// The phases of the handshake: from the streamer's connection to the commit.
pub open spec fn in_handshake(phase: Phase) -> bool {
    matches!(
        phase,
        Phase::Accepting | Phase::ReceivingConfig | Phase::SplittingControl | Phase::AwaitingStart
            | Phase::BindingStream | Phase::SendingReady | Phase::AcceptingStream
            | Phase::OpeningAudio
    )
}

/// The phases in which no session has a streamer: between sessions, in the
/// search, and after the end.
pub open spec fn unconnected(phase: Phase) -> bool {
    !in_handshake(phase) && phase != Phase::Streaming
}

/// What a session holds in each phase: nothing while no streamer is
/// connected, the notifier alone in the handshake, and while it streams the
/// flag, the notifier, the three senders, the seven workers, and the log
/// mirror if the settings ask for it.
pub open spec fn held_in(phase: Phase, config: SessionConfig) -> Resources {
    if phase == Phase::Streaming {
        Resources {
            streaming: true,
            control_sender: true,
            tracking_sender: true,
            statistics_sender: true,
            log_mirror: config.log_mirror,
            notifier: true,
            workers: WORKER_COUNT,
        }
    } else if in_handshake(phase) {
        Resources { notifier: true, ..nothing_held() }
    } else {
        nothing_held()
    }
}

/// The request that a phase waits for.
pub open spec fn request_in(phase: Phase) -> Request {
    match phase {
        Phase::Supervising => Request::ReadFlags,
        Phase::OpeningDiscovery => Request::OpenDiscovery,
        Phase::Discovering => Request::ReadFlags,
        Phase::Broadcasting => Request::Broadcast,
        Phase::AwaitingHost => Request::AcceptHost { timeout_ms: DISCOVERY_RETRY_PAUSE_MS },
        Phase::Accepting => Request::SendConnectionAccepted,
        Phase::ReceivingConfig => Request::ReceiveStreamConfig {
            timeout_ms: HANDSHAKE_ACTION_TIMEOUT_MS,
        },
        Phase::SplittingControl => Request::SplitControl { timeout_ms: STREAMING_RECV_TIMEOUT_MS },
        Phase::AwaitingStart => Request::ReceiveControl { timeout_ms: HANDSHAKE_ACTION_TIMEOUT_MS },
        Phase::BindingStream => Request::ListenForStream { timeout_ms: STREAM_LISTEN_TIMEOUT_MS },
        Phase::SendingReady => Request::SendStreamReady,
        Phase::AcceptingStream => Request::AcceptStream { timeout_ms: HANDSHAKE_ACTION_TIMEOUT_MS },
        Phase::OpeningAudio => Request::OpenAudioDevices,
        Phase::Streaming => Request::AwaitDisconnect,
        Phase::Stopped => Request::Exit,
    }
}

/// The effects that end a session which got as far as `phase`: the
/// notifier's slot is emptied if it was filled, a failure of the setup is
/// posted, and the pause before the next session follows.
pub open spec fn session_end(phase: Phase, failed: bool) -> Seq<Effect> {
    let clear = if unconnected(phase) {
        Seq::<Effect>::empty()
    } else {
        seq![Effect::ClearNotifier]
    };
    let report = if failed {
        seq![Effect::PostHud(HudText::ConnectionError)]
    } else {
        Seq::<Effect>::empty()
    };
    clear + report + seq![Effect::Pause(CONNECTION_RETRY_INTERVAL_MS)]
}

/// The effects of the commit: from here to the wait for the notifier nothing
/// can fail.
pub open spec fn commit_effects(config: SessionConfig) -> Seq<Effect> {
    let mirror = if config.log_mirror {
        seq![Effect::InstallLogMirror]
    } else {
        Seq::<Effect>::empty()
    };
    seq![
        Effect::PublishDecoderConfig,
        Effect::OpenEndpoints,
        Effect::SetStreaming(true),
        Effect::PublishSenders,
    ] + mirror + seq![Effect::EmitStreamingStarted(config.negotiated), Effect::SpawnWorkers]
}

/// The effects of the teardown, before those that end the session.
pub open spec fn teardown_effects() -> Seq<Effect> {
    seq![
        Effect::SetStreaming(false),
        Effect::ClearSenders,
        Effect::EmitStreamingStopped,
        Effect::ClearDecoder,
        Effect::JoinWorkers,
    ]
}

/// A session ends in `phase`, after `before` and with or without a failure
/// of the setup: the machine goes back to supervising.
pub open spec fn ending(phase: Phase, config: SessionConfig, before: Seq<Effect>, failed: bool)
    -> Transition {
    Transition {
        phase: Phase::Supervising,
        config,
        effects: before + session_end(phase, failed),
    }
}

/// The machine goes on to `phase` after `effects`.
pub open spec fn going(phase: Phase, config: SessionConfig, effects: Seq<Effect>) -> Transition {
    Transition { phase, config, effects }
}

/// The session commits: it streams from here on.
pub open spec fn committing(config: SessionConfig) -> Transition {
    going(Phase::Streaming, config, commit_effects(config))
}

/// What the machine does in `phase` on `outcome`. An outcome that does not
/// answer the phase's request changes nothing.
pub open spec fn transition(phase: Phase, config: SessionConfig, outcome: Outcome) -> Transition {
    let none = Seq::<Effect>::empty();
    match (phase, outcome) {
        (Phase::Supervising, Outcome::Flags { alive, resumed }) => if !alive {
            going(Phase::Stopped, config, none)
        } else if resumed {
            going(Phase::OpeningDiscovery, config, none)
        } else {
            going(Phase::Supervising, config, seq![Effect::Pause(CONNECTION_RETRY_INTERVAL_MS)])
        },
        (Phase::OpeningDiscovery, Outcome::Done) => going(Phase::Discovering, config, none),
        (Phase::OpeningDiscovery, Outcome::Failed) => ending(phase, config, none, true),
        (Phase::Discovering, Outcome::Flags { alive, resumed }) => if alive {
            going(Phase::Broadcasting, config, none)
        } else {
            ending(phase, config, none, false)
        },
        (Phase::Broadcasting, Outcome::Done) => going(Phase::AwaitingHost, config, none),
        (Phase::Broadcasting, Outcome::Failed) => ending(
            phase,
            config,
            seq![
                Effect::PostHud(HudText::NetworkUnreachable),
                Effect::Pause(RETRY_CONNECT_MIN_INTERVAL_MS),
                Effect::PostHud(HudText::Initial),
            ],
            false,
        ),
        (Phase::AwaitingHost, Outcome::Done) => going(
            Phase::Accepting,
            config,
            seq![Effect::InstallNotifier],
        ),
        (Phase::AwaitingHost, Outcome::Failed) => going(Phase::Discovering, config, none),
        (Phase::Accepting, Outcome::Done) => going(Phase::ReceivingConfig, config, none),
        (Phase::Accepting, Outcome::Failed) => ending(phase, config, none, true),
        (Phase::ReceivingConfig, Outcome::Configured(read)) => going(
            Phase::SplittingControl,
            read,
            seq![Effect::InstallStatistics],
        ),
        (Phase::ReceivingConfig, Outcome::Failed) => ending(phase, config, none, true),
        (Phase::SplittingControl, Outcome::Done) => going(Phase::AwaitingStart, config, none),
        (Phase::SplittingControl, Outcome::Failed) => ending(phase, config, none, true),
        (Phase::AwaitingStart, Outcome::Control(ServerPacket::StartStream)) => going(
            Phase::BindingStream,
            config,
            seq![Effect::PostHud(HudText::StreamStarting)],
        ),
        (Phase::AwaitingStart, Outcome::Control(ServerPacket::Restarting)) => ending(
            phase,
            config,
            seq![Effect::PostHud(HudText::ServerRestart)],
            false,
        ),
        (Phase::AwaitingStart, Outcome::Control(_)) => ending(
            phase,
            config,
            seq![Effect::PostHud(HudText::UnexpectedPacket)],
            false,
        ),
        (Phase::AwaitingStart, Outcome::Failed) => ending(
            phase,
            config,
            seq![Effect::PostHud(HudText::ServerDisconnected)],
            false,
        ),
        (Phase::BindingStream, Outcome::Done) => going(Phase::SendingReady, config, none),
        (Phase::BindingStream, Outcome::Failed) => ending(phase, config, none, true),
        (Phase::SendingReady, Outcome::Done) => going(Phase::AcceptingStream, config, none),
        (Phase::SendingReady, Outcome::Failed) => ending(
            phase,
            config,
            seq![Effect::PostHud(HudText::ServerDisconnected)],
            false,
        ),
        (Phase::AcceptingStream, Outcome::Done) => if config.game_audio || config.microphone {
            going(Phase::OpeningAudio, config, none)
        } else {
            committing(config)
        },
        (Phase::AcceptingStream, Outcome::Failed) => ending(phase, config, none, true),
        (Phase::OpeningAudio, Outcome::Done) => committing(config),
        (Phase::OpeningAudio, Outcome::Failed) => ending(phase, config, none, true),
        (Phase::Streaming, Outcome::Done) => ending(phase, config, teardown_effects(), false),
        (Phase::Streaming, Outcome::Failed) => ending(phase, config, teardown_effects(), false),
        _ => going(phase, config, none),
    }
}

/// The state after an outcome: the machine's transition, and what its
/// effects leave of what the session holds.
pub open spec fn next_state(state: LifecycleState, outcome: Outcome) -> LifecycleState {
    let t = transition(state.phase, state.config, outcome);
    LifecycleState {
        phase: t.phase,
        config: t.config,
        resources: apply_effects(state.resources, t.effects),
    }
}

/// The state at the start of the lifecycle.
pub open spec fn initial_state() -> LifecycleState {
    LifecycleState { phase: Phase::Supervising, config: unconfigured(), resources: nothing_held() }
}

/// The state after a run of outcomes.
pub open spec fn state_after(outcomes: Seq<Outcome>) -> LifecycleState
    decreases outcomes.len(),
{
    if outcomes.len() == 0 {
        initial_state()
    } else {
        next_state(state_after(outcomes.drop_last()), outcomes.last())
    }
}

/// The session holds exactly what its phase calls for.
pub open spec fn consistent(state: LifecycleState) -> bool {
    state.resources == held_in(state.phase, state.config)
}

/// The effects that end a session are appended to `effects`.
fn end_session(phase: Phase, failed: bool, effects: &mut Vec<Effect>)
    ensures
        final(effects)@ == old(effects)@ + session_end(phase, failed),
{
    let connected = match phase {
        Phase::Accepting
        | Phase::ReceivingConfig
        | Phase::SplittingControl
        | Phase::AwaitingStart
        | Phase::BindingStream
        | Phase::SendingReady
        | Phase::AcceptingStream
        | Phase::OpeningAudio
        | Phase::Streaming => true,
        _ => false,
    };
    if connected {
        effects.push(Effect::ClearNotifier);
    }
    if failed {
        effects.push(Effect::PostHud(HudText::ConnectionError));
    }
    effects.push(Effect::Pause(CONNECTION_RETRY_INTERVAL_MS));
    assert(effects@ =~= old(effects)@ + session_end(phase, failed));
}

/// The effects of the commit, in order.
fn commit(config: SessionConfig) -> (effects: Vec<Effect>)
    ensures
        effects@ == commit_effects(config),
{
    let mut effects = Vec::new();
    effects.push(Effect::PublishDecoderConfig);
    effects.push(Effect::OpenEndpoints);
    effects.push(Effect::SetStreaming(true));
    effects.push(Effect::PublishSenders);
    if config.log_mirror {
        effects.push(Effect::InstallLogMirror);
    }
    effects.push(Effect::EmitStreamingStarted(config.negotiated));
    effects.push(Effect::SpawnWorkers);
    assert(effects@ =~= commit_effects(config));
    effects
}

/// The effects of the teardown, in order.
fn teardown() -> (effects: Vec<Effect>)
    ensures
        effects@ == teardown_effects(),
{
    let mut effects = Vec::new();
    effects.push(Effect::SetStreaming(false));
    effects.push(Effect::ClearSenders);
    effects.push(Effect::EmitStreamingStopped);
    effects.push(Effect::ClearDecoder);
    effects.push(Effect::JoinWorkers);
    assert(effects@ =~= teardown_effects());
    effects
}

/// One effect, alone.
fn only(effect: Effect) -> (effects: Vec<Effect>)
    ensures
        effects@ == seq![effect],
{
    let mut effects = Vec::new();
    effects.push(effect);
    assert(effects@ =~= seq![effect]);
    effects
}

/// Says whether a worker has work in a session so configured.
pub fn worker_has_work(worker: Worker, config: SessionConfig) -> (busy: bool)
    ensures
        busy == has_work(worker, config),
{
    match worker {
        Worker::GameAudio => config.game_audio,
        Worker::MicrophoneRecord => config.microphone,
        _ => true,
    }
}

/// Says what an effect does to what the session holds.
pub fn apply(held: Resources, effect: Effect) -> (after: Resources)
    ensures
        after == apply_effect(held, effect),
{
    let mut after = held;
    match effect {
        Effect::InstallNotifier => {
            after.notifier = true;
        },
        Effect::ClearNotifier => {
            after.notifier = false;
        },
        Effect::SetStreaming(on) => {
            after.streaming = on;
        },
        Effect::PublishSenders => {
            after.control_sender = true;
            after.tracking_sender = true;
            after.statistics_sender = true;
        },
        Effect::InstallLogMirror => {
            after.log_mirror = true;
        },
        Effect::SpawnWorkers => {
            after.workers = WORKER_COUNT;
        },
        Effect::ClearSenders => {
            after.control_sender = false;
            after.tracking_sender = false;
            after.statistics_sender = false;
            after.log_mirror = false;
        },
        Effect::JoinWorkers => {
            after.workers = 0;
        },
        _ => {},
    }
    after
}

/// The request that a phase waits for.
pub fn request_of(phase: Phase) -> (request: Request)
    ensures
        request == request_in(phase),
{
    match phase {
        Phase::Supervising => Request::ReadFlags,
        Phase::OpeningDiscovery => Request::OpenDiscovery,
        Phase::Discovering => Request::ReadFlags,
        Phase::Broadcasting => Request::Broadcast,
        Phase::AwaitingHost => Request::AcceptHost { timeout_ms: DISCOVERY_RETRY_PAUSE_MS },
        Phase::Accepting => Request::SendConnectionAccepted,
        Phase::ReceivingConfig => Request::ReceiveStreamConfig {
            timeout_ms: HANDSHAKE_ACTION_TIMEOUT_MS,
        },
        Phase::SplittingControl => Request::SplitControl { timeout_ms: STREAMING_RECV_TIMEOUT_MS },
        Phase::AwaitingStart => Request::ReceiveControl { timeout_ms: HANDSHAKE_ACTION_TIMEOUT_MS },
        Phase::BindingStream => Request::ListenForStream { timeout_ms: STREAM_LISTEN_TIMEOUT_MS },
        Phase::SendingReady => Request::SendStreamReady,
        Phase::AcceptingStream => Request::AcceptStream { timeout_ms: HANDSHAKE_ACTION_TIMEOUT_MS },
        Phase::OpeningAudio => Request::OpenAudioDevices,
        Phase::Streaming => Request::AwaitDisconnect,
        Phase::Stopped => Request::Exit,
    }
}

/// A session that ends in `phase` after `effects`.
fn end_after(phase: Phase, config: SessionConfig, effects: Vec<Effect>, failed: bool) -> (planned:
    (Phase, SessionConfig, Vec<Effect>))
    ensures
        planned.0 == ending(phase, config, effects@, failed).phase,
        planned.1 == ending(phase, config, effects@, failed).config,
        planned.2@ == ending(phase, config, effects@, failed).effects,
{
    let mut effects = effects;
    end_session(phase, failed, &mut effects);
    (Phase::Supervising, config, effects)
}

/// The machine's answer to an outcome: the next phase, the configuration and the
/// effects.
fn plan(phase: Phase, config: SessionConfig, outcome: Outcome) -> (planned: (
    Phase,
    SessionConfig,
    Vec<Effect>,
))
    ensures
        planned.0 == transition(phase, config, outcome).phase,
        planned.1 == transition(phase, config, outcome).config,
        planned.2@ == transition(phase, config, outcome).effects,
{
    match (phase, outcome) {
        (Phase::Supervising, Outcome::Flags { alive, resumed }) => if !alive {
            (Phase::Stopped, config, Vec::new())
        } else if resumed {
            (Phase::OpeningDiscovery, config, Vec::new())
        } else {
            (Phase::Supervising, config, only(Effect::Pause(CONNECTION_RETRY_INTERVAL_MS)))
        },
        (Phase::OpeningDiscovery, Outcome::Done) => (Phase::Discovering, config, Vec::new()),
        (Phase::OpeningDiscovery, Outcome::Failed) => end_after(phase, config, Vec::new(), true),
        (Phase::Discovering, Outcome::Flags { alive, resumed }) => if alive {
            (Phase::Broadcasting, config, Vec::new())
        } else {
            end_after(phase, config, Vec::new(), false)
        },
        (Phase::Broadcasting, Outcome::Done) => (Phase::AwaitingHost, config, Vec::new()),
        (Phase::Broadcasting, Outcome::Failed) => {
            let mut effects = Vec::new();
            effects.push(Effect::PostHud(HudText::NetworkUnreachable));
            effects.push(Effect::Pause(RETRY_CONNECT_MIN_INTERVAL_MS));
            effects.push(Effect::PostHud(HudText::Initial));
            assert(effects@ =~= seq![
                Effect::PostHud(HudText::NetworkUnreachable),
                Effect::Pause(RETRY_CONNECT_MIN_INTERVAL_MS),
                Effect::PostHud(HudText::Initial),
            ]);
            end_after(phase, config, effects, false)
        },
        (Phase::AwaitingHost, Outcome::Done) => (
            Phase::Accepting,
            config,
            only(Effect::InstallNotifier),
        ),
        (Phase::AwaitingHost, Outcome::Failed) => (Phase::Discovering, config, Vec::new()),
        (Phase::Accepting, Outcome::Done) => (Phase::ReceivingConfig, config, Vec::new()),
        (Phase::Accepting, Outcome::Failed) => end_after(phase, config, Vec::new(), true),
        (Phase::ReceivingConfig, Outcome::Configured(read)) => (
            Phase::SplittingControl,
            read,
            only(Effect::InstallStatistics),
        ),
        (Phase::ReceivingConfig, Outcome::Failed) => end_after(phase, config, Vec::new(), true),
        (Phase::SplittingControl, Outcome::Done) => (Phase::AwaitingStart, config, Vec::new()),
        (Phase::SplittingControl, Outcome::Failed) => end_after(phase, config, Vec::new(), true),
        (Phase::AwaitingStart, Outcome::Control(ServerPacket::StartStream)) => (
            Phase::BindingStream,
            config,
            only(Effect::PostHud(HudText::StreamStarting)),
        ),
        (Phase::AwaitingStart, Outcome::Control(ServerPacket::Restarting)) => end_after(
            phase,
            config,
            only(Effect::PostHud(HudText::ServerRestart)),
            false,
        ),
        (Phase::AwaitingStart, Outcome::Control(_)) => end_after(
            phase,
            config,
            only(Effect::PostHud(HudText::UnexpectedPacket)),
            false,
        ),
        (Phase::AwaitingStart, Outcome::Failed) => end_after(
            phase,
            config,
            only(Effect::PostHud(HudText::ServerDisconnected)),
            false,
        ),
        (Phase::BindingStream, Outcome::Done) => (Phase::SendingReady, config, Vec::new()),
        (Phase::BindingStream, Outcome::Failed) => end_after(phase, config, Vec::new(), true),
        (Phase::SendingReady, Outcome::Done) => (Phase::AcceptingStream, config, Vec::new()),
        (Phase::SendingReady, Outcome::Failed) => end_after(
            phase,
            config,
            only(Effect::PostHud(HudText::ServerDisconnected)),
            false,
        ),
        (Phase::AcceptingStream, Outcome::Done) => if config.game_audio || config.microphone {
            (Phase::OpeningAudio, config, Vec::new())
        } else {
            (Phase::Streaming, config, commit(config))
        },
        (Phase::AcceptingStream, Outcome::Failed) => end_after(phase, config, Vec::new(), true),
        (Phase::OpeningAudio, Outcome::Done) => (Phase::Streaming, config, commit(config)),
        (Phase::OpeningAudio, Outcome::Failed) => end_after(phase, config, Vec::new(), true),
        (Phase::Streaming, Outcome::Done) => end_after(phase, config, teardown(), false),
        (Phase::Streaming, Outcome::Failed) => end_after(phase, config, teardown(), false),
        _ => (phase, config, Vec::new()),
    }
}

/// The lifecycle of one client.
pub struct Lifecycle {
    phase: Phase,
    config: SessionConfig,
    held: Resources,
}

impl View for Lifecycle {
    type V = LifecycleState;

    closed spec fn view(&self) -> LifecycleState {
        LifecycleState { phase: self.phase, config: self.config, resources: self.held }
    }
}

impl Lifecycle {
    /// Starts the lifecycle: the first message is posted, and the flags are
    /// to be read.
    pub fn begin() -> (started: (Lifecycle, Step))
        ensures
            started.0@ == initial_state(),
            started.1.effects@ == seq![Effect::PostHud(HudText::Initial)],
            started.1.request == Request::ReadFlags,
    {
        let lifecycle = Lifecycle {
            phase: Phase::Supervising,
            config: SessionConfig {
                game_audio: false,
                microphone: false,
                log_mirror: false,
                negotiated: NegotiatedValues {
                    view_resolution: Resolution { width: 0, height: 0 },
                    refresh_rate_hint_bits: DEFAULT_REFRESH_RATE_HINT_BITS,
                    game_audio_sample_rate: DEFAULT_GAME_AUDIO_SAMPLE_RATE as u32,
                },
            },
            held: Resources {
                streaming: false,
                control_sender: false,
                tracking_sender: false,
                statistics_sender: false,
                log_mirror: false,
                notifier: false,
                workers: 0,
            },
        };
        (
            lifecycle,
            Step { effects: only(Effect::PostHud(HudText::Initial)), request: Request::ReadFlags },
        )
    }

    /// The phase that the lifecycle is in.
    pub fn phase(&self) -> (phase: Phase)
        ensures
            phase == self@.phase,
    {
        self.phase
    }

    /// The configuration of the session, as last read.
    pub fn config(&self) -> (config: SessionConfig)
        ensures
            config == self@.config,
    {
        self.config
    }

    /// What the session holds once the effects given out so far are done.
    pub fn resources(&self) -> (held: Resources)
        ensures
            held == self@.resources,
    {
        self.held
    }

    /// The request that the lifecycle waits for.
    pub fn request(&self) -> (request: Request)
        ensures
            request == request_in(self@.phase),
    {
        request_of(self.phase)
    }

    /// Takes the outcome of the request that the lifecycle waits for, and
    /// answers with the effects to perform and the next request. An outcome
    /// that does not answer the request changes nothing, and the request
    /// stands.
    pub fn advance(&mut self, outcome: Outcome) -> (step: Step)
        ensures
            final(self)@ == next_state(old(self)@, outcome),
            step.effects@ == transition(old(self)@.phase, old(self)@.config, outcome).effects,
            step.request == request_in(final(self)@.phase),
    {
        let (phase, config, effects) = plan(self.phase, self.config, outcome);
        let mut held = self.held;
        let mut i: usize = 0;
        while i < effects.len()
            invariant
                0 <= i <= effects.len(),
                held == apply_effects(self.held, effects@.take(i as int)),
            decreases effects.len() - i,
        {
            assert(effects@.take(i + 1).drop_last() =~= effects@.take(i as int));
            held = apply(held, effects[i]);
            i = i + 1;
        }
        assert(effects@.take(i as int) =~= effects@);
        self.phase = phase;
        self.config = config;
        self.held = held;
        Step { effects, request: request_of(phase) }
    }
}

/// An effect after a run of effects is applied after the run.
proof fn lemma_apply_push(held: Resources, effects: Seq<Effect>, effect: Effect)
    ensures
        apply_effects(held, effects.push(effect)) == apply_effect(
            apply_effects(held, effects),
            effect,
        ),
{
    assert(effects.push(effect).drop_last() =~= effects);
}

/// Two runs of effects in a row are applied one after the other.
proof fn lemma_apply_concat(held: Resources, first: Seq<Effect>, second: Seq<Effect>)
    ensures
        apply_effects(held, first + second) == apply_effects(apply_effects(held, first), second),
    decreases second.len(),
{
    if second.len() == 0 {
        assert(first + second =~= first);
    } else {
        assert((first + second).drop_last() =~= first + second.drop_last());
        lemma_apply_concat(held, first, second.drop_last());
    }
}

/// A single effect, applied as a run.
proof fn lemma_apply_one(held: Resources, effect: Effect)
    ensures
        apply_effects(held, seq![effect]) == apply_effect(held, effect),
{
    lemma_apply_push(held, Seq::empty(), effect);
    assert(seq![effect] =~= Seq::<Effect>::empty().push(effect));
}

/// The end of a session empties the notifier's slot and touches nothing else.
proof fn lemma_session_end_clears_notifier(held: Resources, phase: Phase, failed: bool)
    ensures
        apply_effects(held, session_end(phase, failed)) == (if unconnected(phase) {
            held
        } else {
            Resources { notifier: false, ..held }
        }),
{
    let clear = if unconnected(phase) {
        Seq::<Effect>::empty()
    } else {
        seq![Effect::ClearNotifier]
    };
    let report = if failed {
        seq![Effect::PostHud(HudText::ConnectionError)]
    } else {
        Seq::<Effect>::empty()
    };
    let pause = seq![Effect::Pause(CONNECTION_RETRY_INTERVAL_MS)];
    lemma_apply_concat(held, clear + report, pause);
    lemma_apply_concat(held, clear, report);
    lemma_apply_one(held, Effect::ClearNotifier);
    let cleared = apply_effects(held, clear);
    lemma_apply_one(cleared, Effect::PostHud(HudText::ConnectionError));
    lemma_apply_one(apply_effects(cleared, report), Effect::Pause(CONNECTION_RETRY_INTERVAL_MS));
}

/// The commit turns what the handshake holds into what streaming holds.
proof fn lemma_commit_fills(config: SessionConfig)
    ensures
        apply_effects(held_in(Phase::AcceptingStream, config), commit_effects(config))
            == held_in(Phase::Streaming, config),
{
    let held = held_in(Phase::AcceptingStream, config);
    let none = Seq::<Effect>::empty();
    let a = none.push(Effect::PublishDecoderConfig);
    let b = a.push(Effect::OpenEndpoints);
    let c = b.push(Effect::SetStreaming(true));
    let d = c.push(Effect::PublishSenders);
    lemma_apply_push(held, none, Effect::PublishDecoderConfig);
    lemma_apply_push(held, a, Effect::OpenEndpoints);
    lemma_apply_push(held, b, Effect::SetStreaming(true));
    lemma_apply_push(held, c, Effect::PublishSenders);
    let e = if config.log_mirror {
        d.push(Effect::InstallLogMirror)
    } else {
        d
    };
    lemma_apply_push(held, d, Effect::InstallLogMirror);
    let f = e.push(Effect::EmitStreamingStarted(config.negotiated));
    let g = f.push(Effect::SpawnWorkers);
    lemma_apply_push(held, e, Effect::EmitStreamingStarted(config.negotiated));
    lemma_apply_push(held, f, Effect::SpawnWorkers);
    assert(commit_effects(config) =~= g);
}

/// The teardown leaves the notifier alone of all that streaming holds.
proof fn lemma_teardown_empties(config: SessionConfig)
    ensures
        apply_effects(held_in(Phase::Streaming, config), teardown_effects()) == held_in(
            Phase::AcceptingStream,
            config,
        ),
{
    let held = held_in(Phase::Streaming, config);
    let none = Seq::<Effect>::empty();
    let a = none.push(Effect::SetStreaming(false));
    let b = a.push(Effect::ClearSenders);
    let c = b.push(Effect::EmitStreamingStopped);
    let d = c.push(Effect::ClearDecoder);
    let e = d.push(Effect::JoinWorkers);
    lemma_apply_push(held, none, Effect::SetStreaming(false));
    lemma_apply_push(held, a, Effect::ClearSenders);
    lemma_apply_push(held, b, Effect::EmitStreamingStopped);
    lemma_apply_push(held, c, Effect::ClearDecoder);
    lemma_apply_push(held, d, Effect::JoinWorkers);
    assert(teardown_effects() =~= e);
}

/// A session that ends leaves nothing behind, whatever was done before the
/// end, as long as that left at most the notifier.
proof fn lemma_ending_leaves_nothing(
    held: Resources,
    phase: Phase,
    before: Seq<Effect>,
    failed: bool,
)
    requires
        apply_effects(held, before) == (if unconnected(phase) {
            nothing_held()
        } else {
            Resources { notifier: true, ..nothing_held() }
        }),
    ensures
        apply_effects(held, before + session_end(phase, failed)) == nothing_held(),
{
    lemma_apply_concat(held, before, session_end(phase, failed));
    lemma_session_end_clears_notifier(apply_effects(held, before), phase, failed);
}

/// Every step keeps the session holding exactly what its phase calls for.
pub proof fn lemma_step_keeps_consistent(state: LifecycleState, outcome: Outcome)
    requires
        consistent(state),
    ensures
        consistent(next_state(state, outcome)),
{
    let phase = state.phase;
    let config = state.config;
    let held = state.resources;
    let none = Seq::<Effect>::empty();
    assert(apply_effects(held, none) == held);
    lemma_apply_one(held, Effect::Pause(CONNECTION_RETRY_INTERVAL_MS));
    lemma_apply_one(held, Effect::InstallNotifier);
    lemma_apply_one(held, Effect::InstallStatistics);
    lemma_apply_one(held, Effect::PostHud(HudText::StreamStarting));
    lemma_apply_one(held, Effect::PostHud(HudText::ServerRestart));
    lemma_apply_one(held, Effect::PostHud(HudText::UnexpectedPacket));
    lemma_apply_one(held, Effect::PostHud(HudText::ServerDisconnected));
    lemma_commit_fills(config);
    lemma_teardown_empties(config);
    if phase == Phase::Streaming {
        lemma_ending_leaves_nothing(held, phase, teardown_effects(), false);
    } else if phase != Phase::Supervising && phase != Phase::Stopped {
        lemma_ending_leaves_nothing(held, phase, none, true);
        lemma_ending_leaves_nothing(held, phase, none, false);
        if phase == Phase::Broadcasting {
            let a = none.push(Effect::PostHud(HudText::NetworkUnreachable));
            let b = a.push(Effect::Pause(RETRY_CONNECT_MIN_INTERVAL_MS));
            let c = b.push(Effect::PostHud(HudText::Initial));
            lemma_apply_push(held, none, Effect::PostHud(HudText::NetworkUnreachable));
            lemma_apply_push(held, a, Effect::Pause(RETRY_CONNECT_MIN_INTERVAL_MS));
            lemma_apply_push(held, b, Effect::PostHud(HudText::Initial));
            assert(c =~= seq![
                Effect::PostHud(HudText::NetworkUnreachable),
                Effect::Pause(RETRY_CONNECT_MIN_INTERVAL_MS),
                Effect::PostHud(HudText::Initial),
            ]);
            lemma_ending_leaves_nothing(held, phase, c, false);
        }
        if phase == Phase::AwaitingStart || phase == Phase::SendingReady {
            lemma_ending_leaves_nothing(
                held,
                phase,
                seq![Effect::PostHud(HudText::ServerRestart)],
                false,
            );
            lemma_ending_leaves_nothing(
                held,
                phase,
                seq![Effect::PostHud(HudText::UnexpectedPacket)],
                false,
            );
            lemma_ending_leaves_nothing(
                held,
                phase,
                seq![Effect::PostHud(HudText::ServerDisconnected)],
                false,
            );
        }
    }
}

/// Whatever the outcomes, the session always holds exactly what its phase
/// calls for.
pub proof fn lemma_always_consistent(outcomes: Seq<Outcome>)
    ensures
        consistent(state_after(outcomes)),
    decreases outcomes.len(),
{
    if outcomes.len() > 0 {
        lemma_always_consistent(outcomes.drop_last());
        lemma_step_keeps_consistent(state_after(outcomes.drop_last()), outcomes.last());
    }
}

/// Whenever no session stands connected, and so after every session however
/// it ended, nothing is left of it: the flag `streaming` is down, the four
/// slots of the senders and the notifier's slot are empty, and no worker is
/// left unjoined.
pub proof fn lemma_nothing_left_between_sessions(outcomes: Seq<Outcome>)
    requires
        unconnected(state_after(outcomes).phase),
    ensures
        state_after(outcomes).resources == nothing_held(),
        !state_after(outcomes).resources.streaming,
        !state_after(outcomes).resources.control_sender,
        !state_after(outcomes).resources.tracking_sender,
        !state_after(outcomes).resources.statistics_sender,
        !state_after(outcomes).resources.log_mirror,
        !state_after(outcomes).resources.notifier,
        state_after(outcomes).resources.workers == 0,
{
    lemma_always_consistent(outcomes);
}

/// The flag `streaming` is up exactly in the streaming phase, where the three
/// senders are in their slots and the seven workers run; and the notifier's
/// slot is filled exactly from the streamer's connection to the end of the
/// session.
pub proof fn lemma_streaming_and_notifier(outcomes: Seq<Outcome>)
    ensures
        ({
            let state = state_after(outcomes);
            &&& state.resources.streaming <==> state.phase == Phase::Streaming
            &&& state.resources.streaming ==> state.resources.control_sender
                && state.resources.tracking_sender && state.resources.statistics_sender
                && state.resources.workers == WORKER_COUNT
            &&& !state.resources.streaming ==> !state.resources.control_sender
                && !state.resources.tracking_sender && !state.resources.statistics_sender
                && !state.resources.log_mirror && state.resources.workers == 0
            &&& state.resources.notifier <==> in_handshake(state.phase) || state.phase
                == Phase::Streaming
        }),
{
    lemma_always_consistent(outcomes);
}

/// Past the commit nothing can fail: while the flag `streaming` is up, the
/// only request that stands is the wait for the disconnect notifier.
pub proof fn lemma_streaming_only_waits(outcomes: Seq<Outcome>)
    requires
        state_after(outcomes).resources.streaming,
    ensures
        request_in(state_after(outcomes).phase) == Request::AwaitDisconnect,
{
    lemma_always_consistent(outcomes);
}

/// The streaming phase ends in one step, which is the teardown: its effects
/// are the five of the teardown, the emptying of the notifier's slot and the
/// pause, and they leave nothing behind.
pub proof fn lemma_teardown_is_complete(state: LifecycleState, outcome: Outcome)
    requires
        consistent(state),
        state.phase == Phase::Streaming,
        outcome == Outcome::Done || outcome == Outcome::Failed,
    ensures
        next_state(state, outcome).phase == Phase::Supervising,
        next_state(state, outcome).resources == nothing_held(),
        transition(state.phase, state.config, outcome).effects == teardown_effects() + seq![
            Effect::ClearNotifier,
            Effect::Pause(CONNECTION_RETRY_INTERVAL_MS),
        ],
{
    lemma_step_keeps_consistent(state, outcome);
    assert(session_end(Phase::Streaming, false) =~= seq![
        Effect::ClearNotifier,
        Effect::Pause(CONNECTION_RETRY_INTERVAL_MS),
    ]);
}

/// Only the stream configuration, read while it is awaited, changes the
/// configuration: whatever else happens, the session goes on with the one
/// it has.
pub proof fn lemma_configuration_kept(state: LifecycleState, outcome: Outcome)
    ensures
        next_state(state, outcome).config == (match (state.phase, outcome) {
            (Phase::ReceivingConfig, Outcome::Configured(read)) => read,
            _ => state.config,
        }),
{
}

/// A session that starts to stream reports the negotiated values of its
/// configuration, field for field: the commit emits exactly one event that
/// streaming has started, and that event carries them.
pub proof fn lemma_started_event_reports_negotiated(state: LifecycleState, outcome: Outcome)
    requires
        state.phase != Phase::Streaming,
        next_state(state, outcome).phase == Phase::Streaming,
    ensures
        ({
            let effects = transition(state.phase, state.config, outcome).effects;
            &&& effects == commit_effects(state.config)
            &&& effects[effects.len() - 2] == Effect::EmitStreamingStarted(state.config.negotiated)
            &&& forall|i: int, values: NegotiatedValues|
                0 <= i < effects.len() && effects[i] == Effect::EmitStreamingStarted(values) ==> i
                    == effects.len() - 2 && values == state.config.negotiated
        }),
{
    let effects = commit_effects(state.config);
    let last = seq![
        Effect::EmitStreamingStarted(state.config.negotiated),
        Effect::SpawnWorkers,
    ];
    if state.config.log_mirror {
        assert(effects =~= seq![
            Effect::PublishDecoderConfig,
            Effect::OpenEndpoints,
            Effect::SetStreaming(true),
            Effect::PublishSenders,
            Effect::InstallLogMirror,
        ] + last);
    } else {
        assert(effects =~= seq![
            Effect::PublishDecoderConfig,
            Effect::OpenEndpoints,
            Effect::SetStreaming(true),
            Effect::PublishSenders,
        ] + last);
    }
}

} // verus!
