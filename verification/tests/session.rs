use alvr_connection::control::{ControlSendLoop, Flags};
use alvr_connection::hud::{
    message_body, HudText, NETWORK_UNREACHABLE_MESSAGE, SERVER_RESTART_MESSAGE,
    STREAM_STARTING_MESSAGE,
};
use alvr_connection::negotiation::{negotiate, NegotiatedValues, Resolution};
use alvr_connection::session::{
    apply, request_of, worker_has_work, Effect, Lifecycle, Outcome, Phase, Request, Resources,
    SessionConfig, Worker,
    CONNECTION_RETRY_INTERVAL_MS, DISCOVERY_RETRY_PAUSE_MS, HANDSHAKE_ACTION_TIMEOUT_MS,
    RETRY_CONNECT_MIN_INTERVAL_MS, STREAMING_RECV_TIMEOUT_MS, STREAM_LISTEN_TIMEOUT_MS,
    WORKER_COUNT,
};
use alvr_connection::workers::{
    after_control_reception, ControlReception, ServerPacket, WorkerStep,
};

const AWAKE: Outcome = Outcome::Flags { alive: true, resumed: true };
const VALUES: NegotiatedValues = NegotiatedValues {
    view_resolution: Resolution { width: 2064, height: 2208 },
    refresh_rate_hint_bits: 0x4056_8000_0000_0000,
    game_audio_sample_rate: 48000,
};
const PLAIN: SessionConfig =
    SessionConfig { game_audio: false, microphone: false, log_mirror: false, negotiated: VALUES };
const NOTHING: Resources = Resources {
    streaming: false,
    control_sender: false,
    tracking_sender: false,
    statistics_sender: false,
    log_mirror: false,
    notifier: false,
    workers: 0,
};

fn connected() -> Lifecycle {
    let (mut lifecycle, _) = Lifecycle::begin();
    lifecycle.advance(AWAKE);
    lifecycle.advance(Outcome::Done);
    lifecycle.advance(AWAKE);
    lifecycle.advance(Outcome::Done);
    let step = lifecycle.advance(Outcome::Done);
    assert_eq!(step.effects, vec![Effect::InstallNotifier]);
    assert_eq!(step.request, Request::SendConnectionAccepted);
    lifecycle
}

fn awaiting_start(config: SessionConfig) -> Lifecycle {
    let mut lifecycle = connected();
    lifecycle.advance(Outcome::Done);
    lifecycle.advance(Outcome::Configured(config));
    let step = lifecycle.advance(Outcome::Done);
    assert_eq!(step.request, Request::ReceiveControl { timeout_ms: 2000 });
    lifecycle
}

fn streaming(config: SessionConfig) -> Lifecycle {
    let mut lifecycle = awaiting_start(config);
    lifecycle.advance(Outcome::Control(ServerPacket::StartStream));
    lifecycle.advance(Outcome::Done);
    lifecycle.advance(Outcome::Done);
    let mut step = lifecycle.advance(Outcome::Done);
    if config.game_audio || config.microphone {
        assert_eq!(step.request, Request::OpenAudioDevices);
        assert!(step.effects.is_empty());
        step = lifecycle.advance(Outcome::Done);
    }
    assert_eq!(step.request, Request::AwaitDisconnect);
    assert_eq!(lifecycle.phase(), Phase::Streaming);
    lifecycle
}

#[test]
fn constants() {
    assert_eq!(DISCOVERY_RETRY_PAUSE_MS, 500);
    assert_eq!(RETRY_CONNECT_MIN_INTERVAL_MS, 1000);
    assert_eq!(CONNECTION_RETRY_INTERVAL_MS, 1000);
    assert_eq!(HANDSHAKE_ACTION_TIMEOUT_MS, 2000);
    assert_eq!(STREAMING_RECV_TIMEOUT_MS, 500);
    assert_eq!(STREAM_LISTEN_TIMEOUT_MS, 1000);
    assert_eq!(WORKER_COUNT, 7);
}

#[test]
fn happy_path() {
    let (mut lifecycle, step) = Lifecycle::begin();
    assert_eq!(step.effects, vec![Effect::PostHud(HudText::Initial)]);
    assert_eq!(step.request, Request::ReadFlags);
    assert_eq!(lifecycle.resources(), NOTHING);

    let step = lifecycle.advance(AWAKE);
    assert!(step.effects.is_empty());
    assert_eq!(step.request, Request::OpenDiscovery);

    let step = lifecycle.advance(Outcome::Done);
    assert_eq!(step.request, Request::ReadFlags);
    assert_eq!(lifecycle.phase(), Phase::Discovering);

    let step = lifecycle.advance(AWAKE);
    assert_eq!(step.request, Request::Broadcast);

    let step = lifecycle.advance(Outcome::Done);
    assert_eq!(step.request, Request::AcceptHost { timeout_ms: 500 });

    // The host answers.
    let step = lifecycle.advance(Outcome::Done);
    assert_eq!(step.effects, vec![Effect::InstallNotifier]);
    assert_eq!(step.request, Request::SendConnectionAccepted);
    assert_eq!(lifecycle.resources(), Resources { notifier: true, ..NOTHING });

    let step = lifecycle.advance(Outcome::Done);
    assert_eq!(step.request, Request::ReceiveStreamConfig { timeout_ms: 2000 });

    let step = lifecycle.advance(Outcome::Configured(PLAIN));
    assert_eq!(step.effects, vec![Effect::InstallStatistics]);
    assert_eq!(step.request, Request::SplitControl { timeout_ms: 500 });
    assert_eq!(lifecycle.config(), PLAIN);

    let step = lifecycle.advance(Outcome::Done);
    assert_eq!(step.request, Request::ReceiveControl { timeout_ms: 2000 });

    let step = lifecycle.advance(Outcome::Control(ServerPacket::StartStream));
    assert_eq!(step.effects, vec![Effect::PostHud(HudText::StreamStarting)]);
    assert_eq!(step.request, Request::ListenForStream { timeout_ms: 1000 });
    assert_eq!(message_body(HudText::StreamStarting, ""), STREAM_STARTING_MESSAGE);
    assert_eq!(STREAM_STARTING_MESSAGE, "The stream will begin soon\nPlease wait...");

    let step = lifecycle.advance(Outcome::Done);
    assert_eq!(step.request, Request::SendStreamReady);

    let step = lifecycle.advance(Outcome::Done);
    assert_eq!(step.request, Request::AcceptStream { timeout_ms: 2000 });
    assert!(!lifecycle.resources().streaming);

    // The commit.
    let step = lifecycle.advance(Outcome::Done);
    assert_eq!(
        step.effects,
        vec![
            Effect::PublishDecoderConfig,
            Effect::OpenEndpoints,
            Effect::SetStreaming(true),
            Effect::PublishSenders,
            Effect::EmitStreamingStarted(VALUES),
            Effect::SpawnWorkers,
        ]
    );
    assert_eq!(step.request, Request::AwaitDisconnect);
    assert_eq!(lifecycle.phase(), Phase::Streaming);
    assert_eq!(lifecycle.request(), Request::AwaitDisconnect);
    assert_eq!(
        lifecycle.resources(),
        Resources {
            streaming: true,
            control_sender: true,
            tracking_sender: true,
            statistics_sender: true,
            log_mirror: false,
            notifier: true,
            workers: 7,
        }
    );

    // The decoder's configuration arrives on the control channel.
    assert_eq!(
        after_control_reception(ControlReception::Packet(ServerPacket::InitializeDecoder)),
        WorkerStep::Handle
    );
}

#[test]
fn network_down() {
    let (mut lifecycle, _) = Lifecycle::begin();
    lifecycle.advance(AWAKE);
    lifecycle.advance(Outcome::Done);
    lifecycle.advance(AWAKE);
    let step = lifecycle.advance(Outcome::Failed);
    assert_eq!(
        step.effects,
        vec![
            Effect::PostHud(HudText::NetworkUnreachable),
            Effect::Pause(1000),
            Effect::PostHud(HudText::Initial),
            Effect::Pause(1000),
        ]
    );
    assert_eq!(message_body(HudText::NetworkUnreachable, ""), "Cannot connect to the internet");
    assert_eq!(NETWORK_UNREACHABLE_MESSAGE, "Cannot connect to the internet");
    // The supervisor loops.
    assert_eq!(step.request, Request::ReadFlags);
    assert_eq!(lifecycle.phase(), Phase::Supervising);
    assert_eq!(lifecycle.resources(), NOTHING);
    assert_eq!(lifecycle.advance(AWAKE).request, Request::OpenDiscovery);
}

#[test]
fn handshake_timeout() {
    let mut lifecycle = connected();
    let step = lifecycle.advance(Outcome::Done);
    assert_eq!(step.request, Request::ReceiveStreamConfig { timeout_ms: 2000 });
    // The stream configuration never comes.
    let step = lifecycle.advance(Outcome::Failed);
    assert_eq!(
        step.effects,
        vec![
            Effect::ClearNotifier,
            Effect::PostHud(HudText::ConnectionError),
            Effect::Pause(1000),
        ]
    );
    assert_eq!(step.request, Request::ReadFlags);
    assert_eq!(lifecycle.phase(), Phase::Supervising);
    assert_eq!(lifecycle.resources(), NOTHING);
    assert_eq!(
        message_body(HudText::ConnectionError, "timed out"),
        "Connection error:\ntimed out\nCheck the PC for more details"
    );
    assert_eq!(lifecycle.advance(AWAKE).request, Request::OpenDiscovery);
}

#[test]
fn restart_on_control_channel() {
    let mut lifecycle = streaming(PLAIN);
    // The control receive worker sees the restart.
    assert_eq!(
        after_control_reception(ControlReception::Packet(ServerPacket::Restarting)),
        WorkerStep::Stop { hud: Some(HudText::ServerRestart), notify: true }
    );
    assert_eq!(
        message_body(HudText::ServerRestart, ""),
        "The streamer is restarting\nPlease wait..."
    );
    assert_eq!(SERVER_RESTART_MESSAGE, "The streamer is restarting\nPlease wait...");
    // The notifier fires: full teardown.
    let step = lifecycle.advance(Outcome::Done);
    assert_eq!(
        step.effects,
        vec![
            Effect::SetStreaming(false),
            Effect::ClearSenders,
            Effect::EmitStreamingStopped,
            Effect::ClearDecoder,
            Effect::JoinWorkers,
            Effect::ClearNotifier,
            Effect::Pause(1000),
        ]
    );
    assert_eq!(lifecycle.resources(), NOTHING);
    assert_eq!(lifecycle.phase(), Phase::Supervising);
    // A new session begins.
    assert_eq!(step.request, Request::ReadFlags);
    assert_eq!(lifecycle.advance(AWAKE).request, Request::OpenDiscovery);
}

#[test]
fn shutdown_mid_session() {
    let mut lifecycle = streaming(PLAIN);
    // The control send worker sees the flag at its next round.
    let flags = Flags { alive: false, resumed: true, streaming: true };
    assert_eq!(
        ControlSendLoop::before_round(flags),
        WorkerStep::Stop { hud: None, notify: true }
    );
    let step = lifecycle.advance(Outcome::Done);
    assert_eq!(step.effects.len(), 7);
    assert_eq!(lifecycle.resources(), NOTHING);
    assert_eq!(step.request, Request::ReadFlags);
    // The supervisor returns.
    let step = lifecycle.advance(Outcome::Flags { alive: false, resumed: true });
    assert!(step.effects.is_empty());
    assert_eq!(step.request, Request::Exit);
    assert_eq!(lifecycle.phase(), Phase::Stopped);
    // Nothing moves it from there.
    let step = lifecycle.advance(AWAKE);
    assert!(step.effects.is_empty());
    assert_eq!(step.request, Request::Exit);
}

#[test]
fn a_closed_notifier_also_ends_the_wait() {
    let mut lifecycle = streaming(PLAIN);
    let step = lifecycle.advance(Outcome::Failed);
    assert_eq!(step.effects.len(), 7);
    assert_eq!(step.effects[0], Effect::SetStreaming(false));
    assert_eq!(lifecycle.resources(), NOTHING);
}

#[test]
fn sleeping_device_starts_no_session() {
    let (mut lifecycle, _) = Lifecycle::begin();
    let step = lifecycle.advance(Outcome::Flags { alive: true, resumed: false });
    assert_eq!(step.effects, vec![Effect::Pause(1000)]);
    assert_eq!(step.request, Request::ReadFlags);
    assert_eq!(lifecycle.phase(), Phase::Supervising);
}

#[test]
fn process_end_before_any_session() {
    let (mut lifecycle, _) = Lifecycle::begin();
    let step = lifecycle.advance(Outcome::Flags { alive: false, resumed: true });
    assert!(step.effects.is_empty());
    assert_eq!(step.request, Request::Exit);
}

#[test]
fn discovery_setup_failure_is_reported() {
    let (mut lifecycle, _) = Lifecycle::begin();
    lifecycle.advance(AWAKE);
    let step = lifecycle.advance(Outcome::Failed);
    assert_eq!(
        step.effects,
        vec![Effect::PostHud(HudText::ConnectionError), Effect::Pause(1000)]
    );
    assert_eq!(lifecycle.phase(), Phase::Supervising);
}

#[test]
fn discovery_ends_quietly_when_the_process_ends() {
    let (mut lifecycle, _) = Lifecycle::begin();
    lifecycle.advance(AWAKE);
    lifecycle.advance(Outcome::Done);
    let step = lifecycle.advance(Outcome::Flags { alive: false, resumed: true });
    assert_eq!(step.effects, vec![Effect::Pause(1000)]);
    assert_eq!(lifecycle.phase(), Phase::Supervising);
}

#[test]
fn discovery_repeats_until_a_host_answers() {
    let (mut lifecycle, _) = Lifecycle::begin();
    lifecycle.advance(AWAKE);
    lifecycle.advance(Outcome::Done);
    for _ in 0..3 {
        assert_eq!(lifecycle.advance(AWAKE).request, Request::Broadcast);
        assert_eq!(
            lifecycle.advance(Outcome::Done).request,
            Request::AcceptHost { timeout_ms: 500 }
        );
        let step = lifecycle.advance(Outcome::Failed);
        assert!(step.effects.is_empty());
        assert_eq!(step.request, Request::ReadFlags);
        assert_eq!(lifecycle.phase(), Phase::Discovering);
    }
}

#[test]
fn handshake_answers_other_than_start() {
    let cases = [
        (Outcome::Control(ServerPacket::Restarting), HudText::ServerRestart),
        (Outcome::Control(ServerPacket::InitializeDecoder), HudText::UnexpectedPacket),
        (Outcome::Control(ServerPacket::Other), HudText::UnexpectedPacket),
        (Outcome::Failed, HudText::ServerDisconnected),
    ];
    for (outcome, hud) in cases {
        let mut lifecycle = awaiting_start(PLAIN);
        let step = lifecycle.advance(outcome);
        assert_eq!(
            step.effects,
            vec![Effect::PostHud(hud), Effect::ClearNotifier, Effect::Pause(1000)]
        );
        assert_eq!(lifecycle.phase(), Phase::Supervising);
        assert_eq!(lifecycle.resources(), NOTHING);
    }
    assert_eq!(message_body(HudText::UnexpectedPacket, ""), "Unexpected packet");
    assert_eq!(
        message_body(HudText::ServerDisconnected, ""),
        "The streamer has disconnected."
    );
}

#[test]
fn setup_failures_of_the_handshake_are_reported() {
    // The number of successful steps after the connection before the failure.
    for good_steps in [0usize, 2, 4, 6] {
        let mut lifecycle = connected();
        let script = [
            Outcome::Done,
            Outcome::Configured(PLAIN),
            Outcome::Done,
            Outcome::Control(ServerPacket::StartStream),
            Outcome::Done,
            Outcome::Done,
        ];
        for outcome in script.iter().take(good_steps) {
            lifecycle.advance(*outcome);
        }
        let step = lifecycle.advance(Outcome::Failed);
        assert_eq!(
            step.effects,
            vec![
                Effect::ClearNotifier,
                Effect::PostHud(HudText::ConnectionError),
                Effect::Pause(1000),
            ]
        );
        assert_eq!(lifecycle.resources(), NOTHING);
    }
}

#[test]
fn stream_ready_that_cannot_be_sent_ends_the_session_quietly() {
    let mut lifecycle = awaiting_start(PLAIN);
    lifecycle.advance(Outcome::Control(ServerPacket::StartStream));
    assert_eq!(lifecycle.advance(Outcome::Done).request, Request::SendStreamReady);
    let step = lifecycle.advance(Outcome::Failed);
    assert_eq!(
        step.effects,
        vec![
            Effect::PostHud(HudText::ServerDisconnected),
            Effect::ClearNotifier,
            Effect::Pause(1000),
        ]
    );
}

#[test]
fn audio_devices_are_opened_before_the_commit() {
    let config = SessionConfig { game_audio: true, microphone: false, log_mirror: true, ..PLAIN };
    let mut lifecycle = awaiting_start(config);
    lifecycle.advance(Outcome::Control(ServerPacket::StartStream));
    lifecycle.advance(Outcome::Done);
    lifecycle.advance(Outcome::Done);
    let step = lifecycle.advance(Outcome::Done);
    assert_eq!(step.request, Request::OpenAudioDevices);
    assert!(!lifecycle.resources().streaming);
    // A device that cannot be opened fails the setup, before anything streams.
    let step = lifecycle.advance(Outcome::Failed);
    assert_eq!(
        step.effects,
        vec![
            Effect::ClearNotifier,
            Effect::PostHud(HudText::ConnectionError),
            Effect::Pause(1000),
        ]
    );
    assert_eq!(lifecycle.resources(), NOTHING);
}

#[test]
fn log_mirror_is_installed_when_asked_for() {
    let config = SessionConfig { game_audio: false, microphone: true, log_mirror: true, ..PLAIN };
    let mut lifecycle = awaiting_start(config);
    lifecycle.advance(Outcome::Control(ServerPacket::StartStream));
    lifecycle.advance(Outcome::Done);
    lifecycle.advance(Outcome::Done);
    assert_eq!(lifecycle.advance(Outcome::Done).request, Request::OpenAudioDevices);
    let step = lifecycle.advance(Outcome::Done);
    assert_eq!(
        step.effects,
        vec![
            Effect::PublishDecoderConfig,
            Effect::OpenEndpoints,
            Effect::SetStreaming(true),
            Effect::PublishSenders,
            Effect::InstallLogMirror,
            Effect::EmitStreamingStarted(VALUES),
            Effect::SpawnWorkers,
        ]
    );
    assert!(lifecycle.resources().log_mirror);
    lifecycle.advance(Outcome::Done);
    assert_eq!(lifecycle.resources(), NOTHING);
}

#[test]
fn an_outcome_that_answers_nothing_changes_nothing() {
    let mut lifecycle = streaming(PLAIN);
    let before = lifecycle.resources();
    for outcome in [AWAKE, Outcome::Configured(PLAIN), Outcome::Control(ServerPacket::Restarting)]
    {
        let step = lifecycle.advance(outcome);
        assert!(step.effects.is_empty());
        assert_eq!(step.request, Request::AwaitDisconnect);
        assert_eq!(lifecycle.phase(), Phase::Streaming);
        assert_eq!(lifecycle.resources(), before);
    }
}

#[test]
fn every_session_leaves_nothing_behind() {
    // Runs of forty outcomes: mostly the one that lets the session go on,
    // now and then any other. Whenever no session stands connected, nothing
    // is held.
    let outcomes = [
        AWAKE,
        Outcome::Flags { alive: true, resumed: false },
        Outcome::Done,
        Outcome::Failed,
        Outcome::Configured(PLAIN),
        Outcome::Configured(SessionConfig { game_audio: true, microphone: true, log_mirror: true, ..PLAIN }),
        Outcome::Control(ServerPacket::StartStream),
        Outcome::Control(ServerPacket::Restarting),
        Outcome::Control(ServerPacket::Other),
    ];
    let mut seed: u64 = 0x2545_F491_4F6C_DD1D;
    let mut streamed = 0;
    for _ in 0..5_000 {
        let (mut lifecycle, _) = Lifecycle::begin();
        let mut held = lifecycle.resources();
        for _ in 0..40 {
            seed ^= seed << 13;
            seed ^= seed >> 7;
            seed ^= seed << 17;
            let outcome = if seed % 8 != 0 {
                match lifecycle.request() {
                    Request::ReadFlags => AWAKE,
                    Request::ReceiveStreamConfig { .. } => outcomes[4 + (seed >> 8) as usize % 2],
                    Request::ReceiveControl { .. } => Outcome::Control(ServerPacket::StartStream),
                    _ => Outcome::Done,
                }
            } else {
                outcomes[((seed >> 8) % outcomes.len() as u64) as usize]
            };
            let step = lifecycle.advance(outcome);
            for effect in step.effects.iter() {
                held = apply(held, *effect);
            }
            assert_eq!(held, lifecycle.resources());
            assert_eq!(step.request, request_of(lifecycle.phase()));
            let streams = lifecycle.phase() == Phase::Streaming;
            assert_eq!(held.streaming, streams);
            if streams {
                streamed += 1;
                assert!(held.control_sender && held.tracking_sender && held.statistics_sender);
                assert!(held.notifier);
                assert_eq!(held.workers, 7);
                assert_eq!(step.request, Request::AwaitDisconnect);
            }
            if matches!(
                lifecycle.phase(),
                Phase::Supervising
                    | Phase::OpeningDiscovery
                    | Phase::Discovering
                    | Phase::Broadcasting
                    | Phase::AwaitingHost
                    | Phase::Stopped
            ) {
                assert_eq!(held, NOTHING);
            }
        }
    }
    assert!(streamed > 0);
}

#[test]
fn effects_on_what_is_held() {
    assert_eq!(apply(NOTHING, Effect::InstallNotifier), Resources { notifier: true, ..NOTHING });
    assert_eq!(apply(NOTHING, Effect::SetStreaming(true)), Resources { streaming: true, ..NOTHING });
    assert_eq!(apply(NOTHING, Effect::SpawnWorkers), Resources { workers: 7, ..NOTHING });
    assert_eq!(apply(NOTHING, Effect::InstallLogMirror), Resources { log_mirror: true, ..NOTHING });
    assert_eq!(
        apply(NOTHING, Effect::PublishSenders),
        Resources {
            control_sender: true,
            tracking_sender: true,
            statistics_sender: true,
            ..NOTHING
        }
    );
    let full = Resources {
        streaming: true,
        control_sender: true,
        tracking_sender: true,
        statistics_sender: true,
        log_mirror: true,
        notifier: true,
        workers: 7,
    };
    assert_eq!(
        apply(full, Effect::ClearSenders),
        Resources {
            control_sender: false,
            tracking_sender: false,
            statistics_sender: false,
            log_mirror: false,
            ..full
        }
    );
    assert_eq!(apply(full, Effect::JoinWorkers), Resources { workers: 0, ..full });
    assert_eq!(apply(full, Effect::ClearNotifier), Resources { notifier: false, ..full });
    assert_eq!(apply(full, Effect::SetStreaming(false)), Resources { streaming: false, ..full });
    for effect in [
        Effect::PostHud(HudText::Initial),
        Effect::Pause(5),
        Effect::InstallStatistics,
        Effect::PublishDecoderConfig,
        Effect::OpenEndpoints,
        Effect::EmitStreamingStarted(VALUES),
        Effect::EmitStreamingStopped,
        Effect::ClearDecoder,
    ] {
        assert_eq!(apply(full, effect), full);
        assert_eq!(apply(NOTHING, effect), NOTHING);
    }
}

#[test]
fn audio_workers_idle_when_switched_off() {
    let all = [
        Worker::VideoReceive,
        Worker::GameAudio,
        Worker::MicrophoneRecord,
        Worker::HapticsReceive,
        Worker::ControlSend,
        Worker::ControlReceive,
        Worker::StreamPump,
    ];
    assert_eq!(all.len(), WORKER_COUNT as usize);
    let audio = SessionConfig { game_audio: true, microphone: false, log_mirror: false, ..PLAIN };
    let microphone = SessionConfig { game_audio: false, microphone: true, log_mirror: false, ..PLAIN };
    for worker in all {
        let is_game_audio = worker == Worker::GameAudio;
        let is_microphone = worker == Worker::MicrophoneRecord;
        assert_eq!(worker_has_work(worker, PLAIN), !is_game_audio && !is_microphone);
        assert_eq!(worker_has_work(worker, audio), !is_microphone);
        assert_eq!(worker_has_work(worker, microphone), !is_game_audio);
    }
}

#[test]
fn started_event_reports_what_was_negotiated() {
    let text = r#"{"view_resolution":[1832,1920],"refresh_rate_hint":72.0,"game_audio_sample_rate":44100}"#;
    let negotiated = negotiate(text).unwrap();
    assert_eq!(
        negotiated,
        NegotiatedValues {
            view_resolution: Resolution { width: 1832, height: 1920 },
            refresh_rate_hint_bits: 72.0f64.to_bits(),
            game_audio_sample_rate: 44100,
        }
    );
    let config = SessionConfig { negotiated, ..PLAIN };
    let mut lifecycle = awaiting_start(config);
    assert_eq!(lifecycle.config(), config);
    lifecycle.advance(Outcome::Control(ServerPacket::StartStream));
    lifecycle.advance(Outcome::Done);
    lifecycle.advance(Outcome::Done);
    let step = lifecycle.advance(Outcome::Done);
    let started: Vec<&Effect> = step
        .effects
        .iter()
        .filter(|effect| matches!(effect, Effect::EmitStreamingStarted(_)))
        .collect();
    assert_eq!(started, vec![&Effect::EmitStreamingStarted(negotiated)]);
    assert_eq!(lifecycle.config(), config);
}

#[test]
fn a_lifecycle_starts_with_the_default_values() {
    let (lifecycle, _) = Lifecycle::begin();
    let config = lifecycle.config();
    assert!(!config.game_audio && !config.microphone && !config.log_mirror);
    assert_eq!(Ok(config.negotiated), negotiate("{}"));
}
