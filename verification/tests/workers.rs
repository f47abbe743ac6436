use alvr_connection::control::{ControlSendLoop, Flags, TimerActions, BATTERY_INTERVAL_MS};
use alvr_connection::hud::HudText;
use alvr_connection::workers::{
    after_control_reception, after_reception, ControlReception, Reception, RecordRetry,
    RecordStep, ServerPacket, WorkerStep, RECORD_RETRY_PAUSE_MAX_MS, RECORD_RETRY_PAUSE_MIN_MS,
};

const DISCONNECTED: WorkerStep =
    WorkerStep::Stop { hud: Some(HudText::ServerDisconnected), notify: true };

#[test]
fn a_timeout_is_not_fatal() {
    assert_eq!(after_reception(Reception::TimedOut), WorkerStep::Retry);
    assert_eq!(after_control_reception(ControlReception::TimedOut), WorkerStep::Retry);
}

#[test]
fn a_delivery_is_handled() {
    assert_eq!(after_reception(Reception::Delivered), WorkerStep::Handle);
}

#[test]
fn a_fatal_error_posts_and_notifies() {
    assert_eq!(after_reception(Reception::Failed), DISCONNECTED);
    assert_eq!(after_control_reception(ControlReception::Failed), DISCONNECTED);
}

#[test]
fn control_receive_tells_packets_apart() {
    assert_eq!(
        after_control_reception(ControlReception::Packet(ServerPacket::InitializeDecoder)),
        WorkerStep::Handle
    );
    assert_eq!(
        after_control_reception(ControlReception::Packet(ServerPacket::Restarting)),
        WorkerStep::Stop { hud: Some(HudText::ServerRestart), notify: true }
    );
    assert_eq!(
        after_control_reception(ControlReception::Packet(ServerPacket::StartStream)),
        WorkerStep::Retry
    );
    assert_eq!(
        after_control_reception(ControlReception::Packet(ServerPacket::Other)),
        WorkerStep::Retry
    );
}

#[test]
fn control_send_runs_while_all_flags_are_up() {
    let up = Flags { alive: true, resumed: true, streaming: true };
    assert_eq!(ControlSendLoop::before_round(up), WorkerStep::Handle);
    let leave = WorkerStep::Stop { hud: None, notify: true };
    assert_eq!(ControlSendLoop::before_round(Flags { alive: false, ..up }), leave);
    assert_eq!(ControlSendLoop::before_round(Flags { resumed: false, ..up }), leave);
    assert_eq!(ControlSendLoop::before_round(Flags { streaming: false, ..up }), leave);
}

#[test]
fn a_log_record_that_cannot_be_sent_ends_the_worker() {
    assert_eq!(ControlSendLoop::after_log_forward(true), WorkerStep::Retry);
    assert_eq!(ControlSendLoop::after_log_forward(false), DISCONNECTED);
}

#[test]
fn keepalive_cadence() {
    let interval = 5000;
    let mut timers = ControlSendLoop::new(1000, interval, false);
    // Not yet past the deadline: the deadline itself does not count.
    assert_eq!(timers.poll(1000, true), TimerActions { keepalive: false, battery: false });
    assert_eq!(timers.poll(1001, true), TimerActions { keepalive: true, battery: false });
    // The next deadline is 6001.
    let mut last = 1001;
    let mut sent = Vec::new();
    let mut now = 1001;
    while now < 40_000 {
        now += 500;
        if timers.poll(now, true).keepalive {
            sent.push(now - last);
            last = now;
        }
    }
    assert!(!sent.is_empty());
    for gap in sent {
        assert!(gap > interval);
        assert!(gap <= interval + 500);
        assert_eq!(gap, 5500);
    }
}

#[test]
fn keepalive_waits_for_a_sender() {
    let mut timers = ControlSendLoop::new(0, 100, false);
    assert!(!timers.poll(50, false).keepalive);
    assert!(!timers.poll(500, false).keepalive);
    // The deadline did not move while no sender was there.
    assert!(timers.poll(501, true).keepalive);
    assert!(!timers.poll(601, true).keepalive);
    assert!(timers.poll(602, true).keepalive);
}

#[test]
fn battery_report_every_five_seconds() {
    assert_eq!(BATTERY_INTERVAL_MS, 5000);
    let mut timers = ControlSendLoop::new(0, 1_000_000, true);
    assert_eq!(timers.poll(1, true), TimerActions { keepalive: true, battery: true });
    assert!(!timers.poll(5001, true).battery);
    assert!(timers.poll(5002, true).battery);
    // Without a sender the report is skipped, and the timer still moves on.
    assert!(!timers.poll(10_003, false).battery);
    assert!(!timers.poll(10_004, true).battery);
    assert!(!timers.poll(15_003, true).battery);
    assert!(timers.poll(15_004, true).battery);
}

#[test]
fn no_battery_report_without_a_battery() {
    let mut timers = ControlSendLoop::new(0, 100, false);
    assert!(!timers.poll(10_000, true).battery);
    assert!(!timers.poll(20_000, true).battery);
}

#[test]
fn record_retry_backs_off_up_to_the_bound() {
    assert_eq!(RECORD_RETRY_PAUSE_MIN_MS, 50);
    assert_eq!(RECORD_RETRY_PAUSE_MAX_MS, 500);
    let mut retry = RecordRetry::new();
    let mut pauses = Vec::new();
    for _ in 0..7 {
        match retry.on_record_result(true, false) {
            RecordStep::RetryAfter(pause) => pauses.push(pause),
            RecordStep::Stop => panic!("a failure while streaming is retried"),
        }
    }
    assert_eq!(pauses, vec![50, 100, 200, 400, 500, 500, 500]);
}

#[test]
fn record_loop_ends_on_a_clean_return_or_the_end_of_streaming() {
    let mut retry = RecordRetry::new();
    assert_eq!(retry.on_record_result(true, true), RecordStep::Stop);
    assert_eq!(retry.on_record_result(false, false), RecordStep::Stop);
    assert_eq!(retry.on_record_result(false, true), RecordStep::Stop);
    assert_eq!(retry.on_record_result(true, false), RecordStep::RetryAfter(50));
}
