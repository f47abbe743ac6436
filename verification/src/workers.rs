//! What the streaming workers do with the outcome of a receive.
//!
//! Every worker waits for its input with a bounded timeout. A timeout is no
//! failure: the worker tries again. Any other failure ends the worker, which
//! first posts that the streamer is gone and fires the disconnect notifier.

use crate::hud::HudText;
use vstd::prelude::*;

verus! {

/// The longest pause between two attempts to record, in milliseconds.
pub const RECORD_RETRY_PAUSE_MAX_MS: u64 = 500;

/// The pause after a first failed attempt to record, in milliseconds.
pub const RECORD_RETRY_PAUSE_MIN_MS: u64 = 50;

/// How a bounded-timeout receive ended.
#[derive(Clone, Copy, Debug, PartialEq, Eq, Structural)]
pub enum Reception {
    /// Something arrived and could be read.
    Delivered,
    /// The timeout expired with nothing received.
    TimedOut,
    /// The connection is lost, or what arrived cannot be read.
    Failed,
}

/// What a worker does next.
#[derive(Clone, Copy, Debug, PartialEq, Eq)]
pub enum WorkerStep {
    /// Work on what was delivered, then go round again.
    Handle,
    /// Go round again.
    Retry,
    /// Leave the loop. Before leaving, post `hud` if there is one and fire the
    /// disconnect notifier if `notify` is set.
    Stop { hud: Option<HudText>, notify: bool },
}

/// The packets of the control channel that the client tells apart.
#[derive(Clone, Copy, Debug, PartialEq, Eq, Structural)]
pub enum ServerPacket {
    StartStream,
    InitializeDecoder,
    Restarting,
    /// Any other packet.
    Other,
}

/// How a receive on the control channel ended.
#[derive(Clone, Copy, Debug, PartialEq, Eq)]
pub enum ControlReception {
    Packet(ServerPacket),
    TimedOut,
    Failed,
}

/// The step that follows a receive on a stream: the video, the haptics and the
/// transport's own pump all go by it.
pub open spec fn step_after(reception: Reception) -> WorkerStep {
    match reception {
        Reception::Delivered => WorkerStep::Handle,
        Reception::TimedOut => WorkerStep::Retry,
        Reception::Failed => WorkerStep::Stop {
            hud: Some(HudText::ServerDisconnected),
            notify: true,
        },
    }
}

/// The step that follows a receive on the control channel while streaming.
/// `Handle` stands for creating the decoder with the packet's configuration.
pub open spec fn control_step_after(reception: ControlReception) -> WorkerStep {
    match reception {
        ControlReception::Packet(ServerPacket::InitializeDecoder) => WorkerStep::Handle,
        ControlReception::Packet(ServerPacket::Restarting) => WorkerStep::Stop {
            hud: Some(HudText::ServerRestart),
            notify: true,
        },
        ControlReception::Packet(_) => WorkerStep::Retry,
        ControlReception::TimedOut => WorkerStep::Retry,
        ControlReception::Failed => WorkerStep::Stop {
            hud: Some(HudText::ServerDisconnected),
            notify: true,
        },
    }
}

/// The pause before the next attempt to record after `failures` failed
/// attempts in a row: it doubles from the shortest pause up to the longest.
pub open spec fn record_retry_pause(failures: nat) -> nat
    decreases failures,
{
    if failures == 0 {
        0
    } else if failures == 1 {
        RECORD_RETRY_PAUSE_MIN_MS as nat
    } else {
        let doubled = 2 * record_retry_pause((failures - 1) as nat);
        if doubled < RECORD_RETRY_PAUSE_MAX_MS {
            doubled
        } else {
            RECORD_RETRY_PAUSE_MAX_MS as nat
        }
    }
}

/// What the microphone worker does once an attempt to record has returned.
#[derive(Clone, Copy, Debug, PartialEq, Eq)]
pub enum RecordStep {
    /// Leave the loop.
    Stop,
    /// Wait that many milliseconds, then record again.
    RetryAfter(u64),
}

/// Says what a worker does after a receive on its stream.
pub fn after_reception(reception: Reception) -> (step: WorkerStep)
    ensures
        step == step_after(reception),
{
    match reception {
        Reception::Delivered => WorkerStep::Handle,
        Reception::TimedOut => WorkerStep::Retry,
        Reception::Failed => WorkerStep::Stop {
            hud: Some(HudText::ServerDisconnected),
            notify: true,
        },
    }
}

/// Says what the control receive worker does after a receive.
pub fn after_control_reception(reception: ControlReception) -> (step: WorkerStep)
    ensures
        step == control_step_after(reception),
{
    match reception {
        ControlReception::Packet(ServerPacket::InitializeDecoder) => WorkerStep::Handle,
        ControlReception::Packet(ServerPacket::Restarting) => WorkerStep::Stop {
            hud: Some(HudText::ServerRestart),
            notify: true,
        },
        ControlReception::Packet(_) => WorkerStep::Retry,
        ControlReception::TimedOut => WorkerStep::Retry,
        ControlReception::Failed => WorkerStep::Stop {
            hud: Some(HudText::ServerDisconnected),
            notify: true,
        },
    }
}

/// No pause is longer than the longest pause, and after a failure there is
/// always one.
pub proof fn lemma_record_retry_pause_bounded(failures: nat)
    ensures
        record_retry_pause(failures) <= RECORD_RETRY_PAUSE_MAX_MS,
        failures > 0 ==> record_retry_pause(failures) >= RECORD_RETRY_PAUSE_MIN_MS,
    decreases failures,
{
    if failures > 1 {
        lemma_record_retry_pause_bounded((failures - 1) as nat);
    }
}

/// The microphone worker's count of failed attempts in a row.
pub struct RecordRetry {
    failures: u32,
    pause_ms: u64,
}

impl RecordRetry {
    /// The number of attempts that failed since the last start.
    pub closed spec fn failures(&self) -> nat {
        self.failures as nat
    }

    /// The count and the pause that goes with it agree.
    pub closed spec fn wf(&self) -> bool {
        self.pause_ms as nat == record_retry_pause(self.failures as nat)
    }

    /// A worker that has not failed yet.
    pub fn new() -> (retry: Self)
        ensures
            retry.wf(),
            retry.failures() == 0,
    {
        RecordRetry { failures: 0, pause_ms: 0 }
    }

    /// Takes note of how an attempt to record ended. A clean return ends the
    /// worker, and so does the end of streaming; a failure while streaming is
    /// followed by a pause and another attempt. The count stops at the largest
    /// number it can hold.
    pub fn on_record_result(&mut self, streaming: bool, recorded: bool) -> (step: RecordStep)
        requires
            old(self).wf(),
        ensures
            final(self).wf(),
            recorded || !streaming ==> step == RecordStep::Stop && *final(self) == *old(self),
            !recorded && streaming ==> final(self).failures() == (if old(self).failures()
                < u32::MAX {
                old(self).failures() + 1
            } else {
                old(self).failures()
            }) && step == RecordStep::RetryAfter(record_retry_pause(final(self).failures()) as u64)
                && RECORD_RETRY_PAUSE_MIN_MS <= record_retry_pause(final(self).failures())
                <= RECORD_RETRY_PAUSE_MAX_MS,
    {
        if recorded || !streaming {
            return RecordStep::Stop;
        }
        proof {
            lemma_record_retry_pause_bounded(self.failures as nat);
            lemma_record_retry_pause_bounded((self.failures + 1) as nat);
        }
        if self.failures < u32::MAX {
            let pause: u64 = if self.failures == 0 {
                RECORD_RETRY_PAUSE_MIN_MS
            } else if 2 * self.pause_ms < RECORD_RETRY_PAUSE_MAX_MS {
                2 * self.pause_ms
            } else {
                RECORD_RETRY_PAUSE_MAX_MS
            };
            self.failures = self.failures + 1;
            self.pause_ms = pause;
        }
        RecordStep::RetryAfter(self.pause_ms)
    }
}

} // verus!
