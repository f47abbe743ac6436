//! The video receive worker: which packets reach the decoder, and when a
//! keyframe is asked for.

use vstd::prelude::*;

verus! {

/// What the worker reads of one received video packet.
#[derive(Clone, Copy, Debug, PartialEq, Eq, Structural)]
pub struct VideoPacket {
    /// The packet is a keyframe.
    pub is_idr: bool,
    /// The transport reported a loss before this packet.
    pub had_packet_loss: bool,
}

/// What to do with a received packet. A keyframe request, if any, is sent
/// before the packet is pushed.
#[derive(Clone, Copy, Debug, PartialEq, Eq, Structural)]
pub struct VideoDecision {
    /// Send one keyframe request to the host.
    pub request_idr: bool,
    /// Hand the packet to the decoder; otherwise drop it.
    pub push: bool,
}

/// One packet of a stream together with the answer that the decoder gives if
/// the packet is handed to it.
pub struct VideoEvent {
    pub packet: VideoPacket,
    pub decoder_accepts: bool,
}

/// The corruption latch once `packet` has arrived: a keyframe clears it, a
/// reported loss sets it.
pub open spec fn corrupted_on_arrival(before: bool, packet: VideoPacket) -> bool {
    !packet.is_idr && (before || packet.had_packet_loss)
}

/// A packet is pushed while the stream is intact, or always if glitches are
/// tolerated.
pub open spec fn pushes(avoid_video_glitching: bool, corrupted: bool) -> bool {
    !corrupted || !avoid_video_glitching
}

/// The decision on a packet that arrives while the latch holds `before`.
pub open spec fn decision_on(avoid_video_glitching: bool, before: bool, packet: VideoPacket)
    -> VideoDecision {
    let push = pushes(avoid_video_glitching, corrupted_on_arrival(before, packet));
    VideoDecision {
        request_idr: (!packet.is_idr && packet.had_packet_loss) || !push,
        push,
    }
}

/// The latch after a whole event: arrival, then the decoder's answer where the
/// packet was pushed.
pub open spec fn corrupted_after_event(avoid_video_glitching: bool, before: bool, event: VideoEvent)
    -> bool {
    let arrived = corrupted_on_arrival(before, event.packet);
    arrived || (pushes(avoid_video_glitching, arrived) && !event.decoder_accepts)
}

/// The latch after a stream of events, starting from an intact stream.
pub open spec fn corrupted_after(avoid_video_glitching: bool, events: Seq<VideoEvent>) -> bool
    decreases events.len(),
{
    if events.len() == 0 {
        false
    } else {
        corrupted_after_event(
            avoid_video_glitching,
            corrupted_after(avoid_video_glitching, events.drop_last()),
            events.last(),
        )
    }
}

/// Whether event `i` of the stream is pushed to the decoder.
pub open spec fn pushed_at(avoid_video_glitching: bool, events: Seq<VideoEvent>, i: int) -> bool
    recommends
        0 <= i < events.len(),
{
    pushes(
        avoid_video_glitching,
        corrupted_on_arrival(
            corrupted_after(avoid_video_glitching, events.take(i)),
            events[i].packet,
        ),
    )
}

/// Whether event `i` damages the stream: a loss reported on a packet that is no
/// keyframe, or a pushed packet that the decoder turns down.
pub open spec fn damages_at(avoid_video_glitching: bool, events: Seq<VideoEvent>, i: int) -> bool
    recommends
        0 <= i < events.len(),
{
    (!events[i].packet.is_idr && events[i].packet.had_packet_loss) || (pushed_at(
        avoid_video_glitching,
        events,
        i,
    ) && !events[i].decoder_accepts)
}

/// No keyframe arrives strictly between events `j` and `i`.
pub open spec fn no_idr_between(events: Seq<VideoEvent>, j: int, i: int) -> bool {
    forall|k: int| j < k < i && 0 <= k < events.len() ==> !(#[trigger] events[k]).packet.is_idr
}

/// The state of the video receive worker.
pub struct VideoLatch {
    stream_corrupted: bool,
    avoid_video_glitching: bool,
}

impl VideoLatch {
    /// Whether the stream is corrupted and waits for a keyframe.
    pub closed spec fn corrupted(&self) -> bool {
        self.stream_corrupted
    }

    /// Whether packets of a corrupted stream are kept from the decoder.
    pub closed spec fn avoids_glitching(&self) -> bool {
        self.avoid_video_glitching
    }

    /// A worker at the start of a session: the stream is intact.
    pub fn new(avoid_video_glitching: bool) -> (latch: Self)
        ensures
            !latch.corrupted(),
            latch.avoids_glitching() == avoid_video_glitching,
    {
        VideoLatch { stream_corrupted: false, avoid_video_glitching }
    }

    /// Whether the stream is corrupted.
    pub fn is_corrupted(&self) -> (corrupted: bool)
        ensures
            corrupted == self.corrupted(),
    {
        self.stream_corrupted
    }

    /// Takes note of a received packet and says what to do with it. Whenever
    /// the latch goes from intact to corrupted here, a keyframe request is part
    /// of the answer, and it is sent before anything is pushed.
    pub fn on_packet(&mut self, packet: VideoPacket) -> (decision: VideoDecision)
        ensures
            final(self).avoids_glitching() == old(self).avoids_glitching(),
            final(self).corrupted() == corrupted_on_arrival(old(self).corrupted(), packet),
            decision == decision_on(old(self).avoids_glitching(), old(self).corrupted(), packet),
            !old(self).corrupted() && final(self).corrupted() ==> decision.request_idr,
            decision.push && old(self).avoids_glitching() ==> !final(self).corrupted(),
    {
        if packet.is_idr {
            self.stream_corrupted = false;
        } else if packet.had_packet_loss {
            self.stream_corrupted = true;
        }
        let push = !self.stream_corrupted || !self.avoid_video_glitching;
        VideoDecision { request_idr: (!packet.is_idr && packet.had_packet_loss) || !push, push }
    }

    /// Takes note of the decoder's answer to a pushed packet and says whether
    /// to send a keyframe request: a packet turned down corrupts the stream.
    pub fn on_decoder_result(&mut self, accepted: bool) -> (request_idr: bool)
        ensures
            final(self).avoids_glitching() == old(self).avoids_glitching(),
            final(self).corrupted() == (old(self).corrupted() || !accepted),
            request_idr == !accepted,
            !old(self).corrupted() && final(self).corrupted() ==> request_idr,
    {
        if !accepted {
            self.stream_corrupted = true;
        }
        !accepted
    }
}

/// Events before `i` look the same in a stream and in its first `i` events.
proof fn lemma_prefix_agrees(avoid_video_glitching: bool, events: Seq<VideoEvent>, i: int, j: int)
    requires
        0 <= j < i <= events.len(),
    ensures
        damages_at(avoid_video_glitching, events.take(i), j) == damages_at(
            avoid_video_glitching,
            events,
            j,
        ),
        no_idr_between(events.take(i), j, i) == no_idr_between(events, j, i),
{
    assert(events.take(i).take(j) =~= events.take(j));
    assert(events.take(i)[j] == events[j]);
    if no_idr_between(events.take(i), j, i) {
        assert forall|k: int| j < k < i && 0 <= k < events.len() implies !(
        #[trigger] events[k]).packet.is_idr by {
            assert(events.take(i)[k] == events[k]);
        }
    }
    if no_idr_between(events, j, i) {
        assert forall|k: int| j < k < i && 0 <= k < events.take(i).len() implies !(
        #[trigger] events.take(i)[k]).packet.is_idr by {
            assert(events.take(i)[k] == events[k]);
        }
    }
}

/// The latch is exactly the memory of damage since the last keyframe: the
/// stream is corrupted after `events` if and only if some event damaged it and
/// no keyframe has arrived since.
pub proof fn lemma_corrupted_iff_damaged_since_idr(
    avoid_video_glitching: bool,
    events: Seq<VideoEvent>,
)
    ensures
        corrupted_after(avoid_video_glitching, events) <==> exists|j: int|
            0 <= j < events.len() && #[trigger] damages_at(avoid_video_glitching, events, j)
                && no_idr_between(events, j, events.len() as int),
    decreases events.len(),
{
    if events.len() > 0 {
        let n = events.len() - 1;
        let prefix = events.drop_last();
        let last = events.last();
        assert(prefix =~= events.take(n));
        lemma_corrupted_iff_damaged_since_idr(avoid_video_glitching, prefix);
        let before = corrupted_after(avoid_video_glitching, prefix);
        if corrupted_after(avoid_video_glitching, events) {
            if damages_at(avoid_video_glitching, events, n) {
                assert(no_idr_between(events, n, events.len() as int));
            } else {
                assert(before && !last.packet.is_idr);
                let j = choose|j: int|
                    0 <= j < prefix.len() && #[trigger] damages_at(avoid_video_glitching, prefix, j)
                        && no_idr_between(prefix, j, prefix.len() as int);
                lemma_prefix_agrees(avoid_video_glitching, events, n, j);
                assert(damages_at(avoid_video_glitching, events, j));
                assert(no_idr_between(events, j, events.len() as int));
            }
        }
        if exists|j: int|
            0 <= j < events.len() && #[trigger] damages_at(avoid_video_glitching, events, j)
                && no_idr_between(events, j, events.len() as int) {
            let j = choose|j: int|
                0 <= j < events.len() && #[trigger] damages_at(avoid_video_glitching, events, j)
                    && no_idr_between(events, j, events.len() as int);
            if j < n {
                lemma_prefix_agrees(avoid_video_glitching, events, n, j);
                assert(!events[n].packet.is_idr);
                assert(no_idr_between(events, j, n));
                assert(damages_at(avoid_video_glitching, prefix, j));
                assert(before);
            }
        }
    }
}

/// With glitch avoidance on, a packet that reaches the decoder is a keyframe,
/// or nothing has damaged the stream since the last keyframe (or since the
/// start, if there was none): no loss was reported and the decoder turned
/// nothing down.
pub proof fn lemma_decoder_sees_only_intact_streams(events: Seq<VideoEvent>, i: int)
    requires
        0 <= i < events.len(),
        pushed_at(true, events, i),
    ensures
        events[i].packet.is_idr || (!events[i].packet.had_packet_loss && forall|j: int|
            0 <= j < i && no_idr_between(events, j, i) ==> !#[trigger] damages_at(
                true,
                events,
                j,
            )),
{
    if !events[i].packet.is_idr {
        let prefix = events.take(i);
        lemma_corrupted_iff_damaged_since_idr(true, prefix);
        assert(!corrupted_after(true, prefix));
        assert forall|j: int| 0 <= j < i && no_idr_between(events, j, i) implies !#[trigger] damages_at(
            true,
            events,
            j,
        ) by {
            lemma_prefix_agrees(true, events, i, j);
        }
    }
}

/// Without glitch avoidance every packet is pushed, whatever came before.
pub proof fn lemma_everything_pushed_without_avoidance(events: Seq<VideoEvent>, i: int)
    requires
        0 <= i < events.len(),
    ensures
        pushed_at(false, events, i),
{
}

} // verus!
