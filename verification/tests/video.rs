use alvr_connection::video::{VideoDecision, VideoLatch, VideoPacket};

const PLAIN: VideoPacket = VideoPacket { is_idr: false, had_packet_loss: false };
const LOSSY: VideoPacket = VideoPacket { is_idr: false, had_packet_loss: true };
const IDR: VideoPacket = VideoPacket { is_idr: true, had_packet_loss: false };
const LOSSY_IDR: VideoPacket = VideoPacket { is_idr: true, had_packet_loss: true };

#[test]
fn intact_stream_pushes_without_request() {
    let mut latch = VideoLatch::new(true);
    let decision = latch.on_packet(PLAIN);
    assert_eq!(decision, VideoDecision { request_idr: false, push: true });
    assert!(!latch.is_corrupted());
}

#[test]
fn packet_loss_then_idr_recovery() {
    let mut latch = VideoLatch::new(true);
    assert_eq!(latch.on_packet(PLAIN), VideoDecision { request_idr: false, push: true });
    assert!(!latch.on_decoder_result(true));

    // The loss: one request, and the packet is kept from the decoder.
    assert_eq!(latch.on_packet(LOSSY), VideoDecision { request_idr: true, push: false });
    assert!(latch.is_corrupted());

    // Until a keyframe arrives nothing else is pushed.
    assert_eq!(latch.on_packet(PLAIN), VideoDecision { request_idr: true, push: false });
    assert_eq!(latch.on_packet(PLAIN), VideoDecision { request_idr: true, push: false });
    assert!(latch.is_corrupted());

    // The keyframe mends the stream.
    assert_eq!(latch.on_packet(IDR), VideoDecision { request_idr: false, push: true });
    assert!(!latch.on_decoder_result(true));
    assert!(!latch.is_corrupted());
    assert_eq!(latch.on_packet(PLAIN), VideoDecision { request_idr: false, push: true });
}

#[test]
fn loss_flag_on_a_keyframe_is_no_damage() {
    let mut latch = VideoLatch::new(true);
    assert_eq!(latch.on_packet(LOSSY), VideoDecision { request_idr: true, push: false });
    assert_eq!(latch.on_packet(LOSSY_IDR), VideoDecision { request_idr: false, push: true });
    assert!(!latch.is_corrupted());
}

#[test]
fn decoder_saturation_corrupts_the_stream() {
    let mut latch = VideoLatch::new(true);
    assert_eq!(latch.on_packet(PLAIN), VideoDecision { request_idr: false, push: true });
    // The decoder turns the packet down: a request follows at once.
    assert!(latch.on_decoder_result(false));
    assert!(latch.is_corrupted());
    assert_eq!(latch.on_packet(PLAIN), VideoDecision { request_idr: true, push: false });
    assert_eq!(latch.on_packet(IDR), VideoDecision { request_idr: false, push: true });
    assert!(!latch.on_decoder_result(true));
    assert!(!latch.is_corrupted());
}

#[test]
fn saturation_on_a_keyframe_keeps_the_stream_corrupted() {
    let mut latch = VideoLatch::new(true);
    assert_eq!(latch.on_packet(IDR), VideoDecision { request_idr: false, push: true });
    assert!(latch.on_decoder_result(false));
    assert!(latch.is_corrupted());
    assert_eq!(latch.on_packet(PLAIN), VideoDecision { request_idr: true, push: false });
}

#[test]
fn without_glitch_avoidance_everything_is_pushed() {
    let mut latch = VideoLatch::new(false);
    // The request still goes out, before the push.
    assert_eq!(latch.on_packet(LOSSY), VideoDecision { request_idr: true, push: true });
    assert!(latch.is_corrupted());
    assert!(!latch.on_decoder_result(true));
    assert!(latch.is_corrupted());
    assert_eq!(latch.on_packet(PLAIN), VideoDecision { request_idr: false, push: true });
    assert!(latch.is_corrupted());
    assert_eq!(latch.on_packet(IDR), VideoDecision { request_idr: false, push: true });
    assert!(!latch.is_corrupted());
}

#[test]
fn every_corruption_comes_with_a_request() {
    // All streams of four packets, with every answer of the decoder.
    for avoid in [false, true] {
        for code in 0u32..(1 << 12) {
            let mut latch = VideoLatch::new(avoid);
            for step in 0..4 {
                let bits = (code >> (3 * step)) & 7;
                let packet = VideoPacket { is_idr: bits & 1 != 0, had_packet_loss: bits & 2 != 0 };
                let accepted = bits & 4 != 0;
                let before = latch.is_corrupted();
                let decision = latch.on_packet(packet);
                if !before && latch.is_corrupted() {
                    assert!(decision.request_idr);
                }
                if avoid && decision.push {
                    assert!(packet.is_idr || !before);
                    assert!(!latch.is_corrupted());
                }
                if decision.push {
                    let before = latch.is_corrupted();
                    let request = latch.on_decoder_result(accepted);
                    assert_eq!(request, !accepted);
                    if !before && latch.is_corrupted() {
                        assert!(request);
                    }
                }
            }
        }
    }
}
